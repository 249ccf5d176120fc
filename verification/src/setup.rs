use vstd::prelude::*;
use crate::assets::ColorMilli;
use crate::units::{PiFraction, Vec3Milli, MILLI};

verus! {

/// The single directional light: where it hangs, how far it is pitched
/// down, and whether it casts shadows.
#[derive(Clone, Copy, Debug, PartialEq, Eq)]
pub struct DirectionalLightPlan {
    pub shadows_enabled: bool,
    pub position: Vec3Milli,
    pub pitch: PiFraction,
}

/// The lighting of the scene: a dim ambient term plus one shadow-casting
/// directional light.
#[derive(Clone, Copy, Debug, PartialEq, Eq)]
pub struct LightingPlan {
    pub ambient_brightness: i64,
    pub directional: DirectionalLightPlan,
}

/// Lighting is fixed: ambient brightness of three tenths, and a directional
/// light two units up, pitched down by a fifth of pi, with shadows on.
pub fn lighting_plan() -> (r: LightingPlan)
    ensures
        r.ambient_brightness == 300,
        r.directional.shadows_enabled,
        r.directional.position.x == 0 && r.directional.position.y == 2 * MILLI
            && r.directional.position.z == 0,
        r.directional.pitch.num == -1 && r.directional.pitch.den == 5,
{
    LightingPlan {
        ambient_brightness: 300,
        directional: DirectionalLightPlan {
            shadows_enabled: true,
            position: Vec3Milli { x: 0, y: 2 * MILLI, z: 0 },
            pitch: PiFraction { num: -1, den: 5 },
        },
    }
}

/// The single camera: where it starts and that it is driven by the fly
/// controller.
#[derive(Clone, Copy, Debug, PartialEq, Eq)]
pub struct CameraPlan {
    pub position: Vec3Milli,
    pub fly_controls: bool,
}

/// The camera starts ten units out along x and z, two units up, under fly
/// controls.
pub fn camera_plan() -> (r: CameraPlan)
    ensures
        r.position.x == 10 * MILLI && r.position.y == 2 * MILLI && r.position.z == 10 * MILLI,
        r.fly_controls,
{
    CameraPlan {
        position: Vec3Milli { x: 10 * MILLI, y: 2 * MILLI, z: 10 * MILLI },
        fly_controls: true,
    }
}

/// The on-screen instruction overlay: text size and colour, and its
/// absolute placement from the bottom-left corner, in milli-pixels.
#[derive(Clone, Copy, Debug, PartialEq, Eq)]
pub struct OverlayPlan {
    pub font_size: i64,
    pub color: ColorMilli,
    pub offset_bottom: i64,
    pub offset_left: i64,
    pub left_aligned: bool,
}

/// The overlay uses a twenty-pixel white font, left aligned, five pixels up
/// and fifteen pixels in from the bottom-left corner.
pub fn overlay_plan() -> (r: OverlayPlan)
    ensures
        r.font_size == 20 * MILLI,
        r.color == (ColorMilli { red: 1000, green: 1000, blue: 1000 }),
        r.offset_bottom == 5 * MILLI,
        r.offset_left == 15 * MILLI,
        r.left_aligned,
{
    OverlayPlan {
        font_size: 20 * MILLI,
        color: ColorMilli { red: 1000, green: 1000, blue: 1000 },
        offset_bottom: 5 * MILLI,
        offset_left: 15 * MILLI,
        left_aligned: true,
    }
}

/// The instruction text shown in the overlay.
pub fn instruction_text() -> (r: &'static str)
    ensures
        r@
            == "WASD : Move\nSpace: Ascend\nLeft Mouse Button: Shoot project\nLeft Shift: Descend\nEsc: Grab/release cursor\nP: Take screenshot"@,
{
    "WASD : Move\nSpace: Ascend\nLeft Mouse Button: Shoot project\nLeft Shift: Descend\nEsc: Grab/release cursor\nP: Take screenshot"
}

} // verus!
