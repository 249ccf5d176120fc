use scenekit::assets::{ground_visual_plan, shared_asset_plan, ColorMilli, MeshShape};
use scenekit::setup::{camera_plan, instruction_text, lighting_plan, overlay_plan};
use scenekit::units::Vec3Milli;

#[test]
fn shared_assets_are_one_sphere_and_one_cube() {
    let plan = shared_asset_plan();
    assert_eq!(plan.ball.mesh, MeshShape::Sphere { radius: 500 });
    assert_eq!(plan.ball.color, ColorMilli { red: 200, green: 100, blue: 700 });
    assert_eq!(plan.cube.mesh, MeshShape::Cuboid { x: 1000, y: 1000, z: 1000 });
    assert_eq!(plan.cube.color, ColorMilli { red: 100, green: 100, blue: 100 });
}

#[test]
fn ground_visual_is_a_wide_thin_green_box() {
    let plan = ground_visual_plan();
    assert_eq!(plan.mesh, MeshShape::Cuboid { x: 100_000, y: 100, z: 100_000 });
    assert_eq!(plan.color, ColorMilli { red: 300, green: 500, blue: 300 });
}

#[test]
fn lighting_is_dim_ambient_plus_pitched_sun() {
    let plan = lighting_plan();
    assert_eq!(plan.ambient_brightness, 300);
    assert!(plan.directional.shadows_enabled);
    assert_eq!(plan.directional.position, Vec3Milli { x: 0, y: 2000, z: 0 });
    assert_eq!(plan.directional.pitch.num, -1);
    assert_eq!(plan.directional.pitch.den, 5);
}

#[test]
fn camera_starts_high_on_the_diagonal_with_fly_controls() {
    let plan = camera_plan();
    assert_eq!(plan.position, Vec3Milli { x: 10_000, y: 2_000, z: 10_000 });
    assert!(plan.fly_controls);
}

#[test]
fn overlay_is_white_text_at_the_bottom_left() {
    let plan = overlay_plan();
    assert_eq!(plan.font_size, 20_000);
    assert_eq!(plan.color, ColorMilli { red: 1000, green: 1000, blue: 1000 });
    assert_eq!(plan.offset_bottom, 5_000);
    assert_eq!(plan.offset_left, 15_000);
    assert!(plan.left_aligned);
}

#[test]
fn instructions_list_every_control() {
    let text = instruction_text();
    assert_eq!(
        text,
        "WASD : Move\nSpace: Ascend\nLeft Mouse Button: Shoot project\nLeft Shift: Descend\nEsc: Grab/release cursor\nP: Take screenshot"
    );
}

#[test]
fn vectors_add_and_scale_componentwise() {
    let a = Vec3Milli { x: 1, y: -2, z: 3 };
    let b = Vec3Milli { x: 10, y: 20, z: -30 };
    assert_eq!(a.plus(b), Vec3Milli { x: 11, y: 18, z: -27 });
    assert_eq!(a.scaled(-4), Vec3Milli { x: -4, y: 8, z: -12 });
}
