use vstd::prelude::*;
use crate::assets::AssetCache;
use crate::scene::{is_ball_body, BodySpawn, BodyType, ImpulseDesc, ShapeDesc, Visual};
use crate::scene::{BALL_RADIUS_MILLI, RESTITUTION_MILLI};
use crate::units::{Vec3Milli, DIRECTION_LIMIT, POSITION_LIMIT, TENTH};

verus! {

/// How far in front of the camera a projectile appears, in whole units.
pub const LAUNCH_DISTANCE_UNITS: i64 = 2;

/// The magnitude applied to the camera's forward direction as the
/// projectile's linear impulse, in whole units.
pub const IMPULSE_SCALE_UNITS: i64 = 50;

/// Each component of the fixed torque impulse, in milliunits: a tenth of a
/// unit about every axis.
pub const TORQUE_MILLI: i64 = TENTH;

/// The camera's placement when a projectile is launched: where it stands and
/// the unit vector it looks along, both in milliunits.
#[derive(Clone, Copy, Debug, PartialEq, Eq)]
pub struct CameraPose {
    pub position: Vec3Milli,
    pub forward: Vec3Milli,
}

/// The coordinate bounds under which launch arithmetic cannot overflow.
pub open spec fn camera_in_range(cam: CameraPose) -> bool {
    &&& cam.position.in_range(POSITION_LIMIT)
    &&& cam.forward.in_range(DIRECTION_LIMIT)
}

/// The projectile descriptor owed to a launch from `cam`: a shared-prototype
/// ball exactly two units along the camera's forward vector, carrying an
/// impulse of fifty times that vector and the fixed torque impulse.
pub open spec fn is_launch_spawn(cache: AssetCache, cam: CameraPose, b: BodySpawn) -> bool {
    &&& is_ball_body(cache, b)
    &&& b.position.x == cam.position.x + LAUNCH_DISTANCE_UNITS * cam.forward.x
    &&& b.position.y == cam.position.y + LAUNCH_DISTANCE_UNITS * cam.forward.y
    &&& b.position.z == cam.position.z + LAUNCH_DISTANCE_UNITS * cam.forward.z
    &&& b.impulse matches Some(imp) && imp.linear.x == IMPULSE_SCALE_UNITS * cam.forward.x
        && imp.linear.y == IMPULSE_SCALE_UNITS * cam.forward.y && imp.linear.z
        == IMPULSE_SCALE_UNITS * cam.forward.z && imp.torque.x == TORQUE_MILLI && imp.torque.y
        == TORQUE_MILLI && imp.torque.z == TORQUE_MILLI
}

/// Builds the projectile for one launch from `cam`.
pub fn launch_spawn(cache: &AssetCache, cam: &CameraPose) -> (r: BodySpawn)
    requires
        camera_in_range(*cam),
    ensures
        is_launch_spawn(*cache, *cam, r),
{
    let position = cam.position.plus(cam.forward.scaled(LAUNCH_DISTANCE_UNITS));
    let linear = cam.forward.scaled(IMPULSE_SCALE_UNITS);
    BodySpawn {
        body_type: BodyType::Dynamic,
        shape: ShapeDesc::Sphere { radius: BALL_RADIUS_MILLI },
        position,
        restitution: Some(RESTITUTION_MILLI),
        visual: Visual::Ball,
        mesh: cache.ball_mesh,
        material: cache.ball_material,
        impulse: Some(
            ImpulseDesc {
                linear,
                torque: Vec3Milli { x: TORQUE_MILLI, y: TORQUE_MILLI, z: TORQUE_MILLI },
            },
        ),
    }
}

/// A launch fires on the frame the button goes down, and on no other.
pub open spec fn fires(was_pressed: bool, pressed: bool) -> bool {
    pressed && !was_pressed
}

/// The button state of the previous frame, kept so that a press held over
/// many frames is seen as one discrete press.
#[derive(Clone, Copy, Debug, PartialEq, Eq)]
pub struct ClickTracker {
    pub was_pressed: bool,
}

impl ClickTracker {
    /// Before the first frame no press has been seen.
    pub fn new() -> (r: Self)
        ensures
            !r.was_pressed,
    {
        ClickTracker { was_pressed: false }
    }

    /// Feeds one frame's button state; returns whether this frame is a
    /// discrete press.
    pub fn update(&mut self, pressed: bool) -> (r: bool)
        ensures
            r == fires(old(self).was_pressed, pressed),
            final(self).was_pressed == pressed,
    {
        let edge = pressed && !self.was_pressed;
        self.was_pressed = pressed;
        edge
    }
}

/// One frame of the interactive spawner: given the previous and current
/// button state and the camera, decide whether a projectile is spawned, and
/// which. A projectile appears exactly on a discrete press while a camera
/// exists; a held button spawns nothing after its first frame.
pub fn launch_tick(
    cache: &AssetCache,
    was_pressed: bool,
    pressed: bool,
    camera: Option<CameraPose>,
) -> (r: Option<BodySpawn>)
    requires
        camera matches Some(cam) ==> camera_in_range(cam),
    ensures
        r is Some <==> (fires(was_pressed, pressed) && camera is Some),
        fires(was_pressed, pressed) ==> (camera matches Some(cam) ==> r matches Some(b)
            && is_launch_spawn(*cache, cam, b)),
{
    if pressed && !was_pressed {
        match camera {
            Some(cam) => Some(launch_spawn(cache, &cam)),
            None => None,
        }
    } else {
        None
    }
}

/// The spawn decision of every frame in a run: feeding `presses` frame by
/// frame to a tracker that starts with `was_pressed`, element `i` says
/// whether frame `i` spawned.
pub open spec fn spawn_decisions(presses: Seq<bool>, was_pressed: bool) -> Seq<bool>
    decreases presses.len(),
{
    if presses.len() == 0 {
        Seq::empty()
    } else {
        seq![fires(was_pressed, presses[0])] + spawn_decisions(presses.drop_first(), presses[0])
    }
}

/// Frame `i` of a run is a discrete press: the button is down where it was
/// up the frame before (or up at the start of the run).
pub open spec fn press_edge(presses: Seq<bool>, was_pressed: bool, i: int) -> bool {
    presses[i] && !(if i == 0 {
        was_pressed
    } else {
        presses[i - 1]
    })
}

/// How many frames of a run are marked true.
pub open spec fn count_true(s: Seq<bool>) -> nat
    decreases s.len(),
{
    if s.len() == 0 {
        0
    } else {
        (if s[0] {
            1nat
        } else {
            0nat
        }) + count_true(s.drop_first())
    }
}

/// Over any run of frames, a spawn happens on frame `i` exactly when frame
/// `i` is a discrete press: never twice for one press, however long it is
/// held, and never on release.
pub proof fn lemma_spawns_exactly_at_press_edges(presses: Seq<bool>, was_pressed: bool)
    ensures
        spawn_decisions(presses, was_pressed).len() == presses.len(),
        forall|i: int|
            0 <= i < presses.len() ==> (spawn_decisions(presses, was_pressed)[i] <==> press_edge(
                presses,
                was_pressed,
                i,
            )),
    decreases presses.len(),
{
    if presses.len() > 0 {
        lemma_spawns_exactly_at_press_edges(presses.drop_first(), presses[0]);
        let head = seq![fires(was_pressed, presses[0])];
        let rest = spawn_decisions(presses.drop_first(), presses[0]);
        assert(spawn_decisions(presses, was_pressed) == head + rest);
        assert forall|i: int| 0 <= i < presses.len() implies (spawn_decisions(
            presses,
            was_pressed,
        )[i] <==> press_edge(presses, was_pressed, i)) by {
            if i == 0 {
                assert((head + rest)[0] == head[0]);
            } else {
                assert((head + rest)[i] == rest[i - 1]);
                assert(presses.drop_first()[i - 1] == presses[i]);
                if i > 1 {
                    assert(presses.drop_first()[i - 2] == presses[i - 1]);
                }
                assert(rest[i - 1] <==> press_edge(presses.drop_first(), presses[0], i - 1));
            }
        }
    }
}

/// Exactly one spawn per discrete press: over any run of frames, the number
/// of spawned projectiles equals the number of discrete presses.
pub proof fn lemma_one_spawn_per_press(presses: Seq<bool>, was_pressed: bool)
    ensures
        count_true(spawn_decisions(presses, was_pressed)) == count_true(
            Seq::new(presses.len(), |i: int| press_edge(presses, was_pressed, i)),
        ),
{
    lemma_spawns_exactly_at_press_edges(presses, was_pressed);
    assert(spawn_decisions(presses, was_pressed) =~= Seq::new(
        presses.len(),
        |i: int| press_edge(presses, was_pressed, i),
    ));
}

} // verus!
