use scenekit::assets::AssetCache;
use scenekit::launcher::{launch_spawn, launch_tick, CameraPose, ClickTracker};
use scenekit::scene::{BodyType, ShapeDesc, Visual};
use scenekit::units::Vec3Milli;

fn cache() -> AssetCache {
    AssetCache::new(1, 2, 3, 4)
}

fn camera() -> CameraPose {
    CameraPose {
        position: Vec3Milli { x: 10_000, y: 2_000, z: 10_000 },
        forward: Vec3Milli { x: 0, y: 0, z: -1_000 },
    }
}

#[test]
fn projectile_appears_two_units_along_forward() {
    let b = launch_spawn(&cache(), &camera());
    assert_eq!((b.position.x, b.position.y, b.position.z), (10_000, 2_000, 8_000));
}

#[test]
fn projectile_appears_two_units_along_a_tilted_forward() {
    let cam = CameraPose {
        position: Vec3Milli { x: -500, y: 0, z: 250 },
        forward: Vec3Milli { x: 600, y: -800, z: 0 },
    };
    let b = launch_spawn(&cache(), &cam);
    assert_eq!((b.position.x, b.position.y, b.position.z), (700, -1_600, 250));
}

#[test]
fn projectile_impulse_is_fifty_times_forward_with_fixed_torque() {
    let b = launch_spawn(&cache(), &camera());
    let imp = b.impulse.expect("a launched projectile carries an impulse");
    assert_eq!((imp.linear.x, imp.linear.y, imp.linear.z), (0, 0, -50_000));
    assert_eq!((imp.torque.x, imp.torque.y, imp.torque.z), (100, 100, 100));
}

#[test]
fn projectile_is_a_shared_prototype_ball() {
    let c = cache();
    let b = launch_spawn(&c, &camera());
    assert_eq!(b.body_type, BodyType::Dynamic);
    assert_eq!(b.shape, ShapeDesc::Sphere { radius: 500 });
    assert_eq!(b.restitution, Some(700));
    assert_eq!(b.visual, Visual::Ball);
    assert_eq!(b.mesh, c.ball_mesh);
    assert_eq!(b.material, c.ball_material);
}

#[test]
fn one_spawn_per_discrete_press() {
    let c = cache();
    let frames = [false, true, true, true, false, true, true, false];
    let mut tracker = ClickTracker::new();
    let mut spawned = 0;
    for &pressed in &frames {
        let was = tracker.was_pressed;
        let edge = tracker.update(pressed);
        assert_eq!(edge, pressed && !was);
        if launch_tick(&c, was, pressed, Some(camera())).is_some() {
            spawned += 1;
        }
    }
    assert_eq!(spawned, 2);
}

#[test]
fn a_held_button_spawns_only_on_its_first_frame() {
    let c = cache();
    assert!(launch_tick(&c, false, true, Some(camera())).is_some());
    assert!(launch_tick(&c, true, true, Some(camera())).is_none());
    assert!(launch_tick(&c, true, false, Some(camera())).is_none());
    assert!(launch_tick(&c, false, false, Some(camera())).is_none());
}

#[test]
fn no_spawn_without_a_camera() {
    assert!(launch_tick(&cache(), false, true, None).is_none());
}

#[test]
fn tick_spawn_matches_direct_launch() {
    let c = cache();
    let direct = launch_spawn(&c, &camera());
    let ticked = launch_tick(&c, false, true, Some(camera()));
    assert_eq!(ticked, Some(direct));
}

#[test]
fn tracker_starts_with_no_press_seen() {
    let tracker = ClickTracker::new();
    assert!(!tracker.was_pressed);
}
