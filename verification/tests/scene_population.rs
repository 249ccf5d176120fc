use scenekit::assets::AssetCache;
use scenekit::scene::{cube_grid, populate_scene, BodyType, ShapeDesc, Visual};

fn cache() -> AssetCache {
    AssetCache::new(1, 2, 3, 4)
}

#[test]
fn cube_grid_10_5_3_yields_150_dynamic_bodies() {
    let grid = cube_grid(&cache(), 10, 5, 3);
    assert_eq!(grid.len(), 150);
    for b in &grid {
        assert_eq!(b.body_type, BodyType::Dynamic);
    }
}

#[test]
fn cube_grid_positions_are_integer_spaced() {
    let grid = cube_grid(&cache(), 10, 5, 3);
    let mut i = 0;
    for x in 0..10i64 {
        for y in 0..5i64 {
            for z in 0..3i64 {
                let b = &grid[i];
                assert_eq!(b.position.x, 1000 * x);
                assert_eq!(b.position.y, 100 + 1000 * y);
                assert_eq!(b.position.z, 1000 * z);
                assert_eq!(b.shape, ShapeDesc::Cuboid { hx: 500, hy: 500, hz: 500 });
                assert_eq!(b.restitution, None);
                assert!(b.impulse.is_none());
                i += 1;
            }
        }
    }
    assert_eq!(i, grid.len());
}

#[test]
fn cube_grid_can_be_empty() {
    let grid = cube_grid(&cache(), 0, 5, 3);
    assert_eq!(grid.len(), 0);
    let grid = cube_grid(&cache(), 10, 0, 3);
    assert_eq!(grid.len(), 0);
}

#[test]
fn populate_scene_spawns_ground_ball_and_wall() {
    let c = cache();
    let scene = populate_scene(&c, 90, 91);
    assert_eq!(scene.len(), 152);

    let ground = &scene[0];
    assert_eq!(ground.body_type, BodyType::Fixed);
    assert_eq!(ground.shape, ShapeDesc::Cuboid { hx: 50_000, hy: 100, hz: 50_000 });
    assert_eq!((ground.position.x, ground.position.y, ground.position.z), (0, -2000, 0));
    assert_eq!(ground.visual, Visual::Ground);
    assert_eq!((ground.mesh, ground.material), (90, 91));
    assert_eq!(ground.restitution, None);

    let ball = &scene[1];
    assert_eq!(ball.body_type, BodyType::Dynamic);
    assert_eq!(ball.shape, ShapeDesc::Sphere { radius: 500 });
    assert_eq!((ball.position.x, ball.position.y, ball.position.z), (0, 100_000, 0));
    assert_eq!(ball.restitution, Some(700));
    assert_eq!(ball.visual, Visual::Ball);

    let first_cube = &scene[2];
    assert_eq!((first_cube.position.x, first_cube.position.y, first_cube.position.z), (0, 100, 0));
    let last_cube = &scene[151];
    assert_eq!((last_cube.position.x, last_cube.position.y, last_cube.position.z), (9000, 4100, 2000));
}

#[test]
fn bodies_of_one_prototype_share_mesh_and_material() {
    let c = cache();
    let scene = populate_scene(&c, 90, 91);
    for b in &scene {
        match b.visual {
            Visual::Ball => {
                assert_eq!(b.mesh, c.ball_mesh);
                assert_eq!(b.material, c.ball_material);
            }
            Visual::Cube => {
                assert_eq!(b.mesh, c.cube_mesh);
                assert_eq!(b.material, c.cube_material);
            }
            Visual::Ground => {}
        }
    }
    for a in &scene {
        for b in &scene {
            if a.visual == b.visual && a.visual != Visual::Ground {
                assert_eq!(a.mesh, b.mesh);
                assert_eq!(a.material, b.material);
            }
        }
    }
}

#[test]
fn dynamic_bodies_always_use_a_shared_prototype() {
    let scene = populate_scene(&cache(), 90, 91);
    for b in &scene {
        if b.body_type == BodyType::Dynamic {
            assert_ne!(b.visual, Visual::Ground);
        }
    }
}
