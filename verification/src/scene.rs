use vstd::prelude::*;
use crate::assets::AssetCache;
use crate::units::{Vec3Milli, MILLI, TENTH};

verus! {

/// Number of cube columns along the x axis of the wall of cubes.
pub const GRID_X: u32 = 10;

/// Number of cube rows along the y axis of the wall of cubes.
pub const GRID_Y: u32 = 5;

/// Number of cube layers along the z axis of the wall of cubes.
pub const GRID_Z: u32 = 3;

/// Restitution coefficient of the bouncing balls, in milliunits.
pub const RESTITUTION_MILLI: i64 = 700;

/// Collider radius of a ball, in milliunits.
pub const BALL_RADIUS_MILLI: i64 = 500;

/// Collider half-extent of a wall cube along each axis, in milliunits.
pub const CUBE_HALF_MILLI: i64 = 500;

/// Whether a body is immovable or simulated under forces.
#[derive(Clone, Copy, Debug, PartialEq, Eq)]
pub enum BodyType {
    Fixed,
    Dynamic,
}

/// A collider shape, dimensions in milliunits. A cuboid is given by its
/// half-extents along each axis.
#[derive(Clone, Copy, Debug, PartialEq, Eq)]
pub enum ShapeDesc {
    Sphere { radius: i64 },
    Cuboid { hx: i64, hy: i64, hz: i64 },
}

/// Which render resources a body uses: one of the two shared prototypes,
/// or the ground's own one-off mesh and material.
#[derive(Clone, Copy, Debug, PartialEq, Eq)]
pub enum Visual {
    Ball,
    Cube,
    Ground,
}

/// An instantaneous change of momentum applied at spawn time: a linear
/// impulse and a torque impulse, in milliunits.
#[derive(Clone, Copy, Debug, PartialEq, Eq)]
pub struct ImpulseDesc {
    pub linear: Vec3Milli,
    pub torque: Vec3Milli,
}

/// Everything needed to spawn one body: physical role, collider, placement,
/// bounce, render resources, and an optional starting impulse. Created
/// transiently at spawn time and handed to the engine; not persisted.
#[derive(Clone, Copy, Debug, PartialEq, Eq)]
pub struct BodySpawn {
    pub body_type: BodyType,
    pub shape: ShapeDesc,
    pub position: Vec3Milli,
    pub restitution: Option<i64>,
    pub visual: Visual,
    pub mesh: u64,
    pub material: u64,
    pub impulse: Option<ImpulseDesc>,
}

/// A body references exactly the cached resources of its prototype. The
/// ground carries its own one-off handles, so it constrains nothing here.
pub open spec fn references_cache(cache: AssetCache, b: BodySpawn) -> bool {
    match b.visual {
        Visual::Ball => b.mesh == cache.ball_mesh && b.material == cache.ball_material,
        Visual::Cube => b.mesh == cache.cube_mesh && b.material == cache.cube_material,
        Visual::Ground => true,
    }
}

/// The one deliberate performance invariant of the scene: a dynamic body
/// never carries a one-off visual; it always uses a shared prototype.
pub open spec fn dynamic_uses_prototype(b: BodySpawn) -> bool {
    b.body_type is Dynamic ==> !(b.visual is Ground)
}

/// Two bodies that reference the cache and share a visual prototype carry
/// identical mesh and material handles: each prototype's resources are
/// allocated once and only reused, never duplicated.
pub proof fn lemma_shared_prototype_shared_assets(cache: AssetCache, a: BodySpawn, b: BodySpawn)
    requires
        references_cache(cache, a),
        references_cache(cache, b),
        a.visual == b.visual,
        !(a.visual is Ground),
    ensures
        a.mesh == b.mesh,
        a.material == b.material,
{
}

/// Everything that holds of a ball-prototype dynamic body, wherever it is
/// spawned: collider, bounce, and the shared ball resources.
pub open spec fn is_ball_body(cache: AssetCache, b: BodySpawn) -> bool {
    &&& b.body_type is Dynamic
    &&& b.shape == (ShapeDesc::Sphere { radius: BALL_RADIUS_MILLI })
    &&& b.restitution == Some(RESTITUTION_MILLI)
    &&& b.visual is Ball
    &&& b.mesh == cache.ball_mesh
    &&& b.material == cache.ball_material
}

/// Everything that holds of a wall cube except its position.
pub open spec fn is_cube_body(cache: AssetCache, b: BodySpawn) -> bool {
    &&& b.body_type is Dynamic
    &&& b.shape == (ShapeDesc::Cuboid {
        hx: CUBE_HALF_MILLI,
        hy: CUBE_HALF_MILLI,
        hz: CUBE_HALF_MILLI,
    })
    &&& b.restitution is None
    &&& b.visual is Cube
    &&& b.mesh == cache.cube_mesh
    &&& b.material == cache.cube_material
    &&& b.impulse is None
}

/// The wall cube of grid cell `(x, y, z)`: a unit cube resting a tenth of a
/// unit up, at integer-spaced offsets.
pub open spec fn is_cube_spawn(cache: AssetCache, b: BodySpawn, x: int, y: int, z: int) -> bool {
    &&& is_cube_body(cache, b)
    &&& b.position.x == MILLI * x
    &&& b.position.y == TENTH + MILLI * y
    &&& b.position.z == MILLI * z
}

/// The immovable ground slab: a wide, thin box two units below the origin,
/// rendered with its own one-off mesh and material handles.
pub open spec fn is_ground_spawn(b: BodySpawn, mesh: u64, material: u64) -> bool {
    &&& b.body_type is Fixed
    &&& b.shape matches ShapeDesc::Cuboid { hx, hy, hz } && hx == 50 * MILLI && hy == TENTH
        && hz == 50 * MILLI
    &&& b.position.x == 0 && b.position.y == -2 * MILLI && b.position.z == 0
    &&& b.restitution is None
    &&& b.visual is Ground
    &&& b.mesh == mesh
    &&& b.material == material
    &&& b.impulse is None
}

/// The demonstration ball dropped from high altitude, using the shared ball
/// prototype.
pub open spec fn is_bouncing_ball_spawn(cache: AssetCache, b: BodySpawn) -> bool {
    &&& is_ball_body(cache, b)
    &&& b.position.x == 0 && b.position.y == 100 * MILLI && b.position.z == 0
    &&& b.impulse is None
}

/// Where the cube of grid cell `(x, y, z)` lands in the spawn order: cells
/// are walked x-outermost, z-innermost.
pub open spec fn grid_index(x: int, y: int, z: int, ny: int, nz: int) -> int {
    (x * ny + y) * nz + z
}

/// The spawn order respects the lexicographic order of grid cells, so each
/// cell gets its own slot.
proof fn lemma_grid_index_increases(
    x1: int, y1: int, z1: int, x2: int, y2: int, z2: int, ny: int, nz: int,
)
    requires
        0 <= x1,
        0 <= y1 < ny,
        0 <= z1 < nz,
        0 <= y2,
        0 <= z2,
        x1 < x2 || (x1 == x2 && y1 < y2) || (x1 == x2 && y1 == y2 && z1 < z2),
    ensures
        0 <= grid_index(x1, y1, z1, ny, nz) < grid_index(x2, y2, z2, ny, nz),
{
    assert(0 <= (x1 * ny + y1) * nz + z1 < (x2 * ny + y2) * nz + z2) by (nonlinear_arith)
        requires
            0 <= x1,
            0 <= y1 < ny,
            0 <= z1 < nz,
            0 <= y2,
            0 <= z2,
            x1 < x2 || (x1 == x2 && y1 < y2) || (x1 == x2 && y1 == y2 && z1 < z2),
    ;
}

/// The cubes of every grid cell lexicographically before `(x, y, z)` stand
/// in `s`, each in its slot.
pub open spec fn cubes_placed(
    cache: AssetCache, s: Seq<BodySpawn>, ny: int, nz: int, x: int, y: int, z: int,
) -> bool {
    forall|xa: int, ya: int, za: int|
        0 <= xa && 0 <= ya < ny && 0 <= za < nz && (xa < x || (xa == x && (ya < y || (ya == y
            && za < z)))) ==> is_cube_spawn(
            cache,
            s[#[trigger] grid_index(xa, ya, za, ny, nz)],
            xa,
            ya,
            za,
        )
}

/// Builds the wall of cubes: one dynamic unit cube per cell of an
/// `nx` by `ny` by `nz` grid, at position `(x, 0.1 + y, z)` units for cell
/// `(x, y, z)`, every one sharing the cached cube mesh and material.
pub fn cube_grid(cache: &AssetCache, nx: u32, ny: u32, nz: u32) -> (r: Vec<BodySpawn>)
    ensures
        r@.len() == nx * ny * nz,
        forall|x: int, y: int, z: int|
            0 <= x < nx && 0 <= y < ny && 0 <= z < nz ==> is_cube_spawn(
                *cache,
                r@[#[trigger] grid_index(x, y, z, ny as int, nz as int)],
                x,
                y,
                z,
            ),
        forall|i: int| 0 <= i < r@.len() ==> is_cube_body(*cache, #[trigger] r@[i]),
{
    let mut r: Vec<BodySpawn> = Vec::new();
    let mut x: u32 = 0;
    proof {
        assert((0 * (ny as int) + 0) * (nz as int) + 0 == 0) by (nonlinear_arith);
    }
    while x < nx
        invariant
            x <= nx,
            r@.len() == grid_index(x as int, 0, 0, ny as int, nz as int),
            cubes_placed(*cache, r@, ny as int, nz as int, x as int, 0, 0),
            forall|i: int| 0 <= i < r@.len() ==> is_cube_body(*cache, #[trigger] r@[i]),
        decreases nx - x,
    {
        let mut y: u32 = 0;
        while y < ny
            invariant
                x < nx,
                y <= ny,
                r@.len() == grid_index(x as int, y as int, 0, ny as int, nz as int),
                cubes_placed(*cache, r@, ny as int, nz as int, x as int, y as int, 0),
                forall|i: int| 0 <= i < r@.len() ==> is_cube_body(*cache, #[trigger] r@[i]),
            decreases ny - y,
        {
            let mut z: u32 = 0;
            while z < nz
                invariant
                    x < nx,
                    y < ny,
                    z <= nz,
                    r@.len() == grid_index(x as int, y as int, z as int, ny as int, nz as int),
                    cubes_placed(
                        *cache,
                        r@,
                        ny as int,
                        nz as int,
                        x as int,
                        y as int,
                        z as int,
                    ),
                    forall|i: int| 0 <= i < r@.len() ==> is_cube_body(*cache, #[trigger] r@[i]),
                decreases nz - z,
            {
                let b = BodySpawn {
                    body_type: BodyType::Dynamic,
                    shape: ShapeDesc::Cuboid {
                        hx: CUBE_HALF_MILLI,
                        hy: CUBE_HALF_MILLI,
                        hz: CUBE_HALF_MILLI,
                    },
                    position: Vec3Milli {
                        x: MILLI * (x as i64),
                        y: TENTH + MILLI * (y as i64),
                        z: MILLI * (z as i64),
                    },
                    restitution: None,
                    visual: Visual::Cube,
                    mesh: cache.cube_mesh,
                    material: cache.cube_material,
                    impulse: None,
                };
                let ghost old_r = r@;
                r.push(b);
                proof {
                    assert forall|xa: int, ya: int, za: int|
                        0 <= xa && 0 <= ya < ny && 0 <= za < nz && (xa < x || (xa == x && (ya
                            < y || (ya == y && za < z + 1)))) implies is_cube_spawn(
                        *cache,
                        r@[#[trigger] grid_index(xa, ya, za, ny as int, nz as int)],
                        xa,
                        ya,
                        za,
                    ) by {
                        if xa == x && ya == y && za == z {
                            assert(r@[grid_index(xa, ya, za, ny as int, nz as int)] == b);
                        } else {
                            lemma_grid_index_increases(
                                xa, ya, za, x as int, y as int, z as int, ny as int, nz as int,
                            );
                            assert(r@[grid_index(xa, ya, za, ny as int, nz as int)]
                                == old_r[grid_index(xa, ya, za, ny as int, nz as int)]);
                        }
                    }
                }
                z = z + 1;
            }
            proof {
                assert(((x as int) * (ny as int) + (y as int)) * (nz as int) + (nz as int) == ((
                x as int) * (ny as int) + (y as int) + 1) * (nz as int)) by (nonlinear_arith);
                assert(grid_index(x as int, y as int, nz as int, ny as int, nz as int)
                    == grid_index(x as int, y as int + 1, 0, ny as int, nz as int));
            }
            y = y + 1;
        }
        proof {
            assert(((x as int) * (ny as int) + (ny as int)) * (nz as int) == (((x as int) + 1) * (
            ny as int)) * (nz as int)) by (nonlinear_arith);
            assert(grid_index(x as int, ny as int, 0, ny as int, nz as int) == grid_index(
                x as int + 1, 0, 0, ny as int, nz as int,
            ));
        }
        x = x + 1;
    }
    r
}

/// Populates the world once, before any input is handled: the ground slab,
/// the bouncing ball, then the wall of cubes in grid order. `ground_mesh`
/// and `ground_material` are the handles freshly allocated for the ground's
/// own render resources.
pub fn populate_scene(cache: &AssetCache, ground_mesh: u64, ground_material: u64) -> (r: Vec<
    BodySpawn,
>)
    ensures
        r@.len() == 2 + GRID_X * GRID_Y * GRID_Z,
        is_ground_spawn(r@[0], ground_mesh, ground_material),
        is_bouncing_ball_spawn(*cache, r@[1]),
        forall|x: int, y: int, z: int|
            0 <= x < GRID_X && 0 <= y < GRID_Y && 0 <= z < GRID_Z ==> is_cube_spawn(
                *cache,
                r@[2 + #[trigger] grid_index(x, y, z, GRID_Y as int, GRID_Z as int)],
                x,
                y,
                z,
            ),
        forall|i: int|
            0 <= i < r@.len() ==> references_cache(*cache, #[trigger] r@[i])
                && dynamic_uses_prototype(r@[i]),
{
    let mut r: Vec<BodySpawn> = Vec::new();
    r.push(
        BodySpawn {
            body_type: BodyType::Fixed,
            shape: ShapeDesc::Cuboid { hx: 50 * MILLI, hy: TENTH, hz: 50 * MILLI },
            position: Vec3Milli { x: 0, y: -2 * MILLI, z: 0 },
            restitution: None,
            visual: Visual::Ground,
            mesh: ground_mesh,
            material: ground_material,
            impulse: None,
        },
    );
    r.push(
        BodySpawn {
            body_type: BodyType::Dynamic,
            shape: ShapeDesc::Sphere { radius: BALL_RADIUS_MILLI },
            position: Vec3Milli { x: 0, y: 100 * MILLI, z: 0 },
            restitution: Some(RESTITUTION_MILLI),
            visual: Visual::Ball,
            mesh: cache.ball_mesh,
            material: cache.ball_material,
            impulse: None,
        },
    );
    let mut cubes = cube_grid(cache, GRID_X, GRID_Y, GRID_Z);
    let ghost cube_seq = cubes@;
    r.append(&mut cubes);
    proof {
        assert forall|x: int, y: int, z: int|
            0 <= x < GRID_X && 0 <= y < GRID_Y && 0 <= z < GRID_Z implies is_cube_spawn(
            *cache,
            r@[2 + #[trigger] grid_index(x, y, z, GRID_Y as int, GRID_Z as int)],
            x,
            y,
            z,
        ) by {
            let gi = grid_index(x, y, z, GRID_Y as int, GRID_Z as int);
            assert(is_cube_spawn(*cache, cube_seq[gi], x, y, z));
            assert(0 <= gi < cube_seq.len());
            assert(r@[2 + gi] == cube_seq[gi]);
        }
        assert forall|i: int|
            0 <= i < r@.len() implies references_cache(*cache, #[trigger] r@[i])
            && dynamic_uses_prototype(r@[i]) by {
            if i >= 2 {
                assert(r@[i] == cube_seq[i - 2]);
                assert(is_cube_body(*cache, cube_seq[i - 2]));
            }
        }
    }
    r
}

} // verus!
