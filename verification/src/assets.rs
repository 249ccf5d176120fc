use vstd::prelude::*;

verus! {

/// An opaque colour with each channel in milliunits of intensity:
/// `1000` is full intensity, `0` is none.
#[derive(Clone, Copy, Debug, PartialEq, Eq)]
pub struct ColorMilli {
    pub red: i64,
    pub green: i64,
    pub blue: i64,
}

/// The geometry of a render mesh, dimensions in milliunits. A cuboid is
/// given by its full extents along each axis.
#[derive(Clone, Copy, Debug, PartialEq, Eq)]
pub enum MeshShape {
    Sphere { radius: i64 },
    Cuboid { x: i64, y: i64, z: i64 },
}

/// What to allocate for one visual prototype: a mesh and a flat colour
/// material.
#[derive(Clone, Copy, Debug, PartialEq, Eq)]
pub struct VisualPlan {
    pub mesh: MeshShape,
    pub color: ColorMilli,
}

/// The two visual prototypes that are allocated once at startup and shared
/// by every body that uses them.
#[derive(Clone, Copy, Debug, PartialEq, Eq)]
pub struct AssetPlan {
    pub ball: VisualPlan,
    pub cube: VisualPlan,
}

/// The ball prototype: a sphere of radius half a unit in a blue-violet
/// colour.
pub open spec fn ball_plan_spec() -> VisualPlan {
    VisualPlan {
        mesh: MeshShape::Sphere { radius: 500 },
        color: ColorMilli { red: 200, green: 100, blue: 700 },
    }
}

/// The cube prototype: a unit cube in a dark grey colour.
pub open spec fn cube_plan_spec() -> VisualPlan {
    VisualPlan {
        mesh: MeshShape::Cuboid { x: 1000, y: 1000, z: 1000 },
        color: ColorMilli { red: 100, green: 100, blue: 100 },
    }
}

/// The assets to allocate once, before any body is spawned: exactly one
/// mesh and one material per prototype.
pub fn shared_asset_plan() -> (r: AssetPlan)
    ensures
        r.ball == ball_plan_spec(),
        r.cube == cube_plan_spec(),
{
    AssetPlan {
        ball: VisualPlan {
            mesh: MeshShape::Sphere { radius: 500 },
            color: ColorMilli { red: 200, green: 100, blue: 700 },
        },
        cube: VisualPlan {
            mesh: MeshShape::Cuboid { x: 1000, y: 1000, z: 1000 },
            color: ColorMilli { red: 100, green: 100, blue: 100 },
        },
    }
}

/// The ground's own one-off visual, allocated at population time and used
/// by no other body: a wide, thin box in a muted green.
pub fn ground_visual_plan() -> (r: VisualPlan)
    ensures
        r.mesh == (MeshShape::Cuboid { x: 100_000, y: 100, z: 100_000 }),
        r.color == (ColorMilli { red: 300, green: 500, blue: 300 }),
{
    VisualPlan {
        mesh: MeshShape::Cuboid { x: 100_000, y: 100, z: 100_000 },
        color: ColorMilli { red: 300, green: 500, blue: 300 },
    }
}

/// The handles the asset store handed back for the two prototypes, recorded
/// once at startup and read-only afterwards. A handle is carried as the
/// store's numeric identity for the resource; two bodies share a resource
/// exactly when they carry the same handle.
#[derive(Clone, Copy, Debug, PartialEq, Eq)]
pub struct AssetCache {
    pub ball_mesh: u64,
    pub ball_material: u64,
    pub cube_mesh: u64,
    pub cube_material: u64,
}

impl AssetCache {
    pub fn new(ball_mesh: u64, ball_material: u64, cube_mesh: u64, cube_material: u64) -> (r:
        Self)
        ensures
            r.ball_mesh == ball_mesh,
            r.ball_material == ball_material,
            r.cube_mesh == cube_mesh,
            r.cube_material == cube_material,
    {
        AssetCache { ball_mesh, ball_material, cube_mesh, cube_material }
    }
}

} // verus!
