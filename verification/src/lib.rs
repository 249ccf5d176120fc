//! Scene bootstrap and interaction logic for a small 3D physics playground.
//!
//! The library computes, as plain data, everything the playground decides on
//! its own: which shared render assets to allocate, the fixed set of bodies
//! that populates the world (a ground slab, a bouncing ball, a wall of cubes),
//! the projectile spawned in front of the camera on a mouse click, and the
//! outcome of the screenshot action. An engine-facing front end interprets
//! these descriptors; the engine itself (rendering, physics stepping, input,
//! windowing) stays outside.
//!
//! All geometry is carried in exact fixed-point milliunits (see [`units`]),
//! so every position, impulse and coefficient in a descriptor is pinned down
//! to the exact value the scene calls for.

pub mod assets;
pub mod launcher;
pub mod scene;
pub mod screenshot;
pub mod setup;
pub mod units;
