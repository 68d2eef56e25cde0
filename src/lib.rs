//! Procedural terrain: archetype selection, height-field grids and their
//! triangulation, mesh-file faces, and the scene description that places the
//! generated meshes.

use vstd::prelude::*;

pub mod error;
pub mod terrain;
pub mod grid;
pub mod mesh;
pub mod scene;
pub mod generator;
mod random;

verus! {

} // verus!
