//! Quaternions and a pair-of-quaternions octonion, used to place and turn
//! renderable objects, and the meshes and entities those transforms act on.
//!
//! Components are integers in units the caller chooses. Every operation is
//! exact: it requires that its result fits in `i32` and computes any
//! intermediate products wide enough that they cannot overflow. The algebra
//! keeps this library's own conventions: the quaternion unit is `[1, 1, 1, 1]`,
//! `inv` is plain negation, and the octonion conjugate negates the whole
//! second half.

pub mod entity;
pub mod laws;
pub mod mesh;
pub mod octonions;
pub mod quaternions;
pub mod world;

pub use entity::Entity;
pub use mesh::Mesh;
pub use octonions::{Oct, Octonion};
pub use quaternions::{Quat, Quaternion};
pub use world::{load_world, World};
