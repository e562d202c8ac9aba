//! Triangulated meshes for parametric surfaces.
//!
//! Three surface families — a sphere, a torus, and a generic surface of
//! revolution swept from a 2-D curve — share one tessellation scheme: walk a
//! parameter grid, and for every grid cell emit two consistently wound
//! triangles. The mesh a surface returns carries, for each vertex, the exact
//! inputs of that surface's projection (its scale parameters and the grid
//! angles as exact rationals); an embedding renderer evaluates the
//! trigonometric projection itself and uploads the result.

pub mod angle;
pub mod data;
pub mod error;
pub mod revolution;
pub mod shader;
pub mod sphere;
pub mod tessellate;
pub mod torus;

pub use angle::Angle;
pub use data::WebGlData;
pub use data::WebGlDataKind;
pub use error::Error;
pub use revolution::sample_positions;
pub use revolution::Revolution;
pub use shader::ShaderKind;
pub use sphere::Sphere;
pub use torus::Torus;
