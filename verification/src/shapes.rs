//! The closed library of geometric primitives.
pub mod cone;
pub mod cube;
pub mod cylinder;
pub mod disk;
pub mod plane;
pub mod shape;
pub mod sphere;
pub mod torus;
pub mod triangle;
pub mod tube;
