use vstd::prelude::*;

pub mod fixed;
pub mod vector;
pub mod point;
pub mod color;
pub mod trig;
pub mod ray;
pub mod matrix;
pub mod intersection;
pub mod shapes;
pub mod material;
pub mod light;
pub mod pattern;
pub mod texture;
pub mod object;
pub mod world;
pub mod parser;
pub mod canvas;
pub mod enums;
pub mod camera;
pub mod render;

pub mod utils;

pub use fixed::{Fx, EPSILON, SCALE};
pub use vector::Vector;
pub use camera::Camera;
pub use canvas::Canvas;
pub use color::Color;
pub use enums::Direction;
pub use intersection::Intersection;
pub use intersection::LocalIntersection;
pub use light::Light;
pub use material::Material;
pub use matrix::Matrix;
pub use object::Object;
pub use parser::InfoMap;
pub use parser::NewCanvas;
pub use pattern::Axis;
pub use pattern::Pattern;
pub use point::Point;
pub use ray::Ray;
pub use render::FrameInput;
pub use render::Renderer;
pub use shapes::cone::Cone;
pub use shapes::cube::Cube;
pub use shapes::cylinder::Cylinder;
pub use shapes::disk::Disk;
pub use shapes::plane::Plane;
pub use shapes::shape::Shape;
pub use shapes::sphere::Sphere;
pub use shapes::torus::Torus;
pub use shapes::triangle::Triangle;
pub use shapes::tube::Tube;
pub use texture::Texture;
pub use texture::TextureMapping;
pub use world::World;

verus! {

} // verus!
