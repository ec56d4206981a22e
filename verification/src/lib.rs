//! The decision logic of a Monte Carlo path tracer, verified: the tree of
//! boxes and the queries of a scene, what each primitive and each material
//! decides, the order of the samples of an image, the bounces of a ray, and
//! the reading of a scene description.
//!
//! Every real number is held by its binary64 bit pattern (see [`Scalar`]): the
//! library orders, selects and negates numbers exactly, and leaves arithmetic
//! on them to its caller. Where a function of the library needs such
//! arithmetic in the middle of its work, it takes it as a function: the
//! test of one primitive, the distances at which a ray goes through a box,
//! the sum of two colours. Its contract then holds whatever that function
//! returns, and tells the result exactly wherever that function is a function
//! of its arguments.

pub mod axis;
pub mod boundingbox;
pub mod bvh;
pub mod camera;
pub mod config;
pub mod export;
pub mod hittable;
pub mod integrator;
pub mod material;
pub mod math;
pub mod nearest;
pub mod onb;
pub mod pdf;
pub mod primitives;
pub mod texture;

pub use axis::Axis;
pub use camera::{AntialiasingType, Background, Camera, CameraBuilder};
pub use hittable::HitRecord;
pub use math::color;
pub use math::color::Color;
pub use math::interval;
pub use math::interval::Interval;
pub use math::point;
pub use math::point::Point2;
pub use math::point::Point3;
pub use math::ray;
pub use math::ray::{Ray3, Ray4};
pub use math::scalar;
pub use math::scalar::Scalar;
pub use math::vec::two_d;
pub use math::vec::Vec2;
pub use math::vec::Vec3;
pub use material::Material;
