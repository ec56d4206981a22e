//! Numbers and the values built from them.

pub mod color;
pub mod interval;
pub mod point;
pub mod ray;
pub mod scalar;
pub mod vec;
