//! The description of a scene: a table of textures, a table of materials
//! and a list of objects, read into models of what they describe.

pub mod error;
pub mod material;
pub mod model;
pub mod object;
pub mod parse;
pub mod text;
pub mod texture;
pub mod value;

pub use model::ConfigModel;
