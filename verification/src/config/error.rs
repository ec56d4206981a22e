//! What can be wrong with a description, and where.

use vstd::prelude::*;

verus! {

/// A part of a description.
#[derive(Clone, Copy, Debug, PartialEq, Eq, Structural)]
pub enum Section {
    Textures,
    Materials,
    Objects,
}

/// A key of an entry of a description.
#[derive(Clone, Copy, Debug, PartialEq, Eq, Structural)]
pub enum Field {
    Type,
    Color,
    Scale,
    Textures,
    Path,
    Texture,
    Albedo,
    Fuzz,
    RefractiveIndex,
    Brightness,
    Center,
    Radius,
    Material,
    Corner,
    Vectors,
}

/// A place in a description: a section, the position of an entry in it, a
/// key of the entry, and up to two positions inside the value of the key.
#[derive(Clone, Copy, Debug, PartialEq, Eq, Structural)]
pub struct Place {
    pub section: Section,
    pub entry: Option<usize>,
    pub field: Option<Field>,
    pub first: Option<usize>,
    pub second: Option<usize>,
}

/// What is wrong with a value.
#[derive(Clone, Copy, Debug, PartialEq, Eq, Structural)]
pub enum Fault {
    /// The section is missing or is no table, or the entry is no table.
    MustBeTable,
    /// The objects are missing or are no list.
    MustBeList,
    /// The value is missing or is no text.
    MustBeString,
    /// The key is missing.
    MustBeProvided,
    /// The value is neither a text nor a whole number.
    MustBeColor,
    /// The text is no number in base sixteen.
    InvalidHex,
    /// The whole number is below zero or above what a colour code can be.
    ColorOutOfRange,
    /// The value is no number.
    MustBeNumber,
    /// The value is no text that could name a file.
    MustBeFilepath,
    /// The value is no list of three.
    MustBePoint,
    /// The value is no list of three.
    MustBeVector,
    /// The value is no list.
    MustBeArray,
    /// The list does not hold two values.
    MustBeArrayOfTwo,
    /// The value is no text that could name a texture.
    MustBeTextureName,
    /// No texture of that name was listed before.
    UnknownTexture,
    /// The value is no text that could name a material.
    MustBeMaterialName,
    /// No material of that name was listed before.
    UnknownMaterial,
    /// The type is none of the types of textures.
    InvalidTextureType,
    /// The type is none of the types of materials.
    InvalidMaterialType,
    /// The type is none of the types of objects.
    InvalidObjectType,
}

/// A fault and its place.
#[derive(Clone, Copy, Debug, PartialEq, Eq, Structural)]
pub struct ConfigError {
    pub place: Place,
    pub fault: Fault,
}

impl Place {
    /// The section as a whole.
    pub open spec fn spec_section(section: Section) -> Place {
        Place { section, entry: None, field: None, first: None, second: None }
    }

    /// The entry at position `entry` of the section.
    pub open spec fn spec_entry(section: Section, entry: usize) -> Place {
        Place { section, entry: Some(entry), field: None, first: None, second: None }
    }

    /// The key `field` of this entry.
    pub open spec fn spec_field(self, field: Field) -> Place {
        Place { field: Some(field), first: None, second: None, ..self }
    }

    /// The value at position `index` inside this place: inside the value of
    /// the key, or inside the value at the first position.
    pub open spec fn spec_at(self, index: usize) -> Place {
        if self.first is None {
            Place { first: Some(index), ..self }
        } else {
            Place { second: Some(index), ..self }
        }
    }

    /// The section as a whole.
    pub fn section(section: Section) -> (r: Place)
        ensures
            r == Self::spec_section(section),
    {
        Place { section, entry: None, field: None, first: None, second: None }
    }

    /// The entry at position `entry` of the section.
    pub fn entry(section: Section, entry: usize) -> (r: Place)
        ensures
            r == Self::spec_entry(section, entry),
    {
        Place { section, entry: Some(entry), field: None, first: None, second: None }
    }

    /// The key `field` of this entry.
    pub fn field(self, field: Field) -> (r: Place)
        ensures
            r == self.spec_field(field),
    {
        Place {
            section: self.section,
            entry: self.entry,
            field: Some(field),
            first: None,
            second: None,
        }
    }

    /// The value at position `index` inside this place.
    pub fn at(self, index: usize) -> (r: Place)
        ensures
            r == self.spec_at(index),
    {
        if self.first.is_none() {
            Place {
                section: self.section,
                entry: self.entry,
                field: self.field,
                first: Some(index),
                second: self.second,
            }
        } else {
            Place {
                section: self.section,
                entry: self.entry,
                field: self.field,
                first: self.first,
                second: Some(index),
            }
        }
    }

    /// The fault `fault` at this place.
    pub fn fault(self, fault: Fault) -> (r: ConfigError)
        ensures
            r == (ConfigError { place: self, fault }),
    {
        ConfigError { place: self, fault }
    }
}

} // verus!
