//! The textures of a description.

use vstd::prelude::*;
use vstd::string::StringExecFns;
use crate::config::error::ConfigError;
use crate::config::error::Fault;
use crate::config::error::Field;
use crate::config::error::Place;
use crate::config::parse::fault_at;
use crate::config::parse::require_value;
use crate::config::parse::spec_require_value;
use crate::config::text::is_word;
use crate::config::text::to_ascii_uppercase;
use crate::config::text::uppercase;
use crate::config::value::Number;
use crate::config::value::Table;
use crate::config::value::Value;
use crate::math::color::Rgb;

verus! {

/// What a description says of a texture.
#[derive(Debug)]
pub enum TextureModel {
    /// One colour everywhere, which may be made brighter.
    SolidColor { color: Rgb, brightness: Option<Number> },
    /// Cubes of two textures in turn. The two are told by their handles.
    Checkerboard { scale: Number, color1: usize, color2: usize },
    /// A picture in a file.
    Image { path: String },
}

/// The textures that were read so far, each with its name if it has one.
/// The handle of a texture is its position.
#[derive(Debug)]
pub struct TextureStorage {
    pub entries: Vec<(Option<String>, TextureModel)>,
}

/// The textures of a storage as a sequence.
pub type Textures = Seq<(Option<String>, TextureModel)>;

/// The position of the first texture at or after `from` with the name
/// `name`.
pub open spec fn named_position(textures: Textures, name: Seq<char>, from: int) -> Option<int>
    decreases textures.len() - from,
{
    if from < 0 || from >= textures.len() {
        None
    } else if textures[from].0 matches Some(n) && n@ == name {
        Some(from)
    } else {
        named_position(textures, name, from + 1)
    }
}

/// The textures with the texture `model` stored under the name `key`: in
/// the place of the texture of that name where there is one, else at the
/// end.
pub open spec fn put_named(textures: Textures, key: String, model: TextureModel) -> Textures {
    match named_position(textures, key@, 0) {
        Some(i) => textures.update(i, (Some(key), model)),
        None => textures.push((Some(key), model)),
    }
}

/// The colour under the key `key` of a table.
pub open spec fn spec_color_of(table: Table, key: Seq<char>, place: Place) -> Result<
    Rgb,
    ConfigError,
> {
    match spec_require_value(table, key, place) {
        Ok(value) => value.spec_parse_color(place),
        Err(e) => Err(e),
    }
}

/// The number under the key `key` of a table.
pub open spec fn spec_number_of(table: Table, key: Seq<char>, place: Place) -> Result<
    Number,
    ConfigError,
> {
    match spec_require_value(table, key, place) {
        Ok(value) => value.spec_parse_floatlike(place),
        Err(e) => Err(e),
    }
}

/// The colour under the key `key` of a table, which has to be there.
pub fn color_of(table: &Table, key: &str, place: Place) -> (r: Result<Rgb, ConfigError>)
    ensures
        r == spec_color_of(*table, key@, place),
{
    match require_value(table, key, place) {
        Ok(value) => value.parse_color(place),
        Err(e) => Err(e),
    }
}

/// The number under the key `key` of a table, which has to be there.
pub fn number_of(table: &Table, key: &str, place: Place) -> (r: Result<Number, ConfigError>)
    ensures
        r == spec_number_of(*table, key@, place),
{
    match require_value(table, key, place) {
        Ok(value) => value.parse_floatlike(place),
        Err(e) => Err(e),
    }
}

impl TextureStorage {
    /// A storage without textures.
    pub fn new() -> (r: TextureStorage)
        ensures
            r.entries@ == Textures::empty(),
    {
        TextureStorage { entries: Vec::new() }
    }

    /// A storage without textures, with room for `capacity` of them.
    pub fn with_capacity(capacity: usize) -> (r: TextureStorage)
        ensures
            r.entries@ == Textures::empty(),
    {
        TextureStorage { entries: Vec::with_capacity(capacity) }
    }

    /// The number of textures.
    pub fn len(&self) -> (r: usize)
        ensures
            r == self.entries@.len(),
    {
        self.entries.len()
    }

    /// Stores a texture without a name and returns its handle.
    pub fn push_anon(&mut self, texture: TextureModel) -> (handle: usize)
        ensures
            final(self).entries@ == old(self).entries@.push((None, texture)),
            handle == old(self).entries@.len(),
    {
        let handle = self.entries.len();
        self.entries.push((None, texture));
        handle
    }

    /// The handle of the texture with the name `name`, if there is one.
    pub fn position(&self, name: &str) -> (r: Option<usize>)
        ensures
            match r {
                Some(i) => named_position(self.entries@, name@, 0) == Some(i as int) && i
                    < self.entries@.len(),
                None => named_position(self.entries@, name@, 0) is None,
            },
    {
        let wanted = String::from_str(name);
        let mut i: usize = 0;
        while i < self.entries.len()
            invariant
                0 <= i <= self.entries@.len(),
                wanted@ == name@,
                named_position(self.entries@, name@, 0) == named_position(
                    self.entries@,
                    name@,
                    i as int,
                ),
            decreases self.entries@.len() - i,
        {
            let found = match &self.entries[i].0 {
                Some(n) => *n == wanted,
                None => false,
            };
            if found {
                return Some(i);
            }
            i = i + 1;
        }
        None
    }

    /// Whether a texture with the name `name` is stored.
    pub fn contains_named_key(&self, name: &str) -> (r: bool)
        ensures
            r == named_position(self.entries@, name@, 0) is Some,
    {
        self.position(name).is_some()
    }

    /// Stores a texture under the name `key` and returns its handle. A
    /// texture that was stored under that name before gives way to it.
    pub fn push_named(&mut self, key: String, texture: TextureModel) -> (handle: usize)
        ensures
            final(self).entries@ == put_named(old(self).entries@, key, texture),
            handle < final(self).entries@.len(),
            final(self).entries@[handle as int] == (Some(key), texture),
    {
        match self.position(key.as_str()) {
            Some(i) => {
                self.entries[i] = (Some(key), texture);
                i
            },
            None => {
                let handle = self.entries.len();
                self.entries.push((Some(key), texture));
                handle
            },
        }
    }

    /// The texture with the handle given, if there is one.
    pub fn get(&self, handle: usize) -> (r: Option<&TextureModel>)
        ensures
            match r {
                Some(model) => handle < self.entries@.len() && self.entries@[handle as int].1
                    == *model,
                None => handle >= self.entries@.len(),
            },
    {
        if handle < self.entries.len() {
            Some(&self.entries[handle].1)
        } else {
            None
        }
    }
}

impl TextureModel {
    /// What the entry of a chessboard says, and the textures after it was
    /// read: the scale, and the two colours of the list under `textures`,
    /// each stored as a texture without a name.
    pub open spec fn spec_parse_checkerboard(table: Table, place: Place, stored: Textures) -> (
        Result<TextureModel, ConfigError>,
        Textures,
    ) {
        let at = place.spec_field(Field::Textures);
        match spec_number_of(table, "scale"@, place.spec_field(Field::Scale)) {
            Err(e) => (Err(e), stored),
            Ok(scale) => match spec_require_value(table, "textures"@, at) {
                Err(e) => (Err(e), stored),
                Ok(Value::Array(textures)) => if textures@.len() != 2 {
                    (Err(fault_at(at, Fault::MustBeArrayOfTwo)), stored)
                } else {
                    match textures@[0].spec_parse_color(at.spec_at(0)) {
                        Err(e) => (Err(e), stored),
                        Ok(first) => {
                            let one = stored.push(
                                (None, TextureModel::SolidColor { color: first, brightness: None }),
                            );
                            match textures@[1].spec_parse_color(at.spec_at(1)) {
                                Err(e) => (Err(e), one),
                                Ok(second) => (
                                    Ok(
                                        TextureModel::Checkerboard {
                                            scale,
                                            color1: stored.len() as usize,
                                            color2: one.len() as usize,
                                        },
                                    ),
                                    one.push(
                                        (
                                            None,
                                            TextureModel::SolidColor {
                                                color: second,
                                                brightness: None,
                                            },
                                        ),
                                    ),
                                ),
                            }
                        },
                    }
                },
                Ok(_) => (Err(fault_at(at, Fault::MustBeArray)), stored),
            },
        }
    }

    /// What the entry `table` of the textures says, and the textures after
    /// it was read. The type of the entry is told by its key `type`,
    /// whatever the case of its letters: a colour, a chessboard or an
    /// image.
    pub open spec fn spec_parse(table: Table, place: Place, stored: Textures) -> (
        Result<TextureModel, ConfigError>,
        Textures,
    ) {
        match table.spec_get("type"@) {
            Some(Value::String(kind)) => {
                let upper = uppercase(kind@);
                if upper == "COLOR"@ || upper == "SOLIDCOLOR"@ || upper == "SOLID_COLOR"@ {
                    match spec_color_of(table, "color"@, place.spec_field(Field::Color)) {
                        Ok(color) => (
                            Ok(TextureModel::SolidColor { color, brightness: None }),
                            stored,
                        ),
                        Err(e) => (Err(e), stored),
                    }
                } else if upper == "CHECKERBOARD"@ || upper == "CHECKER"@ {
                    Self::spec_parse_checkerboard(table, place, stored)
                } else if upper == "IMAGE"@ {
                    match spec_require_value(table, "path"@, place.spec_field(Field::Path)) {
                        Ok(Value::String(path)) => (Ok(TextureModel::Image { path }), stored),
                        Ok(_) => (
                            Err(fault_at(place.spec_field(Field::Path), Fault::MustBeFilepath)),
                            stored,
                        ),
                        Err(e) => (Err(e), stored),
                    }
                } else {
                    (Err(fault_at(place.spec_field(Field::Type), Fault::InvalidTextureType)), stored)
                }
            },
            _ => (Err(fault_at(place.spec_field(Field::Type), Fault::MustBeString)), stored),
        }
    }

    /// Reads the entry of a chessboard.
    fn parse_checkerboard(table: &Table, place: Place, texture_storage: &mut TextureStorage) -> (r:
        Result<TextureModel, ConfigError>)
        ensures
            (r, final(texture_storage).entries@) == Self::spec_parse_checkerboard(
                *table,
                place,
                old(texture_storage).entries@,
            ),
    {
        let at = place.field(Field::Textures);
        let scale = match number_of(table, "scale", place.field(Field::Scale)) {
            Ok(scale) => scale,
            Err(e) => {
                return Err(e);
            },
        };
        let textures = match require_value(table, "textures", at) {
            Ok(value) => match value.parse_array(at) {
                Ok(textures) => textures,
                Err(e) => {
                    return Err(e);
                },
            },
            Err(e) => {
                return Err(e);
            },
        };
        if textures.len() != 2 {
            return Err(at.fault(Fault::MustBeArrayOfTwo));
        }
        let color = match textures[0].parse_color(at.at(0)) {
            Ok(color) => color,
            Err(e) => {
                return Err(e);
            },
        };
        let ind1 = texture_storage.push_anon(TextureModel::SolidColor { color, brightness: None });
        let color = match textures[1].parse_color(at.at(1)) {
            Ok(color) => color,
            Err(e) => {
                return Err(e);
            },
        };
        let ind2 = texture_storage.push_anon(TextureModel::SolidColor { color, brightness: None });
        Ok(TextureModel::Checkerboard { scale, color1: ind1, color2: ind2 })
    }

    /// Reads the entry `table` of the textures. The type of the entry is
    /// told by its key `type`, whatever the case of its letters. A colour
    /// (`color`, `solidcolor`, `solid_color`) has a `color`. A chessboard
    /// (`checkerboard`, `checker`) has a `scale` and a list `textures` of
    /// two colours, which are stored as textures without names. An image
    /// (`image`) has a `path`. Faults are told with their place under
    /// `place`, the place of the entry.
    pub fn parse(table: &Table, place: Place, texture_storage: &mut TextureStorage) -> (r: Result<
        TextureModel,
        ConfigError,
    >)
        ensures
            (r, final(texture_storage).entries@) == Self::spec_parse(
                *table,
                place,
                old(texture_storage).entries@,
            ),
    {
        let texture_type = match table.get("type") {
            Some(Value::String(texture_type)) => texture_type,
            _ => {
                return Err(place.field(Field::Type).fault(Fault::MustBeString));
            },
        };
        let upper = to_ascii_uppercase(texture_type.as_str());
        if is_word(&upper, "COLOR") || is_word(&upper, "SOLIDCOLOR") || is_word(
            &upper,
            "SOLID_COLOR",
        ) {
            match color_of(table, "color", place.field(Field::Color)) {
                Ok(color) => Ok(TextureModel::SolidColor { color, brightness: None }),
                Err(e) => Err(e),
            }
        } else if is_word(&upper, "CHECKERBOARD") || is_word(&upper, "CHECKER") {
            Self::parse_checkerboard(table, place, texture_storage)
        } else if is_word(&upper, "IMAGE") {
            match require_value(table, "path", place.field(Field::Path)) {
                Ok(value) => match value.parse_pathbuf(place.field(Field::Path)) {
                    Ok(path) => Ok(TextureModel::Image { path }),
                    Err(e) => Err(e),
                },
                Err(e) => Err(e),
            }
        } else {
            Err(place.field(Field::Type).fault(Fault::InvalidTextureType))
        }
    }
}

} // verus!
