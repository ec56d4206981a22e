//! The materials of a description.

use vstd::prelude::*;
use vstd::string::StringExecFns;
use crate::config::error::ConfigError;
use crate::config::error::Fault;
use crate::config::error::Field;
use crate::config::error::Place;
use crate::config::parse::fault_at;
use crate::config::parse::require_value;
use crate::config::parse::spec_require_value;
use crate::config::text::is_word;
use crate::config::text::to_ascii_uppercase;
use crate::config::text::uppercase;
use crate::config::texture::color_of;
use crate::config::texture::named_position;
use crate::config::texture::number_of;
use crate::config::texture::spec_color_of;
use crate::config::texture::spec_number_of;
use crate::config::texture::TextureModel;
use crate::config::texture::TextureStorage;
use crate::config::texture::Textures;
use crate::config::value::Number;
use crate::config::value::Table;
use crate::config::value::Value;
use crate::math::color::Rgb;

verus! {

/// What a description says of a material. Textures are told by their
/// handles.
#[derive(Clone, Copy, Debug, PartialEq, Eq, Structural)]
pub enum MaterialModel {
    Lambertian(usize),
    DiffuseLight(usize),
    Isotropic(usize),
    /// A mirror. `percent` tells that the blur was written as a number
    /// above one, which is meant as so many hundredths.
    Metal { albedo: Rgb, fuzz: Number, percent: bool },
    Dielectric { refractive_index: Number },
}

/// The materials that were read so far, each with its name. The handle of a
/// material is its position.
#[derive(Debug)]
pub struct MaterialStorage {
    pub entries: Vec<(String, MaterialModel)>,
}

/// The materials of a storage as a sequence.
pub type Materials = Seq<(String, MaterialModel)>;

/// The position of the first material at or after `from` with the name
/// `name`.
pub open spec fn material_position(materials: Materials, name: Seq<char>, from: int) -> Option<
    int,
>
    decreases materials.len() - from,
{
    if from < 0 || from >= materials.len() {
        None
    } else if materials[from].0@ == name {
        Some(from)
    } else {
        material_position(materials, name, from + 1)
    }
}

/// The materials with the material `model` stored under the name `key`: in
/// the place of the material of that name where there is one, else at the
/// end.
pub open spec fn put_material(materials: Materials, key: String, model: MaterialModel) -> Materials {
    match material_position(materials, key@, 0) {
        Some(i) => materials.update(i, (key, model)),
        None => materials.push((key, model)),
    }
}

/// The handle of the texture that a value names.
pub open spec fn spec_parse_texture(value: Value, place: Place, stored: Textures) -> Result<
    usize,
    ConfigError,
> {
    match value {
        Value::String(name) => match named_position(stored, name@, 0) {
            Some(i) => Ok(i as usize),
            None => Err(fault_at(place, Fault::UnknownTexture)),
        },
        _ => Err(fault_at(place, Fault::MustBeTextureName)),
    }
}

/// The handle of the texture that the key `texture` of a table names.
pub open spec fn spec_texture_of(table: Table, place: Place, stored: Textures) -> Result<
    usize,
    ConfigError,
> {
    match spec_require_value(table, "texture"@, place.spec_field(Field::Texture)) {
        Ok(value) => spec_parse_texture(value, place.spec_field(Field::Texture), stored),
        Err(e) => Err(e),
    }
}

/// The handle of the material that a value names.
pub open spec fn spec_parse_material(value: Value, place: Place, materials: Materials) -> Result<
    usize,
    ConfigError,
> {
    match value {
        Value::String(name) => match material_position(materials, name@, 0) {
            Some(i) => Ok(i as usize),
            None => Err(fault_at(place, Fault::UnknownMaterial)),
        },
        _ => Err(fault_at(place, Fault::MustBeMaterialName)),
    }
}

impl Value {
    /// The handle of the texture that the value names: the value is the
    /// name of a texture that is stored.
    pub fn parse_texture(&self, place: Place, storage: &TextureStorage) -> (r: Result<
        usize,
        ConfigError,
    >)
        ensures
            r == spec_parse_texture(*self, place, storage.entries@),
            r matches Ok(handle) ==> handle < storage.entries@.len(),
    {
        match self {
            Value::String(a) => match storage.position(a.as_str()) {
                Some(handle) => Ok(handle),
                None => Err(place.fault(Fault::UnknownTexture)),
            },
            _ => Err(place.fault(Fault::MustBeTextureName)),
        }
    }

    /// The handle of the material that the value names: the value is the
    /// name of a material that is stored.
    pub fn parse_material(&self, place: Place, storage: &MaterialStorage) -> (r: Result<
        usize,
        ConfigError,
    >)
        ensures
            r == spec_parse_material(*self, place, storage.entries@),
            r matches Ok(handle) ==> handle < storage.entries@.len(),
    {
        match self {
            Value::String(a) => match storage.position(a.as_str()) {
                Some(handle) => Ok(handle),
                None => Err(place.fault(Fault::UnknownMaterial)),
            },
            _ => Err(place.fault(Fault::MustBeMaterialName)),
        }
    }
}

/// The handle of the texture that the key `texture` of a table names.
fn texture_of(table: &Table, place: Place, storage: &TextureStorage) -> (r: Result<
    usize,
    ConfigError,
>)
    ensures
        r == spec_texture_of(*table, place, storage.entries@),
{
    match require_value(table, "texture", place.field(Field::Texture)) {
        Ok(value) => value.parse_texture(place.field(Field::Texture), storage),
        Err(e) => Err(e),
    }
}

impl MaterialStorage {
    /// A storage without materials.
    pub fn new() -> (r: MaterialStorage)
        ensures
            r.entries@ == Materials::empty(),
    {
        MaterialStorage { entries: Vec::new() }
    }

    /// The number of materials.
    pub fn len(&self) -> (r: usize)
        ensures
            r == self.entries@.len(),
    {
        self.entries.len()
    }

    /// The handle of the material with the name `name`, if there is one.
    pub fn position(&self, name: &str) -> (r: Option<usize>)
        ensures
            match r {
                Some(i) => material_position(self.entries@, name@, 0) == Some(i as int) && i
                    < self.entries@.len(),
                None => material_position(self.entries@, name@, 0) is None,
            },
    {
        let wanted = String::from_str(name);
        let mut i: usize = 0;
        while i < self.entries.len()
            invariant
                0 <= i <= self.entries@.len(),
                wanted@ == name@,
                material_position(self.entries@, name@, 0) == material_position(
                    self.entries@,
                    name@,
                    i as int,
                ),
            decreases self.entries@.len() - i,
        {
            if self.entries[i].0 == wanted {
                return Some(i);
            }
            i = i + 1;
        }
        None
    }

    /// Stores a material under the name `key` and returns its handle. A
    /// material that was stored under that name before gives way to it.
    pub fn insert(&mut self, key: String, material: MaterialModel) -> (handle: usize)
        ensures
            final(self).entries@ == put_material(old(self).entries@, key, material),
            handle < final(self).entries@.len(),
            final(self).entries@[handle as int] == (key, material),
    {
        match self.position(key.as_str()) {
            Some(i) => {
                self.entries[i] = (key, material);
                i
            },
            None => {
                let handle = self.entries.len();
                self.entries.push((key, material));
                handle
            },
        }
    }

    /// The material with the handle given, if there is one.
    pub fn get(&self, handle: usize) -> (r: Option<MaterialModel>)
        ensures
            match r {
                Some(model) => handle < self.entries@.len() && self.entries@[handle as int].1
                    == model,
                None => handle >= self.entries@.len(),
            },
    {
        if handle < self.entries.len() {
            Some(self.entries[handle].1)
        } else {
            None
        }
    }
}

impl MaterialModel {
    /// What the entry of a coloured light says, and the textures after it
    /// was read: its colour, with its brightness where one is given, is
    /// stored as a texture without a name.
    pub open spec fn spec_parse_colored_light(table: Table, place: Place, stored: Textures) -> (
        Result<MaterialModel, ConfigError>,
        Textures,
    ) {
        match spec_color_of(table, "color"@, place.spec_field(Field::Color)) {
            Err(e) => (Err(e), stored),
            Ok(color) => match table.spec_get("brightness"@) {
                None => (
                    Ok(MaterialModel::DiffuseLight(stored.len() as usize)),
                    stored.push((None, TextureModel::SolidColor { color, brightness: None })),
                ),
                Some(value) => match value.spec_parse_floatlike(
                    place.spec_field(Field::Brightness),
                ) {
                    Err(e) => (Err(e), stored),
                    Ok(brightness) => (
                        Ok(MaterialModel::DiffuseLight(stored.len() as usize)),
                        stored.push(
                            (
                                None,
                                TextureModel::SolidColor { color, brightness: Some(brightness) },
                            ),
                        ),
                    ),
                },
            },
        }
    }

    /// What the entry of a mirror says.
    pub open spec fn spec_parse_metal(table: Table, place: Place) -> Result<
        MaterialModel,
        ConfigError,
    > {
        match spec_color_of(table, "albedo"@, place.spec_field(Field::Albedo)) {
            Err(e) => Err(e),
            Ok(albedo) => match spec_number_of(table, "fuzz"@, place.spec_field(Field::Fuzz)) {
                Err(e) => Err(e),
                Ok(fuzz) => Ok(
                    MaterialModel::Metal { albedo, fuzz, percent: fuzz.spec_above_one() },
                ),
            },
        }
    }

    /// What the entry `table` of the materials says, and the textures
    /// after it was read. The type of the entry is told by its key `type`,
    /// whatever the case of its letters.
    pub open spec fn spec_parse(table: Table, place: Place, stored: Textures) -> (
        Result<MaterialModel, ConfigError>,
        Textures,
    ) {
        match table.spec_get("type"@) {
            Some(Value::String(kind)) => {
                let upper = uppercase(kind@);
                if upper == "LAMBERTIAN"@ {
                    match spec_texture_of(table, place, stored) {
                        Ok(texture) => (Ok(MaterialModel::Lambertian(texture)), stored),
                        Err(e) => (Err(e), stored),
                    }
                } else if upper == "METAL"@ || upper == "METALLIC"@ || upper == "FUZZY"@ {
                    (Self::spec_parse_metal(table, place), stored)
                } else if upper == "LIGHT"@ || upper == "LIGHTSOURCE"@ || upper
                    == "DIFFUSELIGHT"@ {
                    match spec_texture_of(table, place, stored) {
                        Ok(texture) => (Ok(MaterialModel::DiffuseLight(texture)), stored),
                        Err(e) => (Err(e), stored),
                    }
                } else if upper == "DIELECTRIC"@ {
                    match spec_number_of(
                        table,
                        "refractive_index"@,
                        place.spec_field(Field::RefractiveIndex),
                    ) {
                        Ok(refractive_index) => (
                            Ok(MaterialModel::Dielectric { refractive_index }),
                            stored,
                        ),
                        Err(e) => (Err(e), stored),
                    }
                } else if upper == "ISOTROPIC"@ {
                    match spec_texture_of(table, place, stored) {
                        Ok(texture) => (Ok(MaterialModel::Isotropic(texture)), stored),
                        Err(e) => (Err(e), stored),
                    }
                } else if upper == "SOLIDCOLOR"@ {
                    match spec_color_of(table, "color"@, place.spec_field(Field::Color)) {
                        Ok(color) => (
                            Ok(MaterialModel::Lambertian(stored.len() as usize)),
                            stored.push(
                                (None, TextureModel::SolidColor { color, brightness: None }),
                            ),
                        ),
                        Err(e) => (Err(e), stored),
                    }
                } else if upper == "COLOREDLIGHT"@ {
                    Self::spec_parse_colored_light(table, place, stored)
                } else {
                    (
                        Err(fault_at(place.spec_field(Field::Type), Fault::InvalidMaterialType)),
                        stored,
                    )
                }
            },
            _ => (Err(fault_at(place.spec_field(Field::Type), Fault::MustBeString)), stored),
        }
    }

    /// Reads the entry of a mirror.
    fn parse_metal(table: &Table, place: Place) -> (r: Result<MaterialModel, ConfigError>)
        ensures
            r == Self::spec_parse_metal(*table, place),
    {
        let albedo = match color_of(table, "albedo", place.field(Field::Albedo)) {
            Ok(albedo) => albedo,
            Err(e) => {
                return Err(e);
            },
        };
        let fuzz = match number_of(table, "fuzz", place.field(Field::Fuzz)) {
            Ok(fuzz) => fuzz,
            Err(e) => {
                return Err(e);
            },
        };
        Ok(MaterialModel::Metal { albedo, fuzz, percent: fuzz.above_one() })
    }

    /// Reads the entry of a coloured light.
    fn parse_colored_light(table: &Table, place: Place, texture_storage: &mut TextureStorage) -> (r:
        Result<MaterialModel, ConfigError>)
        ensures
            (r, final(texture_storage).entries@) == Self::spec_parse_colored_light(
                *table,
                place,
                old(texture_storage).entries@,
            ),
    {
        let color = match color_of(table, "color", place.field(Field::Color)) {
            Ok(color) => color,
            Err(e) => {
                return Err(e);
            },
        };
        let brightness = match table.get("brightness") {
            Some(bright) => match bright.parse_floatlike(place.field(Field::Brightness)) {
                Ok(brightness) => Some(brightness),
                Err(e) => {
                    return Err(e);
                },
            },
            None => None,
        };
        let tex_id = texture_storage.push_anon(TextureModel::SolidColor { color, brightness });
        Ok(MaterialModel::DiffuseLight(tex_id))
    }

    /// Reads the entry `table` of the materials. The type of the entry is
    /// told by its key `type`, whatever the case of its letters. A matt
    /// material (`lambertian`), a light (`light`, `lightsource`,
    /// `diffuselight`) and an evenly scattering material (`isotropic`) name
    /// their `texture`, which must be stored. A mirror (`metal`,
    /// `metallic`, `fuzzy`) has an `albedo` and a `fuzz`. A clear material
    /// (`dielectric`) has a `refractive_index`. A matt material of one
    /// colour (`solidcolor`) and a light of one colour (`coloredlight`)
    /// have a `color`, the light a `brightness` too if it likes; the colour
    /// is stored as a texture without a name.
    pub fn parse(table: &Table, place: Place, texture_storage: &mut TextureStorage) -> (r: Result<
        MaterialModel,
        ConfigError,
    >)
        ensures
            (r, final(texture_storage).entries@) == Self::spec_parse(
                *table,
                place,
                old(texture_storage).entries@,
            ),
    {
        let mat_type = match table.get("type") {
            Some(Value::String(mat_type)) => mat_type,
            _ => {
                return Err(place.field(Field::Type).fault(Fault::MustBeString));
            },
        };
        let upper = to_ascii_uppercase(mat_type.as_str());
        if is_word(&upper, "LAMBERTIAN") {
            match texture_of(table, place, texture_storage) {
                Ok(texture) => Ok(MaterialModel::Lambertian(texture)),
                Err(e) => Err(e),
            }
        } else if is_word(&upper, "METAL") || is_word(&upper, "METALLIC") || is_word(
            &upper,
            "FUZZY",
        ) {
            Self::parse_metal(table, place)
        } else if is_word(&upper, "LIGHT") || is_word(&upper, "LIGHTSOURCE") || is_word(
            &upper,
            "DIFFUSELIGHT",
        ) {
            match texture_of(table, place, texture_storage) {
                Ok(texture) => Ok(MaterialModel::DiffuseLight(texture)),
                Err(e) => Err(e),
            }
        } else if is_word(&upper, "DIELECTRIC") {
            match number_of(table, "refractive_index", place.field(Field::RefractiveIndex)) {
                Ok(refractive_index) => Ok(MaterialModel::Dielectric { refractive_index }),
                Err(e) => Err(e),
            }
        } else if is_word(&upper, "ISOTROPIC") {
            match texture_of(table, place, texture_storage) {
                Ok(texture) => Ok(MaterialModel::Isotropic(texture)),
                Err(e) => Err(e),
            }
        } else if is_word(&upper, "SOLIDCOLOR") {
            match color_of(table, "color", place.field(Field::Color)) {
                Ok(color) => {
                    let tex_id = texture_storage.push_anon(
                        TextureModel::SolidColor { color, brightness: None },
                    );
                    Ok(MaterialModel::Lambertian(tex_id))
                },
                Err(e) => Err(e),
            }
        } else if is_word(&upper, "COLOREDLIGHT") {
            Self::parse_colored_light(table, place, texture_storage)
        } else {
            Err(place.field(Field::Type).fault(Fault::InvalidMaterialType))
        }
    }
}

} // verus!
