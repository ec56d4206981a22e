//! The objects of a description.

use vstd::prelude::*;
use crate::config::error::ConfigError;
use crate::config::error::Fault;
use crate::config::error::Field;
use crate::config::error::Place;
use crate::config::material::spec_parse_material;
use crate::config::material::MaterialStorage;
use crate::config::material::Materials;
use crate::config::parse::fault_at;
use crate::config::parse::require_value;
use crate::config::parse::spec_require_value;
use crate::config::parse::Pair;
use crate::config::parse::Triple;
use crate::config::text::is_word;
use crate::config::text::to_ascii_uppercase;
use crate::config::text::uppercase;
use crate::config::texture::number_of;
use crate::config::texture::spec_number_of;
use crate::config::value::Number;
use crate::config::value::Table;
use crate::config::value::Value;

verus! {

/// What a description says of an object. Materials are told by their
/// handles.
#[derive(Clone, Copy, Debug, PartialEq, Eq, Structural)]
pub enum ObjectModel {
    Sphere { center: Triple, radius: Number, material: usize },
    /// A parallelogram: a corner and the vectors along two of its edges.
    Parallelogram { corner: Triple, vectors: Pair, material: usize },
    /// A triangle: its three corners.
    Triangle { first: Triple, second: Triple, third: Triple, material: usize },
    /// An ellipse: its centre and two radial vectors.
    Disc { center: Triple, vectors: Pair, material: usize },
}

/// The point under the key `key` of a table.
pub open spec fn spec_point_of(table: Table, key: Seq<char>, place: Place) -> Result<
    Triple,
    ConfigError,
> {
    match spec_require_value(table, key, place) {
        Ok(value) => value.spec_parse_triple(place, Fault::MustBePoint),
        Err(e) => Err(e),
    }
}

/// The handle of the material that the key `material` of a table names.
pub open spec fn spec_material_of(table: Table, place: Place, materials: Materials) -> Result<
    usize,
    ConfigError,
> {
    match spec_require_value(table, "material"@, place.spec_field(Field::Material)) {
        Ok(value) => spec_parse_material(value, place.spec_field(Field::Material), materials),
        Err(e) => Err(e),
    }
}

/// The two vectors under the key `vectors` of a table.
pub open spec fn spec_vectors_of(table: Table, place: Place) -> Result<Pair, ConfigError> {
    match spec_require_value(table, "vectors"@, place.spec_field(Field::Vectors)) {
        Ok(value) => value.spec_parse_pair(place.spec_field(Field::Vectors)),
        Err(e) => Err(e),
    }
}

/// The point under the key `key` of a table, which has to be there.
fn point_of(table: &Table, key: &str, place: Place) -> (r: Result<Triple, ConfigError>)
    ensures
        r == spec_point_of(*table, key@, place),
{
    match require_value(table, key, place) {
        Ok(value) => value.parse_point3(place),
        Err(e) => Err(e),
    }
}

/// The handle of the material that the key `material` of a table names.
fn material_of(table: &Table, place: Place, materials: &MaterialStorage) -> (r: Result<
    usize,
    ConfigError,
>)
    ensures
        r == spec_material_of(*table, place, materials.entries@),
{
    match require_value(table, "material", place.field(Field::Material)) {
        Ok(value) => value.parse_material(place.field(Field::Material), materials),
        Err(e) => Err(e),
    }
}

/// The two vectors under the key `vectors` of a table.
fn vectors_of(table: &Table, place: Place) -> (r: Result<Pair, ConfigError>)
    ensures
        r == spec_vectors_of(*table, place),
{
    match require_value(table, "vectors", place.field(Field::Vectors)) {
        Ok(value) => value.parse_pair(place.field(Field::Vectors)),
        Err(e) => Err(e),
    }
}

impl ObjectModel {
    /// What the entry of a ball says.
    pub open spec fn spec_parse_sphere(table: Table, place: Place, materials: Materials) -> Result<
        ObjectModel,
        ConfigError,
    > {
        match spec_point_of(table, "center"@, place.spec_field(Field::Center)) {
            Err(e) => Err(e),
            Ok(center) => match spec_number_of(table, "radius"@, place.spec_field(Field::Radius)) {
                Err(e) => Err(e),
                Ok(radius) => match spec_material_of(table, place, materials) {
                    Err(e) => Err(e),
                    Ok(material) => Ok(ObjectModel::Sphere { center, radius, material }),
                },
            },
        }
    }

    /// What the entry of a flat object says, whose first point stands under
    /// the key `key`: that point, the material and the two vectors.
    pub open spec fn spec_parse_flat(
        table: Table,
        place: Place,
        materials: Materials,
        key: Seq<char>,
        field: Field,
    ) -> Result<(Triple, usize, Pair), ConfigError> {
        match spec_point_of(table, key, place.spec_field(field)) {
            Err(e) => Err(e),
            Ok(point) => match spec_material_of(table, place, materials) {
                Err(e) => Err(e),
                Ok(material) => match spec_vectors_of(table, place) {
                    Err(e) => Err(e),
                    Ok(vectors) => Ok((point, material, vectors)),
                },
            },
        }
    }

    /// What the entry `table` of the objects says. The type of the entry
    /// is told by its key `type`, whatever the case of its letters.
    pub open spec fn spec_parse(table: Table, place: Place, materials: Materials) -> Result<
        ObjectModel,
        ConfigError,
    > {
        match table.spec_get("type"@) {
            Some(Value::String(kind)) => {
                let upper = uppercase(kind@);
                if upper == "SPHERE"@ {
                    Self::spec_parse_sphere(table, place, materials)
                } else if upper == "PARALLELOGRAM"@ {
                    match Self::spec_parse_flat(table, place, materials, "corner"@, Field::Corner) {
                        Ok((corner, material, vectors)) => Ok(
                            ObjectModel::Parallelogram { corner, vectors, material },
                        ),
                        Err(e) => Err(e),
                    }
                } else if upper == "DISC"@ {
                    match Self::spec_parse_flat(table, place, materials, "center"@, Field::Center) {
                        Ok((center, material, vectors)) => Ok(
                            ObjectModel::Disc { center, vectors, material },
                        ),
                        Err(e) => Err(e),
                    }
                } else {
                    Err(fault_at(place.spec_field(Field::Type), Fault::InvalidObjectType))
                }
            },
            _ => Err(fault_at(place.spec_field(Field::Type), Fault::MustBeString)),
        }
    }

    /// Reads the entry of a ball.
    fn parse_sphere(table: &Table, place: Place, materials: &MaterialStorage) -> (r: Result<
        ObjectModel,
        ConfigError,
    >)
        ensures
            r == Self::spec_parse_sphere(*table, place, materials.entries@),
    {
        let center = match point_of(table, "center", place.field(Field::Center)) {
            Ok(center) => center,
            Err(e) => {
                return Err(e);
            },
        };
        let radius = match number_of(table, "radius", place.field(Field::Radius)) {
            Ok(radius) => radius,
            Err(e) => {
                return Err(e);
            },
        };
        let material = match material_of(table, place, materials) {
            Ok(material) => material,
            Err(e) => {
                return Err(e);
            },
        };
        Ok(ObjectModel::Sphere { center, radius, material })
    }

    /// Reads the entry of a flat object whose first point stands under the
    /// key `key`.
    fn parse_flat(
        table: &Table,
        place: Place,
        materials: &MaterialStorage,
        key: &str,
        field: Field,
    ) -> (r: Result<(Triple, usize, Pair), ConfigError>)
        ensures
            r == Self::spec_parse_flat(*table, place, materials.entries@, key@, field),
    {
        let point = match point_of(table, key, place.field(field)) {
            Ok(point) => point,
            Err(e) => {
                return Err(e);
            },
        };
        let material = match material_of(table, place, materials) {
            Ok(material) => material,
            Err(e) => {
                return Err(e);
            },
        };
        let vectors = match vectors_of(table, place) {
            Ok(vectors) => vectors,
            Err(e) => {
                return Err(e);
            },
        };
        Ok((point, material, vectors))
    }

    /// Reads the entry `table` of the objects. The type of the entry is
    /// told by its key `type`, whatever the case of its letters. A ball
    /// (`sphere`) has a `center`, a `radius` and a `material`. A
    /// parallelogram (`parallelogram`) has a `corner`, a `material` and a
    /// list `vectors` of two vectors; an ellipse (`disc`) has a `center`,
    /// a `material` and `vectors`. The material is named and must be
    /// stored. Faults are told with their place under `place`, the place
    /// of the entry.
    pub fn parse(table: &Table, place: Place, materials: &MaterialStorage) -> (r: Result<
        ObjectModel,
        ConfigError,
    >)
        ensures
            r == Self::spec_parse(*table, place, materials.entries@),
    {
        let obj_type = match table.get("type") {
            Some(Value::String(obj_type)) => obj_type,
            _ => {
                return Err(place.field(Field::Type).fault(Fault::MustBeString));
            },
        };
        let upper = to_ascii_uppercase(obj_type.as_str());
        if is_word(&upper, "SPHERE") {
            Self::parse_sphere(table, place, materials)
        } else if is_word(&upper, "PARALLELOGRAM") {
            match Self::parse_flat(table, place, materials, "corner", Field::Corner) {
                Ok((corner, material, vectors)) => Ok(
                    ObjectModel::Parallelogram { corner, vectors, material },
                ),
                Err(e) => Err(e),
            }
        } else if is_word(&upper, "DISC") {
            match Self::parse_flat(table, place, materials, "center", Field::Center) {
                Ok((center, material, vectors)) => Ok(
                    ObjectModel::Disc { center, vectors, material },
                ),
                Err(e) => Err(e),
            }
        } else {
            Err(place.field(Field::Type).fault(Fault::InvalidObjectType))
        }
    }
}

} // verus!
