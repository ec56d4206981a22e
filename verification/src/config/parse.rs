//! What the values of a description are read as.

use vstd::prelude::*;
use crate::config::error::ConfigError;
use crate::config::error::Fault;
use crate::config::error::Place;
use crate::config::text::hex_number;
use crate::config::text::parse_hex;
use crate::config::text::trim;
use crate::config::text::trim_matches;
use crate::config::text::trimmed;
use crate::config::text::without;
use crate::config::value::Number;
use crate::config::value::Table;
use crate::config::value::Value;
use crate::math::color::Rgb;

verus! {

/// Three numbers: the coordinates of a point or the components of a vector.
#[derive(Clone, Copy, Debug, PartialEq, Eq, Structural)]
pub struct Triple {
    pub x: Number,
    pub y: Number,
    pub z: Number,
}

/// Two triples: the vectors along two edges.
#[derive(Clone, Copy, Debug, PartialEq, Eq, Structural)]
pub struct Pair {
    pub first: Triple,
    pub second: Triple,
}

/// The fault `fault` at `place`.
pub open spec fn fault_at(place: Place, fault: Fault) -> ConfigError {
    ConfigError { place, fault }
}

/// The colour that a colour code in text stands for: the text without the
/// hash signs at its ends is a number in base sixteen, and the number is
/// the code of the colour.
pub open spec fn spec_color_code(text: Seq<char>) -> Option<Rgb> {
    match hex_number(without(text, '#')) {
        Some(code) => Some(Rgb::spec_hex(code)),
        None => None,
    }
}

/// The colour that a text stands for: the text without the white space at
/// its ends, read as a colour code.
pub open spec fn spec_color_of_text(text: Seq<char>) -> Option<Rgb> {
    spec_color_code(trimmed(text))
}

/// The colour that a colour code in text stands for, if the text is one:
/// hash signs at its ends are left out, and what is left must be a number
/// in base sixteen below two to the 32, with a plus sign before it or
/// none. The number stands for its colour as [`Rgb::hex`] tells.
pub fn parse_color_code(text: &str) -> (r: Option<Rgb>)
    ensures
        r == spec_color_code(text@),
{
    match parse_hex(trim_matches(text, '#')) {
        Some(hex) => Some(Rgb::hex(hex)),
        None => None,
    }
}

/// The value of the key `key` of a table, which has to be there.
pub open spec fn spec_require_value(table: Table, key: Seq<char>, place: Place) -> Result<
    Value,
    ConfigError,
> {
    match table.spec_get(key) {
        Some(value) => Ok(value),
        None => Err(fault_at(place, Fault::MustBeProvided)),
    }
}

/// The value of the key `key` of a table; a fault at `place` where the
/// table has no such key.
pub fn require_value<'a>(table: &'a Table, key: &str, place: Place) -> (r: Result<
    &'a Value,
    ConfigError,
>)
    ensures
        match r {
            Ok(value) => spec_require_value(*table, key@, place) == Ok::<Value, ConfigError>(
                *value,
            ),
            Err(e) => spec_require_value(*table, key@, place) == Err::<Value, ConfigError>(e),
        },
{
    match table.get(key) {
        Some(value) => Ok(value),
        None => Err(place.fault(Fault::MustBeProvided)),
    }
}

impl Value {
    /// The colour that the value stands for: a text is read as a colour
    /// code in base sixteen, a whole number is the colour code itself.
    pub open spec fn spec_parse_color(self, place: Place) -> Result<Rgb, ConfigError> {
        match self {
            Value::String(text) => match spec_color_of_text(text@) {
                Some(color) => Ok(color),
                None => Err(fault_at(place, Fault::InvalidHex)),
            },
            Value::Integer(code) => if 0 <= code <= u32::MAX {
                Ok(Rgb::spec_hex(code as u32))
            } else {
                Err(fault_at(place, Fault::ColorOutOfRange))
            },
            _ => Err(fault_at(place, Fault::MustBeColor)),
        }
    }

    /// The number that the value stands for.
    pub open spec fn spec_parse_floatlike(self, place: Place) -> Result<Number, ConfigError> {
        match self {
            Value::Float(x) => Ok(Number::Float(x)),
            Value::Integer(i) => Ok(Number::Integer(i)),
            _ => Err(fault_at(place, Fault::MustBeNumber)),
        }
    }

    /// The three numbers that the value stands for, where `fault` is what
    /// is wrong with a value that is no list of three.
    pub open spec fn spec_parse_triple(self, place: Place, fault: Fault) -> Result<
        Triple,
        ConfigError,
    > {
        match self {
            Value::Array(arr) => if arr@.len() != 3 {
                Err(fault_at(place, fault))
            } else {
                match arr@[0].spec_parse_floatlike(place.spec_at(0)) {
                    Err(e) => Err(e),
                    Ok(x) => match arr@[1].spec_parse_floatlike(place.spec_at(1)) {
                        Err(e) => Err(e),
                        Ok(y) => match arr@[2].spec_parse_floatlike(place.spec_at(2)) {
                            Err(e) => Err(e),
                            Ok(z) => Ok(Triple { x, y, z }),
                        },
                    },
                }
            },
            _ => Err(fault_at(place, fault)),
        }
    }

    /// The two triples that the value stands for.
    pub open spec fn spec_parse_pair(self, place: Place) -> Result<Pair, ConfigError> {
        match self {
            Value::Array(arr) => if arr@.len() != 2 {
                Err(fault_at(place, Fault::MustBeArrayOfTwo))
            } else {
                match arr@[0].spec_parse_triple(place.spec_at(0), Fault::MustBeVector) {
                    Err(e) => Err(e),
                    Ok(first) => match arr@[1].spec_parse_triple(
                        place.spec_at(1),
                        Fault::MustBeVector,
                    ) {
                        Err(e) => Err(e),
                        Ok(second) => Ok(Pair { first, second }),
                    },
                }
            },
            _ => Err(fault_at(place, Fault::MustBeArray)),
        }
    }

    /// The colour that the value stands for. A text is a colour code in
    /// base sixteen, with white space and hash signs around it left out; a
    /// whole number is the colour code itself and must not be below zero
    /// nor reach two to the 32. A code stands for its colour as
    /// [`Rgb::hex`] tells.
    pub fn parse_color(&self, place: Place) -> (r: Result<Rgb, ConfigError>)
        ensures
            r == self.spec_parse_color(place),
    {
        match self {
            Value::String(color_str) => {
                match parse_color_code(trim(color_str.as_str())) {
                    Some(color) => Ok(color),
                    None => Err(place.fault(Fault::InvalidHex)),
                }
            },
            Value::Integer(color_int) => {
                if 0 <= *color_int && *color_int <= 0xffff_ffff {
                    Ok(Rgb::hex(*color_int as u32))
                } else {
                    Err(place.fault(Fault::ColorOutOfRange))
                }
            },
            _ => Err(place.fault(Fault::MustBeColor)),
        }
    }

    /// The number that the value stands for: a number with a fraction or a
    /// whole number, as it was written.
    pub fn parse_floatlike(&self, place: Place) -> (r: Result<Number, ConfigError>)
        ensures
            r == self.spec_parse_floatlike(place),
    {
        match self {
            Value::Float(f) => Ok(Number::Float(*f)),
            Value::Integer(i) => Ok(Number::Integer(*i)),
            _ => Err(place.fault(Fault::MustBeNumber)),
        }
    }

    /// The path that the value stands for: its text.
    pub fn parse_pathbuf(&self, place: Place) -> (r: Result<String, ConfigError>)
        ensures
            match self {
                Value::String(text) => r == Ok::<String, ConfigError>(*text),
                _ => r == Err::<String, ConfigError>(fault_at(place, Fault::MustBeFilepath)),
            },
    {
        match self {
            Value::String(s) => Ok(s.clone()),
            _ => Err(place.fault(Fault::MustBeFilepath)),
        }
    }

    /// The three numbers of a list of three; a fault at its place for each
    /// value of the list that is no number, and `fault` for a value that is
    /// no list of three.
    fn parse_triple(&self, place: Place, fault: Fault) -> (r: Result<Triple, ConfigError>)
        ensures
            r == self.spec_parse_triple(place, fault),
    {
        match self {
            Value::Array(arr) => {
                if arr.len() != 3 {
                    return Err(place.fault(fault));
                }
                let x = match arr[0].parse_floatlike(place.at(0)) {
                    Ok(x) => x,
                    Err(e) => {
                        return Err(e);
                    },
                };
                let y = match arr[1].parse_floatlike(place.at(1)) {
                    Ok(y) => y,
                    Err(e) => {
                        return Err(e);
                    },
                };
                let z = match arr[2].parse_floatlike(place.at(2)) {
                    Ok(z) => z,
                    Err(e) => {
                        return Err(e);
                    },
                };
                Ok(Triple { x, y, z })
            },
            _ => Err(place.fault(fault)),
        }
    }

    /// The point that the value stands for: a list of three numbers.
    pub fn parse_point3(&self, place: Place) -> (r: Result<Triple, ConfigError>)
        ensures
            r == self.spec_parse_triple(place, Fault::MustBePoint),
    {
        self.parse_triple(place, Fault::MustBePoint)
    }

    /// The vector that the value stands for: a list of three numbers.
    pub fn parse_vec3(&self, place: Place) -> (r: Result<Triple, ConfigError>)
        ensures
            r == self.spec_parse_triple(place, Fault::MustBeVector),
    {
        self.parse_triple(place, Fault::MustBeVector)
    }

    /// The list that the value is.
    pub fn parse_array(&self, place: Place) -> (r: Result<&Vec<Value>, ConfigError>)
        ensures
            match self {
                Value::Array(arr) => r == Ok::<&Vec<Value>, ConfigError>(arr),
                _ => r == Err::<&Vec<Value>, ConfigError>(fault_at(place, Fault::MustBeArray)),
            },
    {
        match self {
            Value::Array(a) => Ok(a),
            _ => Err(place.fault(Fault::MustBeArray)),
        }
    }

    /// The two vectors that the value stands for: a list of two lists of
    /// three numbers.
    pub fn parse_pair(&self, place: Place) -> (r: Result<Pair, ConfigError>)
        ensures
            r == self.spec_parse_pair(place),
    {
        let vecs = match self.parse_array(place) {
            Ok(vecs) => vecs,
            Err(e) => {
                return Err(e);
            },
        };
        if vecs.len() != 2 {
            return Err(place.fault(Fault::MustBeArrayOfTwo));
        }
        let first = match vecs[0].parse_vec3(place.at(0)) {
            Ok(first) => first,
            Err(e) => {
                return Err(e);
            },
        };
        let second = match vecs[1].parse_vec3(place.at(1)) {
            Ok(second) => second,
            Err(e) => {
                return Err(e);
            },
        };
        Ok(Pair { first, second })
    }
}

} // verus!
