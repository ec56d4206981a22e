//! The values of a description.

use vstd::prelude::*;
use vstd::string::StringExecFns;
use crate::math::scalar::Scalar;
use crate::math::scalar::ONE_ORD;

verus! {

/// A value of a description.
#[derive(Debug)]
pub enum Value {
    String(String),
    Integer(i64),
    Float(Scalar),
    Boolean(bool),
    Datetime(String),
    Array(Vec<Value>),
    Table(Table),
}

/// A table of a description: keys and their values, in the order of the
/// description.
#[derive(Debug)]
pub struct Table {
    pub entries: Vec<(String, Value)>,
}

/// A number of a description, as it was written: with a fraction or whole.
#[derive(Clone, Copy, Debug, PartialEq, Eq, Structural)]
pub enum Number {
    Float(Scalar),
    Integer(i64),
}

impl Number {
    /// Whether the number is above one.
    pub open spec fn spec_above_one(self) -> bool {
        match self {
            Number::Float(x) => x.ord() > ONE_ORD,
            Number::Integer(i) => i > 1,
        }
    }

    /// Whether the number is below zero.
    pub open spec fn spec_below_zero(self) -> bool {
        match self {
            Number::Float(x) => x.ord() < 0,
            Number::Integer(i) => i < 0,
        }
    }

    /// Whether the number is above one.
    pub fn above_one(&self) -> (r: bool)
        ensures
            r == self.spec_above_one(),
    {
        match self {
            Number::Float(x) => x.ord() > ONE_ORD,
            Number::Integer(i) => *i > 1,
        }
    }

    /// Whether the number is below zero.
    pub fn below_zero(&self) -> (r: bool)
        ensures
            r == self.spec_below_zero(),
    {
        match self {
            Number::Float(x) => x.ord() < 0,
            Number::Integer(i) => *i < 0,
        }
    }
}

impl Table {
    /// The position of the first entry at or after `from` with the key
    /// `key`.
    pub open spec fn spec_index_of(self, key: Seq<char>, from: int) -> Option<int>
        decreases self.entries@.len() - from,
    {
        if from < 0 || from >= self.entries@.len() {
            None
        } else if self.entries@[from].0@ == key {
            Some(from)
        } else {
            self.spec_index_of(key, from + 1)
        }
    }

    /// The value of the first entry with the key `key`.
    pub open spec fn spec_get(self, key: Seq<char>) -> Option<Value> {
        match self.spec_index_of(key, 0) {
            Some(i) => Some(self.entries@[i].1),
            None => None,
        }
    }

    /// The table of the entries given.
    pub fn new(entries: Vec<(String, Value)>) -> (r: Table)
        ensures
            r.entries == entries,
    {
        Table { entries }
    }

    /// The number of entries.
    pub fn len(&self) -> (r: usize)
        ensures
            r == self.entries@.len(),
    {
        self.entries.len()
    }

    /// The position of the first entry with the key `key`, if there is
    /// one.
    pub fn index_of(&self, key: &str) -> (r: Option<usize>)
        ensures
            match r {
                Some(i) => self.spec_index_of(key@, 0) == Some(i as int) && i < self.entries@.len()
                    && self.entries@[i as int].0@ == key@,
                None => self.spec_index_of(key@, 0) is None,
            },
    {
        let wanted = String::from_str(key);
        let mut i: usize = 0;
        while i < self.entries.len()
            invariant
                0 <= i <= self.entries@.len(),
                wanted@ == key@,
                self.spec_index_of(key@, 0) == self.spec_index_of(key@, i as int),
            decreases self.entries@.len() - i,
        {
            if self.entries[i].0 == wanted {
                return Some(i);
            }
            i = i + 1;
        }
        None
    }

    /// The value of the first entry with the key `key`, if there is one.
    pub fn get(&self, key: &str) -> (r: Option<&Value>)
        ensures
            match r {
                Some(value) => self.spec_get(key@) == Some(*value),
                None => self.spec_get(key@) is None,
            },
    {
        match self.index_of(key) {
            Some(i) => Some(&self.entries[i].1),
            None => None,
        }
    }
}

} // verus!
