//! The dynamic value domain of requests and results.
//!
//! Parameter mappings carry JSON-shaped data. The daemon's methods only ever
//! read strings and integers out of it; everything else rides through
//! unchanged. Scalars are therefore modeled structurally, while a composite
//! value (an array or a nested object) is carried as its JSON-encoded text,
//! one value to one text, and is never inspected by the dispatch path.

use vstd::prelude::*;

verus! {

/// A JSON-shaped dynamic value.
///
/// Numbers are restricted to signed 64-bit integers: every parameter the
/// method table declares is integral, and non-integral numbers never enter
/// the dispatch path. `Composite` holds the JSON encoding of an array or a
/// nested object, which dispatch treats as opaque.
#[derive(Debug)]
pub enum Value {
    Null,
    Bool(bool),
    Int(i64),
    Str(String),
    Composite(String),
}

/// The mathematical shape of a [`Value`].
pub enum ValueModel {
    Null,
    Bool(bool),
    Int(int),
    Str(Seq<char>),
    Composite(Seq<char>),
}

impl View for Value {
    type V = ValueModel;

    open spec fn view(&self) -> ValueModel {
        match self {
            Value::Null => ValueModel::Null,
            Value::Bool(b) => ValueModel::Bool(*b),
            Value::Int(i) => ValueModel::Int(*i as int),
            Value::Str(s) => ValueModel::Str(s@),
            Value::Composite(s) => ValueModel::Composite(s@),
        }
    }
}

impl Clone for Value {
    /// A clone denotes the same value.
    fn clone(&self) -> (r: Self)
        ensures
            r@ == self@,
    {
        match self {
            Value::Null => Value::Null,
            Value::Bool(b) => Value::Bool(*b),
            Value::Int(i) => Value::Int(*i),
            Value::Str(s) => Value::Str(s.clone()),
            Value::Composite(s) => Value::Composite(s.clone()),
        }
    }
}

impl Value {
    /// The string inside, if this is a string value.
    pub fn as_str(&self) -> (r: Option<&String>)
        ensures
            match r {
                Some(s) => self@ == ValueModel::Str(s@),
                None => forall|s: Seq<char>| self@ != ValueModel::Str(s),
            },
    {
        match self {
            Value::Str(s) => Some(s),
            _ => None,
        }
    }

    /// The value as an unsigned integer, if it is a non-negative integer.
    pub fn as_u64(&self) -> (r: Option<u64>)
        ensures
            match r {
                Some(n) => self@ == ValueModel::Int(n as int),
                None => forall|n: int| n >= 0 ==> self@ != ValueModel::Int(n),
            },
    {
        match self {
            Value::Int(i) => {
                if *i >= 0 {
                    Some(*i as u64)
                } else {
                    None
                }
            },
            _ => None,
        }
    }
}

} // verus!
