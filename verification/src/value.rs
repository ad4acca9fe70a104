//! Tagged-union representation of option values and their declared kinds.
use vstd::prelude::*;

verus! {

/// The declared kind of an option: the tag its values must carry.
#[derive(Clone, Copy, Debug, PartialEq, Eq, Structural)]
pub enum ValueKind {
    Bool,
    Int,
    Fixed,
    Text,
    Button,
}

/// A dynamically-typed option value. The active tag must equal the owning
/// descriptor's declared [`ValueKind`]; a mismatch is rejected at the
/// validation boundary, before any protocol call is issued.
#[derive(Clone, Debug)]
pub enum OptionValue {
    Bool(bool),
    Int(i32),
    Fixed(i32),
    Text(String),
    Button,
}

impl OptionValue {
    /// The tag this value carries.
    pub open spec fn kind_spec(&self) -> ValueKind {
        match self {
            OptionValue::Bool(_) => ValueKind::Bool,
            OptionValue::Int(_) => ValueKind::Int,
            OptionValue::Fixed(_) => ValueKind::Fixed,
            OptionValue::Text(_) => ValueKind::Text,
            OptionValue::Button => ValueKind::Button,
        }
    }

    /// Returns the tag this value carries.
    pub fn kind(&self) -> (k: ValueKind)
        ensures
            k == self.kind_spec(),
    {
        match self {
            OptionValue::Bool(_) => ValueKind::Bool,
            OptionValue::Int(_) => ValueKind::Int,
            OptionValue::Fixed(_) => ValueKind::Fixed,
            OptionValue::Text(_) => ValueKind::Text,
            OptionValue::Button => ValueKind::Button,
        }
    }

    /// Returns a copy of this value.
    pub fn duplicate(&self) -> (r: OptionValue)
        ensures
            r == *self,
    {
        match self {
            OptionValue::Bool(b) => OptionValue::Bool(*b),
            OptionValue::Int(x) => OptionValue::Int(*x),
            OptionValue::Fixed(x) => OptionValue::Fixed(*x),
            OptionValue::Text(s) => OptionValue::Text(s.clone()),
            OptionValue::Button => OptionValue::Button,
        }
    }

    /// The numeric payload of an `Int` or `Fixed` value.
    pub open spec fn numeric_spec(&self) -> Option<i32> {
        match self {
            OptionValue::Int(x) => Some(*x),
            OptionValue::Fixed(x) => Some(*x),
            _ => None,
        }
    }

    /// Returns the numeric payload of an `Int` or `Fixed` value.
    pub fn numeric(&self) -> (r: Option<i32>)
        ensures
            r == self.numeric_spec(),
    {
        match self {
            OptionValue::Int(x) => Some(*x),
            OptionValue::Fixed(x) => Some(*x),
            _ => None,
        }
    }
}

} // verus!
