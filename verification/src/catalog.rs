//! Per-device catalog of option descriptors: metadata, constraints, lookup,
//! and value validation against a descriptor's declared kind and constraint.
use vstd::prelude::*;

use crate::errors::ScanError;
use crate::value::{OptionValue, ValueKind};

verus! {

/// What restricts the values a descriptor accepts: nothing, a closed numeric
/// range (values outside it are coerced to the nearest bound), or an
/// enumerated list of admissible words (values not in it are rejected).
#[derive(Clone, Debug)]
pub enum Constraint {
    Unconstrained,
    Range { min: i32, max: i32 },
    WordList(Vec<i32>),
}

impl Constraint {
    /// Whether the numeric payload `x` is acceptable: a range always accepts
    /// (it coerces instead), a word list accepts only its members.
    pub open spec fn permits_spec(&self, x: i32) -> bool {
        match self {
            Constraint::Unconstrained => true,
            Constraint::Range { .. } => true,
            Constraint::WordList(ws) => ws@.contains(x),
        }
    }

    /// The nearest constraint-satisfying value for an accepted payload `x`:
    /// a range clamps to its bounds, everything else applies verbatim.
    pub open spec fn coerce_spec(&self, x: i32) -> i32 {
        match self {
            Constraint::Range { min, max } => if x < *min {
                *min
            } else if x > *max {
                *max
            } else {
                x
            },
            _ => x,
        }
    }
}

/// Capability flags of a descriptor. An option can be applied through this
/// library only if it is soft-settable; read-only and hardware-fixed options
/// fail `Unsupported`.
#[derive(Clone, Copy, Debug, PartialEq, Eq, Structural)]
pub struct Capabilities {
    pub readable: bool,
    pub soft_settable: bool,
    pub hard_settable: bool,
    pub automatic: bool,
}

/// The physical unit a descriptor's values are expressed in.
#[derive(Clone, Copy, Debug, PartialEq, Eq, Structural)]
pub enum Unit {
    NoUnit,
    Pixel,
    Bit,
    Millimeter,
    Dpi,
    Percent,
    Microsecond,
}

/// One named, typed, constrained capability exposed by a device. Immutable
/// for the lifetime of the catalog that holds it.
#[derive(Clone, Debug)]
pub struct OptionDescriptor {
    /// Unique key within the owning catalog.
    pub name: String,
    /// Human-readable title.
    pub title: String,
    /// The declared kind every applied value's tag must equal.
    pub kind: ValueKind,
    /// The unit of the descriptor's numeric values.
    pub unit: Unit,
    /// The constraint restricting admissible values.
    pub constraint: Constraint,
    /// Capability flags.
    pub caps: Capabilities,
}

impl OptionDescriptor {
    /// A descriptor is well formed when numeric constraints only adorn
    /// numeric kinds and range bounds are ordered.
    pub open spec fn wf(&self) -> bool {
        match self.constraint {
            Constraint::Unconstrained => true,
            Constraint::Range { min, max } => min <= max && (self.kind == ValueKind::Int
                || self.kind == ValueKind::Fixed),
            Constraint::WordList(_) => self.kind == ValueKind::Int || self.kind
                == ValueKind::Fixed,
        }
    }

    /// The outcome of validating `v` against this descriptor: the coerced
    /// value to apply, or the exact error. Tag mismatches are rejected
    /// first, then constraint violations, then non-settable descriptors.
    pub open spec fn validate_spec(&self, v: OptionValue) -> Result<OptionValue, ScanError> {
        if v.kind_spec() != self.kind {
            Err(ScanError::TypeMismatch)
        } else if !(match v.numeric_spec() {
            Some(x) => self.constraint.permits_spec(x),
            None => true,
        }) {
            Err(ScanError::OutOfRange)
        } else if !self.caps.soft_settable {
            Err(ScanError::Unsupported)
        } else {
            Ok(self.coerced_value_spec(v))
        }
    }

    /// The value actually applied for an accepted input: numeric payloads
    /// are coerced by the constraint, all others pass through verbatim.
    pub open spec fn coerced_value_spec(&self, v: OptionValue) -> OptionValue {
        match v {
            OptionValue::Int(x) => OptionValue::Int(self.constraint.coerce_spec(x)),
            OptionValue::Fixed(x) => OptionValue::Fixed(self.constraint.coerce_spec(x)),
            other => other,
        }
    }

    /// Validates `v` against this descriptor's declared kind, constraint and
    /// capability flags; on success returns the value actually applied,
    /// which may have been coerced to the nearest constraint-satisfying one.
    pub fn validate(&self, v: OptionValue) -> (r: Result<OptionValue, ScanError>)
        ensures
            r == self.validate_spec(v),
    {
        if v.kind() != self.kind {
            return Err(ScanError::TypeMismatch);
        }
        let permitted = match (v.numeric(), &self.constraint) {
            (Some(x), Constraint::WordList(ws)) => word_list_contains(ws, x),
            _ => true,
        };
        if !permitted {
            return Err(ScanError::OutOfRange);
        }
        if !self.caps.soft_settable {
            return Err(ScanError::Unsupported);
        }
        let applied = match v {
            OptionValue::Int(x) => OptionValue::Int(coerce_numeric(&self.constraint, x)),
            OptionValue::Fixed(x) => OptionValue::Fixed(coerce_numeric(&self.constraint, x)),
            other => other,
        };
        Ok(applied)
    }
}

/// Returns whether `x` is one of the words in `ws`.
fn word_list_contains(ws: &Vec<i32>, x: i32) -> (b: bool)
    ensures
        b == ws@.contains(x),
{
    let mut i: usize = 0;
    while i < ws.len()
        invariant
            i <= ws@.len(),
            forall|j: int| 0 <= j < i ==> ws@[j] != x,
        decreases ws@.len() - i,
    {
        if ws[i] == x {
            return true;
        }
        i = i + 1;
    }
    false
}

/// Returns the nearest constraint-satisfying value for `x`.
fn coerce_numeric(c: &Constraint, x: i32) -> (r: i32)
    ensures
        r == c.coerce_spec(x),
{
    match c {
        Constraint::Range { min, max } => if x < *min {
            *min
        } else if x > *max {
            *max
        } else {
            x
        },
        _ => x,
    }
}

/// The ordered collection of a device's option descriptors, keyed by name.
/// Names are unique within one catalog; absence of a name is a normal
/// outcome callers branch on, not an error.
#[derive(Clone, Debug)]
pub struct OptionCatalog {
    pub opts: Vec<OptionDescriptor>,
}

impl OptionCatalog {
    /// Every descriptor is well formed and no two share a name.
    pub open spec fn wf(&self) -> bool {
        &&& forall|i: int| 0 <= i < self.opts@.len() ==> (#[trigger] self.opts@[i]).wf()
        &&& forall|i: int, j: int|
            0 <= i < j < self.opts@.len() ==> (#[trigger] self.opts@[i]).name@ != (
            #[trigger] self.opts@[j]).name@
    }

    /// Whether some descriptor in the catalog bears `name`.
    pub open spec fn has_option_spec(&self, name: Seq<char>) -> bool {
        exists|i: int| 0 <= i < self.opts@.len() && (#[trigger] self.opts@[i]).name@ == name
    }

    /// Returns an empty catalog.
    pub fn new() -> (r: OptionCatalog)
        ensures
            r.wf(),
            r.opts@.len() == 0,
    {
        OptionCatalog { opts: Vec::new() }
    }

    /// Returns the number of descriptors.
    pub fn len(&self) -> (n: usize)
        ensures
            n == self.opts@.len(),
    {
        self.opts.len()
    }

    /// Returns the descriptor at `ix`.
    pub fn get(&self, ix: usize) -> (d: &OptionDescriptor)
        requires
            ix < self.opts@.len(),
        ensures
            *d == self.opts@[ix as int],
    {
        &self.opts[ix]
    }

    /// Appends a descriptor. Rejects with `InvalidOption` a descriptor that
    /// is malformed or whose name the catalog already holds, leaving the
    /// catalog unchanged.
    pub fn push(&mut self, d: OptionDescriptor) -> (r: Result<(), ScanError>)
        requires
            old(self).wf(),
        ensures
            final(self).wf(),
            match r {
                Ok(()) => d.wf() && !old(self).has_option_spec(d.name@) && final(self).opts@
                    == old(self).opts@.push(d),
                Err(e) => e == ScanError::InvalidOption && (!d.wf() || old(self).has_option_spec(
                    d.name@,
                )) && *final(self) == *old(self),
            },
    {
        let d_ok = match d.constraint {
            Constraint::Unconstrained => true,
            Constraint::Range { min, max } => min <= max && (d.kind == ValueKind::Int || d.kind
                == ValueKind::Fixed),
            Constraint::WordList(_) => d.kind == ValueKind::Int || d.kind == ValueKind::Fixed,
        };
        if !d_ok {
            return Err(ScanError::InvalidOption);
        }
        if self.find_option(&d.name).is_some() {
            return Err(ScanError::InvalidOption);
        }
        self.opts.push(d);
        Ok(())
    }

    /// Finds the first descriptor named `name`. `None` means the device does
    /// not expose the option; callers treat that as a normal outcome.
    pub fn find_option(&self, name: &String) -> (r: Option<usize>)
        ensures
            match r {
                Some(ix) => ix < self.opts@.len() && self.opts@[ix as int].name@ == name@ && (
                forall|j: int| 0 <= j < ix ==> (#[trigger] self.opts@[j]).name@ != name@),
                None => !self.has_option_spec(name@),
            },
    {
        let mut i: usize = 0;
        while i < self.opts.len()
            invariant
                i <= self.opts@.len(),
                forall|j: int| 0 <= j < i ==> (#[trigger] self.opts@[j]).name@ != name@,
            decreases self.opts@.len() - i,
        {
            if self.opts[i].name == *name {
                return Some(i);
            }
            i = i + 1;
        }
        None
    }
}

} // verus!
