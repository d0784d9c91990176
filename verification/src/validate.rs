//! Validation of values against the rules of their types.

use vstd::prelude::*;
use crate::error::{first_of, outcome, ValidationError};

verus! {

/// A type whose values obey a rule that can be tested.
pub trait Validate {
    /// What is wrong with the value: the first broken rule in the order in
    /// which the members are declared, or `None` for a valid value.
    spec fn violation(&self) -> Option<ValidationError>;

    /// Tests the value: `Ok` for a valid value, else its first violation.
    fn validate(&self) -> (r: Result<(), ValidationError>)
        ensures
            r == outcome(self.violation()),
    ;
}

/// The value breaks no rule of its type.
pub open spec fn valid<T: Validate>(v: &T) -> bool {
    v.violation() is None
}

/// What is wrong with a value that may be absent.
pub open spec fn optional_violation<T: Validate>(o: Option<T>) -> Option<ValidationError> {
    match o {
        Some(v) => v.violation(),
        None => None,
    }
}

/// The first violation among the elements of `s` from position `from` on.
pub open spec fn first_violation_from<T: Validate>(s: Seq<T>, from: int) -> Option<
    ValidationError,
>
    decreases s.len() - from,
{
    if 0 <= from < s.len() {
        first_of(s[from].violation(), first_violation_from(s, from + 1))
    } else {
        None
    }
}

/// The first violation among the elements of `s`.
pub open spec fn first_violation<T: Validate>(s: Seq<T>) -> Option<ValidationError> {
    first_violation_from(s, 0)
}

/// A sequence has no violation exactly when each of its elements is valid.
pub proof fn lemma_first_violation_none<T: Validate>(s: Seq<T>, from: int)
    requires
        0 <= from,
    ensures
        first_violation_from(s, from) is None <==> forall|i: int|
            from <= i < s.len() ==> (#[trigger] s[i]).violation() is None,
    decreases s.len() - from,
{
    if from < s.len() {
        lemma_first_violation_none(s, from + 1);
    }
}

/// Validates a value where one is present.
pub fn validate_optional<T: Validate>(o: &Option<T>) -> (r: Result<(), ValidationError>)
    ensures
        r == outcome(optional_violation(*o)),
{
    match o {
        Some(v) => v.validate(),
        None => Ok(()),
    }
}

/// Validates the elements of a vector in order and stops at the first
/// violation.
pub fn validate_all<T: Validate>(v: &Vec<T>) -> (r: Result<(), ValidationError>)
    ensures
        r == outcome(first_violation(v@)),
{
    let mut i: usize = 0;
    while i < v.len()
        invariant
            i <= v@.len(),
            first_violation(v@) == first_violation_from(v@, i as int),
        decreases v@.len() - i,
    {
        match v[i].validate() {
            Ok(()) => {},
            Err(e) => {
                return Err(e);
            },
        }
        i = i + 1;
    }
    Ok(())
}

} // verus!
