//! Half-innings, by which the plays of a game are ordered.

use vstd::prelude::*;
use vstd::string::*;
use crate::error::{ClassificationError, Field, Scalar};
use crate::text::{decimal, push_decimal};

verus! {

/// One half of an inning: its number, and whether it is the top half.
#[derive(Clone, Copy, Debug, PartialEq, Eq, Structural)]
pub struct Inning {
    pub number: u8,
    pub top: bool,
}

/// Which half an inning is, in words.
pub open spec fn half_text(top: bool) -> Seq<char> {
    if top {
        "top"@
    } else {
        "bottom"@
    }
}

/// How a half-inning is written: its number, a space, and the half.
pub open spec fn inning_text(i: Inning) -> Seq<char> {
    decimal(i.number as nat) + " "@ + half_text(i.top)
}

/// The half-inning with the number and the half that a record gives. Both
/// must be there, and the number must be at most 255: a larger number is no
/// inning number, and is turned down rather than cut short.
pub open spec fn inning_from(number: Option<u64>, top: Option<bool>) -> Result<
    Inning,
    ClassificationError,
> {
    match (number, top) {
        (Some(n), Some(t)) => if n <= 255 {
            Ok(Inning { number: n as u8, top: t })
        } else {
            Err(ClassificationError::MalformedScalar(Scalar::InningNumber))
        },
        _ => Err(ClassificationError::MissingRequiredField(Field::Inning)),
    }
}

impl Inning {
    /// The half-inning with the number and the half that a record gives.
    pub fn from_parts(number: Option<u64>, top: Option<bool>) -> (r: Result<
        Inning,
        ClassificationError,
    >)
        ensures
            r == inning_from(number, top),
    {
        match (number, top) {
            (Some(n), Some(t)) => if n <= 255 {
                Ok(Inning { number: n as u8, top: t })
            } else {
                Err(ClassificationError::MalformedScalar(Scalar::InningNumber))
            },
            _ => Err(ClassificationError::MissingRequiredField(Field::Inning)),
        }
    }

    /// Which half this is, in words.
    pub fn half(&self) -> (r: &'static str)
        ensures
            r@ == half_text(self.top),
    {
        if self.top {
            "top"
        } else {
            "bottom"
        }
    }

    /// Writes the half-inning as its number, a space, and the half.
    pub fn to_string(&self) -> (r: String)
        ensures
            r@ == inning_text(*self),
    {
        let mut r = String::new();
        push_decimal(&mut r, self.number as u64);
        r.append(" ");
        r.append(self.half());
        assert(r@ =~= inning_text(*self));
        r
    }
}

} // verus!
