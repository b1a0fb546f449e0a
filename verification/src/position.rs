//! The roles that a player can hold on a roster.

use vstd::prelude::*;
use vstd::string::*;
use crate::error::{ClassificationError, Scalar};
use crate::text::text_eq;

verus! {

/// A defensive or offensive role.
#[derive(Clone, Copy, Debug, PartialEq, Eq, Structural)]
pub enum Position {
    Pitcher,
    Catcher,
    FirstBase,
    SecondBase,
    ThirdBase,
    Shortstop,
    LeftField,
    CenterField,
    RightField,
    DesignatedHitter,
    PinchHitter,
    PinchRunner,
    TwoWayPlayer,
    Outfield,
    Infield,
    Utility,
    ReliefPitcher,
    StartingPitcher,
}

/// The role that a feed abbreviation stands for, if it is one of the known
/// abbreviations. Some roles have more than one abbreviation.
pub open spec fn position_of(abbr: Seq<char>) -> Option<Position> {
    if abbr == "P"@ || abbr == "LHP"@ || abbr == "RHP"@ {
        Some(Position::Pitcher)
    } else if abbr == "C"@ {
        Some(Position::Catcher)
    } else if abbr == "1B"@ {
        Some(Position::FirstBase)
    } else if abbr == "2B"@ {
        Some(Position::SecondBase)
    } else if abbr == "3B"@ {
        Some(Position::ThirdBase)
    } else if abbr == "SS"@ {
        Some(Position::Shortstop)
    } else if abbr == "LF"@ {
        Some(Position::LeftField)
    } else if abbr == "CF"@ {
        Some(Position::CenterField)
    } else if abbr == "RF"@ {
        Some(Position::RightField)
    } else if abbr == "DH"@ || abbr == "EH"@ {
        Some(Position::DesignatedHitter)
    } else if abbr == "PH"@ {
        Some(Position::PinchHitter)
    } else if abbr == "PR"@ {
        Some(Position::PinchRunner)
    } else if abbr == "TWP"@ {
        Some(Position::TwoWayPlayer)
    } else if abbr == "OF"@ {
        Some(Position::Outfield)
    } else if abbr == "IF"@ {
        Some(Position::Infield)
    } else if abbr == "UT"@ || abbr == "UTIL"@ {
        Some(Position::Utility)
    } else if abbr == "RP"@ {
        Some(Position::ReliefPitcher)
    } else if abbr == "SP"@ {
        Some(Position::StartingPitcher)
    } else {
        None
    }
}

/// The upper-case name of a role.
pub open spec fn position_text(p: Position) -> Seq<char> {
    match p {
        Position::Pitcher => "PITCHER"@,
        Position::Catcher => "CATCHER"@,
        Position::FirstBase => "FIRST_BASE"@,
        Position::SecondBase => "SECOND_BASE"@,
        Position::ThirdBase => "THIRD_BASE"@,
        Position::Shortstop => "SHORTSTOP"@,
        Position::LeftField => "LEFT_FIELD"@,
        Position::CenterField => "CENTER_FIELD"@,
        Position::RightField => "RIGHT_FIELD"@,
        Position::DesignatedHitter => "DESIGNATED_HITTER"@,
        Position::PinchHitter => "PINCH_HITTER"@,
        Position::PinchRunner => "PINCH_RUNNER"@,
        Position::TwoWayPlayer => "TWO_WAY_PLAYER"@,
        Position::Outfield => "OUTFIELD"@,
        Position::Infield => "INFIELD"@,
        Position::Utility => "UTILITY"@,
        Position::ReliefPitcher => "RELIEF_PITCHER"@,
        Position::StartingPitcher => "STARTING_PITCHER"@,
    }
}

impl Position {
    /// The role that a feed abbreviation stands for. An abbreviation outside
    /// the known ones is turned down.
    pub fn from_abbr(position_abbr: &str) -> (r: Result<Position, ClassificationError>)
        ensures
            match position_of(position_abbr@) {
                Some(p) => r == Ok::<Position, ClassificationError>(p),
                None => r == Err::<Position, ClassificationError>(
                    ClassificationError::MalformedScalar(Scalar::PositionCode),
                ),
            },
    {
        let a = position_abbr;
        if text_eq(a, "P") || text_eq(a, "LHP") || text_eq(a, "RHP") {
            Ok(Position::Pitcher)
        } else if text_eq(a, "C") {
            Ok(Position::Catcher)
        } else if text_eq(a, "1B") {
            Ok(Position::FirstBase)
        } else if text_eq(a, "2B") {
            Ok(Position::SecondBase)
        } else if text_eq(a, "3B") {
            Ok(Position::ThirdBase)
        } else if text_eq(a, "SS") {
            Ok(Position::Shortstop)
        } else if text_eq(a, "LF") {
            Ok(Position::LeftField)
        } else if text_eq(a, "CF") {
            Ok(Position::CenterField)
        } else if text_eq(a, "RF") {
            Ok(Position::RightField)
        } else if text_eq(a, "DH") || text_eq(a, "EH") {
            Ok(Position::DesignatedHitter)
        } else if text_eq(a, "PH") {
            Ok(Position::PinchHitter)
        } else if text_eq(a, "PR") {
            Ok(Position::PinchRunner)
        } else if text_eq(a, "TWP") {
            Ok(Position::TwoWayPlayer)
        } else if text_eq(a, "OF") {
            Ok(Position::Outfield)
        } else if text_eq(a, "IF") {
            Ok(Position::Infield)
        } else if text_eq(a, "UT") || text_eq(a, "UTIL") {
            Ok(Position::Utility)
        } else if text_eq(a, "RP") {
            Ok(Position::ReliefPitcher)
        } else if text_eq(a, "SP") {
            Ok(Position::StartingPitcher)
        } else {
            Err(ClassificationError::MalformedScalar(Scalar::PositionCode))
        }
    }

    /// The upper-case name of the role.
    pub fn name(&self) -> (r: &'static str)
        ensures
            r@ == position_text(*self),
    {
        match self {
            Position::Pitcher => "PITCHER",
            Position::Catcher => "CATCHER",
            Position::FirstBase => "FIRST_BASE",
            Position::SecondBase => "SECOND_BASE",
            Position::ThirdBase => "THIRD_BASE",
            Position::Shortstop => "SHORTSTOP",
            Position::LeftField => "LEFT_FIELD",
            Position::CenterField => "CENTER_FIELD",
            Position::RightField => "RIGHT_FIELD",
            Position::DesignatedHitter => "DESIGNATED_HITTER",
            Position::PinchHitter => "PINCH_HITTER",
            Position::PinchRunner => "PINCH_RUNNER",
            Position::TwoWayPlayer => "TWO_WAY_PLAYER",
            Position::Outfield => "OUTFIELD",
            Position::Infield => "INFIELD",
            Position::Utility => "UTILITY",
            Position::ReliefPitcher => "RELIEF_PITCHER",
            Position::StartingPitcher => "STARTING_PITCHER",
        }
    }

    /// The upper-case name of the role, as an owned text.
    pub fn to_string(&self) -> (r: String)
        ensures
            r@ == position_text(*self),
    {
        String::from_str(self.name())
    }
}

} // verus!
