//! The ways in which a feed record can fail to become a typed value.

use vstd::prelude::*;
use vstd::string::*;

verus! {

/// A part of a feed document that a value cannot be built without.
#[derive(Clone, Copy, Debug, PartialEq, Eq, Structural)]
pub enum Field {
    Event,
    Inning,
    Batter,
    Pitcher,
    Catcher,
    Fielder,
    Runner,
    ScoringRunner,
    Runners,
    Plays,
    Date,
    Condition,
    Temperature,
    Wind,
    TeamId,
    Venue,
    Players,
    PlayerName,
    PositionAbbreviation,
    Dates,
    Games,
    GamePk,
}

/// A scalar of the feed that is written in a fixed lexicon or within a fixed
/// range.
#[derive(Clone, Copy, Debug, PartialEq, Eq, Structural)]
pub enum Scalar {
    Date,
    BaseCode,
    PositionCode,
    Temperature,
    WindSpeed,
    InningNumber,
    TeamId,
}

/// Why a record was turned down. Every error discards the game that the
/// record belongs to; none of them ends the process.
#[derive(Clone, Copy, Debug, PartialEq, Eq, Structural)]
pub enum ClassificationError {
    /// The record lacks a part that the value needs: the game has incomplete
    /// data.
    MissingRequiredField(Field),
    /// The name of the person with this identifier could not be resolved.
    UnresolvedFielder(u64),
    /// The event-type label is not one of the known labels: the classifier
    /// needs a new variant.
    UnknownEventType,
    /// A scalar is outside its lexicon: the feed's schema has drifted.
    MalformedScalar(Scalar),
    /// The game has not reached its final state.
    NotFinal,
}

/// What a missing part is called in a message.
pub open spec fn field_text(f: Field) -> Seq<char> {
    match f {
        Field::Event => "event"@,
        Field::Inning => "inning"@,
        Field::Batter => "batter"@,
        Field::Pitcher => "pitcher"@,
        Field::Catcher => "catcher"@,
        Field::Fielder => "fielder"@,
        Field::Runner => "runner"@,
        Field::ScoringRunner => "scoring runner"@,
        Field::Runners => "runners"@,
        Field::Plays => "plays"@,
        Field::Date => "date"@,
        Field::Condition => "weather condition"@,
        Field::Temperature => "temperature"@,
        Field::Wind => "wind speed"@,
        Field::TeamId => "team id"@,
        Field::Venue => "venue"@,
        Field::Players => "players"@,
        Field::PlayerName => "player name"@,
        Field::PositionAbbreviation => "position abbreviation"@,
        Field::Dates => "dates"@,
        Field::Games => "games"@,
        Field::GamePk => "game identifier"@,
    }
}

/// What a scalar is called in a message.
pub open spec fn scalar_text(s: Scalar) -> Seq<char> {
    match s {
        Scalar::Date => "date"@,
        Scalar::BaseCode => "base value"@,
        Scalar::PositionCode => "position abbreviation"@,
        Scalar::Temperature => "temperature"@,
        Scalar::WindSpeed => "wind speed"@,
        Scalar::InningNumber => "inning number"@,
        Scalar::TeamId => "team id"@,
    }
}

/// The message of an error, for a log.
pub open spec fn message_text(e: ClassificationError) -> Seq<char> {
    match e {
        ClassificationError::MissingRequiredField(f) => "No "@ + field_text(f),
        ClassificationError::UnresolvedFielder(id) => "Failed to get player data"@,
        ClassificationError::UnknownEventType => "Unknown play type"@,
        ClassificationError::MalformedScalar(s) => "Unknown "@ + scalar_text(s),
        ClassificationError::NotFinal => "Game is not final"@,
    }
}

impl Field {
    /// What this part is called in a message.
    pub fn name(&self) -> (r: &'static str)
        ensures
            r@ == field_text(*self),
    {
        match self {
            Field::Event => "event",
            Field::Inning => "inning",
            Field::Batter => "batter",
            Field::Pitcher => "pitcher",
            Field::Catcher => "catcher",
            Field::Fielder => "fielder",
            Field::Runner => "runner",
            Field::ScoringRunner => "scoring runner",
            Field::Runners => "runners",
            Field::Plays => "plays",
            Field::Date => "date",
            Field::Condition => "weather condition",
            Field::Temperature => "temperature",
            Field::Wind => "wind speed",
            Field::TeamId => "team id",
            Field::Venue => "venue",
            Field::Players => "players",
            Field::PlayerName => "player name",
            Field::PositionAbbreviation => "position abbreviation",
            Field::Dates => "dates",
            Field::Games => "games",
            Field::GamePk => "game identifier",
        }
    }
}

impl Scalar {
    /// What this scalar is called in a message.
    pub fn name(&self) -> (r: &'static str)
        ensures
            r@ == scalar_text(*self),
    {
        match self {
            Scalar::Date => "date",
            Scalar::BaseCode => "base value",
            Scalar::PositionCode => "position abbreviation",
            Scalar::Temperature => "temperature",
            Scalar::WindSpeed => "wind speed",
            Scalar::InningNumber => "inning number",
            Scalar::TeamId => "team id",
        }
    }
}

impl ClassificationError {
    /// Whether the error says that the feed's schema has drifted, rather
    /// than that one game has incomplete data.
    pub open spec fn is_drift(self) -> bool {
        self is UnknownEventType || self is MalformedScalar
    }

    /// Whether the error says that the feed's schema has drifted, rather
    /// than that one game has incomplete data.
    pub fn schema_drift(&self) -> (r: bool)
        ensures
            r == self.is_drift(),
    {
        match self {
            ClassificationError::UnknownEventType => true,
            ClassificationError::MalformedScalar(_) => true,
            _ => false,
        }
    }

    /// The message of this error, for a log.
    pub fn message(&self) -> (r: String)
        ensures
            r@ == message_text(*self),
    {
        match self {
            ClassificationError::MissingRequiredField(f) => {
                let mut r = String::from_str("No ");
                r.append(f.name());
                r
            },
            ClassificationError::UnresolvedFielder(_) => String::from_str(
                "Failed to get player data",
            ),
            ClassificationError::UnknownEventType => String::from_str("Unknown play type"),
            ClassificationError::MalformedScalar(s) => {
                let mut r = String::from_str("Unknown ");
                r.append(s.name());
                r
            },
            ClassificationError::NotFinal => String::from_str("Game is not final"),
        }
    }
}

} // verus!
