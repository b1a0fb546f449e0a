//! Typed baseball play-by-play events and their text encodings.
//!
//! A feed record is classified into one of the closed set of [`Play`]
//! variants, and a whole [`Game`] (context, then plays in order) is rendered
//! into one of two stable text encodings.

pub mod classify;
pub mod context;
pub mod date;
pub mod distinct;
pub mod error;
pub mod feed;
pub mod flat;
pub mod game;
pub mod inning;
pub mod json;
pub mod movement;
pub mod play;
pub mod position;
pub mod record;
pub mod roster;
pub mod season;
pub mod sequence;
pub mod tags;
pub mod text;
pub mod weather;

pub use crate::classify::Event;
pub use crate::context::GameContext;
pub use crate::date::Date;
pub use crate::error::{ClassificationError, Field, Scalar};
pub use crate::flat::Preprocess;
pub use crate::game::Game;
pub use crate::inning::Inning;
pub use crate::movement::{base_value_to_option_u8, Movement};
pub use crate::play::{Play, PlayKind, Shape};
pub use crate::position::Position;
pub use crate::record::{
    BaseValue, BoxscoreRecord, FeedRecord, MovementRecord, PlayRecord, PlayerRecord, RunnerRecord,
    TeamRecord, WeatherRecord,
};
pub use crate::roster::{Player, Team};
pub use crate::tags::Tokenize;
pub use crate::weather::Weather;
