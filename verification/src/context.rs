//! What surrounds the plays of a game: when and where it was played, in
//! what weather, and by whom.

use vstd::prelude::*;
use vstd::string::*;
use crate::date::Date;
use crate::error::{ClassificationError, Field};
use crate::record::{agrees, BoxscoreRecord, BoxscoreRecordModel};
use crate::roster::{team_of, Team, TeamModel};
use crate::weather::{Weather, WeatherModel};

verus! {

/// The context of a game.
#[derive(Clone, Debug, PartialEq, Eq)]
pub struct GameContext {
    pub game_pk: usize,
    pub date: Date,
    pub venue_name: String,
    pub weather: Weather,
    pub home_team: Team,
    pub away_team: Team,
}

/// The context of a game as a mathematical value.
pub struct GameContextModel {
    pub game_pk: usize,
    pub date: Date,
    pub venue_name: Seq<char>,
    pub weather: WeatherModel,
    pub home_team: TeamModel,
    pub away_team: TeamModel,
}

impl DeepView for GameContext {
    type V = GameContextModel;

    open spec fn deep_view(&self) -> GameContextModel {
        GameContextModel {
            game_pk: self.game_pk,
            date: self.date,
            venue_name: self.venue_name@,
            weather: self.weather@,
            home_team: self.home_team@,
            away_team: self.away_team@,
        }
    }
}

impl View for GameContext {
    type V = GameContextModel;

    open spec fn view(&self) -> GameContextModel {
        self.deep_view()
    }
}

/// The context that a box score gives to a game with this identifier, date
/// and weather: both rosters, and the venue named in the home team's block.
/// The home roster is read first, then the venue, then the away roster; the
/// first that fails decides the error.
pub open spec fn context_of(
    boxscore: BoxscoreRecordModel,
    date: Date,
    weather: WeatherModel,
    game_pk: usize,
) -> Result<GameContextModel, ClassificationError> {
    match team_of(boxscore.home) {
        Err(e) => Err(e),
        Ok(home_team) => match boxscore.home.venue {
            None => Err(ClassificationError::MissingRequiredField(Field::Venue)),
            Some(venue_name) => match team_of(boxscore.away) {
                Err(e) => Err(e),
                Ok(away_team) => Ok(
                    GameContextModel { game_pk, date, venue_name, weather, home_team, away_team },
                ),
            },
        },
    }
}

impl GameContext {
    /// The context that a box score gives to a game with this identifier,
    /// date and weather.
    pub fn from_record(
        boxscore: &BoxscoreRecord,
        game_date: Date,
        weather: Weather,
        game_pk: usize,
    ) -> (r: Result<GameContext, ClassificationError>)
        ensures
            agrees(r, context_of(boxscore@, game_date, weather@, game_pk)),
    {
        let home_team = match Team::from_record(&boxscore.home) {
            Ok(t) => t,
            Err(e) => {
                return Err(e);
            },
        };
        let venue_name = match &boxscore.home.venue {
            Some(v) => v.clone(),
            None => {
                return Err(ClassificationError::MissingRequiredField(Field::Venue));
            },
        };
        let away_team = match Team::from_record(&boxscore.away) {
            Ok(t) => t,
            Err(e) => {
                return Err(e);
            },
        };
        Ok(GameContext { game_pk, date: game_date, venue_name, weather, home_team, away_team })
    }
}

} // verus!
