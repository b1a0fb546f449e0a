//! The parts of the feed and box-score documents that the library reads,
//! as plain values. A part that a document lacks, or holds in another type
//! than the one read, is `None`.

use vstd::prelude::*;

verus! {

/// What a movement holds where a base is written.
#[derive(Clone, Debug, PartialEq, Eq)]
pub enum BaseValue {
    /// Nothing, or an explicit null.
    Null,
    /// A text, which should be a base code.
    Code(String),
    /// A value that is neither null nor a text.
    Other,
}

/// A base value as a mathematical value.
pub enum BaseValueModel {
    Null,
    Code(Seq<char>),
    Other,
}

impl DeepView for BaseValue {
    type V = BaseValueModel;

    open spec fn deep_view(&self) -> BaseValueModel {
        match self {
            BaseValue::Null => BaseValueModel::Null,
            BaseValue::Code(s) => BaseValueModel::Code(s@),
            BaseValue::Other => BaseValueModel::Other,
        }
    }
}

impl View for BaseValue {
    type V = BaseValueModel;

    open spec fn view(&self) -> BaseValueModel {
        self.deep_view()
    }
}

/// `runners[].movement`: where a runner started and ended, and whether the
/// runner was put out.
#[derive(Clone, Debug, PartialEq, Eq)]
pub struct MovementRecord {
    pub start: BaseValue,
    pub end: BaseValue,
    pub is_out: Option<bool>,
}

/// A movement record as a mathematical value.
pub struct MovementRecordModel {
    pub start: BaseValueModel,
    pub end: BaseValueModel,
    pub is_out: Option<bool>,
}

impl DeepView for MovementRecord {
    type V = MovementRecordModel;

    open spec fn deep_view(&self) -> MovementRecordModel {
        MovementRecordModel { start: self.start@, end: self.end@, is_out: self.is_out }
    }
}

impl View for MovementRecord {
    type V = MovementRecordModel;

    open spec fn view(&self) -> MovementRecordModel {
        self.deep_view()
    }
}

/// One entry of `runners[]`: the names under `details`, the identifier of
/// the first credited fielder, and the movement.
#[derive(Clone, Debug, PartialEq, Eq)]
pub struct RunnerRecord {
    /// `details.runner.fullName`
    pub runner: Option<String>,
    /// `details.fielder.fullName`
    pub fielder: Option<String>,
    /// `details.pitcher.fullName`
    pub pitcher: Option<String>,
    /// `credits[0].player.id`
    pub credit: Option<u64>,
    /// `movement`
    pub movement: MovementRecord,
}

/// A runner entry as a mathematical value.
pub struct RunnerRecordModel {
    pub runner: Option<Seq<char>>,
    pub fielder: Option<Seq<char>>,
    pub pitcher: Option<Seq<char>>,
    pub credit: Option<u64>,
    pub movement: MovementRecordModel,
}

impl DeepView for RunnerRecord {
    type V = RunnerRecordModel;

    open spec fn deep_view(&self) -> RunnerRecordModel {
        RunnerRecordModel {
            runner: self.runner.deep_view(),
            fielder: self.fielder.deep_view(),
            pitcher: self.pitcher.deep_view(),
            credit: self.credit,
            movement: self.movement@,
        }
    }
}

impl View for RunnerRecord {
    type V = RunnerRecordModel;

    open spec fn view(&self) -> RunnerRecordModel {
        self.deep_view()
    }
}

/// One entry of `liveData.plays.allPlays[]`.
#[derive(Clone, Debug, PartialEq, Eq)]
pub struct PlayRecord {
    /// `result.event`, the event-type label
    pub event: Option<String>,
    /// `about.inning`
    pub inning: Option<u64>,
    /// `about.isTopInning`
    pub is_top_inning: Option<bool>,
    /// `matchup.batter.fullName`
    pub batter: Option<String>,
    /// `matchup.pitcher.fullName`
    pub pitcher: Option<String>,
    /// `matchup.catcher.fullName`
    pub catcher: Option<String>,
    /// `runners`, if it is a list
    pub runners: Option<Vec<RunnerRecord>>,
}

/// A play record as a mathematical value.
pub struct PlayRecordModel {
    pub event: Option<Seq<char>>,
    pub inning: Option<u64>,
    pub is_top_inning: Option<bool>,
    pub batter: Option<Seq<char>>,
    pub pitcher: Option<Seq<char>>,
    pub catcher: Option<Seq<char>>,
    pub runners: Option<Seq<RunnerRecordModel>>,
}

impl DeepView for PlayRecord {
    type V = PlayRecordModel;

    open spec fn deep_view(&self) -> PlayRecordModel {
        PlayRecordModel {
            event: self.event.deep_view(),
            inning: self.inning,
            is_top_inning: self.is_top_inning,
            batter: self.batter.deep_view(),
            pitcher: self.pitcher.deep_view(),
            catcher: self.catcher.deep_view(),
            runners: self.runners.deep_view(),
        }
    }
}

impl View for PlayRecord {
    type V = PlayRecordModel;

    open spec fn view(&self) -> PlayRecordModel {
        self.deep_view()
    }
}

/// `gameData.weather`.
#[derive(Clone, Debug, PartialEq, Eq)]
pub struct WeatherRecord {
    /// `condition`
    pub condition: Option<String>,
    /// `temp`
    pub temp: Option<String>,
    /// `wind`
    pub wind: Option<String>,
}

/// A weather record as a mathematical value.
pub struct WeatherRecordModel {
    pub condition: Option<Seq<char>>,
    pub temp: Option<Seq<char>>,
    pub wind: Option<Seq<char>>,
}

impl DeepView for WeatherRecord {
    type V = WeatherRecordModel;

    open spec fn deep_view(&self) -> WeatherRecordModel {
        WeatherRecordModel {
            condition: self.condition.deep_view(),
            temp: self.temp.deep_view(),
            wind: self.wind.deep_view(),
        }
    }
}

impl View for WeatherRecord {
    type V = WeatherRecordModel;

    open spec fn view(&self) -> WeatherRecordModel {
        self.deep_view()
    }
}

/// One entry of `teams.{home,away}.players`.
#[derive(Clone, Debug, PartialEq, Eq)]
pub struct PlayerRecord {
    /// `person.fullName`
    pub name: Option<String>,
    /// `position.abbreviation`
    pub abbreviation: Option<String>,
}

/// A player entry as a mathematical value.
pub struct PlayerRecordModel {
    pub name: Option<Seq<char>>,
    pub abbreviation: Option<Seq<char>>,
}

impl DeepView for PlayerRecord {
    type V = PlayerRecordModel;

    open spec fn deep_view(&self) -> PlayerRecordModel {
        PlayerRecordModel {
            name: self.name.deep_view(),
            abbreviation: self.abbreviation.deep_view(),
        }
    }
}

impl View for PlayerRecord {
    type V = PlayerRecordModel;

    open spec fn view(&self) -> PlayerRecordModel {
        self.deep_view()
    }
}

/// `teams.home` or `teams.away` of a box score.
#[derive(Clone, Debug, PartialEq, Eq)]
pub struct TeamRecord {
    /// `team.id`
    pub id: Option<u64>,
    /// `team.venue.name`
    pub venue: Option<String>,
    /// `players`, if it is an object: its entries in the order in which the
    /// document walks them
    pub players: Option<Vec<PlayerRecord>>,
}

/// A team block as a mathematical value.
pub struct TeamRecordModel {
    pub id: Option<u64>,
    pub venue: Option<Seq<char>>,
    pub players: Option<Seq<PlayerRecordModel>>,
}

impl DeepView for TeamRecord {
    type V = TeamRecordModel;

    open spec fn deep_view(&self) -> TeamRecordModel {
        TeamRecordModel {
            id: self.id,
            venue: self.venue.deep_view(),
            players: self.players.deep_view(),
        }
    }
}

impl View for TeamRecord {
    type V = TeamRecordModel;

    open spec fn view(&self) -> TeamRecordModel {
        self.deep_view()
    }
}

/// What the library reads of a feed document.
#[derive(Clone, Debug, PartialEq, Eq)]
pub struct FeedRecord {
    /// `gameData.status.detailedState`
    pub status: Option<String>,
    /// `gameData.datetime.originalDate`
    pub date: Option<String>,
    /// `gameData.weather`
    pub weather: WeatherRecord,
    /// `liveData.plays.allPlays`, if it is a list
    pub plays: Option<Vec<PlayRecord>>,
}

/// What is read of a feed document, as a mathematical value.
pub struct FeedRecordModel {
    pub status: Option<Seq<char>>,
    pub date: Option<Seq<char>>,
    pub weather: WeatherRecordModel,
    pub plays: Option<Seq<PlayRecordModel>>,
}

impl DeepView for FeedRecord {
    type V = FeedRecordModel;

    open spec fn deep_view(&self) -> FeedRecordModel {
        FeedRecordModel {
            status: self.status.deep_view(),
            date: self.date.deep_view(),
            weather: self.weather@,
            plays: self.plays.deep_view(),
        }
    }
}

impl View for FeedRecord {
    type V = FeedRecordModel;

    open spec fn view(&self) -> FeedRecordModel {
        self.deep_view()
    }
}

/// What the library reads of a box-score document.
#[derive(Clone, Debug, PartialEq, Eq)]
pub struct BoxscoreRecord {
    /// `teams.home`
    pub home: TeamRecord,
    /// `teams.away`
    pub away: TeamRecord,
}

/// What is read of a box-score document, as a mathematical value.
pub struct BoxscoreRecordModel {
    pub home: TeamRecordModel,
    pub away: TeamRecordModel,
}

impl DeepView for BoxscoreRecord {
    type V = BoxscoreRecordModel;

    open spec fn deep_view(&self) -> BoxscoreRecordModel {
        BoxscoreRecordModel { home: self.home@, away: self.away@ }
    }
}

impl View for BoxscoreRecord {
    type V = BoxscoreRecordModel;

    open spec fn view(&self) -> BoxscoreRecordModel {
        self.deep_view()
    }
}

/// Whether a result holds the value that its model holds, or the same error.
pub open spec fn agrees<T: View, E>(r: Result<T, E>, m: Result<T::V, E>) -> bool {
    match m {
        Ok(v) => r is Ok && r->Ok_0@ == v,
        Err(e) => r is Err && r->Err_0 == e,
    }
}

} // verus!
