//! The closed set of plays, one variant for each kind of event.

use vstd::prelude::*;
use crate::inning::Inning;
use crate::movement::{base_in_range, Movement, MovementModel};

verus! {

/// Which parts a play holds besides its half-inning. Several kinds of play
/// share a shape: they are different outcomes with the same parts.
#[derive(Clone, Copy, Debug, PartialEq, Eq, Structural)]
pub enum Shape {
    BatterPitcherFielders,
    BatterPitcher,
    BatterPitcherFieldersScoring,
    BatterPitcherFieldersRunner,
    BaseRunnerFielders,
    PitcherRunner,
    RunnerFielders,
    FielderRunner,
    BatterCatcher,
    Pitcher,
    PitcherCatcher,
    BaseRunner,
    Bare,
    Movements,
}

/// The kind of a play: the variant of [`Play`] without its parts.
#[derive(Clone, Copy, Debug, PartialEq, Eq, Structural)]
pub enum PlayKind {
    Groundout,
    BuntGroundout,
    Strikeout,
    Lineout,
    BuntLineout,
    Flyout,
    PopOut,
    BuntPopOut,
    Forceout,
    FieldersChoiceOut,
    DoublePlay,
    TriplePlay,
    RunnerDoublePlay,
    RunnerTriplePlay,
    GroundedIntoDoublePlay,
    StrikeoutDoublePlay,
    Pickoff,
    PickoffError,
    CaughtStealing,
    PickoffCaughtStealing,
    WildPitch,
    RunnerOut,
    FieldOut,
    BatterOut,
    Balk,
    PassedBall,
    Error,
    Single,
    Double,
    Triple,
    HomeRun,
    Walk,
    IntentWalk,
    HitByPitch,
    FieldersChoice,
    CatcherInterference,
    StolenBase,
    SacFly,
    SacFlyDoublePlay,
    SacBunt,
    SacBuntDoublePlay,
    FieldError,
    GameAdvisory,
    Ejection,
}

impl Shape {
    /// Whether plays of this shape hold a base, as plays at a base.
    pub open spec fn spec_has_base(self) -> bool {
        self is BaseRunnerFielders || self is BaseRunner
    }

    /// Whether plays of this shape hold a base, as plays at a base.
    #[verifier::when_used_as_spec(spec_has_base)]
    pub fn has_base(self) -> (r: bool)
        ensures
            r == self.spec_has_base(),
    {
        match self {
            Shape::BaseRunnerFielders | Shape::BaseRunner => true,
            _ => false,
        }
    }

    /// Whether plays of this shape hold a batter.
    pub open spec fn spec_has_batter(self) -> bool {
        self is BatterPitcherFielders
            || self is BatterPitcher
            || self is BatterPitcherFieldersScoring
            || self is BatterPitcherFieldersRunner
            || self is BatterCatcher
    }

    /// Whether plays of this shape hold a batter.
    #[verifier::when_used_as_spec(spec_has_batter)]
    pub fn has_batter(self) -> (r: bool)
        ensures
            r == self.spec_has_batter(),
    {
        match self {
            Shape::BatterPitcherFielders
            | Shape::BatterPitcher
            | Shape::BatterPitcherFieldersScoring
            | Shape::BatterPitcherFieldersRunner
            | Shape::BatterCatcher => true,
            _ => false,
        }
    }

    /// Whether plays of this shape hold a pitcher.
    pub open spec fn spec_has_pitcher(self) -> bool {
        self is BatterPitcherFielders
            || self is BatterPitcher
            || self is BatterPitcherFieldersScoring
            || self is BatterPitcherFieldersRunner
            || self is PitcherRunner
            || self is Pitcher
            || self is PitcherCatcher
    }

    /// Whether plays of this shape hold a pitcher.
    #[verifier::when_used_as_spec(spec_has_pitcher)]
    pub fn has_pitcher(self) -> (r: bool)
        ensures
            r == self.spec_has_pitcher(),
    {
        match self {
            Shape::BatterPitcherFielders
            | Shape::BatterPitcher
            | Shape::BatterPitcherFieldersScoring
            | Shape::BatterPitcherFieldersRunner
            | Shape::PitcherRunner
            | Shape::Pitcher
            | Shape::PitcherCatcher => true,
            _ => false,
        }
    }

    /// Whether plays of this shape hold a catcher.
    pub open spec fn spec_has_catcher(self) -> bool {
        self is BatterCatcher || self is PitcherCatcher
    }

    /// Whether plays of this shape hold a catcher.
    #[verifier::when_used_as_spec(spec_has_catcher)]
    pub fn has_catcher(self) -> (r: bool)
        ensures
            r == self.spec_has_catcher(),
    {
        match self {
            Shape::BatterCatcher | Shape::PitcherCatcher => true,
            _ => false,
        }
    }

    /// Whether plays of this shape hold a single fielder.
    pub open spec fn spec_has_fielder(self) -> bool {
        self is FielderRunner
    }

    /// Whether plays of this shape hold a single fielder.
    #[verifier::when_used_as_spec(spec_has_fielder)]
    pub fn has_fielder(self) -> (r: bool)
        ensures
            r == self.spec_has_fielder(),
    {
        match self {
            Shape::FielderRunner => true,
            _ => false,
        }
    }

    /// Whether plays of this shape hold a list of fielders.
    pub open spec fn spec_has_fielders(self) -> bool {
        self is BatterPitcherFielders
            || self is BatterPitcherFieldersScoring
            || self is BatterPitcherFieldersRunner
            || self is BaseRunnerFielders
            || self is RunnerFielders
    }

    /// Whether plays of this shape hold a list of fielders.
    #[verifier::when_used_as_spec(spec_has_fielders)]
    pub fn has_fielders(self) -> (r: bool)
        ensures
            r == self.spec_has_fielders(),
    {
        match self {
            Shape::BatterPitcherFielders
            | Shape::BatterPitcherFieldersScoring
            | Shape::BatterPitcherFieldersRunner
            | Shape::BaseRunnerFielders
            | Shape::RunnerFielders => true,
            _ => false,
        }
    }

    /// Whether plays of this shape hold a scoring runner.
    pub open spec fn spec_has_scoring_runner(self) -> bool {
        self is BatterPitcherFieldersScoring
    }

    /// Whether plays of this shape hold a scoring runner.
    #[verifier::when_used_as_spec(spec_has_scoring_runner)]
    pub fn has_scoring_runner(self) -> (r: bool)
        ensures
            r == self.spec_has_scoring_runner(),
    {
        match self {
            Shape::BatterPitcherFieldersScoring => true,
            _ => false,
        }
    }

    /// Whether plays of this shape hold a distinguished runner.
    pub open spec fn spec_has_runner(self) -> bool {
        self is BatterPitcherFieldersRunner
            || self is BaseRunnerFielders
            || self is PitcherRunner
            || self is RunnerFielders
            || self is FielderRunner
            || self is BaseRunner
    }

    /// Whether plays of this shape hold a distinguished runner.
    #[verifier::when_used_as_spec(spec_has_runner)]
    pub fn has_runner(self) -> (r: bool)
        ensures
            r == self.spec_has_runner(),
    {
        match self {
            Shape::BatterPitcherFieldersRunner
            | Shape::BaseRunnerFielders
            | Shape::PitcherRunner
            | Shape::RunnerFielders
            | Shape::FielderRunner
            | Shape::BaseRunner => true,
            _ => false,
        }
    }

    /// Whether plays of this shape hold a list of movements.
    pub open spec fn spec_has_movements(self) -> bool {
        self is BatterPitcherFielders
            || self is BatterPitcher
            || self is BatterPitcherFieldersScoring
            || self is BatterPitcherFieldersRunner
            || self is BaseRunnerFielders
            || self is PitcherRunner
            || self is RunnerFielders
            || self is FielderRunner
            || self is BatterCatcher
            || self is Pitcher
            || self is PitcherCatcher
            || self is BaseRunner
            || self is Movements
    }

    /// Whether plays of this shape hold a list of movements.
    #[verifier::when_used_as_spec(spec_has_movements)]
    pub fn has_movements(self) -> (r: bool)
        ensures
            r == self.spec_has_movements(),
    {
        match self {
            Shape::BatterPitcherFielders
            | Shape::BatterPitcher
            | Shape::BatterPitcherFieldersScoring
            | Shape::BatterPitcherFieldersRunner
            | Shape::BaseRunnerFielders
            | Shape::PitcherRunner
            | Shape::RunnerFielders
            | Shape::FielderRunner
            | Shape::BatterCatcher
            | Shape::Pitcher
            | Shape::PitcherCatcher
            | Shape::BaseRunner
            | Shape::Movements => true,
            _ => false,
        }
    }
}

impl PlayKind {
    /// The shape of the plays of this kind.
    pub open spec fn spec_shape(self) -> Shape {
        match self {
            PlayKind::Groundout => Shape::BatterPitcherFielders,
            PlayKind::BuntGroundout => Shape::BatterPitcherFielders,
            PlayKind::Strikeout => Shape::BatterPitcher,
            PlayKind::Lineout => Shape::BatterPitcherFielders,
            PlayKind::BuntLineout => Shape::BatterPitcherFielders,
            PlayKind::Flyout => Shape::BatterPitcherFielders,
            PlayKind::PopOut => Shape::BatterPitcherFielders,
            PlayKind::BuntPopOut => Shape::BatterPitcherFielders,
            PlayKind::Forceout => Shape::BatterPitcherFielders,
            PlayKind::FieldersChoiceOut => Shape::BatterPitcherFieldersScoring,
            PlayKind::DoublePlay => Shape::BatterPitcherFielders,
            PlayKind::TriplePlay => Shape::BatterPitcherFielders,
            PlayKind::RunnerDoublePlay => Shape::BatterPitcherFielders,
            PlayKind::RunnerTriplePlay => Shape::BatterPitcherFielders,
            PlayKind::GroundedIntoDoublePlay => Shape::BatterPitcherFielders,
            PlayKind::StrikeoutDoublePlay => Shape::BatterPitcherFielders,
            PlayKind::Pickoff => Shape::BaseRunnerFielders,
            PlayKind::PickoffError => Shape::BaseRunnerFielders,
            PlayKind::CaughtStealing => Shape::BaseRunnerFielders,
            PlayKind::PickoffCaughtStealing => Shape::BaseRunnerFielders,
            PlayKind::WildPitch => Shape::PitcherRunner,
            PlayKind::RunnerOut => Shape::RunnerFielders,
            PlayKind::FieldOut => Shape::FielderRunner,
            PlayKind::BatterOut => Shape::BatterCatcher,
            PlayKind::Balk => Shape::Pitcher,
            PlayKind::PassedBall => Shape::PitcherCatcher,
            PlayKind::Error => Shape::PitcherCatcher,
            PlayKind::Single => Shape::BatterPitcher,
            PlayKind::Double => Shape::BatterPitcher,
            PlayKind::Triple => Shape::BatterPitcher,
            PlayKind::HomeRun => Shape::BatterPitcher,
            PlayKind::Walk => Shape::BatterPitcher,
            PlayKind::IntentWalk => Shape::BatterPitcher,
            PlayKind::HitByPitch => Shape::BatterPitcher,
            PlayKind::FieldersChoice => Shape::BatterPitcherFielders,
            PlayKind::CatcherInterference => Shape::BatterPitcherFielders,
            PlayKind::StolenBase => Shape::BaseRunner,
            PlayKind::SacFly => Shape::BatterPitcherFieldersScoring,
            PlayKind::SacFlyDoublePlay => Shape::BatterPitcherFieldersScoring,
            PlayKind::SacBunt => Shape::BatterPitcherFieldersRunner,
            PlayKind::SacBuntDoublePlay => Shape::BatterPitcherFieldersRunner,
            PlayKind::FieldError => Shape::BatterPitcherFielders,
            PlayKind::GameAdvisory => Shape::Bare,
            PlayKind::Ejection => Shape::Movements,
        }
    }

    /// The shape of the plays of this kind.
    #[verifier::when_used_as_spec(spec_shape)]
    pub fn shape(self) -> (r: Shape)
        ensures
            r == self.spec_shape(),
    {
        match self {
            PlayKind::Groundout => Shape::BatterPitcherFielders,
            PlayKind::BuntGroundout => Shape::BatterPitcherFielders,
            PlayKind::Strikeout => Shape::BatterPitcher,
            PlayKind::Lineout => Shape::BatterPitcherFielders,
            PlayKind::BuntLineout => Shape::BatterPitcherFielders,
            PlayKind::Flyout => Shape::BatterPitcherFielders,
            PlayKind::PopOut => Shape::BatterPitcherFielders,
            PlayKind::BuntPopOut => Shape::BatterPitcherFielders,
            PlayKind::Forceout => Shape::BatterPitcherFielders,
            PlayKind::FieldersChoiceOut => Shape::BatterPitcherFieldersScoring,
            PlayKind::DoublePlay => Shape::BatterPitcherFielders,
            PlayKind::TriplePlay => Shape::BatterPitcherFielders,
            PlayKind::RunnerDoublePlay => Shape::BatterPitcherFielders,
            PlayKind::RunnerTriplePlay => Shape::BatterPitcherFielders,
            PlayKind::GroundedIntoDoublePlay => Shape::BatterPitcherFielders,
            PlayKind::StrikeoutDoublePlay => Shape::BatterPitcherFielders,
            PlayKind::Pickoff => Shape::BaseRunnerFielders,
            PlayKind::PickoffError => Shape::BaseRunnerFielders,
            PlayKind::CaughtStealing => Shape::BaseRunnerFielders,
            PlayKind::PickoffCaughtStealing => Shape::BaseRunnerFielders,
            PlayKind::WildPitch => Shape::PitcherRunner,
            PlayKind::RunnerOut => Shape::RunnerFielders,
            PlayKind::FieldOut => Shape::FielderRunner,
            PlayKind::BatterOut => Shape::BatterCatcher,
            PlayKind::Balk => Shape::Pitcher,
            PlayKind::PassedBall => Shape::PitcherCatcher,
            PlayKind::Error => Shape::PitcherCatcher,
            PlayKind::Single => Shape::BatterPitcher,
            PlayKind::Double => Shape::BatterPitcher,
            PlayKind::Triple => Shape::BatterPitcher,
            PlayKind::HomeRun => Shape::BatterPitcher,
            PlayKind::Walk => Shape::BatterPitcher,
            PlayKind::IntentWalk => Shape::BatterPitcher,
            PlayKind::HitByPitch => Shape::BatterPitcher,
            PlayKind::FieldersChoice => Shape::BatterPitcherFielders,
            PlayKind::CatcherInterference => Shape::BatterPitcherFielders,
            PlayKind::StolenBase => Shape::BaseRunner,
            PlayKind::SacFly => Shape::BatterPitcherFieldersScoring,
            PlayKind::SacFlyDoublePlay => Shape::BatterPitcherFieldersScoring,
            PlayKind::SacBunt => Shape::BatterPitcherFieldersRunner,
            PlayKind::SacBuntDoublePlay => Shape::BatterPitcherFieldersRunner,
            PlayKind::FieldError => Shape::BatterPitcherFielders,
            PlayKind::GameAdvisory => Shape::Bare,
            PlayKind::Ejection => Shape::Movements,
        }
    }

    /// The name of the kind in words, as the encodings write it.
    pub open spec fn label_text(self) -> Seq<char> {
        match self {
            PlayKind::Groundout => "Groundout"@,
            PlayKind::BuntGroundout => "Bunt Groundout"@,
            PlayKind::Strikeout => "Strikeout"@,
            PlayKind::Lineout => "Lineout"@,
            PlayKind::BuntLineout => "Bunt Lineout"@,
            PlayKind::Flyout => "Flyout"@,
            PlayKind::PopOut => "Pop Out"@,
            PlayKind::BuntPopOut => "Bunt Pop Out"@,
            PlayKind::Forceout => "Forceout"@,
            PlayKind::FieldersChoiceOut => "Fielders Choice Out"@,
            PlayKind::DoublePlay => "Double Play"@,
            PlayKind::TriplePlay => "Triple Play"@,
            PlayKind::RunnerDoublePlay => "Runner Double Play"@,
            PlayKind::RunnerTriplePlay => "Runner Triple Play"@,
            PlayKind::GroundedIntoDoublePlay => "Grounded Into Double Play"@,
            PlayKind::StrikeoutDoublePlay => "Strikeout Double Play"@,
            PlayKind::Pickoff => "Pickoff"@,
            PlayKind::PickoffError => "Pickoff Error"@,
            PlayKind::CaughtStealing => "Caught Stealing"@,
            PlayKind::PickoffCaughtStealing => "Pickoff Caught Stealing"@,
            PlayKind::WildPitch => "Wild Pitch"@,
            PlayKind::RunnerOut => "Runner Out"@,
            PlayKind::FieldOut => "Field Out"@,
            PlayKind::BatterOut => "Batter Out"@,
            PlayKind::Balk => "Balk"@,
            PlayKind::PassedBall => "Passed Ball"@,
            PlayKind::Error => "Error"@,
            PlayKind::Single => "Single"@,
            PlayKind::Double => "Double"@,
            PlayKind::Triple => "Triple"@,
            PlayKind::HomeRun => "Home Run"@,
            PlayKind::Walk => "Walk"@,
            PlayKind::IntentWalk => "Intent Walk"@,
            PlayKind::HitByPitch => "Hit By Pitch"@,
            PlayKind::FieldersChoice => "Fielders Choice"@,
            PlayKind::CatcherInterference => "Catcher Interference"@,
            PlayKind::StolenBase => "Stolen Base"@,
            PlayKind::SacFly => "Sac Fly"@,
            PlayKind::SacFlyDoublePlay => "Sac Fly Double Play"@,
            PlayKind::SacBunt => "Sac Bunt"@,
            PlayKind::SacBuntDoublePlay => "Sac Bunt Double Play"@,
            PlayKind::FieldError => "Field Error"@,
            PlayKind::GameAdvisory => "Game Advisory"@,
            PlayKind::Ejection => "Ejection"@,
        }
    }

    /// The name of the kind in words, as the encodings write it.
    pub fn label(self) -> (r: &'static str)
        ensures
            r@ == self.label_text(),
    {
        match self {
            PlayKind::Groundout => "Groundout",
            PlayKind::BuntGroundout => "Bunt Groundout",
            PlayKind::Strikeout => "Strikeout",
            PlayKind::Lineout => "Lineout",
            PlayKind::BuntLineout => "Bunt Lineout",
            PlayKind::Flyout => "Flyout",
            PlayKind::PopOut => "Pop Out",
            PlayKind::BuntPopOut => "Bunt Pop Out",
            PlayKind::Forceout => "Forceout",
            PlayKind::FieldersChoiceOut => "Fielders Choice Out",
            PlayKind::DoublePlay => "Double Play",
            PlayKind::TriplePlay => "Triple Play",
            PlayKind::RunnerDoublePlay => "Runner Double Play",
            PlayKind::RunnerTriplePlay => "Runner Triple Play",
            PlayKind::GroundedIntoDoublePlay => "Grounded Into Double Play",
            PlayKind::StrikeoutDoublePlay => "Strikeout Double Play",
            PlayKind::Pickoff => "Pickoff",
            PlayKind::PickoffError => "Pickoff Error",
            PlayKind::CaughtStealing => "Caught Stealing",
            PlayKind::PickoffCaughtStealing => "Pickoff Caught Stealing",
            PlayKind::WildPitch => "Wild Pitch",
            PlayKind::RunnerOut => "Runner Out",
            PlayKind::FieldOut => "Field Out",
            PlayKind::BatterOut => "Batter Out",
            PlayKind::Balk => "Balk",
            PlayKind::PassedBall => "Passed Ball",
            PlayKind::Error => "Error",
            PlayKind::Single => "Single",
            PlayKind::Double => "Double",
            PlayKind::Triple => "Triple",
            PlayKind::HomeRun => "Home Run",
            PlayKind::Walk => "Walk",
            PlayKind::IntentWalk => "Intent Walk",
            PlayKind::HitByPitch => "Hit By Pitch",
            PlayKind::FieldersChoice => "Fielders Choice",
            PlayKind::CatcherInterference => "Catcher Interference",
            PlayKind::StolenBase => "Stolen Base",
            PlayKind::SacFly => "Sac Fly",
            PlayKind::SacFlyDoublePlay => "Sac Fly Double Play",
            PlayKind::SacBunt => "Sac Bunt",
            PlayKind::SacBuntDoublePlay => "Sac Bunt Double Play",
            PlayKind::FieldError => "Field Error",
            PlayKind::GameAdvisory => "Game Advisory",
            PlayKind::Ejection => "Ejection",
        }
    }

    /// The name of the kind as an upper-case tag.
    pub open spec fn tag_text(self) -> Seq<char> {
        match self {
            PlayKind::Groundout => "GROUNDOUT"@,
            PlayKind::BuntGroundout => "BUNT_GROUNDOUT"@,
            PlayKind::Strikeout => "STRIKEOUT"@,
            PlayKind::Lineout => "LINEOUT"@,
            PlayKind::BuntLineout => "BUNT_LINEOUT"@,
            PlayKind::Flyout => "FLYOUT"@,
            PlayKind::PopOut => "POP_OUT"@,
            PlayKind::BuntPopOut => "BUNT_POP_OUT"@,
            PlayKind::Forceout => "FORCEOUT"@,
            PlayKind::FieldersChoiceOut => "FIELDERS_CHOICE_OUT"@,
            PlayKind::DoublePlay => "DOUBLE_PLAY"@,
            PlayKind::TriplePlay => "TRIPLE_PLAY"@,
            PlayKind::RunnerDoublePlay => "RUNNER_DOUBLE_PLAY"@,
            PlayKind::RunnerTriplePlay => "RUNNER_TRIPLE_PLAY"@,
            PlayKind::GroundedIntoDoublePlay => "GROUNDED_INTO_DOUBLE_PLAY"@,
            PlayKind::StrikeoutDoublePlay => "STRIKEOUT_DOUBLE_PLAY"@,
            PlayKind::Pickoff => "PICKOFF"@,
            PlayKind::PickoffError => "PICKOFF_ERROR"@,
            PlayKind::CaughtStealing => "CAUGHT_STEALING"@,
            PlayKind::PickoffCaughtStealing => "PICKOFF_CAUGHT_STEALING"@,
            PlayKind::WildPitch => "WILD_PITCH"@,
            PlayKind::RunnerOut => "RUNNER_OUT"@,
            PlayKind::FieldOut => "FIELD_OUT"@,
            PlayKind::BatterOut => "BATTER_OUT"@,
            PlayKind::Balk => "BALK"@,
            PlayKind::PassedBall => "PASSED_BALL"@,
            PlayKind::Error => "ERROR"@,
            PlayKind::Single => "SINGLE"@,
            PlayKind::Double => "DOUBLE"@,
            PlayKind::Triple => "TRIPLE"@,
            PlayKind::HomeRun => "HOME_RUN"@,
            PlayKind::Walk => "WALK"@,
            PlayKind::IntentWalk => "INTENT_WALK"@,
            PlayKind::HitByPitch => "HIT_BY_PITCH"@,
            PlayKind::FieldersChoice => "FIELDERS_CHOICE"@,
            PlayKind::CatcherInterference => "CATCHER_INTERFERENCE"@,
            PlayKind::StolenBase => "STOLEN_BASE"@,
            PlayKind::SacFly => "SAC_FLY"@,
            PlayKind::SacFlyDoublePlay => "SAC_FLY_DOUBLE_PLAY"@,
            PlayKind::SacBunt => "SAC_BUNT"@,
            PlayKind::SacBuntDoublePlay => "SAC_BUNT_DOUBLE_PLAY"@,
            PlayKind::FieldError => "FIELD_ERROR"@,
            PlayKind::GameAdvisory => "GAME_ADVISORY"@,
            PlayKind::Ejection => "EJECTION"@,
        }
    }

    /// The name of the kind as an upper-case tag.
    pub fn tag(self) -> (r: &'static str)
        ensures
            r@ == self.tag_text(),
    {
        match self {
            PlayKind::Groundout => "GROUNDOUT",
            PlayKind::BuntGroundout => "BUNT_GROUNDOUT",
            PlayKind::Strikeout => "STRIKEOUT",
            PlayKind::Lineout => "LINEOUT",
            PlayKind::BuntLineout => "BUNT_LINEOUT",
            PlayKind::Flyout => "FLYOUT",
            PlayKind::PopOut => "POP_OUT",
            PlayKind::BuntPopOut => "BUNT_POP_OUT",
            PlayKind::Forceout => "FORCEOUT",
            PlayKind::FieldersChoiceOut => "FIELDERS_CHOICE_OUT",
            PlayKind::DoublePlay => "DOUBLE_PLAY",
            PlayKind::TriplePlay => "TRIPLE_PLAY",
            PlayKind::RunnerDoublePlay => "RUNNER_DOUBLE_PLAY",
            PlayKind::RunnerTriplePlay => "RUNNER_TRIPLE_PLAY",
            PlayKind::GroundedIntoDoublePlay => "GROUNDED_INTO_DOUBLE_PLAY",
            PlayKind::StrikeoutDoublePlay => "STRIKEOUT_DOUBLE_PLAY",
            PlayKind::Pickoff => "PICKOFF",
            PlayKind::PickoffError => "PICKOFF_ERROR",
            PlayKind::CaughtStealing => "CAUGHT_STEALING",
            PlayKind::PickoffCaughtStealing => "PICKOFF_CAUGHT_STEALING",
            PlayKind::WildPitch => "WILD_PITCH",
            PlayKind::RunnerOut => "RUNNER_OUT",
            PlayKind::FieldOut => "FIELD_OUT",
            PlayKind::BatterOut => "BATTER_OUT",
            PlayKind::Balk => "BALK",
            PlayKind::PassedBall => "PASSED_BALL",
            PlayKind::Error => "ERROR",
            PlayKind::Single => "SINGLE",
            PlayKind::Double => "DOUBLE",
            PlayKind::Triple => "TRIPLE",
            PlayKind::HomeRun => "HOME_RUN",
            PlayKind::Walk => "WALK",
            PlayKind::IntentWalk => "INTENT_WALK",
            PlayKind::HitByPitch => "HIT_BY_PITCH",
            PlayKind::FieldersChoice => "FIELDERS_CHOICE",
            PlayKind::CatcherInterference => "CATCHER_INTERFERENCE",
            PlayKind::StolenBase => "STOLEN_BASE",
            PlayKind::SacFly => "SAC_FLY",
            PlayKind::SacFlyDoublePlay => "SAC_FLY_DOUBLE_PLAY",
            PlayKind::SacBunt => "SAC_BUNT",
            PlayKind::SacBuntDoublePlay => "SAC_BUNT_DOUBLE_PLAY",
            PlayKind::FieldError => "FIELD_ERROR",
            PlayKind::GameAdvisory => "GAME_ADVISORY",
            PlayKind::Ejection => "EJECTION",
        }
    }
}

/// One event of a game. Each variant holds the half-inning and the parts
/// that mean something for its kind.
#[derive(Clone, Debug, PartialEq, Eq)]
pub enum Play {
    Groundout {
        inning: Inning,
        batter: String,
        pitcher: String,
        fielders: Vec<String>,
        movements: Vec<Movement>,
    },
    BuntGroundout {
        inning: Inning,
        batter: String,
        pitcher: String,
        fielders: Vec<String>,
        movements: Vec<Movement>,
    },
    Strikeout {
        inning: Inning,
        batter: String,
        pitcher: String,
        movements: Vec<Movement>,
    },
    Lineout {
        inning: Inning,
        batter: String,
        pitcher: String,
        fielders: Vec<String>,
        movements: Vec<Movement>,
    },
    BuntLineout {
        inning: Inning,
        batter: String,
        pitcher: String,
        fielders: Vec<String>,
        movements: Vec<Movement>,
    },
    Flyout {
        inning: Inning,
        batter: String,
        pitcher: String,
        fielders: Vec<String>,
        movements: Vec<Movement>,
    },
    PopOut {
        inning: Inning,
        batter: String,
        pitcher: String,
        fielders: Vec<String>,
        movements: Vec<Movement>,
    },
    BuntPopOut {
        inning: Inning,
        batter: String,
        pitcher: String,
        fielders: Vec<String>,
        movements: Vec<Movement>,
    },
    Forceout {
        inning: Inning,
        batter: String,
        pitcher: String,
        fielders: Vec<String>,
        movements: Vec<Movement>,
    },
    FieldersChoiceOut {
        inning: Inning,
        batter: String,
        pitcher: String,
        fielders: Vec<String>,
        scoring_runner: String,
        movements: Vec<Movement>,
    },
    DoublePlay {
        inning: Inning,
        batter: String,
        pitcher: String,
        fielders: Vec<String>,
        movements: Vec<Movement>,
    },
    TriplePlay {
        inning: Inning,
        batter: String,
        pitcher: String,
        fielders: Vec<String>,
        movements: Vec<Movement>,
    },
    RunnerDoublePlay {
        inning: Inning,
        batter: String,
        pitcher: String,
        fielders: Vec<String>,
        movements: Vec<Movement>,
    },
    RunnerTriplePlay {
        inning: Inning,
        batter: String,
        pitcher: String,
        fielders: Vec<String>,
        movements: Vec<Movement>,
    },
    GroundedIntoDoublePlay {
        inning: Inning,
        batter: String,
        pitcher: String,
        fielders: Vec<String>,
        movements: Vec<Movement>,
    },
    StrikeoutDoublePlay {
        inning: Inning,
        batter: String,
        pitcher: String,
        fielders: Vec<String>,
        movements: Vec<Movement>,
    },
    Pickoff {
        inning: Inning,
        base: u8,
        runner: String,
        fielders: Vec<String>,
        movements: Vec<Movement>,
    },
    PickoffError {
        inning: Inning,
        base: u8,
        runner: String,
        fielders: Vec<String>,
        movements: Vec<Movement>,
    },
    CaughtStealing {
        inning: Inning,
        base: u8,
        runner: String,
        fielders: Vec<String>,
        movements: Vec<Movement>,
    },
    PickoffCaughtStealing {
        inning: Inning,
        base: u8,
        runner: String,
        fielders: Vec<String>,
        movements: Vec<Movement>,
    },
    WildPitch {
        inning: Inning,
        pitcher: String,
        runner: String,
        movements: Vec<Movement>,
    },
    RunnerOut {
        inning: Inning,
        runner: String,
        fielders: Vec<String>,
        movements: Vec<Movement>,
    },
    FieldOut {
        inning: Inning,
        fielder: String,
        runner: String,
        movements: Vec<Movement>,
    },
    BatterOut {
        inning: Inning,
        batter: String,
        catcher: String,
        movements: Vec<Movement>,
    },
    Balk {
        inning: Inning,
        pitcher: String,
        movements: Vec<Movement>,
    },
    PassedBall {
        inning: Inning,
        pitcher: String,
        catcher: String,
        movements: Vec<Movement>,
    },
    Error {
        inning: Inning,
        pitcher: String,
        catcher: String,
        movements: Vec<Movement>,
    },
    Single {
        inning: Inning,
        batter: String,
        pitcher: String,
        movements: Vec<Movement>,
    },
    Double {
        inning: Inning,
        batter: String,
        pitcher: String,
        movements: Vec<Movement>,
    },
    Triple {
        inning: Inning,
        batter: String,
        pitcher: String,
        movements: Vec<Movement>,
    },
    HomeRun {
        inning: Inning,
        batter: String,
        pitcher: String,
        movements: Vec<Movement>,
    },
    Walk {
        inning: Inning,
        batter: String,
        pitcher: String,
        movements: Vec<Movement>,
    },
    IntentWalk {
        inning: Inning,
        batter: String,
        pitcher: String,
        movements: Vec<Movement>,
    },
    HitByPitch {
        inning: Inning,
        batter: String,
        pitcher: String,
        movements: Vec<Movement>,
    },
    FieldersChoice {
        inning: Inning,
        batter: String,
        pitcher: String,
        fielders: Vec<String>,
        movements: Vec<Movement>,
    },
    CatcherInterference {
        inning: Inning,
        batter: String,
        pitcher: String,
        fielders: Vec<String>,
        movements: Vec<Movement>,
    },
    StolenBase {
        inning: Inning,
        base: u8,
        runner: String,
        movements: Vec<Movement>,
    },
    SacFly {
        inning: Inning,
        batter: String,
        pitcher: String,
        fielders: Vec<String>,
        scoring_runner: String,
        movements: Vec<Movement>,
    },
    SacFlyDoublePlay {
        inning: Inning,
        batter: String,
        pitcher: String,
        fielders: Vec<String>,
        scoring_runner: String,
        movements: Vec<Movement>,
    },
    SacBunt {
        inning: Inning,
        batter: String,
        pitcher: String,
        fielders: Vec<String>,
        runner: String,
        movements: Vec<Movement>,
    },
    SacBuntDoublePlay {
        inning: Inning,
        batter: String,
        pitcher: String,
        fielders: Vec<String>,
        runner: String,
        movements: Vec<Movement>,
    },
    FieldError {
        inning: Inning,
        batter: String,
        pitcher: String,
        fielders: Vec<String>,
        movements: Vec<Movement>,
    },
    GameAdvisory {
        inning: Inning,
    },
    Ejection {
        inning: Inning,
        movements: Vec<Movement>,
    },
}

/// A play as a mathematical value: its kind, its half-inning, and each part
/// that a play can hold, present or not.
pub struct PlayModel {
    pub kind: PlayKind,
    pub inning: Inning,
    pub base: Option<u8>,
    pub batter: Option<Seq<char>>,
    pub pitcher: Option<Seq<char>>,
    pub catcher: Option<Seq<char>>,
    pub fielder: Option<Seq<char>>,
    pub fielders: Option<Seq<Seq<char>>>,
    pub scoring_runner: Option<Seq<char>>,
    pub runner: Option<Seq<char>>,
    pub movements: Option<Seq<MovementModel>>,
}

impl PlayModel {
    /// A play of the given kind with no part yet.
    pub open spec fn bare(kind: PlayKind, inning: Inning) -> PlayModel {
        PlayModel {
            kind,
            inning,
            base: None,
            batter: None,
            pitcher: None,
            catcher: None,
            fielder: None,
            fielders: None,
            scoring_runner: None,
            runner: None,
            movements: None,
        }
    }

    /// The parts that are present are those of the kind's shape.
    pub open spec fn fits(self) -> bool {
        let s = self.kind.shape();
        &&& self.base is Some <==> s.has_base()
        &&& self.batter is Some <==> s.has_batter()
        &&& self.pitcher is Some <==> s.has_pitcher()
        &&& self.catcher is Some <==> s.has_catcher()
        &&& self.fielder is Some <==> s.has_fielder()
        &&& self.fielders is Some <==> s.has_fielders()
        &&& self.scoring_runner is Some <==> s.has_scoring_runner()
        &&& self.runner is Some <==> s.has_runner()
        &&& self.movements is Some <==> s.has_movements()
    }

    /// The play fits its kind, and every base in it is 1 to 4.
    pub open spec fn wf(self) -> bool {
        &&& self.fits()
        &&& base_in_range(self.base)
        &&& self.movements is Some ==> forall|i: int|
            0 <= i < self.movements->0.len() ==> (#[trigger] self.movements->0[i]).wf()
    }
}

impl DeepView for Play {
    type V = PlayModel;

    open spec fn deep_view(&self) -> PlayModel {
        match self {
            Play::Groundout { inning, batter, pitcher, fielders, movements } => PlayModel {
                batter: Some(batter@),
                pitcher: Some(pitcher@),
                fielders: Some(fielders.deep_view()),
                movements: Some(movements.deep_view()),
                ..PlayModel::bare(PlayKind::Groundout, *inning)
            },
            Play::BuntGroundout { inning, batter, pitcher, fielders, movements } => PlayModel {
                batter: Some(batter@),
                pitcher: Some(pitcher@),
                fielders: Some(fielders.deep_view()),
                movements: Some(movements.deep_view()),
                ..PlayModel::bare(PlayKind::BuntGroundout, *inning)
            },
            Play::Strikeout { inning, batter, pitcher, movements } => PlayModel {
                batter: Some(batter@),
                pitcher: Some(pitcher@),
                movements: Some(movements.deep_view()),
                ..PlayModel::bare(PlayKind::Strikeout, *inning)
            },
            Play::Lineout { inning, batter, pitcher, fielders, movements } => PlayModel {
                batter: Some(batter@),
                pitcher: Some(pitcher@),
                fielders: Some(fielders.deep_view()),
                movements: Some(movements.deep_view()),
                ..PlayModel::bare(PlayKind::Lineout, *inning)
            },
            Play::BuntLineout { inning, batter, pitcher, fielders, movements } => PlayModel {
                batter: Some(batter@),
                pitcher: Some(pitcher@),
                fielders: Some(fielders.deep_view()),
                movements: Some(movements.deep_view()),
                ..PlayModel::bare(PlayKind::BuntLineout, *inning)
            },
            Play::Flyout { inning, batter, pitcher, fielders, movements } => PlayModel {
                batter: Some(batter@),
                pitcher: Some(pitcher@),
                fielders: Some(fielders.deep_view()),
                movements: Some(movements.deep_view()),
                ..PlayModel::bare(PlayKind::Flyout, *inning)
            },
            Play::PopOut { inning, batter, pitcher, fielders, movements } => PlayModel {
                batter: Some(batter@),
                pitcher: Some(pitcher@),
                fielders: Some(fielders.deep_view()),
                movements: Some(movements.deep_view()),
                ..PlayModel::bare(PlayKind::PopOut, *inning)
            },
            Play::BuntPopOut { inning, batter, pitcher, fielders, movements } => PlayModel {
                batter: Some(batter@),
                pitcher: Some(pitcher@),
                fielders: Some(fielders.deep_view()),
                movements: Some(movements.deep_view()),
                ..PlayModel::bare(PlayKind::BuntPopOut, *inning)
            },
            Play::Forceout { inning, batter, pitcher, fielders, movements } => PlayModel {
                batter: Some(batter@),
                pitcher: Some(pitcher@),
                fielders: Some(fielders.deep_view()),
                movements: Some(movements.deep_view()),
                ..PlayModel::bare(PlayKind::Forceout, *inning)
            },
            Play::FieldersChoiceOut { inning, batter, pitcher, fielders, scoring_runner, movements } => PlayModel {
                batter: Some(batter@),
                pitcher: Some(pitcher@),
                fielders: Some(fielders.deep_view()),
                scoring_runner: Some(scoring_runner@),
                movements: Some(movements.deep_view()),
                ..PlayModel::bare(PlayKind::FieldersChoiceOut, *inning)
            },
            Play::DoublePlay { inning, batter, pitcher, fielders, movements } => PlayModel {
                batter: Some(batter@),
                pitcher: Some(pitcher@),
                fielders: Some(fielders.deep_view()),
                movements: Some(movements.deep_view()),
                ..PlayModel::bare(PlayKind::DoublePlay, *inning)
            },
            Play::TriplePlay { inning, batter, pitcher, fielders, movements } => PlayModel {
                batter: Some(batter@),
                pitcher: Some(pitcher@),
                fielders: Some(fielders.deep_view()),
                movements: Some(movements.deep_view()),
                ..PlayModel::bare(PlayKind::TriplePlay, *inning)
            },
            Play::RunnerDoublePlay { inning, batter, pitcher, fielders, movements } => PlayModel {
                batter: Some(batter@),
                pitcher: Some(pitcher@),
                fielders: Some(fielders.deep_view()),
                movements: Some(movements.deep_view()),
                ..PlayModel::bare(PlayKind::RunnerDoublePlay, *inning)
            },
            Play::RunnerTriplePlay { inning, batter, pitcher, fielders, movements } => PlayModel {
                batter: Some(batter@),
                pitcher: Some(pitcher@),
                fielders: Some(fielders.deep_view()),
                movements: Some(movements.deep_view()),
                ..PlayModel::bare(PlayKind::RunnerTriplePlay, *inning)
            },
            Play::GroundedIntoDoublePlay { inning, batter, pitcher, fielders, movements } => PlayModel {
                batter: Some(batter@),
                pitcher: Some(pitcher@),
                fielders: Some(fielders.deep_view()),
                movements: Some(movements.deep_view()),
                ..PlayModel::bare(PlayKind::GroundedIntoDoublePlay, *inning)
            },
            Play::StrikeoutDoublePlay { inning, batter, pitcher, fielders, movements } => PlayModel {
                batter: Some(batter@),
                pitcher: Some(pitcher@),
                fielders: Some(fielders.deep_view()),
                movements: Some(movements.deep_view()),
                ..PlayModel::bare(PlayKind::StrikeoutDoublePlay, *inning)
            },
            Play::Pickoff { inning, base, runner, fielders, movements } => PlayModel {
                base: Some(*base),
                runner: Some(runner@),
                fielders: Some(fielders.deep_view()),
                movements: Some(movements.deep_view()),
                ..PlayModel::bare(PlayKind::Pickoff, *inning)
            },
            Play::PickoffError { inning, base, runner, fielders, movements } => PlayModel {
                base: Some(*base),
                runner: Some(runner@),
                fielders: Some(fielders.deep_view()),
                movements: Some(movements.deep_view()),
                ..PlayModel::bare(PlayKind::PickoffError, *inning)
            },
            Play::CaughtStealing { inning, base, runner, fielders, movements } => PlayModel {
                base: Some(*base),
                runner: Some(runner@),
                fielders: Some(fielders.deep_view()),
                movements: Some(movements.deep_view()),
                ..PlayModel::bare(PlayKind::CaughtStealing, *inning)
            },
            Play::PickoffCaughtStealing { inning, base, runner, fielders, movements } => PlayModel {
                base: Some(*base),
                runner: Some(runner@),
                fielders: Some(fielders.deep_view()),
                movements: Some(movements.deep_view()),
                ..PlayModel::bare(PlayKind::PickoffCaughtStealing, *inning)
            },
            Play::WildPitch { inning, pitcher, runner, movements } => PlayModel {
                pitcher: Some(pitcher@),
                runner: Some(runner@),
                movements: Some(movements.deep_view()),
                ..PlayModel::bare(PlayKind::WildPitch, *inning)
            },
            Play::RunnerOut { inning, runner, fielders, movements } => PlayModel {
                runner: Some(runner@),
                fielders: Some(fielders.deep_view()),
                movements: Some(movements.deep_view()),
                ..PlayModel::bare(PlayKind::RunnerOut, *inning)
            },
            Play::FieldOut { inning, fielder, runner, movements } => PlayModel {
                fielder: Some(fielder@),
                runner: Some(runner@),
                movements: Some(movements.deep_view()),
                ..PlayModel::bare(PlayKind::FieldOut, *inning)
            },
            Play::BatterOut { inning, batter, catcher, movements } => PlayModel {
                batter: Some(batter@),
                catcher: Some(catcher@),
                movements: Some(movements.deep_view()),
                ..PlayModel::bare(PlayKind::BatterOut, *inning)
            },
            Play::Balk { inning, pitcher, movements } => PlayModel {
                pitcher: Some(pitcher@),
                movements: Some(movements.deep_view()),
                ..PlayModel::bare(PlayKind::Balk, *inning)
            },
            Play::PassedBall { inning, pitcher, catcher, movements } => PlayModel {
                pitcher: Some(pitcher@),
                catcher: Some(catcher@),
                movements: Some(movements.deep_view()),
                ..PlayModel::bare(PlayKind::PassedBall, *inning)
            },
            Play::Error { inning, pitcher, catcher, movements } => PlayModel {
                pitcher: Some(pitcher@),
                catcher: Some(catcher@),
                movements: Some(movements.deep_view()),
                ..PlayModel::bare(PlayKind::Error, *inning)
            },
            Play::Single { inning, batter, pitcher, movements } => PlayModel {
                batter: Some(batter@),
                pitcher: Some(pitcher@),
                movements: Some(movements.deep_view()),
                ..PlayModel::bare(PlayKind::Single, *inning)
            },
            Play::Double { inning, batter, pitcher, movements } => PlayModel {
                batter: Some(batter@),
                pitcher: Some(pitcher@),
                movements: Some(movements.deep_view()),
                ..PlayModel::bare(PlayKind::Double, *inning)
            },
            Play::Triple { inning, batter, pitcher, movements } => PlayModel {
                batter: Some(batter@),
                pitcher: Some(pitcher@),
                movements: Some(movements.deep_view()),
                ..PlayModel::bare(PlayKind::Triple, *inning)
            },
            Play::HomeRun { inning, batter, pitcher, movements } => PlayModel {
                batter: Some(batter@),
                pitcher: Some(pitcher@),
                movements: Some(movements.deep_view()),
                ..PlayModel::bare(PlayKind::HomeRun, *inning)
            },
            Play::Walk { inning, batter, pitcher, movements } => PlayModel {
                batter: Some(batter@),
                pitcher: Some(pitcher@),
                movements: Some(movements.deep_view()),
                ..PlayModel::bare(PlayKind::Walk, *inning)
            },
            Play::IntentWalk { inning, batter, pitcher, movements } => PlayModel {
                batter: Some(batter@),
                pitcher: Some(pitcher@),
                movements: Some(movements.deep_view()),
                ..PlayModel::bare(PlayKind::IntentWalk, *inning)
            },
            Play::HitByPitch { inning, batter, pitcher, movements } => PlayModel {
                batter: Some(batter@),
                pitcher: Some(pitcher@),
                movements: Some(movements.deep_view()),
                ..PlayModel::bare(PlayKind::HitByPitch, *inning)
            },
            Play::FieldersChoice { inning, batter, pitcher, fielders, movements } => PlayModel {
                batter: Some(batter@),
                pitcher: Some(pitcher@),
                fielders: Some(fielders.deep_view()),
                movements: Some(movements.deep_view()),
                ..PlayModel::bare(PlayKind::FieldersChoice, *inning)
            },
            Play::CatcherInterference { inning, batter, pitcher, fielders, movements } => PlayModel {
                batter: Some(batter@),
                pitcher: Some(pitcher@),
                fielders: Some(fielders.deep_view()),
                movements: Some(movements.deep_view()),
                ..PlayModel::bare(PlayKind::CatcherInterference, *inning)
            },
            Play::StolenBase { inning, base, runner, movements } => PlayModel {
                base: Some(*base),
                runner: Some(runner@),
                movements: Some(movements.deep_view()),
                ..PlayModel::bare(PlayKind::StolenBase, *inning)
            },
            Play::SacFly { inning, batter, pitcher, fielders, scoring_runner, movements } => PlayModel {
                batter: Some(batter@),
                pitcher: Some(pitcher@),
                fielders: Some(fielders.deep_view()),
                scoring_runner: Some(scoring_runner@),
                movements: Some(movements.deep_view()),
                ..PlayModel::bare(PlayKind::SacFly, *inning)
            },
            Play::SacFlyDoublePlay { inning, batter, pitcher, fielders, scoring_runner, movements } => PlayModel {
                batter: Some(batter@),
                pitcher: Some(pitcher@),
                fielders: Some(fielders.deep_view()),
                scoring_runner: Some(scoring_runner@),
                movements: Some(movements.deep_view()),
                ..PlayModel::bare(PlayKind::SacFlyDoublePlay, *inning)
            },
            Play::SacBunt { inning, batter, pitcher, fielders, runner, movements } => PlayModel {
                batter: Some(batter@),
                pitcher: Some(pitcher@),
                fielders: Some(fielders.deep_view()),
                runner: Some(runner@),
                movements: Some(movements.deep_view()),
                ..PlayModel::bare(PlayKind::SacBunt, *inning)
            },
            Play::SacBuntDoublePlay { inning, batter, pitcher, fielders, runner, movements } => PlayModel {
                batter: Some(batter@),
                pitcher: Some(pitcher@),
                fielders: Some(fielders.deep_view()),
                runner: Some(runner@),
                movements: Some(movements.deep_view()),
                ..PlayModel::bare(PlayKind::SacBuntDoublePlay, *inning)
            },
            Play::FieldError { inning, batter, pitcher, fielders, movements } => PlayModel {
                batter: Some(batter@),
                pitcher: Some(pitcher@),
                fielders: Some(fielders.deep_view()),
                movements: Some(movements.deep_view()),
                ..PlayModel::bare(PlayKind::FieldError, *inning)
            },
            Play::GameAdvisory { inning } => PlayModel {
                ..PlayModel::bare(PlayKind::GameAdvisory, *inning)
            },
            Play::Ejection { inning, movements } => PlayModel {
                movements: Some(movements.deep_view()),
                ..PlayModel::bare(PlayKind::Ejection, *inning)
            },
        }
    }
}

impl View for Play {
    type V = PlayModel;

    open spec fn view(&self) -> PlayModel {
        self.deep_view()
    }
}

/// The parts of a play, owned, before the play is put together.
pub struct PlayParts {
    pub kind: PlayKind,
    pub inning: Inning,
    pub base: Option<u8>,
    pub batter: Option<String>,
    pub pitcher: Option<String>,
    pub catcher: Option<String>,
    pub fielder: Option<String>,
    pub fielders: Option<Vec<String>>,
    pub scoring_runner: Option<String>,
    pub runner: Option<String>,
    pub movements: Option<Vec<Movement>>,
}

impl DeepView for PlayParts {
    type V = PlayModel;

    open spec fn deep_view(&self) -> PlayModel {
        PlayModel {
            kind: self.kind,
            inning: self.inning,
            base: self.base,
            batter: self.batter.deep_view(),
            pitcher: self.pitcher.deep_view(),
            catcher: self.catcher.deep_view(),
            fielder: self.fielder.deep_view(),
            fielders: self.fielders.deep_view(),
            scoring_runner: self.scoring_runner.deep_view(),
            runner: self.runner.deep_view(),
            movements: self.movements.deep_view(),
        }
    }
}

impl View for PlayParts {
    type V = PlayModel;

    open spec fn view(&self) -> PlayModel {
        self.deep_view()
    }
}

/// The parts of a play, borrowed from it.
pub struct PlayFields<'a> {
    pub kind: PlayKind,
    pub inning: Inning,
    pub base: Option<u8>,
    pub batter: Option<&'a String>,
    pub pitcher: Option<&'a String>,
    pub catcher: Option<&'a String>,
    pub fielder: Option<&'a String>,
    pub fielders: Option<&'a Vec<String>>,
    pub scoring_runner: Option<&'a String>,
    pub runner: Option<&'a String>,
    pub movements: Option<&'a Vec<Movement>>,
}

impl<'a> DeepView for PlayFields<'a> {
    type V = PlayModel;

    open spec fn deep_view(&self) -> PlayModel {
        PlayModel {
            kind: self.kind,
            inning: self.inning,
            base: self.base,
            batter: self.batter.deep_view(),
            pitcher: self.pitcher.deep_view(),
            catcher: self.catcher.deep_view(),
            fielder: self.fielder.deep_view(),
            fielders: self.fielders.deep_view(),
            scoring_runner: self.scoring_runner.deep_view(),
            runner: self.runner.deep_view(),
            movements: self.movements.deep_view(),
        }
    }
}

impl<'a> View for PlayFields<'a> {
    type V = PlayModel;

    open spec fn view(&self) -> PlayModel {
        self.deep_view()
    }
}

impl PlayParts {
    /// The parts of a play of the given kind, none of them filled in.
    pub fn bare(kind: PlayKind, inning: Inning) -> (r: PlayParts)
        ensures
            r@ == PlayModel::bare(kind, inning),
    {
        PlayParts {
            kind,
            inning,
            base: None,
            batter: None,
            pitcher: None,
            catcher: None,
            fielder: None,
            fielders: None,
            scoring_runner: None,
            runner: None,
            movements: None,
        }
    }
}

impl<'a> PlayFields<'a> {
    /// The parts of a play of the given kind, none of them filled in.
    pub fn bare(kind: PlayKind, inning: Inning) -> (r: PlayFields<'a>)
        ensures
            r@ == PlayModel::bare(kind, inning),
    {
        PlayFields {
            kind,
            inning,
            base: None,
            batter: None,
            pitcher: None,
            catcher: None,
            fielder: None,
            fielders: None,
            scoring_runner: None,
            runner: None,
            movements: None,
        }
    }
}

impl Play {
    /// Puts a play together from parts that fit its kind.
    pub fn from_parts(parts: PlayParts) -> (r: Play)
        requires
            parts@.fits(),
        ensures
            r@ == parts@,
    {
        let PlayParts {
            kind,
            inning,
            base,
            batter,
            pitcher,
            catcher,
            fielder,
            fielders,
            scoring_runner,
            runner,
            movements,
        } = parts;
        match kind {
            PlayKind::Groundout => Play::Groundout {
                inning,
                batter: batter.unwrap(),
                pitcher: pitcher.unwrap(),
                fielders: fielders.unwrap(),
                movements: movements.unwrap(),
            },
            PlayKind::BuntGroundout => Play::BuntGroundout {
                inning,
                batter: batter.unwrap(),
                pitcher: pitcher.unwrap(),
                fielders: fielders.unwrap(),
                movements: movements.unwrap(),
            },
            PlayKind::Strikeout => Play::Strikeout {
                inning,
                batter: batter.unwrap(),
                pitcher: pitcher.unwrap(),
                movements: movements.unwrap(),
            },
            PlayKind::Lineout => Play::Lineout {
                inning,
                batter: batter.unwrap(),
                pitcher: pitcher.unwrap(),
                fielders: fielders.unwrap(),
                movements: movements.unwrap(),
            },
            PlayKind::BuntLineout => Play::BuntLineout {
                inning,
                batter: batter.unwrap(),
                pitcher: pitcher.unwrap(),
                fielders: fielders.unwrap(),
                movements: movements.unwrap(),
            },
            PlayKind::Flyout => Play::Flyout {
                inning,
                batter: batter.unwrap(),
                pitcher: pitcher.unwrap(),
                fielders: fielders.unwrap(),
                movements: movements.unwrap(),
            },
            PlayKind::PopOut => Play::PopOut {
                inning,
                batter: batter.unwrap(),
                pitcher: pitcher.unwrap(),
                fielders: fielders.unwrap(),
                movements: movements.unwrap(),
            },
            PlayKind::BuntPopOut => Play::BuntPopOut {
                inning,
                batter: batter.unwrap(),
                pitcher: pitcher.unwrap(),
                fielders: fielders.unwrap(),
                movements: movements.unwrap(),
            },
            PlayKind::Forceout => Play::Forceout {
                inning,
                batter: batter.unwrap(),
                pitcher: pitcher.unwrap(),
                fielders: fielders.unwrap(),
                movements: movements.unwrap(),
            },
            PlayKind::FieldersChoiceOut => Play::FieldersChoiceOut {
                inning,
                batter: batter.unwrap(),
                pitcher: pitcher.unwrap(),
                fielders: fielders.unwrap(),
                scoring_runner: scoring_runner.unwrap(),
                movements: movements.unwrap(),
            },
            PlayKind::DoublePlay => Play::DoublePlay {
                inning,
                batter: batter.unwrap(),
                pitcher: pitcher.unwrap(),
                fielders: fielders.unwrap(),
                movements: movements.unwrap(),
            },
            PlayKind::TriplePlay => Play::TriplePlay {
                inning,
                batter: batter.unwrap(),
                pitcher: pitcher.unwrap(),
                fielders: fielders.unwrap(),
                movements: movements.unwrap(),
            },
            PlayKind::RunnerDoublePlay => Play::RunnerDoublePlay {
                inning,
                batter: batter.unwrap(),
                pitcher: pitcher.unwrap(),
                fielders: fielders.unwrap(),
                movements: movements.unwrap(),
            },
            PlayKind::RunnerTriplePlay => Play::RunnerTriplePlay {
                inning,
                batter: batter.unwrap(),
                pitcher: pitcher.unwrap(),
                fielders: fielders.unwrap(),
                movements: movements.unwrap(),
            },
            PlayKind::GroundedIntoDoublePlay => Play::GroundedIntoDoublePlay {
                inning,
                batter: batter.unwrap(),
                pitcher: pitcher.unwrap(),
                fielders: fielders.unwrap(),
                movements: movements.unwrap(),
            },
            PlayKind::StrikeoutDoublePlay => Play::StrikeoutDoublePlay {
                inning,
                batter: batter.unwrap(),
                pitcher: pitcher.unwrap(),
                fielders: fielders.unwrap(),
                movements: movements.unwrap(),
            },
            PlayKind::Pickoff => Play::Pickoff {
                inning,
                base: base.unwrap(),
                runner: runner.unwrap(),
                fielders: fielders.unwrap(),
                movements: movements.unwrap(),
            },
            PlayKind::PickoffError => Play::PickoffError {
                inning,
                base: base.unwrap(),
                runner: runner.unwrap(),
                fielders: fielders.unwrap(),
                movements: movements.unwrap(),
            },
            PlayKind::CaughtStealing => Play::CaughtStealing {
                inning,
                base: base.unwrap(),
                runner: runner.unwrap(),
                fielders: fielders.unwrap(),
                movements: movements.unwrap(),
            },
            PlayKind::PickoffCaughtStealing => Play::PickoffCaughtStealing {
                inning,
                base: base.unwrap(),
                runner: runner.unwrap(),
                fielders: fielders.unwrap(),
                movements: movements.unwrap(),
            },
            PlayKind::WildPitch => Play::WildPitch {
                inning,
                pitcher: pitcher.unwrap(),
                runner: runner.unwrap(),
                movements: movements.unwrap(),
            },
            PlayKind::RunnerOut => Play::RunnerOut {
                inning,
                runner: runner.unwrap(),
                fielders: fielders.unwrap(),
                movements: movements.unwrap(),
            },
            PlayKind::FieldOut => Play::FieldOut {
                inning,
                fielder: fielder.unwrap(),
                runner: runner.unwrap(),
                movements: movements.unwrap(),
            },
            PlayKind::BatterOut => Play::BatterOut {
                inning,
                batter: batter.unwrap(),
                catcher: catcher.unwrap(),
                movements: movements.unwrap(),
            },
            PlayKind::Balk => Play::Balk {
                inning,
                pitcher: pitcher.unwrap(),
                movements: movements.unwrap(),
            },
            PlayKind::PassedBall => Play::PassedBall {
                inning,
                pitcher: pitcher.unwrap(),
                catcher: catcher.unwrap(),
                movements: movements.unwrap(),
            },
            PlayKind::Error => Play::Error {
                inning,
                pitcher: pitcher.unwrap(),
                catcher: catcher.unwrap(),
                movements: movements.unwrap(),
            },
            PlayKind::Single => Play::Single {
                inning,
                batter: batter.unwrap(),
                pitcher: pitcher.unwrap(),
                movements: movements.unwrap(),
            },
            PlayKind::Double => Play::Double {
                inning,
                batter: batter.unwrap(),
                pitcher: pitcher.unwrap(),
                movements: movements.unwrap(),
            },
            PlayKind::Triple => Play::Triple {
                inning,
                batter: batter.unwrap(),
                pitcher: pitcher.unwrap(),
                movements: movements.unwrap(),
            },
            PlayKind::HomeRun => Play::HomeRun {
                inning,
                batter: batter.unwrap(),
                pitcher: pitcher.unwrap(),
                movements: movements.unwrap(),
            },
            PlayKind::Walk => Play::Walk {
                inning,
                batter: batter.unwrap(),
                pitcher: pitcher.unwrap(),
                movements: movements.unwrap(),
            },
            PlayKind::IntentWalk => Play::IntentWalk {
                inning,
                batter: batter.unwrap(),
                pitcher: pitcher.unwrap(),
                movements: movements.unwrap(),
            },
            PlayKind::HitByPitch => Play::HitByPitch {
                inning,
                batter: batter.unwrap(),
                pitcher: pitcher.unwrap(),
                movements: movements.unwrap(),
            },
            PlayKind::FieldersChoice => Play::FieldersChoice {
                inning,
                batter: batter.unwrap(),
                pitcher: pitcher.unwrap(),
                fielders: fielders.unwrap(),
                movements: movements.unwrap(),
            },
            PlayKind::CatcherInterference => Play::CatcherInterference {
                inning,
                batter: batter.unwrap(),
                pitcher: pitcher.unwrap(),
                fielders: fielders.unwrap(),
                movements: movements.unwrap(),
            },
            PlayKind::StolenBase => Play::StolenBase {
                inning,
                base: base.unwrap(),
                runner: runner.unwrap(),
                movements: movements.unwrap(),
            },
            PlayKind::SacFly => Play::SacFly {
                inning,
                batter: batter.unwrap(),
                pitcher: pitcher.unwrap(),
                fielders: fielders.unwrap(),
                scoring_runner: scoring_runner.unwrap(),
                movements: movements.unwrap(),
            },
            PlayKind::SacFlyDoublePlay => Play::SacFlyDoublePlay {
                inning,
                batter: batter.unwrap(),
                pitcher: pitcher.unwrap(),
                fielders: fielders.unwrap(),
                scoring_runner: scoring_runner.unwrap(),
                movements: movements.unwrap(),
            },
            PlayKind::SacBunt => Play::SacBunt {
                inning,
                batter: batter.unwrap(),
                pitcher: pitcher.unwrap(),
                fielders: fielders.unwrap(),
                runner: runner.unwrap(),
                movements: movements.unwrap(),
            },
            PlayKind::SacBuntDoublePlay => Play::SacBuntDoublePlay {
                inning,
                batter: batter.unwrap(),
                pitcher: pitcher.unwrap(),
                fielders: fielders.unwrap(),
                runner: runner.unwrap(),
                movements: movements.unwrap(),
            },
            PlayKind::FieldError => Play::FieldError {
                inning,
                batter: batter.unwrap(),
                pitcher: pitcher.unwrap(),
                fielders: fielders.unwrap(),
                movements: movements.unwrap(),
            },
            PlayKind::GameAdvisory => Play::GameAdvisory {
                inning,
            },
            PlayKind::Ejection => Play::Ejection {
                inning,
                movements: movements.unwrap(),
            },
        }
    }

    /// The parts of the play.
    pub fn fields(&self) -> (r: PlayFields<'_>)
        ensures
            r@ == self@,
    {
        match self {
            Play::Groundout { inning, batter, pitcher, fielders, movements } => PlayFields {
                batter: Some(batter),
                pitcher: Some(pitcher),
                fielders: Some(fielders),
                movements: Some(movements),
                ..PlayFields::bare(PlayKind::Groundout, *inning)
            },
            Play::BuntGroundout { inning, batter, pitcher, fielders, movements } => PlayFields {
                batter: Some(batter),
                pitcher: Some(pitcher),
                fielders: Some(fielders),
                movements: Some(movements),
                ..PlayFields::bare(PlayKind::BuntGroundout, *inning)
            },
            Play::Strikeout { inning, batter, pitcher, movements } => PlayFields {
                batter: Some(batter),
                pitcher: Some(pitcher),
                movements: Some(movements),
                ..PlayFields::bare(PlayKind::Strikeout, *inning)
            },
            Play::Lineout { inning, batter, pitcher, fielders, movements } => PlayFields {
                batter: Some(batter),
                pitcher: Some(pitcher),
                fielders: Some(fielders),
                movements: Some(movements),
                ..PlayFields::bare(PlayKind::Lineout, *inning)
            },
            Play::BuntLineout { inning, batter, pitcher, fielders, movements } => PlayFields {
                batter: Some(batter),
                pitcher: Some(pitcher),
                fielders: Some(fielders),
                movements: Some(movements),
                ..PlayFields::bare(PlayKind::BuntLineout, *inning)
            },
            Play::Flyout { inning, batter, pitcher, fielders, movements } => PlayFields {
                batter: Some(batter),
                pitcher: Some(pitcher),
                fielders: Some(fielders),
                movements: Some(movements),
                ..PlayFields::bare(PlayKind::Flyout, *inning)
            },
            Play::PopOut { inning, batter, pitcher, fielders, movements } => PlayFields {
                batter: Some(batter),
                pitcher: Some(pitcher),
                fielders: Some(fielders),
                movements: Some(movements),
                ..PlayFields::bare(PlayKind::PopOut, *inning)
            },
            Play::BuntPopOut { inning, batter, pitcher, fielders, movements } => PlayFields {
                batter: Some(batter),
                pitcher: Some(pitcher),
                fielders: Some(fielders),
                movements: Some(movements),
                ..PlayFields::bare(PlayKind::BuntPopOut, *inning)
            },
            Play::Forceout { inning, batter, pitcher, fielders, movements } => PlayFields {
                batter: Some(batter),
                pitcher: Some(pitcher),
                fielders: Some(fielders),
                movements: Some(movements),
                ..PlayFields::bare(PlayKind::Forceout, *inning)
            },
            Play::FieldersChoiceOut { inning, batter, pitcher, fielders, scoring_runner, movements } => PlayFields {
                batter: Some(batter),
                pitcher: Some(pitcher),
                fielders: Some(fielders),
                scoring_runner: Some(scoring_runner),
                movements: Some(movements),
                ..PlayFields::bare(PlayKind::FieldersChoiceOut, *inning)
            },
            Play::DoublePlay { inning, batter, pitcher, fielders, movements } => PlayFields {
                batter: Some(batter),
                pitcher: Some(pitcher),
                fielders: Some(fielders),
                movements: Some(movements),
                ..PlayFields::bare(PlayKind::DoublePlay, *inning)
            },
            Play::TriplePlay { inning, batter, pitcher, fielders, movements } => PlayFields {
                batter: Some(batter),
                pitcher: Some(pitcher),
                fielders: Some(fielders),
                movements: Some(movements),
                ..PlayFields::bare(PlayKind::TriplePlay, *inning)
            },
            Play::RunnerDoublePlay { inning, batter, pitcher, fielders, movements } => PlayFields {
                batter: Some(batter),
                pitcher: Some(pitcher),
                fielders: Some(fielders),
                movements: Some(movements),
                ..PlayFields::bare(PlayKind::RunnerDoublePlay, *inning)
            },
            Play::RunnerTriplePlay { inning, batter, pitcher, fielders, movements } => PlayFields {
                batter: Some(batter),
                pitcher: Some(pitcher),
                fielders: Some(fielders),
                movements: Some(movements),
                ..PlayFields::bare(PlayKind::RunnerTriplePlay, *inning)
            },
            Play::GroundedIntoDoublePlay { inning, batter, pitcher, fielders, movements } => PlayFields {
                batter: Some(batter),
                pitcher: Some(pitcher),
                fielders: Some(fielders),
                movements: Some(movements),
                ..PlayFields::bare(PlayKind::GroundedIntoDoublePlay, *inning)
            },
            Play::StrikeoutDoublePlay { inning, batter, pitcher, fielders, movements } => PlayFields {
                batter: Some(batter),
                pitcher: Some(pitcher),
                fielders: Some(fielders),
                movements: Some(movements),
                ..PlayFields::bare(PlayKind::StrikeoutDoublePlay, *inning)
            },
            Play::Pickoff { inning, base, runner, fielders, movements } => PlayFields {
                base: Some(*base),
                runner: Some(runner),
                fielders: Some(fielders),
                movements: Some(movements),
                ..PlayFields::bare(PlayKind::Pickoff, *inning)
            },
            Play::PickoffError { inning, base, runner, fielders, movements } => PlayFields {
                base: Some(*base),
                runner: Some(runner),
                fielders: Some(fielders),
                movements: Some(movements),
                ..PlayFields::bare(PlayKind::PickoffError, *inning)
            },
            Play::CaughtStealing { inning, base, runner, fielders, movements } => PlayFields {
                base: Some(*base),
                runner: Some(runner),
                fielders: Some(fielders),
                movements: Some(movements),
                ..PlayFields::bare(PlayKind::CaughtStealing, *inning)
            },
            Play::PickoffCaughtStealing { inning, base, runner, fielders, movements } => PlayFields {
                base: Some(*base),
                runner: Some(runner),
                fielders: Some(fielders),
                movements: Some(movements),
                ..PlayFields::bare(PlayKind::PickoffCaughtStealing, *inning)
            },
            Play::WildPitch { inning, pitcher, runner, movements } => PlayFields {
                pitcher: Some(pitcher),
                runner: Some(runner),
                movements: Some(movements),
                ..PlayFields::bare(PlayKind::WildPitch, *inning)
            },
            Play::RunnerOut { inning, runner, fielders, movements } => PlayFields {
                runner: Some(runner),
                fielders: Some(fielders),
                movements: Some(movements),
                ..PlayFields::bare(PlayKind::RunnerOut, *inning)
            },
            Play::FieldOut { inning, fielder, runner, movements } => PlayFields {
                fielder: Some(fielder),
                runner: Some(runner),
                movements: Some(movements),
                ..PlayFields::bare(PlayKind::FieldOut, *inning)
            },
            Play::BatterOut { inning, batter, catcher, movements } => PlayFields {
                batter: Some(batter),
                catcher: Some(catcher),
                movements: Some(movements),
                ..PlayFields::bare(PlayKind::BatterOut, *inning)
            },
            Play::Balk { inning, pitcher, movements } => PlayFields {
                pitcher: Some(pitcher),
                movements: Some(movements),
                ..PlayFields::bare(PlayKind::Balk, *inning)
            },
            Play::PassedBall { inning, pitcher, catcher, movements } => PlayFields {
                pitcher: Some(pitcher),
                catcher: Some(catcher),
                movements: Some(movements),
                ..PlayFields::bare(PlayKind::PassedBall, *inning)
            },
            Play::Error { inning, pitcher, catcher, movements } => PlayFields {
                pitcher: Some(pitcher),
                catcher: Some(catcher),
                movements: Some(movements),
                ..PlayFields::bare(PlayKind::Error, *inning)
            },
            Play::Single { inning, batter, pitcher, movements } => PlayFields {
                batter: Some(batter),
                pitcher: Some(pitcher),
                movements: Some(movements),
                ..PlayFields::bare(PlayKind::Single, *inning)
            },
            Play::Double { inning, batter, pitcher, movements } => PlayFields {
                batter: Some(batter),
                pitcher: Some(pitcher),
                movements: Some(movements),
                ..PlayFields::bare(PlayKind::Double, *inning)
            },
            Play::Triple { inning, batter, pitcher, movements } => PlayFields {
                batter: Some(batter),
                pitcher: Some(pitcher),
                movements: Some(movements),
                ..PlayFields::bare(PlayKind::Triple, *inning)
            },
            Play::HomeRun { inning, batter, pitcher, movements } => PlayFields {
                batter: Some(batter),
                pitcher: Some(pitcher),
                movements: Some(movements),
                ..PlayFields::bare(PlayKind::HomeRun, *inning)
            },
            Play::Walk { inning, batter, pitcher, movements } => PlayFields {
                batter: Some(batter),
                pitcher: Some(pitcher),
                movements: Some(movements),
                ..PlayFields::bare(PlayKind::Walk, *inning)
            },
            Play::IntentWalk { inning, batter, pitcher, movements } => PlayFields {
                batter: Some(batter),
                pitcher: Some(pitcher),
                movements: Some(movements),
                ..PlayFields::bare(PlayKind::IntentWalk, *inning)
            },
            Play::HitByPitch { inning, batter, pitcher, movements } => PlayFields {
                batter: Some(batter),
                pitcher: Some(pitcher),
                movements: Some(movements),
                ..PlayFields::bare(PlayKind::HitByPitch, *inning)
            },
            Play::FieldersChoice { inning, batter, pitcher, fielders, movements } => PlayFields {
                batter: Some(batter),
                pitcher: Some(pitcher),
                fielders: Some(fielders),
                movements: Some(movements),
                ..PlayFields::bare(PlayKind::FieldersChoice, *inning)
            },
            Play::CatcherInterference { inning, batter, pitcher, fielders, movements } => PlayFields {
                batter: Some(batter),
                pitcher: Some(pitcher),
                fielders: Some(fielders),
                movements: Some(movements),
                ..PlayFields::bare(PlayKind::CatcherInterference, *inning)
            },
            Play::StolenBase { inning, base, runner, movements } => PlayFields {
                base: Some(*base),
                runner: Some(runner),
                movements: Some(movements),
                ..PlayFields::bare(PlayKind::StolenBase, *inning)
            },
            Play::SacFly { inning, batter, pitcher, fielders, scoring_runner, movements } => PlayFields {
                batter: Some(batter),
                pitcher: Some(pitcher),
                fielders: Some(fielders),
                scoring_runner: Some(scoring_runner),
                movements: Some(movements),
                ..PlayFields::bare(PlayKind::SacFly, *inning)
            },
            Play::SacFlyDoublePlay { inning, batter, pitcher, fielders, scoring_runner, movements } => PlayFields {
                batter: Some(batter),
                pitcher: Some(pitcher),
                fielders: Some(fielders),
                scoring_runner: Some(scoring_runner),
                movements: Some(movements),
                ..PlayFields::bare(PlayKind::SacFlyDoublePlay, *inning)
            },
            Play::SacBunt { inning, batter, pitcher, fielders, runner, movements } => PlayFields {
                batter: Some(batter),
                pitcher: Some(pitcher),
                fielders: Some(fielders),
                runner: Some(runner),
                movements: Some(movements),
                ..PlayFields::bare(PlayKind::SacBunt, *inning)
            },
            Play::SacBuntDoublePlay { inning, batter, pitcher, fielders, runner, movements } => PlayFields {
                batter: Some(batter),
                pitcher: Some(pitcher),
                fielders: Some(fielders),
                runner: Some(runner),
                movements: Some(movements),
                ..PlayFields::bare(PlayKind::SacBuntDoublePlay, *inning)
            },
            Play::FieldError { inning, batter, pitcher, fielders, movements } => PlayFields {
                batter: Some(batter),
                pitcher: Some(pitcher),
                fielders: Some(fielders),
                movements: Some(movements),
                ..PlayFields::bare(PlayKind::FieldError, *inning)
            },
            Play::GameAdvisory { inning } => PlayFields {
                ..PlayFields::bare(PlayKind::GameAdvisory, *inning)
            },
            Play::Ejection { inning, movements } => PlayFields {
                movements: Some(movements),
                ..PlayFields::bare(PlayKind::Ejection, *inning)
            },
        }
    }

    /// The kind of the play.
    pub fn kind(&self) -> (r: PlayKind)
        ensures
            r == self@.kind,
    {
        self.fields().kind
    }

    /// The half-inning of the play.
    pub fn inning(&self) -> (r: Inning)
        ensures
            r == self@.inning,
    {
        self.fields().inning
    }
}

} // verus!
