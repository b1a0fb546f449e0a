//! A whole game: its context, and its plays in the order of the feed.

use vstd::prelude::*;
use vstd::string::*;
use crate::classify::{classify, wanted_ids};
use crate::context::{context_of, GameContext, GameContextModel};
use crate::date::{date_of, Date};
use crate::error::{ClassificationError, Field, Scalar};
use crate::play::{Play, PlayModel};
use crate::record::{
    agrees, BoxscoreRecord, BoxscoreRecordModel, FeedRecord, FeedRecordModel, PlayRecord,
    PlayRecordModel,
};
use crate::sequence::{
    lemma_try_map_err, lemma_try_map_fails, lemma_try_map_ok, lemma_try_map_step, try_map,
};
use crate::text::{decimal, push_decimal, text_eq};
use crate::weather::{weather_of, Weather};

verus! {

/// A game that reached its final state.
#[derive(Clone, Debug, PartialEq, Eq)]
pub struct Game {
    pub context: GameContext,
    pub plays: Vec<Play>,
}

/// A game as a mathematical value.
pub struct GameModel {
    pub context: GameContextModel,
    pub plays: Seq<PlayModel>,
}

impl DeepView for Game {
    type V = GameModel;

    open spec fn deep_view(&self) -> GameModel {
        GameModel { context: self.context@, plays: self.plays.deep_view() }
    }
}

impl View for Game {
    type V = GameModel;

    open spec fn view(&self) -> GameModel {
        self.deep_view()
    }
}

/// The names resolved for the play at position `i`: none where the list
/// ends before `i`.
pub open spec fn names_for(names: Seq<Seq<Option<Seq<char>>>>, i: int) -> Seq<
    Option<Seq<char>>,
> {
    if 0 <= i < names.len() {
        names[i]
    } else {
        Seq::empty()
    }
}

/// Each play record with the names resolved for it.
pub open spec fn with_names(plays: Seq<PlayRecordModel>, names: Seq<Seq<Option<Seq<char>>>>) -> Seq<
    (PlayRecordModel, Seq<Option<Seq<char>>>),
> {
    Seq::new(plays.len(), |i: int| (plays[i], names_for(names, i)))
}

/// `classify`, on a record paired with its names.
pub open spec fn classify_pair() -> spec_fn((PlayRecordModel, Seq<Option<Seq<char>>>)) -> Result<
    PlayModel,
    ClassificationError,
> {
    |p: (PlayRecordModel, Seq<Option<Seq<char>>>)| classify(p.0, p.1)
}

/// The identifiers whose names the play at each position needs; none for a
/// record that is ruled out before any lookup.
pub open spec fn wanted_of(plays: Seq<PlayRecordModel>) -> Seq<Seq<u64>> {
    Seq::new(
        plays.len(),
        |i: int|
            match wanted_ids(plays[i]) {
                Ok(ids) => ids,
                Err(e) => Seq::empty(),
            },
    )
}

/// The game that a feed document and a box-score document describe, given
/// for each play the names resolved for its identifiers.
///
/// Only a game whose state is `Final` is taken. Then come, in this order and
/// each deciding the error if it fails: the date, the plays from first to
/// last, the weather, the context. One play that cannot be classified
/// discards the whole game.
pub open spec fn game_of(
    feed: FeedRecordModel,
    boxscore: BoxscoreRecordModel,
    game_pk: usize,
    names: Seq<Seq<Option<Seq<char>>>>,
) -> Result<GameModel, ClassificationError> {
    if feed.status != Some("Final"@) {
        Err(ClassificationError::NotFinal)
    } else {
        match feed.date {
            None => Err(ClassificationError::MissingRequiredField(Field::Date)),
            Some(written) => match date_of(written) {
                None => Err(ClassificationError::MalformedScalar(Scalar::Date)),
                Some(date) => match feed.plays {
                    None => Err(ClassificationError::MissingRequiredField(Field::Plays)),
                    Some(records) => match try_map(with_names(records, names), classify_pair()) {
                        Err(e) => Err(e),
                        Ok(plays) => match weather_of(feed.weather) {
                            Err(e) => Err(e),
                            Ok(weather) => match context_of(boxscore, date, weather, game_pk) {
                                Err(e) => Err(e),
                                Ok(context) => Ok(GameModel { context, plays }),
                            },
                        },
                    },
                },
            },
        }
    }
}

/// One play that cannot be classified discards the whole game.
pub proof fn lemma_failed_play_discards_game(
    feed: FeedRecordModel,
    boxscore: BoxscoreRecordModel,
    game_pk: usize,
    names: Seq<Seq<Option<Seq<char>>>>,
    k: int,
)
    requires
        feed.plays is Some,
        0 <= k < feed.plays->0.len(),
        classify(feed.plays->0[k], names_for(names, k)) is Err,
    ensures
        game_of(feed, boxscore, game_pk, names) is Err,
{
    let pairs = with_names(feed.plays->0, names);
    assert(classify_pair()(pairs[k]) is Err);
    lemma_try_map_fails(pairs, classify_pair(), k);
}

/// A game that is built holds one play for each record of the feed, in the
/// order of the feed, each classified from its record and its names.
pub proof fn lemma_game_keeps_order(
    feed: FeedRecordModel,
    boxscore: BoxscoreRecordModel,
    game_pk: usize,
    names: Seq<Seq<Option<Seq<char>>>>,
)
    requires
        game_of(feed, boxscore, game_pk, names) is Ok,
    ensures
        feed.plays is Some,
        game_of(feed, boxscore, game_pk, names)->Ok_0.plays.len() == feed.plays->0.len(),
        forall|k: int|
            0 <= k < feed.plays->0.len() ==> classify(
                #[trigger] feed.plays->0[k],
                names_for(names, k),
            ) == Ok::<PlayModel, ClassificationError>(
                game_of(feed, boxscore, game_pk, names)->Ok_0.plays[k],
            ),
{
    let pairs = with_names(feed.plays->0, names);
    lemma_try_map_ok(pairs, classify_pair());
    let plays = game_of(feed, boxscore, game_pk, names)->Ok_0.plays;
    assert forall|k: int| 0 <= k < feed.plays->0.len() implies classify(
        #[trigger] feed.plays->0[k],
        names_for(names, k),
    ) == Ok::<PlayModel, ClassificationError>(plays[k]) by {
        assert(classify_pair()(pairs[k]) == Ok::<PlayModel, ClassificationError>(plays[k]));
    }
}

/// The directory in which a game is kept: `data`, the year, the home team.
pub open spec fn directory_text(g: GameModel) -> Seq<char> {
    "data/"@ + decimal(g.context.date.year as nat) + "/"@ + decimal(g.context.home_team.id as nat)
}

/// The file in which a game is kept: in its directory, named by the game's
/// identifier.
pub open spec fn file_text(g: GameModel, game_pk: usize) -> Seq<char> {
    directory_text(g) + "/"@ + decimal(game_pk as nat) + ".json"@
}

impl Game {
    /// Whether a feed says that its game reached its final state. Only such
    /// a game is built.
    pub fn is_final(feed: &FeedRecord) -> (r: bool)
        ensures
            r == (feed@.status == Some("Final"@)),
    {
        match &feed.status {
            Some(s) => text_eq(s.as_str(), "Final"),
            None => false,
        }
    }

    /// For each play of a feed, the identifiers whose names must be
    /// resolved before the game can be built.
    pub fn lookups(plays: &Vec<PlayRecord>) -> (r: Vec<Vec<u64>>)
        ensures
            r.deep_view() == wanted_of(plays.deep_view()),
    {
        let mut out: Vec<Vec<u64>> = Vec::new();
        let mut i: usize = 0;
        let ghost all = plays.deep_view();
        while i < plays.len()
            invariant
                i <= plays.len(),
                all == plays.deep_view(),
                out.len() == i,
                forall|k: int| 0 <= k < i ==> (#[trigger] out[k]).deep_view() == wanted_of(all)[k],
            decreases plays.len() - i,
        {
            let ids = match Play::lookups(&plays[i]) {
                Ok(ids) => ids,
                Err(_) => Vec::new(),
            };
            assert(all[i as int] == plays[i as int]@);
            assert(ids.deep_view() =~= ids@);
            out.push(ids);
            i = i + 1;
        }
        assert(out.deep_view() =~= wanted_of(all));
        out
    }

    /// Classifies the plays of a feed from first to last, each with the names
    /// resolved for it. The first play that fails decides the error.
    pub fn classify_all(records: &Vec<PlayRecord>, names: &Vec<Vec<Option<String>>>) -> (r: Result<
        Vec<Play>,
        ClassificationError,
    >)
        ensures
            match try_map(with_names(records.deep_view(), names.deep_view()), classify_pair()) {
                Ok(plays) => r is Ok && r->Ok_0.deep_view() == plays,
                Err(e) => r is Err && r->Err_0 == e,
            },
            r is Ok ==> forall|k: int|
                0 <= k < r->Ok_0.deep_view().len() ==> (#[trigger] r->Ok_0.deep_view()[k]).wf(),
    {
        let mut plays: Vec<Play> = Vec::new();
        let mut i: usize = 0;
        let none: Vec<Option<String>> = Vec::new();
        let ghost pairs = with_names(records.deep_view(), names.deep_view());
        assert(pairs.take(0) =~= Seq::<(PlayRecordModel, Seq<Option<Seq<char>>>)>::empty());
        assert(plays.deep_view() =~= Seq::<PlayModel>::empty());
        assert(none.deep_view() =~= Seq::<Option<Seq<char>>>::empty());
        while i < records.len()
            invariant
                i <= records.len(),
                pairs == with_names(records.deep_view(), names.deep_view()),
                none.deep_view() == Seq::<Option<Seq<char>>>::empty(),
                try_map(pairs.take(i as int), classify_pair()) == Ok::<
                    Seq<PlayModel>,
                    ClassificationError,
                >(plays.deep_view()),
                forall|k: int|
                    0 <= k < plays.deep_view().len() ==> (#[trigger] plays.deep_view()[k]).wf(),
            decreases records.len() - i,
        {
            let given = if i < names.len() {
                &names[i]
            } else {
                &none
            };
            proof {
                lemma_try_map_step(pairs, classify_pair(), i as int);
                assert(pairs[i as int] == (records[i as int]@, given.deep_view()));
            }
            match Play::from_record(&records[i], given) {
                Ok(p) => {
                    let ghost before = plays.deep_view();
                    plays.push(p);
                    assert(plays.deep_view() =~= before.push(p@));
                },
                Err(e) => {
                    proof {
                        lemma_try_map_err(pairs, classify_pair(), i + 1);
                    }
                    return Err(e);
                },
            }
            i = i + 1;
        }
        assert(pairs.take(i as int) =~= pairs);
        Ok(plays)
    }

    /// Builds the game that a feed document and a box-score document
    /// describe, given for each play the names resolved for its identifiers
    /// (see `lookups`). Either the whole game is built or none of it.
    pub fn from_records(
        feed: &FeedRecord,
        boxscore: &BoxscoreRecord,
        game_pk: usize,
        names: &Vec<Vec<Option<String>>>,
    ) -> (r: Result<Game, ClassificationError>)
        ensures
            agrees(r, game_of(feed@, boxscore@, game_pk, names.deep_view())),
            r is Ok ==> forall|k: int|
                0 <= k < r->Ok_0@.plays.len() ==> (#[trigger] r->Ok_0@.plays[k]).wf(),
    {
        if !Game::is_final(feed) {
            return Err(ClassificationError::NotFinal);
        }
        let written = match &feed.date {
            Some(d) => d,
            None => {
                return Err(ClassificationError::MissingRequiredField(Field::Date));
            },
        };
        let date = match Date::parse(written.as_str()) {
            Ok(d) => d,
            Err(e) => {
                return Err(e);
            },
        };
        let records = match &feed.plays {
            Some(ps) => ps,
            None => {
                return Err(ClassificationError::MissingRequiredField(Field::Plays));
            },
        };
        let plays = match Game::classify_all(records, names) {
            Ok(ps) => ps,
            Err(e) => {
                return Err(e);
            },
        };
        let weather = match Weather::from_record(&feed.weather) {
            Ok(w) => w,
            Err(e) => {
                return Err(e);
            },
        };
        match GameContext::from_record(boxscore, date, weather, game_pk) {
            Ok(context) => Ok(Game { context, plays }),
            Err(e) => Err(e),
        }
    }

    /// Whether the team with this identifier played in the game, at home
    /// or away.
    pub fn involves(&self, team_id: u8) -> (r: bool)
        ensures
            r == (self@.context.home_team.id == team_id || self@.context.away_team.id == team_id),
    {
        self.context.home_team.id == team_id || self.context.away_team.id == team_id
    }

    /// The directory in which the game is kept.
    pub fn directory(&self) -> (r: String)
        ensures
            r@ == directory_text(self@),
    {
        let mut r = String::from_str("data/");
        push_decimal(&mut r, self.context.date.year as u64);
        r.append("/");
        push_decimal(&mut r, self.context.home_team.id as u64);
        r
    }

    /// The file in which the game is kept under the identifier `game_pk`.
    pub fn file(&self, game_pk: usize) -> (r: String)
        ensures
            r@ == file_text(self@, game_pk),
    {
        let mut r = self.directory();
        r.append("/");
        push_decimal(&mut r, game_pk as u64);
        r.append(".json");
        r
    }
}

} // verus!
