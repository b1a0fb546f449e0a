//! Reading the feed and box-score documents: which place of a document
//! gives which part of a record.

use vstd::prelude::*;
use vstd::string::*;
use crate::classify::classify;
use crate::context::{context_of, GameContext};
use crate::date::Date;
use crate::error::{ClassificationError, Field};
use crate::game::{game_of, Game};
use crate::inning::{inning_from, Inning};
use crate::json::{
    as_text, as_truth, as_unsigned, below, element, elements, entries, has_top, is_null,
    json_nodes, member, nowhere, top, Node, Step,
};
use crate::movement::{movement_of, Movement};
use crate::play::Play;
use crate::record::{
    agrees, BaseValue, BaseValueModel, BoxscoreRecord, BoxscoreRecordModel, FeedRecord,
    FeedRecordModel, MovementRecord, MovementRecordModel, PlayRecord, PlayRecordModel,
    PlayerRecord, PlayerRecordModel, RunnerRecord, RunnerRecordModel, TeamRecord,
    TeamRecordModel, WeatherRecord, WeatherRecordModel,
};
use crate::roster::{team_of, Team};
use crate::sequence::{lemma_try_map_err, lemma_try_map_step, try_map};
use crate::weather::{weather_of, Weather};

verus! {

/// The places of a document below a path, seen from there.
pub open spec fn under(m: Map<Seq<Step>, Node>, path: Seq<Step>) -> Map<Seq<Step>, Node> {
    Map::new(|p: Seq<Step>| m.contains_key(path + p), |p: Seq<Step>| m[path + p])
}

/// What stands at a place of a document: null where the document has no
/// such place.
pub open spec fn node_at(m: Map<Seq<Step>, Node>, path: Seq<Step>) -> Node {
    if m.contains_key(path) {
        m[path]
    } else {
        Node::Null
    }
}

/// The text at a place, if a text stands there.
pub open spec fn text_at(m: Map<Seq<Step>, Node>, path: Seq<Step>) -> Option<Seq<char>> {
    match node_at(m, path) {
        Node::Text(s) => Some(s),
        _ => None,
    }
}

/// The number at a place, if a number written as a non-negative integer of
/// at most 2^64 - 1 stands there.
pub open spec fn unsigned_at(m: Map<Seq<Step>, Node>, path: Seq<Step>) -> Option<u64> {
    match node_at(m, path) {
        Node::Number(Some(n)) => Some(n),
        _ => None,
    }
}

/// The truth value at a place, if one stands there.
pub open spec fn truth_at(m: Map<Seq<Step>, Node>, path: Seq<Step>) -> Option<bool> {
    match node_at(m, path) {
        Node::Bool(b) => Some(b),
        _ => None,
    }
}

/// What a place holds where a base is written.
pub open spec fn base_at(m: Map<Seq<Step>, Node>, path: Seq<Step>) -> BaseValueModel {
    match node_at(m, path) {
        Node::Null => BaseValueModel::Null,
        Node::Text(s) => BaseValueModel::Code(s),
        _ => BaseValueModel::Other,
    }
}

/// The path of one key.
pub open spec fn at1(a: Seq<char>) -> Seq<Step> {
    Seq::empty().push(Step::Key(a))
}

/// The path of two keys.
pub open spec fn at2(a: Seq<char>, b: Seq<char>) -> Seq<Step> {
    at1(a).push(Step::Key(b))
}

/// The path of three keys.
pub open spec fn at3(a: Seq<char>, b: Seq<char>, c: Seq<char>) -> Seq<Step> {
    at2(a, b).push(Step::Key(c))
}

/// `runners[].movement`.
pub open spec fn movement_record_of(m: Map<Seq<Step>, Node>) -> MovementRecordModel {
    MovementRecordModel {
        start: base_at(m, at1("start"@)),
        end: base_at(m, at1("end"@)),
        is_out: truth_at(m, at1("isOut"@)),
    }
}

/// One entry of `runners[]`.
pub open spec fn runner_record_of(m: Map<Seq<Step>, Node>) -> RunnerRecordModel {
    RunnerRecordModel {
        runner: text_at(m, at3("details"@, "runner"@, "fullName"@)),
        fielder: text_at(m, at3("details"@, "fielder"@, "fullName"@)),
        pitcher: text_at(m, at3("details"@, "pitcher"@, "fullName"@)),
        credit: unsigned_at(
            m,
            at1("credits"@).push(Step::Index(0)).push(Step::Key("player"@)).push(
                Step::Key("id"@),
            ),
        ),
        movement: movement_record_of(under(m, at1("movement"@))),
    }
}

/// The runner entries of a play record, if `runners` is a list.
pub open spec fn runner_records_of(m: Map<Seq<Step>, Node>) -> Option<Seq<RunnerRecordModel>> {
    match node_at(m, at1("runners"@)) {
        Node::Array(n) => Some(
            Seq::new(
                n,
                |i: int| runner_record_of(under(m, at1("runners"@).push(Step::Index(i as nat)))),
            ),
        ),
        _ => None,
    }
}

/// One entry of `liveData.plays.allPlays[]`.
pub open spec fn play_record_of(m: Map<Seq<Step>, Node>) -> PlayRecordModel {
    PlayRecordModel {
        event: text_at(m, at2("result"@, "event"@)),
        inning: unsigned_at(m, at2("about"@, "inning"@)),
        is_top_inning: truth_at(m, at2("about"@, "isTopInning"@)),
        batter: text_at(m, at3("matchup"@, "batter"@, "fullName"@)),
        pitcher: text_at(m, at3("matchup"@, "pitcher"@, "fullName"@)),
        catcher: text_at(m, at3("matchup"@, "catcher"@, "fullName"@)),
        runners: runner_records_of(m),
    }
}

/// `gameData.weather`.
pub open spec fn weather_record_of(m: Map<Seq<Step>, Node>) -> WeatherRecordModel {
    WeatherRecordModel {
        condition: text_at(m, at1("condition"@)),
        temp: text_at(m, at1("temp"@)),
        wind: text_at(m, at1("wind"@)),
    }
}

/// One entry of the `players` of a team block.
pub open spec fn player_record_of(m: Map<Seq<Step>, Node>) -> PlayerRecordModel {
    PlayerRecordModel {
        name: text_at(m, at2("person"@, "fullName"@)),
        abbreviation: text_at(m, at2("position"@, "abbreviation"@)),
    }
}

/// The player entries of a team block, if `players` is an object: one for
/// each key, in the order in which the object is walked.
pub open spec fn player_records_of(m: Map<Seq<Step>, Node>) -> Option<Seq<PlayerRecordModel>> {
    match node_at(m, at1("players"@)) {
        Node::Object(keys) => Some(
            Seq::new(
                keys.len(),
                |i: int| player_record_of(under(m, at1("players"@).push(Step::Key(keys[i])))),
            ),
        ),
        _ => None,
    }
}

/// `teams.home` or `teams.away` of a box score.
pub open spec fn team_record_of(m: Map<Seq<Step>, Node>) -> TeamRecordModel {
    TeamRecordModel {
        id: unsigned_at(m, at2("team"@, "id"@)),
        venue: text_at(m, at3("team"@, "venue"@, "name"@)),
        players: player_records_of(m),
    }
}

/// A box-score document.
pub open spec fn boxscore_record_of(m: Map<Seq<Step>, Node>) -> BoxscoreRecordModel {
    BoxscoreRecordModel {
        home: team_record_of(under(m, at2("teams"@, "home"@))),
        away: team_record_of(under(m, at2("teams"@, "away"@))),
    }
}

/// The play records of a feed, if `liveData.plays.allPlays` is a list.
pub open spec fn play_records_of(m: Map<Seq<Step>, Node>) -> Option<Seq<PlayRecordModel>> {
    match node_at(m, at3("liveData"@, "plays"@, "allPlays"@)) {
        Node::Array(n) => Some(
            Seq::new(
                n,
                |i: int|
                    play_record_of(
                        under(m, at3("liveData"@, "plays"@, "allPlays"@).push(Step::Index(i as nat))),
                    ),
            ),
        ),
        _ => None,
    }
}

/// A feed document.
pub open spec fn feed_record_of(m: Map<Seq<Step>, Node>) -> FeedRecordModel {
    FeedRecordModel {
        status: text_at(m, at3("gameData"@, "status"@, "detailedState"@)),
        date: text_at(m, at3("gameData"@, "datetime"@, "originalDate"@)),
        weather: weather_record_of(under(m, at2("gameData"@, "weather"@))),
        plays: play_records_of(m),
    }
}

/// The half-inning that the `about` part of a play names.
pub open spec fn inning_at(m: Map<Seq<Step>, Node>) -> Result<Inning, ClassificationError> {
    inning_from(unsigned_at(m, at1("inning"@)), truth_at(m, at1("isTopInning"@)))
}

/// The full name that a person document gives: `people[0].fullName`.
pub open spec fn person_name_of(m: Map<Seq<Step>, Node>) -> Option<Seq<char>> {
    text_at(m, at1("people"@).push(Step::Index(0)).push(Step::Key("fullName"@)))
}

/// The identifier of one game of a schedule: `gamePk`.
pub open spec fn game_pk_of() -> spec_fn(Map<Seq<Step>, Node>) -> Result<
    u64,
    ClassificationError,
> {
    |m: Map<Seq<Step>, Node>|
        match unsigned_at(m, at1("gamePk"@)) {
            Some(n) => Ok(n),
            None => Err(ClassificationError::MissingRequiredField(Field::GamePk)),
        }
}

/// The games of one date of a schedule, as documents: the items of `games`.
pub open spec fn games_at(m: Map<Seq<Step>, Node>, n: nat) -> Seq<Map<Seq<Step>, Node>> {
    Seq::new(n, |i: int| under(m, at1("games"@).push(Step::Index(i as nat))))
}

/// The identifiers of the games of one date of a schedule, in order.
pub open spec fn games_of_date(m: Map<Seq<Step>, Node>) -> Result<Seq<u64>, ClassificationError> {
    match node_at(m, at1("games"@)) {
        Node::Array(n) => try_map(games_at(m, n), game_pk_of()),
        _ => Err(ClassificationError::MissingRequiredField(Field::Games)),
    }
}

/// `games_of_date`, as a function value.
pub open spec fn date_games() -> spec_fn(Map<Seq<Step>, Node>) -> Result<
    Seq<u64>,
    ClassificationError,
> {
    |m: Map<Seq<Step>, Node>| games_of_date(m)
}

/// The dates of a schedule, as documents: the items of `dates`.
pub open spec fn dates_at(m: Map<Seq<Step>, Node>, n: nat) -> Seq<Map<Seq<Step>, Node>> {
    Seq::new(n, |i: int| under(m, at1("dates"@).push(Step::Index(i as nat))))
}

/// The identifiers of the games of a schedule, date by date, in order. A
/// schedule without a list of dates, a date without a list of games and a
/// game without an identifier are turned down.
pub open spec fn schedule_of(m: Map<Seq<Step>, Node>) -> Result<
    Seq<Seq<u64>>,
    ClassificationError,
> {
    match node_at(m, at1("dates"@)) {
        Node::Array(n) => try_map(dates_at(m, n), date_games()),
        _ => Err(ClassificationError::MissingRequiredField(Field::Dates)),
    }
}

proof fn lemma_under_top(m: Map<Seq<Step>, Node>)
    ensures
        under(m, Seq::empty()) == m,
{
    assert forall|p: Seq<Step>| Seq::<Step>::empty() + p == p by {
        assert(Seq::<Step>::empty() + p =~= p);
    }
    assert(under(m, Seq::empty()) =~= m);
}

proof fn lemma_under_push(m: Map<Seq<Step>, Node>, path: Seq<Step>, step: Step)
    ensures
        below(under(m, path), step) == under(m, path.push(step)),
{
    assert forall|p: Seq<Step>| path + (seq![step] + p) == path.push(step) + p by {
        assert(path + (seq![step] + p) =~= path.push(step) + p);
    }
    assert(below(under(m, path), step) =~= under(m, path.push(step)));
}

proof fn lemma_node_top(m: Map<Seq<Step>, Node>, path: Seq<Step>)
    ensures
        has_top(under(m, path)) == m.contains_key(path),
        m.contains_key(path) ==> top(under(m, path)) == m[path],
{
    assert(path + Seq::<Step>::empty() =~= path);
}

/// A place of a document, and the value that stands there if there is one.
struct Cursor<'a> {
    at: Option<&'a serde_json::Value>,
    doc: Ghost<Map<Seq<Step>, Node>>,
    path: Ghost<Seq<Step>>,
}

impl<'a> Cursor<'a> {
    spec fn wf(&self) -> bool {
        match self.at {
            Some(v) => json_nodes(*v) == under(self.doc@, self.path@),
            None => under(self.doc@, self.path@) == nowhere(),
        }
    }

    /// The top of a document.
    fn top(v: &'a serde_json::Value) -> (r: Cursor<'a>)
        ensures
            r.wf(),
            r.doc@ == json_nodes(*v),
            r.path@ == Seq::<Step>::empty(),
    {
        proof {
            lemma_under_top(json_nodes(*v));
        }
        Cursor { at: Some(v), doc: Ghost(json_nodes(*v)), path: Ghost(Seq::empty()) }
    }

    /// The same place, taken as the top of what is below it.
    fn here(&self) -> (r: Cursor<'a>)
        requires
            self.wf(),
        ensures
            r.wf(),
            r.doc@ == under(self.doc@, self.path@),
            r.path@ == Seq::<Step>::empty(),
    {
        proof {
            lemma_under_top(under(self.doc@, self.path@));
        }
        Cursor { at: self.at, doc: Ghost(under(self.doc@, self.path@)), path: Ghost(Seq::empty()) }
    }

    fn key(&self, key: &str) -> (r: Cursor<'a>)
        requires
            self.wf(),
        ensures
            r.wf(),
            r.doc@ == self.doc@,
            r.path@ == self.path@.push(Step::Key(key@)),
    {
        proof {
            lemma_under_push(self.doc@, self.path@, Step::Key(key@));
        }
        let at = match self.at {
            Some(v) => member(v, key),
            None => {
                assert(below(under(self.doc@, self.path@), Step::Key(key@)) =~= nowhere());
                None
            },
        };
        Cursor { at, doc: Ghost(self.doc@), path: Ghost(self.path@.push(Step::Key(key@))) }
    }

    fn index(&self, i: usize) -> (r: Cursor<'a>)
        requires
            self.wf(),
        ensures
            r.wf(),
            r.doc@ == self.doc@,
            r.path@ == self.path@.push(Step::Index(i as nat)),
    {
        proof {
            lemma_under_push(self.doc@, self.path@, Step::Index(i as nat));
        }
        let at = match self.at {
            Some(v) => element(v, i),
            None => {
                assert(below(under(self.doc@, self.path@), Step::Index(i as nat)) =~= nowhere());
                None
            },
        };
        Cursor { at, doc: Ghost(self.doc@), path: Ghost(self.path@.push(Step::Index(i as nat))) }
    }

    fn text(&self) -> (r: Option<String>)
        requires
            self.wf(),
        ensures
            r.deep_view() == text_at(self.doc@, self.path@),
    {
        proof {
            lemma_node_top(self.doc@, self.path@);
        }
        match self.at {
            Some(v) => match as_text(v) {
                Some(s) => Some(s.to_owned()),
                None => None,
            },
            None => None,
        }
    }

    fn unsigned(&self) -> (r: Option<u64>)
        requires
            self.wf(),
        ensures
            r == unsigned_at(self.doc@, self.path@),
    {
        proof {
            lemma_node_top(self.doc@, self.path@);
        }
        match self.at {
            Some(v) => as_unsigned(v),
            None => None,
        }
    }

    fn truth(&self) -> (r: Option<bool>)
        requires
            self.wf(),
        ensures
            r == truth_at(self.doc@, self.path@),
    {
        proof {
            lemma_node_top(self.doc@, self.path@);
        }
        match self.at {
            Some(v) => as_truth(v),
            None => None,
        }
    }

    fn base(&self) -> (r: BaseValue)
        requires
            self.wf(),
        ensures
            r@ == base_at(self.doc@, self.path@),
    {
        proof {
            lemma_node_top(self.doc@, self.path@);
        }
        match self.at {
            Some(v) => if is_null(v) {
                BaseValue::Null
            } else {
                match as_text(v) {
                    Some(s) => BaseValue::Code(s.to_owned()),
                    None => BaseValue::Other,
                }
            },
            None => BaseValue::Null,
        }
    }

    /// The items of the list at this place, if a list stands here.
    fn items(&self) -> (r: Option<&'a Vec<serde_json::Value>>)
        requires
            self.wf(),
        ensures
            match r {
                Some(items) => node_at(self.doc@, self.path@) == Node::Array(items@.len())
                    && forall|i: int|
                    0 <= i < items@.len() ==> json_nodes(#[trigger] items@[i]) == under(
                        self.doc@,
                        self.path@.push(Step::Index(i as nat)),
                    ),
                None => !(node_at(self.doc@, self.path@) is Array),
            },
    {
        proof {
            lemma_node_top(self.doc@, self.path@);
        }
        match self.at {
            Some(v) => {
                let r = elements(v);
                proof {
                    if r is Some {
                        let items = r->0;
                        assert forall|i: int| 0 <= i < items@.len() implies json_nodes(
                            #[trigger] items@[i],
                        ) == under(self.doc@, self.path@.push(Step::Index(i as nat))) by {
                            lemma_under_push(self.doc@, self.path@, Step::Index(i as nat));
                        }
                    }
                }
                r
            },
            None => None,
        }
    }

    /// The values of the object at this place, if an object stands here.
    fn values(&self) -> (r: Option<Vec<&'a serde_json::Value>>)
        requires
            self.wf(),
        ensures
            match r {
                Some(items) => node_at(self.doc@, self.path@) is Object && node_at(
                    self.doc@,
                    self.path@,
                )->Object_0.len() == items@.len() && forall|i: int|
                    0 <= i < items@.len() ==> json_nodes(*#[trigger] items@[i]) == under(
                        self.doc@,
                        self.path@.push(Step::Key(node_at(self.doc@, self.path@)->Object_0[i])),
                    ),
                None => !(node_at(self.doc@, self.path@) is Object),
            },
    {
        proof {
            lemma_node_top(self.doc@, self.path@);
        }
        match self.at {
            Some(v) => {
                let r = entries(v);
                proof {
                    if r is Some {
                        let items = r->0;
                        let keys = node_at(self.doc@, self.path@)->Object_0;
                        assert forall|i: int| 0 <= i < items@.len() implies json_nodes(
                            *#[trigger] items@[i],
                        ) == under(self.doc@, self.path@.push(Step::Key(keys[i]))) by {
                            lemma_under_push(self.doc@, self.path@, Step::Key(keys[i]));
                        }
                    }
                }
                r
            },
            None => None,
        }
    }
}

fn movement_record(c: &Cursor) -> (r: MovementRecord)
    requires
        c.wf(),
    ensures
        r@ == movement_record_of(under(c.doc@, c.path@)),
{
    let c = c.here();
    MovementRecord {
        start: c.key("start").base(),
        end: c.key("end").base(),
        is_out: c.key("isOut").truth(),
    }
}

fn runner_record(c: &Cursor) -> (r: RunnerRecord)
    requires
        c.wf(),
    ensures
        r@ == runner_record_of(under(c.doc@, c.path@)),
{
    let c = c.here();
    let details = c.key("details");
    RunnerRecord {
        runner: details.key("runner").key("fullName").text(),
        fielder: details.key("fielder").key("fullName").text(),
        pitcher: details.key("pitcher").key("fullName").text(),
        credit: c.key("credits").index(0).key("player").key("id").unsigned(),
        movement: movement_record(&c.key("movement")),
    }
}

fn weather_record(c: &Cursor) -> (r: WeatherRecord)
    requires
        c.wf(),
    ensures
        r@ == weather_record_of(under(c.doc@, c.path@)),
{
    let c = c.here();
    WeatherRecord {
        condition: c.key("condition").text(),
        temp: c.key("temp").text(),
        wind: c.key("wind").text(),
    }
}

fn player_record(c: &Cursor) -> (r: PlayerRecord)
    requires
        c.wf(),
    ensures
        r@ == player_record_of(under(c.doc@, c.path@)),
{
    let c = c.here();
    PlayerRecord {
        name: c.key("person").key("fullName").text(),
        abbreviation: c.key("position").key("abbreviation").text(),
    }
}

fn runner_records(c: &Cursor) -> (r: Option<Vec<RunnerRecord>>)
    requires
        c.wf(),
        c.path@ == Seq::<Step>::empty(),
    ensures
        r.deep_view() == runner_records_of(c.doc@),
{
    let list = c.key("runners");
    match list.items() {
        Some(items) => {
            let mut out: Vec<RunnerRecord> = Vec::new();
            let mut i: usize = 0;
            let ghost want = runner_records_of(c.doc@)->0;
            while i < items.len()
                invariant
                    i <= items.len(),
                    out.len() == i,
                    want.len() == items.len(),
                    forall|k: int|
                        0 <= k < items@.len() ==> runner_record_of(
                            json_nodes(#[trigger] items@[k]),
                        ) == want[k],
                    forall|k: int| 0 <= k < i ==> (#[trigger] out@[k])@ == want[k],
                decreases items.len() - i,
            {
                let one = RunnerRecord::from_value(&items[i]);
                out.push(one);
                i = i + 1;
            }
            assert(out.deep_view() =~= want);
            Some(out)
        },
        None => None,
    }
}

fn player_records(c: &Cursor) -> (r: Option<Vec<PlayerRecord>>)
    requires
        c.wf(),
        c.path@ == Seq::<Step>::empty(),
    ensures
        r.deep_view() == player_records_of(c.doc@),
{
    let list = c.key("players");
    match list.values() {
        Some(items) => {
            let mut out: Vec<PlayerRecord> = Vec::new();
            let mut i: usize = 0;
            let ghost want = player_records_of(c.doc@)->0;
            while i < items.len()
                invariant
                    i <= items.len(),
                    out.len() == i,
                    want.len() == items.len(),
                    forall|k: int|
                        0 <= k < items@.len() ==> player_record_of(
                            json_nodes(*#[trigger] items@[k]),
                        ) == want[k],
                    forall|k: int| 0 <= k < i ==> (#[trigger] out@[k])@ == want[k],
                decreases items.len() - i,
            {
                let one = PlayerRecord::from_value(items[i]);
                out.push(one);
                i = i + 1;
            }
            assert(out.deep_view() =~= want);
            Some(out)
        },
        None => None,
    }
}

fn team_record(c: &Cursor) -> (r: TeamRecord)
    requires
        c.wf(),
    ensures
        r@ == team_record_of(under(c.doc@, c.path@)),
{
    let c = c.here();
    let team = c.key("team");
    TeamRecord {
        id: team.key("id").unsigned(),
        venue: team.key("venue").key("name").text(),
        players: player_records(&c),
    }
}

fn play_records(c: &Cursor) -> (r: Option<Vec<PlayRecord>>)
    requires
        c.wf(),
        c.path@ == Seq::<Step>::empty(),
    ensures
        r.deep_view() == play_records_of(c.doc@),
{
    let list = c.key("liveData").key("plays").key("allPlays");
    match list.items() {
        Some(items) => {
            let mut out: Vec<PlayRecord> = Vec::new();
            let mut i: usize = 0;
            let ghost want = play_records_of(c.doc@)->0;
            while i < items.len()
                invariant
                    i <= items.len(),
                    out.len() == i,
                    want.len() == items.len(),
                    forall|k: int|
                        0 <= k < items@.len() ==> play_record_of(json_nodes(#[trigger] items@[k]))
                            == want[k],
                    forall|k: int| 0 <= k < i ==> (#[trigger] out@[k])@ == want[k],
                decreases items.len() - i,
            {
                let one = PlayRecord::from_value(&items[i]);
                out.push(one);
                i = i + 1;
            }
            assert(out.deep_view() =~= want);
            Some(out)
        },
        None => None,
    }
}

/// The full name that a person document gives.
pub fn person_name(person: &serde_json::Value) -> (r: Option<String>)
    ensures
        r.deep_view() == person_name_of(json_nodes(*person)),
{
    Cursor::top(person).key("people").index(0).key("fullName").text()
}

/// The identifiers of the games of one date of a schedule, in order.
pub fn date_game_pks(date: &serde_json::Value) -> (r: Result<Vec<u64>, ClassificationError>)
    ensures
        match games_of_date(json_nodes(*date)) {
            Ok(pks) => r is Ok && r->Ok_0@ == pks,
            Err(e) => r is Err && r->Err_0 == e,
        },
{
    let c = Cursor::top(date);
    let items = match c.key("games").items() {
        Some(items) => items,
        None => {
            return Err(ClassificationError::MissingRequiredField(Field::Games));
        },
    };
    let ghost all = games_at(c.doc@, items@.len());
    let mut out: Vec<u64> = Vec::new();
    let mut i: usize = 0;
    assert(all.take(0) =~= Seq::<Map<Seq<Step>, Node>>::empty());
    while i < items.len()
        invariant
            i <= items.len(),
            all == games_at(json_nodes(*date), items@.len()),
            node_at(json_nodes(*date), at1("games"@)) == Node::Array(items@.len()),
            forall|k: int| 0 <= k < items@.len() ==> json_nodes(#[trigger] items@[k]) == all[k],
            try_map(all.take(i as int), game_pk_of()) == Ok::<Seq<u64>, ClassificationError>(out@),
        decreases items.len() - i,
    {
        proof {
            lemma_try_map_step(all, game_pk_of(), i as int);
        }
        match Cursor::top(&items[i]).key("gamePk").unsigned() {
            Some(n) => {
                out.push(n);
            },
            None => {
                proof {
                    lemma_try_map_err(all, game_pk_of(), i + 1);
                }
                return Err(ClassificationError::MissingRequiredField(Field::GamePk));
            },
        }
        i = i + 1;
    }
    assert(all.take(i as int) =~= all);
    Ok(out)
}

/// The identifiers of the games of a schedule, date by date, in order.
pub fn schedule_game_pks(schedule: &serde_json::Value) -> (r: Result<
    Vec<Vec<u64>>,
    ClassificationError,
>)
    ensures
        match schedule_of(json_nodes(*schedule)) {
            Ok(pks) => r is Ok && r->Ok_0.deep_view() == pks,
            Err(e) => r is Err && r->Err_0 == e,
        },
{
    let c = Cursor::top(schedule);
    let items = match c.key("dates").items() {
        Some(items) => items,
        None => {
            return Err(ClassificationError::MissingRequiredField(Field::Dates));
        },
    };
    let ghost all = dates_at(c.doc@, items@.len());
    let mut out: Vec<Vec<u64>> = Vec::new();
    let mut i: usize = 0;
    assert(all.take(0) =~= Seq::<Map<Seq<Step>, Node>>::empty());
    assert(out.deep_view() =~= Seq::<Seq<u64>>::empty());
    while i < items.len()
        invariant
            i <= items.len(),
            all == dates_at(json_nodes(*schedule), items@.len()),
            node_at(json_nodes(*schedule), at1("dates"@)) == Node::Array(items@.len()),
            forall|k: int| 0 <= k < items@.len() ==> json_nodes(#[trigger] items@[k]) == all[k],
            try_map(all.take(i as int), date_games()) == Ok::<Seq<Seq<u64>>, ClassificationError>(
                out.deep_view(),
            ),
        decreases items.len() - i,
    {
        proof {
            lemma_try_map_step(all, date_games(), i as int);
        }
        match date_game_pks(&items[i]) {
            Ok(pks) => {
                let ghost before = out.deep_view();
                assert(pks.deep_view() =~= pks@);
                out.push(pks);
                assert(out.deep_view() =~= before.push(pks@));
            },
            Err(e) => {
                proof {
                    lemma_try_map_err(all, date_games(), i + 1);
                }
                return Err(e);
            },
        }
        i = i + 1;
    }
    assert(all.take(i as int) =~= all);
    Ok(out)
}

impl MovementRecord {
    /// Reads the `movement` part of a runner entry.
    pub fn from_value(value: &serde_json::Value) -> (r: MovementRecord)
        ensures
            r@ == movement_record_of(json_nodes(*value)),
    {
        let c = Cursor::top(value);
        proof {
            lemma_under_top(c.doc@);
        }
        movement_record(&c)
    }
}

impl RunnerRecord {
    /// Reads one entry of `runners[]`.
    pub fn from_value(value: &serde_json::Value) -> (r: RunnerRecord)
        ensures
            r@ == runner_record_of(json_nodes(*value)),
    {
        let c = Cursor::top(value);
        proof {
            lemma_under_top(c.doc@);
        }
        runner_record(&c)
    }
}

impl PlayRecord {
    /// Reads one entry of `liveData.plays.allPlays[]`.
    pub fn from_value(value: &serde_json::Value) -> (r: PlayRecord)
        ensures
            r@ == play_record_of(json_nodes(*value)),
    {
        let c = Cursor::top(value);
        let about = c.key("about");
        let matchup = c.key("matchup");
        PlayRecord {
            event: c.key("result").key("event").text(),
            inning: about.key("inning").unsigned(),
            is_top_inning: about.key("isTopInning").truth(),
            batter: matchup.key("batter").key("fullName").text(),
            pitcher: matchup.key("pitcher").key("fullName").text(),
            catcher: matchup.key("catcher").key("fullName").text(),
            runners: runner_records(&c),
        }
    }
}

impl WeatherRecord {
    /// Reads `gameData.weather`.
    pub fn from_value(value: &serde_json::Value) -> (r: WeatherRecord)
        ensures
            r@ == weather_record_of(json_nodes(*value)),
    {
        let c = Cursor::top(value);
        proof {
            lemma_under_top(c.doc@);
        }
        weather_record(&c)
    }
}

impl PlayerRecord {
    /// Reads one entry of the `players` of a team block.
    pub fn from_value(value: &serde_json::Value) -> (r: PlayerRecord)
        ensures
            r@ == player_record_of(json_nodes(*value)),
    {
        let c = Cursor::top(value);
        proof {
            lemma_under_top(c.doc@);
        }
        player_record(&c)
    }
}

impl TeamRecord {
    /// Reads `teams.home` or `teams.away` of a box score.
    pub fn from_value(value: &serde_json::Value) -> (r: TeamRecord)
        ensures
            r@ == team_record_of(json_nodes(*value)),
    {
        let c = Cursor::top(value);
        proof {
            lemma_under_top(c.doc@);
        }
        team_record(&c)
    }
}

impl BoxscoreRecord {
    /// Reads a box-score document.
    pub fn from_value(value: &serde_json::Value) -> (r: BoxscoreRecord)
        ensures
            r@ == boxscore_record_of(json_nodes(*value)),
    {
        let c = Cursor::top(value);
        let teams = c.key("teams");
        BoxscoreRecord { home: team_record(&teams.key("home")), away: team_record(&teams.key("away")) }
    }
}

impl FeedRecord {
    /// Reads a feed document.
    pub fn from_value(value: &serde_json::Value) -> (r: FeedRecord)
        ensures
            r@ == feed_record_of(json_nodes(*value)),
    {
        let c = Cursor::top(value);
        let data = c.key("gameData");
        FeedRecord {
            status: data.key("status").key("detailedState").text(),
            date: data.key("datetime").key("originalDate").text(),
            weather: weather_record(&data.key("weather")),
            plays: play_records(&c),
        }
    }
}

impl Inning {
    /// The half-inning that the `about` part of a play names.
    pub fn from_value(value: &serde_json::Value) -> (r: Result<Inning, ClassificationError>)
        ensures
            r == inning_at(json_nodes(*value)),
    {
        let c = Cursor::top(value);
        Inning::from_parts(c.key("inning").unsigned(), c.key("isTopInning").truth())
    }
}

impl Movement {
    /// The movement of the runner `runner` that the `movement` part of a
    /// runner entry describes.
    pub fn from_runner_and_value(runner: String, movement_value: &serde_json::Value) -> (r: Result<
        Movement,
        ClassificationError,
    >)
        ensures
            agrees(r, movement_of(runner@, movement_record_of(json_nodes(*movement_value)))),
            r is Ok ==> r->Ok_0@.wf(),
    {
        let rec = MovementRecord::from_value(movement_value);
        Movement::from_record(runner, &rec)
    }
}

impl Weather {
    /// The weather that `gameData.weather` describes.
    pub fn from_value(value: &serde_json::Value) -> (r: Result<Weather, ClassificationError>)
        ensures
            agrees(r, weather_of(weather_record_of(json_nodes(*value)))),
    {
        let rec = WeatherRecord::from_value(value);
        Weather::from_record(&rec)
    }
}

impl Team {
    /// The team that a team block of a box score describes.
    pub fn from_boxscore_team_data_and_date(team_data: &serde_json::Value) -> (r: Result<
        Team,
        ClassificationError,
    >)
        ensures
            agrees(r, team_of(team_record_of(json_nodes(*team_data)))),
    {
        let rec = TeamRecord::from_value(team_data);
        Team::from_record(&rec)
    }
}

impl GameContext {
    /// The context that a box-score document gives to a game with this
    /// date, weather and identifier.
    pub fn from_game_boxscore_data_and_date_and_weather_and_game_pk(
        game_data: &serde_json::Value,
        game_date: Date,
        weather: Weather,
        game_pk: usize,
    ) -> (r: Result<GameContext, ClassificationError>)
        ensures
            agrees(
                r,
                context_of(boxscore_record_of(json_nodes(*game_data)), game_date, weather@, game_pk),
            ),
    {
        let rec = BoxscoreRecord::from_value(game_data);
        GameContext::from_record(&rec, game_date, weather, game_pk)
    }
}

impl Play {
    /// Classifies one entry of `liveData.plays.allPlays[]`, given the names
    /// resolved for the identifiers that `lookups` lists for its record.
    pub fn from_value(value: &serde_json::Value, names: &Vec<Option<String>>) -> (r: Result<
        Play,
        ClassificationError,
    >)
        ensures
            agrees(r, classify(play_record_of(json_nodes(*value)), names.deep_view())),
            r is Ok ==> r->Ok_0@.wf(),
    {
        let rec = PlayRecord::from_value(value);
        Play::from_record(&rec, names)
    }
}

impl Game {
    /// Builds the game with the identifier `game_pk` from its feed document
    /// and its box-score document, given for each play the names resolved
    /// for the identifiers that `lookups` lists.
    pub fn from_game_pk(
        game_pk: usize,
        feed: &serde_json::Value,
        boxscore: &serde_json::Value,
        names: &Vec<Vec<Option<String>>>,
    ) -> (r: Result<Game, ClassificationError>)
        ensures
            agrees(
                r,
                game_of(
                    feed_record_of(json_nodes(*feed)),
                    boxscore_record_of(json_nodes(*boxscore)),
                    game_pk,
                    names.deep_view(),
                ),
            ),
            r is Ok ==> forall|k: int|
                0 <= k < r->Ok_0@.plays.len() ==> (#[trigger] r->Ok_0@.plays[k]).wf(),
    {
        let feed_record = FeedRecord::from_value(feed);
        let boxscore_record = BoxscoreRecord::from_value(boxscore);
        Game::from_records(&feed_record, &boxscore_record, game_pk, names)
    }
}

} // verus!
