//! The flat-field encoding: one line for each entity, its parts under
//! bracketed labels, and no indentation.

use vstd::prelude::*;
use vstd::string::*;
use crate::context::{GameContext, GameContextModel};
use crate::date::{date_text, Date};
use crate::game::{Game, GameModel};
use crate::inning::{inning_text, Inning};
use crate::movement::{Movement, MovementModel};
use crate::play::{Play, PlayKind, PlayModel};
use crate::position::position_text;
use crate::roster::{Player, PlayerModel, Team, TeamModel};
use crate::text::{decimal, push_decimal};
use crate::weather::{Weather, WeatherModel};

verus! {

/// A value that has a flat-field encoding.
pub trait Preprocess {
    /// The flat-field encoding of the value: a function of the value alone.
    spec fn flat(&self) -> Seq<char>;

    /// Writes the flat-field encoding of the value.
    fn preprocess(&self) -> (r: String)
        ensures
            r@ == self.flat(),
    ;
}

/// A base as the flat-field encoding writes it: no base is `home`.
pub open spec fn base_text(b: Option<u8>) -> Seq<char> {
    match b {
        Some(n) => decimal(n as nat),
        None => "home"@,
    }
}

/// `[out]` after a space for a runner who was put out, else nothing.
pub open spec fn out_text(is_out: bool) -> Seq<char> {
    if is_out {
        " [out]"@
    } else {
        Seq::empty()
    }
}

/// A movement: the runner, then the start and the end with an arrow between.
pub open spec fn movement_flat(m: MovementModel) -> Seq<char> {
    m.runner + " "@ + base_text(m.start_base) + " -> "@ + base_text(m.end_base) + out_text(
        m.is_out,
    )
}

/// Texts in their order with a comma and a space between each two.
pub open spec fn joined(items: Seq<Seq<char>>) -> Seq<char>
    decreases items.len(),
{
    if items.len() == 0 {
        Seq::empty()
    } else if items.len() == 1 {
        items[0]
    } else {
        joined(items.drop_last()) + ", "@ + items.last()
    }
}

/// The flat-field encodings of movements, in their order.
pub open spec fn movement_texts(ms: Seq<MovementModel>) -> Seq<Seq<char>> {
    Seq::new(ms.len(), |i: int| movement_flat(ms[i]))
}

/// What follows the label of a list: nothing for an empty list, else a space
/// and the items.
pub open spec fn listed(items: Seq<Seq<char>>) -> Seq<char> {
    if items.len() == 0 {
        Seq::empty()
    } else {
        " "@ + joined(items)
    }
}

/// A labelled section for a part that is present, nothing for one that is
/// not.
pub open spec fn section(label: Seq<char>, value: Option<Seq<char>>) -> Seq<char> {
    match value {
        Some(v) => label + v,
        None => Seq::empty(),
    }
}

/// A labelled section for a list that is present.
pub open spec fn list_section(label: Seq<char>, items: Option<Seq<Seq<char>>>) -> Seq<char> {
    match items {
        Some(v) => label + listed(v),
        None => Seq::empty(),
    }
}

/// The base of a play, in digits, where it has one.
pub open spec fn base_digits(b: Option<u8>) -> Option<Seq<char>> {
    match b {
        Some(n) => Some(decimal(n as nat)),
        None => None,
    }
}

/// The movement texts of a play that has movements.
pub open spec fn movement_items(ms: Option<Seq<MovementModel>>) -> Option<Seq<Seq<char>>> {
    match ms {
        Some(v) => Some(movement_texts(v)),
        None => None,
    }
}

/// A play: its kind in words and its half-inning, then each part that the
/// play holds under its label, always in this order: base, batter, pitcher,
/// catcher, fielder, fielders, scoring runner, runner, movements.
pub open spec fn play_flat(p: PlayModel) -> Seq<char> {
    play_head(p) + section(" [BATTER] "@, p.batter) + section(" [PITCHER] "@, p.pitcher) + section(
        " [CATCHER] "@,
        p.catcher,
    ) + section(" [FIELDER] "@, p.fielder) + list_section(" [FIELDERS]"@, p.fielders) + section(
        " [SCORING_RUNNER] "@,
        p.scoring_runner,
    ) + section(" [RUNNER] "@, p.runner) + list_section(
        " [MOVEMENTS]"@,
        movement_items(p.movements),
    )
}

/// A player: the role in brackets, then the name.
pub open spec fn player_flat(p: PlayerModel) -> Seq<char> {
    "["@ + position_text(p.position) + "] "@ + p.name
}

/// The players of a roster, a line each.
pub open spec fn players_flat(ps: Seq<PlayerModel>) -> Seq<char>
    decreases ps.len(),
{
    if ps.len() == 0 {
        Seq::empty()
    } else {
        players_flat(ps.drop_last()) + player_flat(ps.last()) + "\n"@
    }
}

/// A team: a line with its identifier, then its players.
pub open spec fn team_flat(t: TeamModel) -> Seq<char> {
    "[TEAM] "@ + decimal(t.id as nat) + "\n"@ + players_flat(t.players)
}

/// The weather: condition, temperature and wind speed.
pub open spec fn weather_flat(w: WeatherModel) -> Seq<char> {
    "[WEATHER] "@ + w.condition + " "@ + decimal(w.temperature as nat) + " "@ + decimal(
        w.wind_speed as nat,
    )
}

/// The context: a line with the game's identifier, date, venue and weather,
/// an empty line, the home team, an empty line, the away team.
pub open spec fn context_flat(c: GameContextModel) -> Seq<char> {
    decimal(c.game_pk as nat) + " [DATE] "@ + date_text(c.date) + " [VENUE] "@ + c.venue_name
        + " "@ + weather_flat(c.weather) + "\n\n"@ + team_flat(c.home_team) + "\n"@ + team_flat(
        c.away_team,
    )
}

/// The plays of a game, a line each.
pub open spec fn plays_flat(ps: Seq<PlayModel>) -> Seq<char>
    decreases ps.len(),
{
    if ps.len() == 0 {
        Seq::empty()
    } else {
        plays_flat(ps.drop_last()) + play_flat(ps.last()) + "\n"@
    }
}

/// A game: the context, then the plays between a start and an end mark.
pub open spec fn game_flat(g: GameModel) -> Seq<char> {
    "[GAME] "@ + context_flat(g.context) + "\n[GAME_START]\n"@ + plays_flat(g.plays)
        + "[GAME_END]\n"@
}

/// The encoding is a function of the value: two games that are the same
/// value have the same text.
pub proof fn lemma_flat_of_value(a: Game, b: Game)
    requires
        a@ == b@,
    ensures
        a.flat() == b.flat(),
{
}

fn push_base(out: &mut String, b: Option<u8>)
    ensures
        final(out)@ == old(out)@ + base_text(b),
{
    match b {
        Some(n) => push_decimal(out, n as u64),
        None => out.append("home"),
    }
}

fn push_movement(out: &mut String, m: &Movement)
    ensures
        final(out)@ == old(out)@ + movement_flat(m@),
{
    let ghost start = out@;
    out.append(m.runner.as_str());
    out.append(" ");
    push_base(out, m.start_base);
    out.append(" -> ");
    push_base(out, m.end_base);
    if m.is_out {
        out.append(" [out]");
    }
    assert(out@ =~= start + movement_flat(m@));
}

fn push_section(out: &mut String, label: &str, value: Option<&String>)
    ensures
        final(out)@ == old(out)@ + section(label@, value.deep_view()),
{
    let ghost start = out@;
    match value {
        Some(v) => {
            out.append(label);
            out.append(v.as_str());
        },
        None => {},
    }
    assert(out@ =~= start + section(label@, value.deep_view()));
}

fn push_names(out: &mut String, label: &str, items: Option<&Vec<String>>)
    ensures
        final(out)@ == old(out)@ + list_section(label@, items.deep_view()),
{
    let ghost start = out@;
    match items {
        Some(v) => {
            out.append(label);
            let ghost all = v.deep_view();
            let ghost head = out@;
            let mut i: usize = 0;
            while i < v.len()
                invariant
                    i <= v.len(),
                    all == v.deep_view(),
                    out@ == head + listed(all.take(i as int)),
                decreases v.len() - i,
            {
                proof {
                    assert(all.take(i + 1).drop_last() =~= all.take(i as int));
                    assert(all.take(i + 1).last() == v[i as int]@);
                }
                if i == 0 {
                    out.append(" ");
                } else {
                    out.append(", ");
                }
                out.append(v[i].as_str());
                i = i + 1;
                assert(out@ =~= head + listed(all.take(i as int)));
            }
            assert(all.take(i as int) =~= all);
            assert(out@ =~= start + list_section(label@, items.deep_view()));
        },
        None => {
            assert(out@ =~= start + list_section(label@, items.deep_view()));
        },
    }
}

fn push_movements(out: &mut String, label: &str, items: Option<&Vec<Movement>>)
    ensures
        final(out)@ == old(out)@ + list_section(label@, movement_items(items.deep_view())),
{
    let ghost start = out@;
    match items {
        Some(v) => {
            out.append(label);
            let ghost all = movement_texts(v.deep_view());
            let ghost head = out@;
            let mut i: usize = 0;
            while i < v.len()
                invariant
                    i <= v.len(),
                    all == movement_texts(v.deep_view()),
                    all.len() == v.len(),
                    out@ == head + listed(all.take(i as int)),
                decreases v.len() - i,
            {
                proof {
                    assert(all.take(i + 1).drop_last() =~= all.take(i as int));
                    assert(all.take(i + 1).last() == movement_flat(v[i as int]@));
                }
                if i == 0 {
                    out.append(" ");
                } else {
                    out.append(", ");
                }
                push_movement(out, &v[i]);
                i = i + 1;
                assert(out@ =~= head + listed(all.take(i as int)));
            }
            assert(all.take(i as int) =~= all);
            assert(out@ =~= start + list_section(label@, movement_items(items.deep_view())));
        },
        None => {
            assert(out@ =~= start + list_section(label@, movement_items(items.deep_view())));
        },
    }
}

/// Appending is associative.
proof fn lemma_append(a: Seq<char>, b: Seq<char>, c: Seq<char>)
    ensures
        (a + b) + c == a + (b + c),
{
    assert((a + b) + c =~= a + (b + c));
}

/// The kind and the half-inning of a play, and its base if it has one.
pub open spec fn play_head(p: PlayModel) -> Seq<char> {
    "[PLAY] "@ + p.kind.label_text() + " [INNING] "@ + inning_text(p.inning) + section(
        " [BASE] "@,
        base_digits(p.base),
    )
}

fn push_play_head(out: &mut String, kind: PlayKind, inning: Inning, base: Option<u8>)
    ensures
        final(out)@ == old(out)@ + ("[PLAY] "@ + kind.label_text() + " [INNING] "@ + inning_text(
            inning,
        ) + section(" [BASE] "@, base_digits(base))),
{
    let ghost start = out@;
    out.append("[PLAY] ");
    out.append(kind.label());
    out.append(" [INNING] ");
    let text = inning.to_string();
    out.append(text.as_str());
    match base {
        Some(n) => {
            out.append(" [BASE] ");
            push_decimal(out, n as u64);
        },
        None => {},
    }
    assert(out@ =~= start + ("[PLAY] "@ + kind.label_text() + " [INNING] "@ + inning_text(inning)
        + section(" [BASE] "@, base_digits(base))));
}

fn push_play(out: &mut String, play: &Play)
    ensures
        final(out)@ == old(out)@ + play_flat(play@),
{
    let ghost start = out@;
    let ghost p = play@;
    let f = play.fields();
    push_play_head(out, f.kind, f.inning, f.base);
    let ghost t0 = play_head(p);
    assert(out@ == start + t0);
    push_section(out, " [BATTER] ", f.batter);
    let ghost t1 = t0 + section(" [BATTER] "@, p.batter);
    proof {
        lemma_append(start, t0, section(" [BATTER] "@, p.batter));
    }
    assert(out@ == start + t1);
    push_section(out, " [PITCHER] ", f.pitcher);
    let ghost t2 = t1 + section(" [PITCHER] "@, p.pitcher);
    proof {
        lemma_append(start, t1, section(" [PITCHER] "@, p.pitcher));
    }
    assert(out@ == start + t2);
    push_section(out, " [CATCHER] ", f.catcher);
    let ghost t3 = t2 + section(" [CATCHER] "@, p.catcher);
    proof {
        lemma_append(start, t2, section(" [CATCHER] "@, p.catcher));
    }
    assert(out@ == start + t3);
    push_section(out, " [FIELDER] ", f.fielder);
    let ghost t4 = t3 + section(" [FIELDER] "@, p.fielder);
    proof {
        lemma_append(start, t3, section(" [FIELDER] "@, p.fielder));
    }
    assert(out@ == start + t4);
    push_names(out, " [FIELDERS]", f.fielders);
    let ghost t5 = t4 + list_section(" [FIELDERS]"@, p.fielders);
    proof {
        lemma_append(start, t4, list_section(" [FIELDERS]"@, p.fielders));
    }
    assert(out@ == start + t5);
    push_section(out, " [SCORING_RUNNER] ", f.scoring_runner);
    let ghost t6 = t5 + section(" [SCORING_RUNNER] "@, p.scoring_runner);
    proof {
        lemma_append(start, t5, section(" [SCORING_RUNNER] "@, p.scoring_runner));
    }
    assert(out@ == start + t6);
    push_section(out, " [RUNNER] ", f.runner);
    let ghost t7 = t6 + section(" [RUNNER] "@, p.runner);
    proof {
        lemma_append(start, t6, section(" [RUNNER] "@, p.runner));
    }
    assert(out@ == start + t7);
    push_movements(out, " [MOVEMENTS]", f.movements);
    proof {
        lemma_append(start, t7, list_section(" [MOVEMENTS]"@, movement_items(p.movements)));
    }
}

fn push_player(out: &mut String, p: &Player)
    ensures
        final(out)@ == old(out)@ + player_flat(p@),
{
    let ghost start = out@;
    out.append("[");
    out.append(p.position.name());
    out.append("] ");
    out.append(p.name.as_str());
    assert(out@ =~= start + player_flat(p@));
}

fn push_team(out: &mut String, t: &Team)
    ensures
        final(out)@ == old(out)@ + team_flat(t@),
{
    let ghost start = out@;
    out.append("[TEAM] ");
    push_decimal(out, t.id as u64);
    out.append("\n");
    let ghost head = out@;
    let ghost all = t.players.deep_view();
    let mut i: usize = 0;
    assert(out@ =~= head + players_flat(all.take(0)));
    while i < t.players.len()
        invariant
            i <= t.players.len(),
            all == t.players.deep_view(),
            out@ == head + players_flat(all.take(i as int)),
        decreases t.players.len() - i,
    {
        proof {
            assert(all.take(i + 1).drop_last() =~= all.take(i as int));
            assert(all.take(i + 1).last() == t.players[i as int]@);
        }
        push_player(out, &t.players[i]);
        out.append("\n");
        i = i + 1;
        assert(out@ =~= head + players_flat(all.take(i as int)));
    }
    assert(all.take(i as int) =~= all);
    assert(out@ =~= start + team_flat(t@));
}

fn push_weather(out: &mut String, w: &Weather)
    ensures
        final(out)@ == old(out)@ + weather_flat(w@),
{
    let ghost start = out@;
    out.append("[WEATHER] ");
    out.append(w.condition.as_str());
    out.append(" ");
    push_decimal(out, w.temperature as u64);
    out.append(" ");
    push_decimal(out, w.wind_speed as u64);
    assert(out@ =~= start + weather_flat(w@));
}

fn push_context(out: &mut String, c: &GameContext)
    ensures
        final(out)@ == old(out)@ + context_flat(c@),
{
    let ghost start = out@;
    push_decimal(out, c.game_pk as u64);
    out.append(" [DATE] ");
    let date = c.date.to_string();
    out.append(date.as_str());
    out.append(" [VENUE] ");
    out.append(c.venue_name.as_str());
    out.append(" ");
    push_weather(out, &c.weather);
    out.append("\n\n");
    push_team(out, &c.home_team);
    out.append("\n");
    push_team(out, &c.away_team);
    assert(out@ =~= start + context_flat(c@));
}

fn push_game(out: &mut String, g: &Game)
    ensures
        final(out)@ == old(out)@ + game_flat(g@),
{
    let ghost start = out@;
    out.append("[GAME] ");
    push_context(out, &g.context);
    out.append("\n[GAME_START]\n");
    let ghost head = out@;
    let ghost all = g.plays.deep_view();
    let mut i: usize = 0;
    assert(out@ =~= head + plays_flat(all.take(0)));
    while i < g.plays.len()
        invariant
            i <= g.plays.len(),
            all == g.plays.deep_view(),
            out@ == head + plays_flat(all.take(i as int)),
        decreases g.plays.len() - i,
    {
        proof {
            assert(all.take(i + 1).drop_last() =~= all.take(i as int));
            assert(all.take(i + 1).last() == g.plays[i as int]@);
        }
        push_play(out, &g.plays[i]);
        out.append("\n");
        i = i + 1;
        assert(out@ =~= head + plays_flat(all.take(i as int)));
    }
    assert(all.take(i as int) =~= all);
    out.append("[GAME_END]\n");
    assert(out@ =~= start + game_flat(g@));
}

impl Preprocess for Date {
    open spec fn flat(&self) -> Seq<char> {
        date_text(*self)
    }

    fn preprocess(&self) -> (r: String) {
        self.to_string()
    }
}

impl Preprocess for Inning {
    open spec fn flat(&self) -> Seq<char> {
        inning_text(*self)
    }

    fn preprocess(&self) -> (r: String) {
        self.to_string()
    }
}

impl Preprocess for Movement {
    open spec fn flat(&self) -> Seq<char> {
        movement_flat(self@)
    }

    fn preprocess(&self) -> (r: String) {
        let mut r = String::new();
        push_movement(&mut r, self);
        assert(r@ =~= movement_flat(self@));
        r
    }
}

impl Preprocess for Player {
    open spec fn flat(&self) -> Seq<char> {
        player_flat(self@)
    }

    fn preprocess(&self) -> (r: String) {
        let mut r = String::new();
        push_player(&mut r, self);
        assert(r@ =~= player_flat(self@));
        r
    }
}

impl Preprocess for Team {
    open spec fn flat(&self) -> Seq<char> {
        team_flat(self@)
    }

    fn preprocess(&self) -> (r: String) {
        let mut r = String::new();
        push_team(&mut r, self);
        assert(r@ =~= team_flat(self@));
        r
    }
}

impl Preprocess for Weather {
    open spec fn flat(&self) -> Seq<char> {
        weather_flat(self@)
    }

    fn preprocess(&self) -> (r: String) {
        let mut r = String::new();
        push_weather(&mut r, self);
        assert(r@ =~= weather_flat(self@));
        r
    }
}

impl Preprocess for GameContext {
    open spec fn flat(&self) -> Seq<char> {
        context_flat(self@)
    }

    fn preprocess(&self) -> (r: String) {
        let mut r = String::new();
        push_context(&mut r, self);
        assert(r@ =~= context_flat(self@));
        r
    }
}

impl Preprocess for Play {
    open spec fn flat(&self) -> Seq<char> {
        play_flat(self@)
    }

    fn preprocess(&self) -> (r: String) {
        let mut r = String::new();
        push_play(&mut r, self);
        assert(r@ =~= play_flat(self@));
        r
    }
}

impl Preprocess for Game {
    open spec fn flat(&self) -> Seq<char> {
        game_flat(self@)
    }

    fn preprocess(&self) -> (r: String) {
        let mut r = String::new();
        push_game(&mut r, self);
        assert(r@ =~= game_flat(self@));
        r
    }
}

} // verus!
