//! The tag encoding: every entity between an opening and a closing tag
//! named after it, one tag to a line, indented by four spaces for each level
//! of nesting.
//!
//! The encoding is described as a list of lines, each with the depth of the
//! entity that it belongs to. The scalar parts of an entity are lines at the
//! entity's own depth; an entity nested in it is one level deeper.

use vstd::prelude::*;
use vstd::string::*;
use crate::context::{GameContext, GameContextModel};
use crate::date::Date;
use crate::flat::{base_digits, base_text};
use crate::game::{Game, GameModel};
use crate::inning::Inning;
use crate::movement::{Movement, MovementModel};
use crate::play::{Play, PlayModel};
use crate::position::position_text;
use crate::roster::{Player, PlayerModel, Team, TeamModel};
use crate::text::{decimal, decimal_text, push_spaces, spaces, truth};
use crate::weather::{Weather, WeatherModel};

verus! {

/// One line of the tag encoding: its text, and the depth of the entity that
/// it belongs to.
pub struct Line {
    pub depth: nat,
    pub text: Seq<char>,
}

/// The line that opens an entity.
pub open spec fn opening(name: Seq<char>, depth: nat) -> Line {
    Line { depth, text: "<"@ + name + ">"@ }
}

/// The line that closes an entity.
pub open spec fn closing(name: Seq<char>, depth: nat) -> Line {
    Line { depth, text: "</"@ + name + ">"@ }
}

/// The line of a scalar part: its value between its tags.
pub open spec fn field(name: Seq<char>, value: Seq<char>, depth: nat) -> Line {
    Line { depth, text: "<"@ + name + ">"@ + value + "</"@ + name + ">"@ }
}

/// A line as it is written: four spaces for each level, then its text.
pub open spec fn line_text(l: Line) -> Seq<char> {
    spaces(4 * l.depth) + l.text
}

/// Lines as they are written: one after the other, a line feed between each
/// two.
pub open spec fn render(lines: Seq<Line>) -> Seq<char>
    decreases lines.len(),
{
    if lines.len() == 0 {
        Seq::empty()
    } else if lines.len() == 1 {
        line_text(lines[0])
    } else {
        render(lines.drop_last()) + "\n"@ + line_text(lines.last())
    }
}

/// The line of a part that is present, no line for one that is not.
pub open spec fn optional(name: Seq<char>, value: Option<Seq<char>>, depth: nat) -> Seq<Line> {
    match value {
        Some(v) => seq![field(name, v, depth)],
        None => Seq::empty(),
    }
}

/// A date.
pub open spec fn date_lines(d: Date, depth: nat) -> Seq<Line> {
    seq![
        opening("DATE"@, depth),
        field("YEAR"@, decimal(d.year as nat), depth),
        field("MONTH"@, decimal(d.month as nat), depth),
        field("DAY"@, decimal(d.day as nat), depth),
        closing("DATE"@, depth),
    ]
}

/// A half-inning.
pub open spec fn inning_lines(i: Inning, depth: nat) -> Seq<Line> {
    seq![
        opening("INNING"@, depth),
        field("NUMBER"@, decimal(i.number as nat), depth),
        field("TOP"@, truth(i.top), depth),
        closing("INNING"@, depth),
    ]
}

/// The weather.
pub open spec fn weather_lines(w: WeatherModel, depth: nat) -> Seq<Line> {
    seq![
        opening("WEATHER"@, depth),
        field("CONDITION"@, w.condition, depth),
        field("TEMPERATURE"@, decimal(w.temperature as nat), depth),
        field("WIND_SPEED"@, decimal(w.wind_speed as nat), depth),
        closing("WEATHER"@, depth),
    ]
}

/// A player.
pub open spec fn player_lines(p: PlayerModel, depth: nat) -> Seq<Line> {
    seq![
        opening("PLAYER"@, depth),
        field("NAME"@, p.name, depth),
        field("POSITION"@, position_text(p.position), depth),
        closing("PLAYER"@, depth),
    ]
}

/// The players of a roster, in their order.
pub open spec fn roster_lines(ps: Seq<PlayerModel>, depth: nat) -> Seq<Line>
    decreases ps.len(),
{
    if ps.len() == 0 {
        Seq::empty()
    } else {
        roster_lines(ps.drop_last(), depth) + player_lines(ps.last(), depth)
    }
}

/// A team, under the tag `name`: its identifier, then its players one level
/// deeper.
pub open spec fn team_lines(t: TeamModel, name: Seq<char>, depth: nat) -> Seq<Line> {
    seq![opening(name, depth), field("ID"@, decimal(t.id as nat), depth)] + roster_lines(
        t.players,
        depth + 1,
    ) + seq![closing(name, depth)]
}

/// The context of a game: date, venue, weather, home team, away team.
pub open spec fn context_lines(c: GameContextModel, depth: nat) -> Seq<Line> {
    seq![opening("CONTEXT"@, depth), field("GAME_PK"@, decimal(c.game_pk as nat), depth)]
        + date_lines(c.date, depth + 1) + seq![field("VENUE_NAME"@, c.venue_name, depth)]
        + weather_lines(c.weather, depth + 1) + team_lines(c.home_team, "HOME_TEAM"@, depth + 1)
        + team_lines(c.away_team, "AWAY_TEAM"@, depth + 1) + seq![closing("CONTEXT"@, depth)]
}

/// A movement.
pub open spec fn movement_lines(m: MovementModel, depth: nat) -> Seq<Line> {
    seq![
        opening("MOVEMENT"@, depth),
        field("RUNNER"@, m.runner, depth),
        field("START_BASE"@, base_text(m.start_base), depth),
        field("END_BASE"@, base_text(m.end_base), depth),
        field("IS_OUT"@, truth(m.is_out), depth),
        closing("MOVEMENT"@, depth),
    ]
}

/// Movements, in their order.
pub open spec fn movements_lines(ms: Seq<MovementModel>, depth: nat) -> Seq<Line>
    decreases ms.len(),
{
    if ms.len() == 0 {
        Seq::empty()
    } else {
        movements_lines(ms.drop_last(), depth) + movement_lines(ms.last(), depth)
    }
}

/// The movements of a play that has movements.
pub open spec fn moves_lines(ms: Option<Seq<MovementModel>>, depth: nat) -> Seq<Line> {
    match ms {
        Some(v) => movements_lines(v, depth),
        None => Seq::empty(),
    }
}

/// The fielders of a play that has a list of them, a line each.
pub open spec fn fielders_lines(names: Option<Seq<Seq<char>>>, depth: nat) -> Seq<Line> {
    match names {
        Some(v) => Seq::new(v.len(), |i: int| field("FIELDER"@, v[i], depth)),
        None => Seq::empty(),
    }
}

/// The scalar parts of a play, each under its tag, in a fixed order.
pub open spec fn actor_lines(p: PlayModel, depth: nat) -> Seq<Line> {
    optional("BASE"@, base_digits(p.base), depth) + optional("BATTER"@, p.batter, depth)
        + optional("PITCHER"@, p.pitcher, depth) + optional("CATCHER"@, p.catcher, depth)
        + optional("FIELDER"@, p.fielder, depth) + fielders_lines(p.fielders, depth) + optional(
        "SCORING_RUNNER"@,
        p.scoring_runner,
        depth,
    ) + optional("RUNNER"@, p.runner, depth)
}

/// A play, under the tag of its kind: its half-inning one level deeper, its
/// scalar parts, then its movements one level deeper.
pub open spec fn play_lines(p: PlayModel, depth: nat) -> Seq<Line> {
    seq![opening(p.kind.tag_text(), depth)] + inning_lines(p.inning, depth + 1) + actor_lines(
        p,
        depth,
    ) + moves_lines(p.movements, depth + 1) + seq![closing(p.kind.tag_text(), depth)]
}

/// Plays, in their order.
pub open spec fn plays_lines(ps: Seq<PlayModel>, depth: nat) -> Seq<Line>
    decreases ps.len(),
{
    if ps.len() == 0 {
        Seq::empty()
    } else {
        plays_lines(ps.drop_last(), depth) + play_lines(ps.last(), depth)
    }
}

/// A game: its context, then its plays in their order, all one level deeper
/// than the game's own tags.
pub open spec fn game_lines(g: GameModel) -> Seq<Line> {
    seq![opening("GAME"@, 0)] + context_lines(g.context, 1) + plays_lines(g.plays, 1)
        + seq![closing("GAME"@, 0)]
}

/// Whether a line is written with exactly four spaces for each level of its
/// depth: so many spaces, and then the `<` of its tag.
pub open spec fn indented(l: Line) -> bool {
    let t = line_text(l);
    &&& t.len() > 4 * l.depth
    &&& forall|i: int| 0 <= i < 4 * l.depth ==> t[i] == ' '
    &&& t[4 * l.depth as int] == '<'
}

/// Every line of the encoding begins with exactly four spaces for each level
/// of its depth.
pub proof fn lemma_indentation(name: Seq<char>, value: Seq<char>, depth: nat)
    ensures
        indented(opening(name, depth)),
        indented(closing(name, depth)),
        indented(field(name, value, depth)),
{
    reveal_strlit("<");
    reveal_strlit("</");
    assert("<"@[0] == '<');
    assert("</"@[0] == '<');
    assert(opening(name, depth).text[0] == '<');
    assert(closing(name, depth).text[0] == '<');
    assert(field(name, value, depth).text[0] == '<');
}

/// Whether every line is at a depth from `low` to `high`.
pub open spec fn within(lines: Seq<Line>, low: nat, high: nat) -> bool {
    forall|i: int| 0 <= i < lines.len() ==> low <= (#[trigger] lines[i]).depth <= high
}

/// Whether the lines begin and end with a line at depth `depth`: the tags of
/// the entity itself.
pub open spec fn framed(lines: Seq<Line>, depth: nat) -> bool {
    lines.len() >= 2 && lines[0].depth == depth && lines.last().depth == depth
}

/// Lines within a range of depths, one list after another, stay within it.
proof fn lemma_within_join(a: Seq<Line>, b: Seq<Line>, low: nat, high: nat)
    requires
        within(a, low, high),
        within(b, low, high),
    ensures
        within(a + b, low, high),
{
    assert forall|i: int| 0 <= i < (a + b).len() implies low <= (#[trigger] (a + b)[i]).depth
        <= high by {
        if i < a.len() {
            assert((a + b)[i] == a[i]);
        } else {
            assert((a + b)[i] == b[i - a.len()]);
        }
    }
}

/// A narrower range of depths lies within a wider one.
proof fn lemma_within_wider(a: Seq<Line>, low: nat, high: nat, lower: nat, higher: nat)
    requires
        within(a, low, high),
        lower <= low,
        high <= higher,
    ensures
        within(a, lower, higher),
{
}

/// An entity without entities nested in it is written at its own depth
/// throughout.
pub proof fn lemma_leaf_depths(
    date: Date,
    inning: Inning,
    weather: WeatherModel,
    player: PlayerModel,
    movement: MovementModel,
    depth: nat,
)
    ensures
        framed(date_lines(date, depth), depth),
        within(date_lines(date, depth), depth, depth),
        framed(inning_lines(inning, depth), depth),
        within(inning_lines(inning, depth), depth, depth),
        framed(weather_lines(weather, depth), depth),
        within(weather_lines(weather, depth), depth, depth),
        framed(player_lines(player, depth), depth),
        within(player_lines(player, depth), depth, depth),
        framed(movement_lines(movement, depth), depth),
        within(movement_lines(movement, depth), depth, depth),
{
}

proof fn lemma_roster_depths(ps: Seq<PlayerModel>, depth: nat)
    ensures
        within(roster_lines(ps, depth), depth, depth),
    decreases ps.len(),
{
    if ps.len() > 0 {
        lemma_roster_depths(ps.drop_last(), depth);
        assert(within(player_lines(ps.last(), depth), depth, depth));
        lemma_within_join(
            roster_lines(ps.drop_last(), depth),
            player_lines(ps.last(), depth),
            depth,
            depth,
        );
    }
}

proof fn lemma_movements_depths(ms: Seq<MovementModel>, depth: nat)
    ensures
        within(movements_lines(ms, depth), depth, depth),
    decreases ms.len(),
{
    if ms.len() > 0 {
        lemma_movements_depths(ms.drop_last(), depth);
        assert(within(movement_lines(ms.last(), depth), depth, depth));
        lemma_within_join(
            movements_lines(ms.drop_last(), depth),
            movement_lines(ms.last(), depth),
            depth,
            depth,
        );
    }
}

/// A team is written between its tags at its own depth, its players one
/// level deeper.
pub proof fn lemma_team_depths(t: TeamModel, name: Seq<char>, depth: nat)
    ensures
        framed(team_lines(t, name, depth), depth),
        within(team_lines(t, name, depth), depth, depth + 1),
        within(roster_lines(t.players, depth + 1), depth + 1, depth + 1),
{
    lemma_roster_depths(t.players, depth + 1);
    let head = seq![opening(name, depth), field("ID"@, decimal(t.id as nat), depth)];
    let body = roster_lines(t.players, depth + 1);
    let foot = seq![closing(name, depth)];
    assert(within(head, depth, depth + 1));
    assert(within(foot, depth, depth + 1));
    lemma_within_wider(body, depth + 1, depth + 1, depth, depth + 1);
    lemma_within_join(head, body, depth, depth + 1);
    lemma_within_join(head + body, foot, depth, depth + 1);
    assert((head + body + foot)[0] == head[0]);
    assert((head + body + foot).last() == foot[0]);
}

/// The context is written between its tags at its own depth, date, weather
/// and teams one level deeper, and the players two levels deeper.
pub proof fn lemma_context_depths(c: GameContextModel, depth: nat)
    ensures
        framed(context_lines(c, depth), depth),
        within(context_lines(c, depth), depth, depth + 2),
{
    lemma_team_depths(c.home_team, "HOME_TEAM"@, depth + 1);
    lemma_team_depths(c.away_team, "AWAY_TEAM"@, depth + 1);
    let l0 = seq![opening("CONTEXT"@, depth), field("GAME_PK"@, decimal(c.game_pk as nat), depth)];
    let l1 = date_lines(c.date, depth + 1);
    let l2 = seq![field("VENUE_NAME"@, c.venue_name, depth)];
    let l3 = weather_lines(c.weather, depth + 1);
    let l4 = team_lines(c.home_team, "HOME_TEAM"@, depth + 1);
    let l5 = team_lines(c.away_team, "AWAY_TEAM"@, depth + 1);
    let l6 = seq![closing("CONTEXT"@, depth)];
    assert(within(l0, depth, depth + 2));
    assert(within(l1, depth, depth + 2));
    assert(within(l2, depth, depth + 2));
    assert(within(l3, depth, depth + 2));
    lemma_within_wider(l4, depth + 1, depth + 2, depth, depth + 2);
    lemma_within_wider(l5, depth + 1, depth + 2, depth, depth + 2);
    assert(within(l6, depth, depth + 2));
    lemma_within_join(l0, l1, depth, depth + 2);
    lemma_within_join(l0 + l1, l2, depth, depth + 2);
    lemma_within_join(l0 + l1 + l2, l3, depth, depth + 2);
    lemma_within_join(l0 + l1 + l2 + l3, l4, depth, depth + 2);
    lemma_within_join(l0 + l1 + l2 + l3 + l4, l5, depth, depth + 2);
    lemma_within_join(l0 + l1 + l2 + l3 + l4 + l5, l6, depth, depth + 2);
    let all = l0 + l1 + l2 + l3 + l4 + l5 + l6;
    assert(all[0] == l0[0]);
    assert(all.last() == l6[0]);
}

proof fn lemma_optional_depth(name: Seq<char>, value: Option<Seq<char>>, depth: nat)
    ensures
        within(optional(name, value, depth), depth, depth),
{
}

proof fn lemma_actor_depths(p: PlayModel, depth: nat)
    ensures
        within(actor_lines(p, depth), depth, depth),
{
    let a0 = optional("BASE"@, base_digits(p.base), depth);
    let a1 = optional("BATTER"@, p.batter, depth);
    let a2 = optional("PITCHER"@, p.pitcher, depth);
    let a3 = optional("CATCHER"@, p.catcher, depth);
    let a4 = optional("FIELDER"@, p.fielder, depth);
    let a5 = fielders_lines(p.fielders, depth);
    let a6 = optional("SCORING_RUNNER"@, p.scoring_runner, depth);
    let a7 = optional("RUNNER"@, p.runner, depth);
    lemma_optional_depth("BASE"@, base_digits(p.base), depth);
    lemma_optional_depth("BATTER"@, p.batter, depth);
    lemma_optional_depth("PITCHER"@, p.pitcher, depth);
    lemma_optional_depth("CATCHER"@, p.catcher, depth);
    lemma_optional_depth("FIELDER"@, p.fielder, depth);
    lemma_optional_depth("SCORING_RUNNER"@, p.scoring_runner, depth);
    lemma_optional_depth("RUNNER"@, p.runner, depth);
    assert(within(a5, depth, depth));
    lemma_within_join(a0, a1, depth, depth);
    lemma_within_join(a0 + a1, a2, depth, depth);
    lemma_within_join(a0 + a1 + a2, a3, depth, depth);
    lemma_within_join(a0 + a1 + a2 + a3, a4, depth, depth);
    lemma_within_join(a0 + a1 + a2 + a3 + a4, a5, depth, depth);
    lemma_within_join(a0 + a1 + a2 + a3 + a4 + a5, a6, depth, depth);
    lemma_within_join(a0 + a1 + a2 + a3 + a4 + a5 + a6, a7, depth, depth);
}

/// A play is written between its tags at its own depth, its scalar parts at
/// that depth too, and its half-inning and its movements one level deeper.
pub proof fn lemma_play_depths(p: PlayModel, depth: nat)
    ensures
        framed(play_lines(p, depth), depth),
        within(play_lines(p, depth), depth, depth + 1),
        within(actor_lines(p, depth), depth, depth),
        within(inning_lines(p.inning, depth + 1), depth + 1, depth + 1),
        within(moves_lines(p.movements, depth + 1), depth + 1, depth + 1),
{
    if p.movements is Some {
        lemma_movements_depths(p.movements->0, depth + 1);
    }
    lemma_actor_depths(p, depth);
    let l0 = seq![opening(p.kind.tag_text(), depth)];
    let l1 = inning_lines(p.inning, depth + 1);
    let l2 = actor_lines(p, depth);
    let l3 = moves_lines(p.movements, depth + 1);
    let l4 = seq![closing(p.kind.tag_text(), depth)];
    assert(within(l0, depth, depth + 1));
    assert(within(l1, depth + 1, depth + 1));
    lemma_within_wider(l1, depth + 1, depth + 1, depth, depth + 1);
    lemma_within_wider(l2, depth, depth, depth, depth + 1);
    lemma_within_wider(l3, depth + 1, depth + 1, depth, depth + 1);
    assert(within(l4, depth, depth + 1));
    lemma_within_join(l0, l1, depth, depth + 1);
    lemma_within_join(l0 + l1, l2, depth, depth + 1);
    lemma_within_join(l0 + l1 + l2, l3, depth, depth + 1);
    lemma_within_join(l0 + l1 + l2 + l3, l4, depth, depth + 1);
    let all = l0 + l1 + l2 + l3 + l4;
    assert(all[0] == l0[0]);
    assert(all.last() == l4[0]);
}

proof fn lemma_plays_depths(ps: Seq<PlayModel>, depth: nat)
    ensures
        within(plays_lines(ps, depth), depth, depth + 1),
    decreases ps.len(),
{
    if ps.len() > 0 {
        lemma_plays_depths(ps.drop_last(), depth);
        lemma_play_depths(ps.last(), depth);
        lemma_within_join(
            plays_lines(ps.drop_last(), depth),
            play_lines(ps.last(), depth),
            depth,
            depth + 1,
        );
    }
}

/// In the encoding of a game, depth is the depth in the tree of entities:
/// the game's own tags at depth 0 and nothing else there, the context and
/// the plays at depth 1, what is nested in them (date, weather, teams,
/// half-innings, movements) at depth 2, and the players of the teams at
/// depth 3.
pub proof fn lemma_game_depths(g: GameModel)
    ensures
        framed(game_lines(g), 0),
        within(game_lines(g), 0, 3),
        forall|i: int| 0 < i < game_lines(g).len() - 1 ==> (#[trigger] game_lines(g)[i]).depth >= 1,
        framed(context_lines(g.context, 1), 1),
        within(context_lines(g.context, 1), 1, 3),
        within(plays_lines(g.plays, 1), 1, 2),
{
    lemma_context_depths(g.context, 1);
    lemma_plays_depths(g.plays, 1);
    let l0 = seq![opening("GAME"@, 0)];
    let l1 = context_lines(g.context, 1);
    let l2 = plays_lines(g.plays, 1);
    let l3 = seq![closing("GAME"@, 0)];
    lemma_within_wider(l2, 1, 2, 1, 3);
    lemma_within_join(l1, l2, 1, 3);
    let all = l0 + l1 + l2 + l3;
    assert(all =~= l0 + (l1 + l2) + l3);
    assert(all[0] == l0[0]);
    assert(all.last() == l3[0]);
    assert forall|i: int| 0 < i < all.len() - 1 implies 1 <= (#[trigger] all[i]).depth <= 3 by {
        assert(all[i] == (l1 + l2)[i - 1]);
    }
}

/// The same lines, `by` levels deeper.
pub open spec fn deeper(lines: Seq<Line>, by: nat) -> Seq<Line> {
    Seq::new(lines.len(), |i: int| Line { depth: lines[i].depth + by, text: lines[i].text })
}

proof fn lemma_deeper_join(a: Seq<Line>, b: Seq<Line>, by: nat)
    ensures
        deeper(a + b, by) == deeper(a, by) + deeper(b, by),
{
    assert(deeper(a + b, by) =~= deeper(a, by) + deeper(b, by));
}

proof fn lemma_roster_nested(ps: Seq<PlayerModel>, depth: nat)
    ensures
        roster_lines(ps, depth) == deeper(roster_lines(ps, 0), depth),
    decreases ps.len(),
{
    if ps.len() > 0 {
        lemma_roster_nested(ps.drop_last(), depth);
        assert(player_lines(ps.last(), depth) =~= deeper(player_lines(ps.last(), 0), depth));
        lemma_deeper_join(roster_lines(ps.drop_last(), 0), player_lines(ps.last(), 0), depth);
    } else {
        assert(roster_lines(ps, depth) =~= deeper(roster_lines(ps, 0), depth));
    }
}

proof fn lemma_movements_nested(ms: Seq<MovementModel>, depth: nat)
    ensures
        movements_lines(ms, depth) == deeper(movements_lines(ms, 0), depth),
    decreases ms.len(),
{
    if ms.len() > 0 {
        lemma_movements_nested(ms.drop_last(), depth);
        assert(movement_lines(ms.last(), depth) =~= deeper(movement_lines(ms.last(), 0), depth));
        lemma_deeper_join(movements_lines(ms.drop_last(), 0), movement_lines(ms.last(), 0), depth);
    } else {
        assert(movements_lines(ms, depth) =~= deeper(movements_lines(ms, 0), depth));
    }
}

/// The same lines, first `a` and then `b` levels deeper, are `a + b` levels
/// deeper.
proof fn lemma_deeper_twice(lines: Seq<Line>, a: nat, b: nat)
    ensures
        deeper(deeper(lines, a), b) == deeper(lines, a + b),
{
    assert(deeper(deeper(lines, a), b) =~= deeper(lines, a + b));
}

/// Nesting an entity without entities in it `depth` levels deep moves every
/// one of its lines that many levels, and changes nothing else.
pub proof fn lemma_leaf_nested(
    date: Date,
    inning: Inning,
    weather: WeatherModel,
    player: PlayerModel,
    movement: MovementModel,
    depth: nat,
)
    ensures
        date_lines(date, depth) == deeper(date_lines(date, 0), depth),
        inning_lines(inning, depth) == deeper(inning_lines(inning, 0), depth),
        weather_lines(weather, depth) == deeper(weather_lines(weather, 0), depth),
        player_lines(player, depth) == deeper(player_lines(player, 0), depth),
        movement_lines(movement, depth) == deeper(movement_lines(movement, 0), depth),
{
    assert(date_lines(date, depth) =~= deeper(date_lines(date, 0), depth));
    assert(inning_lines(inning, depth) =~= deeper(inning_lines(inning, 0), depth));
    assert(weather_lines(weather, depth) =~= deeper(weather_lines(weather, 0), depth));
    assert(player_lines(player, depth) =~= deeper(player_lines(player, 0), depth));
    assert(movement_lines(movement, depth) =~= deeper(movement_lines(movement, 0), depth));
}

/// Nesting a team `depth` levels deep moves every one of its lines that
/// many levels, and changes nothing else.
pub proof fn lemma_team_nested(t: TeamModel, name: Seq<char>, depth: nat)
    ensures
        team_lines(t, name, depth) == deeper(team_lines(t, name, 0), depth),
{
    let head = seq![opening(name, 0), field("ID"@, decimal(t.id as nat), 0)];
    let body = roster_lines(t.players, 1);
    let foot = seq![closing(name, 0)];
    lemma_roster_nested(t.players, 1);
    lemma_roster_nested(t.players, depth + 1);
    lemma_deeper_twice(roster_lines(t.players, 0), 1, depth);
    lemma_deeper_join(head, body, depth);
    lemma_deeper_join(head + body, foot, depth);
    assert(deeper(head, depth) =~= seq![
        opening(name, depth),
        field("ID"@, decimal(t.id as nat), depth),
    ]);
    assert(deeper(foot, depth) =~= seq![closing(name, depth)]);
}

/// Nesting the context `depth` levels deep moves every one of its lines
/// that many levels, and changes nothing else.
pub proof fn lemma_context_nested(c: GameContextModel, depth: nat)
    ensures
        context_lines(c, depth) == deeper(context_lines(c, 0), depth),
{
    let l0 = seq![opening("CONTEXT"@, 0), field("GAME_PK"@, decimal(c.game_pk as nat), 0)];
    let l1 = date_lines(c.date, 1);
    let l2 = seq![field("VENUE_NAME"@, c.venue_name, 0)];
    let l3 = weather_lines(c.weather, 1);
    let l4 = team_lines(c.home_team, "HOME_TEAM"@, 1);
    let l5 = team_lines(c.away_team, "AWAY_TEAM"@, 1);
    let l6 = seq![closing("CONTEXT"@, 0)];
    assert(deeper(l0, depth) =~= seq![
        opening("CONTEXT"@, depth),
        field("GAME_PK"@, decimal(c.game_pk as nat), depth),
    ]);
    assert(deeper(l1, depth) =~= date_lines(c.date, depth + 1));
    assert(deeper(l2, depth) =~= seq![field("VENUE_NAME"@, c.venue_name, depth)]);
    assert(deeper(l3, depth) =~= weather_lines(c.weather, depth + 1));
    lemma_team_nested(c.home_team, "HOME_TEAM"@, 1);
    lemma_team_nested(c.home_team, "HOME_TEAM"@, depth + 1);
    lemma_deeper_twice(team_lines(c.home_team, "HOME_TEAM"@, 0), 1, depth);
    lemma_team_nested(c.away_team, "AWAY_TEAM"@, 1);
    lemma_team_nested(c.away_team, "AWAY_TEAM"@, depth + 1);
    lemma_deeper_twice(team_lines(c.away_team, "AWAY_TEAM"@, 0), 1, depth);
    assert(deeper(l6, depth) =~= seq![closing("CONTEXT"@, depth)]);
    lemma_deeper_join(l0, l1, depth);
    lemma_deeper_join(l0 + l1, l2, depth);
    lemma_deeper_join(l0 + l1 + l2, l3, depth);
    lemma_deeper_join(l0 + l1 + l2 + l3, l4, depth);
    lemma_deeper_join(l0 + l1 + l2 + l3 + l4, l5, depth);
    lemma_deeper_join(l0 + l1 + l2 + l3 + l4 + l5, l6, depth);
}

proof fn lemma_optional_nested(name: Seq<char>, value: Option<Seq<char>>, depth: nat)
    ensures
        optional(name, value, depth) == deeper(optional(name, value, 0), depth),
{
    assert(optional(name, value, depth) =~= deeper(optional(name, value, 0), depth));
}

proof fn lemma_actors_nested(p: PlayModel, depth: nat)
    ensures
        actor_lines(p, depth) == deeper(actor_lines(p, 0), depth),
{
    let a0 = optional("BASE"@, base_digits(p.base), 0);
    let a1 = optional("BATTER"@, p.batter, 0);
    let a2 = optional("PITCHER"@, p.pitcher, 0);
    let a3 = optional("CATCHER"@, p.catcher, 0);
    let a4 = optional("FIELDER"@, p.fielder, 0);
    let a5 = fielders_lines(p.fielders, 0);
    let a6 = optional("SCORING_RUNNER"@, p.scoring_runner, 0);
    let a7 = optional("RUNNER"@, p.runner, 0);
    lemma_optional_nested("BASE"@, base_digits(p.base), depth);
    lemma_optional_nested("BATTER"@, p.batter, depth);
    lemma_optional_nested("PITCHER"@, p.pitcher, depth);
    lemma_optional_nested("CATCHER"@, p.catcher, depth);
    lemma_optional_nested("FIELDER"@, p.fielder, depth);
    assert(fielders_lines(p.fielders, depth) =~= deeper(a5, depth));
    lemma_optional_nested("SCORING_RUNNER"@, p.scoring_runner, depth);
    lemma_optional_nested("RUNNER"@, p.runner, depth);
    lemma_deeper_join(a0, a1, depth);
    lemma_deeper_join(a0 + a1, a2, depth);
    lemma_deeper_join(a0 + a1 + a2, a3, depth);
    lemma_deeper_join(a0 + a1 + a2 + a3, a4, depth);
    lemma_deeper_join(a0 + a1 + a2 + a3 + a4, a5, depth);
    lemma_deeper_join(a0 + a1 + a2 + a3 + a4 + a5, a6, depth);
    lemma_deeper_join(a0 + a1 + a2 + a3 + a4 + a5 + a6, a7, depth);
}

/// Nesting a play `depth` levels deep moves every one of its lines that
/// many levels, and changes nothing else.
pub proof fn lemma_play_nested(p: PlayModel, depth: nat)
    ensures
        play_lines(p, depth) == deeper(play_lines(p, 0), depth),
{
    let l0 = seq![opening(p.kind.tag_text(), 0)];
    let l1 = inning_lines(p.inning, 1);
    let l2 = actor_lines(p, 0);
    let l3 = moves_lines(p.movements, 1);
    let l4 = seq![closing(p.kind.tag_text(), 0)];
    assert(deeper(l0, depth) =~= seq![opening(p.kind.tag_text(), depth)]);
    assert(deeper(l1, depth) =~= inning_lines(p.inning, depth + 1));
    lemma_actors_nested(p, depth);
    if p.movements is Some {
        lemma_movements_nested(p.movements->0, 1);
        lemma_movements_nested(p.movements->0, depth + 1);
        lemma_deeper_twice(movements_lines(p.movements->0, 0), 1, depth);
    } else {
        assert(deeper(l3, depth) =~= moves_lines(p.movements, depth + 1));
    }
    assert(deeper(l4, depth) =~= seq![closing(p.kind.tag_text(), depth)]);
    lemma_deeper_join(l0, l1, depth);
    lemma_deeper_join(l0 + l1, l2, depth);
    lemma_deeper_join(l0 + l1 + l2, l3, depth);
    lemma_deeper_join(l0 + l1 + l2 + l3, l4, depth);
}

proof fn lemma_plays_nested(ps: Seq<PlayModel>, depth: nat)
    ensures
        plays_lines(ps, depth) == deeper(plays_lines(ps, 0), depth),
    decreases ps.len(),
{
    if ps.len() > 0 {
        lemma_plays_nested(ps.drop_last(), depth);
        lemma_play_nested(ps.last(), depth);
        lemma_deeper_join(plays_lines(ps.drop_last(), 0), play_lines(ps.last(), 0), depth);
    } else {
        assert(plays_lines(ps, depth) =~= deeper(plays_lines(ps, 0), depth));
    }
}

/// In a game, the context and the plays are written as each is written
/// alone, one level deeper, between the game's own tags.
pub proof fn lemma_game_nests(g: GameModel)
    ensures
        game_lines(g) == seq![opening("GAME"@, 0)] + deeper(context_lines(g.context, 0), 1)
            + deeper(plays_lines(g.plays, 0), 1) + seq![closing("GAME"@, 0)],
{
    lemma_context_nested(g.context, 1);
    lemma_plays_nested(g.plays, 1);
}

/// The encoding is a function of the value: two games that are the same
/// value have the same lines, and so the same text.
pub proof fn lemma_tokens_of_value(a: Game, b: Game)
    requires
        a@ == b@,
    ensures
        a.tag_lines() == b.tag_lines(),
        render(a.tag_lines()) == render(b.tag_lines()),
{
}

/// A value that has a tag encoding.
pub trait Tokenize {
    /// The lines of the tag encoding of the value, the value itself at
    /// depth 0: a function of the value alone.
    spec fn tag_lines(&self) -> Seq<Line>;

    /// Writes the tag encoding of the value.
    fn tokenize(&self) -> (r: String)
        ensures
            r@ == render(self.tag_lines()),
    ;
}

/// The deepest level at which the writer is asked to write.
const MAX_DEPTH: usize = 64;

/// A text under construction, with the lines that it holds so far.
struct Writer {
    out: String,
    started: bool,
    lines: Ghost<Seq<Line>>,
}

impl Writer {
    spec fn wf(&self) -> bool {
        &&& self.out@ == render(self.lines@)
        &&& self.started == (self.lines@.len() > 0)
    }

    fn new() -> (w: Writer)
        ensures
            w.wf(),
            w.lines@ == Seq::<Line>::empty(),
    {
        Writer { out: String::new(), started: false, lines: Ghost(Seq::empty()) }
    }

    /// Begins a line at the given depth.
    fn indent(&mut self, depth: usize)
        requires
            old(self).wf(),
            depth <= MAX_DEPTH,
        ensures
            final(self).lines@ == old(self).lines@,
            final(self).started == old(self).started,
            final(self).out@ == old(self).out@ + (if old(self).started {
                "\n"@
            } else {
                Seq::empty()
            }) + spaces(4 * depth as nat),
    {
        let ghost start = self.out@;
        if self.started {
            self.out.append("\n");
        }
        push_spaces(&mut self.out, 4 * depth);
        assert(self.out@ =~= start + (if self.started {
            "\n"@
        } else {
            Seq::empty()
        }) + spaces(4 * depth as nat));
    }

    /// Ends a line whose text is `text`.
    proof fn ended(before: Seq<Line>, l: Line)
        ensures
            render(before.push(l)) == if before.len() == 0 {
                line_text(l)
            } else {
                render(before) + "\n"@ + line_text(l)
            },
    {
        assert(before.push(l).drop_last() =~= before);
        assert(before.push(l).last() == l);
    }

    fn open(&mut self, name: &str, depth: usize)
        requires
            old(self).wf(),
            depth <= MAX_DEPTH,
        ensures
            final(self).wf(),
            final(self).lines@ == old(self).lines@.push(opening(name@, depth as nat)),
    {
        let ghost before = self.lines@;
        let ghost l = opening(name@, depth as nat);
        self.indent(depth);
        self.out.append("<");
        self.out.append(name);
        self.out.append(">");
        self.started = true;
        self.lines = Ghost(before.push(l));
        proof {
            Writer::ended(before, l);
            assert(self.out@ =~= render(before.push(l)));
        }
    }

    fn close(&mut self, name: &str, depth: usize)
        requires
            old(self).wf(),
            depth <= MAX_DEPTH,
        ensures
            final(self).wf(),
            final(self).lines@ == old(self).lines@.push(closing(name@, depth as nat)),
    {
        let ghost before = self.lines@;
        let ghost l = closing(name@, depth as nat);
        self.indent(depth);
        self.out.append("</");
        self.out.append(name);
        self.out.append(">");
        self.started = true;
        self.lines = Ghost(before.push(l));
        proof {
            Writer::ended(before, l);
            assert(self.out@ =~= render(before.push(l)));
        }
    }

    fn field(&mut self, name: &str, value: &str, depth: usize)
        requires
            old(self).wf(),
            depth <= MAX_DEPTH,
        ensures
            final(self).wf(),
            final(self).lines@ == old(self).lines@.push(field(name@, value@, depth as nat)),
    {
        let ghost before = self.lines@;
        let ghost l = field(name@, value@, depth as nat);
        self.indent(depth);
        self.out.append("<");
        self.out.append(name);
        self.out.append(">");
        self.out.append(value);
        self.out.append("</");
        self.out.append(name);
        self.out.append(">");
        self.started = true;
        self.lines = Ghost(before.push(l));
        proof {
            Writer::ended(before, l);
            assert(self.out@ =~= render(before.push(l)));
        }
    }

    fn number(&mut self, name: &str, value: u64, depth: usize)
        requires
            old(self).wf(),
            depth <= MAX_DEPTH,
        ensures
            final(self).wf(),
            final(self).lines@ == old(self).lines@.push(
                field(name@, decimal(value as nat), depth as nat),
            ),
    {
        let text = decimal_text(value);
        self.field(name, text.as_str(), depth);
    }

    fn flag(&mut self, name: &str, value: bool, depth: usize)
        requires
            old(self).wf(),
            depth <= MAX_DEPTH,
        ensures
            final(self).wf(),
            final(self).lines@ == old(self).lines@.push(field(name@, truth(value), depth as nat)),
    {
        if value {
            self.field(name, "true", depth);
        } else {
            self.field(name, "false", depth);
        }
    }

    fn base(&mut self, name: &str, value: Option<u8>, depth: usize)
        requires
            old(self).wf(),
            depth <= MAX_DEPTH,
        ensures
            final(self).wf(),
            final(self).lines@ == old(self).lines@.push(
                field(name@, base_text(value), depth as nat),
            ),
    {
        match value {
            Some(n) => self.number(name, n as u64, depth),
            None => self.field(name, "home", depth),
        }
    }

    fn optional(&mut self, name: &str, value: Option<&String>, depth: usize)
        requires
            old(self).wf(),
            depth <= MAX_DEPTH,
        ensures
            final(self).wf(),
            final(self).lines@ == old(self).lines@ + optional(
                name@,
                value.deep_view(),
                depth as nat,
            ),
    {
        let ghost before = self.lines@;
        match value {
            Some(v) => {
                self.field(name, v.as_str(), depth);
            },
            None => {},
        }
        assert(self.lines@ =~= before + optional(name@, value.deep_view(), depth as nat));
    }

    fn date(&mut self, d: &Date, depth: usize)
        requires
            old(self).wf(),
            depth <= MAX_DEPTH,
        ensures
            final(self).wf(),
            final(self).lines@ == old(self).lines@ + date_lines(*d, depth as nat),
    {
        let ghost before = self.lines@;
        self.open("DATE", depth);
        self.number("YEAR", d.year as u64, depth);
        self.number("MONTH", d.month as u64, depth);
        self.number("DAY", d.day as u64, depth);
        self.close("DATE", depth);
        assert(self.lines@ =~= before + date_lines(*d, depth as nat));
    }

    fn inning(&mut self, i: &Inning, depth: usize)
        requires
            old(self).wf(),
            depth <= MAX_DEPTH,
        ensures
            final(self).wf(),
            final(self).lines@ == old(self).lines@ + inning_lines(*i, depth as nat),
    {
        let ghost before = self.lines@;
        self.open("INNING", depth);
        self.number("NUMBER", i.number as u64, depth);
        self.flag("TOP", i.top, depth);
        self.close("INNING", depth);
        assert(self.lines@ =~= before + inning_lines(*i, depth as nat));
    }

    fn weather(&mut self, w: &Weather, depth: usize)
        requires
            old(self).wf(),
            depth <= MAX_DEPTH,
        ensures
            final(self).wf(),
            final(self).lines@ == old(self).lines@ + weather_lines(w@, depth as nat),
    {
        let ghost before = self.lines@;
        self.open("WEATHER", depth);
        self.field("CONDITION", w.condition.as_str(), depth);
        self.number("TEMPERATURE", w.temperature as u64, depth);
        self.number("WIND_SPEED", w.wind_speed as u64, depth);
        self.close("WEATHER", depth);
        assert(self.lines@ =~= before + weather_lines(w@, depth as nat));
    }

    fn player(&mut self, p: &Player, depth: usize)
        requires
            old(self).wf(),
            depth <= MAX_DEPTH,
        ensures
            final(self).wf(),
            final(self).lines@ == old(self).lines@ + player_lines(p@, depth as nat),
    {
        let ghost before = self.lines@;
        self.open("PLAYER", depth);
        self.field("NAME", p.name.as_str(), depth);
        self.field("POSITION", p.position.name(), depth);
        self.close("PLAYER", depth);
        assert(self.lines@ =~= before + player_lines(p@, depth as nat));
    }

    fn team(&mut self, t: &Team, name: &str, depth: usize)
        requires
            old(self).wf(),
            depth < MAX_DEPTH,
        ensures
            final(self).wf(),
            final(self).lines@ == old(self).lines@ + team_lines(t@, name@, depth as nat),
    {
        let ghost before = self.lines@;
        self.open(name, depth);
        self.number("ID", t.id as u64, depth);
        let ghost head = self.lines@;
        let ghost all = t.players.deep_view();
        let mut i: usize = 0;
        assert(self.lines@ =~= head + roster_lines(all.take(0), depth as nat + 1));
        while i < t.players.len()
            invariant
                i <= t.players.len(),
                depth < MAX_DEPTH,
                all == t.players.deep_view(),
                self.wf(),
                self.lines@ == head + roster_lines(all.take(i as int), depth as nat + 1),
            decreases t.players.len() - i,
        {
            proof {
                assert(all.take(i + 1).drop_last() =~= all.take(i as int));
                assert(all.take(i + 1).last() == t.players[i as int]@);
            }
            self.player(&t.players[i], depth + 1);
            i = i + 1;
            assert(self.lines@ =~= head + roster_lines(all.take(i as int), depth as nat + 1));
        }
        assert(all.take(i as int) =~= all);
        self.close(name, depth);
        assert(self.lines@ =~= before + team_lines(t@, name@, depth as nat));
    }

    fn context(&mut self, c: &GameContext, depth: usize)
        requires
            old(self).wf(),
            depth + 2 <= MAX_DEPTH,
        ensures
            final(self).wf(),
            final(self).lines@ == old(self).lines@ + context_lines(c@, depth as nat),
    {
        let ghost before = self.lines@;
        let ghost d = depth as nat;
        self.open("CONTEXT", depth);
        self.number("GAME_PK", c.game_pk as u64, depth);
        let ghost t0 = seq![
            opening("CONTEXT"@, d),
            field("GAME_PK"@, decimal(c.game_pk as nat), d),
        ];
        assert(self.lines@ =~= before + t0);
        self.date(&c.date, depth + 1);
        let ghost t1 = t0 + date_lines(c.date, d + 1);
        assert(self.lines@ =~= before + t1);
        self.field("VENUE_NAME", c.venue_name.as_str(), depth);
        let ghost t2 = t1 + seq![field("VENUE_NAME"@, c.venue_name@, d)];
        assert(self.lines@ =~= before + t2);
        self.weather(&c.weather, depth + 1);
        let ghost t3 = t2 + weather_lines(c.weather@, d + 1);
        assert(self.lines@ =~= before + t3);
        self.team(&c.home_team, "HOME_TEAM", depth + 1);
        let ghost t4 = t3 + team_lines(c.home_team@, "HOME_TEAM"@, d + 1);
        assert(self.lines@ =~= before + t4);
        self.team(&c.away_team, "AWAY_TEAM", depth + 1);
        let ghost t5 = t4 + team_lines(c.away_team@, "AWAY_TEAM"@, d + 1);
        assert(self.lines@ =~= before + t5);
        self.close("CONTEXT", depth);
        assert(self.lines@ =~= before + (t5 + seq![closing("CONTEXT"@, d)]));
    }

    fn movement(&mut self, m: &Movement, depth: usize)
        requires
            old(self).wf(),
            depth <= MAX_DEPTH,
        ensures
            final(self).wf(),
            final(self).lines@ == old(self).lines@ + movement_lines(m@, depth as nat),
    {
        let ghost before = self.lines@;
        self.open("MOVEMENT", depth);
        self.field("RUNNER", m.runner.as_str(), depth);
        self.base("START_BASE", m.start_base, depth);
        self.base("END_BASE", m.end_base, depth);
        self.flag("IS_OUT", m.is_out, depth);
        self.close("MOVEMENT", depth);
        assert(self.lines@ =~= before + movement_lines(m@, depth as nat));
    }

    fn moves(&mut self, ms: Option<&Vec<Movement>>, depth: usize)
        requires
            old(self).wf(),
            depth <= MAX_DEPTH,
        ensures
            final(self).wf(),
            final(self).lines@ == old(self).lines@ + moves_lines(ms.deep_view(), depth as nat),
    {
        let ghost before = self.lines@;
        match ms {
            Some(v) => {
                let ghost all = v.deep_view();
                let mut i: usize = 0;
                assert(self.lines@ =~= before + movements_lines(all.take(0), depth as nat));
                while i < v.len()
                    invariant
                        i <= v.len(),
                        depth <= MAX_DEPTH,
                        all == v.deep_view(),
                        self.wf(),
                        self.lines@ == before + movements_lines(all.take(i as int), depth as nat),
                    decreases v.len() - i,
                {
                    proof {
                        assert(all.take(i + 1).drop_last() =~= all.take(i as int));
                        assert(all.take(i + 1).last() == v[i as int]@);
                    }
                    self.movement(&v[i], depth);
                    i = i + 1;
                    assert(self.lines@ =~= before + movements_lines(
                        all.take(i as int),
                        depth as nat,
                    ));
                }
                assert(all.take(i as int) =~= all);
            },
            None => {
                assert(self.lines@ =~= before + moves_lines(ms.deep_view(), depth as nat));
            },
        }
    }

    fn fielders(&mut self, names: Option<&Vec<String>>, depth: usize)
        requires
            old(self).wf(),
            depth <= MAX_DEPTH,
        ensures
            final(self).wf(),
            final(self).lines@ == old(self).lines@ + fielders_lines(
                names.deep_view(),
                depth as nat,
            ),
    {
        let ghost before = self.lines@;
        match names {
            Some(v) => {
                let ghost all = fielders_lines(names.deep_view(), depth as nat);
                let mut i: usize = 0;
                assert(self.lines@ =~= before + all.take(0));
                while i < v.len()
                    invariant
                        i <= v.len(),
                        depth <= MAX_DEPTH,
                        all == fielders_lines(Some(v.deep_view()), depth as nat),
                        all.len() == v.len(),
                        self.wf(),
                        self.lines@ == before + all.take(i as int),
                    decreases v.len() - i,
                {
                    self.field("FIELDER", v[i].as_str(), depth);
                    i = i + 1;
                    assert(self.lines@ =~= before + all.take(i as int));
                }
                assert(all.take(i as int) =~= all);
            },
            None => {
                assert(self.lines@ =~= before + fielders_lines(names.deep_view(), depth as nat));
            },
        }
    }

    /// Appending lists of lines is associative.
    proof fn joined(a: Seq<Line>, b: Seq<Line>, c: Seq<Line>)
        ensures
            (a + b) + c == a + (b + c),
    {
        assert((a + b) + c =~= a + (b + c));
    }

    fn base_of_play(&mut self, base: Option<u8>, depth: usize)
        requires
            old(self).wf(),
            depth <= MAX_DEPTH,
        ensures
            final(self).wf(),
            final(self).lines@ == old(self).lines@ + optional(
                "BASE"@,
                base_digits(base),
                depth as nat,
            ),
    {
        let ghost before = self.lines@;
        match base {
            Some(n) => {
                self.number("BASE", n as u64, depth);
            },
            None => {},
        }
        assert(self.lines@ =~= before + optional("BASE"@, base_digits(base), depth as nat));
    }

    fn actors(&mut self, play: &Play, depth: usize)
        requires
            old(self).wf(),
            depth <= MAX_DEPTH,
        ensures
            final(self).wf(),
            final(self).lines@ == old(self).lines@ + actor_lines(play@, depth as nat),
    {
        let ghost before = self.lines@;
        let ghost p = play@;
        let ghost d = depth as nat;
        let f = play.fields();
        self.base_of_play(f.base, depth);
        let ghost t0 = optional("BASE"@, base_digits(p.base), d);
        assert(self.lines@ == before + t0);
        self.optional("BATTER", f.batter, depth);
        let ghost t1 = t0 + optional("BATTER"@, p.batter, d);
        proof {
            Writer::joined(before, t0, optional("BATTER"@, p.batter, d));
        }
        assert(self.lines@ == before + t1);
        self.optional("PITCHER", f.pitcher, depth);
        let ghost t2 = t1 + optional("PITCHER"@, p.pitcher, d);
        proof {
            Writer::joined(before, t1, optional("PITCHER"@, p.pitcher, d));
        }
        assert(self.lines@ == before + t2);
        self.optional("CATCHER", f.catcher, depth);
        let ghost t3 = t2 + optional("CATCHER"@, p.catcher, d);
        proof {
            Writer::joined(before, t2, optional("CATCHER"@, p.catcher, d));
        }
        assert(self.lines@ == before + t3);
        self.optional("FIELDER", f.fielder, depth);
        let ghost t4 = t3 + optional("FIELDER"@, p.fielder, d);
        proof {
            Writer::joined(before, t3, optional("FIELDER"@, p.fielder, d));
        }
        assert(self.lines@ == before + t4);
        self.fielders(f.fielders, depth);
        let ghost t5 = t4 + fielders_lines(p.fielders, d);
        proof {
            Writer::joined(before, t4, fielders_lines(p.fielders, d));
        }
        assert(self.lines@ == before + t5);
        self.optional("SCORING_RUNNER", f.scoring_runner, depth);
        let ghost t6 = t5 + optional("SCORING_RUNNER"@, p.scoring_runner, d);
        proof {
            Writer::joined(before, t5, optional("SCORING_RUNNER"@, p.scoring_runner, d));
        }
        assert(self.lines@ == before + t6);
        self.optional("RUNNER", f.runner, depth);
        proof {
            Writer::joined(before, t6, optional("RUNNER"@, p.runner, d));
        }
    }

    fn play(&mut self, play: &Play, depth: usize)
        requires
            old(self).wf(),
            depth < MAX_DEPTH,
        ensures
            final(self).wf(),
            final(self).lines@ == old(self).lines@ + play_lines(play@, depth as nat),
    {
        let ghost before = self.lines@;
        let ghost p = play@;
        let ghost d = depth as nat;
        let f = play.fields();
        let tag = f.kind.tag();
        self.open(tag, depth);
        let ghost t0 = seq![opening(p.kind.tag_text(), d)];
        assert(self.lines@ =~= before + t0);
        self.inning(&f.inning, depth + 1);
        let ghost t1 = t0 + inning_lines(p.inning, d + 1);
        assert(self.lines@ =~= before + t1);
        self.actors(play, depth);
        let ghost t2 = t1 + actor_lines(p, d);
        assert(self.lines@ =~= before + t2);
        self.moves(f.movements, depth + 1);
        let ghost t3 = t2 + moves_lines(p.movements, d + 1);
        assert(self.lines@ =~= before + t3);
        self.close(tag, depth);
        assert(self.lines@ =~= before + (t3 + seq![closing(p.kind.tag_text(), d)]));
    }

    fn game(&mut self, g: &Game)
        requires
            old(self).wf(),
        ensures
            final(self).wf(),
            final(self).lines@ == old(self).lines@ + game_lines(g@),
    {
        let ghost before = self.lines@;
        self.open("GAME", 0);
        let ghost t0 = seq![opening("GAME"@, 0)];
        assert(self.lines@ =~= before + t0);
        self.context(&g.context, 1);
        let ghost t1 = t0 + context_lines(g.context@, 1);
        assert(self.lines@ =~= before + t1);
        let ghost all = g.plays.deep_view();
        let mut i: usize = 0;
        assert(self.lines@ =~= before + (t1 + plays_lines(all.take(0), 1)));
        while i < g.plays.len()
            invariant
                i <= g.plays.len(),
                all == g.plays.deep_view(),
                self.wf(),
                self.lines@ == before + (t1 + plays_lines(all.take(i as int), 1)),
            decreases g.plays.len() - i,
        {
            proof {
                assert(all.take(i + 1).drop_last() =~= all.take(i as int));
                assert(all.take(i + 1).last() == g.plays[i as int]@);
            }
            self.play(&g.plays[i], 1);
            i = i + 1;
            assert(self.lines@ =~= before + (t1 + plays_lines(all.take(i as int), 1)));
        }
        assert(all.take(i as int) =~= all);
        self.close("GAME", 0);
        assert(self.lines@ =~= before + (t1 + plays_lines(all, 1) + seq![closing("GAME"@, 0)]));
    }
}

impl Tokenize for Date {
    open spec fn tag_lines(&self) -> Seq<Line> {
        date_lines(*self, 0)
    }

    fn tokenize(&self) -> (r: String) {
        let mut w = Writer::new();
        w.date(self, 0);
        assert(w.lines@ =~= date_lines(*self, 0));
        w.out
    }
}

impl Tokenize for Inning {
    open spec fn tag_lines(&self) -> Seq<Line> {
        inning_lines(*self, 0)
    }

    fn tokenize(&self) -> (r: String) {
        let mut w = Writer::new();
        w.inning(self, 0);
        assert(w.lines@ =~= inning_lines(*self, 0));
        w.out
    }
}

impl Tokenize for Weather {
    open spec fn tag_lines(&self) -> Seq<Line> {
        weather_lines(self@, 0)
    }

    fn tokenize(&self) -> (r: String) {
        let mut w = Writer::new();
        w.weather(self, 0);
        assert(w.lines@ =~= weather_lines(self@, 0));
        w.out
    }
}

impl Tokenize for Player {
    open spec fn tag_lines(&self) -> Seq<Line> {
        player_lines(self@, 0)
    }

    fn tokenize(&self) -> (r: String) {
        let mut w = Writer::new();
        w.player(self, 0);
        assert(w.lines@ =~= player_lines(self@, 0));
        w.out
    }
}

impl Tokenize for Team {
    open spec fn tag_lines(&self) -> Seq<Line> {
        team_lines(self@, "TEAM"@, 0)
    }

    fn tokenize(&self) -> (r: String) {
        let mut w = Writer::new();
        w.team(self, "TEAM", 0);
        assert(w.lines@ =~= team_lines(self@, "TEAM"@, 0));
        w.out
    }
}

impl Tokenize for GameContext {
    open spec fn tag_lines(&self) -> Seq<Line> {
        context_lines(self@, 0)
    }

    fn tokenize(&self) -> (r: String) {
        let mut w = Writer::new();
        w.context(self, 0);
        assert(w.lines@ =~= context_lines(self@, 0));
        w.out
    }
}

impl Tokenize for Movement {
    open spec fn tag_lines(&self) -> Seq<Line> {
        movement_lines(self@, 0)
    }

    fn tokenize(&self) -> (r: String) {
        let mut w = Writer::new();
        w.movement(self, 0);
        assert(w.lines@ =~= movement_lines(self@, 0));
        w.out
    }
}

impl Tokenize for Play {
    open spec fn tag_lines(&self) -> Seq<Line> {
        play_lines(self@, 0)
    }

    fn tokenize(&self) -> (r: String) {
        let mut w = Writer::new();
        w.play(self, 0);
        assert(w.lines@ =~= play_lines(self@, 0));
        w.out
    }
}

impl Tokenize for Game {
    open spec fn tag_lines(&self) -> Seq<Line> {
        game_lines(self@)
    }

    fn tokenize(&self) -> (r: String) {
        let mut w = Writer::new();
        w.game(self);
        assert(w.lines@ =~= game_lines(self@));
        w.out
    }
}

} // verus!
