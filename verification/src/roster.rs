//! The players of a team, each with the role held in the game.

use vstd::prelude::*;
use vstd::string::*;
use crate::error::{ClassificationError, Field, Scalar};
use crate::position::{position_of, Position};
use crate::record::{agrees, PlayerRecord, PlayerRecordModel, TeamRecord, TeamRecordModel};
use crate::sequence::{
    lemma_try_map_all, lemma_try_map_err, lemma_try_map_ok, lemma_try_map_step, try_map,
};

verus! {

/// One player of a roster.
#[derive(Clone, Debug, PartialEq, Eq)]
pub struct Player {
    pub name: String,
    pub position: Position,
}

/// A player as a mathematical value.
pub struct PlayerModel {
    pub name: Seq<char>,
    pub position: Position,
}

impl DeepView for Player {
    type V = PlayerModel;

    open spec fn deep_view(&self) -> PlayerModel {
        PlayerModel { name: self.name@, position: self.position }
    }
}

impl View for Player {
    type V = PlayerModel;

    open spec fn view(&self) -> PlayerModel {
        self.deep_view()
    }
}

/// A team: its identifier and its roster, in the order of the box score.
#[derive(Clone, Debug, PartialEq, Eq)]
pub struct Team {
    pub id: u8,
    pub players: Vec<Player>,
}

/// A team as a mathematical value.
pub struct TeamModel {
    pub id: u8,
    pub players: Seq<PlayerModel>,
}

impl DeepView for Team {
    type V = TeamModel;

    open spec fn deep_view(&self) -> TeamModel {
        TeamModel { id: self.id, players: self.players.deep_view() }
    }
}

impl View for Team {
    type V = TeamModel;

    open spec fn view(&self) -> TeamModel {
        self.deep_view()
    }
}

/// The player that a box-score entry describes: it must name the player and
/// abbreviate a known role.
pub open spec fn player_of(rec: PlayerRecordModel) -> Result<PlayerModel, ClassificationError> {
    match rec.name {
        None => Err(ClassificationError::MissingRequiredField(Field::PlayerName)),
        Some(name) => match rec.abbreviation {
            None => Err(ClassificationError::MissingRequiredField(Field::PositionAbbreviation)),
            Some(abbr) => match position_of(abbr) {
                None => Err(ClassificationError::MalformedScalar(Scalar::PositionCode)),
                Some(position) => Ok(PlayerModel { name, position }),
            },
        },
    }
}

/// `player_of`, as a function value.
pub open spec fn entry_player() -> spec_fn(PlayerRecordModel) -> Result<
    PlayerModel,
    ClassificationError,
> {
    |rec: PlayerRecordModel| player_of(rec)
}

/// The team that a team block of a box score describes: its identifier,
/// and one player for each entry, in order. An identifier above 255 is no
/// team identifier, and is turned down rather than cut short. One entry that
/// is turned down discards the whole roster.
pub open spec fn team_of(rec: TeamRecordModel) -> Result<TeamModel, ClassificationError> {
    match rec.id {
        None => Err(ClassificationError::MissingRequiredField(Field::TeamId)),
        Some(id) => if id > 255 {
            Err(ClassificationError::MalformedScalar(Scalar::TeamId))
        } else {
            match rec.players {
                None => Err(ClassificationError::MissingRequiredField(Field::Players)),
                Some(entries) => match try_map(entries, entry_player()) {
                    Err(e) => Err(e),
                    Ok(players) => Ok(TeamModel { id: id as u8, players }),
                },
            }
        },
    }
}

/// A team that is built has the identifier of its record, unchanged, and
/// one player for each entry of the record, in the order of the entries:
/// none dropped, none repeated, each with the name of its entry and the role
/// that its abbreviation stands for.
pub proof fn lemma_team_verbatim(rec: TeamRecordModel)
    requires
        team_of(rec) is Ok,
    ensures
        rec.id == Some(team_of(rec)->Ok_0.id as u64),
        rec.players is Some,
        team_of(rec)->Ok_0.players.len() == rec.players->0.len(),
        forall|i: int|
            0 <= i < rec.players->0.len() ==> {
                let entry = #[trigger] rec.players->0[i];
                let player = team_of(rec)->Ok_0.players[i];
                &&& entry.name == Some(player.name)
                &&& entry.abbreviation is Some
                &&& position_of(entry.abbreviation->0) == Some(player.position)
            },
{
    let entries = rec.players->0;
    lemma_try_map_ok(entries, entry_player());
    let players = team_of(rec)->Ok_0.players;
    assert forall|i: int| 0 <= i < entries.len() implies {
        let entry = #[trigger] entries[i];
        let player = players[i];
        &&& entry.name == Some(player.name)
        &&& entry.abbreviation is Some
        &&& position_of(entry.abbreviation->0) == Some(player.position)
    } by {
        assert(entry_player()(entries[i]) == Ok::<PlayerModel, ClassificationError>(players[i]));
    }
}

/// A team block with an identifier of at most 255 and a list of entries that
/// each name a player and abbreviate a known role gives a team.
pub proof fn lemma_team_is_built(rec: TeamRecordModel)
    requires
        rec.id is Some,
        rec.id->0 <= 255,
        rec.players is Some,
        forall|i: int|
            0 <= i < rec.players->0.len() ==> {
                let entry = #[trigger] rec.players->0[i];
                &&& entry.name is Some
                &&& entry.abbreviation is Some
                &&& position_of(entry.abbreviation->0) is Some
            },
    ensures
        team_of(rec) is Ok,
{
    lemma_try_map_all(rec.players->0, entry_player());
}

impl Player {
    /// A player with the given name and role.
    pub fn new(name: String, position: Position) -> (r: Player)
        ensures
            r@ == (PlayerModel { name: name@, position }),
    {
        Player { name, position }
    }

    /// The player that a box-score entry describes.
    pub fn from_record(rec: &PlayerRecord) -> (r: Result<Player, ClassificationError>)
        ensures
            agrees(r, player_of(rec@)),
    {
        let name = match &rec.name {
            Some(n) => n.clone(),
            None => {
                return Err(ClassificationError::MissingRequiredField(Field::PlayerName));
            },
        };
        let abbr = match &rec.abbreviation {
            Some(a) => a,
            None => {
                return Err(
                    ClassificationError::MissingRequiredField(Field::PositionAbbreviation),
                );
            },
        };
        match Position::from_abbr(abbr.as_str()) {
            Ok(position) => Ok(Player::new(name, position)),
            Err(e) => Err(e),
        }
    }
}

impl Team {
    /// The team that a team block of a box score describes.
    pub fn from_record(rec: &TeamRecord) -> (r: Result<Team, ClassificationError>)
        ensures
            agrees(r, team_of(rec@)),
    {
        let id = match rec.id {
            Some(id) => if id > 255 {
                return Err(ClassificationError::MalformedScalar(Scalar::TeamId));
            } else {
                id as u8
            },
            None => {
                return Err(ClassificationError::MissingRequiredField(Field::TeamId));
            },
        };
        let entries = match &rec.players {
            Some(es) => es,
            None => {
                return Err(ClassificationError::MissingRequiredField(Field::Players));
            },
        };
        let mut players: Vec<Player> = Vec::new();
        let mut i: usize = 0;
        let ghost all = entries.deep_view();
        assert(all.take(0) =~= Seq::<PlayerRecordModel>::empty());
        assert(players.deep_view() =~= Seq::<PlayerModel>::empty());
        while i < entries.len()
            invariant
                i <= entries.len(),
                all == entries.deep_view(),
                rec@.players == Some(all),
                rec.id == Some(id as u64),
                try_map(all.take(i as int), entry_player()) == Ok::<
                    Seq<PlayerModel>,
                    ClassificationError,
                >(players.deep_view()),
            decreases entries.len() - i,
        {
            proof {
                lemma_try_map_step(all, entry_player(), i as int);
                assert(all[i as int] == entries[i as int]@);
            }
            match Player::from_record(&entries[i]) {
                Ok(p) => {
                    let ghost before = players.deep_view();
                    players.push(p);
                    assert(players.deep_view() =~= before.push(p@));
                },
                Err(e) => {
                    proof {
                        lemma_try_map_err(all, entry_player(), i + 1);
                    }
                    return Err(e);
                },
            }
            i = i + 1;
        }
        assert(all.take(i as int) =~= all);
        Ok(Team { id, players })
    }
}

} // verus!
