use uuid::Uuid;
use vstd::prelude::*;

use crate::gamemode::GameMode;
use crate::ids::uuid_eq;

verus! {

/// Full lobby state broadcasted to all lobby members on any change.
#[derive(Clone, Debug)]
pub struct LobbyState {
    pub id: Uuid,
    pub game_mode: GameMode,
    pub players: Vec<LobbyPlayer>,
    pub max_players: u32,
    pub state: LobbyStatus,
}

impl LobbyState {
    /// Whether the lobby has room for more players.
    pub open spec fn spec_is_full(&self) -> bool {
        self.players@.len() < self.max_players
    }

    /// Whether the lobby has players and all of them are ready.
    pub open spec fn spec_all_ready(&self) -> bool {
        self.players@.len() > 0 && forall|i: int|
            0 <= i < self.players@.len() ==> #[trigger] self.players@[i].ready
    }

    /// Whether the lobby has room for more players.
    pub fn is_full(&self) -> (full: bool)
        ensures
            full == self.spec_is_full(),
    {
        self.players.len() < self.max_players as usize
    }

    /// Number of players currently in the lobby.
    pub fn player_count(&self) -> (n: usize)
        ensures
            n == self.players@.len(),
    {
        self.players.len()
    }

    /// Whether all players in the lobby are ready.
    pub fn all_ready(&self) -> (ready: bool)
        ensures
            ready == self.spec_all_ready(),
    {
        if self.players.len() == 0 {
            return false;
        }
        let mut i: usize = 0;
        while i < self.players.len()
            invariant
                i <= self.players@.len(),
                forall|j: int| 0 <= j < i ==> #[trigger] self.players@[j].ready,
            decreases self.players@.len() - i,
        {
            if !self.players[i].ready {
                return false;
            }
            i += 1;
        }
        true
    }
}

/// A lobby whose player at any position, the first included, is not ready is
/// not all ready, and in an all-ready lobby every player is ready.
pub proof fn lemma_all_ready_needs_every_player(lobby: LobbyState, i: int)
    requires
        0 <= i < lobby.players@.len(),
    ensures
        !lobby.players@[i].ready ==> !lobby.spec_all_ready(),
        lobby.spec_all_ready() ==> lobby.players@[i].ready,
{
}

/// An empty lobby is never all ready.
pub proof fn lemma_empty_lobby_not_ready(lobby: LobbyState)
    requires
        lobby.players@.len() == 0,
    ensures
        !lobby.spec_all_ready(),
{
}

/// When a player joins, the lobby is all ready exactly when the newcomer is
/// ready and everyone who was there before was ready too.
pub proof fn lemma_join_keeps_readiness(before: LobbyState, after: LobbyState, newcomer: LobbyPlayer)
    requires
        after.players@ == before.players@.push(newcomer),
    ensures
        after.spec_all_ready() == (newcomer.ready && (before.players@.len() == 0
            || before.spec_all_ready())),
{
    let n = before.players@.len();
    if after.spec_all_ready() {
        assert(after.players@[n as int] == newcomer);
        assert forall|i: int| 0 <= i < n implies #[trigger] before.players@[i].ready by {
            assert(after.players@[i] == before.players@[i]);
        }
    }
    if newcomer.ready && (n == 0 || before.spec_all_ready()) {
        assert forall|i: int| 0 <= i < after.players@.len() implies #[trigger] after.players@[i].ready by {
            if i < n {
                assert(after.players@[i] == before.players@[i]);
            }
        }
    }
}

/// Current phase of the lobby lifecycle.
#[derive(Clone, Debug, PartialEq, Eq, Structural)]
pub enum LobbyStatus {
    /// Waiting for players to join and ready up.
    Waiting,
    /// Countdown has started, match is about to begin.
    Starting,
    /// Match is actively in progress.
    InGame,
}

/// A player slot inside a lobby.
#[derive(Clone, Debug)]
pub struct LobbyPlayer {
    pub id: Uuid,
    pub username: String,
    pub ready: bool,
    pub team: Option<String>,
}

/// Current phase of the party lifecycle.
#[derive(Clone, Debug, PartialEq, Eq, Structural)]
pub enum PartyStatus {
    /// Party is formed but idle (no lobby, no matchmaking).
    Idle,
    /// Party members are in a lobby, waiting to ready up.
    InLobby,
    /// Party is in matchmaking search.
    Searching,
    /// Party is actively in a game session.
    InGame,
}

/// Party (pre-lobby group) information.
#[derive(Clone, Debug)]
pub struct PartyInfo {
    pub id: Uuid,
    pub leader_id: Uuid,
    pub members: Vec<PartyMember>,
    pub status: PartyStatus,
}

impl PartyInfo {
    /// Whether the given user is the party leader.
    pub fn is_leader(&self, user_id: Uuid) -> (leader: bool)
        ensures
            leader == (self.leader_id == user_id),
    {
        uuid_eq(&self.leader_id, &user_id)
    }

    /// Number of members in the party.
    pub fn member_count(&self) -> (n: usize)
        ensures
            n == self.members@.len(),
    {
        self.members.len()
    }
}

/// A member of a party.
#[derive(Clone, Debug)]
pub struct PartyMember {
    pub id: Uuid,
    pub username: String,
}

} // verus!
