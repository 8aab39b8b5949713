use uuid::Uuid;
use vstd::prelude::*;

verus! {

/// Full player profile returned from the server.
#[derive(Clone, Debug)]
pub struct PlayerProfile {
    pub id: Uuid,
    pub username: String,
    pub email: String,
    pub level: i32,
    pub xp: i32,
    pub stats: PlayerStats,
    pub currency: i64,
    /// ISO 8601 formatted timestamp.
    pub created_at: String,
}

/// Aggregate stats tracked across all matches.
#[derive(Clone, Debug)]
pub struct PlayerStats {
    pub total_kills: i32,
    pub total_deaths: i32,
    pub total_wins: i32,
    pub total_losses: i32,
    pub total_matches: i32,
    pub playtime_seconds: i64,
}

impl Default for PlayerStats {
    /// Stats of a player who has played no match yet.
    fn default() -> (stats: Self)
        ensures
            stats == (PlayerStats {
                total_kills: 0,
                total_deaths: 0,
                total_wins: 0,
                total_losses: 0,
                total_matches: 0,
                playtime_seconds: 0,
            }),
    {
        PlayerStats {
            total_kills: 0,
            total_deaths: 0,
            total_wins: 0,
            total_losses: 0,
            total_matches: 0,
            playtime_seconds: 0,
        }
    }
}

/// A single entry in the player's friends list.
#[derive(Clone, Debug)]
pub struct FriendEntry {
    pub id: Uuid,
    pub username: String,
    pub level: i32,
    pub online: bool,
}

/// Information about a pending friend request (incoming or outgoing).
#[derive(Clone, Debug)]
pub struct FriendRequestInfo {
    pub id: Uuid,
    pub from_username: String,
    pub from_user_id: Uuid,
    pub to_username: String,
    pub to_user_id: Uuid,
    /// ISO 8601 formatted timestamp.
    pub created_at: String,
}

} // verus!
