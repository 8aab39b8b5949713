//! Shared data model and wire-framing rules of the Noctyrn client and server.

pub mod gamemode;
pub mod ids;
pub mod lobby;
pub mod map;
pub mod movement;
pub mod player;
pub mod protocol;
pub mod weapon;

pub use gamemode::GameMode;
pub use lobby::{LobbyPlayer, LobbyState, LobbyStatus, PartyInfo, PartyMember, PartyStatus};
pub use player::{FriendEntry, FriendRequestInfo, PlayerProfile, PlayerStats};
pub use protocol::{ClientMessage, DecodeError, PlayerActions, ServerMessage};
pub use weapon::{NetworkWeaponState, WeaponSlot};
