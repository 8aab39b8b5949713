use noctyrn_shared::map::{MapId, MapName};
use noctyrn_shared::{
    GameMode, LobbyPlayer, LobbyState, LobbyStatus, NetworkWeaponState, PartyInfo, PartyMember,
    PartyStatus, PlayerStats, WeaponSlot,
};
use uuid::Uuid;

#[test]
fn game_mode_names() {
    assert_eq!(GameMode::FreeForAll.display_name(), "Free For All");
    assert_eq!(GameMode::KingOfTheHill.display_name(), "King of the Hill");
    assert_eq!(GameMode::OneInTheChamber.display_name(), "One in the Chamber");
    assert_eq!(GameMode::FreeForAll.short_name(), "FFA");
    assert_eq!(GameMode::OneInTheChamber.short_name(), "OITC");
    assert_eq!(GameMode::Infected.short_name(), "INF");
}

#[test]
fn game_mode_player_limits() {
    assert_eq!(GameMode::TestingGrounds.max_players(), 16);
    assert_eq!(GameMode::TestingGrounds.min_players(), 1);
    assert_eq!(GameMode::OneInTheChamber.max_players(), 8);
    assert_eq!(GameMode::Infected.max_players(), 14);
    assert_eq!(GameMode::Assassins.min_players(), 3);
    for m in GameMode::all() {
        assert!(1 <= m.min_players() && m.min_players() <= m.max_players());
    }
}

#[test]
fn game_mode_teams() {
    assert!(GameMode::TeamDeathmatch.is_team_based());
    assert!(!GameMode::FreeForAll.is_team_based());
    assert_eq!(GameMode::Infected.team_count(), 2);
    assert_eq!(GameMode::GunGame.team_count(), 0);
    for m in GameMode::all() {
        assert_eq!(m.team_count() != 0, m.is_team_based());
    }
}

#[test]
fn game_mode_all_lists_each_once() {
    let all = GameMode::all();
    assert_eq!(all.len(), 14);
    assert_eq!(all[0], GameMode::FreeForAll);
    assert_eq!(all[13], GameMode::Infected);
    for (i, a) in all.iter().enumerate() {
        for b in &all[i + 1..] {
            assert_ne!(a, b);
        }
    }
}

#[test]
fn weapon_slot_names() {
    assert_eq!(WeaponSlot::Primary.display_name(), "Primary");
    assert_eq!(WeaponSlot::Equipment.display_name(), "Equipment");
    let w = NetworkWeaponState {
        weapon_id: "colt_m4a1".to_string(),
        slot: WeaponSlot::Melee,
        ammo_current: 30,
        ammo_reserve: 90,
        is_reloading: false,
    };
    assert_eq!(w.slot.display_name(), "Melee");
}

fn player(n: u128, ready: bool) -> LobbyPlayer {
    LobbyPlayer {
        id: Uuid::from_u128(n),
        username: format!("p{n}"),
        ready,
        team: None,
    }
}

#[test]
fn lobby_fullness_and_readiness() {
    let mut lobby = LobbyState {
        id: Uuid::from_u128(1),
        game_mode: GameMode::FreeForAll,
        players: vec![],
        max_players: 2,
        state: LobbyStatus::Waiting,
    };
    assert_eq!(lobby.player_count(), 0);
    assert!(lobby.is_full());
    assert!(!lobby.all_ready());
    lobby.players.push(player(2, true));
    assert!(lobby.is_full());
    assert!(lobby.all_ready());
    lobby.players.push(player(3, false));
    assert_eq!(lobby.player_count(), 2);
    assert!(!lobby.is_full());
    assert!(!lobby.all_ready());
    lobby.players[1].ready = true;
    assert!(lobby.all_ready());
}

#[test]
fn party_leader_and_members() {
    let party = PartyInfo {
        id: Uuid::from_u128(10),
        leader_id: Uuid::from_u128(11),
        members: vec![
            PartyMember { id: Uuid::from_u128(11), username: "lead".to_string() },
            PartyMember { id: Uuid::from_u128(12), username: "mate".to_string() },
        ],
        status: PartyStatus::Idle,
    };
    assert!(party.is_leader(Uuid::from_u128(11)));
    assert!(!party.is_leader(Uuid::from_u128(12)));
    assert_eq!(party.member_count(), 2);
}

#[test]
fn map_identifiers() {
    let id = MapId::new("dust_storm");
    assert_eq!(id.0, "dust_storm");
    assert_eq!(MapName::from_name("dust_storm"), Some(MapName::DustStorm));
    assert_eq!(MapName::from_name("city"), Some(MapName::City));
    assert_eq!(MapName::from_name("testing_grounds"), Some(MapName::TestingGrounds));
    assert_eq!(MapName::from_name("atlantis"), None);
    assert_eq!(MapName::from_name(""), None);
}

#[test]
fn player_stats_default_is_zero() {
    let s = PlayerStats::default();
    assert_eq!(s.total_kills, 0);
    assert_eq!(s.total_deaths, 0);
    assert_eq!(s.total_wins, 0);
    assert_eq!(s.total_losses, 0);
    assert_eq!(s.total_matches, 0);
    assert_eq!(s.playtime_seconds, 0);
}
