use vstd::prelude::*;

verus! {

/// All supported game modes, shared between client and server.
#[derive(Clone, Debug, PartialEq, Eq, Hash, Structural)]
pub enum GameMode {
    FreeForAll,
    TeamDeathmatch,
    KillConfirmed,
    CaptureTheFlag,
    Assassins,
    KingOfTheHill,
    Hardpoint,
    CapturePoint,
    TestingGrounds,
    Juggernaut,
    HighExplosives,
    OneInTheChamber,
    GunGame,
    Infected,
}

impl GameMode {
    /// The human-readable name of the mode, as characters.
    pub open spec fn spec_display_name(self) -> Seq<char> {
        match self {
            GameMode::FreeForAll => "Free For All"@,
            GameMode::TeamDeathmatch => "Team Deathmatch"@,
            GameMode::KillConfirmed => "Kill Confirmed"@,
            GameMode::CaptureTheFlag => "Capture The Flag"@,
            GameMode::Assassins => "Assassins"@,
            GameMode::KingOfTheHill => "King of the Hill"@,
            GameMode::Hardpoint => "Hardpoint"@,
            GameMode::CapturePoint => "Capture Point"@,
            GameMode::TestingGrounds => "Testing Grounds"@,
            GameMode::Juggernaut => "Juggernaut"@,
            GameMode::HighExplosives => "High Explosives"@,
            GameMode::OneInTheChamber => "One in the Chamber"@,
            GameMode::GunGame => "Gun Game"@,
            GameMode::Infected => "Infected"@,
        }
    }

    /// The abbreviated name of the mode, as characters.
    pub open spec fn spec_short_name(self) -> Seq<char> {
        match self {
            GameMode::FreeForAll => "FFA"@,
            GameMode::TeamDeathmatch => "TDM"@,
            GameMode::KillConfirmed => "KC"@,
            GameMode::CaptureTheFlag => "CTF"@,
            GameMode::Assassins => "ASN"@,
            GameMode::KingOfTheHill => "KOTH"@,
            GameMode::Hardpoint => "HP"@,
            GameMode::CapturePoint => "CP"@,
            GameMode::TestingGrounds => "TG"@,
            GameMode::Juggernaut => "JUG"@,
            GameMode::HighExplosives => "HE"@,
            GameMode::OneInTheChamber => "OITC"@,
            GameMode::GunGame => "GG"@,
            GameMode::Infected => "INF"@,
        }
    }

    /// Upper bound on the players of one match of this mode.
    pub open spec fn spec_max_players(self) -> u32 {
        match self {
            GameMode::Assassins | GameMode::Juggernaut | GameMode::GunGame => 10,
            GameMode::TestingGrounds => 16,
            GameMode::OneInTheChamber => 8,
            GameMode::Infected => 14,
            _ => 12,
        }
    }

    /// Number of players needed before a match of this mode may start.
    pub open spec fn spec_min_players(self) -> u32 {
        match self {
            GameMode::FreeForAll | GameMode::OneInTheChamber | GameMode::GunGame => 2,
            GameMode::Assassins | GameMode::Juggernaut => 3,
            GameMode::TestingGrounds => 1,
            _ => 4,
        }
    }

    /// The modes that are played in teams.
    pub open spec fn spec_is_team_based(self) -> bool {
        match self {
            GameMode::TeamDeathmatch
            | GameMode::KillConfirmed
            | GameMode::CaptureTheFlag
            | GameMode::KingOfTheHill
            | GameMode::Hardpoint
            | GameMode::CapturePoint
            | GameMode::HighExplosives
            | GameMode::Infected => true,
            _ => false,
        }
    }

    /// Every mode, in declaration order.
    pub open spec fn spec_all() -> Seq<GameMode> {
        seq![
            GameMode::FreeForAll,
            GameMode::TeamDeathmatch,
            GameMode::KillConfirmed,
            GameMode::CaptureTheFlag,
            GameMode::Assassins,
            GameMode::KingOfTheHill,
            GameMode::Hardpoint,
            GameMode::CapturePoint,
            GameMode::TestingGrounds,
            GameMode::Juggernaut,
            GameMode::HighExplosives,
            GameMode::OneInTheChamber,
            GameMode::GunGame,
            GameMode::Infected,
        ]
    }

    /// Human-readable display name for UI.
    pub fn display_name(&self) -> (name: &'static str)
        ensures
            name@ == self.spec_display_name(),
    {
        match self {
            GameMode::FreeForAll => "Free For All",
            GameMode::TeamDeathmatch => "Team Deathmatch",
            GameMode::KillConfirmed => "Kill Confirmed",
            GameMode::CaptureTheFlag => "Capture The Flag",
            GameMode::Assassins => "Assassins",
            GameMode::KingOfTheHill => "King of the Hill",
            GameMode::Hardpoint => "Hardpoint",
            GameMode::CapturePoint => "Capture Point",
            GameMode::TestingGrounds => "Testing Grounds",
            GameMode::Juggernaut => "Juggernaut",
            GameMode::HighExplosives => "High Explosives",
            GameMode::OneInTheChamber => "One in the Chamber",
            GameMode::GunGame => "Gun Game",
            GameMode::Infected => "Infected",
        }
    }

    /// Short abbreviated name for scoreboards, HUD elements, etc.
    pub fn short_name(&self) -> (name: &'static str)
        ensures
            name@ == self.spec_short_name(),
    {
        match self {
            GameMode::FreeForAll => "FFA",
            GameMode::TeamDeathmatch => "TDM",
            GameMode::KillConfirmed => "KC",
            GameMode::CaptureTheFlag => "CTF",
            GameMode::Assassins => "ASN",
            GameMode::KingOfTheHill => "KOTH",
            GameMode::Hardpoint => "HP",
            GameMode::CapturePoint => "CP",
            GameMode::TestingGrounds => "TG",
            GameMode::Juggernaut => "JUG",
            GameMode::HighExplosives => "HE",
            GameMode::OneInTheChamber => "OITC",
            GameMode::GunGame => "GG",
            GameMode::Infected => "INF",
        }
    }

    /// Maximum number of players allowed in a match of this mode.
    pub fn max_players(&self) -> (n: u32)
        ensures
            n == self.spec_max_players(),
    {
        match self {
            GameMode::FreeForAll => 12,
            GameMode::TeamDeathmatch => 12,
            GameMode::KillConfirmed => 12,
            GameMode::CaptureTheFlag => 12,
            GameMode::Assassins => 10,
            GameMode::KingOfTheHill => 12,
            GameMode::Hardpoint => 12,
            GameMode::CapturePoint => 12,
            GameMode::TestingGrounds => 16,
            GameMode::Juggernaut => 10,
            GameMode::HighExplosives => 12,
            GameMode::OneInTheChamber => 8,
            GameMode::GunGame => 10,
            GameMode::Infected => 14,
        }
    }

    /// Minimum number of players required to start a match.
    pub fn min_players(&self) -> (n: u32)
        ensures
            n == self.spec_min_players(),
    {
        match self {
            GameMode::FreeForAll => 2,
            GameMode::TeamDeathmatch => 4,
            GameMode::KillConfirmed => 4,
            GameMode::CaptureTheFlag => 4,
            GameMode::Assassins => 3,
            GameMode::KingOfTheHill => 4,
            GameMode::Hardpoint => 4,
            GameMode::CapturePoint => 4,
            GameMode::TestingGrounds => 1,
            GameMode::Juggernaut => 3,
            GameMode::HighExplosives => 4,
            GameMode::OneInTheChamber => 2,
            GameMode::GunGame => 2,
            GameMode::Infected => 4,
        }
    }

    /// Whether this mode uses team-based gameplay.
    pub fn is_team_based(&self) -> (team: bool)
        ensures
            team == self.spec_is_team_based(),
    {
        match self {
            GameMode::TeamDeathmatch
            | GameMode::KillConfirmed
            | GameMode::CaptureTheFlag
            | GameMode::KingOfTheHill
            | GameMode::Hardpoint
            | GameMode::CapturePoint
            | GameMode::HighExplosives
            | GameMode::Infected => true,
            _ => false,
        }
    }

    /// Number of teams for team-based modes (0 for non-team modes).
    pub fn team_count(&self) -> (n: u32)
        ensures
            n == (if self.spec_is_team_based() { 2u32 } else { 0u32 }),
    {
        match self {
            _ if !self.is_team_based() => 0,
            GameMode::Infected => 2,  // survivors vs infected
            _ => 2,
        }
    }

    /// Every game mode variant, in declaration order.
    pub fn all() -> (modes: &'static [GameMode])
        ensures
            modes@ == Self::spec_all(),
    {
        &[
            GameMode::FreeForAll,
            GameMode::TeamDeathmatch,
            GameMode::KillConfirmed,
            GameMode::CaptureTheFlag,
            GameMode::Assassins,
            GameMode::KingOfTheHill,
            GameMode::Hardpoint,
            GameMode::CapturePoint,
            GameMode::TestingGrounds,
            GameMode::Juggernaut,
            GameMode::HighExplosives,
            GameMode::OneInTheChamber,
            GameMode::GunGame,
            GameMode::Infected,
        ]
    }
}

/// Every mode needs at least one player, and its minimum never exceeds its maximum.
pub proof fn lemma_player_limits_consistent(mode: GameMode)
    ensures
        1 <= mode.spec_min_players() <= mode.spec_max_players(),
{
}

/// A match can always hold at least twice the players it needs to start, and
/// every mode takes between 8 and 16 players.
pub proof fn lemma_player_capacity_range(mode: GameMode)
    ensures
        2 * mode.spec_min_players() <= mode.spec_max_players(),
        8 <= mode.spec_max_players() <= 16,
{
}

/// Team modes need two players on each of their teams to start, and split their
/// capacity evenly between the teams: six a side, or seven a side in
/// Infected. Modes without teams start with fewer than four players.
pub proof fn lemma_team_modes_fill_teams(mode: GameMode)
    ensures
        mode.spec_is_team_based() ==> mode.spec_min_players() == 2 * 2,
        mode.spec_is_team_based() && mode != GameMode::Infected ==> mode.spec_max_players() == 6 * 2,
        mode == GameMode::Infected ==> mode.spec_is_team_based() && mode.spec_max_players() == 7 * 2,
        !mode.spec_is_team_based() ==> mode.spec_min_players() < 4,
        mode.spec_is_team_based() <==> mode.spec_min_players() == 4,
{
}

/// Objective modes (flags, hills, hardpoints, capture points) and the
/// team-deathmatch family are played in teams; the rest are every player
/// for themselves.
pub proof fn lemma_team_modes(mode: GameMode)
    ensures
        mode.spec_is_team_based() <==> (mode == GameMode::TeamDeathmatch
            || mode == GameMode::KillConfirmed || mode == GameMode::CaptureTheFlag
            || mode == GameMode::KingOfTheHill || mode == GameMode::Hardpoint
            || mode == GameMode::CapturePoint || mode == GameMode::HighExplosives
            || mode == GameMode::Infected),
{
}

/// Each mode's abbreviation starts with the same letter as its display name,
/// and both names tell the modes apart.
pub proof fn lemma_names_identify_mode(a: GameMode, b: GameMode)
    ensures
        a.spec_display_name().len() > 0,
        a.spec_short_name().len() > 0,
        a.spec_short_name()[0] == a.spec_display_name()[0],
        a != b ==> a.spec_display_name() != b.spec_display_name(),
        a != b ==> a.spec_short_name() != b.spec_short_name(),
{
    reveal_strlit("Free For All");
    reveal_strlit("Team Deathmatch");
    reveal_strlit("Kill Confirmed");
    reveal_strlit("Capture The Flag");
    reveal_strlit("Assassins");
    reveal_strlit("King of the Hill");
    reveal_strlit("Hardpoint");
    reveal_strlit("Capture Point");
    reveal_strlit("Testing Grounds");
    reveal_strlit("Juggernaut");
    reveal_strlit("High Explosives");
    reveal_strlit("One in the Chamber");
    reveal_strlit("Gun Game");
    reveal_strlit("Infected");
    reveal_strlit("FFA");
    reveal_strlit("TDM");
    reveal_strlit("KC");
    reveal_strlit("CTF");
    reveal_strlit("ASN");
    reveal_strlit("KOTH");
    reveal_strlit("HP");
    reveal_strlit("CP");
    reveal_strlit("TG");
    reveal_strlit("JUG");
    reveal_strlit("HE");
    reveal_strlit("OITC");
    reveal_strlit("GG");
    reveal_strlit("INF");
    let (da, db) = (a.spec_display_name(), b.spec_display_name());
    let (sa, sb) = (a.spec_short_name(), b.spec_short_name());
    if a != b && da == db {
        assert(da.len() == db.len() && da[0] == db[0] && da[2] == db[2]);
    }
    if a != b && sa == sb {
        assert(sa.len() == sb.len() && sa[0] == sb[0] && sa[1] == sb[1]);
    }
}

/// The list of all modes names each mode exactly once.
pub proof fn lemma_all_lists_each_mode_once(mode: GameMode)
    ensures
        GameMode::spec_all().len() == 14,
        GameMode::spec_all().contains(mode),
        GameMode::spec_all().no_duplicates(),
{
    let all = GameMode::spec_all();
    let i: int = match mode {
        GameMode::FreeForAll => 0,
        GameMode::TeamDeathmatch => 1,
        GameMode::KillConfirmed => 2,
        GameMode::CaptureTheFlag => 3,
        GameMode::Assassins => 4,
        GameMode::KingOfTheHill => 5,
        GameMode::Hardpoint => 6,
        GameMode::CapturePoint => 7,
        GameMode::TestingGrounds => 8,
        GameMode::Juggernaut => 9,
        GameMode::HighExplosives => 10,
        GameMode::OneInTheChamber => 11,
        GameMode::GunGame => 12,
        GameMode::Infected => 13,
    };
    assert(all[i] == mode);
}

} // verus!
