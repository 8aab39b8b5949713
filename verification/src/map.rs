use vstd::prelude::*;

verus! {

/// Identifier of a map, by its name.
#[derive(Debug, Clone, PartialEq, Eq, Hash)]
pub struct MapId(pub String);

impl MapId {
    /// The identifier of the map named `s`.
    pub fn new(s: &str) -> (id: Self)
        ensures
            id.0@ == s@,
    {
        MapId(s.to_string())
    }
}

/// The maps whose collider and spawn data ship with the game.
#[derive(Clone, Copy, Debug, PartialEq, Eq, Hash, Structural)]
pub enum MapName {
    DustStorm,
    City,
    TestingGrounds,
}

impl MapName {
    /// The name by which the map is loaded, as characters.
    pub open spec fn spec_name(self) -> Seq<char> {
        match self {
            MapName::DustStorm => "dust_storm"@,
            MapName::City => "city"@,
            MapName::TestingGrounds => "testing_grounds"@,
        }
    }

    /// The map that `name` names, if it is one that ships with the game.
    pub fn from_name(name: &str) -> (map: Option<MapName>)
        ensures
            match map {
                Some(m) => name@ == m.spec_name(),
                None => forall|m: MapName| name@ != m.spec_name(),
            },
    {
        if str_eq(name, "dust_storm") {
            Some(MapName::DustStorm)
        } else if str_eq(name, "city") {
            Some(MapName::City)
        } else if str_eq(name, "testing_grounds") {
            Some(MapName::TestingGrounds)
        } else {
            proof {
                assert forall|m: MapName| name@ != m.spec_name() by {
                    match m {
                        MapName::DustStorm => {},
                        MapName::City => {},
                        MapName::TestingGrounds => {},
                    }
                }
            }
            None
        }
    }
}

/// Different maps are loaded by different names, so `from_name` finds each
/// map by its own name.
pub proof fn lemma_map_names_distinct(a: MapName, b: MapName)
    ensures
        a != b ==> a.spec_name() != b.spec_name(),
{
    reveal_strlit("dust_storm");
    reveal_strlit("city");
    reveal_strlit("testing_grounds");
    let (na, nb) = (a.spec_name(), b.spec_name());
    if a != b && na == nb {
        assert(na.len() == nb.len());
    }
}

/// Whether the two strings hold the same characters.
fn str_eq(a: &str, b: &str) -> (same: bool)
    ensures
        same == (a@ == b@),
{
    a.to_owned() == b.to_owned()
}

} // verus!
