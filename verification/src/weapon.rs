use vstd::prelude::*;

verus! {

/// Weapon inventory slot categories.
#[derive(Clone, Debug, PartialEq, Eq, Hash, Structural)]
pub enum WeaponSlot {
    Primary,
    Secondary,
    Melee,
    Equipment,
}

impl WeaponSlot {
    /// The name of the slot, as characters.
    pub open spec fn spec_display_name(self) -> Seq<char> {
        match self {
            WeaponSlot::Primary => "Primary"@,
            WeaponSlot::Secondary => "Secondary"@,
            WeaponSlot::Melee => "Melee"@,
            WeaponSlot::Equipment => "Equipment"@,
        }
    }

    /// Human-readable name of the slot.
    pub fn display_name(&self) -> (name: &'static str)
        ensures
            name@ == self.spec_display_name(),
    {
        match self {
            WeaponSlot::Primary => "Primary",
            WeaponSlot::Secondary => "Secondary",
            WeaponSlot::Melee => "Melee",
            WeaponSlot::Equipment => "Equipment",
        }
    }
}

/// Different slots have different names, so a name identifies its slot.
pub proof fn lemma_slot_names_distinct(a: WeaponSlot, b: WeaponSlot)
    ensures
        a != b ==> a.spec_display_name() != b.spec_display_name(),
{
    reveal_strlit("Primary");
    reveal_strlit("Secondary");
    reveal_strlit("Melee");
    reveal_strlit("Equipment");
    let (na, nb) = (a.spec_display_name(), b.spec_display_name());
    if a != b && na == nb {
        assert(na.len() == nb.len() && na[0] == nb[0]);
    }
}

/// Replicated weapon state sent over the network.
#[derive(Clone, Debug)]
pub struct NetworkWeaponState {
    pub weapon_id: String,
    pub slot: WeaponSlot,
    pub ammo_current: u32,
    pub ammo_reserve: u32,
    pub is_reloading: bool,
}

} // verus!
