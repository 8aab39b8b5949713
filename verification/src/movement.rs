use vstd::prelude::*;

use crate::protocol::PlayerActions;

verus! {

/// Which speed limit a moving player's input asks for.
#[derive(Clone, Copy, Debug, PartialEq, Eq, Structural)]
pub enum Gait {
    Crouch,
    Sprint,
    Walk,
}

/// The gait that `actions` asks for: crouching wins over sprinting, and
/// without either the player walks.
pub open spec fn spec_gait(actions: PlayerActions) -> Gait {
    if actions.has(PlayerActions::CROUCH) {
        Gait::Crouch
    } else if actions.has(PlayerActions::SPRINT) {
        Gait::Sprint
    } else {
        Gait::Walk
    }
}

/// The gait that a tick's input asks for.
pub fn gait(actions: PlayerActions) -> (g: Gait)
    ensures
        g == spec_gait(actions),
{
    if actions.contains(PlayerActions::CROUCH) {
        Gait::Crouch
    } else if actions.contains(PlayerActions::SPRINT) {
        Gait::Sprint
    } else {
        Gait::Walk
    }
}

/// Whether a tick starts a jump: the jump flag is set and the body stands on the ground.
pub fn starts_jump(actions: PlayerActions, grounded: bool) -> (jump: bool)
    ensures
        jump == (actions.has(PlayerActions::JUMP) && grounded),
{
    actions.contains(PlayerActions::JUMP) && grounded
}

/// Holding crouch always crouches, whatever else is held; sprint counts only
/// when crouch is not held; with neither the player walks. Adding the crouch
/// flag to any input makes it crouch, and removing it never leaves a crouch.
pub proof fn lemma_gait_precedence(actions: PlayerActions)
    ensures
        actions.0 & 0x02 != 0 ==> spec_gait(actions) == Gait::Crouch,
        actions.0 & 0x02 == 0 && actions.0 & 0x04 != 0 ==> spec_gait(actions) == Gait::Sprint,
        actions.0 & 0x06 == 0 ==> spec_gait(actions) == Gait::Walk,
        spec_gait(PlayerActions(actions.0 | 0x02)) == Gait::Crouch,
        spec_gait(PlayerActions(actions.0 & !0x02u8)) != Gait::Crouch,
{
    let a = actions.0;
    assert(a & 0x06 == 0 ==> a & 0x02 == 0 && a & 0x04 == 0) by (bit_vector);
    assert((a | 0x02) & 0x02 != 0) by (bit_vector);
    assert((a & !0x02u8) & 0x02 == 0) by (bit_vector);
}

} // verus!
