//! The ways in which a request to the engine fails. None of them is fatal:
//! each is handed back to the caller.

use vstd::prelude::*;

verus! {

/// Why a request was not carried out.
#[derive(Debug, Clone, Copy, PartialEq, Eq, Hash, Structural)]
pub enum Error {
    /// The skill costs more mana than the player has.
    InsufficientMana,
    /// The player does not own the skill that the action names.
    InvalidSkillId,
    /// A turn was asked of a session that is paused or completed.
    SessionNotActive,
    /// The target given is not the kind of target that the skill takes.
    InvalidTarget,
}

} // verus!
