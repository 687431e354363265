//! The error kinds the engine reports. All are local validation failures on
//! otherwise well-shaped input; each is recoverable, meant for a driver to
//! reject the attempt and re-prompt, never to crash on.

use vstd::prelude::*;

verus! {

/// Why a query or a transition was refused.
#[derive(Debug, Clone, Copy, PartialEq, Eq, Structural)]
pub enum Error {
    /// A city or player index outside its valid bounds.
    OutOfRange,
    /// The mover is not the active player.
    IllegalMove,
    /// The destination is not reachable from the current city in one step.
    NotAdjacent,
    /// The turn's action budget is exhausted.
    NoActionsRemaining,
}

} // verus!
