use vstd::prelude::*;

verus! {

/// Why a command or a query on the board was refused.
#[derive(Clone, Copy, Debug, PartialEq, Eq, Structural)]
pub enum ContractError {
    /// The board record has not been created yet.
    NotInitialized,
    /// The board record exists already and cannot be created again.
    AlreadyInitialized,
    /// The counter is at `i32::MAX` and cannot be incremented.
    CountOverflow,
}

} // verus!
