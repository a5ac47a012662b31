use vstd::prelude::*;

verus! {

/// Every way in which an escrow operation can fail. A failed operation
/// changes no state.
#[derive(Clone, Copy, Debug, PartialEq, Eq, Structural)]
pub enum ContractError {
    /// A deposit notification carried a zero amount.
    InvalidZeroAmount,
    /// A deposit arrived while the depositor already had an active escrow.
    DuplicateEscrow,
    /// A redemption or query named a depositor with no active escrow.
    NoActiveEscrow,
    /// A redemption came before the record's maturity time.
    EscrowNotMatured,
    /// A caller tried to act for an identity other than its own (a deposit
    /// notification that did not come from the trusted token ledger).
    Unauthorized,
    /// The configuration was set a second time.
    AlreadyInitialized,
}

} // verus!
