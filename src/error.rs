use vstd::prelude::*;

verus! {

/// Which of the two transfers a ledger result belongs to.
#[derive(Clone, Copy, Debug, PartialEq, Eq, Structural)]
pub enum Leg {
    /// Native currency from the requester to the payee.
    Forward,
    /// Tokens from the vault to the requester's holding account.
    Reverse,
}

/// Why a swap stopped short of completion.
#[derive(Clone, Copy, Debug, PartialEq, Eq, Structural)]
pub enum SwapError {
    /// The payload does not hold an 8-byte amount.
    MalformedInput,
    /// The amount is zero, or too large once scaled.
    InvalidAmount,
    /// Fewer account references than the swap needs.
    NotEnoughAccounts,
    /// The token-transfer service named is not the token program.
    IncorrectProgramId,
    /// The delegated authority's seeds do not give the vault owner's address.
    AuthorityMismatch,
    /// The ledger refused the transfer of the given leg, with its error code.
    TransferFailed { leg: Leg, code: u64 },
    /// The ledger could not ensure the requester's holding account.
    HoldingAccountFailed { code: u64 },
}

} // verus!
