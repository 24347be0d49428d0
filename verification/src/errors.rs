use vstd::prelude::*;

verus! {

/// Everything a settlement-core operation can fail with.
///
/// Validation and state errors are returned before any external call is
/// attempted; the two ledger errors surface a failed external transfer.
/// `ZeroAmount` rejects both a zero pledge and a refund claim by a caller
/// without any pledge to refund.
#[derive(Clone, Copy, PartialEq, Eq, Structural, Debug)]
pub enum OpError {
    ValidationError,
    NotFound,
    InvalidState,
    Unauthorized,
    AnonymousCaller,
    ZeroAmount,
    PeriodEnded,
    Busy,
    LedgerCallFailure,
    LedgerTransferError,
}

/// What came back from the external ledger for one settlement attempt.
///
/// `Confirmed` carries the confirmation handle (a ledger block index);
/// `CallFailed` is a transport-level failure reaching the ledger;
/// `Rejected` is an explicit refusal by the ledger.
#[derive(Clone, Copy, PartialEq, Eq, Structural, Debug)]
pub enum LedgerOutcome {
    Confirmed(u64),
    CallFailed,
    Rejected,
}

} // verus!
