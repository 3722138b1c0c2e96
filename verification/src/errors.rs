use vstd::prelude::*;

verus! {

/// Failures raised by the program logic itself. Every check runs before any
/// effect, so whenever one of these is returned no funds have moved and no
/// record has changed.
#[derive(Clone, Copy, PartialEq, Eq, Structural, Debug)]
pub enum TipperError {
    /// A campaign name longer than the fixed 32-byte buffer was offered.
    TargetNameTooLong,
    /// A tip was submitted against a campaign that is not open.
    TipperClosed,
    /// A tip of zero was submitted.
    InvalidAmount,
    /// Crediting the tip would overflow the 64-bit balance accumulator.
    CapacityOverflow,
    /// A withdrawal was requested by someone other than the campaign owner.
    Unauthorized,
}

/// Failures as the host ledger reports them to a caller: either the storage
/// layer refused the operation before the program logic ran, or the logic
/// itself rejected it.
#[derive(Clone, Copy, PartialEq, Eq, Structural, Debug)]
pub enum LedgerError {
    /// A record already exists at the address derived from the given seeds,
    /// so no new record can be created there.
    AccountAlreadyInUse,
    /// No record exists at the address derived from the given seeds.
    AccountNotFound,
    /// The storage layer cooperated, but the program logic refused.
    Program(TipperError),
}

} // verus!
