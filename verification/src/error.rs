use vstd::prelude::*;

verus! {

/// Why an operation was refused. Every failure is synchronous and
/// transaction-aborting: an operation that returns an error leaves every
/// record it was handed unchanged.
#[derive(Clone, Copy, Debug, PartialEq, Eq, Structural)]
pub enum ErrorCode {
    /// A checked addition, subtraction, multiplication or division on a
    /// balance left the integer domain (including division by a cap of zero,
    /// and a claim whose recorded `received_amount` exceeds the recomputed
    /// entitlement).
    Overflow,
    /// A commit would push `lifetime_tokens_collected` above
    /// `max_collectable_tokens`.
    MaxCollectableTokensExceeded,
    /// A cap decrease was requested with a value below the amount already
    /// collected.
    MaxCollectableTokensBelowTotal,
    /// A collection was to be created with a cap of zero.
    InvalidMaxCollectableTokens,
    /// A cap decrease was requested with a value not strictly below the
    /// current cap.
    InvalidDecrease,
    /// The caller is not the authority or depositor the operation requires.
    Unauthorized,
    /// A supplied account does not match the one recorded in the owning
    /// entity (defends against substituting a foreign vault or record).
    RecordMismatch,
}

} // verus!
