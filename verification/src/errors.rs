use vstd::prelude::*;

verus! {

/// Typed failures surfaced by the core operations.
///
/// Authentication failures are deliberately indistinguishable between a
/// wrong password, an unknown user and a soft-deleted user, so that a
/// caller cannot enumerate accounts.
#[derive(Clone, Copy, Debug, PartialEq, Eq, Structural)]
pub enum ServiceError {
    /// Missing, malformed or expired credential, or an unknown or
    /// soft-deleted subject.
    Unauthenticated,
    /// A referenced post or like edge is absent.
    NotFound,
    /// A duplicate like, or a duplicate unique key (public identifier,
    /// username).
    Conflict,
    /// A malformed request value.
    ValidationFailure,
    /// The durable store cannot take another row.
    StorageUnavailable,
    /// A hash, sign or verify primitive failed internally.
    CryptoFailure,
}

} // verus!
