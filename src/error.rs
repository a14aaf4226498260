//! Failures of the escrow operations.
use vstd::prelude::*;

verus! {

/// Every way an operation can be refused. A refused operation changes nothing.
#[derive(Debug, Clone, Copy, PartialEq, Eq, Structural)]
pub enum ContractError {
    /// The caller may not perform this operation on the agreement.
    Unauthorized {},
    /// A top-up with a token the agreement does not accept.
    NotInWhitelist {},
    /// The agreement has passed its end height or end time.
    Expired {},
    /// A contribution of zero value.
    EmptyBalance {},
    /// The id already names a live agreement, or a claim is already open on it.
    AlreadyInUse {},
    /// Approval was asked for before a recipient was set.
    RecipientNotSet {},
    /// The coverage pool cannot back the agreement.
    InsufficientCover {},
    /// No record exists under the requested key.
    NotFound {},
    /// An amount would exceed the largest representable value.
    Overflow {},
    /// An amount would fall below zero.
    Underflow {},
}

} // verus!
