//! Error kinds raised by the ledger's operations.

use vstd::prelude::*;

verus! {

/// Why an operation refused to run. Every error is terminal for the
/// transition that raised it: the host discards all of its effects.
#[derive(Clone, Copy, PartialEq, Eq, Structural, Debug)]
pub enum ErrorCode {
    /// Provisioning was attempted on an already-provisioned sale ledger.
    AlreadyInitialized,
    /// The caller is not the sale ledger's current admin.
    Unauthorized,
    /// A null or self-referential identity was supplied.
    InvalidArgument,
    /// The purchase would take more tokens than the pool still holds.
    InsufficientInventory,
    /// The participant ledger for the claiming party does not exist yet.
    NotFound,
    /// The host's custody-transfer collaborator failed; raised by the
    /// host, never by the ledger itself.
    TransferFailed,
}

} // verus!
