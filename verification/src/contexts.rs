//! The two persistent record types of the presale ledger and the
//! identities that key them.

use vstd::prelude::*;

verus! {

/// Base-currency units that buy one whole token: one indivisible sale-token
/// unit costs `PRICE / SCALE` base units, so a payment of `p` base units
/// yields `p * SCALE / PRICE` indivisible units (rounded down).
pub const DEFAULT_PRICE: u64 = 133000;

/// Indivisible units per whole token (nine decimal places).
pub const SCALE: u64 = 1000000000;

/// An address identifying a participant, admin, treasury or token kind.
/// The hosting runtime resolves it to a real account; the ledger only
/// compares identities for equality. The all-zero identity is "null" and
/// never names a real party.
#[derive(Clone, Copy, PartialEq, Eq, Structural, Debug)]
pub struct Identity {
    pub id: u64,
}

impl Identity {
    /// The null identity, rejected wherever a real party is expected.
    pub open spec fn spec_null() -> Identity {
        Identity { id: 0 }
    }

    #[verifier::when_used_as_spec(spec_null)]
    pub fn null() -> (r: Identity)
        ensures
            r == Identity::spec_null(),
    {
        Identity { id: 0 }
    }

    pub open spec fn spec_is_null(&self) -> bool {
        *self == Identity::spec_null()
    }

    #[verifier::when_used_as_spec(spec_is_null)]
    pub fn is_null(&self) -> (r: bool)
        ensures
            r == self.spec_is_null(),
    {
        self.id == 0
    }
}

/// The sale ledger: one record per deployment, holding the presale
/// parameters and the pool's remaining inventory.
#[derive(Clone, Copy, PartialEq, Eq, Structural, Debug)]
pub struct PresaleInfo {
    /// Guards against re-provisioning.
    pub is_initialized: bool,
    /// The only identity allowed to administer and reclaim.
    pub admin: Identity,
    /// The fungible asset being sold; immutable once provisioned.
    pub mint: Identity,
    /// Units of `mint` held in pool custody and still for sale.
    pub amount: u64,
    /// Base-currency cost per whole token, at fixed-point scale `SCALE`.
    pub price: u64,
    /// Epoch second at or before which claim and reclaim do nothing;
    /// zero means the unlock time is not yet set.
    pub end_timestamp: u64,
    /// Destination of incoming purchase payments.
    pub treasury: Identity,
}

impl PresaleInfo {
    /// The record as it stands before provisioning.
    pub open spec fn spec_empty() -> PresaleInfo {
        PresaleInfo {
            is_initialized: false,
            admin: Identity::spec_null(),
            mint: Identity::spec_null(),
            amount: 0,
            price: 0,
            end_timestamp: 0,
            treasury: Identity::spec_null(),
        }
    }

    #[verifier::when_used_as_spec(spec_empty)]
    pub fn empty() -> (r: PresaleInfo)
        ensures
            r == PresaleInfo::spec_empty(),
    {
        PresaleInfo {
            is_initialized: false,
            admin: Identity::null(),
            mint: Identity::null(),
            amount: 0,
            price: 0,
            end_timestamp: 0,
            treasury: Identity::null(),
        }
    }

    /// A provisioned sale ledger always carries a positive unit price,
    /// so purchase's price division is meaningful.
    pub open spec fn wf(self) -> bool {
        self.is_initialized ==> self.price > 0
    }
}

/// The participant ledger: one record per participant, holding tokens
/// purchased but not yet withdrawn.
#[derive(Clone, Copy, PartialEq, Eq, Structural, Debug)]
pub struct UserInfo {
    /// Set on the record's first interaction; never cleared.
    pub is_initialized: bool,
    /// The participant this record belongs to; immutable once created.
    pub admin: Identity,
    /// Units of the sale token purchased but not yet claimed.
    pub amount: u64,
}

impl UserInfo {
    /// A record that was never initialized carries no balance: the host
    /// hands every fresh record in zeroed, and no operation credits an
    /// uninitialized record.
    pub open spec fn wf(self) -> bool {
        !self.is_initialized ==> self.amount == 0
    }

    /// The record as it stands before its participant's first interaction.
    pub open spec fn spec_empty() -> UserInfo {
        UserInfo { is_initialized: false, admin: Identity::spec_null(), amount: 0 }
    }

    #[verifier::when_used_as_spec(spec_empty)]
    pub fn empty() -> (r: UserInfo)
        ensures
            r == UserInfo::spec_empty(),
    {
        UserInfo { is_initialized: false, admin: Identity::null(), amount: 0 }
    }
}

} // verus!
