//! A token presale ledger: an admin seeds a pool of fungible tokens at a
//! fixed price and an unlock time; participants pay base currency for an
//! allocation they may withdraw only after the unlock time has passed.
//!
//! The crate holds the accounting state machine alone. Moving tokens or
//! base currency between custody accounts, reading the clock, and checking
//! signatures are the hosting runtime's work: every operation here takes
//! the caller's identity and the current time as plain arguments and
//! reports, in its result, how much the host must transfer on its behalf.

pub mod contexts;
pub mod error;
pub mod ops;
pub mod model;
