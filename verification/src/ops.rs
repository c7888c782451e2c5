//! The presale's atomic transitions.
//!
//! Each operation is a pure transition on the ledger records: the host
//! reads the clock and verifies the caller's signature before calling,
//! passes both in as plain values, and performs the custody transfers an
//! operation reports in its `Ok` result. A transition that returns an
//! error leaves every record exactly as it was, so the host can discard
//! it wholesale.
//!
//! Each operation's full behaviour is a `spec` transition function, and
//! the executable function's first `ensures` clause equates its effect
//! with that function; the remaining clauses restate the salient parts
//! for readers and callers.

use vstd::prelude::*;

use crate::contexts::{Identity, PresaleInfo, UserInfo, DEFAULT_PRICE, SCALE};
use crate::error::ErrorCode;

verus! {

/// Tokens bought by a payment of `lamports` base units at `price`:
/// `floor(lamports * SCALE / price)`. Truncation favours the pool; the
/// fractional remainder of the payment is an accepted rounding loss.
pub open spec fn spec_tokens_out(lamports: u64, price: u64) -> int {
    (lamports * SCALE) / (price as int)
}

/// Provisioning: how `initialize` transforms the sale ledger.
pub open spec fn spec_initialize(
    p: PresaleInfo,
    initializer: Identity,
    mint: Identity,
    treasury: Identity,
) -> (PresaleInfo, Result<(), ErrorCode>) {
    if p.is_initialized {
        (p, Err(ErrorCode::AlreadyInitialized))
    } else if treasury.spec_is_null() {
        (p, Err(ErrorCode::InvalidArgument))
    } else {
        (
            PresaleInfo {
                is_initialized: true,
                admin: initializer,
                mint: mint,
                amount: 0,
                price: DEFAULT_PRICE,
                end_timestamp: 0,
                treasury: treasury,
            },
            Ok(()),
        )
    }
}

/// Provision the sale ledger: record the admin, the sale token and the
/// treasury, and open the pool empty at the fixed unit price. Fails if
/// the ledger was already provisioned; the initial inventory arrives
/// through `deposit_token`.
pub fn initialize(
    p: &mut PresaleInfo,
    initializer: Identity,
    mint: Identity,
    treasury: Identity,
) -> (r: Result<(), ErrorCode>)
    ensures
        (*final(p), r) == spec_initialize(*old(p), initializer, mint, treasury),
        r is Ok <==> !old(p).is_initialized && !treasury.spec_is_null(),
        r is Err ==> *final(p) == *old(p),
        r is Ok ==> final(p).is_initialized && final(p).admin == initializer
            && final(p).mint == mint && final(p).treasury == treasury
            && final(p).amount == 0 && final(p).price == DEFAULT_PRICE
            && final(p).end_timestamp == 0,
        old(p).wf() ==> final(p).wf(),
{
    if p.is_initialized {
        return Err(ErrorCode::AlreadyInitialized);
    }
    if treasury.is_null() {
        return Err(ErrorCode::InvalidArgument);
    }
    *p = PresaleInfo {
        is_initialized: true,
        admin: initializer,
        mint: mint,
        amount: 0,
        price: DEFAULT_PRICE,
        end_timestamp: 0,
        treasury: treasury,
    };
    Ok(())
}

/// Inventory deposit: how `deposit_token` transforms the sale ledger.
pub open spec fn spec_deposit(p: PresaleInfo, amount: u64) -> (PresaleInfo, Result<
    (),
    ErrorCode,
>) {
    (
        PresaleInfo {
            is_initialized: p.is_initialized,
            admin: p.admin,
            mint: p.mint,
            amount: (p.amount + amount) as u64,
            price: p.price,
            end_timestamp: p.end_timestamp,
            treasury: p.treasury,
        },
        Ok(()),
    )
}

/// Record a deposit of `amount` sale tokens into pool custody. The host
/// moves the tokens from the depositor's account into the pool account in
/// the same transition; this operation grows the pool's cached balance to
/// match.
pub fn deposit_token(p: &mut PresaleInfo, amount: u64) -> (r: Result<(), ErrorCode>)
    requires
        old(p).is_initialized,
        old(p).amount + amount <= u64::MAX,
    ensures
        (*final(p), r) == spec_deposit(*old(p), amount),
        r is Ok,
        final(p).amount == old(p).amount + amount,
        final(p).is_initialized == old(p).is_initialized,
        final(p).admin == old(p).admin,
        final(p).mint == old(p).mint,
        final(p).price == old(p).price,
        final(p).end_timestamp == old(p).end_timestamp,
        final(p).treasury == old(p).treasury,
{
    p.amount = p.amount + amount;
    Ok(())
}

/// Reclaim: how `burn_token` transforms the sale ledger.
pub open spec fn spec_burn(p: PresaleInfo, caller: Identity, now_ts: u64) -> (PresaleInfo, Result<
    u64,
    ErrorCode,
>) {
    if caller != p.admin {
        (p, Err(ErrorCode::Unauthorized))
    } else if now_ts <= p.end_timestamp {
        (p, Ok(0))
    } else {
        (
            PresaleInfo {
                is_initialized: p.is_initialized,
                admin: p.admin,
                mint: p.mint,
                amount: 0,
                price: p.price,
                end_timestamp: p.end_timestamp,
                treasury: p.treasury,
            },
            Ok(p.amount),
        )
    }
}

/// Reclaim unsold inventory after the unlock time: empty the pool and
/// report how many tokens the host must move out of pool custody. Only
/// the admin may call; before (or at) the unlock time the call is a
/// deliberate no-op, not an error, so eager pre-deadline probes stay
/// harmless.
pub fn burn_token(p: &mut PresaleInfo, caller: Identity, now_ts: u64) -> (r: Result<
    u64,
    ErrorCode,
>)
    ensures
        (*final(p), r) == spec_burn(*old(p), caller, now_ts),
        r is Ok <==> caller == old(p).admin,
        caller != old(p).admin ==> r == Err::<u64, ErrorCode>(ErrorCode::Unauthorized)
            && *final(p) == *old(p),
        caller == old(p).admin && now_ts <= old(p).end_timestamp ==> r == Ok::<u64, ErrorCode>(0)
            && *final(p) == *old(p),
        caller == old(p).admin && now_ts > old(p).end_timestamp ==> r == Ok::<u64, ErrorCode>(
            old(p).amount,
        ) && final(p).amount == 0,
        final(p).admin == old(p).admin && final(p).end_timestamp == old(p).end_timestamp,
        old(p).wf() ==> final(p).wf(),
{
    if caller != p.admin {
        return Err(ErrorCode::Unauthorized);
    }
    if now_ts <= p.end_timestamp {
        return Ok(0);
    }
    let reclaimed = p.amount;
    p.amount = 0;
    Ok(reclaimed)
}

/// Admin handover: how `change_admin` transforms the sale ledger.
pub open spec fn spec_change_admin(p: PresaleInfo, caller: Identity, new_admin: Identity) -> (
    PresaleInfo,
    Result<(), ErrorCode>,
) {
    if caller != p.admin {
        (p, Err(ErrorCode::Unauthorized))
    } else if new_admin.spec_is_null() || new_admin == caller {
        (p, Err(ErrorCode::InvalidArgument))
    } else {
        (
            PresaleInfo {
                is_initialized: p.is_initialized,
                admin: new_admin,
                mint: p.mint,
                amount: p.amount,
                price: p.price,
                end_timestamp: p.end_timestamp,
                treasury: p.treasury,
            },
            Ok(()),
        )
    }
}

/// Hand the admin role to `new_admin`. Fails `Unauthorized` unless the
/// caller is the current admin, and `InvalidArgument` for a null or
/// self-referential replacement.
pub fn change_admin(p: &mut PresaleInfo, caller: Identity, new_admin: Identity) -> (r: Result<
    (),
    ErrorCode,
>)
    ensures
        (*final(p), r) == spec_change_admin(*old(p), caller, new_admin),
        r is Ok <==> caller == old(p).admin && !new_admin.spec_is_null() && new_admin != caller,
        caller != old(p).admin ==> r == Err::<(), ErrorCode>(ErrorCode::Unauthorized),
        r is Err ==> *final(p) == *old(p),
        r is Ok ==> final(p).admin == new_admin && final(p).amount == old(p).amount
            && final(p).treasury == old(p).treasury && final(p).end_timestamp == old(
            p,
        ).end_timestamp,
        old(p).wf() ==> final(p).wf(),
{
    if caller != p.admin {
        return Err(ErrorCode::Unauthorized);
    }
    if new_admin.is_null() || new_admin == caller {
        return Err(ErrorCode::InvalidArgument);
    }
    p.admin = new_admin;
    Ok(())
}

/// Treasury change: how `change_treasury` transforms the sale ledger.
pub open spec fn spec_change_treasury(p: PresaleInfo, caller: Identity, treasury: Identity) -> (
    PresaleInfo,
    Result<(), ErrorCode>,
) {
    if caller != p.admin {
        (p, Err(ErrorCode::Unauthorized))
    } else if treasury.spec_is_null() {
        (p, Err(ErrorCode::InvalidArgument))
    } else {
        (
            PresaleInfo {
                is_initialized: p.is_initialized,
                admin: p.admin,
                mint: p.mint,
                amount: p.amount,
                price: p.price,
                end_timestamp: p.end_timestamp,
                treasury: treasury,
            },
            Ok(()),
        )
    }
}

/// Point future purchase payments at `treasury`. Fails `Unauthorized`
/// unless the caller is the current admin, and `InvalidArgument` for a
/// null destination.
pub fn change_treasury(p: &mut PresaleInfo, caller: Identity, treasury: Identity) -> (r: Result<
    (),
    ErrorCode,
>)
    ensures
        (*final(p), r) == spec_change_treasury(*old(p), caller, treasury),
        r is Ok <==> caller == old(p).admin && !treasury.spec_is_null(),
        caller != old(p).admin ==> r == Err::<(), ErrorCode>(ErrorCode::Unauthorized),
        r is Err ==> *final(p) == *old(p),
        r is Ok ==> final(p).treasury == treasury && final(p).admin == old(p).admin
            && final(p).amount == old(p).amount,
        old(p).wf() ==> final(p).wf(),
{
    if caller != p.admin {
        return Err(ErrorCode::Unauthorized);
    }
    if treasury.is_null() {
        return Err(ErrorCode::InvalidArgument);
    }
    p.treasury = treasury;
    Ok(())
}

/// Deadline change: how `set_endtime` transforms the sale ledger.
pub open spec fn spec_set_endtime(
    p: PresaleInfo,
    caller: Identity,
    endtimestamp: u64,
    now_ts: u64,
) -> (PresaleInfo, Result<(), ErrorCode>) {
    if caller != p.admin {
        (p, Err(ErrorCode::Unauthorized))
    } else if now_ts < endtimestamp {
        (
            PresaleInfo {
                is_initialized: p.is_initialized,
                admin: p.admin,
                mint: p.mint,
                amount: p.amount,
                price: p.price,
                end_timestamp: endtimestamp,
                treasury: p.treasury,
            },
            Ok(()),
        )
    } else {
        (p, Ok(()))
    }
}

/// Set the unlock timestamp. Only the admin may call; a timestamp that is
/// not strictly in the future is silently ignored — the policy is "only a
/// future deadline may be set", not an error path.
pub fn set_endtime(p: &mut PresaleInfo, caller: Identity, endtimestamp: u64, now_ts: u64) -> (r:
    Result<(), ErrorCode>)
    ensures
        (*final(p), r) == spec_set_endtime(*old(p), caller, endtimestamp, now_ts),
        r is Ok <==> caller == old(p).admin,
        caller != old(p).admin ==> r == Err::<(), ErrorCode>(ErrorCode::Unauthorized)
            && *final(p) == *old(p),
        caller == old(p).admin && now_ts < endtimestamp ==> final(p).end_timestamp == endtimestamp,
        caller == old(p).admin && now_ts >= endtimestamp ==> *final(p) == *old(p),
        final(p).amount == old(p).amount && final(p).admin == old(p).admin,
        old(p).wf() ==> final(p).wf(),
{
    if caller != p.admin {
        return Err(ErrorCode::Unauthorized);
    }
    if now_ts < endtimestamp {
        p.end_timestamp = endtimestamp;
    }
    Ok(())
}

/// Participant-record creation: how `create_user_info` transforms the
/// participant ledger.
pub open spec fn spec_create_user_info(u: UserInfo, user: Identity) -> (UserInfo, Result<
    (),
    ErrorCode,
>) {
    if u.is_initialized {
        (u, Ok(()))
    } else {
        (UserInfo { is_initialized: true, admin: user, amount: 0 }, Ok(()))
    }
}

/// Create the participant's ledger record with an empty balance. Creation
/// is idempotent: on an already-initialized record the call is a no-op,
/// never an error, so repeat purchases accumulate into one record.
pub fn create_user_info(u: &mut UserInfo, user: Identity) -> (r: Result<(), ErrorCode>)
    ensures
        (*final(u), r) == spec_create_user_info(*old(u), user),
        r is Ok,
        old(u).is_initialized ==> *final(u) == *old(u),
        !old(u).is_initialized ==> final(u).is_initialized && final(u).admin == user
            && final(u).amount == 0,
        old(u).wf() ==> final(u).wf(),
{
    if !u.is_initialized {
        u.is_initialized = true;
        u.admin = user;
        u.amount = 0;
    }
    Ok(())
}

/// Purchase: how `buy_token` transforms the sale and participant ledgers.
pub open spec fn spec_buy(p: PresaleInfo, u: UserInfo, user: Identity, lamports: u64) -> (
    PresaleInfo,
    UserInfo,
    Result<u64, ErrorCode>,
) {
    let t = spec_tokens_out(lamports, p.price);
    if t > p.amount {
        (p, u, Err(ErrorCode::InsufficientInventory))
    } else {
        let created = if u.is_initialized {
            u
        } else {
            UserInfo { is_initialized: true, admin: user, amount: 0 }
        };
        (
            PresaleInfo {
                is_initialized: p.is_initialized,
                admin: p.admin,
                mint: p.mint,
                amount: (p.amount - t) as u64,
                price: p.price,
                end_timestamp: p.end_timestamp,
                treasury: p.treasury,
            },
            UserInfo {
                is_initialized: created.is_initialized,
                admin: created.admin,
                amount: (created.amount + t) as u64,
            },
            Ok(t as u64),
        )
    }
}

/// Purchase tokens with a payment of `lamports` base units. The host
/// moves the payment to the treasury and, on success, moves the returned
/// token amount from pool custody to the participant's escrow custody;
/// this operation debits the pool and credits the participant's record by
/// exactly that amount, creating the record on first contact. Fails
/// `InsufficientInventory` — before any custody debit — whenever the
/// priced amount exceeds the pool, so the pool balance can never go
/// negative.
pub fn buy_token(p: &mut PresaleInfo, u: &mut UserInfo, user: Identity, lamports: u64) -> (r:
    Result<u64, ErrorCode>)
    requires
        lamports > 0,
        old(p).is_initialized,
        old(p).price > 0,
        old(u).wf(),
        old(u).is_initialized ==> old(u).admin == user,
        old(p).amount + old(u).amount <= u64::MAX,
    ensures
        (*final(p), *final(u), r) == spec_buy(*old(p), *old(u), user, lamports),
        r is Ok <==> spec_tokens_out(lamports, old(p).price) <= old(p).amount,
        r is Err ==> r == Err::<u64, ErrorCode>(ErrorCode::InsufficientInventory)
            && *final(p) == *old(p) && *final(u) == *old(u),
        r matches Ok(t) ==> t == spec_tokens_out(lamports, old(p).price)
            && final(p).amount == old(p).amount - t
            && final(u).amount == old(u).amount + t
            && final(u).is_initialized && final(u).admin == user,
        final(p).amount + final(u).amount == old(p).amount + old(u).amount || r is Err,
        final(p).admin == old(p).admin && final(p).price == old(p).price
            && final(p).end_timestamp == old(p).end_timestamp
            && final(p).treasury == old(p).treasury,
        final(p).wf(),
        final(u).wf(),
{
    proof {
        assert((lamports as int) * (SCALE as int) <= (u64::MAX as int) * (SCALE as int))
            by (nonlinear_arith)
            requires
                lamports <= u64::MAX,
        ;
        assert((u64::MAX as int) * (SCALE as int) <= u128::MAX as int);
        vstd::arithmetic::div_mod::lemma_div_pos_is_pos(
            (lamports as int) * (SCALE as int),
            p.price as int,
        );
    }
    let tokens_wide: u128 = (lamports as u128) * (SCALE as u128) / (p.price as u128);
    if tokens_wide > (p.amount as u128) {
        return Err(ErrorCode::InsufficientInventory);
    }
    let tokens_out: u64 = tokens_wide as u64;
    if !u.is_initialized {
        u.is_initialized = true;
        u.admin = user;
        u.amount = 0;
    }
    p.amount = p.amount - tokens_out;
    u.amount = u.amount + tokens_out;
    Ok(tokens_out)
}

/// Claim: how `claim` transforms the participant ledger.
pub open spec fn spec_claim(p: PresaleInfo, u: UserInfo, now_ts: u64) -> (UserInfo, Result<
    u64,
    ErrorCode,
>) {
    if !u.is_initialized {
        (u, Err(ErrorCode::NotFound))
    } else if now_ts <= p.end_timestamp {
        (u, Ok(0))
    } else {
        (UserInfo { is_initialized: u.is_initialized, admin: u.admin, amount: 0 }, Ok(u.amount))
    }
}

/// Withdraw the participant's whole vested balance: zero the record and
/// report how many tokens the host must move from the participant's
/// escrow custody to their own wallet. Fails `NotFound` when the record
/// was never created; before (or at) the unlock time the call is a
/// deliberate no-op. Claiming an already-claimed record moves zero
/// tokens, so repeat claims are safe.
pub fn claim(p: &PresaleInfo, u: &mut UserInfo, user: Identity, now_ts: u64) -> (r: Result<
    u64,
    ErrorCode,
>)
    requires
        old(u).is_initialized ==> old(u).admin == user,
    ensures
        (*final(u), r) == spec_claim(*p, *old(u), now_ts),
        r is Ok <==> old(u).is_initialized,
        !old(u).is_initialized ==> r == Err::<u64, ErrorCode>(ErrorCode::NotFound)
            && *final(u) == *old(u),
        old(u).is_initialized && now_ts <= p.end_timestamp ==> r == Ok::<u64, ErrorCode>(0)
            && *final(u) == *old(u),
        old(u).is_initialized && now_ts > p.end_timestamp ==> r == Ok::<u64, ErrorCode>(
            old(u).amount,
        ) && final(u).amount == 0,
        final(u).is_initialized == old(u).is_initialized && final(u).admin == old(u).admin,
        old(u).wf() ==> final(u).wf(),
{
    if !u.is_initialized {
        return Err(ErrorCode::NotFound);
    }
    if now_ts <= p.end_timestamp {
        return Ok(0);
    }
    let claimed = u.amount;
    u.amount = 0;
    Ok(claimed)
}

} // verus!
