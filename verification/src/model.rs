//! A whole-system trace model of the presale, and the laws proved over it.
//!
//! The operations in `ops` each transform one or two records. This module
//! strings them together: a [`State`] holds the sale ledger, every
//! participant ledger, and running totals of what was ever deposited,
//! reclaimed and claimed; [`step`] applies one submitted instruction the
//! way the host would, rejecting (as a no-op) what the host would refuse
//! to execute — a call on a record that does not exist, or an update
//! whose balance would not fit a `u64`. Over arbitrary instruction
//! sequences, [`lemma_conservation`] proves the global conservation law.

use vstd::prelude::*;

use crate::contexts::{Identity, PresaleInfo, UserInfo};
use crate::error::ErrorCode;
use crate::ops::{
    spec_buy, spec_burn, spec_change_admin, spec_change_treasury, spec_claim,
    spec_create_user_info, spec_deposit, spec_initialize, spec_set_endtime, spec_tokens_out,
};

verus! {

/// One instruction submitted to the host. Participant records are keyed
/// here by an index into the state's record table; the host's
/// deterministic address derivation plays that role in deployment.
pub enum Op {
    Initialize { initializer: Identity, mint: Identity, treasury: Identity },
    Deposit { amount: u64 },
    Burn { caller: Identity, now_ts: u64 },
    ChangeAdmin { caller: Identity, new_admin: Identity },
    ChangeTreasury { caller: Identity, treasury: Identity },
    SetEndtime { caller: Identity, endtimestamp: u64, now_ts: u64 },
    CreateUser { idx: int, user: Identity },
    Buy { idx: int, user: Identity, lamports: u64 },
    Claim { idx: int, user: Identity, now_ts: u64 },
}

/// Everything the presale ever touches: the sale ledger, all participant
/// ledgers, and the running totals the conservation law speaks of.
pub struct State {
    pub sale: PresaleInfo,
    pub users: Seq<UserInfo>,
    /// Total sale tokens ever deposited into pool custody.
    pub provisioned: int,
    /// Total sale tokens ever swept back out of pool custody by reclaim.
    pub reclaimed: int,
    /// Total sale tokens ever withdrawn to participants' wallets by claim.
    pub claimed: int,
}

/// The sum of all participants' unclaimed balances.
pub open spec fn sum_claimable(users: Seq<UserInfo>) -> int
    decreases users.len(),
{
    if users.len() == 0 {
        0
    } else {
        users.last().amount + sum_claimable(users.drop_last())
    }
}

/// The conservation law: tokens still in the pool, plus tokens owed to
/// participants, plus tokens that ever left custody (reclaimed by the
/// admin or claimed by participants), account exactly for every token
/// ever provisioned.
pub open spec fn conserved(s: State) -> bool {
    s.sale.amount + sum_claimable(s.users) + s.reclaimed + s.claimed == s.provisioned
}

/// What holds of every reachable state: the conservation law, a
/// meaningful price once provisioned, an empty pool before provisioning,
/// and no balance on a participant record that was never created.
pub open spec fn inv(s: State) -> bool {
    &&& conserved(s)
    &&& s.sale.wf()
    &&& !s.sale.is_initialized ==> s.sale.amount == 0
    &&& forall|i: int| 0 <= i < s.users.len() ==> s.users[i].wf()
}

/// A fresh deployment: nothing provisioned, and `n` potential
/// participants, none of whom has interacted yet.
pub open spec fn init_state(n: nat) -> State {
    State {
        sale: PresaleInfo::spec_empty(),
        users: Seq::new(n, |i: int| UserInfo::spec_empty()),
        provisioned: 0,
        reclaimed: 0,
        claimed: 0,
    }
}

/// One host-mediated transition. An instruction the host would refuse to
/// run — aimed at a record outside the table, at a record derived for
/// another identity, or overflowing a stored balance — leaves the state
/// unchanged, exactly as a rejected transaction does.
pub open spec fn step(s: State, op: Op) -> State {
    match op {
        Op::Initialize { initializer, mint, treasury } => State {
            sale: spec_initialize(s.sale, initializer, mint, treasury).0,
            ..s
        },
        Op::Deposit { amount } => {
            if s.sale.is_initialized && s.sale.amount + amount <= u64::MAX {
                State {
                    sale: spec_deposit(s.sale, amount).0,
                    provisioned: s.provisioned + amount,
                    ..s
                }
            } else {
                s
            }
        },
        Op::Burn { caller, now_ts } => {
            let after = spec_burn(s.sale, caller, now_ts).0;
            State { sale: after, reclaimed: s.reclaimed + s.sale.amount - after.amount, ..s }
        },
        Op::ChangeAdmin { caller, new_admin } => State {
            sale: spec_change_admin(s.sale, caller, new_admin).0,
            ..s
        },
        Op::ChangeTreasury { caller, treasury } => State {
            sale: spec_change_treasury(s.sale, caller, treasury).0,
            ..s
        },
        Op::SetEndtime { caller, endtimestamp, now_ts } => State {
            sale: spec_set_endtime(s.sale, caller, endtimestamp, now_ts).0,
            ..s
        },
        Op::CreateUser { idx, user } => {
            if 0 <= idx < s.users.len() {
                State { users: s.users.update(idx, spec_create_user_info(s.users[idx], user).0), ..s }
            } else {
                s
            }
        },
        Op::Buy { idx, user, lamports } => {
            if s.sale.is_initialized && s.sale.price > 0 && 0 <= idx < s.users.len()
                && (s.users[idx].is_initialized ==> s.users[idx].admin == user)
                && s.sale.amount + s.users[idx].amount <= u64::MAX {
                let r = spec_buy(s.sale, s.users[idx], user, lamports);
                State { sale: r.0, users: s.users.update(idx, r.1), ..s }
            } else {
                s
            }
        },
        Op::Claim { idx, user, now_ts } => {
            if 0 <= idx < s.users.len()
                && (s.users[idx].is_initialized ==> s.users[idx].admin == user) {
                let after = spec_claim(s.sale, s.users[idx], now_ts).0;
                State {
                    users: s.users.update(idx, after),
                    claimed: s.claimed + s.users[idx].amount - after.amount,
                    ..s
                }
            } else {
                s
            }
        },
    }
}

/// The state a whole instruction sequence leads to.
pub open spec fn run(s: State, ops: Seq<Op>) -> State
    decreases ops.len(),
{
    if ops.len() == 0 {
        s
    } else {
        run(step(s, ops.first()), ops.drop_first())
    }
}

/// Updating one record changes the balance sum by that record's change.
proof fn lemma_sum_update(users: Seq<UserInfo>, i: int, v: UserInfo)
    requires
        0 <= i < users.len(),
    ensures
        sum_claimable(users.update(i, v)) == sum_claimable(users) - users[i].amount + v.amount,
    decreases users.len(),
{
    let upd = users.update(i, v);
    if i == users.len() - 1 {
        assert(upd.drop_last() =~= users.drop_last());
    } else {
        assert(upd.drop_last() =~= users.drop_last().update(i, v));
        lemma_sum_update(users.drop_last(), i, v);
    }
}

/// A table of all-zero balances sums to zero.
proof fn lemma_sum_zero(users: Seq<UserInfo>)
    requires
        forall|i: int| 0 <= i < users.len() ==> users[i].amount == 0,
    ensures
        sum_claimable(users) == 0,
    decreases users.len(),
{
    if users.len() > 0 {
        lemma_sum_zero(users.drop_last());
    }
}

/// Every single transition preserves the system invariant, the
/// conservation law included.
pub proof fn lemma_step_preserves_inv(s: State, op: Op)
    requires
        inv(s),
    ensures
        inv(step(s, op)),
{
    match op {
        Op::CreateUser { idx, user } => {
            if 0 <= idx < s.users.len() {
                lemma_sum_update(s.users, idx, spec_create_user_info(s.users[idx], user).0);
            }
        },
        Op::Buy { idx, user, lamports } => {
            if s.sale.is_initialized && s.sale.price > 0 && 0 <= idx < s.users.len()
                && (s.users[idx].is_initialized ==> s.users[idx].admin == user)
                && s.sale.amount + s.users[idx].amount <= u64::MAX {
                let t = spec_tokens_out(lamports, s.sale.price);
                assert((lamports as int) * (crate::contexts::SCALE as int) >= 0)
                    by (nonlinear_arith)
                    requires
                        lamports >= 0,
                ;
                vstd::arithmetic::div_mod::lemma_div_pos_is_pos(
                    (lamports as int) * (crate::contexts::SCALE as int),
                    s.sale.price as int,
                );
                let r = spec_buy(s.sale, s.users[idx], user, lamports);
                lemma_sum_update(s.users, idx, r.1);
            }
        },
        Op::Claim { idx, user, now_ts } => {
            if 0 <= idx < s.users.len()
                && (s.users[idx].is_initialized ==> s.users[idx].admin == user) {
                lemma_sum_update(s.users, idx, spec_claim(s.sale, s.users[idx], now_ts).0);
            }
        },
        _ => {},
    }
}

/// Which instructions may move which balance: the pool grows only by a
/// deposit and shrinks only by a purchase or a reclaim sweep; a
/// participant's claimable balance grows only by a purchase and shrinks
/// only by a claim — and a claim empties it entirely, never partially.
pub proof fn lemma_balance_movement(s: State, op: Op)
    requires
        inv(s),
    ensures
        step(s, op).users.len() == s.users.len(),
        step(s, op).sale.amount > s.sale.amount ==> op is Deposit,
        step(s, op).sale.amount < s.sale.amount ==> op is Buy || op is Burn,
        forall|i: int|
            #![trigger step(s, op).users[i]]
            0 <= i < s.users.len() && step(s, op).users[i].amount > s.users[i].amount
                ==> op is Buy,
        forall|i: int|
            #![trigger step(s, op).users[i]]
            0 <= i < s.users.len() && step(s, op).users[i].amount < s.users[i].amount
                ==> op is Claim && step(s, op).users[i].amount == 0,
{
    if let Op::Buy { idx, user, lamports } = op {
        if s.sale.is_initialized && s.sale.price > 0 && 0 <= idx < s.users.len()
            && (s.users[idx].is_initialized ==> s.users[idx].admin == user)
            && s.sale.amount + s.users[idx].amount <= u64::MAX {
            assert((lamports as int) * (crate::contexts::SCALE as int) >= 0)
                by (nonlinear_arith)
                requires
                    lamports >= 0,
            ;
            vstd::arithmetic::div_mod::lemma_div_pos_is_pos(
                (lamports as int) * (crate::contexts::SCALE as int),
                s.sale.price as int,
            );
        }
    }
}

/// The system invariant carries over any instruction sequence.
pub proof fn lemma_run_preserves_inv(s: State, ops: Seq<Op>)
    requires
        inv(s),
    ensures
        inv(run(s, ops)),
    decreases ops.len(),
{
    if ops.len() > 0 {
        lemma_step_preserves_inv(s, ops.first());
        lemma_run_preserves_inv(step(s, ops.first()), ops.drop_first());
    }
}

/// Conservation: after any sequence of operations from a fresh
/// deployment, the pool balance plus every participant's claimable
/// balance plus everything ever reclaimed or claimed equals the total
/// inventory ever provisioned — so in particular it does at every point
/// along the way, each prefix being such a sequence.
pub proof fn lemma_conservation(n: nat, ops: Seq<Op>)
    ensures
        conserved(run(init_state(n), ops)),
{
    lemma_sum_zero(init_state(n).users);
    lemma_run_preserves_inv(init_state(n), ops);
}

/// Instructions other than a claim never move tokens to a participant's
/// wallet, so the claimed total stands still across them.
proof fn lemma_run_keeps_claimed(s: State, ops: Seq<Op>)
    requires
        forall|i: int| 0 <= i < ops.len() ==> !(ops[i] is Claim),
    ensures
        run(s, ops).claimed == s.claimed,
    decreases ops.len(),
{
    if ops.len() > 0 {
        assert(!(ops[0] is Claim));
        lemma_run_keeps_claimed(step(s, ops.first()), ops.drop_first());
    }
}

/// Conservation while everything is still in custody: as long as no
/// participant has withdrawn, the pool balance plus every claimable
/// balance plus the reclaimed total alone equal the provisioned total.
pub proof fn lemma_conservation_no_withdrawals(n: nat, ops: Seq<Op>)
    requires
        forall|i: int| 0 <= i < ops.len() ==> !(ops[i] is Claim),
    ensures
        ({
            let s = run(init_state(n), ops);
            s.sale.amount + sum_claimable(s.users) + s.reclaimed == s.provisioned
        }),
{
    lemma_conservation(n, ops);
    lemma_run_keeps_claimed(init_state(n), ops);
}

/// Claiming is idempotent: once a claim has emptied a participant's
/// record, an immediately following claim (at the same or any later
/// time) moves zero tokens and leaves the record as it was.
pub proof fn lemma_claim_idempotent(p: PresaleInfo, u: UserInfo, now1: u64, now2: u64)
    requires
        u.is_initialized,
        now1 > p.end_timestamp,
        now2 >= now1,
    ensures
        (spec_claim(p, u, now1).1 == Ok::<u64, ErrorCode>(u.amount)),
        (spec_claim(p, spec_claim(p, u, now1).0, now2).0 == spec_claim(p, u, now1).0),
        (spec_claim(p, spec_claim(p, u, now1).0, now2).1 == Ok::<u64, ErrorCode>(0)),
{
}

/// Time-gating: at or before the unlock timestamp, reclaim and claim
/// change nothing; strictly after it, each moves the full balance it
/// governs, whatever that balance is.
pub proof fn lemma_time_gating(p: PresaleInfo, u: UserInfo, caller: Identity, now_ts: u64)
    ensures
        now_ts <= p.end_timestamp ==> spec_burn(p, caller, now_ts).0 == p,
        now_ts <= p.end_timestamp ==> spec_claim(p, u, now_ts).0 == u,
        now_ts > p.end_timestamp && caller == p.admin ==> spec_burn(p, caller, now_ts).0.amount
            == 0 && spec_burn(p, caller, now_ts).1 == Ok::<u64, ErrorCode>(p.amount),
        now_ts > p.end_timestamp && u.is_initialized ==> spec_claim(p, u, now_ts).0.amount == 0
            && spec_claim(p, u, now_ts).1 == Ok::<u64, ErrorCode>(u.amount),
{
}

/// Authorization: every caller other than the current admin is refused
/// by the admin-gated operations, and a successful admin handover moves
/// those rights wholesale — the old admin (like anyone else) loses them,
/// the new admin gains them.
pub proof fn lemma_admin_handover(
    p: PresaleInfo,
    new_admin: Identity,
    other: Identity,
    another: Identity,
    treasury: Identity,
    endtimestamp: u64,
    now_ts: u64,
)
    requires
        !new_admin.spec_is_null(),
        new_admin != p.admin,
        other != new_admin,
    ensures
        (spec_change_admin(p, p.admin, new_admin).1 == Ok::<(), ErrorCode>(())),
        (spec_change_admin(p, p.admin, new_admin).0.admin == new_admin),
        ({
            let after = spec_change_admin(p, p.admin, new_admin).0;
            &&& spec_change_admin(after, other, another).1 == Err::<(), ErrorCode>(
                ErrorCode::Unauthorized,
            )
            &&& spec_change_treasury(after, other, treasury).1 == Err::<(), ErrorCode>(
                ErrorCode::Unauthorized,
            )
            &&& spec_set_endtime(after, other, endtimestamp, now_ts).1 == Err::<(), ErrorCode>(
                ErrorCode::Unauthorized,
            )
            &&& spec_burn(after, other, now_ts).1 == Err::<u64, ErrorCode>(
                ErrorCode::Unauthorized,
            )
            &&& spec_burn(after, new_admin, now_ts).1 is Ok
            &&& !treasury.spec_is_null() ==> spec_change_treasury(after, new_admin, treasury).1
                == Ok::<(), ErrorCode>(())
        }),
{
}

} // verus!
