//! End-to-end exercises of the presale ledger: the provisioning,
//! purchase, reclaim and claim scenarios, the error paths, and concrete
//! runs of the laws the crate proves in general.

use choobin::contexts::{Identity, PresaleInfo, UserInfo, DEFAULT_PRICE, SCALE};
use choobin::error::ErrorCode;
use choobin::ops::{
    burn_token, buy_token, change_admin, change_treasury, claim, create_user_info, deposit_token,
    initialize, set_endtime,
};

fn ident(id: u64) -> Identity {
    Identity { id }
}

/// A provisioned sale ledger with the given pool, unlock time 1000.
fn seeded_pool(pool: u64) -> PresaleInfo {
    let mut p = PresaleInfo::empty();
    initialize(&mut p, ident(1), ident(2), ident(3)).unwrap();
    deposit_token(&mut p, pool).unwrap();
    set_endtime(&mut p, ident(1), 1000, 500).unwrap();
    p
}

#[test]
fn initialize_sets_all_fields() {
    let mut p = PresaleInfo::empty();
    assert_eq!(initialize(&mut p, ident(1), ident(2), ident(3)), Ok(()));
    assert!(p.is_initialized);
    assert_eq!(p.admin, ident(1));
    assert_eq!(p.mint, ident(2));
    assert_eq!(p.treasury, ident(3));
    assert_eq!(p.amount, 0);
    assert_eq!(p.price, DEFAULT_PRICE);
    assert_eq!(p.end_timestamp, 0);
}

#[test]
fn initialize_twice_fails() {
    let mut p = PresaleInfo::empty();
    initialize(&mut p, ident(1), ident(2), ident(3)).unwrap();
    let before = p;
    assert_eq!(
        initialize(&mut p, ident(4), ident(5), ident(6)),
        Err(ErrorCode::AlreadyInitialized)
    );
    assert_eq!(p, before);
}

#[test]
fn initialize_null_treasury_fails() {
    let mut p = PresaleInfo::empty();
    assert_eq!(
        initialize(&mut p, ident(1), ident(2), Identity::null()),
        Err(ErrorCode::InvalidArgument)
    );
    assert!(!p.is_initialized);
}

#[test]
fn deposit_grows_pool() {
    let mut p = PresaleInfo::empty();
    initialize(&mut p, ident(1), ident(2), ident(3)).unwrap();
    assert_eq!(deposit_token(&mut p, 700), Ok(()));
    assert_eq!(deposit_token(&mut p, 300), Ok(()));
    assert_eq!(p.amount, 1000);
}

#[test]
fn fixed_price_purchase_scenario() {
    // One whole token costs 133000 base units: a payment of exactly
    // 133000 buys 10^9 indivisible units at nine decimals.
    let mut p = seeded_pool(1_000_000 * SCALE);
    let mut u = UserInfo::empty();
    let out = buy_token(&mut p, &mut u, ident(10), 133000).unwrap();
    assert_eq!(out, 1_000_000_000);
    assert_eq!(p.amount, 1_000_000 * SCALE - 1_000_000_000);
    assert_eq!(u.amount, 1_000_000_000);
    assert!(u.is_initialized);
    assert_eq!(u.admin, ident(10));
}

#[test]
fn purchase_rounds_down() {
    let mut p = seeded_pool(10 * SCALE);
    let mut u = UserInfo::empty();
    // 199499 base units price in at just under 1.5 tokens; the fraction
    // is truncated in the pool's favour.
    let out = buy_token(&mut p, &mut u, ident(10), 199499).unwrap();
    assert_eq!(out, 199499u64 * SCALE / DEFAULT_PRICE);
    assert_eq!(out, 1_499_992_481);
}

#[test]
fn repeat_purchases_accumulate() {
    let mut p = seeded_pool(10 * SCALE);
    let mut u = UserInfo::empty();
    let a = buy_token(&mut p, &mut u, ident(10), 133000).unwrap();
    let b = buy_token(&mut p, &mut u, ident(10), 266000).unwrap();
    assert_eq!(u.amount, a + b);
    assert_eq!(p.amount, 10 * SCALE - a - b);
}

#[test]
fn two_buyers_drain_pool_then_third_fails() {
    // A pool of exactly enough inventory for two purchases combined.
    let mut p = seeded_pool(3 * SCALE);
    let mut u1 = UserInfo::empty();
    let mut u2 = UserInfo::empty();
    let mut u3 = UserInfo::empty();
    assert_eq!(buy_token(&mut p, &mut u1, ident(10), 133000), Ok(SCALE));
    assert_eq!(buy_token(&mut p, &mut u2, ident(11), 266000), Ok(2 * SCALE));
    assert_eq!(p.amount, 0);
    let before = p;
    assert_eq!(
        buy_token(&mut p, &mut u3, ident(12), 133000),
        Err(ErrorCode::InsufficientInventory)
    );
    assert_eq!(p, before);
    assert!(!u3.is_initialized);
}

#[test]
fn oversell_never_underflows_pool() {
    // Pseudo-random purchase amounts against a fixed pool: every
    // purchase either fits the pool or is refused whole.
    let mut p = seeded_pool(5 * SCALE);
    let mut total_sold: u64 = 0;
    let mut seed: u64 = 0x2545F4914F6CDD1D;
    for i in 0..200u64 {
        let mut u = UserInfo::empty();
        seed = seed.wrapping_mul(6364136223846793005).wrapping_add(1442695040888963407);
        let lamports = seed % 400_000 + 1;
        let before = p.amount;
        match buy_token(&mut p, &mut u, ident(100 + i), lamports) {
            Ok(out) => {
                assert!(out <= before);
                assert_eq!(p.amount, before - out);
                total_sold += out;
            }
            Err(e) => {
                assert_eq!(e, ErrorCode::InsufficientInventory);
                assert_eq!(p.amount, before);
            }
        }
    }
    assert_eq!(p.amount + total_sold, 5 * SCALE);
}

#[test]
fn huge_payment_is_refused_cleanly() {
    // The priced amount for a near-maximal payment is astronomically
    // larger than any pool; the purchase is refused whole.
    let mut p = seeded_pool(5 * SCALE);
    let mut u = UserInfo::empty();
    let before = p;
    assert_eq!(
        buy_token(&mut p, &mut u, ident(10), u64::MAX),
        Err(ErrorCode::InsufficientInventory)
    );
    assert_eq!(p, before);
    assert_eq!(u, UserInfo::empty());
}

#[test]
fn claim_before_unlock_is_noop() {
    let mut p = seeded_pool(10 * SCALE);
    let mut u = UserInfo::empty();
    buy_token(&mut p, &mut u, ident(10), 133000).unwrap();
    let held = u.amount;
    // At the unlock second itself the claim still does nothing.
    assert_eq!(claim(&p, &mut u, ident(10), 1000), Ok(0));
    assert_eq!(u.amount, held);
}

#[test]
fn claim_after_unlock_moves_all_and_is_idempotent() {
    let mut p = seeded_pool(10 * SCALE);
    let mut u = UserInfo::empty();
    buy_token(&mut p, &mut u, ident(10), 133000).unwrap();
    let held = u.amount;
    assert_eq!(claim(&p, &mut u, ident(10), 1001), Ok(held));
    assert_eq!(u.amount, 0);
    // A second claim strictly after the first moves zero tokens.
    assert_eq!(claim(&p, &mut u, ident(10), 1002), Ok(0));
    assert_eq!(u.amount, 0);
    assert!(u.is_initialized);
}

#[test]
fn claim_without_record_fails() {
    let p = seeded_pool(10 * SCALE);
    let mut u = UserInfo::empty();
    assert_eq!(claim(&p, &mut u, ident(10), 2000), Err(ErrorCode::NotFound));
    assert_eq!(u, UserInfo::empty());
}

#[test]
fn create_user_info_is_idempotent() {
    let mut u = UserInfo::empty();
    assert_eq!(create_user_info(&mut u, ident(10)), Ok(()));
    assert!(u.is_initialized);
    assert_eq!(u.admin, ident(10));
    assert_eq!(u.amount, 0);
    let mut p = seeded_pool(10 * SCALE);
    buy_token(&mut p, &mut u, ident(10), 133000).unwrap();
    let held = u.amount;
    // Repeat creation, even under another identity, changes nothing.
    assert_eq!(create_user_info(&mut u, ident(99)), Ok(()));
    assert_eq!(u.admin, ident(10));
    assert_eq!(u.amount, held);
}

#[test]
fn reclaim_gated_then_sweeps() {
    let mut p = seeded_pool(10 * SCALE);
    let before = p;
    // Before (and at) the unlock time: a silent no-op, not an error.
    assert_eq!(burn_token(&mut p, ident(1), 999), Ok(0));
    assert_eq!(p, before);
    assert_eq!(burn_token(&mut p, ident(1), 1000), Ok(0));
    assert_eq!(p, before);
    // After it: the whole remaining pool is swept out.
    assert_eq!(burn_token(&mut p, ident(1), 1001), Ok(10 * SCALE));
    assert_eq!(p.amount, 0);
}

#[test]
fn reclaim_requires_admin() {
    let mut p = seeded_pool(10 * SCALE);
    let before = p;
    assert_eq!(burn_token(&mut p, ident(2), 5000), Err(ErrorCode::Unauthorized));
    assert_eq!(p, before);
}

#[test]
fn change_admin_checks() {
    let mut p = seeded_pool(10 * SCALE);
    assert_eq!(change_admin(&mut p, ident(9), ident(4)), Err(ErrorCode::Unauthorized));
    assert_eq!(
        change_admin(&mut p, ident(1), Identity::null()),
        Err(ErrorCode::InvalidArgument)
    );
    assert_eq!(change_admin(&mut p, ident(1), ident(1)), Err(ErrorCode::InvalidArgument));
    assert_eq!(p.admin, ident(1));
    assert_eq!(change_admin(&mut p, ident(1), ident(4)), Ok(()));
    assert_eq!(p.admin, ident(4));
}

#[test]
fn admin_handover_moves_rights() {
    let mut p = seeded_pool(10 * SCALE);
    change_admin(&mut p, ident(1), ident(4)).unwrap();
    // The old admin has lost every admin-gated operation...
    assert_eq!(change_admin(&mut p, ident(1), ident(5)), Err(ErrorCode::Unauthorized));
    assert_eq!(change_treasury(&mut p, ident(1), ident(5)), Err(ErrorCode::Unauthorized));
    assert_eq!(set_endtime(&mut p, ident(1), 9999, 100), Err(ErrorCode::Unauthorized));
    assert_eq!(burn_token(&mut p, ident(1), 9999), Err(ErrorCode::Unauthorized));
    // ...and the new admin has gained them.
    assert_eq!(change_treasury(&mut p, ident(4), ident(5)), Ok(()));
    assert_eq!(burn_token(&mut p, ident(4), 9999), Ok(10 * SCALE));
}

#[test]
fn change_treasury_checks() {
    let mut p = seeded_pool(10 * SCALE);
    assert_eq!(change_treasury(&mut p, ident(9), ident(5)), Err(ErrorCode::Unauthorized));
    assert_eq!(
        change_treasury(&mut p, ident(1), Identity::null()),
        Err(ErrorCode::InvalidArgument)
    );
    assert_eq!(p.treasury, ident(3));
    assert_eq!(change_treasury(&mut p, ident(1), ident(5)), Ok(()));
    assert_eq!(p.treasury, ident(5));
}

#[test]
fn set_endtime_ignores_non_future() {
    let mut p = seeded_pool(10 * SCALE);
    // A deadline not strictly in the future is silently ignored.
    assert_eq!(set_endtime(&mut p, ident(1), 400, 500), Ok(()));
    assert_eq!(p.end_timestamp, 1000);
    assert_eq!(set_endtime(&mut p, ident(1), 500, 500), Ok(()));
    assert_eq!(p.end_timestamp, 1000);
    assert_eq!(set_endtime(&mut p, ident(1), 2000, 500), Ok(()));
    assert_eq!(p.end_timestamp, 2000);
}

#[test]
fn conservation_across_a_full_run() {
    // pool + every claimable balance + reclaimed + claimed stays equal
    // to everything ever deposited, at every step of a mixed run.
    let mut p = PresaleInfo::empty();
    initialize(&mut p, ident(1), ident(2), ident(3)).unwrap();
    let mut users = [UserInfo::empty(), UserInfo::empty(), UserInfo::empty()];
    let mut provisioned: u64 = 0;
    let mut reclaimed: u64 = 0;
    let mut claimed: u64 = 0;

    deposit_token(&mut p, 7 * SCALE).unwrap();
    provisioned += 7 * SCALE;
    set_endtime(&mut p, ident(1), 1000, 500).unwrap();

    let check = |p: &PresaleInfo, users: &[UserInfo; 3], pr: u64, re: u64, cl: u64| {
        let sum: u64 = users.iter().map(|u| u.amount).sum();
        assert_eq!(p.amount + sum + re + cl, pr);
    };
    check(&p, &users, provisioned, reclaimed, claimed);

    buy_token(&mut p, &mut users[0], ident(10), 133000).unwrap();
    check(&p, &users, provisioned, reclaimed, claimed);
    buy_token(&mut p, &mut users[1], ident(11), 399000).unwrap();
    check(&p, &users, provisioned, reclaimed, claimed);
    deposit_token(&mut p, SCALE).unwrap();
    provisioned += SCALE;
    check(&p, &users, provisioned, reclaimed, claimed);
    buy_token(&mut p, &mut users[2], ident(12), 133000).unwrap();
    check(&p, &users, provisioned, reclaimed, claimed);

    claimed += claim(&p, &mut users[1], ident(11), 1500).unwrap();
    check(&p, &users, provisioned, reclaimed, claimed);
    reclaimed += burn_token(&mut p, ident(1), 1500).unwrap();
    check(&p, &users, provisioned, reclaimed, claimed);
    claimed += claim(&p, &mut users[0], ident(10), 1600).unwrap();
    claimed += claim(&p, &mut users[2], ident(12), 1700).unwrap();
    check(&p, &users, provisioned, reclaimed, claimed);
    assert_eq!(p.amount, 0);
    assert_eq!(reclaimed + claimed, provisioned);
}
