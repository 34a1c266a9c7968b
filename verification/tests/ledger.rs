use multidistribute::ops::add_distribution_tokens;
use multidistribute::ops::decrease_collection_max_collectable_tokens;
use multidistribute::ops::init_collection;
use multidistribute::ops::init_distribution;
use multidistribute::ops::user_claim_from_distribution;
use multidistribute::ops::user_commit_to_collection;
use multidistribute::ops::withdraw_from_collection;
use multidistribute::Address;
use multidistribute::Collection;
use multidistribute::CollectionUserState;
use multidistribute::Distribution;
use multidistribute::DistributionUserState;
use multidistribute::ErrorCode;

fn addr(n: u128) -> Address {
    Address { hi: n, lo: n.wrapping_mul(31) }
}

fn sample_collection(cap: u64) -> Collection {
    init_collection(addr(1), addr(2), addr(3), addr(4), 0, cap).unwrap()
}

#[test]
fn init_collection_rejects_zero_cap() {
    let r = init_collection(addr(1), addr(2), addr(3), addr(4), 7, 0);
    assert_eq!(r, Err(ErrorCode::InvalidMaxCollectableTokens));
}

#[test]
fn init_collection_sets_fields() {
    let c = init_collection(addr(1), addr(2), addr(3), addr(4), 7, 1000).unwrap();
    assert_eq!(c.authority, addr(1));
    assert_eq!(c.mint, addr(2));
    assert_eq!(c.vault, addr(3));
    assert_eq!(c.replacement_mint, addr(4));
    assert_eq!(c.counter, 7);
    assert_eq!(c.lifetime_tokens_collected, 0);
    assert_eq!(c.max_collectable_tokens, 1000);
}

#[test]
fn lower_cap_requires_authority() {
    let mut c = sample_collection(1000);
    let r = decrease_collection_max_collectable_tokens(&mut c, addr(99), 500);
    assert_eq!(r, Err(ErrorCode::Unauthorized));
    assert_eq!(c.max_collectable_tokens, 1000);
}

#[test]
fn lower_cap_rejects_value_below_collected() {
    let mut c = sample_collection(1000);
    let mut user = CollectionUserState { deposited_amount: 0 };
    user_commit_to_collection(&mut c, &mut user, addr(3), 600).unwrap();
    let r = decrease_collection_max_collectable_tokens(&mut c, addr(1), 599);
    assert_eq!(r, Err(ErrorCode::MaxCollectableTokensBelowTotal));
    assert_eq!(c.max_collectable_tokens, 1000);
}

#[test]
fn lower_cap_rejects_non_decrease() {
    let mut c = sample_collection(1000);
    assert_eq!(
        decrease_collection_max_collectable_tokens(&mut c, addr(1), 1000),
        Err(ErrorCode::InvalidDecrease)
    );
    assert_eq!(
        decrease_collection_max_collectable_tokens(&mut c, addr(1), 1001),
        Err(ErrorCode::InvalidDecrease)
    );
    assert_eq!(c.max_collectable_tokens, 1000);
}

#[test]
fn lower_cap_strictly_decreases() {
    let mut c = sample_collection(1000);
    let mut user = CollectionUserState { deposited_amount: 0 };
    user_commit_to_collection(&mut c, &mut user, addr(3), 600).unwrap();
    assert_eq!(decrease_collection_max_collectable_tokens(&mut c, addr(1), 600), Ok(()));
    assert_eq!(c.max_collectable_tokens, 600);
    assert_eq!(c.lifetime_tokens_collected, 600);
}

#[test]
fn withdraw_requires_authority_and_matching_vault() {
    let c = sample_collection(1000);
    assert_eq!(
        withdraw_from_collection(&c, addr(99), addr(3), 123),
        Err(ErrorCode::Unauthorized)
    );
    assert_eq!(
        withdraw_from_collection(&c, addr(1), addr(30), 123),
        Err(ErrorCode::RecordMismatch)
    );
}

#[test]
fn withdraw_moves_entire_balance_and_no_accounting() {
    let mut c = sample_collection(1000);
    let mut user = CollectionUserState { deposited_amount: 0 };
    user_commit_to_collection(&mut c, &mut user, addr(3), 600).unwrap();
    let before = c;
    assert_eq!(withdraw_from_collection(&c, addr(1), addr(3), 600), Ok(600));
    assert_eq!(c, before);
    assert_eq!(user.deposited_amount, 600);
}

#[test]
fn init_distribution_requires_authority() {
    let c = sample_collection(1000);
    let r = init_distribution(&c, addr(10), addr(99), addr(11), addr(12));
    assert_eq!(r, Err(ErrorCode::Unauthorized));
}

#[test]
fn init_distribution_sets_fields() {
    let c = sample_collection(1000);
    let d = init_distribution(&c, addr(10), addr(1), addr(11), addr(12)).unwrap();
    assert_eq!(d.collection, addr(10));
    assert_eq!(d.mint, addr(11));
    assert_eq!(d.vault, addr(12));
    assert_eq!(d.lifetime_deposited_tokens, 0);
    assert_eq!(d.distributed_tokens, 0);
}

#[test]
fn fund_checks_vault_and_overflow() {
    let c = sample_collection(1000);
    let mut d = init_distribution(&c, addr(10), addr(1), addr(11), addr(12)).unwrap();
    assert_eq!(
        add_distribution_tokens(&mut d, addr(13), 500),
        Err(ErrorCode::RecordMismatch)
    );
    assert_eq!(add_distribution_tokens(&mut d, addr(12), u64::MAX), Ok(()));
    assert_eq!(d.lifetime_deposited_tokens, u64::MAX);
    assert_eq!(add_distribution_tokens(&mut d, addr(12), 1), Err(ErrorCode::Overflow));
    assert_eq!(d.lifetime_deposited_tokens, u64::MAX);
}

#[test]
fn commit_checks_vault() {
    let mut c = sample_collection(1000);
    let mut user = CollectionUserState { deposited_amount: 0 };
    let r = user_commit_to_collection(&mut c, &mut user, addr(30), 100);
    assert_eq!(r, Err(ErrorCode::RecordMismatch));
    assert_eq!(c.lifetime_tokens_collected, 0);
    assert_eq!(user.deposited_amount, 0);
}

#[test]
fn commit_over_cap_fails_and_changes_nothing() {
    let mut c = sample_collection(1000);
    let mut a = CollectionUserState { deposited_amount: 0 };
    let mut b = CollectionUserState { deposited_amount: 0 };
    user_commit_to_collection(&mut c, &mut a, addr(3), 900).unwrap();
    let r = user_commit_to_collection(&mut c, &mut b, addr(3), 101);
    assert_eq!(r, Err(ErrorCode::MaxCollectableTokensExceeded));
    assert_eq!(c.lifetime_tokens_collected, 900);
    assert_eq!(b.deposited_amount, 0);
    let r2 = user_commit_to_collection(&mut c, &mut b, addr(3), 100);
    assert_eq!(r2, Ok(()));
    assert_eq!(c.lifetime_tokens_collected, 1000);
    assert_eq!(b.deposited_amount, 100);
}

#[test]
fn commit_detects_overflow_of_a_total() {
    let mut c = sample_collection(u64::MAX);
    let mut user = CollectionUserState { deposited_amount: u64::MAX };
    let before = c;
    let r = user_commit_to_collection(&mut c, &mut user, addr(3), 1);
    assert_eq!(r, Err(ErrorCode::Overflow));
    assert_eq!(c, before);
    assert_eq!(user.deposited_amount, u64::MAX);
}

#[test]
fn conservation_sum_of_deposits_tracks_lifetime() {
    let mut c = sample_collection(1000);
    let mut a = CollectionUserState { deposited_amount: 0 };
    let mut b = CollectionUserState { deposited_amount: 0 };
    user_commit_to_collection(&mut c, &mut a, addr(3), 400).unwrap();
    user_commit_to_collection(&mut c, &mut b, addr(3), 350).unwrap();
    user_commit_to_collection(&mut c, &mut a, addr(3), 250).unwrap();
    assert_eq!(
        a.deposited_amount + b.deposited_amount,
        c.lifetime_tokens_collected
    );
}

#[test]
fn claim_checks_collection_and_vault_binding() {
    let c = sample_collection(1000);
    let mut d = init_distribution(&c, addr(10), addr(1), addr(11), addr(12)).unwrap();
    let user = CollectionUserState { deposited_amount: 500 };
    let mut paid = DistributionUserState { received_amount: 0 };
    let wrong_key = user_claim_from_distribution(&c, addr(77), &mut d, &user, &mut paid, addr(12));
    assert_eq!(wrong_key, Err(ErrorCode::RecordMismatch));
    let wrong_vault =
        user_claim_from_distribution(&c, addr(10), &mut d, &user, &mut paid, addr(77));
    assert_eq!(wrong_vault, Err(ErrorCode::RecordMismatch));
    assert_eq!(paid.received_amount, 0);
    assert_eq!(d.distributed_tokens, 0);
}

#[test]
fn claim_with_zero_deposit_pays_zero_and_succeeds() {
    let c = sample_collection(1000);
    let mut d = init_distribution(&c, addr(10), addr(1), addr(11), addr(12)).unwrap();
    add_distribution_tokens(&mut d, addr(12), 500).unwrap();
    let user = CollectionUserState { deposited_amount: 0 };
    let mut paid = DistributionUserState { received_amount: 0 };
    let r = user_claim_from_distribution(&c, addr(10), &mut d, &user, &mut paid, addr(12));
    assert_eq!(r, Ok(0));
    assert_eq!(paid.received_amount, 0);
    assert_eq!(d.distributed_tokens, 0);
}

#[test]
fn claim_detects_received_beyond_entitlement() {
    let c = sample_collection(1000);
    let mut d = init_distribution(&c, addr(10), addr(1), addr(11), addr(12)).unwrap();
    add_distribution_tokens(&mut d, addr(12), 500).unwrap();
    let user = CollectionUserState { deposited_amount: 400 };
    let mut paid = DistributionUserState { received_amount: 201 };
    let before = d;
    let r = user_claim_from_distribution(&c, addr(10), &mut d, &user, &mut paid, addr(12));
    assert_eq!(r, Err(ErrorCode::Overflow));
    assert_eq!(d, before);
    assert_eq!(paid.received_amount, 201);
}

#[test]
fn claim_detects_payout_total_overflow() {
    let c = sample_collection(1000);
    let mut d = init_distribution(&c, addr(10), addr(1), addr(11), addr(12)).unwrap();
    add_distribution_tokens(&mut d, addr(12), 1000).unwrap();
    d.distributed_tokens = u64::MAX;
    let user = CollectionUserState { deposited_amount: 1000 };
    let mut paid = DistributionUserState { received_amount: 999 };
    let r = user_claim_from_distribution(&c, addr(10), &mut d, &user, &mut paid, addr(12));
    assert_eq!(r, Err(ErrorCode::Overflow));
    assert_eq!(d.distributed_tokens, u64::MAX);
    assert_eq!(paid.received_amount, 999);
}

#[test]
fn claim_after_cap_lowered_to_zero_reports_overflow() {
    let mut c = sample_collection(5);
    assert_eq!(decrease_collection_max_collectable_tokens(&mut c, addr(1), 0), Ok(()));
    let mut d = init_distribution(&c, addr(10), addr(1), addr(11), addr(12)).unwrap();
    add_distribution_tokens(&mut d, addr(12), 500).unwrap();
    let user = CollectionUserState { deposited_amount: 0 };
    let mut paid = DistributionUserState { received_amount: 0 };
    let r = user_claim_from_distribution(&c, addr(10), &mut d, &user, &mut paid, addr(12));
    assert_eq!(r, Err(ErrorCode::Overflow));
}

#[test]
fn proportional_payout_scenario() {
    let authority = addr(1);
    let collection_key = addr(10);
    let collection_vault = addr(3);
    let distribution_vault = addr(12);
    let mut c = sample_collection(1000);
    let mut a = CollectionUserState { deposited_amount: 0 };
    let mut b = CollectionUserState { deposited_amount: 0 };
    user_commit_to_collection(&mut c, &mut a, collection_vault, 400).unwrap();
    user_commit_to_collection(&mut c, &mut b, collection_vault, 600).unwrap();
    assert_eq!(c.lifetime_tokens_collected, 1000);

    let mut d =
        init_distribution(&c, collection_key, authority, addr(11), distribution_vault).unwrap();
    add_distribution_tokens(&mut d, distribution_vault, 500).unwrap();

    let mut a_paid = DistributionUserState { received_amount: 0 };
    let mut b_paid = DistributionUserState { received_amount: 0 };
    let a_claim =
        user_claim_from_distribution(&c, collection_key, &mut d, &a, &mut a_paid, distribution_vault);
    assert_eq!(a_claim, Ok(200));
    assert_eq!(a_paid.received_amount, 200);
    let b_claim =
        user_claim_from_distribution(&c, collection_key, &mut d, &b, &mut b_paid, distribution_vault);
    assert_eq!(b_claim, Ok(300));
    assert_eq!(b_paid.received_amount, 300);
    assert_eq!(d.distributed_tokens, 500);

    add_distribution_tokens(&mut d, distribution_vault, 100).unwrap();
    assert_eq!(d.lifetime_deposited_tokens, 600);
    let a_again =
        user_claim_from_distribution(&c, collection_key, &mut d, &a, &mut a_paid, distribution_vault);
    assert_eq!(a_again, Ok(40));
    assert_eq!(a_paid.received_amount, 240);
    assert_eq!(d.distributed_tokens, 540);
}

#[test]
fn reclaim_without_new_funding_pays_zero_and_keeps_state() {
    let mut c = sample_collection(1000);
    let mut a = CollectionUserState { deposited_amount: 0 };
    user_commit_to_collection(&mut c, &mut a, addr(3), 400).unwrap();
    let mut d = init_distribution(&c, addr(10), addr(1), addr(11), addr(12)).unwrap();
    add_distribution_tokens(&mut d, addr(12), 500).unwrap();
    let mut paid = DistributionUserState { received_amount: 0 };
    let first = user_claim_from_distribution(&c, addr(10), &mut d, &a, &mut paid, addr(12));
    assert_eq!(first, Ok(200));
    let d_after = d;
    let paid_after = paid;
    let second = user_claim_from_distribution(&c, addr(10), &mut d, &a, &mut paid, addr(12));
    assert_eq!(second, Ok(0));
    assert_eq!(d, d_after);
    assert_eq!(paid, paid_after);
}

#[test]
fn claims_grow_with_funding_only() {
    let mut c = sample_collection(1000);
    let mut a = CollectionUserState { deposited_amount: 0 };
    user_commit_to_collection(&mut c, &mut a, addr(3), 333).unwrap();
    let mut d = init_distribution(&c, addr(10), addr(1), addr(11), addr(12)).unwrap();
    let mut paid = DistributionUserState { received_amount: 0 };
    let mut last_received: u64 = 0;
    for round in 0..6u64 {
        add_distribution_tokens(&mut d, addr(12), round * 7).unwrap();
        let r = user_claim_from_distribution(&c, addr(10), &mut d, &a, &mut paid, addr(12));
        assert!(r.is_ok());
        assert!(paid.received_amount >= last_received);
        last_received = paid.received_amount;
    }
}

#[test]
fn lowering_cap_releases_unclaimed_share() {
    let mut c = sample_collection(1000);
    let mut a = CollectionUserState { deposited_amount: 0 };
    user_commit_to_collection(&mut c, &mut a, addr(3), 400).unwrap();
    let mut d = init_distribution(&c, addr(10), addr(1), addr(11), addr(12)).unwrap();
    add_distribution_tokens(&mut d, addr(12), 500).unwrap();
    let mut paid = DistributionUserState { received_amount: 0 };
    let first = user_claim_from_distribution(&c, addr(10), &mut d, &a, &mut paid, addr(12));
    assert_eq!(first, Ok(200));
    // The collection will not fill; the authority lowers the cap, raising
    // every depositor's fraction of the same funding.
    decrease_collection_max_collectable_tokens(&mut c, addr(1), 500).unwrap();
    let second = user_claim_from_distribution(&c, addr(10), &mut d, &a, &mut paid, addr(12));
    assert_eq!(second, Ok(200));
    assert_eq!(paid.received_amount, 400);
    assert_eq!(d.distributed_tokens, 400);
}

#[test]
fn rounding_never_overpays_the_funding() {
    let mut c = sample_collection(7);
    let mut a = CollectionUserState { deposited_amount: 0 };
    let mut b = CollectionUserState { deposited_amount: 0 };
    let mut e = CollectionUserState { deposited_amount: 0 };
    user_commit_to_collection(&mut c, &mut a, addr(3), 2).unwrap();
    user_commit_to_collection(&mut c, &mut b, addr(3), 2).unwrap();
    user_commit_to_collection(&mut c, &mut e, addr(3), 3).unwrap();
    let mut d = init_distribution(&c, addr(10), addr(1), addr(11), addr(12)).unwrap();
    add_distribution_tokens(&mut d, addr(12), 100).unwrap();
    let mut a_paid = DistributionUserState { received_amount: 0 };
    let mut b_paid = DistributionUserState { received_amount: 0 };
    let mut e_paid = DistributionUserState { received_amount: 0 };
    let ra = user_claim_from_distribution(&c, addr(10), &mut d, &a, &mut a_paid, addr(12));
    let rb = user_claim_from_distribution(&c, addr(10), &mut d, &b, &mut b_paid, addr(12));
    let re = user_claim_from_distribution(&c, addr(10), &mut d, &e, &mut e_paid, addr(12));
    assert_eq!(ra, Ok(28));
    assert_eq!(rb, Ok(28));
    assert_eq!(re, Ok(42));
    assert!(d.distributed_tokens <= d.lifetime_deposited_tokens);
    assert_eq!(d.distributed_tokens, 98);
}
