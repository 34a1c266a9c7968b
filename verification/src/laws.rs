use vstd::prelude::*;

use crate::ops::claim_accepted;
use crate::share::entitlement;
use crate::share::lemma_div_of_sum_bound;
use crate::share::lemma_entitlement_antitone_cap;
use crate::share::lemma_entitlement_bounds;
use crate::share::lemma_entitlement_monotone;
use crate::share::lemma_entitlement_monotone_deposit;
use crate::state::Address;
use crate::state::Collection;
use crate::state::CollectionUserState;
use crate::state::Distribution;
use crate::state::DistributionUserState;
use vstd::arithmetic::div_mod::lemma_div_is_ordered;
use vstd::arithmetic::div_mod::lemma_div_of0;
use vstd::arithmetic::div_mod::lemma_multiply_divide_le;
use vstd::arithmetic::mul::lemma_mul_inequality;
use vstd::arithmetic::mul::lemma_mul_is_distributive_add_other_way;
use vstd::arithmetic::mul::lemma_mul_nonnegative;

verus! {

/// The combined balance over one per-depositor amount each — the model of
/// "sum over all depositors" used by the conservation and no-over-payment
/// laws.
pub open spec fn total(amounts: Seq<u64>) -> int
    decreases amounts.len(),
{
    if amounts.len() == 0 {
        0
    } else {
        total(amounts.drop_last()) + amounts.last()
    }
}

pub proof fn lemma_total_nonneg(amounts: Seq<u64>)
    ensures
        0 <= total(amounts),
    decreases amounts.len(),
{
    if amounts.len() > 0 {
        lemma_total_nonneg(amounts.drop_last());
    }
}

pub proof fn lemma_total_push(amounts: Seq<u64>, value: u64)
    ensures
        total(amounts.push(value)) == total(amounts) + value,
{
    assert(amounts.push(value).drop_last() =~= amounts);
}

pub proof fn lemma_total_update(amounts: Seq<u64>, i: int, value: u64)
    requires
        0 <= i < amounts.len(),
    ensures
        total(amounts.update(i, value)) == total(amounts) - amounts[i] + value,
    decreases amounts.len(),
{
    let updated = amounts.update(i, value);
    if i == amounts.len() - 1 {
        assert(updated.drop_last() =~= amounts.drop_last());
    } else {
        assert(updated.drop_last() =~= amounts.drop_last().update(i, value));
        lemma_total_update(amounts.drop_last(), i, value);
        assert(updated.last() == amounts.last());
    }
}

/// Conservation under lazy record creation: a depositor's record is created
/// holding zero, so bringing a new depositor into view leaves the combined
/// deposits — and hence their agreement with `lifetime_tokens_collected` —
/// untouched.
pub proof fn lemma_new_depositor_preserves_conservation(deposits: Seq<u64>)
    ensures
        total(deposits.push(0u64)) == total(deposits),
{
    lemma_total_push(deposits, 0u64);
}

/// Conservation: a successful commit adds `amount` both to the committing
/// depositor's `deposited_amount` and to the collection's
/// `lifetime_tokens_collected`, so if the combined deposits equalled the
/// lifetime total before, they do again after — across any sequence of
/// commits the two stay equal.
pub proof fn lemma_commit_preserves_conservation(
    deposits: Seq<u64>,
    i: int,
    amount: u64,
    lifetime: u64,
)
    requires
        0 <= i < deposits.len(),
        total(deposits) == lifetime,
        deposits[i] + amount <= u64::MAX,
    ensures
        total(deposits.update(i, (deposits[i] + amount) as u64)) == lifetime + amount,
{
    lemma_total_update(deposits, i, (deposits[i] + amount) as u64);
}

/// Helper for the no-over-payment law: payouts bounded pointwise by
/// entitlements sum to at most the combined deposit scaled by
/// `funded / cap`. The floors only help: each depositor's truncated share
/// loses part of a remainder, never gains one.
proof fn lemma_received_within_scaled_deposits(
    deposits: Seq<u64>,
    received: Seq<u64>,
    funded: u64,
    cap: u64,
)
    requires
        0 < cap,
        received.len() == deposits.len(),
        forall|i: int|
            0 <= i < received.len() ==> received[i] <= entitlement(deposits[i], funded, cap),
    ensures
        total(received) <= (total(deposits) * funded) / (cap as int),
    decreases deposits.len(),
{
    if deposits.len() == 0 {
        lemma_div_of0(cap as int);
    } else {
        let rest_deposits = deposits.drop_last();
        let rest_received = received.drop_last();
        assert forall|j: int|
            0 <= j < rest_received.len() implies rest_received[j] <= entitlement(
            rest_deposits[j],
            funded,
            cap,
        ) by {
            assert(rest_received[j] == received[j]);
            assert(rest_deposits[j] == deposits[j]);
        }
        lemma_received_within_scaled_deposits(rest_deposits, rest_received, funded, cap);
        assert(received.last() <= entitlement(deposits.last(), funded, cap));
        lemma_total_nonneg(rest_deposits);
        lemma_mul_nonnegative(total(rest_deposits), funded as int);
        lemma_mul_nonnegative(deposits.last() as int, funded as int);
        lemma_div_of_sum_bound(
            total(rest_deposits) * funded,
            deposits.last() * funded,
            cap as int,
        );
        lemma_mul_is_distributive_add_other_way(
            funded as int,
            total(rest_deposits),
            deposits.last() as int,
        );
    }
}

/// No over-payment: as long as every depositor's recorded payout is within
/// their recomputed entitlement and the deposits together respect the cap,
/// the payouts together never exceed what the distribution was funded with —
/// its vault can never be over-drawn.
pub proof fn lemma_no_over_payment(deposits: Seq<u64>, received: Seq<u64>, funded: u64, cap: u64)
    requires
        0 < cap,
        received.len() == deposits.len(),
        total(deposits) <= cap,
        forall|i: int|
            0 <= i < received.len() ==> received[i] <= entitlement(deposits[i], funded, cap),
    ensures
        total(received) <= funded,
{
    lemma_received_within_scaled_deposits(deposits, received, funded, cap);
    lemma_total_nonneg(deposits);
    lemma_mul_inequality(total(deposits), cap as int, funded as int);
    lemma_multiply_divide_le(total(deposits) * funded, cap as int, funded as int);
}

/// The inductive shape of the ledger's payout safety: one payout record per
/// depositor, each within the entitlement recomputed from that depositor's
/// deposit, the distribution's funding and the collection's cap. Every
/// operation preserves it (see the lemmas below), and together with
/// conservation and the cap invariant it yields `lemma_no_over_payment` at
/// any moment in the ledger's life.
pub open spec fn payouts_within_entitlements(
    collection: Collection,
    distribution: Distribution,
    deposits: Seq<u64>,
    received: Seq<u64>,
) -> bool {
    &&& received.len() == deposits.len()
    &&& forall|i: int|
        0 <= i < received.len() ==> received[i] <= entitlement(
            deposits[i],
            distribution.lifetime_deposited_tokens,
            collection.max_collectable_tokens,
        )
}

/// Lazy record creation keeps the cover: a depositor's records are created
/// holding zero deposit and zero payout, and a zero deposit's entitlement is
/// zero.
pub proof fn lemma_new_depositor_preserves_payout_cover(
    collection: Collection,
    distribution: Distribution,
    deposits: Seq<u64>,
    received: Seq<u64>,
)
    requires
        0 < collection.max_collectable_tokens,
        payouts_within_entitlements(collection, distribution, deposits, received),
    ensures
        payouts_within_entitlements(
            collection,
            distribution,
            deposits.push(0u64),
            received.push(0u64),
        ),
{
    lemma_div_of0(collection.max_collectable_tokens as int);
}

/// A commit only raises the committing depositor's deposit, and a larger
/// deposit never lowers an entitlement, so every payout stays covered.
pub proof fn lemma_commit_preserves_payout_cover(
    collection: Collection,
    distribution: Distribution,
    deposits: Seq<u64>,
    received: Seq<u64>,
    i: int,
    amount: u64,
)
    requires
        0 < collection.max_collectable_tokens,
        payouts_within_entitlements(collection, distribution, deposits, received),
        0 <= i < deposits.len(),
        deposits[i] + amount <= u64::MAX,
    ensures
        payouts_within_entitlements(
            collection,
            distribution,
            deposits.update(i, (deposits[i] + amount) as u64),
            received,
        ),
{
    let updated = deposits.update(i, (deposits[i] + amount) as u64);
    assert forall|j: int|
        0 <= j < received.len() implies received[j] <= entitlement(
        updated[j],
        distribution.lifetime_deposited_tokens,
        collection.max_collectable_tokens,
    ) by {
        if j == i {
            lemma_entitlement_monotone_deposit(
                deposits[i],
                (deposits[i] + amount) as u64,
                distribution.lifetime_deposited_tokens,
                collection.max_collectable_tokens,
            );
        }
    }
}

/// Funding a distribution only raises every entitlement, so every payout
/// stays covered.
pub proof fn lemma_fund_preserves_payout_cover(
    collection: Collection,
    distribution: Distribution,
    deposits: Seq<u64>,
    received: Seq<u64>,
    amount: u64,
)
    requires
        0 < collection.max_collectable_tokens,
        payouts_within_entitlements(collection, distribution, deposits, received),
        distribution.lifetime_deposited_tokens + amount <= u64::MAX,
    ensures
        payouts_within_entitlements(
            collection,
            Distribution {
                lifetime_deposited_tokens: (distribution.lifetime_deposited_tokens
                    + amount) as u64,
                ..distribution
            },
            deposits,
            received,
        ),
{
    let funded_after = (distribution.lifetime_deposited_tokens + amount) as u64;
    assert forall|j: int|
        0 <= j < received.len() implies received[j] <= entitlement(
        deposits[j],
        funded_after,
        collection.max_collectable_tokens,
    ) by {
        lemma_entitlement_monotone(
            deposits[j],
            distribution.lifetime_deposited_tokens,
            funded_after,
            collection.max_collectable_tokens,
        );
    }
}

/// Lowering the cap only raises every entitlement, so every payout stays
/// covered — depositors are never diluted by the one cap change the ledger
/// allows.
pub proof fn lemma_lower_cap_preserves_payout_cover(
    collection: Collection,
    distribution: Distribution,
    deposits: Seq<u64>,
    received: Seq<u64>,
    new_max_collectable_tokens: u64,
)
    requires
        payouts_within_entitlements(collection, distribution, deposits, received),
        0 < new_max_collectable_tokens <= collection.max_collectable_tokens,
    ensures
        payouts_within_entitlements(
            Collection { max_collectable_tokens: new_max_collectable_tokens, ..collection },
            distribution,
            deposits,
            received,
        ),
{
    assert forall|j: int|
        0 <= j < received.len() implies received[j] <= entitlement(
        deposits[j],
        distribution.lifetime_deposited_tokens,
        new_max_collectable_tokens,
    ) by {
        lemma_entitlement_antitone_cap(
            deposits[j],
            distribution.lifetime_deposited_tokens,
            collection.max_collectable_tokens,
            new_max_collectable_tokens,
        );
    }
}

/// A successful claim rewrites the claiming depositor's payout record to the
/// entitlement itself, so every payout stays covered, and the distribution's
/// lifetime payout total grows by exactly what was handed out.
pub proof fn lemma_claim_preserves_payout_cover(
    collection: Collection,
    distribution: Distribution,
    deposits: Seq<u64>,
    received: Seq<u64>,
    i: int,
)
    requires
        0 < collection.max_collectable_tokens,
        payouts_within_entitlements(collection, distribution, deposits, received),
        0 <= i < deposits.len(),
        deposits[i] <= collection.max_collectable_tokens,
    ensures
        payouts_within_entitlements(
            collection,
            distribution,
            deposits,
            received.update(
                i,
                entitlement(
                    deposits[i],
                    distribution.lifetime_deposited_tokens,
                    collection.max_collectable_tokens,
                ) as u64,
            ),
        ),
        total(
            received.update(
                i,
                entitlement(
                    deposits[i],
                    distribution.lifetime_deposited_tokens,
                    collection.max_collectable_tokens,
                ) as u64,
            ),
        ) == total(received) + entitlement(
            deposits[i],
            distribution.lifetime_deposited_tokens,
            collection.max_collectable_tokens,
        ) - received[i],
{
    let ent = entitlement(
        deposits[i],
        distribution.lifetime_deposited_tokens,
        collection.max_collectable_tokens,
    );
    lemma_entitlement_bounds(
        deposits[i],
        distribution.lifetime_deposited_tokens,
        collection.max_collectable_tokens,
    );
    lemma_total_update(received, i, ent as u64);
}

/// The ledger's standing guarantee, assembled: in any state satisfying the
/// cap invariant, conservation, and the payout cover — all of which hold
/// after creation and are preserved by every operation — the distribution
/// has paid out no more than it was ever funded with.
pub proof fn lemma_system_never_over_pays(
    collection: Collection,
    distribution: Distribution,
    deposits: Seq<u64>,
    received: Seq<u64>,
)
    requires
        collection.wf(),
        total(deposits) == collection.lifetime_tokens_collected,
        payouts_within_entitlements(collection, distribution, deposits, received),
    ensures
        total(received) <= distribution.lifetime_deposited_tokens,
{
    lemma_no_over_payment(
        deposits,
        received,
        distribution.lifetime_deposited_tokens,
        collection.max_collectable_tokens,
    );
}

/// Idempotent re-claim: a successful claim leaves `received_amount` equal to
/// the recomputed entitlement, so with no intervening funding a second claim
/// is accepted and pays exactly zero — the transfer is empty and every
/// record keeps its value.
pub proof fn lemma_reclaim_pays_nothing(
    collection: Collection,
    collection_key: Address,
    distribution: Distribution,
    user_state: CollectionUserState,
    paid_state: DistributionUserState,
    distribution_vault: Address,
)
    requires
        distribution.collection == collection_key,
        distribution.vault == distribution_vault,
        0 < collection.max_collectable_tokens,
        user_state.deposited_amount <= collection.max_collectable_tokens,
        paid_state.received_amount == entitlement(
            user_state.deposited_amount,
            distribution.lifetime_deposited_tokens,
            collection.max_collectable_tokens,
        ),
    ensures
        claim_accepted(
            collection,
            collection_key,
            distribution,
            user_state,
            paid_state,
            distribution_vault,
        ),
        entitlement(
            user_state.deposited_amount,
            distribution.lifetime_deposited_tokens,
            collection.max_collectable_tokens,
        ) - paid_state.received_amount == 0,
{
    lemma_entitlement_bounds(
        user_state.deposited_amount,
        distribution.lifetime_deposited_tokens,
        collection.max_collectable_tokens,
    );
}

} // verus!
