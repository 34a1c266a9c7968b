use vstd::prelude::*;

use crate::error::ErrorCode;
use crate::share::entitlement;
use crate::share::lemma_entitlement_bounds;
use crate::state::Address;
use crate::state::Collection;
use crate::state::CollectionUserState;
use crate::state::Distribution;
use crate::state::DistributionUserState;
use vstd::arithmetic::mul::lemma_mul_upper_bound;

verus! {

/// Creates a collection: a capped escrow pool for `mint`, held in `vault`,
/// administered by `authority`. Succeeds exactly when the requested cap is
/// positive; nothing has been collected yet.
pub fn init_collection(
    authority: Address,
    mint: Address,
    vault: Address,
    replacement_mint: Address,
    counter: u64,
    max_collectable_tokens: u64,
) -> (r: Result<Collection, ErrorCode>)
    ensures
        max_collectable_tokens == 0 ==> r == Err::<Collection, ErrorCode>(
            ErrorCode::InvalidMaxCollectableTokens,
        ),
        max_collectable_tokens > 0 ==> r == Ok::<Collection, ErrorCode>(
            (Collection {
                authority,
                lifetime_tokens_collected: 0,
                max_collectable_tokens,
                mint,
                vault,
                replacement_mint,
                counter,
            }),
        ),
        r matches Ok(c) ==> c.wf(),
{
    if max_collectable_tokens == 0 {
        return Err(ErrorCode::InvalidMaxCollectableTokens);
    }
    Ok(
        Collection {
            authority,
            lifetime_tokens_collected: 0,
            max_collectable_tokens,
            mint,
            vault,
            replacement_mint,
            counter,
        },
    )
}

/// Lowers a collection's cap. Only the authority may do so, only to a value
/// still covering everything collected, and only strictly downward — raising
/// the cap after the fact would dilute existing depositors' shares, while
/// lowering it releases distribution capacity a short collection would
/// otherwise leave unclaimable.
pub fn decrease_collection_max_collectable_tokens(
    collection: &mut Collection,
    caller: Address,
    new_max_collectable_tokens: u64,
) -> (r: Result<(), ErrorCode>)
    ensures
        r.is_err() ==> *final(collection) == *old(collection),
        caller != old(collection).authority ==> r == Err::<(), ErrorCode>(ErrorCode::Unauthorized),
        caller == old(collection).authority && new_max_collectable_tokens < old(collection).lifetime_tokens_collected ==> r == Err::<(), ErrorCode>(
            ErrorCode::MaxCollectableTokensBelowTotal,
        ),
        caller == old(collection).authority && new_max_collectable_tokens >= old(collection).lifetime_tokens_collected && new_max_collectable_tokens >= old(collection).max_collectable_tokens ==> r == Err::<(), ErrorCode>(ErrorCode::InvalidDecrease),
        r.is_ok() <==> (caller == old(collection).authority && old(collection).lifetime_tokens_collected <= new_max_collectable_tokens < old(collection).max_collectable_tokens),
        r.is_ok() ==> *final(collection) == (Collection {
            max_collectable_tokens: new_max_collectable_tokens,
            ..*old(collection)
        }),
        r.is_ok() ==> final(collection).max_collectable_tokens < old(collection).max_collectable_tokens,
{
    if caller != collection.authority {
        return Err(ErrorCode::Unauthorized);
    }
    if new_max_collectable_tokens < collection.lifetime_tokens_collected {
        return Err(ErrorCode::MaxCollectableTokensBelowTotal);
    }
    if new_max_collectable_tokens >= collection.max_collectable_tokens {
        return Err(ErrorCode::InvalidDecrease);
    }
    collection.max_collectable_tokens = new_max_collectable_tokens;
    Ok(())
}

/// Withdraws the collection vault's entire balance to the authority. A
/// treasury operation only: it returns the amount to move and touches no
/// accounting, so no depositor's entitlement changes (entitlements are
/// computed from deposits and the cap, never from the vault balance).
pub fn withdraw_from_collection(
    collection: &Collection,
    caller: Address,
    vault: Address,
    vault_balance: u64,
) -> (r: Result<u64, ErrorCode>)
    ensures
        caller != collection.authority ==> r == Err::<u64, ErrorCode>(ErrorCode::Unauthorized),
        caller == collection.authority && vault != collection.vault ==> r == Err::<u64, ErrorCode>(
            ErrorCode::RecordMismatch,
        ),
        caller == collection.authority && vault == collection.vault ==> r == Ok::<u64, ErrorCode>(
            vault_balance,
        ),
{
    if caller != collection.authority {
        return Err(ErrorCode::Unauthorized);
    }
    if vault != collection.vault {
        return Err(ErrorCode::RecordMismatch);
    }
    Ok(vault_balance)
}

/// Creates a distribution under `collection`: a reward pool of `mint` (which
/// may differ from the collected asset), held in `vault`. Only the
/// collection's authority may create it; nothing is funded or paid out yet.
pub fn init_distribution(
    collection: &Collection,
    collection_key: Address,
    caller: Address,
    mint: Address,
    vault: Address,
) -> (r: Result<Distribution, ErrorCode>)
    ensures
        caller != collection.authority ==> r == Err::<Distribution, ErrorCode>(
            ErrorCode::Unauthorized,
        ),
        caller == collection.authority ==> r == Ok::<Distribution, ErrorCode>(
            (Distribution {
                collection: collection_key,
                lifetime_deposited_tokens: 0,
                mint,
                vault,
                distributed_tokens: 0,
            }),
        ),
        r matches Ok(d) ==> d.wf(),
{
    if caller != collection.authority {
        return Err(ErrorCode::Unauthorized);
    }
    Ok(
        Distribution {
            collection: collection_key,
            lifetime_deposited_tokens: 0,
            mint,
            vault,
            distributed_tokens: 0,
        },
    )
}

/// Funds a distribution with `amount` freshly transferred tokens. Anyone
/// holding the reward asset may fund — reward sourcing need not come from
/// the collection authority. The supplied vault must be the distribution's
/// own, and the running total is overflow-checked.
pub fn add_distribution_tokens(distribution: &mut Distribution, vault: Address, amount: u64) -> (r:
    Result<(), ErrorCode>)
    ensures
        r.is_err() ==> *final(distribution) == *old(distribution),
        vault != old(distribution).vault ==> r == Err::<(), ErrorCode>(ErrorCode::RecordMismatch),
        vault == old(distribution).vault && old(distribution).lifetime_deposited_tokens + amount
            > u64::MAX ==> r == Err::<(), ErrorCode>(ErrorCode::Overflow),
        r.is_ok() <==> (vault == old(distribution).vault && old(distribution).lifetime_deposited_tokens + amount <= u64::MAX),
        r.is_ok() ==> final(distribution).lifetime_deposited_tokens == old(distribution).lifetime_deposited_tokens + amount,
        r.is_ok() ==> *final(distribution) == (Distribution {
            lifetime_deposited_tokens: final(distribution).lifetime_deposited_tokens,
            ..*old(distribution)
        }),
        old(distribution).wf() ==> final(distribution).wf(),
{
    if vault != distribution.vault {
        return Err(ErrorCode::RecordMismatch);
    }
    let new_total = match distribution.lifetime_deposited_tokens.checked_add(amount) {
        Some(v) => v,
        None => {
            return Err(ErrorCode::Overflow);
        },
    };
    distribution.lifetime_deposited_tokens = new_total;
    Ok(())
}

/// When a commit of `amount` through `vault` is accepted: the vault is the
/// collection's own, both running totals still fit in the integer domain,
/// and the cap is not exceeded.
pub open spec fn commit_accepted(
    collection: Collection,
    user_state: CollectionUserState,
    vault: Address,
    amount: u64,
) -> bool {
    &&& vault == collection.vault
    &&& collection.lifetime_tokens_collected + amount <= u64::MAX
    &&& user_state.deposited_amount + amount <= u64::MAX
    &&& collection.lifetime_tokens_collected + amount <= collection.max_collectable_tokens
}

/// Commits `amount` tokens from a depositor into the collection, recording
/// it both in the collection's lifetime total and in the depositor's own
/// record (created with a zero balance on first use). All-or-nothing: if the
/// cap would be exceeded or a total would overflow, nothing changes.
pub fn user_commit_to_collection(
    collection: &mut Collection,
    user_state: &mut CollectionUserState,
    vault: Address,
    amount: u64,
) -> (r: Result<(), ErrorCode>)
    ensures
        r.is_err() ==> *final(collection) == *old(collection) && *final(user_state) == *old(user_state),
        vault != old(collection).vault ==> r == Err::<(), ErrorCode>(ErrorCode::RecordMismatch),
        vault == old(collection).vault && (old(collection).lifetime_tokens_collected + amount
            > u64::MAX || old(user_state).deposited_amount + amount > u64::MAX) ==> r == Err::<
            (),
            ErrorCode,
        >(ErrorCode::Overflow),
        vault == old(collection).vault && old(collection).lifetime_tokens_collected + amount
            <= u64::MAX && old(user_state).deposited_amount + amount <= u64::MAX && old(collection).lifetime_tokens_collected + amount > old(collection).max_collectable_tokens ==> r
            == Err::<(), ErrorCode>(ErrorCode::MaxCollectableTokensExceeded),
        r.is_ok() <==> commit_accepted(*old(collection), *old(user_state), vault, amount),
        r.is_ok() ==> final(collection).lifetime_tokens_collected == old(collection).lifetime_tokens_collected + amount,
        r.is_ok() ==> *final(collection) == (Collection {
            lifetime_tokens_collected: final(collection).lifetime_tokens_collected,
            ..*old(collection)
        }),
        r.is_ok() ==> final(user_state).deposited_amount == old(user_state).deposited_amount
            + amount,
        r.is_ok() ==> final(collection).lifetime_tokens_collected <= final(collection).max_collectable_tokens,
        old(collection).wf() ==> final(collection).wf(),
        r.is_ok() && old(user_state).deposited_amount <= old(collection).lifetime_tokens_collected ==> final(user_state).deposited_amount <= final(collection).lifetime_tokens_collected,
{
    if vault != collection.vault {
        return Err(ErrorCode::RecordMismatch);
    }
    let new_lifetime = match collection.lifetime_tokens_collected.checked_add(amount) {
        Some(v) => v,
        None => {
            return Err(ErrorCode::Overflow);
        },
    };
    let new_deposited = match user_state.deposited_amount.checked_add(amount) {
        Some(v) => v,
        None => {
            return Err(ErrorCode::Overflow);
        },
    };
    if new_lifetime > collection.max_collectable_tokens {
        return Err(ErrorCode::MaxCollectableTokensExceeded);
    }
    collection.lifetime_tokens_collected = new_lifetime;
    user_state.deposited_amount = new_deposited;
    Ok(())
}

/// When a claim is accepted: the distribution belongs to the supplied
/// collection, the vault is the distribution's own, the cap is positive (a
/// cap of zero makes the entitlement division impossible), the depositor's
/// recorded payout has not somehow outrun the recomputed entitlement, and
/// the distribution's payout total still fits in the integer domain.
pub open spec fn claim_accepted(
    collection: Collection,
    collection_key: Address,
    distribution: Distribution,
    user_state: CollectionUserState,
    paid_state: DistributionUserState,
    distribution_vault: Address,
) -> bool {
    let ent = entitlement(
        user_state.deposited_amount,
        distribution.lifetime_deposited_tokens,
        collection.max_collectable_tokens,
    );
    &&& distribution.collection == collection_key
    &&& distribution.vault == distribution_vault
    &&& 0 < collection.max_collectable_tokens
    &&& paid_state.received_amount <= ent
    &&& distribution.distributed_tokens + ent - paid_state.received_amount <= u64::MAX
}

/// Pays a depositor what they are still owed from a distribution: the
/// entitlement `floor(deposited * funded / cap)` recomputed from scratch,
/// minus what they already received. Returns the amount to transfer, which
/// may be zero — re-claiming with no new funding succeeds and changes
/// nothing. The depositor's record is brought up to the full entitlement and
/// the distribution's payout total grows by the same amount.
pub fn user_claim_from_distribution(
    collection: &Collection,
    collection_key: Address,
    distribution: &mut Distribution,
    collection_user_state: &CollectionUserState,
    distribution_user_state: &mut DistributionUserState,
    distribution_vault: Address,
) -> (r: Result<u64, ErrorCode>)
    requires
        collection_user_state.deposited_amount <= collection.max_collectable_tokens,
    ensures
        r.is_err() ==> *final(distribution) == *old(distribution) && *final(distribution_user_state) == *old(distribution_user_state),
        old(distribution).collection != collection_key || old(distribution).vault
            != distribution_vault ==> r == Err::<u64, ErrorCode>(ErrorCode::RecordMismatch),
        old(distribution).collection == collection_key && old(distribution).vault
            == distribution_vault && !claim_accepted(
            *collection,
            collection_key,
            *old(distribution),
            *collection_user_state,
            *old(distribution_user_state),
            distribution_vault,
        ) ==> r == Err::<u64, ErrorCode>(ErrorCode::Overflow),
        r.is_ok() <==> claim_accepted(
            *collection,
            collection_key,
            *old(distribution),
            *collection_user_state,
            *old(distribution_user_state),
            distribution_vault,
        ),
        r matches Ok(paid) ==> ({
            let ent = entitlement(
                collection_user_state.deposited_amount,
                old(distribution).lifetime_deposited_tokens,
                collection.max_collectable_tokens,
            );
            &&& paid == ent - old(distribution_user_state).received_amount
            &&& final(distribution_user_state).received_amount == ent
            &&& final(distribution_user_state).received_amount >= old(distribution_user_state).received_amount
            &&& final(distribution).distributed_tokens == old(distribution).distributed_tokens
                + paid
            &&& *final(distribution) == (Distribution {
                distributed_tokens: final(distribution).distributed_tokens,
                ..*old(distribution)
            })
        }),
{
    if distribution.collection != collection_key || distribution.vault != distribution_vault {
        return Err(ErrorCode::RecordMismatch);
    }
    let deposited = collection_user_state.deposited_amount;
    let funded = distribution.lifetime_deposited_tokens;
    let cap = collection.max_collectable_tokens;
    if cap == 0 {
        return Err(ErrorCode::Overflow);
    }
    proof {
        lemma_mul_upper_bound(deposited as int, u64::MAX as int, funded as int, u64::MAX as int);
        lemma_entitlement_bounds(deposited, funded, cap);
    }
    let wide: u128 = (deposited as u128) * (funded as u128);
    let share_wide: u128 = wide / (cap as u128);
    let user_share: u64 = share_wide as u64;
    let amount_to_receive = match user_share.checked_sub(distribution_user_state.received_amount) {
        Some(a) => a,
        None => {
            return Err(ErrorCode::Overflow);
        },
    };
    let new_distributed = match distribution.distributed_tokens.checked_add(amount_to_receive) {
        Some(v) => v,
        None => {
            return Err(ErrorCode::Overflow);
        },
    };
    distribution_user_state.received_amount = user_share;
    distribution.distributed_tokens = new_distributed;
    Ok(amount_to_receive)
}

} // verus!
