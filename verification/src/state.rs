use vstd::prelude::*;

verus! {

/// A 32-byte account address, held as two 128-bit halves. Addresses identify
/// authorities, depositors, asset mints and vault accounts; the ledger only
/// ever compares them for equality.
#[derive(Clone, Copy, Debug, PartialEq, Eq, Hash, Structural)]
pub struct Address {
    pub hi: u128,
    pub lo: u128,
}

/// A capped escrow pool accumulating deposits of one asset from many
/// depositors.
#[derive(Clone, Copy, Debug, PartialEq, Eq, Structural)]
pub struct Collection {
    /// The identity permitted to administer this collection.
    pub authority: Address,
    /// Sum of tokens ever collected, including amounts since withdrawn;
    /// never decreases.
    pub lifetime_tokens_collected: u64,
    /// Cap on `lifetime_tokens_collected`; also the fixed denominator of
    /// every entitlement computation.
    pub max_collectable_tokens: u64,
    /// The asset being collected.
    pub mint: Address,
    /// The account holding the deposited tokens.
    pub vault: Address,
    /// The secondary asset minted 1:1 to depositors as transferable proof of
    /// deposit.
    pub replacement_mint: Address,
    /// Disambiguates multiple collections over the same (authority, mint)
    /// pair.
    pub counter: u64,
}

impl Collection {
    /// Well-formedness: the cap is positive and never exceeded.
    pub open spec fn wf(self) -> bool {
        0 < self.max_collectable_tokens
            && self.lifetime_tokens_collected <= self.max_collectable_tokens
    }
}

/// One depositor's cumulative deposits into one collection; created lazily on
/// the depositor's first commit and never deleted.
#[derive(Clone, Copy, Debug, PartialEq, Eq, Structural)]
pub struct CollectionUserState {
    /// Cumulative amount this depositor has committed; only ever increases.
    pub deposited_amount: u64,
}

/// A reward pool attached to a collection, paying out a second asset (which
/// may equal or differ from the collected one) proportional to deposit share.
#[derive(Clone, Copy, Debug, PartialEq, Eq, Structural)]
pub struct Distribution {
    /// The owning collection's address.
    pub collection: Address,
    /// Total tokens ever added to this distribution; never decreases.
    pub lifetime_deposited_tokens: u64,
    /// The asset being distributed.
    pub mint: Address,
    /// The account holding the tokens to distribute.
    pub vault: Address,
    /// Total tokens ever paid out to depositors; never decreases.
    pub distributed_tokens: u64,
}

impl Distribution {
    /// Well-formedness: no more has been paid out than was ever funded. Each
    /// single claim preserves this only together with the global
    /// no-over-payment argument (see `laws::lemma_no_over_payment`), since a
    /// claim reads one depositor's records at a time.
    pub open spec fn wf(self) -> bool {
        self.distributed_tokens <= self.lifetime_deposited_tokens
    }
}

/// How much one depositor has already been paid from one distribution;
/// created lazily on the depositor's first claim and never deleted.
#[derive(Clone, Copy, Debug, PartialEq, Eq, Structural)]
pub struct DistributionUserState {
    /// Cumulative amount paid to this depositor; only ever increases, and
    /// after every successful claim equals the recomputed entitlement.
    pub received_amount: u64,
}

} // verus!
