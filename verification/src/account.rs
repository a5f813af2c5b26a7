use vstd::prelude::*;

use crate::constants::{MAX_TEAM_COUNT, PERMYRIAD};

verus! {

/// Platform configuration: the admin, the platform fee rate (permyriad) and
/// the table of treasury recipients with their split rates (permyriad).
#[derive(Clone, Debug, PartialEq, Eq)]
pub struct GlobalPool {
    pub super_admin: u64,
    pub market_fee_sol: u64,
    pub team_count: u64,
    pub team_treasury: Vec<u64>,
    pub treasury_rate: Vec<u64>,
}

/// Per-item sale state. One record per item, reused across relistings.
#[derive(Clone, Copy, Debug, PartialEq, Eq, Structural)]
pub struct SellData {
    pub mint: u64,
    pub seller: u64,
    pub collection: u64,
    pub price_sol: u64,
    pub listed_date: i64,
    pub active: bool,
}

/// A negotiated bid by one buyer on one item, tied to the listing epoch it
/// was made against.
#[derive(Clone, Copy, Debug, PartialEq, Eq, Structural)]
pub struct OfferData {
    pub mint: u64,
    pub buyer: u64,
    pub offer_price: u64,
    pub offer_listing_date: i64,
    pub active: bool,
}

/// The lifecycle state of an auction record.
#[derive(Clone, Copy, Debug, PartialEq, Eq, Structural)]
pub enum AuctionStatus {
    /// Terminal: cancelled, or never started. A fresh record starts here.
    Cancelled,
    /// Open for bids until its end date passes.
    Running,
    /// Terminal: the highest bidder has claimed the item.
    Claimed,
    /// Pre-created for its creator; bidding on it starts it.
    Reserved,
}

/// Per-item auction state.
#[derive(Clone, Copy, Debug, PartialEq, Eq)]
pub struct AuctionData {
    pub mint: u64,
    pub creator: u64,
    pub start_price: u64,
    pub min_increase_amount: u64,
    pub start_date: i64,
    pub last_bid_date: i64,
    pub last_bidder: Option<u64>,
    pub highest_bid: u64,
    pub duration: i64,
    pub status: AuctionStatus,
}

/// Per-party escrow ledger and cumulative traded volume.
#[derive(Clone, Copy, Debug, PartialEq, Eq, Structural)]
pub struct UserData {
    pub address: u64,
    pub traded_volume: u64,
    pub escrow_sol_balance: u64,
}

/// What the item-custody service reports for one item: who may reclaim it,
/// and whether the engine's vault currently holds it. The service itself
/// lives outside the library; the engine decides every change of this state.
#[derive(Clone, Copy, Debug, PartialEq, Eq, Structural)]
pub struct Custody {
    pub owner: u64,
    pub in_vault: bool,
}

/// One royalty recipient of an item, as the metadata registry reports it:
/// its id, whether the registry has verified it, and its share of the
/// royalty in percent.
#[derive(Clone, Copy, Debug, PartialEq, Eq, Structural)]
pub struct Creator {
    pub address: u64,
    pub verified: bool,
    pub share: u8,
}

/// The sum of a sequence of rates, as a mathematical integer.
pub open spec fn rate_sum(rates: Seq<u64>) -> int
    decreases rates.len(),
{
    if rates.len() == 0 {
        0
    } else {
        rate_sum(rates.drop_last()) + rates.last()
    }
}

/// Every rate sum is nonnegative.
pub proof fn lemma_rate_sum_nonneg(rates: Seq<u64>)
    ensures
        rate_sum(rates) >= 0,
    decreases rates.len(),
{
    if rates.len() > 0 {
        lemma_rate_sum_nonneg(rates.drop_last());
    }
}

/// Extending the summed prefix by one element adds that element to the sum.
pub proof fn lemma_rate_sum_take_succ(rates: Seq<u64>, i: int)
    requires
        0 <= i < rates.len(),
    ensures
        rate_sum(rates.take(i + 1)) == rate_sum(rates.take(i)) + rates[i],
{
    assert(rates.take(i + 1).drop_last() =~= rates.take(i));
    assert(rates.take(i + 1).last() == rates[i]);
}

/// Replacing one element changes the sum by the difference.
pub proof fn lemma_rate_sum_update(rates: Seq<u64>, i: int, v: u64)
    requires
        0 <= i < rates.len(),
    ensures
        rate_sum(rates.update(i, v)) == rate_sum(rates) - rates[i] + v,
    decreases rates.len(),
{
    if i == rates.len() - 1 {
        assert(rates.update(i, v).drop_last() =~= rates.drop_last());
    } else {
        assert(rates.update(i, v).drop_last() =~= rates.drop_last().update(i, v));
        assert(rates.update(i, v).last() == rates.last());
        lemma_rate_sum_update(rates.drop_last(), i, v);
    }
}

/// Removing one element by swapping the last one into its place takes the
/// removed rate out of the sum.
pub proof fn lemma_rate_sum_swap_remove(rates: Seq<u64>, i: int)
    requires
        0 <= i < rates.len(),
    ensures
        rate_sum(rates.update(i, rates.last()).drop_last()) == rate_sum(rates) - rates[i],
{
    lemma_rate_sum_update(rates, i, rates.last());
    let updated = rates.update(i, rates.last());
    if i == rates.len() - 1 {
        assert(updated =~= rates);
    } else {
        assert(updated.last() == rates.last());
    }
}

impl GlobalPool {
    /// The treasury table is well formed: the count matches the two columns,
    /// stays within capacity, every rate is a nonzero permyriad, the rates
    /// sum to at most one whole, and no recipient appears twice.
    pub open spec fn wf(self) -> bool {
        &&& self.team_count as int == self.team_treasury@.len()
        &&& self.team_treasury@.len() == self.treasury_rate@.len()
        &&& self.team_treasury@.len() <= MAX_TEAM_COUNT
        &&& forall|i: int|
            0 <= i < self.treasury_rate@.len() ==> 0 < #[trigger] self.treasury_rate@[i]
                <= PERMYRIAD
        &&& rate_sum(self.treasury_rate@) <= PERMYRIAD
        &&& forall|i: int, j: int|
            0 <= i < j < self.team_treasury@.len() ==> self.team_treasury@[i]
                != self.team_treasury@[j]
    }
}

impl AuctionData {
    /// The end date can be computed without overflow.
    pub open spec fn wf(self) -> bool {
        i64::MIN <= self.start_date + self.duration <= i64::MAX
    }

    /// The moment the auction stops accepting bids and may be claimed or
    /// cancelled.
    pub open spec fn spec_end_date(self) -> int {
        self.start_date + self.duration
    }

    pub fn get_end_date(&self) -> (r: i64)
        requires
            self.wf(),
        ensures
            r == self.spec_end_date(),
    {
        self.start_date + self.duration
    }
}

} // verus!
