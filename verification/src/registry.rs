use vstd::prelude::*;

use crate::account::{
    lemma_rate_sum_nonneg, lemma_rate_sum_swap_remove, lemma_rate_sum_take_succ, rate_sum,
    GlobalPool,
};
use crate::constants::{MAX_TEAM_COUNT, PERMYRIAD};
use crate::error::MarketplaceError;

verus! {

/// Creates the platform configuration with `admin` as its super admin, no
/// fee and an empty treasury table.
pub fn initialize(admin: u64) -> (g: GlobalPool)
    ensures
        g.wf(),
        g.super_admin == admin,
        g.market_fee_sol == 0,
        g.team_count == 0,
{
    GlobalPool {
        super_admin: admin,
        market_fee_sol: 0,
        team_count: 0,
        team_treasury: Vec::new(),
        treasury_rate: Vec::new(),
    }
}

/// Why `update_fee` rejects a call, if it does: only the super admin may set
/// the fee, and the fee is a permyriad strictly below one whole.
pub open spec fn update_fee_check(g: GlobalPool, admin: u64, sol_fee: u64) -> Option<
    MarketplaceError,
> {
    if admin != g.super_admin {
        Some(MarketplaceError::InvalidSuperOwner)
    } else if sol_fee >= PERMYRIAD {
        Some(MarketplaceError::InvalidFeePercent)
    } else {
        None
    }
}

/// Replaces the platform fee rate.
pub fn update_fee(g: &mut GlobalPool, admin: u64, sol_fee: u64) -> (r: Result<
    (),
    MarketplaceError,
>)
    requires
        old(g).wf(),
    ensures
        final(g).wf(),
        match r {
            Ok(()) => update_fee_check(*old(g), admin, sol_fee) is None && *final(g) == (
            GlobalPool { market_fee_sol: sol_fee, ..*old(g) }),
            Err(e) => update_fee_check(*old(g), admin, sol_fee) == Some(e) && *final(g) == *old(g),
        },
{
    if admin != g.super_admin {
        return Err(MarketplaceError::InvalidSuperOwner);
    }
    if sol_fee >= PERMYRIAD {
        return Err(MarketplaceError::InvalidFeePercent);
    }
    g.market_fee_sol = sol_fee;
    Ok(())
}

/// Why `add_team_treasury` rejects a call, if it does, in the order the
/// checks are made: admin only; the table is full; the rate is not a nonzero
/// permyriad; the recipient is already in the table; the rates would sum to
/// more than one whole.
pub open spec fn add_team_treasury_check(
    g: GlobalPool,
    admin: u64,
    address: u64,
    rate: u64,
) -> Option<MarketplaceError> {
    if admin != g.super_admin {
        Some(MarketplaceError::InvalidSuperOwner)
    } else if g.team_count >= MAX_TEAM_COUNT {
        Some(MarketplaceError::MaxTeamCountExceed)
    } else if !(0 < rate && rate <= PERMYRIAD) {
        Some(MarketplaceError::InvalidFeePercent)
    } else if g.team_treasury@.contains(address) {
        Some(MarketplaceError::TreasuryAddressAlreadyAdded)
    } else if rate + rate_sum(g.treasury_rate@) > PERMYRIAD {
        Some(MarketplaceError::MaxTreasuryRateSumExceed)
    } else {
        None
    }
}

/// Appends a treasury recipient with its split rate. The treasury invariant
/// (at most eight entries, no duplicate recipient, rates summing to at most
/// one whole) holds afterwards, and an add to a full table always fails.
pub fn add_team_treasury(g: &mut GlobalPool, admin: u64, address: u64, rate: u64) -> (r: Result<
    (),
    MarketplaceError,
>)
    requires
        old(g).wf(),
    ensures
        final(g).wf(),
        old(g).team_count == MAX_TEAM_COUNT ==> r is Err,
        match r {
            Ok(()) => {
                &&& add_team_treasury_check(*old(g), admin, address, rate) is None
                &&& final(g).team_treasury@ == old(g).team_treasury@.push(address)
                &&& final(g).treasury_rate@ == old(g).treasury_rate@.push(rate)
                &&& final(g).team_count == old(g).team_count + 1
                &&& final(g).super_admin == old(g).super_admin
                &&& final(g).market_fee_sol == old(g).market_fee_sol
                &&& rate_sum(final(g).treasury_rate@) == rate_sum(old(g).treasury_rate@) + rate
            },
            Err(e) => add_team_treasury_check(*old(g), admin, address, rate) == Some(e) && *final(g)
                == *old(g),
        },
{
    if admin != g.super_admin {
        return Err(MarketplaceError::InvalidSuperOwner);
    }
    if g.team_count >= MAX_TEAM_COUNT {
        return Err(MarketplaceError::MaxTeamCountExceed);
    }
    if !(0 < rate && rate <= PERMYRIAD) {
        return Err(MarketplaceError::InvalidFeePercent);
    }
    let n = g.team_treasury.len();
    let mut exist = false;
    let mut sum: u64 = rate;
    let mut i: usize = 0;
    while i < n
        invariant
            i <= n,
            n == g.team_treasury@.len(),
            g == old(g),
            old(g).wf(),
            0 < rate <= PERMYRIAD,
            exist <==> (exists|k: int| 0 <= k < i && old(g).team_treasury@[k] == address),
            sum == rate + rate_sum(old(g).treasury_rate@.take(i as int)),
            sum <= PERMYRIAD + i * PERMYRIAD,
        decreases n - i,
    {
        if g.team_treasury[i] == address {
            exist = true;
        }
        proof {
            lemma_rate_sum_take_succ(old(g).treasury_rate@, i as int);
        }
        sum = sum + g.treasury_rate[i];
        i = i + 1;
    }
    proof {
        assert(old(g).treasury_rate@.take(n as int) =~= old(g).treasury_rate@);
    }
    if exist {
        return Err(MarketplaceError::TreasuryAddressAlreadyAdded);
    }
    if sum > PERMYRIAD {
        return Err(MarketplaceError::MaxTreasuryRateSumExceed);
    }
    g.team_treasury.push(address);
    g.treasury_rate.push(rate);
    g.team_count = g.team_count + 1;
    proof {
        assert(final(g).treasury_rate@.drop_last() =~= old(g).treasury_rate@);
        assert(rate_sum(final(g).treasury_rate@) == rate_sum(old(g).treasury_rate@) + rate);
    }
    Ok(())
}

/// Why `remove_team_treasury` rejects a call, if it does: admin only; the
/// table is empty; the recipient is not in the table.
pub open spec fn remove_team_treasury_check(g: GlobalPool, admin: u64, address: u64) -> Option<
    MarketplaceError,
> {
    if admin != g.super_admin {
        Some(MarketplaceError::InvalidSuperOwner)
    } else if g.team_count == 0 {
        Some(MarketplaceError::NoTeamTreasuryYet)
    } else if !g.team_treasury@.contains(address) {
        Some(MarketplaceError::TreasuryAddressNotFound)
    } else {
        None
    }
}

/// Removes the treasury recipient `address` by swapping the last entry into
/// its place; the table order is irrelevant. The treasury invariant holds
/// afterwards, and the removed rate leaves the rate sum.
pub fn remove_team_treasury(g: &mut GlobalPool, admin: u64, address: u64) -> (r: Result<
    (),
    MarketplaceError,
>)
    requires
        old(g).wf(),
    ensures
        final(g).wf(),
        match r {
            Ok(()) => {
                &&& remove_team_treasury_check(*old(g), admin, address) is None
                &&& exists|i: int|
                    {
                        &&& 0 <= i < old(g).team_treasury@.len()
                        &&& old(g).team_treasury@[i] == address
                        &&& final(g).team_treasury@ == old(g).team_treasury@.update(
                            i,
                            old(g).team_treasury@.last(),
                        ).drop_last()
                        &&& final(g).treasury_rate@ == old(g).treasury_rate@.update(
                            i,
                            old(g).treasury_rate@.last(),
                        ).drop_last()
                        &&& rate_sum(final(g).treasury_rate@) == rate_sum(old(g).treasury_rate@)
                            - old(g).treasury_rate@[i]
                    }
                &&& final(g).team_count == old(g).team_count - 1
                &&& final(g).super_admin == old(g).super_admin
                &&& final(g).market_fee_sol == old(g).market_fee_sol
            },
            Err(e) => remove_team_treasury_check(*old(g), admin, address) == Some(e) && *final(g)
                == *old(g),
        },
{
    if admin != g.super_admin {
        return Err(MarketplaceError::InvalidSuperOwner);
    }
    if g.team_count == 0 {
        return Err(MarketplaceError::NoTeamTreasuryYet);
    }
    let n = g.team_treasury.len();
    let mut found: usize = n;
    let mut i: usize = 0;
    while i < n
        invariant
            i <= n,
            n == g.team_treasury@.len(),
            g == old(g),
            found == n || (found < i && old(g).team_treasury@[found as int] == address),
            found == n ==> (forall|k: int| 0 <= k < i ==> old(g).team_treasury@[k] != address),
        decreases n - i,
    {
        if found == n && g.team_treasury[i] == address {
            found = i;
        }
        i = i + 1;
    }
    if found == n {
        return Err(MarketplaceError::TreasuryAddressNotFound);
    }
    proof {
        lemma_rate_sum_swap_remove(old(g).treasury_rate@, found as int);
    }
    g.team_treasury.swap_remove(found);
    g.treasury_rate.swap_remove(found);
    g.team_count = g.team_count - 1;
    proof {
        lemma_rate_sum_nonneg(final(g).treasury_rate@);
        let t = final(g).team_treasury@;
        assert forall|p: int, q: int| 0 <= p < q < t.len() implies t[p] != t[q] by {
            assert(old(g).wf());
        }
    }
    Ok(())
}

} // verus!
