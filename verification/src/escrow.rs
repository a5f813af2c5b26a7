use vstd::prelude::*;

use crate::account::UserData;
use crate::error::MarketplaceError;

verus! {

/// Creates the escrow ledger for `owner`, with nothing on deposit and no
/// traded volume. Each party gets exactly one; creating it twice is refused
/// by the storage layer, not here.
pub fn init_user_pool(owner: u64) -> (u: UserData)
    ensures
        u.address == owner,
        u.traded_volume == 0,
        u.escrow_sol_balance == 0,
{
    UserData { address: owner, traded_volume: 0, escrow_sol_balance: 0 }
}

/// Why `deposit_to_escrow` rejects a call, if it does: the amount is zero,
/// or the caller does not own the ledger.
pub open spec fn deposit_to_escrow_check(u: UserData, owner: u64, sol: u64) -> Option<
    MarketplaceError,
> {
    if sol == 0 {
        Some(MarketplaceError::InvalidParamInput)
    } else if owner != u.address {
        Some(MarketplaceError::InvalidOwner)
    } else {
        None
    }
}

/// Credits `sol` to the owner's escrow balance. The caller moves the actual
/// funds into the engine's vault; this records them.
pub fn deposit_to_escrow(u: &mut UserData, owner: u64, sol: u64) -> (r: Result<
    (),
    MarketplaceError,
>)
    requires
        old(u).escrow_sol_balance + sol <= u64::MAX,
    ensures
        match r {
            Ok(()) => deposit_to_escrow_check(*old(u), owner, sol) is None && *final(u) == (
            UserData {
                escrow_sol_balance: (old(u).escrow_sol_balance + sol) as u64,
                ..*old(u)
            }),
            Err(e) => deposit_to_escrow_check(*old(u), owner, sol) == Some(e) && *final(u) == *old(
                u,
            ),
        },
{
    if sol == 0 {
        return Err(MarketplaceError::InvalidParamInput);
    }
    if owner != u.address {
        return Err(MarketplaceError::InvalidOwner);
    }
    u.escrow_sol_balance = u.escrow_sol_balance + sol;
    Ok(())
}

/// Why `withdraw_from_escrow` rejects a call, if it does: the amount is
/// zero, the caller does not own the ledger, or less than the amount is on
/// deposit.
pub open spec fn withdraw_from_escrow_check(u: UserData, owner: u64, sol: u64) -> Option<
    MarketplaceError,
> {
    if sol == 0 {
        Some(MarketplaceError::InvalidParamInput)
    } else if owner != u.address {
        Some(MarketplaceError::InvalidOwner)
    } else if u.escrow_sol_balance < sol {
        Some(MarketplaceError::InsufficientBuyerSolBalance)
    } else {
        None
    }
}

/// Debits `sol` from the owner's escrow balance. The caller pays the actual
/// funds back out of the engine's vault; this records the debit.
pub fn withdraw_from_escrow(u: &mut UserData, owner: u64, sol: u64) -> (r: Result<
    (),
    MarketplaceError,
>)
    ensures
        match r {
            Ok(()) => withdraw_from_escrow_check(*old(u), owner, sol) is None && *final(u) == (
            UserData {
                escrow_sol_balance: (old(u).escrow_sol_balance - sol) as u64,
                ..*old(u)
            }),
            Err(e) => withdraw_from_escrow_check(*old(u), owner, sol) == Some(e) && *final(u)
                == *old(u),
        },
{
    if sol == 0 {
        return Err(MarketplaceError::InvalidParamInput);
    }
    if owner != u.address {
        return Err(MarketplaceError::InvalidOwner);
    }
    if u.escrow_sol_balance < sol {
        return Err(MarketplaceError::InsufficientBuyerSolBalance);
    }
    u.escrow_sol_balance = u.escrow_sol_balance - sol;
    Ok(())
}

} // verus!
