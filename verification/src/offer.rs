use vstd::prelude::*;

use crate::account::{AuctionData, AuctionStatus, Creator, Custody, GlobalPool, OfferData, SellData, UserData};
use crate::constants::{MAX_GROSS, PERMYRIAD};
use crate::error::MarketplaceError;
use crate::settle::{distribute, distribute_check, expected_payouts, view_creators, Payout};

verus! {

/// Creates the offer record of the pair (`nft`, `payer`): inactive, with no
/// price yet. One record exists per item and buyer.
pub fn init_offer_data(nft: u64, payer: u64) -> (o: OfferData)
    ensures
        o.mint == nft,
        o.buyer == payer,
        !o.active,
        o.offer_price == 0,
        o.offer_listing_date == 0,
{
    OfferData { mint: nft, buyer: payer, offer_price: 0, offer_listing_date: 0, active: false }
}

/// Why `make_offer` rejects a call, if it does: the records are not the
/// item's or not the caller's; the item is not listed; the price is not in
/// the allowed band (at least half the listed price, below the listed
/// price); an active offer by this buyer already exists; the ledger is not
/// the caller's; less than the price is on escrow deposit.
pub open spec fn make_offer_check(
    sell: SellData,
    offer: OfferData,
    user_pool: UserData,
    nft_mint: u64,
    owner: u64,
    price: u64,
) -> Option<MarketplaceError> {
    if nft_mint != sell.mint {
        Some(MarketplaceError::InvalidNFTDataAcount)
    } else if nft_mint != offer.mint {
        Some(MarketplaceError::InvalidOfferDataMint)
    } else if owner != offer.buyer {
        Some(MarketplaceError::InvalidOfferDataBuyer)
    } else if !sell.active {
        Some(MarketplaceError::OfferForNotListedNFT)
    } else if !(sell.price_sol > price && sell.price_sol / 2 <= price) {
        Some(MarketplaceError::InvalidOfferPrice)
    } else if offer.active {
        Some(MarketplaceError::DisabledOffer)
    } else if owner != user_pool.address {
        Some(MarketplaceError::InvalidOwner)
    } else if user_pool.escrow_sol_balance < price {
        Some(MarketplaceError::InsufficientBuyerSolBalance)
    } else {
        None
    }
}

/// Records an offer of `price` on the listed item, tied to the current
/// listing epoch, and locks the price by debiting the buyer's escrow
/// balance. An offer against a later relisting of the item is invalid from
/// the start.
pub fn make_offer(
    sell: &SellData,
    offer: &mut OfferData,
    user_pool: &mut UserData,
    nft_mint: u64,
    owner: u64,
    price: u64,
) -> (r: Result<(), MarketplaceError>)
    ensures
        match r {
            Ok(()) => {
                &&& make_offer_check(
                    *sell,
                    *old(offer),
                    *old(user_pool),
                    nft_mint,
                    owner,
                    price,
                ) is None
                &&& *final(offer) == (OfferData {
                    offer_price: price,
                    offer_listing_date: sell.listed_date,
                    active: true,
                    ..*old(offer)
                })
                &&& *final(user_pool) == (UserData {
                    escrow_sol_balance: (old(user_pool).escrow_sol_balance - price) as u64,
                    ..*old(user_pool)
                })
            },
            Err(e) => {
                &&& make_offer_check(*sell, *old(offer), *old(user_pool), nft_mint, owner, price)
                    == Some(e)
                &&& *final(offer) == *old(offer)
                &&& *final(user_pool) == *old(user_pool)
            },
        },
{
    if nft_mint != sell.mint {
        return Err(MarketplaceError::InvalidNFTDataAcount);
    }
    if nft_mint != offer.mint {
        return Err(MarketplaceError::InvalidOfferDataMint);
    }
    if owner != offer.buyer {
        return Err(MarketplaceError::InvalidOfferDataBuyer);
    }
    if !sell.active {
        return Err(MarketplaceError::OfferForNotListedNFT);
    }
    if !(sell.price_sol > price && sell.price_sol / 2 <= price) {
        return Err(MarketplaceError::InvalidOfferPrice);
    }
    if offer.active {
        return Err(MarketplaceError::DisabledOffer);
    }
    if owner != user_pool.address {
        return Err(MarketplaceError::InvalidOwner);
    }
    if user_pool.escrow_sol_balance < price {
        return Err(MarketplaceError::InsufficientBuyerSolBalance);
    }
    offer.offer_listing_date = sell.listed_date;
    offer.offer_price = price;
    offer.active = true;
    user_pool.escrow_sol_balance = user_pool.escrow_sol_balance - price;
    Ok(())
}

/// Why `cancel_offer` rejects a call, if it does: the record is not the
/// item's or not the caller's; the offer is not active; the ledger is not
/// the caller's.
pub open spec fn cancel_offer_check(
    offer: OfferData,
    user_pool: UserData,
    nft_mint: u64,
    owner: u64,
) -> Option<MarketplaceError> {
    if nft_mint != offer.mint {
        Some(MarketplaceError::InvalidOfferDataMint)
    } else if owner != offer.buyer {
        Some(MarketplaceError::InvalidOfferDataBuyer)
    } else if !offer.active {
        Some(MarketplaceError::DisabledOffer)
    } else if owner != user_pool.address {
        Some(MarketplaceError::InvalidOwner)
    } else {
        None
    }
}

/// Withdraws the caller's own active offer and refunds exactly the locked
/// price to the buyer's escrow balance.
pub fn cancel_offer(
    offer: &mut OfferData,
    user_pool: &mut UserData,
    nft_mint: u64,
    owner: u64,
) -> (r: Result<(), MarketplaceError>)
    requires
        old(user_pool).escrow_sol_balance + old(offer).offer_price <= u64::MAX,
    ensures
        match r {
            Ok(()) => {
                &&& cancel_offer_check(*old(offer), *old(user_pool), nft_mint, owner) is None
                &&& *final(offer) == (OfferData { active: false, ..*old(offer) })
                &&& *final(user_pool) == (UserData {
                    escrow_sol_balance: (old(user_pool).escrow_sol_balance
                        + old(offer).offer_price) as u64,
                    ..*old(user_pool)
                })
            },
            Err(e) => {
                &&& cancel_offer_check(*old(offer), *old(user_pool), nft_mint, owner) == Some(e)
                &&& *final(offer) == *old(offer)
                &&& *final(user_pool) == *old(user_pool)
            },
        },
{
    if nft_mint != offer.mint {
        return Err(MarketplaceError::InvalidOfferDataMint);
    }
    if owner != offer.buyer {
        return Err(MarketplaceError::InvalidOfferDataBuyer);
    }
    if !offer.active {
        return Err(MarketplaceError::DisabledOffer);
    }
    if owner != user_pool.address {
        return Err(MarketplaceError::InvalidOwner);
    }
    user_pool.escrow_sol_balance = user_pool.escrow_sol_balance + offer.offer_price;
    offer.active = false;
    Ok(())
}

/// Why `accept_offer` rejects a call, if it does: the records are not the
/// item's; under a reserved auction the seller must be its creator; the
/// ledgers must belong to the parties; the listing must be active and the
/// seller the recorded one; the offer must be the buyer's and active; the
/// offer must target the current listing epoch, so offers made before a
/// relisting are stale; the buyer must have the price on escrow deposit;
/// then the settlement checks of `distribute`; finally the vault must hold
/// the item.
pub open spec fn accept_offer_check(
    g: GlobalPool,
    sell: SellData,
    auction: AuctionData,
    offer: OfferData,
    buyer_user_pool: UserData,
    seller_user_pool: UserData,
    custody: Custody,
    nft_mint: u64,
    seller: u64,
    buyer: u64,
    creators: Option<Seq<Creator>>,
    payees: Seq<u64>,
) -> Option<MarketplaceError> {
    if nft_mint != sell.mint {
        Some(MarketplaceError::InvalidNFTDataAcount)
    } else if nft_mint != auction.mint {
        Some(MarketplaceError::InvalidNFTDataAcount)
    } else if auction.status is Reserved && seller != auction.creator {
        Some(MarketplaceError::CreatorAccountMismatch)
    } else if buyer != buyer_user_pool.address {
        Some(MarketplaceError::InvalidOwner)
    } else if seller != seller_user_pool.address {
        Some(MarketplaceError::InvalidOwner)
    } else if !sell.active {
        Some(MarketplaceError::NotListedNFT)
    } else if seller != sell.seller {
        Some(MarketplaceError::SellerAccountMismatch)
    } else if nft_mint != offer.mint {
        Some(MarketplaceError::InvalidOfferDataMint)
    } else if buyer != offer.buyer {
        Some(MarketplaceError::InvalidOfferDataBuyer)
    } else if !offer.active {
        Some(MarketplaceError::DisabledOffer)
    } else if offer.offer_listing_date != sell.listed_date {
        Some(MarketplaceError::OfferForExpiredListingNFT)
    } else if buyer_user_pool.escrow_sol_balance < offer.offer_price {
        Some(MarketplaceError::InsufficientBuyerSolBalance)
    } else if distribute_check(g, creators, payees) is Some {
        distribute_check(g, creators, payees)
    } else if !custody.in_vault {
        Some(MarketplaceError::NFTIsNotInEscrowATA)
    } else {
        None
    }
}

/// The seller takes the buyer's offer at its recorded price. Atomically:
/// deactivates the offer and the listing (and cancels a reserved auction on
/// the item), debits the buyer's escrow balance by the offer price, credits
/// both parties' traded volume, hands the item to the buyer, and returns the
/// settlement to pay out of escrow: the seller's net first, then the
/// treasury cuts, then the royalty cuts.
pub fn accept_offer(
    g: &GlobalPool,
    sell: &mut SellData,
    auction: &mut AuctionData,
    offer: &mut OfferData,
    buyer_user_pool: &mut UserData,
    seller_user_pool: &mut UserData,
    custody: &mut Custody,
    nft_mint: u64,
    seller: u64,
    buyer: u64,
    royalty_bps: u64,
    creators: &Option<Vec<Creator>>,
    payees: &Vec<u64>,
) -> (r: Result<Vec<Payout>, MarketplaceError>)
    requires
        g.wf(),
        old(offer).offer_price <= MAX_GROSS,
        royalty_bps + g.market_fee_sol <= PERMYRIAD,
        old(buyer_user_pool).traded_volume + old(offer).offer_price <= u64::MAX,
        old(seller_user_pool).traded_volume + old(offer).offer_price <= u64::MAX,
    ensures
        match r {
            Ok(payouts) => {
                &&& accept_offer_check(
                    *g,
                    *old(sell),
                    *old(auction),
                    *old(offer),
                    *old(buyer_user_pool),
                    *old(seller_user_pool),
                    *old(custody),
                    nft_mint,
                    seller,
                    buyer,
                    view_creators(*creators),
                    payees@,
                ) is None
                &&& payouts@ == expected_payouts(
                    seller,
                    old(offer).offer_price,
                    royalty_bps,
                    g.market_fee_sol,
                    g.team_treasury@,
                    g.treasury_rate@,
                    view_creators(*creators)->0,
                )
                &&& *final(sell) == (SellData { active: false, ..*old(sell) })
                &&& *final(offer) == (OfferData { active: false, ..*old(offer) })
                &&& *final(auction) == (if old(auction).status is Reserved {
                    AuctionData { status: AuctionStatus::Cancelled, ..*old(auction) }
                } else {
                    *old(auction)
                })
                &&& *final(buyer_user_pool) == (UserData {
                    escrow_sol_balance: (old(buyer_user_pool).escrow_sol_balance
                        - old(offer).offer_price) as u64,
                    traded_volume: (old(buyer_user_pool).traded_volume
                        + old(offer).offer_price) as u64,
                    ..*old(buyer_user_pool)
                })
                &&& *final(seller_user_pool) == (UserData {
                    traded_volume: (old(seller_user_pool).traded_volume
                        + old(offer).offer_price) as u64,
                    ..*old(seller_user_pool)
                })
                &&& *final(custody) == (Custody { owner: buyer, in_vault: false })
            },
            Err(e) => {
                &&& accept_offer_check(
                    *g,
                    *old(sell),
                    *old(auction),
                    *old(offer),
                    *old(buyer_user_pool),
                    *old(seller_user_pool),
                    *old(custody),
                    nft_mint,
                    seller,
                    buyer,
                    view_creators(*creators),
                    payees@,
                ) == Some(e)
                &&& *final(sell) == *old(sell)
                &&& *final(auction) == *old(auction)
                &&& *final(offer) == *old(offer)
                &&& *final(buyer_user_pool) == *old(buyer_user_pool)
                &&& *final(seller_user_pool) == *old(seller_user_pool)
                &&& *final(custody) == *old(custody)
            },
        },
{
    if nft_mint != sell.mint {
        return Err(MarketplaceError::InvalidNFTDataAcount);
    }
    if nft_mint != auction.mint {
        return Err(MarketplaceError::InvalidNFTDataAcount);
    }
    let reserved = matches!(auction.status, AuctionStatus::Reserved);
    if reserved && seller != auction.creator {
        return Err(MarketplaceError::CreatorAccountMismatch);
    }
    if buyer != buyer_user_pool.address {
        return Err(MarketplaceError::InvalidOwner);
    }
    if seller != seller_user_pool.address {
        return Err(MarketplaceError::InvalidOwner);
    }
    if !sell.active {
        return Err(MarketplaceError::NotListedNFT);
    }
    if seller != sell.seller {
        return Err(MarketplaceError::SellerAccountMismatch);
    }
    if nft_mint != offer.mint {
        return Err(MarketplaceError::InvalidOfferDataMint);
    }
    if buyer != offer.buyer {
        return Err(MarketplaceError::InvalidOfferDataBuyer);
    }
    if !offer.active {
        return Err(MarketplaceError::DisabledOffer);
    }
    if offer.offer_listing_date != sell.listed_date {
        return Err(MarketplaceError::OfferForExpiredListingNFT);
    }
    if buyer_user_pool.escrow_sol_balance < offer.offer_price {
        return Err(MarketplaceError::InsufficientBuyerSolBalance);
    }
    let payouts = match distribute(g, seller, offer.offer_price, royalty_bps, creators, payees) {
        Ok(p) => p,
        Err(e) => {
            return Err(e);
        },
    };
    if !custody.in_vault {
        return Err(MarketplaceError::NFTIsNotInEscrowATA);
    }
    offer.active = false;
    sell.active = false;
    if reserved {
        auction.status = AuctionStatus::Cancelled;
    }
    buyer_user_pool.escrow_sol_balance = buyer_user_pool.escrow_sol_balance - offer.offer_price;
    buyer_user_pool.traded_volume = buyer_user_pool.traded_volume + offer.offer_price;
    seller_user_pool.traded_volume = seller_user_pool.traded_volume + offer.offer_price;
    custody.owner = buyer;
    custody.in_vault = false;
    Ok(payouts)
}

} // verus!
