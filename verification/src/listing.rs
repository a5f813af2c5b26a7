use vstd::prelude::*;

use crate::account::{AuctionData, AuctionStatus, Creator, Custody, SellData, UserData, GlobalPool};
use crate::constants::{MAX_GROSS, PERMYRIAD};
use crate::error::MarketplaceError;
use crate::settle::{distribute, distribute_check, expected_payouts, view_creators, Payout};

verus! {

/// Creates the sale record of the item `nft`: unlisted, with no seller and
/// no price yet.
pub fn init_sell_data(nft: u64) -> (s: SellData)
    ensures
        s.mint == nft,
        !s.active,
        s.seller == 0,
        s.collection == 0,
        s.price_sol == 0,
        s.listed_date == 0,
{
    SellData { mint: nft, seller: 0, collection: 0, price_sol: 0, listed_date: 0, active: false }
}

/// The id of the first creator the metadata registry has verified, or zero
/// when it has verified none: the collection the item is filed under.
pub open spec fn first_verified(creators: Seq<Creator>) -> u64
    decreases creators.len(),
{
    if creators.len() == 0 {
        0
    } else if creators[0].verified {
        creators[0].address
    } else {
        first_verified(creators.skip(1))
    }
}

/// Why `list_nft_for_sale` rejects a call, if it does, in the order the
/// checks are made: the records are not the item's; a running auction bars
/// listing; a reserved auction admits only its creator; the registry has no
/// creator list; the caller does not hold the item (or, under a reserved
/// auction, the vault does not).
pub open spec fn list_check(
    sell: SellData,
    auction: AuctionData,
    custody: Custody,
    nft_mint: u64,
    owner: u64,
    creators: Option<Seq<Creator>>,
) -> Option<MarketplaceError> {
    if nft_mint != sell.mint {
        Some(MarketplaceError::InvalidNFTDataAcount)
    } else if nft_mint != auction.mint {
        Some(MarketplaceError::InvalidNFTDataAcount)
    } else if auction.status is Running {
        Some(MarketplaceError::ListingNotAvailable)
    } else if auction.status is Reserved && owner != auction.creator {
        Some(MarketplaceError::CreatorAccountMismatch)
    } else if creators is None {
        Some(MarketplaceError::MetadataCreatorParseError)
    } else if !(auction.status is Reserved) && !(custody.owner == owner && !custody.in_vault) {
        Some(MarketplaceError::NFTIsNotInUserATA)
    } else if auction.status is Reserved && !custody.in_vault {
        Some(MarketplaceError::NFTIsNotInEscrowATA)
    } else {
        None
    }
}

/// The sale record a successful listing writes.
pub open spec fn list_sell_result(
    sell: SellData,
    owner: u64,
    price_sol: u64,
    creators: Seq<Creator>,
    now: i64,
) -> SellData {
    SellData {
        seller: owner,
        collection: first_verified(creators),
        price_sol: price_sol,
        listed_date: now,
        active: true,
        ..sell
    }
}

/// The custody a successful listing leaves: under a reserved auction the
/// vault already holds the item; otherwise the engine locks it in.
pub open spec fn list_custody_result(custody: Custody, auction: AuctionData) -> Custody {
    if auction.status is Reserved {
        custody
    } else {
        Custody { in_vault: true, ..custody }
    }
}

/// Lists the item at `price_sol`: locks it into the vault (unless a reserved
/// auction already holds it there), records the seller, the price and the
/// listing epoch `now`, and files the item under its first verified creator.
pub fn list_nft_for_sale(
    sell: &mut SellData,
    auction: &AuctionData,
    custody: &mut Custody,
    nft_mint: u64,
    owner: u64,
    price_sol: u64,
    creators: &Option<Vec<Creator>>,
    now: i64,
) -> (r: Result<(), MarketplaceError>)
    ensures
        match r {
            Ok(()) => {
                &&& list_check(
                    *old(sell),
                    *auction,
                    *old(custody),
                    nft_mint,
                    owner,
                    view_creators(*creators),
                ) is None
                &&& *final(sell) == list_sell_result(
                    *old(sell),
                    owner,
                    price_sol,
                    view_creators(*creators)->0,
                    now,
                )
                &&& *final(custody) == list_custody_result(*old(custody), *auction)
            },
            Err(e) => {
                &&& list_check(
                    *old(sell),
                    *auction,
                    *old(custody),
                    nft_mint,
                    owner,
                    view_creators(*creators),
                ) == Some(e)
                &&& *final(sell) == *old(sell)
                &&& *final(custody) == *old(custody)
            },
        },
{
    if nft_mint != sell.mint {
        return Err(MarketplaceError::InvalidNFTDataAcount);
    }
    if nft_mint != auction.mint {
        return Err(MarketplaceError::InvalidNFTDataAcount);
    }
    let reserved = matches!(auction.status, AuctionStatus::Reserved);
    if matches!(auction.status, AuctionStatus::Running) {
        return Err(MarketplaceError::ListingNotAvailable);
    }
    if reserved && owner != auction.creator {
        return Err(MarketplaceError::CreatorAccountMismatch);
    }
    let creator_list = match creators {
        Some(list) => list,
        None => {
            return Err(MarketplaceError::MetadataCreatorParseError);
        },
    };
    if !reserved {
        if !(custody.owner == owner && !custody.in_vault) {
            return Err(MarketplaceError::NFTIsNotInUserATA);
        }
    } else {
        if !custody.in_vault {
            return Err(MarketplaceError::NFTIsNotInEscrowATA);
        }
    }
    sell.collection = collection_of(creator_list);
    sell.seller = owner;
    sell.price_sol = price_sol;
    sell.listed_date = now;
    sell.active = true;
    if !reserved {
        custody.in_vault = true;
    }
    Ok(())
}

/// Scans the creator list for the first verified creator.
fn collection_of(creators: &Vec<Creator>) -> (r: u64)
    ensures
        r == first_verified(creators@),
{
    let n = creators.len();
    let mut i: usize = 0;
    proof {
        assert(creators@.skip(0) =~= creators@);
    }
    while i < n
        invariant
            i <= n,
            n == creators@.len(),
            forall|k: int| 0 <= k < i ==> !(#[trigger] creators@[k].verified),
            first_verified(creators@) == first_verified(creators@.skip(i as int)),
        decreases n - i,
    {
        if creators[i].verified {
            proof {
                assert(creators@.skip(i as int)[0] == creators@[i as int]);
            }
            return creators[i].address;
        }
        proof {
            assert(creators@.skip(i as int).skip(1) =~= creators@.skip(i + 1));
            assert(creators@.skip(i as int)[0] == creators@[i as int]);
        }
        i = i + 1;
    }
    proof {
        assert(creators@.skip(n as int).len() == 0);
    }
    0
}

/// Why `delist_nft` rejects a call, if it does: the records are not the
/// item's; only the recorded seller may delist; the listing must be active;
/// a reserved auction admits only its creator; outside a reserved auction
/// the vault must hold the item to give it back.
pub open spec fn delist_check(
    sell: SellData,
    auction: AuctionData,
    custody: Custody,
    nft_mint: u64,
    owner: u64,
) -> Option<MarketplaceError> {
    if nft_mint != sell.mint {
        Some(MarketplaceError::InvalidNFTDataAcount)
    } else if owner != sell.seller {
        Some(MarketplaceError::SellerMismatch)
    } else if !sell.active {
        Some(MarketplaceError::NotListedNFT)
    } else if nft_mint != auction.mint {
        Some(MarketplaceError::InvalidNFTDataAcount)
    } else if auction.status is Reserved && owner != auction.creator {
        Some(MarketplaceError::CreatorAccountMismatch)
    } else if !(auction.status is Reserved) && !custody.in_vault {
        Some(MarketplaceError::NFTIsNotInEscrowATA)
    } else {
        None
    }
}

/// The custody a successful delisting leaves: under a reserved auction the
/// vault keeps the item; otherwise it goes back to the seller.
pub open spec fn delist_custody_result(
    sell: SellData,
    auction: AuctionData,
    custody: Custody,
) -> Custody {
    if auction.status is Reserved {
        custody
    } else {
        Custody { owner: sell.seller, in_vault: false }
    }
}

/// Takes the item off sale and, unless a reserved auction still holds it,
/// releases it from the vault back to the seller.
pub fn delist_nft(
    sell: &mut SellData,
    auction: &AuctionData,
    custody: &mut Custody,
    nft_mint: u64,
    owner: u64,
) -> (r: Result<(), MarketplaceError>)
    ensures
        match r {
            Ok(()) => {
                &&& delist_check(*old(sell), *auction, *old(custody), nft_mint, owner) is None
                &&& *final(sell) == (SellData { active: false, ..*old(sell) })
                &&& *final(custody) == delist_custody_result(*old(sell), *auction, *old(custody))
            },
            Err(e) => {
                &&& delist_check(*old(sell), *auction, *old(custody), nft_mint, owner) == Some(e)
                &&& *final(sell) == *old(sell)
                &&& *final(custody) == *old(custody)
            },
        },
{
    if nft_mint != sell.mint {
        return Err(MarketplaceError::InvalidNFTDataAcount);
    }
    if owner != sell.seller {
        return Err(MarketplaceError::SellerMismatch);
    }
    if !sell.active {
        return Err(MarketplaceError::NotListedNFT);
    }
    if nft_mint != auction.mint {
        return Err(MarketplaceError::InvalidNFTDataAcount);
    }
    let reserved = matches!(auction.status, AuctionStatus::Reserved);
    if reserved && owner != auction.creator {
        return Err(MarketplaceError::CreatorAccountMismatch);
    }
    if !reserved && !custody.in_vault {
        return Err(MarketplaceError::NFTIsNotInEscrowATA);
    }
    sell.active = false;
    if !reserved {
        custody.owner = sell.seller;
        custody.in_vault = false;
    }
    Ok(())
}

/// Listing an item and then delisting it restores custody exactly as it was
/// before the listing, and leaves the listing inactive: outside a reserved
/// auction the item goes from the seller into the vault and back to the
/// seller; under one, the vault holds it throughout.
pub proof fn lemma_list_delist_round_trip(
    sell: SellData,
    auction: AuctionData,
    custody: Custody,
    nft_mint: u64,
    owner: u64,
    price_sol: u64,
    creators: Seq<Creator>,
    now: i64,
)
    requires
        list_check(sell, auction, custody, nft_mint, owner, Some(creators)) is None,
    ensures
        ({
            let sell1 = list_sell_result(sell, owner, price_sol, creators, now);
            let custody1 = list_custody_result(custody, auction);
            &&& delist_check(sell1, auction, custody1, nft_mint, owner) is None
            &&& delist_custody_result(sell1, auction, custody1) == custody
            &&& !(SellData { active: false, ..sell1 }).active
        }),
{
}

/// Why `set_price` rejects a call, if it does: the record is not the item's;
/// only the recorded seller may change the price; the listing must be
/// active.
pub open spec fn set_price_check(sell: SellData, nft_mint: u64, owner: u64) -> Option<
    MarketplaceError,
> {
    if nft_mint != sell.mint {
        Some(MarketplaceError::InvalidNFTDataAcount)
    } else if owner != sell.seller {
        Some(MarketplaceError::SellerMismatch)
    } else if !sell.active {
        Some(MarketplaceError::NotListedNFT)
    } else {
        None
    }
}

/// Replaces the price of an active listing; nothing else changes, offers
/// against the current epoch stay valid.
pub fn set_price(sell: &mut SellData, nft_mint: u64, owner: u64, price: u64) -> (r: Result<
    (),
    MarketplaceError,
>)
    ensures
        match r {
            Ok(()) => set_price_check(*old(sell), nft_mint, owner) is None && *final(sell) == (
            SellData { price_sol: price, ..*old(sell) }),
            Err(e) => set_price_check(*old(sell), nft_mint, owner) == Some(e) && *final(sell)
                == *old(sell),
        },
{
    if nft_mint != sell.mint {
        return Err(MarketplaceError::InvalidNFTDataAcount);
    }
    if owner != sell.seller {
        return Err(MarketplaceError::SellerMismatch);
    }
    if !sell.active {
        return Err(MarketplaceError::NotListedNFT);
    }
    sell.price_sol = price;
    Ok(())
}

/// Why `transfer_from_vault` rejects a call, if it does: as for delisting,
/// and the vault must hold the item.
pub open spec fn transfer_from_vault_check(
    sell: SellData,
    auction: AuctionData,
    custody: Custody,
    nft_mint: u64,
    owner: u64,
) -> Option<MarketplaceError> {
    if nft_mint != sell.mint {
        Some(MarketplaceError::InvalidNFTDataAcount)
    } else if owner != sell.seller {
        Some(MarketplaceError::SellerMismatch)
    } else if !sell.active {
        Some(MarketplaceError::NotListedNFT)
    } else if auction.status is Reserved && owner != auction.creator {
        Some(MarketplaceError::CreatorAccountMismatch)
    } else if !custody.in_vault {
        Some(MarketplaceError::NFTIsNotInEscrowATA)
    } else {
        None
    }
}

/// Takes the item off sale, cancels a reserved auction on it, and releases
/// it from the vault back to the seller unconditionally.
pub fn transfer_from_vault(
    sell: &mut SellData,
    auction: &mut AuctionData,
    custody: &mut Custody,
    nft_mint: u64,
    owner: u64,
) -> (r: Result<(), MarketplaceError>)
    ensures
        match r {
            Ok(()) => {
                &&& transfer_from_vault_check(
                    *old(sell),
                    *old(auction),
                    *old(custody),
                    nft_mint,
                    owner,
                ) is None
                &&& *final(sell) == (SellData { active: false, ..*old(sell) })
                &&& *final(auction) == (if old(auction).status is Reserved {
                    AuctionData { status: AuctionStatus::Cancelled, ..*old(auction) }
                } else {
                    *old(auction)
                })
                &&& *final(custody) == (Custody { owner: old(sell).seller, in_vault: false })
            },
            Err(e) => {
                &&& transfer_from_vault_check(
                    *old(sell),
                    *old(auction),
                    *old(custody),
                    nft_mint,
                    owner,
                ) == Some(e)
                &&& *final(sell) == *old(sell)
                &&& *final(auction) == *old(auction)
                &&& *final(custody) == *old(custody)
            },
        },
{
    if nft_mint != sell.mint {
        return Err(MarketplaceError::InvalidNFTDataAcount);
    }
    if owner != sell.seller {
        return Err(MarketplaceError::SellerMismatch);
    }
    if !sell.active {
        return Err(MarketplaceError::NotListedNFT);
    }
    let reserved = matches!(auction.status, AuctionStatus::Reserved);
    if reserved && owner != auction.creator {
        return Err(MarketplaceError::CreatorAccountMismatch);
    }
    if !custody.in_vault {
        return Err(MarketplaceError::NFTIsNotInEscrowATA);
    }
    sell.active = false;
    if reserved {
        auction.status = AuctionStatus::Cancelled;
    }
    custody.owner = sell.seller;
    custody.in_vault = false;
    Ok(())
}

/// Why `purchase` rejects a call, if it does: the records are not the
/// item's; under a reserved auction the seller must be its creator; the
/// listing must be active and the seller the recorded one; each party must
/// own the ledger handed in; then the settlement checks of `distribute`;
/// finally the vault must hold the item.
pub open spec fn purchase_check(
    g: GlobalPool,
    sell: SellData,
    auction: AuctionData,
    buyer_user_pool: UserData,
    seller_user_pool: UserData,
    custody: Custody,
    nft_mint: u64,
    buyer: u64,
    seller: u64,
    creators: Option<Seq<Creator>>,
    payees: Seq<u64>,
) -> Option<MarketplaceError> {
    if nft_mint != sell.mint {
        Some(MarketplaceError::InvalidNFTDataAcount)
    } else if nft_mint != auction.mint {
        Some(MarketplaceError::InvalidNFTDataAcount)
    } else if auction.status is Reserved && seller != auction.creator {
        Some(MarketplaceError::CreatorAccountMismatch)
    } else if !sell.active {
        Some(MarketplaceError::NotListedNFT)
    } else if seller != sell.seller {
        Some(MarketplaceError::SellerAccountMismatch)
    } else if seller != seller_user_pool.address {
        Some(MarketplaceError::InvalidOwner)
    } else if buyer != buyer_user_pool.address {
        Some(MarketplaceError::InvalidOwner)
    } else if distribute_check(g, creators, payees) is Some {
        distribute_check(g, creators, payees)
    } else if !custody.in_vault {
        Some(MarketplaceError::NFTIsNotInEscrowATA)
    } else {
        None
    }
}

/// A direct sale at the listed price. Deactivates the listing (and cancels a
/// reserved auction on the item), credits both parties' traded volume, hands
/// the item to the buyer, and returns the settlement the buyer must pay:
/// the seller's net first, then the treasury cuts, then the royalty cuts.
pub fn purchase(
    g: &GlobalPool,
    sell: &mut SellData,
    auction: &mut AuctionData,
    buyer_user_pool: &mut UserData,
    seller_user_pool: &mut UserData,
    custody: &mut Custody,
    nft_mint: u64,
    buyer: u64,
    seller: u64,
    royalty_bps: u64,
    creators: &Option<Vec<Creator>>,
    payees: &Vec<u64>,
) -> (r: Result<Vec<Payout>, MarketplaceError>)
    requires
        g.wf(),
        old(sell).price_sol <= MAX_GROSS,
        royalty_bps + g.market_fee_sol <= PERMYRIAD,
        old(buyer_user_pool).traded_volume + old(sell).price_sol <= u64::MAX,
        old(seller_user_pool).traded_volume + old(sell).price_sol <= u64::MAX,
    ensures
        match r {
            Ok(payouts) => {
                &&& purchase_check(
                    *g,
                    *old(sell),
                    *old(auction),
                    *old(buyer_user_pool),
                    *old(seller_user_pool),
                    *old(custody),
                    nft_mint,
                    buyer,
                    seller,
                    view_creators(*creators),
                    payees@,
                ) is None
                &&& payouts@ == expected_payouts(
                    seller,
                    old(sell).price_sol,
                    royalty_bps,
                    g.market_fee_sol,
                    g.team_treasury@,
                    g.treasury_rate@,
                    view_creators(*creators)->0,
                )
                &&& *final(sell) == (SellData { active: false, ..*old(sell) })
                &&& *final(auction) == (if old(auction).status is Reserved {
                    AuctionData { status: AuctionStatus::Cancelled, ..*old(auction) }
                } else {
                    *old(auction)
                })
                &&& *final(buyer_user_pool) == (UserData {
                    traded_volume: (old(buyer_user_pool).traded_volume + old(sell).price_sol) as u64,
                    ..*old(buyer_user_pool)
                })
                &&& *final(seller_user_pool) == (UserData {
                    traded_volume: (old(seller_user_pool).traded_volume
                        + old(sell).price_sol) as u64,
                    ..*old(seller_user_pool)
                })
                &&& *final(custody) == (Custody { owner: buyer, in_vault: false })
            },
            Err(e) => {
                &&& purchase_check(
                    *g,
                    *old(sell),
                    *old(auction),
                    *old(buyer_user_pool),
                    *old(seller_user_pool),
                    *old(custody),
                    nft_mint,
                    buyer,
                    seller,
                    view_creators(*creators),
                    payees@,
                ) == Some(e)
                &&& *final(sell) == *old(sell)
                &&& *final(auction) == *old(auction)
                &&& *final(buyer_user_pool) == *old(buyer_user_pool)
                &&& *final(seller_user_pool) == *old(seller_user_pool)
                &&& *final(custody) == *old(custody)
            },
        },
{
    if nft_mint != sell.mint {
        return Err(MarketplaceError::InvalidNFTDataAcount);
    }
    if nft_mint != auction.mint {
        return Err(MarketplaceError::InvalidNFTDataAcount);
    }
    let reserved = matches!(auction.status, AuctionStatus::Reserved);
    if reserved && seller != auction.creator {
        return Err(MarketplaceError::CreatorAccountMismatch);
    }
    if !sell.active {
        return Err(MarketplaceError::NotListedNFT);
    }
    if seller != sell.seller {
        return Err(MarketplaceError::SellerAccountMismatch);
    }
    if seller != seller_user_pool.address {
        return Err(MarketplaceError::InvalidOwner);
    }
    if buyer != buyer_user_pool.address {
        return Err(MarketplaceError::InvalidOwner);
    }
    let payouts = match distribute(g, seller, sell.price_sol, royalty_bps, creators, payees) {
        Ok(p) => p,
        Err(e) => {
            return Err(e);
        },
    };
    if !custody.in_vault {
        return Err(MarketplaceError::NFTIsNotInEscrowATA);
    }
    sell.active = false;
    if reserved {
        auction.status = AuctionStatus::Cancelled;
    }
    buyer_user_pool.traded_volume = buyer_user_pool.traded_volume + sell.price_sol;
    seller_user_pool.traded_volume = seller_user_pool.traded_volume + sell.price_sol;
    custody.owner = buyer;
    custody.in_vault = false;
    Ok(payouts)
}

} // verus!
