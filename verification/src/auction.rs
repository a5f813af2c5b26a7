use vstd::prelude::*;

use crate::account::{AuctionData, AuctionStatus, Creator, Custody, GlobalPool, SellData, UserData};
use crate::constants::{MAX_GROSS, PERMYRIAD};
use crate::error::MarketplaceError;
use crate::settle::{distribute, distribute_check, expected_payouts, view_creators, Payout};

verus! {

/// Creates the auction record of the item `nft`: cancelled (that is, no
/// auction yet), with no creator, no prices and no dates.
pub fn init_auction_data(nft: u64) -> (a: AuctionData)
    ensures
        a.wf(),
        a.mint == nft,
        a.status is Cancelled,
        a.creator == 0,
        a.start_price == 0,
        a.min_increase_amount == 0,
        a.start_date == 0,
        a.last_bid_date == 0,
        a.last_bidder is None,
        a.highest_bid == 0,
        a.duration == 0,
{
    AuctionData {
        mint: nft,
        creator: 0,
        start_price: 0,
        min_increase_amount: 0,
        start_date: 0,
        last_bid_date: 0,
        last_bidder: None,
        highest_bid: 0,
        duration: 0,
        status: AuctionStatus::Cancelled,
    }
}

/// Why `create_auction` rejects a call, if it does: the records are not the
/// item's; an ordinary auction cannot be created on an actively listed item;
/// on a listed item only the seller may act; the caller must hold the item
/// (or, when it is listed, the vault must).
pub open spec fn create_auction_check(
    auction: AuctionData,
    sell: SellData,
    custody: Custody,
    nft_mint: u64,
    owner: u64,
    reserved: bool,
) -> Option<MarketplaceError> {
    if nft_mint != auction.mint {
        Some(MarketplaceError::InvalidNFTDataAcount)
    } else if nft_mint != sell.mint {
        Some(MarketplaceError::InvalidNFTDataAcount)
    } else if !reserved && sell.active {
        Some(MarketplaceError::NotListedNFT)
    } else if sell.active && owner != sell.seller {
        Some(MarketplaceError::SellerMismatch)
    } else if !sell.active && !(custody.owner == owner && !custody.in_vault) {
        Some(MarketplaceError::NFTIsNotInUserATA)
    } else if sell.active && !custody.in_vault {
        Some(MarketplaceError::NFTIsNotInEscrowATA)
    } else {
        None
    }
}

/// The auction record a successful creation writes: the highest bid starts
/// one minimum increment below the start price, so the first bid must be at
/// least the start price; a reserved auction waits for its first bid, an
/// ordinary one runs from `now`.
pub open spec fn create_auction_result(
    auction: AuctionData,
    owner: u64,
    start_price: u64,
    min_increase: u64,
    duration: i64,
    reserved: bool,
    now: i64,
) -> AuctionData {
    AuctionData {
        creator: owner,
        start_price: start_price,
        min_increase_amount: min_increase,
        duration: duration,
        last_bidder: None,
        highest_bid: (start_price - min_increase) as u64,
        status: if reserved {
            AuctionStatus::Reserved
        } else {
            AuctionStatus::Running
        },
        start_date: if reserved {
            auction.start_date
        } else {
            now
        },
        ..auction
    }
}

/// Opens an auction on the item. An ordinary auction locks the item into the
/// vault and runs from `now`; a reserved auction may coexist with the
/// creator's own active listing and starts only with its first bid.
pub fn create_auction(
    auction: &mut AuctionData,
    sell: &SellData,
    custody: &mut Custody,
    nft_mint: u64,
    owner: u64,
    start_price: u64,
    min_increase: u64,
    duration: i64,
    reserved: bool,
    now: i64,
) -> (r: Result<(), MarketplaceError>)
    requires
        old(auction).wf(),
        min_increase <= start_price,
        reserved ==> i64::MIN <= old(auction).start_date + duration <= i64::MAX,
        !reserved ==> i64::MIN <= now + duration <= i64::MAX,
    ensures
        final(auction).wf(),
        match r {
            Ok(()) => {
                &&& create_auction_check(
                    *old(auction),
                    *sell,
                    *old(custody),
                    nft_mint,
                    owner,
                    reserved,
                ) is None
                &&& *final(auction) == create_auction_result(
                    *old(auction),
                    owner,
                    start_price,
                    min_increase,
                    duration,
                    reserved,
                    now,
                )
                &&& *final(custody) == (if !sell.active {
                    Custody { in_vault: true, ..*old(custody) }
                } else {
                    *old(custody)
                })
            },
            Err(e) => {
                &&& create_auction_check(
                    *old(auction),
                    *sell,
                    *old(custody),
                    nft_mint,
                    owner,
                    reserved,
                ) == Some(e)
                &&& *final(auction) == *old(auction)
                &&& *final(custody) == *old(custody)
            },
        },
{
    if nft_mint != auction.mint {
        return Err(MarketplaceError::InvalidNFTDataAcount);
    }
    if nft_mint != sell.mint {
        return Err(MarketplaceError::InvalidNFTDataAcount);
    }
    if !reserved && sell.active {
        return Err(MarketplaceError::NotListedNFT);
    }
    if sell.active && owner != sell.seller {
        return Err(MarketplaceError::SellerMismatch);
    }
    if !sell.active {
        if !(custody.owner == owner && !custody.in_vault) {
            return Err(MarketplaceError::NFTIsNotInUserATA);
        }
    } else {
        if !custody.in_vault {
            return Err(MarketplaceError::NFTIsNotInEscrowATA);
        }
    }
    auction.creator = owner;
    auction.start_price = start_price;
    auction.min_increase_amount = min_increase;
    auction.duration = duration;
    auction.last_bidder = None;
    auction.highest_bid = start_price - min_increase;
    if reserved {
        auction.status = AuctionStatus::Reserved;
    } else {
        auction.status = AuctionStatus::Running;
        auction.start_date = now;
    }
    if !sell.active {
        custody.in_vault = true;
    }
    Ok(())
}

/// Why `place_bid` rejects a call, if it does: the records are not the
/// item's; the auction must be running or reserved; a running auction must
/// not have ended; the bid must raise the highest bid by at least the
/// minimum increment; the expected outbidder must be the recorded last
/// bidder, so no refund can be misdirected; the last bidder cannot outbid
/// itself; the creator cannot bid; on a listed item the auction creator must
/// be the seller.
pub open spec fn place_bid_check(
    auction: AuctionData,
    sell: SellData,
    nft_mint: u64,
    bidder: u64,
    out_bidder: u64,
    price: u64,
    now: i64,
) -> Option<MarketplaceError> {
    if nft_mint != auction.mint {
        Some(MarketplaceError::InvalidNFTDataAcount)
    } else if !(auction.status is Running || auction.status is Reserved) {
        Some(MarketplaceError::NotListedNFT)
    } else if auction.status is Running && auction.spec_end_date() <= now {
        Some(MarketplaceError::EndedAuction)
    } else if price < auction.highest_bid + auction.min_increase_amount {
        Some(MarketplaceError::InvalidBidPrice)
    } else if auction.last_bidder is Some && out_bidder != auction.last_bidder->0 {
        Some(MarketplaceError::OutBidderMismatch)
    } else if auction.last_bidder == Some(bidder) {
        Some(MarketplaceError::DoubleBidFromOneBidder)
    } else if bidder == auction.creator {
        Some(MarketplaceError::BidFromAuctionCreator)
    } else if nft_mint != sell.mint {
        Some(MarketplaceError::InvalidNFTDataAcount)
    } else if sell.active && auction.creator != sell.seller {
        Some(MarketplaceError::SellerMismatch)
    } else {
        None
    }
}

/// The auction record a successful bid writes: the bid becomes the highest,
/// the bidder the last bidder; a reserved auction starts running from `now`.
pub open spec fn place_bid_result(auction: AuctionData, bidder: u64, price: u64, now: i64) -> AuctionData {
    AuctionData {
        last_bid_date: now,
        last_bidder: Some(bidder),
        highest_bid: price,
        status: if auction.status is Reserved {
            AuctionStatus::Running
        } else {
            auction.status
        },
        start_date: if auction.status is Reserved {
            now
        } else {
            auction.start_date
        },
        ..auction
    }
}

/// Accepts a bid of `price`, escrowed by the caller. Returns the refund owed
/// to the outbid party: exactly the previous highest bid, to exactly the
/// recorded previous bidder, and no refund on a first bid. Every accepted
/// bid raises the highest bid by at least the minimum increment. A bid on a
/// reserved auction starts it and deactivates a concurrent listing.
pub fn place_bid(
    auction: &mut AuctionData,
    sell: &mut SellData,
    nft_mint: u64,
    bidder: u64,
    out_bidder: u64,
    price: u64,
    now: i64,
) -> (r: Result<Option<Payout>, MarketplaceError>)
    requires
        old(auction).wf(),
        old(auction).highest_bid + old(auction).min_increase_amount <= u64::MAX,
        old(auction).status is Reserved ==> i64::MIN <= now + old(auction).duration <= i64::MAX,
    ensures
        final(auction).wf(),
        match r {
            Ok(refund) => {
                &&& place_bid_check(
                    *old(auction),
                    *old(sell),
                    nft_mint,
                    bidder,
                    out_bidder,
                    price,
                    now,
                ) is None
                &&& refund == (match old(auction).last_bidder {
                    Some(lb) => Some(Payout { to: lb, amount: old(auction).highest_bid }),
                    None => None,
                })
                &&& *final(auction) == place_bid_result(*old(auction), bidder, price, now)
                &&& final(auction).highest_bid >= old(auction).highest_bid + old(auction).min_increase_amount
                &&& *final(sell) == (if old(auction).status is Reserved {
                    SellData { active: false, ..*old(sell) }
                } else {
                    *old(sell)
                })
            },
            Err(e) => {
                &&& place_bid_check(
                    *old(auction),
                    *old(sell),
                    nft_mint,
                    bidder,
                    out_bidder,
                    price,
                    now,
                ) == Some(e)
                &&& *final(auction) == *old(auction)
                &&& *final(sell) == *old(sell)
            },
        },
{
    if nft_mint != auction.mint {
        return Err(MarketplaceError::InvalidNFTDataAcount);
    }
    let running = matches!(auction.status, AuctionStatus::Running);
    let reserved = matches!(auction.status, AuctionStatus::Reserved);
    if !(running || reserved) {
        return Err(MarketplaceError::NotListedNFT);
    }
    if running && auction.get_end_date() <= now {
        return Err(MarketplaceError::EndedAuction);
    }
    if price < auction.highest_bid + auction.min_increase_amount {
        return Err(MarketplaceError::InvalidBidPrice);
    }
    let refund: Option<Payout> = match auction.last_bidder {
        Some(lb) => {
            if out_bidder != lb {
                return Err(MarketplaceError::OutBidderMismatch);
            }
            if bidder == lb {
                return Err(MarketplaceError::DoubleBidFromOneBidder);
            }
            Some(Payout { to: lb, amount: auction.highest_bid })
        },
        None => None,
    };
    if bidder == auction.creator {
        return Err(MarketplaceError::BidFromAuctionCreator);
    }
    if nft_mint != sell.mint {
        return Err(MarketplaceError::InvalidNFTDataAcount);
    }
    if sell.active && auction.creator != sell.seller {
        return Err(MarketplaceError::SellerMismatch);
    }
    auction.last_bid_date = now;
    auction.last_bidder = Some(bidder);
    auction.highest_bid = price;
    if reserved {
        auction.status = AuctionStatus::Running;
        auction.start_date = now;
        sell.active = false;
    }
    Ok(refund)
}

/// Why `update_reserve` rejects a call, if it does: the record is not the
/// item's; only a reserved auction can change its start price; not after any
/// bid; creator only.
pub open spec fn update_reserve_check(
    auction: AuctionData,
    nft_mint: u64,
    creator: u64,
) -> Option<MarketplaceError> {
    if nft_mint != auction.mint {
        Some(MarketplaceError::InvalidNFTDataAcount)
    } else if !(auction.status is Reserved) {
        Some(MarketplaceError::NotListedNFT)
    } else if auction.last_bidder is Some {
        Some(MarketplaceError::AuctionHasBid)
    } else if creator != auction.creator {
        Some(MarketplaceError::CreatorAccountMismatch)
    } else {
        None
    }
}

/// Replaces the start price of a reserved auction that has no bid yet;
/// nothing else changes.
pub fn update_reserve(auction: &mut AuctionData, nft_mint: u64, creator: u64, price: u64) -> (r:
    Result<(), MarketplaceError>)
    requires
        old(auction).wf(),
    ensures
        final(auction).wf(),
        match r {
            Ok(()) => update_reserve_check(*old(auction), nft_mint, creator) is None
                && *final(auction) == (AuctionData { start_price: price, ..*old(auction) }),
            Err(e) => update_reserve_check(*old(auction), nft_mint, creator) == Some(e)
                && *final(auction) == *old(auction),
        },
{
    if nft_mint != auction.mint {
        return Err(MarketplaceError::InvalidNFTDataAcount);
    }
    if !matches!(auction.status, AuctionStatus::Reserved) {
        return Err(MarketplaceError::NotListedNFT);
    }
    if auction.last_bidder.is_some() {
        return Err(MarketplaceError::AuctionHasBid);
    }
    if creator != auction.creator {
        return Err(MarketplaceError::CreatorAccountMismatch);
    }
    auction.start_price = price;
    Ok(())
}

/// Why `cancel_auction` rejects a call, if it does: the records are not the
/// item's; not before the end date has passed; only a running or reserved
/// auction; not after any bid; creator only; on a listed item only the
/// seller; the vault must hold the item to give it back when it is not
/// listed.
pub open spec fn cancel_auction_check(
    auction: AuctionData,
    sell: SellData,
    custody: Custody,
    nft_mint: u64,
    creator: u64,
    now: i64,
) -> Option<MarketplaceError> {
    if nft_mint != auction.mint {
        Some(MarketplaceError::InvalidNFTDataAcount)
    } else if auction.spec_end_date() > now {
        Some(MarketplaceError::NotEndedAuction)
    } else if !(auction.status is Running || auction.status is Reserved) {
        Some(MarketplaceError::NotListedNFT)
    } else if auction.last_bidder is Some {
        Some(MarketplaceError::AuctionHasBid)
    } else if creator != auction.creator {
        Some(MarketplaceError::CreatorAccountMismatch)
    } else if nft_mint != sell.mint {
        Some(MarketplaceError::InvalidNFTDataAcount)
    } else if sell.active && creator != sell.seller {
        Some(MarketplaceError::SellerMismatch)
    } else if !sell.active && !custody.in_vault {
        Some(MarketplaceError::NFTIsNotInEscrowATA)
    } else {
        None
    }
}

/// Cancels an expired auction that drew no bid, and returns the item from
/// the vault to the creator unless an active listing still holds it there.
pub fn cancel_auction(
    auction: &mut AuctionData,
    sell: &SellData,
    custody: &mut Custody,
    nft_mint: u64,
    creator: u64,
    now: i64,
) -> (r: Result<(), MarketplaceError>)
    requires
        old(auction).wf(),
    ensures
        final(auction).wf(),
        match r {
            Ok(()) => {
                &&& cancel_auction_check(
                    *old(auction),
                    *sell,
                    *old(custody),
                    nft_mint,
                    creator,
                    now,
                ) is None
                &&& *final(auction) == (AuctionData {
                    status: AuctionStatus::Cancelled,
                    ..*old(auction)
                })
                &&& *final(custody) == (if !sell.active {
                    Custody { owner: creator, in_vault: false }
                } else {
                    *old(custody)
                })
            },
            Err(e) => {
                &&& cancel_auction_check(
                    *old(auction),
                    *sell,
                    *old(custody),
                    nft_mint,
                    creator,
                    now,
                ) == Some(e)
                &&& *final(auction) == *old(auction)
                &&& *final(custody) == *old(custody)
            },
        },
{
    if nft_mint != auction.mint {
        return Err(MarketplaceError::InvalidNFTDataAcount);
    }
    if auction.get_end_date() > now {
        return Err(MarketplaceError::NotEndedAuction);
    }
    if !(matches!(auction.status, AuctionStatus::Running) || matches!(
        auction.status,
        AuctionStatus::Reserved,
    )) {
        return Err(MarketplaceError::NotListedNFT);
    }
    if auction.last_bidder.is_some() {
        return Err(MarketplaceError::AuctionHasBid);
    }
    if creator != auction.creator {
        return Err(MarketplaceError::CreatorAccountMismatch);
    }
    if nft_mint != sell.mint {
        return Err(MarketplaceError::InvalidNFTDataAcount);
    }
    if sell.active && creator != sell.seller {
        return Err(MarketplaceError::SellerMismatch);
    }
    if !sell.active && !custody.in_vault {
        return Err(MarketplaceError::NFTIsNotInEscrowATA);
    }
    auction.status = AuctionStatus::Cancelled;
    if !sell.active {
        custody.owner = creator;
        custody.in_vault = false;
    }
    Ok(())
}

/// Why `claim_auction` rejects a call, if it does: the record is not the
/// item's; not before the end date has passed; only a running auction; the
/// callers must be the recorded creator and the recorded last bidder, and
/// own the ledgers handed in; then the settlement checks of `distribute`;
/// finally the vault must hold the item.
pub open spec fn claim_auction_check(
    g: GlobalPool,
    auction: AuctionData,
    bidder_user_pool: UserData,
    creator_user_pool: UserData,
    custody: Custody,
    nft_mint: u64,
    creator: u64,
    bidder: u64,
    creators: Option<Seq<Creator>>,
    payees: Seq<u64>,
    now: i64,
) -> Option<MarketplaceError> {
    if nft_mint != auction.mint {
        Some(MarketplaceError::InvalidNFTDataAcount)
    } else if auction.spec_end_date() > now {
        Some(MarketplaceError::NotEndedAuction)
    } else if !(auction.status is Running) {
        Some(MarketplaceError::NotListedNFT)
    } else if creator != auction.creator {
        Some(MarketplaceError::CreatorAccountMismatch)
    } else if auction.last_bidder != Some(bidder) {
        Some(MarketplaceError::BidderAccountMismatch)
    } else if bidder != bidder_user_pool.address {
        Some(MarketplaceError::BidderAccountMismatch)
    } else if creator != creator_user_pool.address {
        Some(MarketplaceError::CreatorAccountMismatch)
    } else if distribute_check(g, creators, payees) is Some {
        distribute_check(g, creators, payees)
    } else if !custody.in_vault {
        Some(MarketplaceError::NFTIsNotInEscrowATA)
    } else {
        None
    }
}

/// The recorded winner claims an ended auction. One-shot and terminal:
/// marks the auction claimed, credits both parties' traded volume by the
/// winning bid, hands the item to the bidder, and returns the settlement of
/// the winning bid to pay out of escrow: the creator's net first, then the
/// treasury cuts, then the royalty cuts.
pub fn claim_auction(
    g: &GlobalPool,
    auction: &mut AuctionData,
    bidder_user_pool: &mut UserData,
    creator_user_pool: &mut UserData,
    custody: &mut Custody,
    nft_mint: u64,
    creator: u64,
    bidder: u64,
    royalty_bps: u64,
    creators: &Option<Vec<Creator>>,
    payees: &Vec<u64>,
    now: i64,
) -> (r: Result<Vec<Payout>, MarketplaceError>)
    requires
        g.wf(),
        old(auction).wf(),
        old(auction).highest_bid <= MAX_GROSS,
        royalty_bps + g.market_fee_sol <= PERMYRIAD,
        old(bidder_user_pool).traded_volume + old(auction).highest_bid <= u64::MAX,
        old(creator_user_pool).traded_volume + old(auction).highest_bid <= u64::MAX,
    ensures
        final(auction).wf(),
        match r {
            Ok(payouts) => {
                &&& claim_auction_check(
                    *g,
                    *old(auction),
                    *old(bidder_user_pool),
                    *old(creator_user_pool),
                    *old(custody),
                    nft_mint,
                    creator,
                    bidder,
                    view_creators(*creators),
                    payees@,
                    now,
                ) is None
                &&& payouts@ == expected_payouts(
                    creator,
                    old(auction).highest_bid,
                    royalty_bps,
                    g.market_fee_sol,
                    g.team_treasury@,
                    g.treasury_rate@,
                    view_creators(*creators)->0,
                )
                &&& *final(auction) == (AuctionData {
                    status: AuctionStatus::Claimed,
                    ..*old(auction)
                })
                &&& *final(bidder_user_pool) == (UserData {
                    traded_volume: (old(bidder_user_pool).traded_volume
                        + old(auction).highest_bid) as u64,
                    ..*old(bidder_user_pool)
                })
                &&& *final(creator_user_pool) == (UserData {
                    traded_volume: (old(creator_user_pool).traded_volume
                        + old(auction).highest_bid) as u64,
                    ..*old(creator_user_pool)
                })
                &&& *final(custody) == (Custody { owner: bidder, in_vault: false })
            },
            Err(e) => {
                &&& claim_auction_check(
                    *g,
                    *old(auction),
                    *old(bidder_user_pool),
                    *old(creator_user_pool),
                    *old(custody),
                    nft_mint,
                    creator,
                    bidder,
                    view_creators(*creators),
                    payees@,
                    now,
                ) == Some(e)
                &&& *final(auction) == *old(auction)
                &&& *final(bidder_user_pool) == *old(bidder_user_pool)
                &&& *final(creator_user_pool) == *old(creator_user_pool)
                &&& *final(custody) == *old(custody)
            },
        },
{
    if nft_mint != auction.mint {
        return Err(MarketplaceError::InvalidNFTDataAcount);
    }
    if auction.get_end_date() > now {
        return Err(MarketplaceError::NotEndedAuction);
    }
    if !matches!(auction.status, AuctionStatus::Running) {
        return Err(MarketplaceError::NotListedNFT);
    }
    if creator != auction.creator {
        return Err(MarketplaceError::CreatorAccountMismatch);
    }
    let bidder_matches = match auction.last_bidder {
        Some(lb) => lb == bidder,
        None => false,
    };
    if !bidder_matches {
        return Err(MarketplaceError::BidderAccountMismatch);
    }
    if bidder != bidder_user_pool.address {
        return Err(MarketplaceError::BidderAccountMismatch);
    }
    if creator != creator_user_pool.address {
        return Err(MarketplaceError::CreatorAccountMismatch);
    }
    let payouts = match distribute(g, creator, auction.highest_bid, royalty_bps, creators, payees) {
        Ok(p) => p,
        Err(e) => {
            return Err(e);
        },
    };
    if !custody.in_vault {
        return Err(MarketplaceError::NFTIsNotInEscrowATA);
    }
    auction.status = AuctionStatus::Claimed;
    bidder_user_pool.traded_volume = bidder_user_pool.traded_volume + auction.highest_bid;
    creator_user_pool.traded_volume = creator_user_pool.traded_volume + auction.highest_bid;
    custody.owner = bidder;
    custody.in_vault = false;
    Ok(payouts)
}

} // verus!
