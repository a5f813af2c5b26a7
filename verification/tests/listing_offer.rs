use mugs_marketplace::account::{AuctionStatus, Creator, Custody, GlobalPool};
use mugs_marketplace::auction::{create_auction, init_auction_data};
use mugs_marketplace::error::MarketplaceError;
use mugs_marketplace::escrow::{deposit_to_escrow, init_user_pool};
use mugs_marketplace::listing::{
    delist_nft, init_sell_data, list_nft_for_sale, purchase, set_price, transfer_from_vault,
};
use mugs_marketplace::offer::{accept_offer, cancel_offer, init_offer_data, make_offer};
use mugs_marketplace::registry::{add_team_treasury, initialize, update_fee};
use mugs_marketplace::settle::Payout;

const ADMIN: u64 = 7;
const MINT: u64 = 11;
const SELLER: u64 = 1;
const BUYER: u64 = 2;
const TREASURY: u64 = 9;
const ROYALTY_DEST: u64 = 5;

fn pool_with_one_treasury() -> GlobalPool {
    let mut g = initialize(ADMIN);
    update_fee(&mut g, ADMIN, 250).unwrap();
    add_team_treasury(&mut g, ADMIN, TREASURY, 10_000).unwrap();
    g
}

fn one_creator() -> Option<Vec<Creator>> {
    Some(vec![Creator { address: ROYALTY_DEST, verified: true, share: 100 }])
}

#[test]
fn list_then_delist_restores_custody() {
    let mut sell = init_sell_data(MINT);
    let auction = init_auction_data(MINT);
    let mut custody = Custody { owner: SELLER, in_vault: false };
    let before = custody;
    assert_eq!(
        list_nft_for_sale(&mut sell, &auction, &mut custody, MINT, SELLER, 1_000, &one_creator(), 50),
        Ok(())
    );
    assert!(sell.active);
    assert_eq!(sell.seller, SELLER);
    assert_eq!(sell.price_sol, 1_000);
    assert_eq!(sell.listed_date, 50);
    assert_eq!(sell.collection, ROYALTY_DEST);
    assert!(custody.in_vault);
    assert_eq!(
        delist_nft(&mut sell, &auction, &mut custody, MINT, SELLER),
        Ok(())
    );
    assert!(!sell.active);
    assert_eq!(custody, before);
}

#[test]
fn list_needs_creator_metadata_and_custody() {
    let mut sell = init_sell_data(MINT);
    let auction = init_auction_data(MINT);
    let mut custody = Custody { owner: SELLER, in_vault: false };
    assert_eq!(
        list_nft_for_sale(&mut sell, &auction, &mut custody, MINT, SELLER, 1_000, &None, 50),
        Err(MarketplaceError::MetadataCreatorParseError)
    );
    assert_eq!(
        list_nft_for_sale(&mut sell, &auction, &mut custody, MINT, BUYER, 1_000, &one_creator(), 50),
        Err(MarketplaceError::NFTIsNotInUserATA)
    );
    assert_eq!(
        list_nft_for_sale(&mut sell, &auction, &mut custody, 12, SELLER, 1_000, &one_creator(), 50),
        Err(MarketplaceError::InvalidNFTDataAcount)
    );
    assert!(!sell.active);
}

#[test]
fn collection_is_the_first_verified_creator() {
    let mut sell = init_sell_data(MINT);
    let auction = init_auction_data(MINT);
    let mut custody = Custody { owner: SELLER, in_vault: false };
    let creators = Some(vec![
        Creator { address: 31, verified: false, share: 0 },
        Creator { address: 32, verified: true, share: 60 },
        Creator { address: 33, verified: true, share: 40 },
    ]);
    assert_eq!(
        list_nft_for_sale(&mut sell, &auction, &mut custody, MINT, SELLER, 1_000, &creators, 50),
        Ok(())
    );
    assert_eq!(sell.collection, 32);
}

#[test]
fn listing_is_barred_while_an_auction_runs() {
    let mut sell = init_sell_data(MINT);
    let mut auction = init_auction_data(MINT);
    let mut custody = Custody { owner: SELLER, in_vault: false };
    create_auction(&mut auction, &sell, &mut custody, MINT, SELLER, 500, 10, 3_600, false, 100)
        .unwrap();
    assert_eq!(auction.status, AuctionStatus::Running);
    assert_eq!(
        list_nft_for_sale(&mut sell, &auction, &mut custody, MINT, SELLER, 1_000, &one_creator(), 101),
        Err(MarketplaceError::ListingNotAvailable)
    );
}

#[test]
fn reserved_auction_lets_only_its_creator_list() {
    let mut sell = init_sell_data(MINT);
    let mut auction = init_auction_data(MINT);
    let mut custody = Custody { owner: SELLER, in_vault: false };
    create_auction(&mut auction, &sell, &mut custody, MINT, SELLER, 500, 10, 3_600, true, 100)
        .unwrap();
    assert_eq!(auction.status, AuctionStatus::Reserved);
    assert!(custody.in_vault);
    assert_eq!(
        list_nft_for_sale(&mut sell, &auction, &mut custody, MINT, BUYER, 1_000, &one_creator(), 101),
        Err(MarketplaceError::CreatorAccountMismatch)
    );
    assert_eq!(
        list_nft_for_sale(&mut sell, &auction, &mut custody, MINT, SELLER, 1_000, &one_creator(), 101),
        Ok(())
    );
}

#[test]
fn set_price_replaces_only_the_price() {
    let mut sell = init_sell_data(MINT);
    let auction = init_auction_data(MINT);
    let mut custody = Custody { owner: SELLER, in_vault: false };
    list_nft_for_sale(&mut sell, &auction, &mut custody, MINT, SELLER, 1_000, &one_creator(), 50)
        .unwrap();
    assert_eq!(
        set_price(&mut sell, MINT, BUYER, 2_000),
        Err(MarketplaceError::SellerMismatch)
    );
    assert_eq!(set_price(&mut sell, MINT, SELLER, 2_000), Ok(()));
    assert_eq!(sell.price_sol, 2_000);
    assert_eq!(sell.listed_date, 50);
    assert!(sell.active);
}

#[test]
fn transfer_from_vault_delists_and_cancels_reservation() {
    let mut sell = init_sell_data(MINT);
    let mut auction = init_auction_data(MINT);
    let mut custody = Custody { owner: SELLER, in_vault: false };
    create_auction(&mut auction, &sell, &mut custody, MINT, SELLER, 500, 10, 3_600, true, 100)
        .unwrap();
    list_nft_for_sale(&mut sell, &auction, &mut custody, MINT, SELLER, 1_000, &one_creator(), 101)
        .unwrap();
    assert_eq!(
        transfer_from_vault(&mut sell, &mut auction, &mut custody, MINT, SELLER),
        Ok(())
    );
    assert!(!sell.active);
    assert_eq!(auction.status, AuctionStatus::Cancelled);
    assert_eq!(custody, Custody { owner: SELLER, in_vault: false });
}

#[test]
fn purchase_splits_the_price_exactly() {
    // Fee 250 (2.5%), one treasury at the whole fee, royalty 500 bps, one
    // creator with the whole share: an item sold at 1,000,000 nets the
    // seller 925,000, the treasury 25,000 and the creator 50,000.
    let g = pool_with_one_treasury();
    let mut sell = init_sell_data(MINT);
    let mut auction = init_auction_data(MINT);
    let mut custody = Custody { owner: SELLER, in_vault: false };
    let mut seller_pool = init_user_pool(SELLER);
    let mut buyer_pool = init_user_pool(BUYER);
    list_nft_for_sale(&mut sell, &auction, &mut custody, MINT, SELLER, 1_000_000, &one_creator(), 50)
        .unwrap();
    let payouts = purchase(
        &g,
        &mut sell,
        &mut auction,
        &mut buyer_pool,
        &mut seller_pool,
        &mut custody,
        MINT,
        BUYER,
        SELLER,
        500,
        &one_creator(),
        &vec![TREASURY, ROYALTY_DEST],
    )
    .unwrap();
    assert_eq!(
        payouts,
        vec![
            Payout { to: SELLER, amount: 925_000 },
            Payout { to: TREASURY, amount: 25_000 },
            Payout { to: ROYALTY_DEST, amount: 50_000 },
        ]
    );
    assert!(!sell.active);
    assert_eq!(buyer_pool.traded_volume, 1_000_000);
    assert_eq!(seller_pool.traded_volume, 1_000_000);
    assert_eq!(custody, Custody { owner: BUYER, in_vault: false });
}

#[test]
fn purchase_rejects_a_mismatched_payee_list() {
    let g = pool_with_one_treasury();
    let mut sell = init_sell_data(MINT);
    let mut auction = init_auction_data(MINT);
    let mut custody = Custody { owner: SELLER, in_vault: false };
    let mut seller_pool = init_user_pool(SELLER);
    let mut buyer_pool = init_user_pool(BUYER);
    list_nft_for_sale(&mut sell, &auction, &mut custody, MINT, SELLER, 1_000_000, &one_creator(), 50)
        .unwrap();
    // Wrong treasury in first position.
    assert_eq!(
        purchase(
            &g,
            &mut sell,
            &mut auction,
            &mut buyer_pool,
            &mut seller_pool,
            &mut custody,
            MINT,
            BUYER,
            SELLER,
            500,
            &one_creator(),
            &vec![ROYALTY_DEST, TREASURY],
        ),
        Err(MarketplaceError::TeamTreasuryAddressMismatch)
    );
    // Wrong length.
    assert_eq!(
        purchase(
            &g,
            &mut sell,
            &mut auction,
            &mut buyer_pool,
            &mut seller_pool,
            &mut custody,
            MINT,
            BUYER,
            SELLER,
            500,
            &one_creator(),
            &vec![TREASURY],
        ),
        Err(MarketplaceError::TeamTreasuryCountMismatch)
    );
    // Nothing moved.
    assert!(sell.active);
    assert_eq!(buyer_pool.traded_volume, 0);
    assert!(custody.in_vault);
}

#[test]
fn purchase_dust_stays_under_one_unit_per_payee() {
    // Three treasuries and two creators at full rates; an awkward gross
    // leaves dust, but less than one unit per treasury and per creator.
    let mut g = initialize(ADMIN);
    update_fee(&mut g, ADMIN, 250).unwrap();
    add_team_treasury(&mut g, ADMIN, 100, 3_333).unwrap();
    add_team_treasury(&mut g, ADMIN, 101, 3_333).unwrap();
    add_team_treasury(&mut g, ADMIN, 102, 3_334).unwrap();
    let creators = Some(vec![
        Creator { address: 31, verified: true, share: 50 },
        Creator { address: 32, verified: false, share: 50 },
    ]);
    let mut sell = init_sell_data(MINT);
    let mut auction = init_auction_data(MINT);
    let mut custody = Custody { owner: SELLER, in_vault: false };
    let mut seller_pool = init_user_pool(SELLER);
    let mut buyer_pool = init_user_pool(BUYER);
    let gross: u64 = 999_983;
    list_nft_for_sale(&mut sell, &auction, &mut custody, MINT, SELLER, gross, &creators, 50)
        .unwrap();
    let payouts = purchase(
        &g,
        &mut sell,
        &mut auction,
        &mut buyer_pool,
        &mut seller_pool,
        &mut custody,
        MINT,
        BUYER,
        SELLER,
        500,
        &creators,
        &vec![100, 101, 102, 31, 32],
    )
    .unwrap();
    let paid: u64 = payouts.iter().map(|p| p.amount).sum();
    let dust = gross - paid;
    assert!(dust < 3 + 2);
    // royalty pool 49999, fee pool 24999; each treasury cut floors.
    assert_eq!(payouts[0], Payout { to: SELLER, amount: gross - 49_999 - 24_999 });
    assert_eq!(payouts[1].amount, 24_999 * 3_333 / 10_000);
    assert_eq!(payouts[4], Payout { to: 31, amount: 49_999 * 50 / 100 });
}

#[test]
fn purchase_checks_roles_and_custody() {
    let g = pool_with_one_treasury();
    let mut sell = init_sell_data(MINT);
    let mut auction = init_auction_data(MINT);
    let mut custody = Custody { owner: SELLER, in_vault: false };
    let mut seller_pool = init_user_pool(SELLER);
    let mut buyer_pool = init_user_pool(BUYER);
    list_nft_for_sale(&mut sell, &auction, &mut custody, MINT, SELLER, 1_000_000, &one_creator(), 50)
        .unwrap();
    // A caller who is not the recorded seller cannot sell.
    assert_eq!(
        purchase(
            &g,
            &mut sell,
            &mut auction,
            &mut buyer_pool,
            &mut seller_pool,
            &mut custody,
            MINT,
            BUYER,
            BUYER,
            500,
            &one_creator(),
            &vec![TREASURY, ROYALTY_DEST],
        ),
        Err(MarketplaceError::SellerAccountMismatch)
    );
    // An item that left the vault behind the engine's back cannot settle.
    custody.in_vault = false;
    assert_eq!(
        purchase(
            &g,
            &mut sell,
            &mut auction,
            &mut buyer_pool,
            &mut seller_pool,
            &mut custody,
            MINT,
            BUYER,
            SELLER,
            500,
            &one_creator(),
            &vec![TREASURY, ROYALTY_DEST],
        ),
        Err(MarketplaceError::NFTIsNotInEscrowATA)
    );
    assert!(sell.active);
}

#[test]
fn offers_need_a_listed_item_and_matching_records() {
    let mut sell = init_sell_data(MINT);
    let mut buyer_pool = init_user_pool(BUYER);
    deposit_to_escrow(&mut buyer_pool, BUYER, 10_000).unwrap();
    // The offer record of another item is refused.
    let mut wrong_offer = init_offer_data(12, BUYER);
    assert_eq!(
        make_offer(&sell, &mut wrong_offer, &mut buyer_pool, MINT, BUYER, 500),
        Err(MarketplaceError::InvalidOfferDataMint)
    );
    // No offers on an unlisted item.
    let mut offer = init_offer_data(MINT, BUYER);
    assert_eq!(
        make_offer(&sell, &mut offer, &mut buyer_pool, MINT, BUYER, 500),
        Err(MarketplaceError::OfferForNotListedNFT)
    );
    // Only the recorded buyer may use the record.
    let auction = init_auction_data(MINT);
    let mut custody = Custody { owner: SELLER, in_vault: false };
    list_nft_for_sale(&mut sell, &auction, &mut custody, MINT, SELLER, 1_000, &one_creator(), 50)
        .unwrap();
    assert_eq!(
        make_offer(&sell, &mut offer, &mut buyer_pool, MINT, SELLER, 500),
        Err(MarketplaceError::InvalidOfferDataBuyer)
    );
    assert_eq!(buyer_pool.escrow_sol_balance, 10_000);
}

#[test]
fn offer_price_band_is_enforced() {
    let mut sell = init_sell_data(MINT);
    let auction = init_auction_data(MINT);
    let mut custody = Custody { owner: SELLER, in_vault: false };
    let mut offer = init_offer_data(MINT, BUYER);
    let mut buyer_pool = init_user_pool(BUYER);
    deposit_to_escrow(&mut buyer_pool, BUYER, 10_000).unwrap();
    list_nft_for_sale(&mut sell, &auction, &mut custody, MINT, SELLER, 1_000, &one_creator(), 50)
        .unwrap();
    assert_eq!(
        make_offer(&sell, &mut offer, &mut buyer_pool, MINT, BUYER, 1_000),
        Err(MarketplaceError::InvalidOfferPrice)
    );
    assert_eq!(
        make_offer(&sell, &mut offer, &mut buyer_pool, MINT, BUYER, 499),
        Err(MarketplaceError::InvalidOfferPrice)
    );
    assert_eq!(
        make_offer(&sell, &mut offer, &mut buyer_pool, MINT, BUYER, 500),
        Ok(())
    );
    assert!(offer.active);
    assert_eq!(offer.offer_price, 500);
    assert_eq!(offer.offer_listing_date, 50);
    assert_eq!(buyer_pool.escrow_sol_balance, 9_500);
    // A second offer while one is active is refused.
    assert_eq!(
        make_offer(&sell, &mut offer, &mut buyer_pool, MINT, BUYER, 600),
        Err(MarketplaceError::DisabledOffer)
    );
}

#[test]
fn make_offer_needs_escrowed_funds() {
    let mut sell = init_sell_data(MINT);
    let auction = init_auction_data(MINT);
    let mut custody = Custody { owner: SELLER, in_vault: false };
    let mut offer = init_offer_data(MINT, BUYER);
    let mut buyer_pool = init_user_pool(BUYER);
    deposit_to_escrow(&mut buyer_pool, BUYER, 400).unwrap();
    list_nft_for_sale(&mut sell, &auction, &mut custody, MINT, SELLER, 1_000, &one_creator(), 50)
        .unwrap();
    assert_eq!(
        make_offer(&sell, &mut offer, &mut buyer_pool, MINT, BUYER, 500),
        Err(MarketplaceError::InsufficientBuyerSolBalance)
    );
    assert!(!offer.active);
    assert_eq!(buyer_pool.escrow_sol_balance, 400);
}

#[test]
fn cancel_offer_refunds_exactly_the_locked_price() {
    let mut sell = init_sell_data(MINT);
    let auction = init_auction_data(MINT);
    let mut custody = Custody { owner: SELLER, in_vault: false };
    let mut offer = init_offer_data(MINT, BUYER);
    let mut buyer_pool = init_user_pool(BUYER);
    deposit_to_escrow(&mut buyer_pool, BUYER, 1_000).unwrap();
    list_nft_for_sale(&mut sell, &auction, &mut custody, MINT, SELLER, 1_000, &one_creator(), 50)
        .unwrap();
    make_offer(&sell, &mut offer, &mut buyer_pool, MINT, BUYER, 600).unwrap();
    assert_eq!(buyer_pool.escrow_sol_balance, 400);
    assert_eq!(
        cancel_offer(&mut offer, &mut buyer_pool, MINT, SELLER),
        Err(MarketplaceError::InvalidOfferDataBuyer)
    );
    assert_eq!(cancel_offer(&mut offer, &mut buyer_pool, MINT, BUYER), Ok(()));
    assert!(!offer.active);
    assert_eq!(buyer_pool.escrow_sol_balance, 1_000);
    assert_eq!(
        cancel_offer(&mut offer, &mut buyer_pool, MINT, BUYER),
        Err(MarketplaceError::DisabledOffer)
    );
}

#[test]
fn accept_offer_settles_at_the_offer_price() {
    let g = pool_with_one_treasury();
    let mut sell = init_sell_data(MINT);
    let mut auction = init_auction_data(MINT);
    let mut custody = Custody { owner: SELLER, in_vault: false };
    let mut offer = init_offer_data(MINT, BUYER);
    let mut seller_pool = init_user_pool(SELLER);
    let mut buyer_pool = init_user_pool(BUYER);
    deposit_to_escrow(&mut buyer_pool, BUYER, 2_000_000).unwrap();
    list_nft_for_sale(&mut sell, &auction, &mut custody, MINT, SELLER, 1_500_000, &one_creator(), 50)
        .unwrap();
    make_offer(&sell, &mut offer, &mut buyer_pool, MINT, BUYER, 1_000_000).unwrap();
    let payouts = accept_offer(
        &g,
        &mut sell,
        &mut auction,
        &mut offer,
        &mut buyer_pool,
        &mut seller_pool,
        &mut custody,
        MINT,
        SELLER,
        BUYER,
        500,
        &one_creator(),
        &vec![TREASURY, ROYALTY_DEST],
    )
    .unwrap();
    assert_eq!(
        payouts,
        vec![
            Payout { to: SELLER, amount: 925_000 },
            Payout { to: TREASURY, amount: 25_000 },
            Payout { to: ROYALTY_DEST, amount: 50_000 },
        ]
    );
    assert!(!sell.active);
    assert!(!offer.active);
    assert_eq!(buyer_pool.traded_volume, 1_000_000);
    assert_eq!(seller_pool.traded_volume, 1_000_000);
    assert_eq!(custody, Custody { owner: BUYER, in_vault: false });
}

#[test]
fn accept_offer_rejects_a_stale_listing_epoch() {
    let g = pool_with_one_treasury();
    let mut sell = init_sell_data(MINT);
    let mut auction = init_auction_data(MINT);
    let mut custody = Custody { owner: SELLER, in_vault: false };
    let mut offer = init_offer_data(MINT, BUYER);
    let mut seller_pool = init_user_pool(SELLER);
    let mut buyer_pool = init_user_pool(BUYER);
    deposit_to_escrow(&mut buyer_pool, BUYER, 2_000_000).unwrap();
    list_nft_for_sale(&mut sell, &auction, &mut custody, MINT, SELLER, 1_500_000, &one_creator(), 50)
        .unwrap();
    make_offer(&sell, &mut offer, &mut buyer_pool, MINT, BUYER, 1_000_000).unwrap();
    // Relisting moves the epoch; the standing offer goes stale.
    delist_nft(&mut sell, &auction, &mut custody, MINT, SELLER).unwrap();
    list_nft_for_sale(&mut sell, &auction, &mut custody, MINT, SELLER, 1_500_000, &one_creator(), 60)
        .unwrap();
    assert_eq!(
        accept_offer(
            &g,
            &mut sell,
            &mut auction,
            &mut offer,
            &mut buyer_pool,
            &mut seller_pool,
            &mut custody,
            MINT,
            SELLER,
            BUYER,
            500,
            &one_creator(),
            &vec![TREASURY, ROYALTY_DEST],
        ),
        Err(MarketplaceError::OfferForExpiredListingNFT)
    );
    assert!(sell.active);
    assert!(offer.active);
    assert_eq!(buyer_pool.traded_volume, 0);
}

#[test]
fn accept_offer_twice_fails_on_the_spent_offer() {
    let g = pool_with_one_treasury();
    let mut sell = init_sell_data(MINT);
    let mut auction = init_auction_data(MINT);
    let mut custody = Custody { owner: SELLER, in_vault: false };
    let mut offer = init_offer_data(MINT, BUYER);
    let mut seller_pool = init_user_pool(SELLER);
    let mut buyer_pool = init_user_pool(BUYER);
    deposit_to_escrow(&mut buyer_pool, BUYER, 2_000_000).unwrap();
    list_nft_for_sale(&mut sell, &auction, &mut custody, MINT, SELLER, 1_500_000, &one_creator(), 50)
        .unwrap();
    make_offer(&sell, &mut offer, &mut buyer_pool, MINT, BUYER, 1_000_000).unwrap();
    accept_offer(
        &g,
        &mut sell,
        &mut auction,
        &mut offer,
        &mut buyer_pool,
        &mut seller_pool,
        &mut custody,
        MINT,
        SELLER,
        BUYER,
        500,
        &one_creator(),
        &vec![TREASURY, ROYALTY_DEST],
    )
    .unwrap();
    // The item is no longer listed, so the second call fails there.
    assert_eq!(
        accept_offer(
            &g,
            &mut sell,
            &mut auction,
            &mut offer,
            &mut buyer_pool,
            &mut seller_pool,
            &mut custody,
            MINT,
            SELLER,
            BUYER,
            500,
            &one_creator(),
            &vec![TREASURY, ROYALTY_DEST],
        ),
        Err(MarketplaceError::NotListedNFT)
    );
    // Relisting does not revive the spent offer: it is inactive.
    custody = Custody { owner: BUYER, in_vault: false };
    list_nft_for_sale(&mut sell, &auction, &mut custody, MINT, BUYER, 1_500_000, &one_creator(), 70)
        .unwrap();
    let mut second_seller_pool = init_user_pool(BUYER);
    assert_eq!(
        accept_offer(
            &g,
            &mut sell,
            &mut auction,
            &mut offer,
            &mut buyer_pool,
            &mut second_seller_pool,
            &mut custody,
            MINT,
            BUYER,
            BUYER,
            500,
            &one_creator(),
            &vec![TREASURY, ROYALTY_DEST],
        ),
        Err(MarketplaceError::DisabledOffer)
    );
}
