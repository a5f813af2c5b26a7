use vstd::prelude::*;

verus! {

/// Every way an operation of the marketplace can be rejected. A failed call
/// returns one of these and leaves every record unchanged.
#[derive(Clone, Copy, Debug, PartialEq, Eq, Structural)]
pub enum MarketplaceError {
    InvalidSuperOwner,
    InvalidOwner,
    InvalidGlobalPool,
    InvalidFeePercent,
    MaxTeamCountExceed,
    NoTeamTreasuryYet,
    TreasuryAddressNotFound,
    TreasuryAddressAlreadyAdded,
    MaxTreasuryRateSumExceed,
    TeamTreasuryCountMismatch,
    TeamTreasuryAddressMismatch,
    Uninitialized,
    InvalidParamInput,
    SellerMismatch,
    InvalidNFTDataAcount,
    NotListedNFT,
    SellerAccountMismatch,
    InsufficientBuyerSolBalance,
    InsufficientBuyerTokenBalance,
    InvaliedMetadata,
    MetadataCreatorParseError,
    InvalidOfferDataMint,
    InvalidOfferDataBuyer,
    OfferForNotListedNFT,
    InvalidOfferPrice,
    DisabledOffer,
    OfferForExpiredListingNFT,
    EndedAuction,
    InvalidBidPrice,
    DoubleBidFromOneBidder,
    OutBidderMismatch,
    NotEndedAuction,
    CreatorAccountMismatch,
    BidderAccountMismatch,
    AuctionHasBid,
    BidFromAuctionCreator,
    ListingNotAvailable,
    NFTIsNotInUserATA,
    NFTIsNotInEscrowATA,
}

impl MarketplaceError {
    /// The stable numeric discriminant of each error, counted from 6000 in
    /// declaration order.
    pub open spec fn spec_code(self) -> u32 {
        match self {
            MarketplaceError::InvalidSuperOwner => 6000,
            MarketplaceError::InvalidOwner => 6001,
            MarketplaceError::InvalidGlobalPool => 6002,
            MarketplaceError::InvalidFeePercent => 6003,
            MarketplaceError::MaxTeamCountExceed => 6004,
            MarketplaceError::NoTeamTreasuryYet => 6005,
            MarketplaceError::TreasuryAddressNotFound => 6006,
            MarketplaceError::TreasuryAddressAlreadyAdded => 6007,
            MarketplaceError::MaxTreasuryRateSumExceed => 6008,
            MarketplaceError::TeamTreasuryCountMismatch => 6009,
            MarketplaceError::TeamTreasuryAddressMismatch => 6010,
            MarketplaceError::Uninitialized => 6011,
            MarketplaceError::InvalidParamInput => 6012,
            MarketplaceError::SellerMismatch => 6013,
            MarketplaceError::InvalidNFTDataAcount => 6014,
            MarketplaceError::NotListedNFT => 6015,
            MarketplaceError::SellerAccountMismatch => 6016,
            MarketplaceError::InsufficientBuyerSolBalance => 6017,
            MarketplaceError::InsufficientBuyerTokenBalance => 6018,
            MarketplaceError::InvaliedMetadata => 6019,
            MarketplaceError::MetadataCreatorParseError => 6020,
            MarketplaceError::InvalidOfferDataMint => 6021,
            MarketplaceError::InvalidOfferDataBuyer => 6022,
            MarketplaceError::OfferForNotListedNFT => 6023,
            MarketplaceError::InvalidOfferPrice => 6024,
            MarketplaceError::DisabledOffer => 6025,
            MarketplaceError::OfferForExpiredListingNFT => 6026,
            MarketplaceError::EndedAuction => 6027,
            MarketplaceError::InvalidBidPrice => 6028,
            MarketplaceError::DoubleBidFromOneBidder => 6029,
            MarketplaceError::OutBidderMismatch => 6030,
            MarketplaceError::NotEndedAuction => 6031,
            MarketplaceError::CreatorAccountMismatch => 6032,
            MarketplaceError::BidderAccountMismatch => 6033,
            MarketplaceError::AuctionHasBid => 6034,
            MarketplaceError::BidFromAuctionCreator => 6035,
            MarketplaceError::ListingNotAvailable => 6036,
            MarketplaceError::NFTIsNotInUserATA => 6037,
            MarketplaceError::NFTIsNotInEscrowATA => 6038,
        }
    }

    /// The stable numeric discriminant of this error.
    pub fn code(&self) -> (r: u32)
        ensures
            r == self.spec_code(),
    {
        match self {
            MarketplaceError::InvalidSuperOwner => 6000,
            MarketplaceError::InvalidOwner => 6001,
            MarketplaceError::InvalidGlobalPool => 6002,
            MarketplaceError::InvalidFeePercent => 6003,
            MarketplaceError::MaxTeamCountExceed => 6004,
            MarketplaceError::NoTeamTreasuryYet => 6005,
            MarketplaceError::TreasuryAddressNotFound => 6006,
            MarketplaceError::TreasuryAddressAlreadyAdded => 6007,
            MarketplaceError::MaxTreasuryRateSumExceed => 6008,
            MarketplaceError::TeamTreasuryCountMismatch => 6009,
            MarketplaceError::TeamTreasuryAddressMismatch => 6010,
            MarketplaceError::Uninitialized => 6011,
            MarketplaceError::InvalidParamInput => 6012,
            MarketplaceError::SellerMismatch => 6013,
            MarketplaceError::InvalidNFTDataAcount => 6014,
            MarketplaceError::NotListedNFT => 6015,
            MarketplaceError::SellerAccountMismatch => 6016,
            MarketplaceError::InsufficientBuyerSolBalance => 6017,
            MarketplaceError::InsufficientBuyerTokenBalance => 6018,
            MarketplaceError::InvaliedMetadata => 6019,
            MarketplaceError::MetadataCreatorParseError => 6020,
            MarketplaceError::InvalidOfferDataMint => 6021,
            MarketplaceError::InvalidOfferDataBuyer => 6022,
            MarketplaceError::OfferForNotListedNFT => 6023,
            MarketplaceError::InvalidOfferPrice => 6024,
            MarketplaceError::DisabledOffer => 6025,
            MarketplaceError::OfferForExpiredListingNFT => 6026,
            MarketplaceError::EndedAuction => 6027,
            MarketplaceError::InvalidBidPrice => 6028,
            MarketplaceError::DoubleBidFromOneBidder => 6029,
            MarketplaceError::OutBidderMismatch => 6030,
            MarketplaceError::NotEndedAuction => 6031,
            MarketplaceError::CreatorAccountMismatch => 6032,
            MarketplaceError::BidderAccountMismatch => 6033,
            MarketplaceError::AuctionHasBid => 6034,
            MarketplaceError::BidFromAuctionCreator => 6035,
            MarketplaceError::ListingNotAvailable => 6036,
            MarketplaceError::NFTIsNotInUserATA => 6037,
            MarketplaceError::NFTIsNotInEscrowATA => 6038,
        }
    }
}

} // verus!
