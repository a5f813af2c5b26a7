//! A verified settlement engine for a marketplace that trades unique items.
//!
//! The library keeps the books for listings, negotiated offers and English /
//! reserved auctions over unique items, and splits the proceeds of every sale
//! among the seller, a bounded table of platform treasuries and the item's
//! royalty recipients. All parties are identified by plain numeric ids; the
//! services that move the actual funds and the items themselves (a payment
//! rail, an item-custody service, a metadata registry and a clock) live
//! outside the library and consume the decisions it returns.

pub mod account;
pub mod auction;
pub mod constants;
pub mod error;
pub mod escrow;
pub mod listing;
pub mod offer;
pub mod registry;
pub mod settle;
