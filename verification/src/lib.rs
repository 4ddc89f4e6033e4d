//! A verified escrow marketplace for unique assets on a ledger runtime.
//!
//! A seller places one unit of an asset into custody at a fixed price; a buyer pays the
//! price and receives the asset, and the operator of the marketplace takes a fee; the
//! seller may change the price or withdraw the asset while it is unsold.
//!
//! The library decides and computes; it moves nothing. Each operation in [`operations`]
//! takes the accounts that the runtime has located ([`accounts`]), checks them against the
//! records ([`state`]), and returns the records to persist and the requests for the ledger
//! ([`transfer`]). The fee is split in [`fee`], addresses are derived in [`address`], and
//! [`laws`] states what holds of the operations taken together.

pub mod accounts;
pub mod address;
pub mod error;
pub mod fee;
pub mod laws;
pub mod operations;
pub mod pubkey;
pub mod state;
pub mod transfer;

pub use crate::accounts::{
    BuyNft, CancelListing, InitializeMarketplace, ListNft, UpdateListingPrice, UpdateMarketplace,
};
pub use crate::error::ErrorCode;
pub use crate::operations::{
    buy_nft, cancel_listing, initialize_marketplace, list_nft, update_fee, update_listing_price,
};
pub use crate::pubkey::Pubkey;
pub use crate::state::{Listing, Marketplace, TokenAccount};
