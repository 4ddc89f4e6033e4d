//! What the ledger runtime hands to each operation: the records it has located, the
//! identities of the parties, and the addresses of the holdings involved.
//!
//! A party named as a signer has had its authorization verified by the runtime before the
//! operation runs.

use vstd::prelude::*;
use crate::pubkey::Pubkey;
use crate::state::{Listing, Marketplace, TokenAccount};

verus! {

/// The accounts of `initialize_marketplace`.
#[derive(Clone, Copy, Debug, PartialEq, Eq)]
pub struct InitializeMarketplace {
    /// The operator of the new registry, a signer.
    pub admin: Pubkey,
    /// The seed byte found for the registry's address.
    pub marketplace_bump: u8,
}

/// The accounts of `update_fee`.
#[derive(Clone, Copy, Debug, PartialEq, Eq)]
pub struct UpdateMarketplace {
    /// The registry.
    pub marketplace: Marketplace,
    /// The caller, a signer.
    pub admin: Pubkey,
}

/// The accounts of `list_nft`.
#[derive(Clone, Copy, Debug, PartialEq, Eq)]
pub struct ListNft {
    /// The registry.
    pub marketplace: Marketplace,
    /// The address of the custody holding that the runtime creates for the asset.
    pub escrow_token_account: Pubkey,
    /// The seller, a signer.
    pub seller: Pubkey,
    /// The holding from which the seller offers the asset.
    pub seller_token_account: TokenAccount,
    /// The asset.
    pub nft_mint: Pubkey,
    /// The seed byte found for the listing's address.
    pub listing_bump: u8,
}

/// The accounts of `update_listing_price`.
#[derive(Clone, Copy, Debug, PartialEq, Eq)]
pub struct UpdateListingPrice {
    /// The listing of the asset.
    pub listing: Listing,
    /// The caller, a signer.
    pub seller: Pubkey,
}

/// The accounts of `buy_nft`.
#[derive(Clone, Copy, Debug, PartialEq, Eq)]
pub struct BuyNft {
    /// The registry.
    pub marketplace: Marketplace,
    /// The listing of the asset.
    pub listing: Listing,
    /// The address of the custody holding of the asset.
    pub escrow_token_account: Pubkey,
    /// The buyer, a signer.
    pub buyer: Pubkey,
    /// The wallet that the buyer declares as the seller.
    pub seller: Pubkey,
    /// The wallet that the buyer declares as the fee recipient.
    pub admin: Pubkey,
    /// The address of the buyer's holding of the asset.
    pub buyer_token_account: Pubkey,
}

/// The accounts of `cancel_listing`.
#[derive(Clone, Copy, Debug, PartialEq, Eq)]
pub struct CancelListing {
    /// The registry.
    pub marketplace: Marketplace,
    /// The listing of the asset.
    pub listing: Listing,
    /// The address of the custody holding of the asset.
    pub escrow_token_account: Pubkey,
    /// The caller, a signer.
    pub seller: Pubkey,
    /// The address of the seller's holding of the asset.
    pub seller_token_account: Pubkey,
}

} // verus!
