//! The persisted records: the registry of one operator and the listing of one asset.

use vstd::prelude::*;
use crate::pubkey::Pubkey;

verus! {

/// The highest fee rate a registry may carry, in basis points: ten percent.
pub const MAX_FEE_BASIS_POINTS: u16 = 1000;

/// The registry of one marketplace operator.
#[derive(Clone, Copy, Debug, PartialEq, Eq)]
pub struct Marketplace {
    /// The operator: may change the fee rate and receives the fee of each sale.
    pub admin: Pubkey,
    /// The fee rate in basis points.
    pub fee_percentage: u16,
    /// How many listings are active.
    pub total_listings: u64,
    /// The seed byte with which the registry's own address is re-derived.
    pub bump: u8,
}

impl Marketplace {
    /// A registry never carries a fee rate above the cap.
    pub open spec fn well_formed(self) -> bool {
        self.fee_percentage <= MAX_FEE_BASIS_POINTS
    }
}

/// The sale terms of one asset.
#[derive(Clone, Copy, Debug, PartialEq, Eq)]
pub struct Listing {
    /// The owner of the asset when it was listed.
    pub seller: Pubkey,
    /// The asset on sale.
    pub nft_mint: Pubkey,
    /// The price.
    pub price: u64,
    /// The seed byte with which the listing's own address is re-derived.
    pub bump: u8,
    /// Whether the asset can still be bought. Once false it stays false.
    pub is_active: bool,
}

impl Listing {
    /// A listing never carries a price of zero.
    pub open spec fn well_formed(self) -> bool {
        self.price > 0
    }
}

/// What the ledger reports of one holding: where it is, of which asset, whose, and how much.
#[derive(Clone, Copy, Debug, PartialEq, Eq)]
pub struct TokenAccount {
    /// The address of the holding.
    pub key: Pubkey,
    /// The asset held.
    pub mint: Pubkey,
    /// The owner of the holding.
    pub owner: Pubkey,
    /// The number of units held.
    pub amount: u64,
}

impl TokenAccount {
    /// The units of `asset` in this holding: none where it holds another asset.
    pub open spec fn units_of(self, asset: Pubkey) -> nat {
        if self.mint == asset {
            self.amount as nat
        } else {
            0
        }
    }

    /// Whether this holding is exactly one unit of `asset`.
    pub fn holds_one_unit_of(&self, asset: &Pubkey) -> (r: bool)
        ensures
            r == (self.units_of(*asset) == 1),
    {
        self.mint == *asset && self.amount == 1
    }
}

} // verus!
