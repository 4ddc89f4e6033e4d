//! The operations of the marketplace.
//!
//! Each operation is a function from what the ledger runtime hands in to the records as
//! they are to be persisted and the requests that the runtime is to carry out. An operation
//! that is refused returns the reason and nothing else, so nothing of it can be persisted.

use vstd::prelude::*;
use crate::accounts::{
    BuyNft, CancelListing, InitializeMarketplace, ListNft, UpdateListingPrice, UpdateMarketplace,
};
use crate::error::ErrorCode;
use crate::fee::{fee_of, split_of, split_payment};
use crate::pubkey::Pubkey;
use crate::state::{Listing, Marketplace, MAX_FEE_BASIS_POINTS};
use crate::transfer::{
    AssetTransfer, Authority, CustodyOpening, CustodyRelease, Holding, Payment,
};

verus! {

/// What a listing brings about.
#[derive(Clone, Copy, Debug, PartialEq, Eq)]
pub struct Listed {
    /// The registry, counting one more active listing.
    pub marketplace: Marketplace,
    /// The new listing, active.
    pub listing: Listing,
    /// The creation of the custody holding.
    pub custody: CustodyOpening,
    /// The movement of the asset from the seller's holding into custody.
    pub deposit: AssetTransfer,
}

/// What a sale brings about, in the order in which the ledger is to carry it out.
#[derive(Clone, Copy, Debug, PartialEq, Eq)]
pub struct Purchase {
    /// The payment of the seller's share by the buyer.
    pub seller_payment: Payment,
    /// The payment of the fee by the buyer; none where the fee is zero.
    pub fee_payment: Option<Payment>,
    /// The movement of the asset from custody to the buyer's holding.
    pub delivery: AssetTransfer,
    /// The release of the emptied custody holding, which refunds the seller.
    pub release: CustodyRelease,
    /// The listing, no longer active.
    pub listing: Listing,
    /// The registry, counting one active listing less.
    pub marketplace: Marketplace,
}

/// What a cancellation brings about, in the order in which the ledger is to carry it out.
#[derive(Clone, Copy, Debug, PartialEq, Eq)]
pub struct Cancellation {
    /// The movement of the asset from custody back to the seller's holding.
    pub refund: AssetTransfer,
    /// The release of the emptied custody holding, which refunds the seller.
    pub release: CustodyRelease,
    /// The listing, no longer active.
    pub listing: Listing,
    /// The registry, counting one active listing less.
    pub marketplace: Marketplace,
}

impl Listed {
    /// Whether the ledger can carry out what the listing asks, on `holdings`, the holdings
    /// of the asset that exist.
    pub open spec fn admissible(self, holdings: Map<Pubkey, Holding>) -> bool {
        &&& self.custody.admissible(holdings)
        &&& self.deposit.admissible(self.custody.apply(holdings))
    }

    /// The holdings after the ledger has carried out what the listing asks.
    pub open spec fn apply(self, holdings: Map<Pubkey, Holding>) -> Map<Pubkey, Holding> {
        self.deposit.apply(self.custody.apply(holdings))
    }
}

impl Purchase {
    /// What the buyer pays in all.
    pub open spec fn total_paid(self) -> int {
        self.seller_payment.amount + match self.fee_payment {
            Some(payment) => payment.amount as int,
            None => 0,
        }
    }

    /// Whether the ledger can carry out what the sale asks of the asset, on `holdings`, the
    /// holdings of the asset that exist.
    pub open spec fn admissible(self, holdings: Map<Pubkey, Holding>) -> bool {
        &&& self.delivery.admissible(holdings)
        &&& self.release.admissible(self.delivery.apply(holdings))
    }

    /// The holdings after the ledger has carried out what the sale asks of the asset.
    pub open spec fn apply(self, holdings: Map<Pubkey, Holding>) -> Map<Pubkey, Holding> {
        self.release.apply(self.delivery.apply(holdings))
    }
}

impl Cancellation {
    /// Whether the ledger can carry out what the cancellation asks, on `holdings`, the
    /// holdings of the asset that exist.
    pub open spec fn admissible(self, holdings: Map<Pubkey, Holding>) -> bool {
        &&& self.refund.admissible(holdings)
        &&& self.release.admissible(self.refund.apply(holdings))
    }

    /// The holdings after the ledger has carried out what the cancellation asks.
    pub open spec fn apply(self, holdings: Map<Pubkey, Holding>) -> Map<Pubkey, Holding> {
        self.release.apply(self.refund.apply(holdings))
    }
}

/// The authority under which assets leave the custody of `marketplace`: its own derived
/// address, for which it signs with its operator and its stored seed byte.
pub open spec fn custody_authority(marketplace: Marketplace) -> Authority {
    Authority::Registry { admin: marketplace.admin, bump: marketplace.bump }
}

impl Marketplace {
    /// The authority under which assets leave the custody of this registry.
    pub fn custody_authority(&self) -> (authority: Authority)
        ensures
            authority == custody_authority(*self),
    {
        Authority::Registry { admin: self.admin, bump: self.bump }
    }
}

/// The outcome of `initialize_marketplace`.
pub open spec fn initialize_outcome(ctx: InitializeMarketplace, fee_percentage: u16) -> Result<
    Marketplace,
    ErrorCode,
> {
    if fee_percentage > MAX_FEE_BASIS_POINTS {
        Err(ErrorCode::InvalidFeePercentage)
    } else {
        Ok(
            Marketplace {
                admin: ctx.admin,
                fee_percentage,
                total_listings: 0,
                bump: ctx.marketplace_bump,
            },
        )
    }
}

/// The outcome of `update_fee`.
pub open spec fn update_fee_outcome(ctx: UpdateMarketplace, new_fee_percentage: u16) -> Result<
    Marketplace,
    ErrorCode,
> {
    if ctx.admin != ctx.marketplace.admin {
        Err(ErrorCode::Unauthorized)
    } else if new_fee_percentage > MAX_FEE_BASIS_POINTS {
        Err(ErrorCode::InvalidFeePercentage)
    } else {
        Ok(Marketplace { fee_percentage: new_fee_percentage, ..ctx.marketplace })
    }
}

/// The outcome of `update_listing_price`.
pub open spec fn update_price_outcome(ctx: UpdateListingPrice, new_price: u64) -> Result<
    Listing,
    ErrorCode,
> {
    if !ctx.listing.is_active {
        Err(ErrorCode::ListingNotActive)
    } else if new_price == 0 {
        Err(ErrorCode::InvalidPrice)
    } else if ctx.seller != ctx.listing.seller {
        Err(ErrorCode::Unauthorized)
    } else {
        Ok(Listing { price: new_price, ..ctx.listing })
    }
}

/// Why `list_nft` refuses, if it does.
pub open spec fn list_refusal(ctx: ListNft, price: u64) -> Option<ErrorCode> {
    if ctx.seller_token_account.units_of(ctx.nft_mint) != 1 {
        Some(ErrorCode::InsufficientAssetBalance)
    } else if ctx.seller_token_account.owner != ctx.seller {
        Some(ErrorCode::InvalidAssetOwner)
    } else if price == 0 {
        Some(ErrorCode::InvalidPrice)
    } else if ctx.marketplace.total_listings == u64::MAX {
        Some(ErrorCode::ArithmeticOverflow)
    } else {
        None
    }
}

/// What `list_nft` brings about where it does not refuse.
pub open spec fn listed_of(ctx: ListNft, price: u64) -> Listed {
    Listed {
        marketplace: Marketplace {
            total_listings: (ctx.marketplace.total_listings + 1) as u64,
            ..ctx.marketplace
        },
        listing: Listing {
            seller: ctx.seller,
            nft_mint: ctx.nft_mint,
            price,
            bump: ctx.listing_bump,
            is_active: true,
        },
        custody: CustodyOpening {
            account: ctx.escrow_token_account,
            mint: ctx.nft_mint,
            authority: custody_authority(ctx.marketplace),
            payer: ctx.seller,
        },
        deposit: AssetTransfer {
            from: ctx.seller_token_account.key,
            to: ctx.escrow_token_account,
            authority: Authority::Wallet { key: ctx.seller },
            amount: 1,
        },
    }
}

/// The outcome of `list_nft`.
pub open spec fn list_outcome(ctx: ListNft, price: u64) -> Result<Listed, ErrorCode> {
    match list_refusal(ctx, price) {
        Some(reason) => Err(reason),
        None => Ok(listed_of(ctx, price)),
    }
}

/// Why `buy_nft` refuses, if it does.
pub open spec fn buy_refusal(ctx: BuyNft) -> Option<ErrorCode> {
    if !ctx.listing.is_active {
        Some(ErrorCode::ListingNotActive)
    } else if ctx.seller != ctx.listing.seller {
        Some(ErrorCode::InvalidSeller)
    } else if ctx.admin != ctx.marketplace.admin {
        Some(ErrorCode::InvalidAdmin)
    } else if split_of(ctx.listing.price, ctx.marketplace.fee_percentage) is Err {
        Some(ErrorCode::ArithmeticOverflow)
    } else if ctx.marketplace.total_listings == 0 {
        Some(ErrorCode::ArithmeticOverflow)
    } else {
        None
    }
}

/// What `buy_nft` brings about where it does not refuse.
pub open spec fn purchase_of(ctx: BuyNft) -> Purchase {
    let fee = fee_of(ctx.listing.price, ctx.marketplace.fee_percentage);
    Purchase {
        seller_payment: Payment {
            from: ctx.buyer,
            to: ctx.listing.seller,
            amount: (ctx.listing.price - fee) as u64,
        },
        fee_payment: if fee > 0 {
            Some(Payment { from: ctx.buyer, to: ctx.marketplace.admin, amount: fee as u64 })
        } else {
            None
        },
        delivery: AssetTransfer {
            from: ctx.escrow_token_account,
            to: ctx.buyer_token_account,
            authority: custody_authority(ctx.marketplace),
            amount: 1,
        },
        release: CustodyRelease {
            account: ctx.escrow_token_account,
            destination: ctx.listing.seller,
            authority: custody_authority(ctx.marketplace),
        },
        listing: Listing { is_active: false, ..ctx.listing },
        marketplace: Marketplace {
            total_listings: (ctx.marketplace.total_listings - 1) as u64,
            ..ctx.marketplace
        },
    }
}

/// The outcome of `buy_nft`.
pub open spec fn buy_outcome(ctx: BuyNft) -> Result<Purchase, ErrorCode> {
    match buy_refusal(ctx) {
        Some(reason) => Err(reason),
        None => Ok(purchase_of(ctx)),
    }
}

/// Why `cancel_listing` refuses, if it does.
pub open spec fn cancel_refusal(ctx: CancelListing) -> Option<ErrorCode> {
    if !ctx.listing.is_active {
        Some(ErrorCode::ListingNotActive)
    } else if ctx.seller != ctx.listing.seller {
        Some(ErrorCode::Unauthorized)
    } else if ctx.marketplace.total_listings == 0 {
        Some(ErrorCode::ArithmeticOverflow)
    } else {
        None
    }
}

/// What `cancel_listing` brings about where it does not refuse.
pub open spec fn cancellation_of(ctx: CancelListing) -> Cancellation {
    Cancellation {
        refund: AssetTransfer {
            from: ctx.escrow_token_account,
            to: ctx.seller_token_account,
            authority: custody_authority(ctx.marketplace),
            amount: 1,
        },
        release: CustodyRelease {
            account: ctx.escrow_token_account,
            destination: ctx.seller,
            authority: custody_authority(ctx.marketplace),
        },
        listing: Listing { is_active: false, ..ctx.listing },
        marketplace: Marketplace {
            total_listings: (ctx.marketplace.total_listings - 1) as u64,
            ..ctx.marketplace
        },
    }
}

/// The outcome of `cancel_listing`.
pub open spec fn cancel_outcome(ctx: CancelListing) -> Result<Cancellation, ErrorCode> {
    match cancel_refusal(ctx) {
        Some(reason) => Err(reason),
        None => Ok(cancellation_of(ctx)),
    }
}

/// Sells the listed asset to the buyer.
///
/// The listing must be active, and the seller and the fee recipient that the buyer declares
/// must be the ones on record, so that no other payee can be slipped in. The price is split
/// with checked arithmetic. The buyer pays the seller's share, then the fee unless it is
/// zero; the asset leaves custody for the buyer's holding under the registry's derived
/// authority; the emptied custody is released to the seller; the listing becomes inactive
/// and the registry counts one listing less.
pub fn buy_nft(ctx: &BuyNft) -> (r: Result<Purchase, ErrorCode>)
    ensures
        r == buy_outcome(*ctx),
        r matches Ok(purchase) ==> {
            &&& purchase.total_paid() == ctx.listing.price
            &&& !purchase.listing.is_active
            &&& ctx.listing.well_formed() ==> purchase.listing.well_formed()
            &&& ctx.marketplace.well_formed() ==> purchase.marketplace.well_formed()
        },
{
    if !ctx.listing.is_active {
        return Err(ErrorCode::ListingNotActive);
    }
    if ctx.seller != ctx.listing.seller {
        return Err(ErrorCode::InvalidSeller);
    }
    if ctx.admin != ctx.marketplace.admin {
        return Err(ErrorCode::InvalidAdmin);
    }
    let split = match split_payment(ctx.listing.price, ctx.marketplace.fee_percentage) {
        Ok(split) => split,
        Err(reason) => { return Err(reason); },
    };
    let total_listings = match ctx.marketplace.total_listings.checked_sub(1) {
        Some(total_listings) => total_listings,
        None => { return Err(ErrorCode::ArithmeticOverflow); },
    };
    let authority = ctx.marketplace.custody_authority();
    let fee_payment = if split.fee_amount > 0 {
        Some(Payment { from: ctx.buyer, to: ctx.marketplace.admin, amount: split.fee_amount })
    } else {
        None
    };
    Ok(
        Purchase {
            seller_payment: Payment {
                from: ctx.buyer,
                to: ctx.listing.seller,
                amount: split.seller_amount,
            },
            fee_payment,
            delivery: AssetTransfer {
                from: ctx.escrow_token_account,
                to: ctx.buyer_token_account,
                authority,
                amount: 1,
            },
            release: CustodyRelease {
                account: ctx.escrow_token_account,
                destination: ctx.listing.seller,
                authority,
            },
            listing: Listing {
                seller: ctx.listing.seller,
                nft_mint: ctx.listing.nft_mint,
                price: ctx.listing.price,
                bump: ctx.listing.bump,
                is_active: false,
            },
            marketplace: Marketplace {
                admin: ctx.marketplace.admin,
                fee_percentage: ctx.marketplace.fee_percentage,
                total_listings,
                bump: ctx.marketplace.bump,
            },
        },
    )
}

/// Withdraws the listed asset from sale and returns it to the seller.
///
/// The listing must be active and the caller must be its seller. The asset leaves custody
/// for the seller's holding under the registry's derived authority; the emptied custody is
/// released to the seller; the listing becomes inactive and the registry counts one listing
/// less. No payment is made.
pub fn cancel_listing(ctx: &CancelListing) -> (r: Result<Cancellation, ErrorCode>)
    ensures
        r == cancel_outcome(*ctx),
        r matches Ok(cancellation) ==> {
            &&& !cancellation.listing.is_active
            &&& ctx.listing.well_formed() ==> cancellation.listing.well_formed()
            &&& ctx.marketplace.well_formed() ==> cancellation.marketplace.well_formed()
        },
{
    if !ctx.listing.is_active {
        return Err(ErrorCode::ListingNotActive);
    }
    if ctx.seller != ctx.listing.seller {
        return Err(ErrorCode::Unauthorized);
    }
    let total_listings = match ctx.marketplace.total_listings.checked_sub(1) {
        Some(total_listings) => total_listings,
        None => { return Err(ErrorCode::ArithmeticOverflow); },
    };
    let authority = ctx.marketplace.custody_authority();
    Ok(
        Cancellation {
            refund: AssetTransfer {
                from: ctx.escrow_token_account,
                to: ctx.seller_token_account,
                authority,
                amount: 1,
            },
            release: CustodyRelease {
                account: ctx.escrow_token_account,
                destination: ctx.seller,
                authority,
            },
            listing: Listing {
                seller: ctx.listing.seller,
                nft_mint: ctx.listing.nft_mint,
                price: ctx.listing.price,
                bump: ctx.listing.bump,
                is_active: false,
            },
            marketplace: Marketplace {
                admin: ctx.marketplace.admin,
                fee_percentage: ctx.marketplace.fee_percentage,
                total_listings,
                bump: ctx.marketplace.bump,
            },
        },
    )
}

/// Offers an asset for sale at `price`.
///
/// The holding that the seller offers must be exactly one unit of the asset and must belong
/// to the seller, and the price must be above zero. The listing is created active; custody
/// is created under the registry's derived authority and the asset moves into it on the
/// seller's own authorization; the registry counts one listing more.
pub fn list_nft(ctx: &ListNft, price: u64) -> (r: Result<Listed, ErrorCode>)
    ensures
        r == list_outcome(*ctx, price),
        r matches Ok(listed) ==> {
            &&& listed.listing.is_active
            &&& listed.listing.well_formed()
            &&& ctx.marketplace.well_formed() ==> listed.marketplace.well_formed()
        },
{
    if !ctx.seller_token_account.holds_one_unit_of(&ctx.nft_mint) {
        return Err(ErrorCode::InsufficientAssetBalance);
    }
    if ctx.seller_token_account.owner != ctx.seller {
        return Err(ErrorCode::InvalidAssetOwner);
    }
    if price == 0 {
        return Err(ErrorCode::InvalidPrice);
    }
    let total_listings = match ctx.marketplace.total_listings.checked_add(1) {
        Some(total_listings) => total_listings,
        None => { return Err(ErrorCode::ArithmeticOverflow); },
    };
    Ok(
        Listed {
            marketplace: Marketplace {
                admin: ctx.marketplace.admin,
                fee_percentage: ctx.marketplace.fee_percentage,
                total_listings,
                bump: ctx.marketplace.bump,
            },
            listing: Listing {
                seller: ctx.seller,
                nft_mint: ctx.nft_mint,
                price,
                bump: ctx.listing_bump,
                is_active: true,
            },
            custody: CustodyOpening {
                account: ctx.escrow_token_account,
                mint: ctx.nft_mint,
                authority: ctx.marketplace.custody_authority(),
                payer: ctx.seller,
            },
            deposit: AssetTransfer {
                from: ctx.seller_token_account.key,
                to: ctx.escrow_token_account,
                authority: Authority::Wallet { key: ctx.seller },
                amount: 1,
            },
        },
    )
}

/// Creates the registry of an operator with no active listing.
///
/// A fee rate above the cap is refused, and then no registry comes about.
pub fn initialize_marketplace(ctx: &InitializeMarketplace, fee_percentage: u16) -> (r: Result<
    Marketplace,
    ErrorCode,
>)
    ensures
        r == initialize_outcome(*ctx, fee_percentage),
        r matches Ok(marketplace) ==> marketplace.well_formed(),
{
    if fee_percentage > MAX_FEE_BASIS_POINTS {
        return Err(ErrorCode::InvalidFeePercentage);
    }
    Ok(
        Marketplace {
            admin: ctx.admin,
            fee_percentage,
            total_listings: 0,
            bump: ctx.marketplace_bump,
        },
    )
}

/// Changes the price of an active listing.
///
/// The listing must be active, the new price above zero, and the caller the listing's
/// seller. Nothing but the price changes.
pub fn update_listing_price(ctx: &UpdateListingPrice, new_price: u64) -> (r: Result<
    Listing,
    ErrorCode,
>)
    ensures
        r == update_price_outcome(*ctx, new_price),
        r matches Ok(listing) ==> listing.well_formed() && listing.is_active,
{
    if !ctx.listing.is_active {
        return Err(ErrorCode::ListingNotActive);
    }
    if new_price == 0 {
        return Err(ErrorCode::InvalidPrice);
    }
    if ctx.seller != ctx.listing.seller {
        return Err(ErrorCode::Unauthorized);
    }
    Ok(
        Listing {
            seller: ctx.listing.seller,
            nft_mint: ctx.listing.nft_mint,
            price: new_price,
            bump: ctx.listing.bump,
            is_active: ctx.listing.is_active,
        },
    )
}

/// Changes the fee rate of a registry.
///
/// The caller must be the registry's operator and the new rate within the cap. Nothing but
/// the rate changes.
pub fn update_fee(ctx: &UpdateMarketplace, new_fee_percentage: u16) -> (r: Result<
    Marketplace,
    ErrorCode,
>)
    ensures
        r == update_fee_outcome(*ctx, new_fee_percentage),
        r matches Ok(marketplace) ==> marketplace.well_formed(),
{
    if ctx.admin != ctx.marketplace.admin {
        return Err(ErrorCode::Unauthorized);
    }
    if new_fee_percentage > MAX_FEE_BASIS_POINTS {
        return Err(ErrorCode::InvalidFeePercentage);
    }
    Ok(
        Marketplace {
            admin: ctx.marketplace.admin,
            fee_percentage: new_fee_percentage,
            total_listings: ctx.marketplace.total_listings,
            bump: ctx.marketplace.bump,
        },
    )
}

} // verus!
