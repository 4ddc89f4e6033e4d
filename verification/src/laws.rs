//! What holds of the operations taken together.

use vstd::prelude::*;
use crate::accounts::{
    BuyNft, CancelListing, InitializeMarketplace, ListNft, UpdateListingPrice, UpdateMarketplace,
};
use crate::error::{refused, ErrorCode};
use crate::fee::{fee_of, lemma_fee_within_price, split_of};
use crate::operations::{
    buy_outcome, cancel_outcome, custody_authority, initialize_outcome, list_outcome,
    update_fee_outcome, update_price_outcome,
};
use crate::pubkey::Pubkey;
use crate::state::{Listing, TokenAccount, MAX_FEE_BASIS_POINTS};
use crate::transfer::{AssetTransfer, Authority, Holding};

verus! {

/// Whether the ledger keeps of a holding what the runtime reported of it: it exists with the
/// units reported and obeys the wallet of the owner reported.
pub open spec fn agrees(holdings: Map<Pubkey, Holding>, reported: TokenAccount) -> bool {
    &&& holdings.dom().contains(reported.key)
    &&& holdings[reported.key] == Holding {
        units: reported.amount as nat,
        authority: Authority::Wallet { key: reported.owner },
    }
}

/// The holdings with the one at `key` emptied.
pub open spec fn emptied(holdings: Map<Pubkey, Holding>, key: Pubkey) -> Map<Pubkey, Holding> {
    holdings.insert(key, Holding { units: 0, authority: holdings[key].authority })
}

/// The accounts with which the seller of a fresh listing cancels it.
pub open spec fn cancel_after_listing(ctx: ListNft, price: u64) -> CancelListing {
    CancelListing {
        marketplace: list_outcome(ctx, price)->Ok_0.marketplace,
        listing: list_outcome(ctx, price)->Ok_0.listing,
        escrow_token_account: ctx.escrow_token_account,
        seller: ctx.seller,
        seller_token_account: ctx.seller_token_account.key,
    }
}

/// The accounts with which `buyer` buys a fresh listing into the holding at
/// `buyer_token_account`, declaring the payees on record.
pub open spec fn buy_after_listing(
    ctx: ListNft,
    price: u64,
    buyer: Pubkey,
    buyer_token_account: Pubkey,
) -> BuyNft {
    BuyNft {
        marketplace: list_outcome(ctx, price)->Ok_0.marketplace,
        listing: list_outcome(ctx, price)->Ok_0.listing,
        escrow_token_account: ctx.escrow_token_account,
        buyer,
        seller: ctx.seller,
        admin: ctx.marketplace.admin,
        buyer_token_account,
    }
}

/// Listing an asset and then cancelling the listing restores what was there before: the
/// cancellation is accepted, the registry is the record it was, so that it counts as many
/// active listings as before, and on a ledger that agrees with what was reported of the
/// seller's holding and has no custody for the asset, the ledger can carry out both, after
/// which every holding, the seller's among them, is what it was and custody is vacant again.
pub proof fn lemma_list_then_cancel_restores(
    ctx: ListNft,
    price: u64,
    holdings: Map<Pubkey, Holding>,
)
    requires
        list_outcome(ctx, price) is Ok,
        agrees(holdings, ctx.seller_token_account),
        !holdings.dom().contains(ctx.escrow_token_account),
    ensures
        cancel_outcome(cancel_after_listing(ctx, price)) is Ok,
        cancel_outcome(cancel_after_listing(ctx, price))->Ok_0.marketplace == ctx.marketplace,
        !cancel_outcome(cancel_after_listing(ctx, price))->Ok_0.listing.is_active,
        list_outcome(ctx, price)->Ok_0.admissible(holdings),
        cancel_outcome(cancel_after_listing(ctx, price))->Ok_0.admissible(
            list_outcome(ctx, price)->Ok_0.apply(holdings),
        ),
        cancel_outcome(cancel_after_listing(ctx, price))->Ok_0.apply(
            list_outcome(ctx, price)->Ok_0.apply(holdings),
        ) == holdings,
{
    let listed = list_outcome(ctx, price)->Ok_0;
    let cancelled = cancel_outcome(cancel_after_listing(ctx, price))->Ok_0;
    assert(cancelled.apply(listed.apply(holdings)) =~= holdings);
}

/// No operation persists a price of zero: a listing that comes out of `list_nft` or
/// `update_listing_price` has a price above zero, and a sale or a cancellation keeps the
/// price it found.
pub proof fn lemma_price_never_zero(
    list: ListNft,
    update: UpdateListingPrice,
    buy: BuyNft,
    cancel: CancelListing,
    price: u64,
)
    ensures
        list_outcome(list, price) is Ok ==> list_outcome(list, price)->Ok_0.listing.well_formed(),
        update_price_outcome(update, price) is Ok ==> update_price_outcome(
            update,
            price,
        )->Ok_0.well_formed(),
        buy_outcome(buy) is Ok ==> buy_outcome(buy)->Ok_0.listing.price == buy.listing.price,
        cancel_outcome(cancel) is Ok ==> cancel_outcome(cancel)->Ok_0.listing.price
            == cancel.listing.price,
{
}

/// No operation persists a fee rate above the cap: a registry that comes out of
/// `initialize_marketplace` or `update_fee` is within it, and listing, selling and
/// cancelling keep the rate they found.
pub proof fn lemma_fee_rate_within_cap(
    initialize: InitializeMarketplace,
    update: UpdateMarketplace,
    list: ListNft,
    buy: BuyNft,
    cancel: CancelListing,
    fee_percentage: u16,
    price: u64,
)
    ensures
        initialize_outcome(initialize, fee_percentage) is Ok ==> initialize_outcome(
            initialize,
            fee_percentage,
        )->Ok_0.well_formed(),
        update_fee_outcome(update, fee_percentage) is Ok ==> update_fee_outcome(
            update,
            fee_percentage,
        )->Ok_0.well_formed(),
        list_outcome(list, price) is Ok ==> list_outcome(list, price)->Ok_0.marketplace.fee_percentage
            == list.marketplace.fee_percentage,
        buy_outcome(buy) is Ok ==> buy_outcome(buy)->Ok_0.marketplace.fee_percentage
            == buy.marketplace.fee_percentage,
        cancel_outcome(cancel) is Ok ==> cancel_outcome(cancel)->Ok_0.marketplace.fee_percentage
            == cancel.marketplace.fee_percentage,
{
}

/// A fee rate above the cap is refused as such, at creation and, from the operator, at any
/// later change.
pub proof fn lemma_fee_above_cap_refused(
    initialize: InitializeMarketplace,
    update: UpdateMarketplace,
    fee_percentage: u16,
)
    requires
        fee_percentage > MAX_FEE_BASIS_POINTS,
    ensures
        refused(initialize_outcome(initialize, fee_percentage), ErrorCode::InvalidFeePercentage),
        update.admin == update.marketplace.admin ==> refused(
            update_fee_outcome(update, fee_percentage),
            ErrorCode::InvalidFeePercentage,
        ),
{
}

/// A listing takes the seller's one unit into custody: on a ledger that agrees with what was
/// reported of the seller's holding and has no custody for the asset, the ledger can carry
/// the listing out, after which custody exists, holds exactly that unit and obeys the
/// registry's derived authority, the seller's holding is empty, and every other holding is
/// what it was.
pub proof fn lemma_listing_takes_custody(ctx: ListNft, price: u64, holdings: Map<Pubkey, Holding>)
    requires
        list_outcome(ctx, price) is Ok,
        agrees(holdings, ctx.seller_token_account),
        !holdings.dom().contains(ctx.escrow_token_account),
    ensures
        list_outcome(ctx, price)->Ok_0.admissible(holdings),
        list_outcome(ctx, price)->Ok_0.apply(holdings) == holdings.insert(
            ctx.seller_token_account.key,
            Holding { units: 0, authority: Authority::Wallet { key: ctx.seller } },
        ).insert(
            ctx.escrow_token_account,
            Holding { units: 1, authority: custody_authority(ctx.marketplace) },
        ),
{
    let listed = list_outcome(ctx, price)->Ok_0;
    assert(listed.apply(holdings) =~= holdings.insert(
        ctx.seller_token_account.key,
        Holding { units: 0, authority: Authority::Wallet { key: ctx.seller } },
    ).insert(
        ctx.escrow_token_account,
        Holding { units: 1, authority: custody_authority(ctx.marketplace) },
    ));
}

/// A cancellation moves the one unit in custody to the seller's holding and vacates
/// custody: on a ledger whose custody holds that unit and obeys the registry, the ledger
/// can carry the cancellation out, after which the seller's holding has gained the unit,
/// custody is gone, and every other holding is what it was.
pub proof fn lemma_cancellation_returns_the_asset(
    ctx: CancelListing,
    holdings: Map<Pubkey, Holding>,
)
    requires
        cancel_outcome(ctx) is Ok,
        holdings.dom().contains(ctx.escrow_token_account),
        holdings[ctx.escrow_token_account] == (Holding {
            units: 1,
            authority: custody_authority(ctx.marketplace),
        }),
        holdings.dom().contains(ctx.seller_token_account),
        ctx.seller_token_account != ctx.escrow_token_account,
    ensures
        cancel_outcome(ctx)->Ok_0.admissible(holdings),
        cancel_outcome(ctx)->Ok_0.apply(holdings) == holdings.remove(
            ctx.escrow_token_account,
        ).insert(
            ctx.seller_token_account,
            Holding {
                units: holdings[ctx.seller_token_account].units + 1,
                authority: holdings[ctx.seller_token_account].authority,
            },
        ),
{
    let cancellation = cancel_outcome(ctx)->Ok_0;
    assert(cancellation.apply(holdings) =~= holdings.remove(ctx.escrow_token_account).insert(
        ctx.seller_token_account,
        Holding {
            units: holdings[ctx.seller_token_account].units + 1,
            authority: holdings[ctx.seller_token_account].authority,
        },
    ));
}

/// A sale moves the one unit in custody to the buyer's holding and vacates custody: on a
/// ledger whose custody holds that unit and obeys the registry, the ledger can carry the
/// sale out, after which the buyer's holding has gained the unit, custody is gone, and
/// every other holding is what it was.
pub proof fn lemma_purchase_delivers_the_asset(ctx: BuyNft, holdings: Map<Pubkey, Holding>)
    requires
        buy_outcome(ctx) is Ok,
        holdings.dom().contains(ctx.escrow_token_account),
        holdings[ctx.escrow_token_account] == (Holding {
            units: 1,
            authority: custody_authority(ctx.marketplace),
        }),
        holdings.dom().contains(ctx.buyer_token_account),
        ctx.buyer_token_account != ctx.escrow_token_account,
    ensures
        buy_outcome(ctx)->Ok_0.admissible(holdings),
        buy_outcome(ctx)->Ok_0.apply(holdings) == holdings.remove(ctx.escrow_token_account).insert(
            ctx.buyer_token_account,
            Holding {
                units: holdings[ctx.buyer_token_account].units + 1,
                authority: holdings[ctx.buyer_token_account].authority,
            },
        ),
{
    let purchase = buy_outcome(ctx)->Ok_0;
    assert(purchase.apply(holdings) =~= holdings.remove(ctx.escrow_token_account).insert(
        ctx.buyer_token_account,
        Holding {
            units: holdings[ctx.buyer_token_account].units + 1,
            authority: holdings[ctx.buyer_token_account].authority,
        },
    ));
}

/// Custody obeys the registry it was created under and nobody else: once a listing has been
/// carried out, the ledger can carry out no movement out of custody that a wallet
/// authorizes, and no sale or cancellation presented under a registry with another
/// operator or another seed byte.
pub proof fn lemma_custody_obeys_only_its_registry(
    ctx: ListNft,
    price: u64,
    holdings: Map<Pubkey, Holding>,
    by_wallet: AssetTransfer,
    sale: BuyNft,
    cancellation: CancelListing,
)
    requires
        list_outcome(ctx, price) is Ok,
        list_outcome(ctx, price)->Ok_0.admissible(holdings),
    ensures
        by_wallet.from == ctx.escrow_token_account && by_wallet.authority is Wallet
            ==> !by_wallet.admissible(list_outcome(ctx, price)->Ok_0.apply(holdings)),
        buy_outcome(sale) is Ok && sale.escrow_token_account == ctx.escrow_token_account
            && custody_authority(sale.marketplace) != custody_authority(ctx.marketplace)
            ==> !buy_outcome(sale)->Ok_0.admissible(list_outcome(ctx, price)->Ok_0.apply(holdings)),
        cancel_outcome(cancellation) is Ok && cancellation.escrow_token_account
            == ctx.escrow_token_account && custody_authority(cancellation.marketplace)
            != custody_authority(ctx.marketplace) ==> !cancel_outcome(cancellation)->Ok_0.admissible(
            list_outcome(ctx, price)->Ok_0.apply(holdings),
        ),
{
}

/// In a sale the buyer pays the price and no more: the seller's share and the fee add up to
/// it, the fee is the rounded-down share of the price at the registry's rate, it goes to
/// the registry's operator and the rest to the listing's seller, and a fee of zero is not
/// paid at all.
pub proof fn lemma_purchase_pays_the_price(ctx: BuyNft)
    requires
        buy_outcome(ctx) is Ok,
    ensures
        buy_outcome(ctx)->Ok_0.total_paid() == ctx.listing.price,
        buy_outcome(ctx)->Ok_0.seller_payment.from == ctx.buyer,
        buy_outcome(ctx)->Ok_0.seller_payment.to == ctx.listing.seller,
        buy_outcome(ctx)->Ok_0.seller_payment.amount == ctx.listing.price - fee_of(
            ctx.listing.price,
            ctx.marketplace.fee_percentage,
        ),
        fee_of(ctx.listing.price, ctx.marketplace.fee_percentage) == 0
            <==> buy_outcome(ctx)->Ok_0.fee_payment is None,
        buy_outcome(ctx)->Ok_0.fee_payment matches Some(payment) ==> {
            &&& payment.from == ctx.buyer
            &&& payment.to == ctx.marketplace.admin
            &&& payment.amount == fee_of(ctx.listing.price, ctx.marketplace.fee_percentage)
        },
{
    let price = ctx.listing.price;
    let rate = ctx.marketplace.fee_percentage;
    assert(split_of(price, rate) is Ok);
    assert(0 <= price as int * rate as int) by (nonlinear_arith);
}

/// A sale is accepted whenever the listing is active, the declared payees are the ones on
/// record, the registry's rate is within the cap and it counts at least one active listing.
pub proof fn lemma_purchase_accepted(ctx: BuyNft)
    requires
        ctx.listing.is_active,
        ctx.seller == ctx.listing.seller,
        ctx.admin == ctx.marketplace.admin,
        ctx.marketplace.well_formed(),
        ctx.marketplace.total_listings > 0,
    ensures
        buy_outcome(ctx) is Ok,
{
    lemma_fee_within_price(ctx.listing.price, ctx.marketplace.fee_percentage);
}

/// Listing an asset and then selling it settles the sale: the sale is accepted from any
/// buyer who declares the payees on record, if the registry's rate is within the cap; the
/// buyer pays the price; the listing ends inactive and the registry counts as many active
/// listings as before; and on a ledger that agrees with what was reported of the seller's
/// holding and has no custody for the asset, the ledger can carry out both, after which
/// the seller's holding is empty, the buyer's holding has one unit more than it then has,
/// custody is vacant again, and no unit has come about or gone.
pub proof fn lemma_list_then_buy_settles(
    ctx: ListNft,
    price: u64,
    buyer: Pubkey,
    buyer_token_account: Pubkey,
    holdings: Map<Pubkey, Holding>,
)
    requires
        list_outcome(ctx, price) is Ok,
        ctx.marketplace.well_formed(),
        agrees(holdings, ctx.seller_token_account),
        holdings.dom().contains(buyer_token_account),
        !holdings.dom().contains(ctx.escrow_token_account),
    ensures
        buy_outcome(buy_after_listing(ctx, price, buyer, buyer_token_account)) is Ok,
        buy_outcome(buy_after_listing(ctx, price, buyer, buyer_token_account))->Ok_0.marketplace
            == ctx.marketplace,
        !buy_outcome(
            buy_after_listing(ctx, price, buyer, buyer_token_account),
        )->Ok_0.listing.is_active,
        buy_outcome(
            buy_after_listing(ctx, price, buyer, buyer_token_account),
        )->Ok_0.total_paid() == price,
        list_outcome(ctx, price)->Ok_0.admissible(holdings),
        buy_outcome(buy_after_listing(ctx, price, buyer, buyer_token_account))->Ok_0.admissible(
            list_outcome(ctx, price)->Ok_0.apply(holdings),
        ),
        buy_outcome(buy_after_listing(ctx, price, buyer, buyer_token_account))->Ok_0.apply(
            list_outcome(ctx, price)->Ok_0.apply(holdings),
        ) == emptied(holdings, ctx.seller_token_account.key).insert(
            buyer_token_account,
            Holding {
                units: emptied(holdings, ctx.seller_token_account.key)[buyer_token_account].units
                    + 1,
                authority: holdings[buyer_token_account].authority,
            },
        ),
{
    let buy = buy_after_listing(ctx, price, buyer, buyer_token_account);
    lemma_purchase_accepted(buy);
    lemma_purchase_pays_the_price(buy);
    let listed = list_outcome(ctx, price)->Ok_0;
    let purchase = buy_outcome(buy)->Ok_0;
    assert(purchase.apply(listed.apply(holdings)) =~= emptied(
        holdings,
        ctx.seller_token_account.key,
    ).insert(
        buyer_token_account,
        Holding {
            units: emptied(holdings, ctx.seller_token_account.key)[buyer_token_account].units + 1,
            authority: holdings[buyer_token_account].authority,
        },
    ));
}

/// While an asset is listed no second custody can be created for it: after a listing has
/// been carried out, the ledger cannot carry out another one that names the same custody
/// address.
pub proof fn lemma_custody_is_exclusive(
    first: ListNft,
    second: ListNft,
    price: u64,
    second_price: u64,
    holdings: Map<Pubkey, Holding>,
)
    requires
        list_outcome(first, price) is Ok,
        list_outcome(second, second_price) is Ok,
        second.escrow_token_account == first.escrow_token_account,
        list_outcome(first, price)->Ok_0.admissible(holdings),
    ensures
        !list_outcome(second, second_price)->Ok_0.admissible(
            list_outcome(first, price)->Ok_0.apply(holdings),
        ),
{
}

/// A listing that is no longer active stays so: selling it, cancelling it and changing its
/// price are each refused because it is not active, whoever asks and whatever else is
/// handed in.
pub proof fn lemma_inactive_is_terminal(
    buy: BuyNft,
    cancel: CancelListing,
    update: UpdateListingPrice,
    new_price: u64,
)
    ensures
        !buy.listing.is_active ==> refused(buy_outcome(buy), ErrorCode::ListingNotActive),
        !cancel.listing.is_active ==> refused(cancel_outcome(cancel), ErrorCode::ListingNotActive),
        !update.listing.is_active ==> refused(
            update_price_outcome(update, new_price),
            ErrorCode::ListingNotActive,
        ),
{
}

/// An asset is sold once: after a sale, every further attempt to buy the same listing is
/// refused because it is not active, and so asks for no payment.
pub proof fn lemma_sold_once(first: BuyNft, second: BuyNft)
    requires
        buy_outcome(first) is Ok,
        second.listing == buy_outcome(first)->Ok_0.listing,
    ensures
        refused(buy_outcome(second), ErrorCode::ListingNotActive),
{
}

/// Whichever of a sale and a cancellation is accepted first settles the listing for good:
/// the listing it leaves is refused, as not active, by every later sale, cancellation and
/// change of price.
pub proof fn lemma_first_settlement_wins(
    sale: BuyNft,
    cancellation: CancelListing,
    settled: Listing,
    later_sale: BuyNft,
    later_cancellation: CancelListing,
    later_update: UpdateListingPrice,
    new_price: u64,
)
    requires
        (buy_outcome(sale) is Ok && settled == buy_outcome(sale)->Ok_0.listing) || (cancel_outcome(
            cancellation,
        ) is Ok && settled == cancel_outcome(cancellation)->Ok_0.listing),
        later_sale.listing == settled,
        later_cancellation.listing == settled,
        later_update.listing == settled,
    ensures
        refused(buy_outcome(later_sale), ErrorCode::ListingNotActive),
        refused(cancel_outcome(later_cancellation), ErrorCode::ListingNotActive),
        refused(update_price_outcome(later_update, new_price), ErrorCode::ListingNotActive),
{
}

/// What identifies a record is fixed when it is created: no operation changes the operator
/// of a registry or its seed byte, nor the seller, the asset or the seed byte of a listing.
/// So the authority under which custody is released is the one it was created under.
pub proof fn lemma_records_keep_their_identity(
    update_fee: UpdateMarketplace,
    list: ListNft,
    update_price: UpdateListingPrice,
    buy: BuyNft,
    cancel: CancelListing,
    fee_percentage: u16,
    price: u64,
)
    ensures
        update_fee_outcome(update_fee, fee_percentage) matches Ok(registry) ==> {
            &&& registry.admin == update_fee.marketplace.admin
            &&& registry.bump == update_fee.marketplace.bump
        },
        list_outcome(list, price) matches Ok(listed) ==> {
            &&& listed.marketplace.admin == list.marketplace.admin
            &&& listed.marketplace.bump == list.marketplace.bump
            &&& listed.custody.authority == custody_authority(list.marketplace)
        },
        update_price_outcome(update_price, price) matches Ok(listing) ==> {
            &&& listing.seller == update_price.listing.seller
            &&& listing.nft_mint == update_price.listing.nft_mint
            &&& listing.bump == update_price.listing.bump
        },
        buy_outcome(buy) matches Ok(purchase) ==> {
            &&& purchase.marketplace.admin == buy.marketplace.admin
            &&& purchase.marketplace.bump == buy.marketplace.bump
            &&& purchase.listing.seller == buy.listing.seller
            &&& purchase.listing.nft_mint == buy.listing.nft_mint
            &&& purchase.listing.bump == buy.listing.bump
            &&& purchase.delivery.authority == custody_authority(buy.marketplace)
            &&& purchase.release.authority == custody_authority(buy.marketplace)
        },
        cancel_outcome(cancel) matches Ok(cancellation) ==> {
            &&& cancellation.marketplace.admin == cancel.marketplace.admin
            &&& cancellation.marketplace.bump == cancel.marketplace.bump
            &&& cancellation.listing.seller == cancel.listing.seller
            &&& cancellation.listing.nft_mint == cancel.listing.nft_mint
            &&& cancellation.listing.bump == cancel.listing.bump
            &&& cancellation.refund.authority == custody_authority(cancel.marketplace)
            &&& cancellation.release.authority == custody_authority(cancel.marketplace)
        },
{
}

/// Nobody but the seller cancels an active listing: from anyone else the cancellation is
/// refused as unauthorized, and a refusal carries nothing that could be persisted.
pub proof fn lemma_cancel_by_stranger_refused(ctx: CancelListing)
    requires
        ctx.listing.is_active,
        ctx.seller != ctx.listing.seller,
    ensures
        refused(cancel_outcome(ctx), ErrorCode::Unauthorized),
{
}

/// A seller who holds no unit of the asset cannot list it.
pub proof fn lemma_empty_holding_refused(ctx: ListNft, price: u64)
    requires
        ctx.seller_token_account.units_of(ctx.nft_mint) == 0,
    ensures
        refused(list_outcome(ctx, price), ErrorCode::InsufficientAssetBalance),
{
}

} // verus!
