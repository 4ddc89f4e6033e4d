use std::collections::BTreeMap;

use marketplace::{
    buy_nft, cancel_listing, initialize_marketplace, list_nft, BuyNft, CancelListing,
    InitializeMarketplace, ListNft, Marketplace, Pubkey, TokenAccount,
};
use marketplace::transfer::{AssetTransfer, Authority, CustodyOpening, CustodyRelease, Payment};

/// The holdings of the asset that exist, with the authority each obeys, and the funds of
/// each wallet. Every request is carried out only where the ledger can carry it out.
struct Ledger {
    holdings: BTreeMap<[u8; 32], (u64, Authority)>,
    funds: BTreeMap<[u8; 32], u64>,
}

impl Ledger {
    fn open(&mut self, opening: &CustodyOpening) -> bool {
        if self.holdings.contains_key(&opening.account.to_bytes()) {
            return false;
        }
        self.holdings.insert(opening.account.to_bytes(), (0, opening.authority));
        true
    }

    fn transfer(&mut self, transfer: &AssetTransfer) -> bool {
        let (from, authority) = match self.holdings.get(&transfer.from.to_bytes()) {
            Some(holding) => *holding,
            None => return false,
        };
        if !self.holdings.contains_key(&transfer.to.to_bytes())
            || from < transfer.amount
            || authority != transfer.authority
        {
            return false;
        }
        self.holdings.insert(transfer.from.to_bytes(), (from - transfer.amount, authority));
        let (to, receiving) = self.holdings[&transfer.to.to_bytes()];
        self.holdings.insert(transfer.to.to_bytes(), (to + transfer.amount, receiving));
        true
    }

    fn release(&mut self, release: &CustodyRelease) -> bool {
        match self.holdings.get(&release.account.to_bytes()) {
            Some((0, authority)) if *authority == release.authority => {}
            _ => return false,
        }
        self.holdings.remove(&release.account.to_bytes());
        true
    }

    fn pay(&mut self, payment: &Payment) -> bool {
        let from = self.funds[&payment.from.to_bytes()];
        if from < payment.amount {
            return false;
        }
        self.funds.insert(payment.from.to_bytes(), from - payment.amount);
        let to = self.funds[&payment.to.to_bytes()];
        self.funds.insert(payment.to.to_bytes(), to + payment.amount);
        true
    }

    fn units(&self, holding: u8) -> Option<u64> {
        self.holdings.get(&[holding; 32]).map(|(units, _)| *units)
    }

    fn units_in_all(&self) -> u64 {
        self.holdings.values().map(|(units, _)| *units).sum()
    }

    fn funds_in_all(&self) -> u64 {
        self.funds.values().sum()
    }
}

fn key(tag: u8) -> Pubkey {
    Pubkey::new_from_array([tag; 32])
}

const OPERATOR: u8 = 1;
const SELLER: u8 = 2;
const BUYER: u8 = 3;
const ASSET: u8 = 4;
const SELLER_HOLDING: u8 = 5;
const BUYER_HOLDING: u8 = 6;
const CUSTODY: u8 = 7;

fn ledger() -> Ledger {
    let mut holdings = BTreeMap::new();
    holdings.insert([SELLER_HOLDING; 32], (1, Authority::Wallet { key: key(SELLER) }));
    holdings.insert([BUYER_HOLDING; 32], (0, Authority::Wallet { key: key(BUYER) }));
    let mut funds = BTreeMap::new();
    funds.insert([OPERATOR; 32], 10);
    funds.insert([SELLER; 32], 20);
    funds.insert([BUYER; 32], 5000);
    Ledger { holdings, funds }
}

fn registry(fee_percentage: u16) -> Marketplace {
    initialize_marketplace(
        &InitializeMarketplace { admin: key(OPERATOR), marketplace_bump: 254 },
        fee_percentage,
    )
    .unwrap()
}

fn listing_accounts(marketplace: Marketplace, ledger: &Ledger) -> ListNft {
    ListNft {
        marketplace,
        escrow_token_account: key(CUSTODY),
        seller: key(SELLER),
        seller_token_account: TokenAccount {
            key: key(SELLER_HOLDING),
            mint: key(ASSET),
            owner: key(SELLER),
            amount: ledger.units(SELLER_HOLDING).unwrap(),
        },
        nft_mint: key(ASSET),
        listing_bump: 253,
    }
}

#[test]
fn ledger_after_list_holds_the_asset_in_custody() {
    let mut ledger = ledger();
    let listed = list_nft(&listing_accounts(registry(250), &ledger), 1000).unwrap();
    assert!(ledger.open(&listed.custody));
    assert!(ledger.transfer(&listed.deposit));
    assert_eq!(ledger.units(SELLER_HOLDING).unwrap(), 0);
    assert_eq!(ledger.units(CUSTODY).unwrap(), 1);
    assert_eq!(ledger.units_in_all(), 1);
    // the holding is now empty, so the asset cannot be listed a second time
    let again = list_nft(&listing_accounts(listed.marketplace, &ledger), 1000);
    assert_eq!(again, Err(marketplace::ErrorCode::InsufficientAssetBalance));
}

#[test]
fn ledger_after_list_and_cancel_is_as_before() {
    let mut ledger = ledger();
    let before = registry(250);
    let listed = list_nft(&listing_accounts(before, &ledger), 1000).unwrap();
    assert!(ledger.open(&listed.custody));
    assert!(ledger.transfer(&listed.deposit));
    let cancelled = cancel_listing(&CancelListing {
        marketplace: listed.marketplace,
        listing: listed.listing,
        escrow_token_account: key(CUSTODY),
        seller: key(SELLER),
        seller_token_account: key(SELLER_HOLDING),
    })
    .unwrap();
    assert!(ledger.transfer(&cancelled.refund));
    assert!(ledger.release(&cancelled.release));
    assert_eq!(ledger.units(SELLER_HOLDING).unwrap(), 1);
    assert!(ledger.units(CUSTODY).is_none());
    assert_eq!(ledger.units_in_all(), 1);
    assert_eq!(cancelled.marketplace, before);
    assert_eq!(cancelled.marketplace.total_listings, 0);
    assert_eq!(ledger.funds_in_all(), 5030);
    assert_eq!(ledger.funds[&[BUYER; 32]], 5000);
}

#[test]
fn ledger_after_list_and_buy_has_paid_and_delivered() {
    let mut ledger = ledger();
    let listed = list_nft(&listing_accounts(registry(250), &ledger), 1000).unwrap();
    assert!(ledger.open(&listed.custody));
    assert!(ledger.transfer(&listed.deposit));
    let purchase = buy_nft(&BuyNft {
        marketplace: listed.marketplace,
        listing: listed.listing,
        escrow_token_account: key(CUSTODY),
        buyer: key(BUYER),
        seller: key(SELLER),
        admin: key(OPERATOR),
        buyer_token_account: key(BUYER_HOLDING),
    })
    .unwrap();
    assert!(ledger.pay(&purchase.seller_payment));
    if let Some(fee_payment) = &purchase.fee_payment {
        assert!(ledger.pay(fee_payment));
    }
    assert!(ledger.transfer(&purchase.delivery));
    assert!(ledger.release(&purchase.release));
    assert_eq!(ledger.funds[&[SELLER; 32]], 20 + 975);
    assert_eq!(ledger.funds[&[OPERATOR; 32]], 10 + 25);
    assert_eq!(ledger.funds[&[BUYER; 32]], 5000 - 1000);
    assert_eq!(ledger.funds_in_all(), 5030);
    assert_eq!(ledger.units(BUYER_HOLDING).unwrap(), 1);
    assert_eq!(ledger.units(SELLER_HOLDING).unwrap(), 0);
    assert!(ledger.units(CUSTODY).is_none());
    assert_eq!(ledger.units_in_all(), 1);
    assert!(!purchase.listing.is_active);
    assert_eq!(purchase.marketplace.total_listings, listed.marketplace.total_listings - 1);
}

#[test]
fn ledger_after_list_and_buy_without_fee_pays_the_seller_alone() {
    let mut ledger = ledger();
    let listed = list_nft(&listing_accounts(registry(0), &ledger), 1000).unwrap();
    assert!(ledger.open(&listed.custody));
    assert!(ledger.transfer(&listed.deposit));
    let purchase = buy_nft(&BuyNft {
        marketplace: listed.marketplace,
        listing: listed.listing,
        escrow_token_account: key(CUSTODY),
        buyer: key(BUYER),
        seller: key(SELLER),
        admin: key(OPERATOR),
        buyer_token_account: key(BUYER_HOLDING),
    })
    .unwrap();
    assert!(purchase.fee_payment.is_none());
    assert!(ledger.pay(&purchase.seller_payment));
    assert!(ledger.transfer(&purchase.delivery));
    assert!(ledger.release(&purchase.release));
    assert_eq!(ledger.funds[&[SELLER; 32]], 20 + 1000);
    assert_eq!(ledger.funds[&[OPERATOR; 32]], 10);
    assert_eq!(ledger.funds[&[BUYER; 32]], 4000);
    assert_eq!(ledger.units(BUYER_HOLDING).unwrap(), 1);
}

#[test]
fn ledger_allows_a_new_listing_once_custody_is_vacant() {
    let mut ledger = ledger();
    let listed = list_nft(&listing_accounts(registry(250), &ledger), 1000).unwrap();
    assert!(ledger.open(&listed.custody));
    assert!(ledger.transfer(&listed.deposit));
    let cancelled = cancel_listing(&CancelListing {
        marketplace: listed.marketplace,
        listing: listed.listing,
        escrow_token_account: key(CUSTODY),
        seller: key(SELLER),
        seller_token_account: key(SELLER_HOLDING),
    })
    .unwrap();
    assert!(ledger.transfer(&cancelled.refund));
    assert!(ledger.release(&cancelled.release));
    let relisted = list_nft(&listing_accounts(cancelled.marketplace, &ledger), 2000).unwrap();
    assert!(ledger.open(&relisted.custody));
    assert!(ledger.transfer(&relisted.deposit));
    assert!(relisted.listing.is_active);
    assert_eq!(relisted.listing.price, 2000);
    assert_eq!(relisted.marketplace.total_listings, 1);
    assert_eq!(ledger.units(CUSTODY).unwrap(), 1);
}

#[test]
fn ledger_moves_nothing_out_of_custody_for_a_wallet() {
    let mut ledger = ledger();
    let listed = list_nft(&listing_accounts(registry(250), &ledger), 1000).unwrap();
    assert!(ledger.open(&listed.custody));
    assert!(ledger.transfer(&listed.deposit));
    for wallet in [SELLER, BUYER, OPERATOR] {
        let theft = AssetTransfer {
            from: key(CUSTODY),
            to: key(BUYER_HOLDING),
            authority: Authority::Wallet { key: key(wallet) },
            amount: 1,
        };
        assert!(!ledger.transfer(&theft));
    }
    assert_eq!(ledger.units(CUSTODY), Some(1));
}

#[test]
fn ledger_refuses_a_sale_under_another_registry() {
    let mut ledger = ledger();
    let listed = list_nft(&listing_accounts(registry(250), &ledger), 1000).unwrap();
    assert!(ledger.open(&listed.custody));
    assert!(ledger.transfer(&listed.deposit));
    let other = Marketplace { admin: key(BUYER), fee_percentage: 0, total_listings: 1, bump: 255 };
    let purchase = buy_nft(&BuyNft {
        marketplace: other,
        listing: listed.listing,
        escrow_token_account: key(CUSTODY),
        buyer: key(BUYER),
        seller: key(SELLER),
        admin: key(BUYER),
        buyer_token_account: key(BUYER_HOLDING),
    })
    .unwrap();
    assert!(!ledger.transfer(&purchase.delivery));
    assert_eq!(ledger.units(CUSTODY), Some(1));
    assert_eq!(ledger.units(BUYER_HOLDING), Some(0));
}

#[test]
fn ledger_refuses_a_second_custody_for_a_listed_asset() {
    let mut ledger = ledger();
    let listed = list_nft(&listing_accounts(registry(250), &ledger), 1000).unwrap();
    assert!(ledger.open(&listed.custody));
    assert!(!ledger.open(&listed.custody));
}
