use marketplace::address::{find_escrow_address, find_listing_address, find_marketplace_address};
use marketplace::pubkey::Pubkey;
use marketplace::state::{Listing, Marketplace};
use marketplace::transfer::{AccountMeta, Authority, Payment};

fn key(tag: u8) -> Pubkey {
    Pubkey::new_from_array([tag; 32])
}

fn outside(key: &Pubkey) -> anchor_lang::prelude::Pubkey {
    anchor_lang::prelude::Pubkey::new_from_array(key.to_bytes())
}

#[test]
fn identities_compare_by_their_bytes() {
    let mut bytes = [7u8; 32];
    assert_eq!(Pubkey::new_from_array(bytes), key(7));
    bytes[31] = 8;
    assert_ne!(Pubkey::new_from_array(bytes), key(7));
    bytes[31] = 7;
    bytes[0] = 0;
    assert_ne!(Pubkey::new_from_array(bytes), key(7));
    assert_eq!(key(7).to_bytes(), [7u8; 32]);
}

#[test]
fn registry_address_is_the_one_the_runtime_derives() {
    let program = key(42);
    for tag in 0..40u8 {
        let admin = key(tag);
        let (address, bump) = find_marketplace_address(&program, &admin).unwrap();
        let (expected, expected_bump) = anchor_lang::prelude::Pubkey::find_program_address(
            &[b"marketplace", outside(&admin).as_ref()],
            &outside(&program),
        );
        assert_eq!(address.to_bytes(), expected.to_bytes());
        assert_eq!(bump, expected_bump);
        assert_ne!(address, admin);
        assert_ne!(address, program);
    }
}

#[test]
fn listing_address_is_the_one_the_runtime_derives() {
    let program = key(42);
    for tag in 0..40u8 {
        let asset = key(tag);
        let (address, bump) = find_listing_address(&program, &asset).unwrap();
        let (expected, expected_bump) = anchor_lang::prelude::Pubkey::find_program_address(
            &[b"listing", outside(&asset).as_ref()],
            &outside(&program),
        );
        assert_eq!(address.to_bytes(), expected.to_bytes());
        assert_eq!(bump, expected_bump);
    }
}

#[test]
fn escrow_address_is_the_one_the_runtime_derives() {
    let program = key(42);
    for tag in 0..40u8 {
        let asset = key(tag);
        let (address, bump) = find_escrow_address(&program, &asset).unwrap();
        let (expected, expected_bump) = anchor_lang::prelude::Pubkey::find_program_address(
            &[b"escrow", outside(&asset).as_ref()],
            &outside(&program),
        );
        assert_eq!(address.to_bytes(), expected.to_bytes());
        assert_eq!(bump, expected_bump);
    }
}

#[test]
fn addresses_of_different_kinds_and_programs_differ() {
    let asset = key(9);
    let listing = find_listing_address(&key(42), &asset).unwrap().0;
    let escrow = find_escrow_address(&key(42), &asset).unwrap().0;
    let registry = find_marketplace_address(&key(42), &asset).unwrap().0;
    assert_ne!(listing, escrow);
    assert_ne!(listing, registry);
    assert_ne!(escrow, registry);
    assert_ne!(find_listing_address(&key(43), &asset).unwrap().0, listing);
    assert_ne!(find_listing_address(&key(42), &key(10)).unwrap().0, listing);
}

#[test]
fn derivation_repeats() {
    let first = find_marketplace_address(&key(42), &key(1));
    let second = find_marketplace_address(&key(42), &key(1));
    assert_eq!(first, second);
}

#[test]
fn registry_rederives_its_address_from_the_stored_bump() {
    let program = key(42);
    let admin = key(1);
    let (address, bump) = find_marketplace_address(&program, &admin).unwrap();
    let registry = Marketplace { admin, fee_percentage: 250, total_listings: 0, bump };
    assert_eq!(registry.address(&program), Some(address));
    let expected = anchor_lang::prelude::Pubkey::create_program_address(
        &[b"marketplace", outside(&admin).as_ref(), &[bump]],
        &outside(&program),
    )
    .unwrap();
    assert_eq!(address.to_bytes(), expected.to_bytes());
}

#[test]
fn registry_with_another_bump_does_not_rederive_its_address() {
    let program = key(42);
    let admin = key(1);
    let (address, bump) = find_marketplace_address(&program, &admin).unwrap();
    for other in 0..=255u8 {
        if other != bump {
            let registry = Marketplace { admin, fee_percentage: 250, total_listings: 0, bump: other };
            assert_ne!(registry.address(&program), Some(address));
        }
    }
}

#[test]
fn listing_rederives_its_address_from_the_stored_bump() {
    let program = key(42);
    let asset = key(4);
    let (address, bump) = find_listing_address(&program, &asset).unwrap();
    let listing = Listing { seller: key(2), nft_mint: asset, price: 1, bump, is_active: true };
    assert_eq!(listing.address(&program), Some(address));
    let elsewhere = Listing { seller: key(2), nft_mint: key(5), price: 1, bump, is_active: true };
    assert_ne!(elsewhere.address(&program), Some(address));
}

#[test]
fn address_on_the_curve_is_refused() {
    // among all seed bytes some derive a point on the curve, for which no address exists
    let program = key(42);
    let admin = key(1);
    let mut refused = 0;
    for bump in 0..=255u8 {
        let registry = Marketplace { admin, fee_percentage: 0, total_listings: 0, bump };
        let expected = anchor_lang::prelude::Pubkey::create_program_address(
            &[b"marketplace", outside(&admin).as_ref(), &[bump]],
            &outside(&program),
        )
        .ok()
        .map(|address| address.to_bytes());
        let derived = registry.address(&program).map(|address| address.to_bytes());
        assert_eq!(derived, expected);
        if derived.is_none() {
            refused += 1;
        }
    }
    assert!(refused > 0);
    assert!(refused < 256);
}

#[test]
fn wallet_presents_no_seeds() {
    assert_eq!(Authority::Wallet { key: key(2) }.signer_seeds(), Vec::<Vec<u8>>::new());
}

#[test]
fn registry_presents_tag_operator_and_bump() {
    let seeds = Authority::Registry { admin: key(1), bump: 254 }.signer_seeds();
    assert_eq!(seeds, vec![b"marketplace".to_vec(), vec![1u8; 32], vec![254u8]]);
}

#[test]
fn registry_seeds_sign_for_the_registry_address() {
    let program = key(42);
    let admin = key(1);
    let (address, bump) = find_marketplace_address(&program, &admin).unwrap();
    let seeds = Authority::Registry { admin, bump }.signer_seeds();
    let slices: Vec<&[u8]> = seeds.iter().map(|seed| seed.as_slice()).collect();
    let signer =
        anchor_lang::prelude::Pubkey::create_program_address(&slices, &outside(&program)).unwrap();
    assert_eq!(signer.to_bytes(), address.to_bytes());
}

#[test]
fn payment_becomes_a_system_transfer() {
    let payment = Payment { from: key(3), to: key(2), amount: 975 };
    let instruction = payment.instruction();
    assert_eq!(
        instruction.program_id.to_bytes(),
        anchor_lang::solana_program::system_program::ID.to_bytes()
    );
    assert_eq!(
        instruction.accounts,
        vec![
            AccountMeta { pubkey: key(3), is_signer: true, is_writable: true },
            AccountMeta { pubkey: key(2), is_signer: false, is_writable: true },
        ]
    );
    // the transfer is the third instruction of the system program; the amount follows
    let mut data = vec![2u8, 0, 0, 0];
    data.extend_from_slice(&975u64.to_le_bytes());
    assert_eq!(instruction.data, data);
}

#[test]
#[allow(deprecated)]
fn payment_is_the_transfer_that_the_runtime_builds() {
    let amounts: [u64; 5] = [0, 1, 975, 1 << 40, u64::MAX];
    for amount in amounts {
        let instruction = Payment { from: key(3), to: key(2), amount }.instruction();
        let built = anchor_lang::solana_program::system_instruction::transfer(
            &outside(&key(3)),
            &outside(&key(2)),
            amount,
        );
        assert_eq!(instruction.program_id.to_bytes(), built.program_id.to_bytes());
        assert_eq!(instruction.data, built.data);
        assert_eq!(instruction.accounts.len(), built.accounts.len());
        for (meta, expected) in instruction.accounts.iter().zip(built.accounts.iter()) {
            assert_eq!(meta.pubkey.to_bytes(), expected.pubkey.to_bytes());
            assert_eq!(meta.is_signer, expected.is_signer);
            assert_eq!(meta.is_writable, expected.is_writable);
        }
    }
}

#[test]
fn payments_that_differ_become_different_transfers() {
    let payment = Payment { from: key(3), to: key(2), amount: 975 };
    assert_eq!(payment.instruction(), payment.instruction());
    assert_ne!(
        payment.instruction(),
        Payment { from: key(3), to: key(2), amount: 976 }.instruction()
    );
    assert_ne!(
        payment.instruction(),
        Payment { from: key(2), to: key(3), amount: 975 }.instruction()
    );
}
