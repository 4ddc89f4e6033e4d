//! Derived addresses: where the records and the custody of the marketplace live.
//!
//! An address is derived from a domain tag, an identity and the marketplace program's own
//! identity. It is chosen so that no private key exists for it. The same seed material
//! always derives the same address, which is how a record is found without an index, and
//! presenting the seed material is the only way to act under such an address.

use vstd::prelude::*;
use crate::pubkey::Pubkey;
use crate::state::{Listing, Marketplace};
use crate::transfer::Authority;

verus! {

/// The result of the runtime's search for an address derived from `seeds` under
/// `program_id`: the address and the seed byte that completes the seeds, if any is found.
pub uninterp spec fn found_program_address(seeds: Seq<Seq<u8>>, program_id: Seq<u8>) -> Option<
    (Seq<u8>, u8),
>;

/// The address that the runtime derives from exactly `seeds` under `program_id`, if these
/// seeds derive one.
pub uninterp spec fn created_program_address(seeds: Seq<Seq<u8>>, program_id: Seq<u8>) -> Option<
    Seq<u8>,
>;

/// Calls `Pubkey::try_find_program_address`. The contract claims that the result is a
/// function of the seeds and the program identity, and that an address found together with
/// a seed byte is the address derived from the seeds with that byte appended as a last seed:
/// the search returns what its first successful derivation of that form returned.
#[verifier::external_body]
fn try_find_program_address(seeds: &Vec<Vec<u8>>, program_id: &Pubkey) -> (found: Option<
    (Pubkey, u8),
>)
    ensures
        match found {
            Some((key, bump)) => {
                &&& found_program_address(seeds.deep_view(), program_id@) == Some((key@, bump))
                &&& created_program_address(seeds.deep_view().push(seq![bump]), program_id@)
                    == Some(key@)
            },
            None => found_program_address(seeds.deep_view(), program_id@) is None,
        },
{
    let slices: Vec<&[u8]> = seeds.iter().map(|seed| seed.as_slice()).collect();
    let id = anchor_lang::prelude::Pubkey::new_from_array(program_id.bytes);
    anchor_lang::prelude::Pubkey::try_find_program_address(&slices, &id).map(
        |(key, bump)| (Pubkey { bytes: key.to_bytes() }, bump),
    )
}

/// Calls `Pubkey::create_program_address`. The contract claims only that the result is a
/// function of the seeds and the program identity; a refusal by the runtime comes back as
/// `None`.
#[verifier::external_body]
fn create_program_address(seeds: &Vec<Vec<u8>>, program_id: &Pubkey) -> (created: Option<Pubkey>)
    ensures
        match created {
            Some(key) => created_program_address(seeds.deep_view(), program_id@) == Some(key@),
            None => created_program_address(seeds.deep_view(), program_id@) is None,
        },
{
    let slices: Vec<&[u8]> = seeds.iter().map(|seed| seed.as_slice()).collect();
    let id = anchor_lang::prelude::Pubkey::new_from_array(program_id.bytes);
    anchor_lang::prelude::Pubkey::create_program_address(&slices, &id).ok().map(
        |key| Pubkey { bytes: key.to_bytes() },
    )
}

/// The domain tag of registries: the bytes of the word "marketplace".
pub open spec fn marketplace_tag() -> Seq<u8> {
    seq![109u8, 97u8, 114u8, 107u8, 101u8, 116u8, 112u8, 108u8, 97u8, 99u8, 101u8]
}

/// The domain tag of listings: the bytes of the word "listing".
pub open spec fn listing_tag() -> Seq<u8> {
    seq![108u8, 105u8, 115u8, 116u8, 105u8, 110u8, 103u8]
}

/// The domain tag of custody holdings: the bytes of the word "escrow".
pub open spec fn escrow_tag() -> Seq<u8> {
    seq![101u8, 115u8, 99u8, 114u8, 111u8, 119u8]
}

/// The seeds of the registry of operator `admin`.
pub open spec fn marketplace_seeds(admin: Pubkey) -> Seq<Seq<u8>> {
    seq![marketplace_tag(), admin@]
}

/// The seeds of the listing of asset `nft_mint`.
pub open spec fn listing_seeds(nft_mint: Pubkey) -> Seq<Seq<u8>> {
    seq![listing_tag(), nft_mint@]
}

/// The seeds of the custody holding of asset `nft_mint`.
pub open spec fn escrow_seeds(nft_mint: Pubkey) -> Seq<Seq<u8>> {
    seq![escrow_tag(), nft_mint@]
}

/// The seed material that an authority presents in order to sign: none for a wallet, which
/// signs with its key; for the registry its seeds completed by the stored seed byte.
pub open spec fn signer_seeds_of(authority: Authority) -> Seq<Seq<u8>> {
    match authority {
        Authority::Wallet { key } => Seq::empty(),
        Authority::Registry { admin, bump } => marketplace_seeds(admin).push(seq![bump]),
    }
}

/// The bytes of an identity, as a seed.
fn key_seed(key: &Pubkey) -> (seed: Vec<u8>)
    ensures
        seed@ == key@,
{
    let mut seed: Vec<u8> = Vec::new();
    let mut i: usize = 0;
    while i < 32
        invariant
            i <= 32,
            seed@.len() == i,
            forall|j: int| 0 <= j < i ==> seed@[j] == key.bytes@[j],
        decreases 32 - i,
    {
        seed.push(key.bytes[i]);
        i = i + 1;
    }
    assert(seed@ =~= key@);
    seed
}

/// A domain tag followed by an identity.
fn tagged_seeds(tag: Vec<u8>, key: &Pubkey) -> (seeds: Vec<Vec<u8>>)
    ensures
        seeds.deep_view() == seq![tag@, key@],
{
    let ghost tag_bytes = tag@;
    let mut seeds: Vec<Vec<u8>> = Vec::new();
    seeds.push(tag);
    seeds.push(key_seed(key));
    assert(seeds.deep_view() =~~= seq![tag_bytes, key@]);
    seeds
}

/// The domain tag of registries.
fn marketplace_tag_bytes() -> (tag: Vec<u8>)
    ensures
        tag@ == marketplace_tag(),
{
    let tag: Vec<u8> = vec![109u8, 97u8, 114u8, 107u8, 101u8, 116u8, 112u8, 108u8, 97u8, 99u8, 101u8];
    assert(tag@ =~= marketplace_tag());
    tag
}

/// The domain tag of listings.
fn listing_tag_bytes() -> (tag: Vec<u8>)
    ensures
        tag@ == listing_tag(),
{
    let tag: Vec<u8> = vec![108u8, 105u8, 115u8, 116u8, 105u8, 110u8, 103u8];
    assert(tag@ =~= listing_tag());
    tag
}

/// The domain tag of custody holdings.
fn escrow_tag_bytes() -> (tag: Vec<u8>)
    ensures
        tag@ == escrow_tag(),
{
    let tag: Vec<u8> = vec![101u8, 115u8, 99u8, 114u8, 111u8, 119u8];
    assert(tag@ =~= escrow_tag());
    tag
}

/// Searches the address of the registry of operator `admin`, and the seed byte to store in
/// the registry. With that byte the registry's signer seeds derive the address found.
pub fn find_marketplace_address(program_id: &Pubkey, admin: &Pubkey) -> (found: Option<
    (Pubkey, u8),
>)
    ensures
        match found {
            Some((key, bump)) => {
                &&& found_program_address(marketplace_seeds(*admin), program_id@) == Some(
                    (key@, bump),
                )
                &&& created_program_address(
                    signer_seeds_of(Authority::Registry { admin: *admin, bump }),
                    program_id@,
                ) == Some(key@)
            },
            None => found_program_address(marketplace_seeds(*admin), program_id@) is None,
        },
{
    let seeds = tagged_seeds(marketplace_tag_bytes(), admin);
    try_find_program_address(&seeds, program_id)
}

/// Searches the address of the listing of asset `nft_mint`, and the seed byte to store in
/// the listing.
pub fn find_listing_address(program_id: &Pubkey, nft_mint: &Pubkey) -> (found: Option<
    (Pubkey, u8),
>)
    ensures
        match found {
            Some((key, bump)) => {
                &&& found_program_address(listing_seeds(*nft_mint), program_id@) == Some(
                    (key@, bump),
                )
                &&& created_program_address(listing_seeds(*nft_mint).push(seq![bump]), program_id@)
                    == Some(key@)
            },
            None => found_program_address(listing_seeds(*nft_mint), program_id@) is None,
        },
{
    let seeds = tagged_seeds(listing_tag_bytes(), nft_mint);
    try_find_program_address(&seeds, program_id)
}

/// Searches the address of the custody holding of asset `nft_mint`.
pub fn find_escrow_address(program_id: &Pubkey, nft_mint: &Pubkey) -> (found: Option<
    (Pubkey, u8),
>)
    ensures
        match found {
            Some((key, bump)) => {
                &&& found_program_address(escrow_seeds(*nft_mint), program_id@) == Some(
                    (key@, bump),
                )
                &&& created_program_address(escrow_seeds(*nft_mint).push(seq![bump]), program_id@)
                    == Some(key@)
            },
            None => found_program_address(escrow_seeds(*nft_mint), program_id@) is None,
        },
{
    let seeds = tagged_seeds(escrow_tag_bytes(), nft_mint);
    try_find_program_address(&seeds, program_id)
}

impl Authority {
    /// The seed material that this authority presents in order to sign.
    pub fn signer_seeds(&self) -> (seeds: Vec<Vec<u8>>)
        ensures
            seeds.deep_view() == signer_seeds_of(*self),
    {
        match self {
            Authority::Wallet { key } => {
                let seeds: Vec<Vec<u8>> = Vec::new();
                assert(seeds.deep_view() =~~= signer_seeds_of(*self));
                seeds
            },
            Authority::Registry { admin, bump } => {
                let mut seeds = tagged_seeds(marketplace_tag_bytes(), admin);
                let ghost before = seeds.deep_view();
                let last: Vec<u8> = vec![*bump];
                assert(last@ =~= seq![*bump]);
                seeds.push(last);
                assert(seeds.deep_view() =~~= before.push(seq![*bump]));
                seeds
            },
        }
    }
}

impl Marketplace {
    /// Re-derives the registry's own address from its operator and its stored seed byte.
    pub fn address(&self, program_id: &Pubkey) -> (address: Option<Pubkey>)
        ensures
            match address {
                Some(key) => created_program_address(
                    signer_seeds_of(Authority::Registry { admin: self.admin, bump: self.bump }),
                    program_id@,
                ) == Some(key@),
                None => created_program_address(
                    signer_seeds_of(Authority::Registry { admin: self.admin, bump: self.bump }),
                    program_id@,
                ) is None,
            },
    {
        let authority = Authority::Registry { admin: self.admin, bump: self.bump };
        let seeds = authority.signer_seeds();
        create_program_address(&seeds, program_id)
    }
}

impl Listing {
    /// Re-derives the listing's own address from its asset and its stored seed byte.
    pub fn address(&self, program_id: &Pubkey) -> (address: Option<Pubkey>)
        ensures
            match address {
                Some(key) => created_program_address(
                    listing_seeds(self.nft_mint).push(seq![self.bump]),
                    program_id@,
                ) == Some(key@),
                None => created_program_address(
                    listing_seeds(self.nft_mint).push(seq![self.bump]),
                    program_id@,
                ) is None,
            },
    {
        let mut seeds = tagged_seeds(listing_tag_bytes(), &self.nft_mint);
        let ghost before = seeds.deep_view();
        let last: Vec<u8> = vec![self.bump];
        assert(last@ =~= seq![self.bump]);
        seeds.push(last);
        assert(seeds.deep_view() =~~= before.push(seq![self.bump]));
        create_program_address(&seeds, program_id)
    }
}

/// The same seed material always derives the same address: whatever is derived from one
/// set of seeds under one program is one address, and whatever is found for them is one
/// address with one seed byte.
pub proof fn lemma_same_seeds_same_address(
    seeds: Seq<Seq<u8>>,
    program_id: Pubkey,
    first: Pubkey,
    second: Pubkey,
    first_bump: u8,
    second_bump: u8,
)
    ensures
        created_program_address(seeds, program_id@) == Some(first@) && created_program_address(
            seeds,
            program_id@,
        ) == Some(second@) ==> first == second,
        found_program_address(seeds, program_id@) == Some((first@, first_bump))
            && found_program_address(seeds, program_id@) == Some((second@, second_bump)) ==> first
            == second && first_bump == second_bump,
{
    Pubkey::lemma_view_injective(first, second);
}

} // verus!
