use anchor_lang::prelude::Pubkey;
use anchor_lang::solana_program::pubkey::PubkeyError;
use vstd::bytes::{spec_u64_to_le_bytes, u64_to_le_bytes};
use vstd::prelude::*;

use crate::key::{metadata_program_id, metadata_program_key, program_id, program_key, Key};

verus! {

#[verifier::external_type_specification]
#[verifier::external_body]
pub struct ExPubkeyError(PubkeyError);

/// What `Pubkey::create_program_address` yields for these seeds under this
/// program: the address, or nothing where the seeds hash to a curve point or
/// break the seed limits.
pub uninterp spec fn derived_address(seeds: Seq<Seq<u8>>, program: Seq<u8>) -> Option<Seq<u8>>;

pub open spec fn seeds_view(seeds: Seq<Vec<u8>>) -> Seq<Seq<u8>> {
    seeds.map_values(|s: Vec<u8>| s@)
}

/// A bump is valid when the seeds followed by that one byte derive an address.
pub open spec fn bump_is_valid(seeds: Seq<Seq<u8>>, program: Seq<u8>, bump: u8) -> bool {
    derived_address(seeds.push(seq![bump]), program) is Some
}

/// The canonical bump is the greatest valid one, searched from 255 down to 1.
pub open spec fn is_canonical_bump(seeds: Seq<Seq<u8>>, program: Seq<u8>, bump: u8) -> bool {
    &&& 1 <= bump
    &&& bump_is_valid(seeds, program, bump)
    &&& forall|c: u8| bump < c ==> !bump_is_valid(seeds, program, c)
}

/// The canonical derived address of the seeds and its bump, if there is one.
pub open spec fn canonical_address(seeds: Seq<Seq<u8>>, program: Seq<u8>) -> Option<(Seq<u8>, u8)> {
    if exists|b: u8| is_canonical_bump(seeds, program, b) {
        let b = choose|b: u8| is_canonical_bump(seeds, program, b);
        Some((derived_address(seeds.push(seq![b]), program)->0, b))
    } else {
        None
    }
}

pub open spec fn found_view(r: Option<(Key, u8)>) -> Option<(Seq<u8>, u8)> {
    match r {
        Some((k, b)) => Some((k@, b)),
        None => None,
    }
}

/// Relies on `Pubkey::create_program_address`: an address for exactly the
/// given seeds, or an error.
#[verifier::external_body]
fn create_program_address(seeds: &Vec<Vec<u8>>, program: &Key) -> (r: Result<Key, PubkeyError>)
    ensures
        match r {
            Ok(k) => derived_address(seeds_view(seeds@), program@) == Some(k@),
            Err(_) => derived_address(seeds_view(seeds@), program@) is None,
        },
{
    let refs: Vec<&[u8]> = seeds.iter().map(|s| s.as_slice()).collect();
    Pubkey::create_program_address(&refs, &Pubkey::new_from_array(program.bytes)).map(
        |p| Key { bytes: p.to_bytes() },
    )
}

/// Relies on `Pubkey::try_find_program_address`: it tries the bumps from 255
/// down to 1 with `create_program_address` and returns the first address
/// found with its bump, or nothing.
#[verifier::external_body]
fn try_find_program_address(seeds: &Vec<Vec<u8>>, program: &Key) -> (r: Option<(Key, u8)>)
    ensures
        found_view(r) == canonical_address(seeds_view(seeds@), program@),
{
    let refs: Vec<&[u8]> = seeds.iter().map(|s| s.as_slice()).collect();
    Pubkey::try_find_program_address(&refs, &Pubkey::new_from_array(program.bytes)).map(
        |(p, b)| (Key { bytes: p.to_bytes() }, b),
    )
}

/// The seed `"auction_house"`.
pub open spec fn house_prefix() -> Seq<u8> {
    seq![97u8, 117u8, 99u8, 116u8, 105u8, 111u8, 110u8, 95u8, 104u8, 111u8, 117u8, 115u8, 101u8]
}

fn house_prefix_vec() -> (r: Vec<u8>)
    ensures
        r@ == house_prefix(),
{
    let r = vec![97u8, 117u8, 99u8, 116u8, 105u8, 111u8, 110u8, 95u8, 104u8, 111u8, 117u8, 115u8, 101u8];
    proof {
        assert(r@ =~= house_prefix());
    }
    r
}

/// The seed `"fee_payer"`.
pub open spec fn fee_payer_tag() -> Seq<u8> {
    seq![102u8, 101u8, 101u8, 95u8, 112u8, 97u8, 121u8, 101u8, 114u8]
}

fn fee_payer_tag_vec() -> (r: Vec<u8>)
    ensures
        r@ == fee_payer_tag(),
{
    let r = vec![102u8, 101u8, 101u8, 95u8, 112u8, 97u8, 121u8, 101u8, 114u8];
    proof {
        assert(r@ =~= fee_payer_tag());
    }
    r
}

/// The seed `"treasury"`.
pub open spec fn treasury_tag() -> Seq<u8> {
    seq![116u8, 114u8, 101u8, 97u8, 115u8, 117u8, 114u8, 121u8]
}

fn treasury_tag_vec() -> (r: Vec<u8>)
    ensures
        r@ == treasury_tag(),
{
    let r = vec![116u8, 114u8, 101u8, 97u8, 115u8, 117u8, 114u8, 121u8];
    proof {
        assert(r@ =~= treasury_tag());
    }
    r
}

/// The seed `"signer"`.
pub open spec fn signer_tag() -> Seq<u8> {
    seq![115u8, 105u8, 103u8, 110u8, 101u8, 114u8]
}

fn signer_tag_vec() -> (r: Vec<u8>)
    ensures
        r@ == signer_tag(),
{
    let r = vec![115u8, 105u8, 103u8, 110u8, 101u8, 114u8];
    proof {
        assert(r@ =~= signer_tag());
    }
    r
}

/// The seed `"metadata"`.
pub open spec fn metadata_tag() -> Seq<u8> {
    seq![109u8, 101u8, 116u8, 97u8, 100u8, 97u8, 116u8, 97u8]
}

fn metadata_tag_vec() -> (r: Vec<u8>)
    ensures
        r@ == metadata_tag(),
{
    let r = vec![109u8, 101u8, 116u8, 97u8, 100u8, 97u8, 116u8, 97u8];
    proof {
        assert(r@ =~= metadata_tag());
    }
    r
}

/// The seed `"auctioneer"`.
pub open spec fn auctioneer_tag() -> Seq<u8> {
    seq![97u8, 117u8, 99u8, 116u8, 105u8, 111u8, 110u8, 101u8, 101u8, 114u8]
}

fn auctioneer_tag_vec() -> (r: Vec<u8>)
    ensures
        r@ == auctioneer_tag(),
{
    let r = vec![97u8, 117u8, 99u8, 116u8, 105u8, 111u8, 110u8, 101u8, 101u8, 114u8];
    proof {
        assert(r@ =~= auctioneer_tag());
    }
    r
}

// Each derivation below yields the canonical address and bump of its seeds,
// or nothing in the improbable case that no bump from 255 down to 1 derives
// one.

pub open spec fn signer_seeds() -> Seq<Seq<u8>> {
    seq![house_prefix(), signer_tag()]
}

pub open spec fn house_seeds(authority: Seq<u8>, treasury_mint: Seq<u8>) -> Seq<Seq<u8>> {
    seq![house_prefix(), authority, treasury_mint]
}

pub open spec fn fee_account_seeds(house: Seq<u8>) -> Seq<Seq<u8>> {
    seq![house_prefix(), house, fee_payer_tag()]
}

pub open spec fn treasury_seeds(house: Seq<u8>) -> Seq<Seq<u8>> {
    seq![house_prefix(), house, treasury_tag()]
}

pub open spec fn escrow_seeds(house: Seq<u8>, wallet: Seq<u8>) -> Seq<Seq<u8>> {
    seq![house_prefix(), house, wallet]
}

pub open spec fn auctioneer_seeds(house: Seq<u8>, authority: Seq<u8>) -> Seq<Seq<u8>> {
    seq![auctioneer_tag(), house, authority]
}

/// Seeds of a trade state bound to one token account.
pub open spec fn trade_state_seeds(
    wallet: Seq<u8>,
    house: Seq<u8>,
    token_account: Seq<u8>,
    treasury_mint: Seq<u8>,
    token_mint: Seq<u8>,
    price: u64,
    token_size: u64,
) -> Seq<Seq<u8>> {
    seq![
        house_prefix(),
        wallet,
        house,
        token_account,
        treasury_mint,
        token_mint,
        spec_u64_to_le_bytes(price),
        spec_u64_to_le_bytes(token_size),
    ]
}

/// Seeds of a trade state that names no token account.
pub open spec fn public_trade_state_seeds(
    wallet: Seq<u8>,
    house: Seq<u8>,
    treasury_mint: Seq<u8>,
    token_mint: Seq<u8>,
    price: u64,
    token_size: u64,
) -> Seq<Seq<u8>> {
    seq![
        house_prefix(),
        wallet,
        house,
        treasury_mint,
        token_mint,
        spec_u64_to_le_bytes(price),
        spec_u64_to_le_bytes(token_size),
    ]
}

/// Seeds of the listing a delegated seller makes: the public seeds with the
/// price left at the largest `u64`, to be settled by the policy module.
pub open spec fn auctioneer_trade_state_seeds(
    wallet: Seq<u8>,
    house: Seq<u8>,
    treasury_mint: Seq<u8>,
    token_mint: Seq<u8>,
    token_size: u64,
) -> Seq<Seq<u8>> {
    public_trade_state_seeds(wallet, house, treasury_mint, token_mint, u64::MAX, token_size)
}

/// Seeds of a mint's metadata account under the token-metadata program.
pub open spec fn metadata_seeds(mint: Seq<u8>) -> Seq<Seq<u8>> {
    seq![metadata_tag(), metadata_program_id(), mint]
}

/// The program's signing authority over delegated token accounts.
pub fn find_program_as_signer_address() -> (r: Option<(Key, u8)>)
    ensures
        found_view(r) == canonical_address(signer_seeds(), program_id()),
{
    let mut seeds: Vec<Vec<u8>> = Vec::new();
    seeds.push(house_prefix_vec());
    seeds.push(signer_tag_vec());
    proof {
        assert(seeds_view(seeds@) =~= signer_seeds());
    }
    try_find_program_address(&seeds, &program_key())
}

pub(crate) fn trade_state_seed_vecs(
    wallet: &Key,
    auction_house: &Key,
    token_account: Option<&Key>,
    treasury_mint: &Key,
    token_mint: &Key,
    price: u64,
    token_size: u64,
) -> (r: Vec<Vec<u8>>)
    ensures
        seeds_view(r@) == match token_account {
            Some(t) => trade_state_seeds(
                wallet@,
                auction_house@,
                t@,
                treasury_mint@,
                token_mint@,
                price,
                token_size,
            ),
            None => public_trade_state_seeds(
                wallet@,
                auction_house@,
                treasury_mint@,
                token_mint@,
                price,
                token_size,
            ),
        },
{
    let mut seeds: Vec<Vec<u8>> = Vec::new();
    seeds.push(house_prefix_vec());
    seeds.push(wallet.to_vec());
    seeds.push(auction_house.to_vec());
    match token_account {
        Some(t) => seeds.push(t.to_vec()),
        None => {},
    }
    seeds.push(treasury_mint.to_vec());
    seeds.push(token_mint.to_vec());
    seeds.push(u64_to_le_bytes(price));
    seeds.push(u64_to_le_bytes(token_size));
    proof {
        match token_account {
            Some(t) => assert(seeds_view(seeds@) =~= trade_state_seeds(
                wallet@,
                auction_house@,
                t@,
                treasury_mint@,
                token_mint@,
                price,
                token_size,
            )),
            None => assert(seeds_view(seeds@) =~= public_trade_state_seeds(
                wallet@,
                auction_house@,
                treasury_mint@,
                token_mint@,
                price,
                token_size,
            )),
        }
    }
    seeds
}

/// The trade state of a bid or listing bound to one token account at one
/// price and size.
pub fn find_trade_state_address(
    wallet: &Key,
    auction_house: &Key,
    token_account: &Key,
    treasury_mint: &Key,
    token_mint: &Key,
    price: u64,
    token_size: u64,
) -> (r: Option<(Key, u8)>)
    ensures
        found_view(r) == canonical_address(
            trade_state_seeds(
                wallet@,
                auction_house@,
                token_account@,
                treasury_mint@,
                token_mint@,
                price,
                token_size,
            ),
            program_id(),
        ),
{
    let seeds = trade_state_seed_vecs(
        wallet,
        auction_house,
        Some(token_account),
        treasury_mint,
        token_mint,
        price,
        token_size,
    );
    try_find_program_address(&seeds, &program_key())
}

/// The trade state of a bid at one price and size that names no token account.
pub fn find_public_trade_state_address(
    wallet: &Key,
    auction_house: &Key,
    treasury_mint: &Key,
    token_mint: &Key,
    price: u64,
    token_size: u64,
) -> (r: Option<(Key, u8)>)
    ensures
        found_view(r) == canonical_address(
            public_trade_state_seeds(
                wallet@,
                auction_house@,
                treasury_mint@,
                token_mint@,
                price,
                token_size,
            ),
            program_id(),
        ),
{
    let seeds = trade_state_seed_vecs(
        wallet,
        auction_house,
        None,
        treasury_mint,
        token_mint,
        price,
        token_size,
    );
    try_find_program_address(&seeds, &program_key())
}

/// The trade state of a delegated listing, whose price is left open.
pub fn find_auctioneer_trade_state_address(
    wallet: &Key,
    auction_house: &Key,
    treasury_mint: &Key,
    token_mint: &Key,
    token_size: u64,
) -> (r: Option<(Key, u8)>)
    ensures
        found_view(r) == canonical_address(
            auctioneer_trade_state_seeds(wallet@, auction_house@, treasury_mint@, token_mint@, token_size),
            program_id(),
        ),
{
    find_public_trade_state_address(wallet, auction_house, treasury_mint, token_mint, u64::MAX, token_size)
}

/// The three-seed derivations share one shape.
fn find_with_three_seeds(first: Vec<u8>, second: Vec<u8>, third: Vec<u8>) -> (r: Option<(Key, u8)>)
    ensures
        found_view(r) == canonical_address(seq![first@, second@, third@], program_id()),
{
    find_three_seeds_under(first, second, third, &program_key())
}

fn find_three_seeds_under(first: Vec<u8>, second: Vec<u8>, third: Vec<u8>, program: &Key) -> (r: Option<(Key, u8)>)
    ensures
        found_view(r) == canonical_address(seq![first@, second@, third@], program@),
{
    let ghost expected = seq![first@, second@, third@];
    let mut seeds: Vec<Vec<u8>> = Vec::new();
    seeds.push(first);
    seeds.push(second);
    seeds.push(third);
    proof {
        assert(seeds_view(seeds@) =~= expected);
    }
    try_find_program_address(&seeds, program)
}

/// The instance address of an operator and payment-asset mint.
pub fn find_auction_house_address(authority: &Key, mint_address: &Key) -> (r: Option<(Key, u8)>)
    ensures
        found_view(r) == canonical_address(house_seeds(authority@, mint_address@), program_id()),
{
    find_with_three_seeds(house_prefix_vec(), authority.to_vec(), mint_address.to_vec())
}

/// The account that collects an instance's fees.
pub fn find_auction_house_fee_account_address(auction_house_address: &Key) -> (r: Option<(Key, u8)>)
    ensures
        found_view(r) == canonical_address(fee_account_seeds(auction_house_address@), program_id()),
{
    find_with_three_seeds(house_prefix_vec(), auction_house_address.to_vec(), fee_payer_tag_vec())
}

/// The treasury of an instance.
pub fn find_auction_house_treasury_address(auction_house_address: &Key) -> (r: Option<(Key, u8)>)
    ensures
        found_view(r) == canonical_address(treasury_seeds(auction_house_address@), program_id()),
{
    find_with_three_seeds(house_prefix_vec(), auction_house_address.to_vec(), treasury_tag_vec())
}

/// The escrow of one wallet under one instance.
pub fn find_escrow_payment_account_address(auction_house: &Key, wallet: &Key) -> (r: Option<(Key, u8)>)
    ensures
        found_view(r) == canonical_address(escrow_seeds(auction_house@, wallet@), program_id()),
{
    find_with_three_seeds(house_prefix_vec(), auction_house.to_vec(), wallet.to_vec())
}

/// The delegation record that binds a policy authority to an instance.
pub fn find_auctioneer_address(auction_house: &Key, auctioneer_authority: &Key) -> (r: Option<(Key, u8)>)
    ensures
        found_view(r) == canonical_address(
            auctioneer_seeds(auction_house@, auctioneer_authority@),
            program_id(),
        ),
{
    find_with_three_seeds(auctioneer_tag_vec(), auction_house.to_vec(), auctioneer_authority.to_vec())
}

/// The metadata account of a mint, derived under the token-metadata program.
pub fn find_metadata_account(mint: &Key) -> (r: Option<(Key, u8)>)
    ensures
        found_view(r) == canonical_address(metadata_seeds(mint@), metadata_program_id()),
{
    let program = metadata_program_key();
    find_three_seeds_under(metadata_tag_vec(), program.to_vec(), mint.to_vec(), &program)
}

/// Whether the seeds followed by `bump` derive exactly `address`.
pub fn derivation_matches(seeds: Vec<Vec<u8>>, bump: u8, address: &Key) -> (r: bool)
    ensures
        r == (derived_address(seeds_view(seeds@).push(seq![bump]), program_id()) == Some(address@)),
{
    let mut with_bump = seeds;
    let tail = vec![bump];
    proof {
        assert(tail@ =~= seq![bump]);
    }
    with_bump.push(tail);
    proof {
        assert(seeds_view(with_bump@) =~= seeds_view(seeds@).push(seq![bump]));
    }
    match create_program_address(&with_bump, &program_key()) {
        Ok(k) => k.equals(address),
        Err(_) => false,
    }
}

} // verus!
