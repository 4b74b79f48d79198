//! Addresses derived from the program's identity, which the program alone can
//! sign for.

use vstd::prelude::*;
use crate::address::Address;
use anchor_lang::solana_program::pubkey::Pubkey;

verus! {

/// The seed that, with the asset's address, places an asset's metadata record:
/// the bytes of `extra-account-metas`.
pub open spec fn metadata_seed() -> Seq<u8> {
    seq![
        101u8, 120u8, 116u8, 114u8, 97u8, 45u8, 97u8, 99u8, 99u8, 111u8, 117u8, 110u8, 116u8,
        45u8, 109u8, 101u8, 116u8, 97u8, 115u8,
    ]
}

/// The address derived from the seeds `seed` and `key` under `program_id`, with
/// the bump seed that completes the derivation, or `None` where no bump seed
/// gives an address off the curve.
pub uninterp spec fn program_address_of(seed: Seq<u8>, key: Seq<u8>, program_id: Seq<u8>) -> Option<(Seq<u8>, u8)>;

/// A derivation's result as bytes and bump seed.
pub open spec fn derived_view(r: Option<(Address, u8)>) -> Option<(Seq<u8>, u8)> {
    match r {
        Some((a, bump)) => Some((a.bytes@, bump)),
        None => None,
    }
}

/// Where the metadata record of the asset `mint` lives under `program_id`.
pub open spec fn metadata_address_for(mint: Seq<u8>, program_id: Seq<u8>) -> Option<(Seq<u8>, u8)> {
    program_address_of(metadata_seed(), mint, program_id)
}

/// Relies on `Pubkey::try_find_program_address` of solana-program with the seeds
/// `seed` and `key`: a search over bump seeds from 255 down whose result depends
/// on its arguments alone.
#[verifier::external_body]
fn find_program_address(seed: &Vec<u8>, key: &Address, program_id: &Address) -> (r: Option<(Address, u8)>)
    ensures
        derived_view(r) == program_address_of(seed@, key.bytes@, program_id.bytes@),
{
    let program = Pubkey::new_from_array(program_id.bytes);
    Pubkey::try_find_program_address(&[seed.as_slice(), &key.bytes[..]], &program)
        .map(|(a, bump)| (Address { bytes: a.to_bytes() }, bump))
}

/// The seed of the metadata record as bytes.
pub fn metadata_seed_bytes() -> (r: Vec<u8>)
    ensures
        r@ == metadata_seed(),
{
    let r: Vec<u8> = vec![
        101u8, 120u8, 116u8, 114u8, 97u8, 45u8, 97u8, 99u8, 99u8, 111u8, 117u8, 110u8, 116u8,
        45u8, 109u8, 101u8, 116u8, 97u8, 115u8,
    ];
    assert(r@ =~= metadata_seed());
    r
}

/// Derives the address of the metadata record of the asset `mint`, with its
/// bump seed.
pub fn find_metadata_address(mint: &Address, program_id: &Address) -> (r: Option<(Address, u8)>)
    ensures
        derived_view(r) == metadata_address_for(mint.bytes@, program_id.bytes@),
{
    let seed = metadata_seed_bytes();
    find_program_address(&seed, mint, program_id)
}

} // verus!
