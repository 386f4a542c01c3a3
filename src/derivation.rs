use vstd::prelude::*;

use crate::error::MetadataError;
use crate::identity::Identity;
use crate::state::{metadata_prefix, prefix_bytes};
use solana_program::pubkey::Pubkey;

verus! {

/// The program-derived address found for `seeds` under `program_id`, or
/// `None` when no bump seed gives an address off the curve.
pub uninterp spec fn program_address_of(seeds: Seq<Seq<u8>>, program_id: Seq<u8>) -> Option<Seq<u8>>;

/// Relies on `Pubkey::try_find_program_address`: a deterministic search,
/// from the seeds and the program id alone, for a program-derived address.
#[verifier::external_body]
fn find_program_address(seeds: &Vec<Vec<u8>>, program_id: &Identity) -> (r: Option<Identity>)
    ensures
        match r {
            Some(a) => program_address_of(seeds@.map_values(|s: Vec<u8>| s@), program_id.bytes@)
                == Some(a.bytes@),
            None => program_address_of(seeds@.map_values(|s: Vec<u8>| s@), program_id.bytes@)
                is None,
        },
{
    let slices: Vec<&[u8]> = seeds.iter().map(|s| s.as_slice()).collect();
    Pubkey::try_find_program_address(&slices, &Pubkey::new_from_array(program_id.bytes))
        .map(|(a, _bump)| Identity { bytes: a.to_bytes() })
}

/// The seeds of a record address: the prefix, the program id and the mint.
pub open spec fn metadata_seeds(program_id: Identity, mint: Identity) -> Seq<Seq<u8>> {
    seq![prefix_bytes(), program_id.bytes@, mint.bytes@]
}

/// The record address that belongs to `mint` under `program_id`, if any.
pub open spec fn derived_metadata_address(program_id: Identity, mint: Identity) -> Option<Seq<u8>> {
    program_address_of(metadata_seeds(program_id, mint), program_id.bytes@)
}

pub fn identity_bytes(id: &Identity) -> (r: Vec<u8>)
    ensures
        r@ == id.bytes@,
{
    let mut r: Vec<u8> = Vec::new();
    let mut i: usize = 0;
    while i < 32
        invariant
            0 <= i <= 32,
            r@ == id.bytes@.subrange(0, i as int),
        decreases 32 - i,
    {
        r.push(id.bytes[i]);
        assert(r@ =~= id.bytes@.subrange(0, i + 1));
        i += 1;
    }
    assert(r@ =~= id.bytes@);
    r
}

/// Computes the record address that belongs to `mint` under `program_id`.
pub fn find_metadata_address(program_id: &Identity, mint: &Identity) -> (r: Option<Identity>)
    ensures
        match r {
            Some(a) => derived_metadata_address(*program_id, *mint) == Some(a.bytes@),
            None => derived_metadata_address(*program_id, *mint) is None,
        },
{
    let mut seeds: Vec<Vec<u8>> = Vec::new();
    seeds.push(metadata_prefix());
    seeds.push(identity_bytes(program_id));
    seeds.push(identity_bytes(mint));
    assert(seeds@.map_values(|s: Vec<u8>| s@) =~= metadata_seeds(*program_id, *mint));
    find_program_address(&seeds, program_id)
}

/// Checks that `address` is the derived address in `derived`.
pub fn check_derivation(derived: Option<Identity>, address: &Identity) -> (r: Result<(), MetadataError>)
    ensures
        r is Ok <==> (derived is Some && derived->0 == *address),
        r is Err ==> r == Err::<(), MetadataError>(MetadataError::AddressDerivationMismatch),
{
    match derived {
        Some(a) => {
            if a.same_as(address) {
                Ok(())
            } else {
                Err(MetadataError::AddressDerivationMismatch)
            }
        },
        None => Err(MetadataError::AddressDerivationMismatch),
    }
}

} // verus!
