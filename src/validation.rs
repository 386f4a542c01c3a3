use vstd::prelude::*;

use crate::error::MetadataError;
use crate::identity::Identity;
use crate::state::{
    creators_view, Creator, Data, DataView, MAX_CREATOR_LIMIT, MAX_NAME_LENGTH, MAX_SELLER_FEE_BASIS_POINTS,
    MAX_SYMBOL_LENGTH, MAX_URI_LENGTH, TOTAL_CREATOR_SHARE,
};

verus! {

/// Sum of the creators' shares.
pub open spec fn share_total(cs: Seq<Creator>) -> nat
    decreases cs.len(),
{
    if cs.len() == 0 {
        0
    } else {
        share_total(cs.drop_last()) + cs.last().share as nat
    }
}

pub open spec fn no_duplicate_creators(cs: Seq<Creator>) -> bool {
    forall|i: int, j: int| 0 <= i < j < cs.len() ==> cs[i].address != cs[j].address
}

/// `address` is listed as a verified creator in `es`.
pub open spec fn verified_among(es: Seq<Creator>, address: Identity) -> bool {
    exists|k: int| 0 <= k < es.len() && (#[trigger] es[k]).address == address && es[k].verified
}

/// `address` is listed as a verified creator in `existing`, if there is one.
pub open spec fn verified_in(existing: Option<Seq<Creator>>, address: Identity) -> bool {
    match existing {
        Some(es) => verified_among(es, address),
        None => false,
    }
}

/// A creator entry may carry `verified` only if direct writes are allowed, the
/// creator is the signing authority, or the creator was already verified.
pub open spec fn creator_permitted(
    c: Creator,
    authority: Identity,
    authority_is_signer: bool,
    existing: Option<Seq<Creator>>,
    allow_direct_creator_writes: bool,
) -> bool {
    allow_direct_creator_writes || !c.verified || (if c.address == authority {
        authority_is_signer
    } else {
        verified_in(existing, c.address)
    })
}

pub open spec fn creators_valid(
    cs: Seq<Creator>,
    authority: Identity,
    authority_is_signer: bool,
    existing: Option<Seq<Creator>>,
    allow_direct_creator_writes: bool,
) -> bool {
    &&& 1 <= cs.len() <= MAX_CREATOR_LIMIT
    &&& no_duplicate_creators(cs)
    &&& share_total(cs) == TOTAL_CREATOR_SHARE
    &&& forall|i: int|
        0 <= i < cs.len() ==> creator_permitted(
            #[trigger] cs[i],
            authority,
            authority_is_signer,
            existing,
            allow_direct_creator_writes,
        )
}

/// The rules a data payload must meet before it is stored. `existing` holds
/// the creators of the record being replaced, `None` on creation.
pub open spec fn data_valid(
    d: DataView,
    authority: Identity,
    authority_is_signer: bool,
    existing: Option<Seq<Creator>>,
    allow_direct_creator_writes: bool,
) -> bool {
    &&& d.name.len() <= MAX_NAME_LENGTH
    &&& d.symbol.len() <= MAX_SYMBOL_LENGTH
    &&& d.uri.len() <= MAX_URI_LENGTH
    &&& d.seller_fee_basis_points <= MAX_SELLER_FEE_BASIS_POINTS
    &&& match d.creators {
        None => true,
        Some(cs) => creators_valid(
            cs,
            authority,
            authority_is_signer,
            existing,
            allow_direct_creator_writes,
        ),
    }
}

proof fn lemma_share_total_bound(cs: Seq<Creator>)
    ensures
        share_total(cs) <= 255 * cs.len(),
    decreases cs.len(),
{
    if cs.len() > 0 {
        lemma_share_total_bound(cs.drop_last());
    }
}

/// Whether `address` is a verified creator in `es`.
fn is_verified_among(es: &Vec<Creator>, address: &Identity) -> (r: bool)
    ensures
        r == verified_among(es@, *address),
{
    let mut k: usize = 0;
    while k < es.len()
        invariant
            0 <= k <= es.len(),
            forall|j: int| 0 <= j < k ==> !(es@[j].address == *address && es@[j].verified),
        decreases es.len() - k,
    {
        let e = es[k];
        if e.verified && e.address.same_as(address) {
            assert(es@[k as int].address == *address && es@[k as int].verified);
            return true;
        }
        k += 1;
    }
    false
}

/// Whether one creator entry meets `creator_permitted`.
fn creator_is_permitted(
    c: &Creator,
    authority: &Identity,
    authority_is_signer: bool,
    existing: &Option<Vec<Creator>>,
    allow_direct_creator_writes: bool,
) -> (r: bool)
    ensures
        r == creator_permitted(
            *c,
            *authority,
            authority_is_signer,
            creators_view(*existing),
            allow_direct_creator_writes,
        ),
{
    if allow_direct_creator_writes || !c.verified {
        true
    } else if c.address.same_as(authority) {
        authority_is_signer
    } else {
        match existing {
            Some(es) => is_verified_among(es, &c.address),
            None => false,
        }
    }
}

/// Checks the creator list against the creator rules.
fn check_creators(
    cs: &Vec<Creator>,
    authority: &Identity,
    authority_is_signer: bool,
    existing: &Option<Vec<Creator>>,
    allow_direct_creator_writes: bool,
) -> (r: bool)
    ensures
        r == creators_valid(
            cs@,
            *authority,
            authority_is_signer,
            creators_view(*existing),
            allow_direct_creator_writes,
        ),
{
    if cs.len() == 0 || cs.len() > MAX_CREATOR_LIMIT {
        return false;
    }
    let mut total: u64 = 0;
    let mut i: usize = 0;
    while i < cs.len()
        invariant
            0 <= i <= cs.len() <= MAX_CREATOR_LIMIT,
            total as nat == share_total(cs@.subrange(0, i as int)),
            forall|a: int, b: int| 0 <= a < b < i ==> cs@[a].address != cs@[b].address,
            forall|a: int|
                0 <= a < i ==> creator_permitted(
                    #[trigger] cs@[a],
                    *authority,
                    authority_is_signer,
                    creators_view(*existing),
                    allow_direct_creator_writes,
                ),
        decreases cs.len() - i,
    {
        let c = cs[i];
        let mut j: usize = 0;
        while j < i
            invariant
                0 <= j <= i < cs.len(),
                c == cs@[i as int],
                forall|a: int| 0 <= a < j ==> cs@[a].address != c.address,
            decreases i - j,
        {
            if cs[j].address.same_as(&c.address) {
                assert(!no_duplicate_creators(cs@));
                return false;
            }
            j += 1;
        }
        if !creator_is_permitted(&c, authority, authority_is_signer, existing, allow_direct_creator_writes) {
            return false;
        }
        proof {
            lemma_share_total_bound(cs@.subrange(0, i as int));
            assert(cs@.subrange(0, i + 1).drop_last() =~= cs@.subrange(0, i as int));
        }
        total = total + c.share as u64;
        i += 1;
    }
    assert(cs@.subrange(0, cs.len() as int) =~= cs@);
    total == TOTAL_CREATOR_SHARE
}

/// The data validator: rejects a payload that breaks any rule of `data_valid`.
pub fn assert_data_valid(
    data: &Data,
    authority: &Identity,
    authority_is_signer: bool,
    existing: &Option<Vec<Creator>>,
    allow_direct_creator_writes: bool,
) -> (r: Result<(), MetadataError>)
    ensures
        r is Ok <==> data_valid(
            data@,
            *authority,
            authority_is_signer,
            creators_view(*existing),
            allow_direct_creator_writes,
        ),
        r is Err ==> r == Err::<(), MetadataError>(MetadataError::DataValidationFailed),
{
    if data.name.len() > MAX_NAME_LENGTH || data.symbol.len() > MAX_SYMBOL_LENGTH
        || data.uri.len() > MAX_URI_LENGTH
        || data.seller_fee_basis_points > MAX_SELLER_FEE_BASIS_POINTS {
        return Err(MetadataError::DataValidationFailed);
    }
    match &data.creators {
        None => Ok(()),
        Some(cs) => {
            if check_creators(cs, authority, authority_is_signer, existing, allow_direct_creator_writes) {
                Ok(())
            } else {
                Err(MetadataError::DataValidationFailed)
            }
        },
    }
}

} // verus!
