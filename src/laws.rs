use vstd::prelude::*;

use crate::error::MetadataError;
use crate::identity::Identity;
use crate::processor::{create_outcome, update_outcome};
use crate::state::{is_puffed, puffed_data, DataView, MetadataView};

verus! {

/// One update request against a record, as `update_outcome` reads it.
pub ghost struct UpdateCall {
    pub owner: Identity,
    pub authority: Identity,
    pub authority_is_signer: bool,
    pub data: Option<DataView>,
    pub new_update_authority: Option<Identity>,
    pub primary_sale_happened: Option<bool>,
}

/// The record after one call: a failed call leaves it as it was.
pub open spec fn apply_update(program_id: Identity, m: MetadataView, c: UpdateCall) -> MetadataView {
    match update_outcome(
        program_id,
        Some(m),
        c.owner,
        c.authority,
        c.authority_is_signer,
        c.data,
        c.new_update_authority,
        c.primary_sale_happened,
    ) {
        Ok(n) => n,
        Err(_) => m,
    }
}

/// The record after a sequence of calls, applied in order.
pub open spec fn apply_updates(
    program_id: Identity,
    m: MetadataView,
    calls: Seq<UpdateCall>,
) -> MetadataView
    decreases calls.len(),
{
    if calls.len() == 0 {
        m
    } else {
        apply_updates(program_id, apply_update(program_id, m, calls[0]), calls.drop_first())
    }
}

/// Padding data that already has its storage lengths changes nothing.
pub proof fn lemma_puffed_data_stable(d: DataView)
    requires
        is_puffed(d),
    ensures
        puffed_data(d) == d,
{
}

/// A single update never sets `is_mutable`, never clears
/// `primary_sale_happened`, and leaves the data of an immutable record as it
/// was stored.
pub proof fn lemma_update_step_monotone(program_id: Identity, m: MetadataView, c: UpdateCall)
    requires
        is_puffed(m.data),
    ensures
        apply_update(program_id, m, c).is_mutable == m.is_mutable,
        m.primary_sale_happened ==> apply_update(program_id, m, c).primary_sale_happened,
        !m.is_mutable ==> apply_update(program_id, m, c).data == m.data,
        is_puffed(apply_update(program_id, m, c).data),
{
    lemma_puffed_data_stable(m.data);
}

/// Once a record is immutable, no sequence of updates makes it mutable again
/// or changes its data; and a primary sale, once recorded, stays recorded.
pub proof fn lemma_immutable_record_stays_immutable(
    program_id: Identity,
    m: MetadataView,
    calls: Seq<UpdateCall>,
)
    requires
        is_puffed(m.data),
    ensures
        !m.is_mutable ==> !apply_updates(program_id, m, calls).is_mutable,
        !m.is_mutable ==> apply_updates(program_id, m, calls).data == m.data,
        m.primary_sale_happened ==> apply_updates(program_id, m, calls).primary_sale_happened,
    decreases calls.len(),
{
    if calls.len() > 0 {
        let next = apply_update(program_id, m, calls[0]);
        lemma_update_step_monotone(program_id, m, calls[0]);
        lemma_immutable_record_stays_immutable(program_id, next, calls.drop_first());
    }
}

/// A request to set `primary_sale_happened` to false never succeeds; once a
/// properly authorised request carries no data, it fails with the one-way flag
/// error and the record stays as it was.
pub proof fn lemma_primary_sale_never_cleared(
    program_id: Identity,
    m: MetadataView,
    c: UpdateCall,
)
    requires
        c.primary_sale_happened == Some(false),
    ensures
        update_outcome(
            program_id,
            Some(m),
            c.owner,
            c.authority,
            c.authority_is_signer,
            c.data,
            c.new_update_authority,
            c.primary_sale_happened,
        ) is Err,
        apply_update(program_id, m, c) == m,
        c.owner == program_id && c.authority == m.update_authority && c.authority_is_signer
            && c.data is None ==> update_outcome(
            program_id,
            Some(m),
            c.owner,
            c.authority,
            c.authority_is_signer,
            c.data,
            c.new_update_authority,
            c.primary_sale_happened,
        ) == Err::<MetadataView, MetadataError>(MetadataError::OneWayFlagViolation),
{
}

/// An update of an owned record signed by anyone but its current update
/// authority fails with the authority error.
pub proof fn lemma_update_needs_current_authority(
    program_id: Identity,
    m: MetadataView,
    c: UpdateCall,
)
    requires
        c.owner == program_id,
        c.authority != m.update_authority,
    ensures
        update_outcome(
            program_id,
            Some(m),
            c.owner,
            c.authority,
            c.authority_is_signer,
            c.data,
            c.new_update_authority,
            c.primary_sale_happened,
        ) == Err::<MetadataView, MetadataError>(MetadataError::AuthorityMismatch),
{
}

/// A record created by `creator` and then handed, by an update that
/// changes only the authority, to another identity keeps its data and sale
/// flag; after that an update signed by `creator` fails with the authority
/// error.
pub proof fn lemma_former_authority_locked_out(
    program_id: Identity,
    address: Identity,
    mint: Identity,
    creator: Identity,
    creator_is_signer: bool,
    payer_is_signer: bool,
    data: DataView,
    allow_direct_creator_writes: bool,
    is_mutable: bool,
    handover: UpdateCall,
    new_authority: Identity,
    later: UpdateCall,
)
    requires
        create_outcome(
            Some(address),
            address,
            mint,
            creator,
            creator_is_signer,
            payer_is_signer,
            data,
            allow_direct_creator_writes,
            is_mutable,
        ) is Ok,
        handover.owner == program_id,
        handover.authority == creator,
        handover.authority_is_signer,
        handover.data is None,
        handover.new_update_authority == Some(new_authority),
        handover.primary_sale_happened is None,
        new_authority != creator,
        later.owner == program_id,
        later.authority == creator,
    ensures
        ({
            let m = create_outcome(
                Some(address),
                address,
                mint,
                creator,
                creator_is_signer,
                payer_is_signer,
                data,
                allow_direct_creator_writes,
                is_mutable,
            )->Ok_0;
            let n = apply_update(program_id, m, handover);
            &&& n.update_authority == new_authority
            &&& n.data == m.data
            &&& n.primary_sale_happened == m.primary_sale_happened
            &&& update_outcome(
                program_id,
                Some(n),
                later.owner,
                later.authority,
                later.authority_is_signer,
                later.data,
                later.new_update_authority,
                later.primary_sale_happened,
            ) == Err::<MetadataView, MetadataError>(MetadataError::AuthorityMismatch)
        }),
{
    let m = create_outcome(
        Some(address),
        address,
        mint,
        creator,
        creator_is_signer,
        payer_is_signer,
        data,
        allow_direct_creator_writes,
        is_mutable,
    )->Ok_0;
    assert(is_puffed(m.data));
    lemma_puffed_data_stable(m.data);
}

/// An update that brings data for an immutable record fails with the
/// immutability error, once owner and authority are right.
pub proof fn lemma_immutable_data_rejected(program_id: Identity, m: MetadataView, c: UpdateCall)
    requires
        !m.is_mutable,
        c.data is Some,
        c.owner == program_id,
        c.authority == m.update_authority,
        c.authority_is_signer,
    ensures
        update_outcome(
            program_id,
            Some(m),
            c.owner,
            c.authority,
            c.authority_is_signer,
            c.data,
            c.new_update_authority,
            c.primary_sale_happened,
        ) == Err::<MetadataView, MetadataError>(MetadataError::DataIsImmutable),
        apply_update(program_id, m, c) == m,
{
}

} // verus!
