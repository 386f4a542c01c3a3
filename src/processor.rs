use vstd::prelude::*;

use crate::derivation::{check_derivation, derived_metadata_address, find_metadata_address};
use crate::error::MetadataError;
use crate::identity::Identity;
use crate::state::{
    puff_out_data_fields, puffed_data, Creator, Data, DataView, Metadata, MetadataView, Reservation,
};
use crate::validation::{assert_data_valid, data_valid};

verus! {

pub open spec fn record_view(o: Option<Metadata>) -> Option<MetadataView> {
    match o {
        Some(m) => Some(m@),
        None => None,
    }
}

pub open spec fn data_view(o: Option<Data>) -> Option<DataView> {
    match o {
        Some(d) => Some(d@),
        None => None,
    }
}

/// What creating a record yields, given the address derived for the mint.
pub open spec fn create_outcome(
    derived: Option<Identity>,
    address: Identity,
    mint: Identity,
    update_authority: Identity,
    update_authority_is_signer: bool,
    payer_is_signer: bool,
    data: DataView,
    allow_direct_creator_writes: bool,
    is_mutable: bool,
) -> Result<MetadataView, MetadataError> {
    if derived != Some(address) {
        Err(MetadataError::AddressDerivationMismatch)
    } else if !payer_is_signer {
        Err(MetadataError::MissingRequiredSignature)
    } else if !data_valid(
        data,
        update_authority,
        update_authority_is_signer,
        None,
        allow_direct_creator_writes,
    ) {
        Err(MetadataError::DataValidationFailed)
    } else {
        Ok(
            MetadataView {
                update_authority,
                mint,
                data: puffed_data(data),
                primary_sale_happened: false,
                is_mutable,
            },
        )
    }
}

/// What an update yields. `record` is the record read at the address, `None`
/// when none could be read; `owner` is the program owning its account.
pub open spec fn update_outcome(
    program_id: Identity,
    record: Option<MetadataView>,
    owner: Identity,
    authority: Identity,
    authority_is_signer: bool,
    data: Option<DataView>,
    new_update_authority: Option<Identity>,
    primary_sale_happened: Option<bool>,
) -> Result<MetadataView, MetadataError> {
    match record {
        None => Err(MetadataError::RecordNotFoundOrCorrupt),
        Some(m) => if owner != program_id {
            Err(MetadataError::OwnershipMismatch)
        } else if authority != m.update_authority || !authority_is_signer {
            Err(MetadataError::AuthorityMismatch)
        } else if data is Some && !m.is_mutable {
            Err(MetadataError::DataIsImmutable)
        } else if data is Some && !data_valid(
            data->0,
            authority,
            authority_is_signer,
            m.data.creators,
            false,
        ) {
            Err(MetadataError::DataValidationFailed)
        } else if primary_sale_happened == Some(false) {
            Err(MetadataError::OneWayFlagViolation)
        } else {
            Ok(
                MetadataView {
                    data: puffed_data(
                        match data {
                            Some(d) => d,
                            None => m.data,
                        },
                    ),
                    update_authority: match new_update_authority {
                        Some(a) => a,
                        None => m.update_authority,
                    },
                    primary_sale_happened: m.primary_sale_happened || primary_sale_happened
                        == Some(true),
                    ..m
                },
            )
        },
    }
}

proof fn lemma_same_bytes_same_identity(a: Identity, b: Identity)
    requires
        a.bytes@ == b.bytes@,
    ensures
        a == b,
{
    assert(a.bytes =~= b.bytes);
}

/// Creates the record of `mint` at `address`, given the address derived for
/// the mint under the program.
pub fn create_metadata_accounts(
    derived: Option<Identity>,
    address: &Identity,
    mint: &Identity,
    update_authority: &Identity,
    update_authority_is_signer: bool,
    payer_is_signer: bool,
    data: Data,
    allow_direct_creator_writes: bool,
    is_mutable: bool,
) -> (r: Result<Metadata, MetadataError>)
    ensures
        match r {
            Ok(m) => create_outcome(
                derived,
                *address,
                *mint,
                *update_authority,
                update_authority_is_signer,
                payer_is_signer,
                data@,
                allow_direct_creator_writes,
                is_mutable,
            ) == Ok::<MetadataView, MetadataError>(m@),
            Err(e) => create_outcome(
                derived,
                *address,
                *mint,
                *update_authority,
                update_authority_is_signer,
                payer_is_signer,
                data@,
                allow_direct_creator_writes,
                is_mutable,
            ) == Err::<MetadataView, MetadataError>(e),
        },
{
    match check_derivation(derived, address) {
        Ok(()) => {},
        Err(e) => {
            return Err(e);
        },
    }
    if !payer_is_signer {
        return Err(MetadataError::MissingRequiredSignature);
    }
    let no_creators: Option<Vec<Creator>> = None;
    match assert_data_valid(
        &data,
        update_authority,
        update_authority_is_signer,
        &no_creators,
        allow_direct_creator_writes,
    ) {
        Ok(()) => {},
        Err(e) => {
            return Err(e);
        },
    }
    let mut metadata = Metadata {
        update_authority: *update_authority,
        mint: *mint,
        data,
        primary_sale_happened: false,
        is_mutable,
    };
    puff_out_data_fields(&mut metadata);
    Ok(metadata)
}

/// Creates the record of `mint` at `address`: the address must be the one
/// derived from the program id and the mint.
pub fn process_deprecated_create_metadata_accounts(
    program_id: &Identity,
    address: &Identity,
    mint: &Identity,
    update_authority: &Identity,
    update_authority_is_signer: bool,
    payer_is_signer: bool,
    data: Data,
    allow_direct_creator_writes: bool,
    is_mutable: bool,
) -> (r: Result<Metadata, MetadataError>)
    ensures
        derived_metadata_address(*program_id, *mint) != Some(address.bytes@) ==> r
            == Err::<Metadata, MetadataError>(MetadataError::AddressDerivationMismatch),
        derived_metadata_address(*program_id, *mint) == Some(address.bytes@) ==> match r {
            Ok(m) => create_outcome(
                Some(*address),
                *address,
                *mint,
                *update_authority,
                update_authority_is_signer,
                payer_is_signer,
                data@,
                allow_direct_creator_writes,
                is_mutable,
            ) == Ok::<MetadataView, MetadataError>(m@),
            Err(e) => create_outcome(
                Some(*address),
                *address,
                *mint,
                *update_authority,
                update_authority_is_signer,
                payer_is_signer,
                data@,
                allow_direct_creator_writes,
                is_mutable,
            ) == Err::<MetadataView, MetadataError>(e),
        },
{
    let derived = find_metadata_address(program_id, mint);
    proof {
        if derived is Some {
            if derived->0.bytes@ == address.bytes@ {
                lemma_same_bytes_same_identity(derived->0, *address);
            }
        }
    }
    create_metadata_accounts(
        derived,
        address,
        mint,
        update_authority,
        update_authority_is_signer,
        payer_is_signer,
        data,
        allow_direct_creator_writes,
        is_mutable,
    )
}

/// Updates the record read at an address: `record` is what was read there
/// (`None` when nothing could be read), `record_owner` the program owning
/// its account, `authority` the account presented as update authority.
pub fn process_deprecated_update_metadata_accounts(
    program_id: &Identity,
    record: Option<Metadata>,
    record_owner: &Identity,
    authority: &Identity,
    authority_is_signer: bool,
    optional_data: Option<Data>,
    update_authority: Option<Identity>,
    primary_sale_happened: Option<bool>,
) -> (r: Result<Metadata, MetadataError>)
    ensures
        match r {
            Ok(m) => update_outcome(
                *program_id,
                record_view(record),
                *record_owner,
                *authority,
                authority_is_signer,
                data_view(optional_data),
                update_authority,
                primary_sale_happened,
            ) == Ok::<MetadataView, MetadataError>(m@),
            Err(e) => update_outcome(
                *program_id,
                record_view(record),
                *record_owner,
                *authority,
                authority_is_signer,
                data_view(optional_data),
                update_authority,
                primary_sale_happened,
            ) == Err::<MetadataView, MetadataError>(e),
        },
{
    let mut metadata = match record {
        Some(m) => m,
        None => {
            return Err(MetadataError::RecordNotFoundOrCorrupt);
        },
    };
    if !record_owner.same_as(program_id) {
        return Err(MetadataError::OwnershipMismatch);
    }
    if !authority.same_as(&metadata.update_authority) || !authority_is_signer {
        return Err(MetadataError::AuthorityMismatch);
    }
    match optional_data {
        Some(data) => {
            if metadata.is_mutable {
                match assert_data_valid(
                    &data,
                    authority,
                    authority_is_signer,
                    &metadata.data.creators,
                    false,
                ) {
                    Ok(()) => {},
                    Err(e) => {
                        return Err(e);
                    },
                }
                metadata.data = data;
            } else {
                return Err(MetadataError::DataIsImmutable);
            }
        },
        None => {},
    }
    match update_authority {
        Some(a) => {
            metadata.update_authority = a;
        },
        None => {},
    }
    match primary_sale_happened {
        Some(val) => {
            if val {
                metadata.primary_sale_happened = val;
            } else {
                return Err(MetadataError::OneWayFlagViolation);
            }
        },
        None => {},
    }
    puff_out_data_fields(&mut metadata);
    Ok(metadata)
}

/// Retired: creating a master edition the old way always fails.
pub fn process_deprecated_create_master_edition(
    program_id: &Identity,
    accounts: &[Identity],
    max_supply: Option<u64>,
) -> (r: Result<(), MetadataError>)
    ensures
        r == Err::<(), MetadataError>(MetadataError::OperationDeprecated),
{
    process_retired_operation(RetiredOperation::CreateMasterEdition)
}

/// Retired: minting an edition through a printing token always fails.
pub fn process_deprecated_mint_new_edition_from_master_edition_via_printing_token(
    program_id: &Identity,
    accounts: &[Identity],
) -> (r: Result<(), MetadataError>)
    ensures
        r == Err::<(), MetadataError>(MetadataError::OperationDeprecated),
{
    process_retired_operation(RetiredOperation::MintNewEditionFromMasterEditionViaPrintingToken)
}

/// Retired: creating a reservation list always fails.
pub fn process_deprecated_create_reservation_list(
    program_id: &Identity,
    accounts: &[Identity],
) -> (r: Result<(), MetadataError>)
    ensures
        r == Err::<(), MetadataError>(MetadataError::OperationDeprecated),
{
    process_retired_operation(RetiredOperation::CreateReservationList)
}

/// Retired: filling a reservation list always fails.
pub fn process_deprecated_set_reservation_list(
    program_id: &Identity,
    accounts: &[Identity],
    reservations: Vec<Reservation>,
    total_reservation_spots: Option<u64>,
    offset: u64,
    total_spot_offset: u64,
) -> (r: Result<(), MetadataError>)
    ensures
        r == Err::<(), MetadataError>(MetadataError::OperationDeprecated),
{
    process_retired_operation(RetiredOperation::SetReservationList)
}

/// Retired: minting printing tokens by presenting a token always fails.
pub fn process_deprecated_mint_printing_tokens_via_token(
    program_id: &Identity,
    accounts: &[Identity],
    supply: u64,
) -> (r: Result<(), MetadataError>)
    ensures
        r == Err::<(), MetadataError>(MetadataError::OperationDeprecated),
{
    process_retired_operation(RetiredOperation::MintPrintingTokensViaToken)
}

/// Retired: minting printing tokens always fails.
pub fn process_deprecated_mint_printing_tokens(
    program_id: &Identity,
    accounts: &[Identity],
    supply: u64,
) -> (r: Result<(), MetadataError>)
    ensures
        r == Err::<(), MetadataError>(MetadataError::OperationDeprecated),
{
    process_retired_operation(RetiredOperation::MintPrintingTokens)
}

/// The retired instructions, kept so that a client still sending one gets a
/// stable failure.
#[derive(Clone, Copy, Debug, PartialEq, Eq, Structural)]
pub enum RetiredOperation {
    CreateMasterEdition,
    MintNewEditionFromMasterEditionViaPrintingToken,
    CreateReservationList,
    SetReservationList,
    MintPrintingTokensViaToken,
    MintPrintingTokens,
}

/// The handler shared by every retired instruction.
pub fn process_retired_operation(op: RetiredOperation) -> (r: Result<(), MetadataError>)
    ensures
        r == Err::<(), MetadataError>(MetadataError::OperationDeprecated),
{
    Err(MetadataError::OperationDeprecated)
}

} // verus!
