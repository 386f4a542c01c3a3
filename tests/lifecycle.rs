use solana_program::pubkey::Pubkey;
use token_metadata::derivation::{check_derivation, find_metadata_address};
use token_metadata::error::MetadataError;
use token_metadata::identity::Identity;
use token_metadata::processor::{
    create_metadata_accounts, process_deprecated_create_master_edition,
    process_deprecated_create_metadata_accounts, process_deprecated_create_reservation_list,
    process_deprecated_mint_new_edition_from_master_edition_via_printing_token,
    process_deprecated_mint_printing_tokens, process_deprecated_mint_printing_tokens_via_token,
    process_deprecated_set_reservation_list, process_deprecated_update_metadata_accounts,
    process_retired_operation, RetiredOperation,
};
use token_metadata::state::{
    metadata_prefix, puff_out_data_fields, puffed_out_string, Creator, Data, Metadata, Reservation,
};
use token_metadata::validation::assert_data_valid;

fn id(b: u8) -> Identity {
    Identity::new([b; 32])
}

fn program() -> Identity {
    id(1)
}

fn mint() -> Identity {
    id(2)
}

fn creator(address: Identity, verified: bool, share: u8) -> Creator {
    Creator { address, verified, share }
}

fn sample_data(creators: Option<Vec<Creator>>) -> Data {
    Data {
        name: b"Token".to_vec(),
        symbol: b"TOK".to_vec(),
        uri: b"https://example.com/t.json".to_vec(),
        seller_fee_basis_points: 500,
        creators,
    }
}

fn record_address() -> Identity {
    find_metadata_address(&program(), &mint()).expect("an address is found")
}

fn create(authority: Identity, is_mutable: bool) -> Metadata {
    process_deprecated_create_metadata_accounts(
        &program(),
        &record_address(),
        &mint(),
        &authority,
        true,
        true,
        sample_data(None),
        false,
        is_mutable,
    )
    .expect("creation succeeds")
}

fn update(
    record: &Metadata,
    authority: Identity,
    data: Option<Data>,
    new_authority: Option<Identity>,
    primary_sale_happened: Option<bool>,
) -> Result<Metadata, MetadataError> {
    process_deprecated_update_metadata_accounts(
        &program(),
        Some(record.clone()),
        &program(),
        &authority,
        true,
        data,
        new_authority,
        primary_sale_happened,
    )
}

fn same_record(a: &Metadata, b: &Metadata) -> bool {
    a.update_authority.bytes == b.update_authority.bytes
        && a.mint.bytes == b.mint.bytes
        && a.data.name == b.data.name
        && a.data.symbol == b.data.symbol
        && a.data.uri == b.data.uri
        && a.data.seller_fee_basis_points == b.data.seller_fee_basis_points
        && a.data.creators.as_ref().map(|cs| cs.len()) == b.data.creators.as_ref().map(|cs| cs.len())
        && a.primary_sale_happened == b.primary_sale_happened
        && a.is_mutable == b.is_mutable
}

#[test]
fn derived_address_matches_solana() {
    let p = Pubkey::new_from_array(program().bytes);
    let m = Pubkey::new_from_array(mint().bytes);
    let (expected, _) = Pubkey::find_program_address(&[b"metadata", p.as_ref(), m.as_ref()], &p);
    let found = record_address();
    assert_eq!(found.bytes, expected.to_bytes());
    assert_ne!(found.bytes, program().bytes);
    assert_eq!(metadata_prefix(), b"metadata".to_vec());
}

#[test]
fn create_populates_and_pads() {
    let authority = id(7);
    let r = create(authority, true);
    assert_eq!(r.update_authority.bytes, authority.bytes);
    assert_eq!(r.mint.bytes, mint().bytes);
    assert!(r.is_mutable);
    assert!(!r.primary_sale_happened);
    let mut name = b"Token".to_vec();
    name.resize(32, 0);
    assert_eq!(r.data.name, name);
    assert_eq!(r.data.symbol.len(), 10);
    assert_eq!(&r.data.symbol[..3], b"TOK");
    assert_eq!(r.data.uri.len(), 200);
    assert_eq!(r.data.seller_fee_basis_points, 500);
}

#[test]
fn create_rejects_wrong_address() {
    let r = process_deprecated_create_metadata_accounts(
        &program(),
        &id(9),
        &mint(),
        &id(7),
        true,
        true,
        sample_data(None),
        false,
        true,
    );
    assert_eq!(r.unwrap_err(), MetadataError::AddressDerivationMismatch);
    let other_mint = id(3);
    let r = process_deprecated_create_metadata_accounts(
        &program(),
        &record_address(),
        &other_mint,
        &id(7),
        true,
        true,
        sample_data(None),
        false,
        true,
    );
    assert_eq!(r.unwrap_err(), MetadataError::AddressDerivationMismatch);
}

#[test]
fn create_with_given_derivation() {
    let a = id(4);
    assert_eq!(check_derivation(Some(a), &a), Ok(()));
    assert_eq!(check_derivation(None, &a), Err(MetadataError::AddressDerivationMismatch));
    let r = create_metadata_accounts(None, &a, &mint(), &id(7), true, true, sample_data(None), false, true);
    assert_eq!(r.unwrap_err(), MetadataError::AddressDerivationMismatch);
    let r = create_metadata_accounts(Some(a), &a, &mint(), &id(7), true, true, sample_data(None), false, true);
    assert!(r.is_ok());
}

#[test]
fn create_requires_payer_signature() {
    let r = process_deprecated_create_metadata_accounts(
        &program(),
        &record_address(),
        &mint(),
        &id(7),
        true,
        false,
        sample_data(None),
        false,
        true,
    );
    assert_eq!(r.unwrap_err(), MetadataError::MissingRequiredSignature);
}

#[test]
fn create_rejects_invalid_data() {
    let mut d = sample_data(None);
    d.name = vec![b'a'; 33];
    let r = process_deprecated_create_metadata_accounts(
        &program(), &record_address(), &mint(), &id(7), true, true, d, false, true,
    );
    assert_eq!(r.unwrap_err(), MetadataError::DataValidationFailed);
}

#[test]
fn validator_rules() {
    let auth = id(7);
    let ok = |d: &Data, allow: bool| assert_data_valid(d, &auth, true, &None, allow).is_ok();
    assert!(ok(&sample_data(None), false));
    assert!(ok(&sample_data(Some(vec![creator(id(8), false, 60), creator(id(9), false, 40)])), false));
    // shares must total 100
    assert!(!ok(&sample_data(Some(vec![creator(id(8), false, 60), creator(id(9), false, 30)])), false));
    // no duplicate creators
    assert!(!ok(&sample_data(Some(vec![creator(id(8), false, 50), creator(id(8), false, 50)])), false));
    // at least one, at most five
    assert!(!ok(&sample_data(Some(vec![])), false));
    let six: Vec<Creator> = (0..6u8).map(|i| creator(id(20 + i), false, if i == 0 { 50 } else { 10 })).collect();
    assert!(!ok(&sample_data(Some(six)), false));
    let five: Vec<Creator> = (0..5u8).map(|i| creator(id(20 + i), false, 20)).collect();
    assert!(ok(&sample_data(Some(five)), false));
    // another creator may not be marked verified without direct writes
    assert!(!ok(&sample_data(Some(vec![creator(id(8), true, 100)])), false));
    assert!(ok(&sample_data(Some(vec![creator(id(8), true, 100)])), true));
    // the signing authority may verify itself
    assert!(ok(&sample_data(Some(vec![creator(auth, true, 100)])), false));
    let unsigned = assert_data_valid(&sample_data(Some(vec![creator(auth, true, 100)])), &auth, false, &None, false);
    assert_eq!(unsigned, Err(MetadataError::DataValidationFailed));
    // an already verified creator may stay verified
    let existing = Some(vec![creator(id(8), true, 100)]);
    assert!(assert_data_valid(&sample_data(Some(vec![creator(id(8), true, 100)])), &auth, true, &existing, false).is_ok());
    // limits on lengths and fees
    let mut d = sample_data(None);
    d.symbol = vec![b's'; 11];
    assert!(!ok(&d, false));
    let mut d = sample_data(None);
    d.uri = vec![b'u'; 201];
    assert!(!ok(&d, false));
    let mut d = sample_data(None);
    d.uri = vec![b'u'; 200];
    d.name = vec![b'n'; 32];
    d.symbol = vec![b's'; 10];
    d.seller_fee_basis_points = 10000;
    assert!(ok(&d, false));
    d.seller_fee_basis_points = 10001;
    assert!(!ok(&d, false));
}

#[test]
fn update_replaces_data_and_flags() {
    let auth = id(7);
    let r = create(auth, true);
    let mut d = sample_data(None);
    d.name = b"Renamed".to_vec();
    let u = update(&r, auth, Some(d), None, Some(true)).expect("update succeeds");
    assert_eq!(&u.data.name[..7], b"Renamed");
    assert_eq!(u.data.name.len(), 32);
    assert!(u.primary_sale_happened);
    assert_eq!(u.update_authority.bytes, auth.bytes);
}

#[test]
fn update_missing_record() {
    let r = process_deprecated_update_metadata_accounts(&program(), None, &program(), &id(7), true, None, None, None);
    assert_eq!(r.unwrap_err(), MetadataError::RecordNotFoundOrCorrupt);
}

#[test]
fn update_wrong_owner() {
    let r = create(id(7), true);
    let out = process_deprecated_update_metadata_accounts(&program(), Some(r), &id(5), &id(7), true, None, None, None);
    assert_eq!(out.unwrap_err(), MetadataError::OwnershipMismatch);
}

#[test]
fn update_wrong_or_unsigned_authority() {
    let r = create(id(7), true);
    assert_eq!(update(&r, id(8), None, None, None).unwrap_err(), MetadataError::AuthorityMismatch);
    let out = process_deprecated_update_metadata_accounts(&program(), Some(r), &program(), &id(7), false, None, None, None);
    assert_eq!(out.unwrap_err(), MetadataError::AuthorityMismatch);
}

#[test]
fn update_invalid_data() {
    let r = create(id(7), true);
    let d = sample_data(Some(vec![creator(id(8), false, 10)]));
    assert_eq!(update(&r, id(7), Some(d), None, None).unwrap_err(), MetadataError::DataValidationFailed);
}

#[test]
fn immutable_record_rejects_data() {
    let r = create(id(7), false);
    let before = r.clone();
    let out = update(&r, id(7), Some(sample_data(None)), Some(id(9)), Some(true));
    assert_eq!(out.unwrap_err(), MetadataError::DataIsImmutable);
    assert!(same_record(&r, &before));
    // other fields may still change, the data stays and so does immutability
    let u = update(&r, id(7), None, None, Some(true)).unwrap();
    assert!(!u.is_mutable);
    assert_eq!(u.data.name, before.data.name);
    assert!(u.primary_sale_happened);
}

#[test]
fn primary_sale_is_one_way() {
    let r = create(id(7), true);
    let sold = update(&r, id(7), None, None, Some(true)).unwrap();
    assert!(sold.primary_sale_happened);
    assert_eq!(update(&sold, id(7), None, None, Some(false)).unwrap_err(), MetadataError::OneWayFlagViolation);
    let again = update(&sold, id(7), None, None, None).unwrap();
    assert!(again.primary_sale_happened);
    assert_eq!(update(&r, id(7), None, Some(id(9)), Some(false)).unwrap_err(), MetadataError::OneWayFlagViolation);
}

#[test]
fn handover_keeps_data_and_locks_out_old_authority() {
    let old_auth = id(7);
    let new_auth = id(8);
    let r = create(old_auth, true);
    let u = update(&r, old_auth, None, Some(new_auth), None).unwrap();
    assert_eq!(u.update_authority.bytes, new_auth.bytes);
    assert_eq!(u.data.name, r.data.name);
    assert_eq!(u.data.symbol, r.data.symbol);
    assert_eq!(u.data.uri, r.data.uri);
    assert_eq!(u.data.seller_fee_basis_points, r.data.seller_fee_basis_points);
    assert_eq!(u.primary_sale_happened, r.primary_sale_happened);
    assert_eq!(update(&u, old_auth, None, None, None).unwrap_err(), MetadataError::AuthorityMismatch);
    assert!(update(&u, new_auth, None, Some(new_auth), None).is_ok());
}

#[test]
fn retired_operations_always_fail() {
    let p = program();
    let accounts = vec![id(3), id(4)];
    let none: Vec<Identity> = Vec::new();
    let e = Err(MetadataError::OperationDeprecated);
    assert_eq!(process_deprecated_create_master_edition(&p, &accounts, Some(10)), e);
    assert_eq!(process_deprecated_create_master_edition(&p, &none, None), e);
    assert_eq!(process_deprecated_mint_new_edition_from_master_edition_via_printing_token(&p, &accounts), e);
    assert_eq!(process_deprecated_create_reservation_list(&p, &none), e);
    let res = vec![Reservation { address: id(5), spots_remaining: 1, total_spots: 2 }];
    assert_eq!(process_deprecated_set_reservation_list(&p, &accounts, res, Some(3), 0, u64::MAX), e);
    assert_eq!(process_deprecated_set_reservation_list(&p, &none, Vec::new(), None, u64::MAX, 0), e);
    assert_eq!(process_deprecated_mint_printing_tokens_via_token(&p, &accounts, 0), e);
    assert_eq!(process_deprecated_mint_printing_tokens(&p, &accounts, u64::MAX), e);
    assert_eq!(process_retired_operation(RetiredOperation::SetReservationList), e);
}

#[test]
fn padding_is_exact() {
    let mut s = b"ab".to_vec();
    puffed_out_string(&mut s, 5);
    assert_eq!(s, vec![b'a', b'b', 0, 0, 0]);
    let mut t = b"abcdef".to_vec();
    puffed_out_string(&mut t, 5);
    assert_eq!(t, b"abcdef".to_vec());
    let mut r = create(id(7), true);
    let before = r.data.name.clone();
    puff_out_data_fields(&mut r);
    assert_eq!(r.data.name, before);
}

#[test]
fn identity_comparison() {
    let a = id(1);
    let mut b = [1u8; 32];
    assert!(a.same_as(&Identity::new(b)));
    b[31] = 2;
    assert!(!a.same_as(&Identity::new(b)));
}
