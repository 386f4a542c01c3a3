use vstd::prelude::*;

use crate::identity::Identity;

verus! {

/// Seed prefix of every metadata record address: the bytes of "metadata".
pub open spec fn prefix_bytes() -> Seq<u8> {
    seq![109u8, 101u8, 116u8, 97u8, 100u8, 97u8, 116u8, 97u8]
}

pub fn metadata_prefix() -> (r: Vec<u8>)
    ensures
        r@ == prefix_bytes(),
{
    let r: Vec<u8> = vec![109u8, 101u8, 116u8, 97u8, 100u8, 97u8, 116u8, 97u8];
    assert(r@ =~= prefix_bytes());
    r
}

pub const MAX_NAME_LENGTH: usize = 32;

pub const MAX_SYMBOL_LENGTH: usize = 10;

pub const MAX_URI_LENGTH: usize = 200;

pub const MAX_CREATOR_LIMIT: usize = 5;

/// Seller fees are given in basis points of a whole.
pub const MAX_SELLER_FEE_BASIS_POINTS: u16 = 10000;

/// Creator shares are percentages and must add up to this.
pub const TOTAL_CREATOR_SHARE: u64 = 100;

/// A creator of the asset, with its percentage share of royalties.
#[derive(Clone, Copy, Debug)]
pub struct Creator {
    pub address: Identity,
    pub verified: bool,
    pub share: u8,
}

/// The application payload of a record; text fields are UTF-8 bytes.
#[derive(Clone, Debug)]
pub struct Data {
    pub name: Vec<u8>,
    pub symbol: Vec<u8>,
    pub uri: Vec<u8>,
    pub seller_fee_basis_points: u16,
    pub creators: Option<Vec<Creator>>,
}

pub open spec fn creators_view(o: Option<Vec<Creator>>) -> Option<Seq<Creator>> {
    match o {
        Some(cs) => Some(cs@),
        None => None,
    }
}

pub ghost struct DataView {
    pub name: Seq<u8>,
    pub symbol: Seq<u8>,
    pub uri: Seq<u8>,
    pub seller_fee_basis_points: u16,
    pub creators: Option<Seq<Creator>>,
}

impl View for Data {
    type V = DataView;

    open spec fn view(&self) -> DataView {
        DataView {
            name: self.name@,
            symbol: self.symbol@,
            uri: self.uri@,
            seller_fee_basis_points: self.seller_fee_basis_points,
            creators: creators_view(self.creators),
        }
    }
}

/// The persisted metadata record of one mint.
#[derive(Clone, Debug)]
pub struct Metadata {
    pub update_authority: Identity,
    pub mint: Identity,
    pub data: Data,
    pub primary_sale_happened: bool,
    pub is_mutable: bool,
}

pub ghost struct MetadataView {
    pub update_authority: Identity,
    pub mint: Identity,
    pub data: DataView,
    pub primary_sale_happened: bool,
    pub is_mutable: bool,
}

impl View for Metadata {
    type V = MetadataView;

    open spec fn view(&self) -> MetadataView {
        MetadataView {
            update_authority: self.update_authority,
            mint: self.mint,
            data: self.data@,
            primary_sale_happened: self.primary_sale_happened,
            is_mutable: self.is_mutable,
        }
    }
}

/// A reservation of printing spots, an argument of a retired instruction.
#[derive(Clone, Copy, Debug)]
pub struct Reservation {
    pub address: Identity,
    pub spots_remaining: u64,
    pub total_spots: u64,
}

/// `s` padded with zero bytes up to length `n`; longer text is kept.
pub open spec fn puffed(s: Seq<u8>, n: nat) -> Seq<u8> {
    if s.len() < n {
        s + Seq::new((n - s.len()) as nat, |i: int| 0u8)
    } else {
        s
    }
}

/// The data with each text field padded to its fixed storage length.
pub open spec fn puffed_data(d: DataView) -> DataView {
    DataView {
        name: puffed(d.name, MAX_NAME_LENGTH as nat),
        symbol: puffed(d.symbol, MAX_SYMBOL_LENGTH as nat),
        uri: puffed(d.uri, MAX_URI_LENGTH as nat),
        ..d
    }
}

/// Every text field already has at least its fixed storage length.
pub open spec fn is_puffed(d: DataView) -> bool {
    &&& d.name.len() >= MAX_NAME_LENGTH
    &&& d.symbol.len() >= MAX_SYMBOL_LENGTH
    &&& d.uri.len() >= MAX_URI_LENGTH
}

/// Pads `s` with zero bytes up to `n` bytes.
pub fn puffed_out_string(s: &mut Vec<u8>, n: usize)
    ensures
        final(s)@ == puffed(old(s)@, n as nat),
{
    let ghost start = s@;
    let len = s.len();
    if len < n {
        while s.len() < n
            invariant
                start.len() == len,
                len <= s@.len() <= n,
                s@ == start + Seq::new((s@.len() - len) as nat, |i: int| 0u8),
            decreases n - s@.len(),
        {
            s.push(0u8);
            assert(s@ =~= start + Seq::new((s@.len() - len) as nat, |i: int| 0u8));
        }
        assert(s@ =~= puffed(start, n as nat));
    }
}

/// Pads the text fields of the record's data to their fixed storage lengths.
pub fn puff_out_data_fields(metadata: &mut Metadata)
    ensures
        final(metadata)@ == (MetadataView { data: puffed_data(old(metadata)@.data), ..old(metadata)@ }),
{
    puffed_out_string(&mut metadata.data.name, MAX_NAME_LENGTH);
    puffed_out_string(&mut metadata.data.symbol, MAX_SYMBOL_LENGTH);
    puffed_out_string(&mut metadata.data.uri, MAX_URI_LENGTH);
}

} // verus!
