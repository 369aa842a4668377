use vstd::prelude::*;
use crate::address::Address;
use crate::state::Creator;
use metaplex_token_metadata::state::{Key, Metadata, MAX_METADATA_LEN};
use metaplex_token_metadata::utils::try_from_slice_checked;

verus! {

/// What the marketplace reads of an asset's metadata record.
#[derive(Clone, Debug, PartialEq, Eq)]
pub struct MetadataSnapshot {
    pub seller_fee_basis_points: u16,
    pub creators: Option<Vec<Creator>>,
    pub primary_sale_happened: bool,
}

/// A `MetadataSnapshot` as a mathematical value.
pub struct MetadataSnapshotView {
    pub seller_fee_basis_points: u16,
    pub creators: Option<Seq<Creator>>,
    pub primary_sale_happened: bool,
}

impl View for MetadataSnapshot {
    type V = MetadataSnapshotView;

    open spec fn view(&self) -> MetadataSnapshotView {
        MetadataSnapshotView {
            seller_fee_basis_points: self.seller_fee_basis_points,
            creators: match self.creators {
                Some(v) => Some(v@),
                None => None,
            },
            primary_sale_happened: self.primary_sale_happened,
        }
    }
}

/// The view of a snapshot that may be missing.
pub open spec fn snapshot_view(snapshot: Option<MetadataSnapshot>) -> Option<MetadataSnapshotView> {
    match snapshot {
        Some(s) => Some(s@),
        None => None,
    }
}

/// What `metaplex_token_metadata` reads from the data of a metadata account: the
/// fee, the creators and whether a primary sale has happened, or nothing where it
/// does not read it.
pub uninterp spec fn metaplex_metadata(data: Seq<u8>) -> Option<MetadataSnapshotView>;

/// Calls `metaplex_token_metadata::utils::try_from_slice_checked` for a `Metadata` of
/// kind `MetadataV1` and length `MAX_METADATA_LEN`, which is what
/// `Metadata::from_account_info` applies to an account's data. The call indexes the
/// first byte, so the data must not be empty. Not proved: what it returns depends on
/// the data alone, and so has the name `metaplex_metadata`. The fee, the creators and
/// the flag are handed on as they were read; an error becomes `None`.
#[verifier::external_body]
fn read_metadata(data: &[u8]) -> (r: Option<MetadataSnapshot>)
    requires
        data@.len() > 0,
    ensures
        snapshot_view(r) == metaplex_metadata(data@),
{
    let md = try_from_slice_checked::<Metadata>(data, Key::MetadataV1, MAX_METADATA_LEN).ok()?;
    let creators = md.data.creators.map(|list| list.iter().map(|c| Creator {
        address: Address { bytes: c.address.to_bytes() },
        verified: c.verified,
        share: c.share,
    }).collect());
    let seller_fee_basis_points = md.data.seller_fee_basis_points;
    Some(MetadataSnapshot { seller_fee_basis_points, creators, primary_sale_happened: md.primary_sale_happened })
}

/// What the data of a metadata account holds: nothing where the data is empty.
pub open spec fn metadata_of(data: Seq<u8>) -> Option<MetadataSnapshotView> {
    if data.len() == 0 {
        None
    } else {
        metaplex_metadata(data)
    }
}

/// Reads the metadata record from the data of its account.
pub fn decode_metadata(data: &Vec<u8>) -> (r: Option<MetadataSnapshot>)
    ensures
        snapshot_view(r) == metadata_of(data@),
{
    if data.len() == 0 {
        None
    } else {
        read_metadata(data.as_slice())
    }
}

} // verus!
