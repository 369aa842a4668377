use vstd::prelude::*;
use crate::address::Address;
use crate::state::Creator;

verus! {

/// An account that another program keeps, as the host presents it.
#[derive(Clone, Debug, PartialEq, Eq)]
pub struct RawAccount {
    pub key: Address,
    pub data: Vec<u8>,
}

/// Who authorises a request to a collaborator.
#[derive(Clone, Copy, Debug, PartialEq, Eq)]
pub enum Authority {
    /// The caller, who signed the operation.
    Caller { key: Address },
    /// The escrow itself, proved by what its address derives from.
    Escrow { key: Address, pool: Address, nft_mint: Address, bump: u8 },
}

/// A request that an operation leaves for a collaborator. The caller of the operation
/// carries the requests out in order, all or none.
#[derive(Clone, Debug, PartialEq, Eq)]
pub enum Action {
    /// Issue `amount` units of `mint` to `account`.
    MintTo { mint: Address, account: Address, owner: Address, amount: u64 },
    /// Move `amount` units from `source` to `destination`.
    Transfer { source: Address, destination: Address, authority: Authority, amount: u64 },
    /// Register the descriptive record of an asset.
    CreateMetadata {
        metadata: Address,
        mint: Address,
        mint_authority: Address,
        payer: Address,
        update_authority: Address,
        name: String,
        symbol: String,
        uri: String,
        creators: Vec<Creator>,
        seller_fee_basis_points: u16,
        update_authority_is_signer: bool,
        is_mutable: bool,
    },
    /// Mark an asset as a single edition.
    CreateMasterEdition {
        edition: Address,
        mint: Address,
        update_authority: Address,
        mint_authority: Address,
        metadata: Address,
        payer: Address,
        max_supply: Option<u64>,
    },
    /// Hand the right to update an asset's record to `new_update_authority`.
    UpdateMetadataAuthority {
        metadata: Address,
        authority: Authority,
        new_update_authority: Address,
    },
    /// Record that the asset's primary sale has happened.
    MarkPrimarySale { metadata: Address, authority: Authority, token: Address },
}

} // verus!
