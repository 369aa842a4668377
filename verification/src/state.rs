use vstd::prelude::*;
use crate::address::Address;

verus! {

/// Bytes of a stored `Pool`.
pub const POOL_SIZE: usize = 32 + 1 + 32;

/// Bytes of a stored `Client`.
pub const CLIENT_SIZE: usize = 32 + 32 + 8 + 1 + 1;

/// Bytes of a stored `MetadataExtended`.
pub const METADATA_EXTENDED_SIZE: usize = 32 + 8 + 1;

/// Largest number of creators that a `SalePot` holds.
pub const MAX_CREATOR_NUM: usize = 6;

/// Bytes of a stored `Creator`.
pub const CREATOR_SIZE: usize = 32 + 1 + 1;

/// Bytes of a stored `SaleManager`.
pub const MAX_SALE_MANAGER_SIZE: usize = 32 + 32 + 32 + 32 + 32 + 8 + 1 + 1 + 1;

/// Bytes of a stored `SalePot` with a full list of creators.
pub const SALE_POT_SIZE: usize = 1 + 32 + 1 + 32 + 1 + 32 + 2 + CREATOR_SIZE * MAX_CREATOR_NUM;

/// A royalty fee of one hundred percent, in basis points.
pub const FULL_BASIS_POINTS: u16 = 10000;

/// A creator's share of one hundred percent.
pub const FULL_SHARE: u8 = 100;

/// `SaleManager::sale_state` of an asset that is not on sale.
pub const SALE_STATE_UNLISTED: u8 = 0;

/// `SaleManager::sale_state` of an asset that is held in escrow and offered.
pub const SALE_STATE_LISTED: u8 = 1;

/// `SaleManager::sale_state` of an asset that was bought.
pub const SALE_STATE_SOLD: u8 = 2;

/// A marketplace: its owner, the currency it trades in, and whether its presale runs.
#[derive(Clone, Copy, Debug, PartialEq, Eq)]
pub struct Pool {
    pub owner: Address,
    pub presale_live: bool,
    pub sale_mint: Address,
}

/// What a bidder may still mint in a pool.
#[derive(Clone, Copy, Debug, PartialEq, Eq)]
pub struct Client {
    pub owner: Address,
    pub pool: Address,
    pub amount: u64,
    pub whitelisted: bool,
    pub bump: u8,
}

/// A royalty recipient: who, whether the share is settled, and the share in percent.
#[derive(Clone, Copy, Debug, PartialEq, Eq)]
pub struct Creator {
    pub address: Address,
    pub verified: bool,
    pub share: u8,
}

/// What a minter says of a new asset.
#[derive(Clone, Debug, PartialEq, Eq)]
pub struct Metadata {
    pub name: String,
    pub symbol: String,
    pub uri: String,
    pub seller_fee_basis_points: u16,
    pub creators: Vec<Creator>,
    pub is_mutable: bool,
}

/// The price cap of one asset in one pool; a cap of 0 is no cap.
#[derive(Clone, Copy, Debug, PartialEq, Eq)]
pub struct MetadataExtended {
    pub pool: Address,
    pub max_price: u64,
    pub bump: u8,
}

/// The escrow of one asset in one pool.
#[derive(Clone, Copy, Debug, PartialEq, Eq)]
pub struct SaleManager {
    pub pool: Address,
    pub seller: Address,
    pub nft_mint: Address,
    pub nft_pot: Address,
    pub sale_pot: Address,
    pub price: u64,
    pub sale_state: u8,
    pub is_primary: bool,
    pub bump: u8,
}

impl SaleManager {
    /// An escrow as the host hands it out: nothing set, nothing on sale.
    pub open spec fn blank() -> SaleManager {
        SaleManager {
            pool: Address::zero(),
            seller: Address::zero(),
            nft_mint: Address::zero(),
            nft_pot: Address::zero(),
            sale_pot: Address::zero(),
            price: 0,
            sale_state: SALE_STATE_UNLISTED,
            is_primary: false,
            bump: 0,
        }
    }
}

impl SaleManager {
    /// Whether this record is as the host hands it out.
    pub fn is_blank(&self) -> (b: bool)
        ensures
            b == (*self == SaleManager::blank()),
    {
        let zero = Address::default();
        self.pool == zero && self.seller == zero && self.nft_mint == zero && self.nft_pot == zero
            && self.sale_pot == zero && self.price == 0 && self.sale_state == SALE_STATE_UNLISTED
            && !self.is_primary && self.bump == 0
    }
}

impl Default for SaleManager {
    /// An escrow as the host hands it out: nothing set, nothing on sale.
    fn default() -> (m: SaleManager)
        ensures
            m == SaleManager::blank(),
    {
        SaleManager {
            pool: Address::default(),
            seller: Address::default(),
            nft_mint: Address::default(),
            nft_pot: Address::default(),
            sale_pot: Address::default(),
            price: 0,
            sale_state: SALE_STATE_UNLISTED,
            is_primary: false,
            bump: 0,
        }
    }
}

/// The settlement ledger of one listing: the price, and who has drawn a share of it.
#[derive(Clone, Debug, PartialEq, Eq)]
pub struct SalePot {
    pub is_used: bool,
    pub sale_manager: Address,
    pub pool_pot: Address,
    pub price: u64,
    pub is_primary: bool,
    pub seller: Address,
    pub seller_verified: bool,
    pub seller_fee_basis_points: u16,
    pub creators: Vec<Creator>,
}

/// A `SalePot` as a mathematical value.
pub struct SalePotView {
    pub is_used: bool,
    pub sale_manager: Address,
    pub pool_pot: Address,
    pub price: u64,
    pub is_primary: bool,
    pub seller: Address,
    pub seller_verified: bool,
    pub seller_fee_basis_points: u16,
    pub creators: Seq<Creator>,
}

impl View for SalePot {
    type V = SalePotView;

    open spec fn view(&self) -> SalePotView {
        SalePotView {
            is_used: self.is_used,
            sale_manager: self.sale_manager,
            pool_pot: self.pool_pot,
            price: self.price,
            is_primary: self.is_primary,
            seller: self.seller,
            seller_verified: self.seller_verified,
            seller_fee_basis_points: self.seller_fee_basis_points,
            creators: self.creators@,
        }
    }
}

/// Every share is a percentage.
pub open spec fn shares_in_range(creators: Seq<Creator>) -> bool {
    forall|i: int| 0 <= i < creators.len() ==> (#[trigger] creators[i]).share <= FULL_SHARE
}

impl SalePotView {
    /// The fee is at most one hundred percent, the list of creators fits a stored
    /// record, and every share is a percentage.
    pub open spec fn wf(self) -> bool {
        &&& self.seller_fee_basis_points <= FULL_BASIS_POINTS
        &&& self.creators.len() <= MAX_CREATOR_NUM
        &&& shares_in_range(self.creators)
    }
}

/// Whether every share in `creators` is a percentage.
pub fn check_shares(creators: &Vec<Creator>) -> (ok: bool)
    ensures
        ok == shares_in_range(creators@),
{
    let mut i: usize = 0;
    while i < creators.len()
        invariant
            i <= creators.len(),
            forall|j: int| 0 <= j < i ==> (#[trigger] creators@[j]).share <= FULL_SHARE,
        decreases creators.len() - i,
    {
        if creators[i].share > FULL_SHARE {
            return false;
        }
        i += 1;
    }
    true
}

impl SalePot {
    /// Whether this record is well formed.
    pub fn is_wf(&self) -> (ok: bool)
        ensures
            ok == self@.wf(),
    {
        self.seller_fee_basis_points <= FULL_BASIS_POINTS && self.creators.len() <= MAX_CREATOR_NUM
            && check_shares(&self.creators)
    }
}

} // verus!
