//! The rules of a marketplace for single-edition assets: whitelisted minting, an
//! escrow that lists, sells and hands back an asset, and the settlement of each sale
//! among its seller and its creators.
//!
//! Every operation is a decision: it takes the records and the accounts that the
//! host ledger presents, and either refuses with nothing changed, or changes the
//! records and leaves a list of requests for the token program and the metadata
//! program. Whoever calls it carries the requests out, all or none.

pub mod action;
pub mod address;
pub mod asset;
pub mod error;
pub mod escrow;
pub mod laws;
pub mod mint;
pub mod pool;
pub mod registry;
pub mod royalty;
pub mod state;
pub mod token;

pub use crate::action::{Action, Authority, RawAccount};
pub use crate::address::Address;
pub use crate::asset::{decode_metadata, MetadataSnapshot};
pub use crate::error::{PoolError, Rejection};
pub use crate::escrow::{
    buy_nft, buy_nft_decoded, init_sale_manager, redeem_nft, redeem_nft_decoded, sell_nft,
    sell_nft_decoded, BuyNft, InitSaleManager, RedeemNft, SellNft,
};
pub use crate::mint::{mint_nft, mint_nft_decoded, MintNft};
pub use crate::pool::{
    control_presale_live, init_pool, init_pool_decoded, set_authority, set_max_price,
    set_whitelist, update_whitelist, ControlPresaleLive, InitPool, SetAuthority, SetMaxPrice,
    SetWhitelist, UpdateWhitelist,
};
pub use crate::registry::SaleRegistry;
pub use crate::royalty::{claim, owed_to, withdraw_fund, withdraw_fund_decoded, WithdrawFund};
pub use crate::state::{
    Client, Creator, Metadata, MetadataExtended, Pool, SaleManager, SalePot, CLIENT_SIZE,
    CREATOR_SIZE, MAX_CREATOR_NUM, MAX_SALE_MANAGER_SIZE, METADATA_EXTENDED_SIZE, POOL_SIZE,
    SALE_POT_SIZE, SALE_STATE_LISTED, SALE_STATE_SOLD, SALE_STATE_UNLISTED,
};
pub use crate::token::{decode_mint, decode_token_account, MintAccount, TokenAccount};
