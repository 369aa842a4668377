use borsh::BorshSerialize;
use nft_market::{
    buy_nft, buy_nft_decoded, init_sale_manager, redeem_nft, redeem_nft_decoded, sell_nft,
    sell_nft_decoded, Action, Address, Authority, BuyNft, Creator, InitSaleManager,
    MetadataExtended, MetadataSnapshot, MintAccount, Pool, PoolError, RawAccount, RedeemNft,
    Rejection, SaleManager, SalePot, SellNft, TokenAccount,
};
use spl_token::solana_program::program_option::COption;
use spl_token::solana_program::program_pack::Pack;
use spl_token::solana_program::pubkey::Pubkey;

fn addr(b: u8) -> Address {
    Address::new([b; 32])
}

fn token_bytes(mint: Address, owner: Address, amount: u64) -> Vec<u8> {
    let account = spl_token::state::Account {
        mint: Pubkey::new_from_array(mint.to_bytes()),
        owner: Pubkey::new_from_array(owner.to_bytes()),
        amount,
        delegate: COption::None,
        state: spl_token::state::AccountState::Initialized,
        is_native: COption::None,
        delegated_amount: 0,
        close_authority: COption::None,
    };
    let mut data = vec![0u8; spl_token::state::Account::LEN];
    account.pack_into_slice(&mut data);
    data
}

fn mint_bytes(supply: u64, decimals: u8) -> Vec<u8> {
    let mint = spl_token::state::Mint {
        mint_authority: COption::None,
        supply,
        decimals,
        is_initialized: true,
        freeze_authority: COption::None,
    };
    let mut data = vec![0u8; spl_token::state::Mint::LEN];
    mint.pack_into_slice(&mut data);
    data
}

fn token_account(key: Address, mint: Address, owner: Address, amount: u64) -> RawAccount {
    RawAccount { key, data: token_bytes(mint, owner, amount) }
}

fn metadata_bytes(fee: u16, creators: Option<Vec<(Address, bool, u8)>>, sold_before: bool) -> Vec<u8> {
    let record = metaplex_token_metadata::state::Metadata {
        key: metaplex_token_metadata::state::Key::MetadataV1,
        update_authority: Pubkey::new_from_array([3u8; 32]),
        mint: Pubkey::new_from_array([4u8; 32]),
        data: metaplex_token_metadata::state::Data {
            name: "Asset".to_string(),
            symbol: "AST".to_string(),
            uri: "https://example.com/asset.json".to_string(),
            seller_fee_basis_points: fee,
            creators: creators.map(|list| {
                list.into_iter()
                    .map(|(a, verified, share)| metaplex_token_metadata::state::Creator {
                        address: Pubkey::new_from_array(a.to_bytes()),
                        verified,
                        share,
                    })
                    .collect()
            }),
        },
        primary_sale_happened: sold_before,
        is_mutable: true,
        edition_nonce: None,
    };
    let mut data = record.try_to_vec().unwrap();
    data.resize(metaplex_token_metadata::state::MAX_METADATA_LEN, 0);
    data
}

const SELLER: u8 = 1;
const BUYER: u8 = 2;
const POOL: u8 = 10;
const CURRENCY: u8 = 50;
const NFT: u8 = 30;
const RECORD: u8 = 32;
const MANAGER: u8 = 60;
const POT: u8 = 61;
const SELLER_NFT: u8 = 70;
const ESCROW_NFT: u8 = 71;
const BUYER_NFT: u8 = 72;
const ESCROW_FUNDS: u8 = 73;
const BUYER_FUNDS: u8 = 74;
const BUMP: u8 = 253;

fn pool() -> Pool {
    Pool { owner: addr(9), presale_live: false, sale_mint: addr(CURRENCY) }
}

fn manager(state: u8) -> SaleManager {
    SaleManager {
        pool: addr(POOL),
        seller: if state == 0 { Address::default() } else { addr(SELLER) },
        nft_mint: addr(NFT),
        nft_pot: if state == 0 { Address::default() } else { addr(ESCROW_NFT) },
        sale_pot: if state == 0 { Address::default() } else { addr(POT) },
        price: if state == 0 { 0 } else { 1000 },
        sale_state: state,
        is_primary: false,
        bump: BUMP,
    }
}

fn blank_pot() -> SalePot {
    SalePot {
        is_used: false,
        sale_manager: Address::default(),
        pool_pot: Address::default(),
        price: 0,
        is_primary: false,
        seller: Address::default(),
        seller_verified: false,
        seller_fee_basis_points: 0,
        creators: Vec::new(),
    }
}

fn listed_pot() -> SalePot {
    SalePot {
        is_used: false,
        sale_manager: addr(MANAGER),
        pool_pot: addr(ESCROW_FUNDS),
        price: 1000,
        is_primary: true,
        seller: addr(SELLER),
        seller_verified: true,
        seller_fee_basis_points: 500,
        creators: vec![
            Creator { address: addr(40), verified: false, share: 30 },
            Creator { address: addr(41), verified: false, share: 20 },
        ],
    }
}

fn creators() -> Option<Vec<(Address, bool, u8)>> {
    Some(vec![(addr(40), true, 30), (addr(41), false, 20)])
}

fn escrow() -> Authority {
    Authority::Escrow { key: addr(MANAGER), pool: addr(POOL), nft_mint: addr(NFT), bump: BUMP }
}

fn selling(max_price: u64) -> SellNft {
    SellNft {
        owner: addr(SELLER),
        pool_key: addr(POOL),
        pool: pool(),
        nft_mint: RawAccount { key: addr(NFT), data: mint_bytes(1, 0) },
        metadata: RawAccount { key: addr(RECORD), data: metadata_bytes(500, creators(), false) },
        metadata_extended: MetadataExtended { pool: addr(POOL), max_price, bump: 1 },
        sale_manager_key: addr(MANAGER),
        sale_manager: manager(0),
        sale_pot_key: addr(POT),
        sale_pot: blank_pot(),
        nft_seller_token: token_account(addr(SELLER_NFT), addr(NFT), addr(SELLER), 1),
        nft_manager_token: token_account(addr(ESCROW_NFT), addr(NFT), addr(MANAGER), 0),
        manager_pot: token_account(addr(ESCROW_FUNDS), addr(CURRENCY), addr(MANAGER), 0),
    }
}

fn buying(balance: u64) -> BuyNft {
    BuyNft {
        owner: addr(BUYER),
        pool_key: addr(POOL),
        pool: pool(),
        nft_mint: addr(NFT),
        metadata: RawAccount { key: addr(RECORD), data: metadata_bytes(500, creators(), false) },
        sale_manager_key: addr(MANAGER),
        sale_manager: manager(1),
        sale_pot: listed_pot(),
        nft_manager_token: token_account(addr(ESCROW_NFT), addr(NFT), addr(MANAGER), 1),
        nft_bidder_token: token_account(addr(BUYER_NFT), addr(NFT), addr(BUYER), 0),
        manager_pot: token_account(addr(ESCROW_FUNDS), addr(CURRENCY), addr(MANAGER), 0),
        bidder_token: token_account(addr(BUYER_FUNDS), addr(CURRENCY), addr(BUYER), balance),
    }
}

fn redeeming() -> RedeemNft {
    RedeemNft {
        owner: addr(SELLER),
        pool_key: addr(POOL),
        nft_mint: addr(NFT),
        metadata: RawAccount { key: addr(RECORD), data: metadata_bytes(500, creators(), false) },
        sale_manager_key: addr(MANAGER),
        sale_manager: manager(1),
        nft_seller_token: token_account(addr(SELLER_NFT), addr(NFT), addr(SELLER), 0),
        nft_manager_token: token_account(addr(ESCROW_NFT), addr(NFT), addr(MANAGER), 1),
    }
}

fn sell_refused(ctx: SellNft, price: u64, why: Rejection) {
    let mut after = ctx.clone();
    assert_eq!(sell_nft(&mut after, price), Err(why));
    assert_eq!(after, ctx);
}

fn buy_refused(ctx: BuyNft, why: Rejection) {
    let mut after = ctx.clone();
    assert_eq!(buy_nft(&mut after), Err(why));
    assert_eq!(after, ctx);
}

fn redeem_refused(ctx: RedeemNft, why: Rejection) {
    let mut after = ctx.clone();
    assert_eq!(redeem_nft(&mut after), Err(why));
    assert_eq!(after, ctx);
}

#[test]
fn init_sale_manager_starts_unlisted() {
    let mut ctx = InitSaleManager {
        owner: addr(SELLER),
        pool_key: addr(POOL),
        nft_mint: addr(NFT),
        sale_manager: SaleManager::default(),
    };
    assert!(ctx.sale_manager.is_blank());
    assert_eq!(init_sale_manager(&mut ctx, BUMP), Ok(()));
    assert_eq!(ctx.sale_manager, manager(0));
    assert!(!ctx.sale_manager.is_blank());
}

#[test]
fn init_sale_manager_leaves_an_escrow_that_exists() {
    for state in [0u8, 1, 2] {
        let mut ctx = InitSaleManager {
            owner: addr(SELLER),
            pool_key: addr(POOL),
            nft_mint: addr(NFT),
            sale_manager: manager(state),
        };
        let before = ctx.clone();
        assert_eq!(init_sale_manager(&mut ctx, 1), Err(Rejection::AlreadyInitialized));
        assert_eq!(ctx, before);
    }
    let mut ctx = InitSaleManager {
        owner: addr(SELLER),
        pool_key: addr(POOL),
        nft_mint: addr(NFT),
        sale_manager: SaleManager { price: 1, ..SaleManager::default() },
    };
    assert_eq!(init_sale_manager(&mut ctx, 1), Err(Rejection::AlreadyInitialized));
    assert_eq!(ctx.sale_manager, SaleManager { price: 1, ..SaleManager::default() });
}

#[test]
fn sell_fails_through_the_escrow_of_another_pool_or_asset() {
    let mut ctx = selling(0);
    ctx.sale_manager.pool = addr(11);
    sell_refused(ctx, 5, Rejection::Pool(PoolError::InvalidPoolAccount));
    let mut ctx = selling(0);
    ctx.sale_manager.nft_mint = addr(99);
    sell_refused(ctx, 5, Rejection::Pool(PoolError::InvalidMintAccount));
    let mut ctx = selling(10);
    ctx.sale_manager.nft_mint = addr(99);
    sell_refused(ctx, 11, Rejection::Pool(PoolError::InvalidPrice));
}

#[test]
fn buy_and_redeem_fail_through_the_escrow_of_another_pool() {
    let mut ctx = buying(1000);
    ctx.pool_key = addr(11);
    buy_refused(ctx, Rejection::Pool(PoolError::InvalidPoolAccount));
    let mut ctx = buying(1000);
    ctx.sale_manager.pool = addr(11);
    ctx.sale_manager.seller = addr(BUYER);
    buy_refused(ctx, Rejection::Pool(PoolError::InvalidBidder));
    let mut ctx = redeeming();
    ctx.sale_manager.pool = addr(11);
    redeem_refused(ctx, Rejection::Pool(PoolError::InvalidPoolAccount));
    let mut ctx = redeeming();
    ctx.sale_manager.pool = addr(11);
    ctx.owner = addr(BUYER);
    redeem_refused(ctx, Rejection::Pool(PoolError::InvalidSeller));
}

#[test]
fn sell_lists_a_primary_sale() {
    let mut ctx = selling(0);
    let actions = sell_nft(&mut ctx, 1000).unwrap();
    assert_eq!(
        actions,
        vec![
            Action::Transfer {
                source: addr(SELLER_NFT),
                destination: addr(ESCROW_NFT),
                authority: Authority::Caller { key: addr(SELLER) },
                amount: 1,
            },
            Action::UpdateMetadataAuthority {
                metadata: addr(RECORD),
                authority: Authority::Caller { key: addr(SELLER) },
                new_update_authority: addr(MANAGER),
            },
        ]
    );
    assert_eq!(ctx.sale_manager, manager(1));
    assert_eq!(ctx.sale_pot, listed_pot());
    let mut expected = selling(0);
    expected.sale_manager = manager(1);
    expected.sale_pot = listed_pot();
    assert_eq!(ctx, expected);
}

#[test]
fn sell_lists_a_secondary_sale_with_the_seller_unsettled() {
    let mut ctx = selling(0);
    ctx.metadata.data = metadata_bytes(750, Some(vec![(addr(40), true, 100)]), true);
    assert!(sell_nft(&mut ctx, 42).is_ok());
    assert_eq!(
        ctx.sale_pot,
        SalePot {
            is_used: false,
            sale_manager: addr(MANAGER),
            pool_pot: addr(ESCROW_FUNDS),
            price: 42,
            is_primary: false,
            seller: addr(SELLER),
            seller_verified: false,
            seller_fee_basis_points: 750,
            creators: vec![Creator { address: addr(40), verified: false, share: 100 }],
        }
    );
    assert_eq!(ctx.sale_manager.price, 42);
    assert_eq!(ctx.sale_manager.sale_state, 1);
}

#[test]
fn sell_replaces_what_the_ledger_held() {
    let mut ctx = selling(0);
    ctx.sale_pot = SalePot {
        is_used: true,
        creators: vec![Creator { address: addr(99), verified: true, share: 1 }],
        ..blank_pot()
    };
    ctx.metadata.data = metadata_bytes(500, None, false);
    assert!(sell_nft(&mut ctx, 1000).is_ok());
    assert_eq!(ctx.sale_pot, SalePot { creators: Vec::new(), ..listed_pot() });
}

#[test]
fn sell_at_or_below_the_cap_succeeds() {
    let mut ctx = selling(1000);
    assert!(sell_nft(&mut ctx, 1000).is_ok());
    let mut ctx = selling(1000);
    assert!(sell_nft(&mut ctx, 1).is_ok());
    let mut ctx = selling(1000);
    assert!(sell_nft(&mut ctx, 0).is_ok());
}

#[test]
fn sell_above_the_cap_fails() {
    sell_refused(selling(1000), 1001, Rejection::Pool(PoolError::InvalidPrice));
    sell_refused(selling(1), u64::MAX, Rejection::Pool(PoolError::InvalidPrice));
}

#[test]
fn sell_without_a_cap_takes_any_price() {
    let mut ctx = selling(0);
    assert!(sell_nft(&mut ctx, u64::MAX).is_ok());
    assert_eq!(ctx.sale_manager.price, u64::MAX);
    assert_eq!(ctx.sale_pot.price, u64::MAX);
    let mut ctx = selling(0);
    assert!(sell_nft(&mut ctx, 0).is_ok());
}

#[test]
fn sell_fails_on_unreadable_accounts() {
    let mut ctx = selling(0);
    ctx.manager_pot.data = Vec::new();
    sell_refused(ctx, 5, Rejection::InvalidAccountData);
    let mut ctx = selling(0);
    ctx.nft_seller_token.data.truncate(100);
    sell_refused(ctx, 5, Rejection::InvalidAccountData);
    let mut ctx = selling(0);
    ctx.nft_manager_token.data[108] = 3;
    sell_refused(ctx, 5, Rejection::InvalidAccountData);
    let mut ctx = selling(0);
    ctx.metadata.data = vec![4u8; 10];
    sell_refused(ctx, 5, Rejection::InvalidAccountData);
}

#[test]
fn sell_fails_on_royalty_terms_out_of_bounds() {
    let mut ctx = selling(0);
    ctx.metadata.data = metadata_bytes(10001, None, false);
    sell_refused(ctx, 5, Rejection::InvalidAccountData);
    let mut ctx = selling(0);
    ctx.metadata.data = metadata_bytes(500, Some(vec![(addr(40), true, 101)]), false);
    sell_refused(ctx, 5, Rejection::InvalidAccountData);
    let mut ctx = selling(0);
    ctx.metadata.data = metadata_bytes(500, Some(vec![(addr(40), true, 10); 7]), false);
    sell_refused(ctx, 5, Rejection::InvalidAccountData);
    let mut ctx = selling(0);
    ctx.metadata.data = metadata_bytes(10000, Some(vec![(addr(40), true, 100); 6]), false);
    assert!(sell_nft(&mut ctx, 5).is_ok());
    assert_eq!(ctx.sale_pot.creators.len(), 6);
}

#[test]
fn sell_fails_on_an_asset_that_is_no_single_edition() {
    let mut ctx = selling(0);
    ctx.nft_mint.data = mint_bytes(2, 0);
    sell_refused(ctx, 5, Rejection::Pool(PoolError::InvalidMintAccount));
    let mut ctx = selling(0);
    ctx.nft_mint.data = mint_bytes(0, 0);
    sell_refused(ctx, 5, Rejection::Pool(PoolError::InvalidMintAccount));
    let mut ctx = selling(0);
    ctx.nft_mint.data = mint_bytes(1, 1);
    sell_refused(ctx, 5, Rejection::Pool(PoolError::InvalidMintAccount));
    let mut ctx = selling(0);
    ctx.nft_mint.data = vec![0u8; 81];
    sell_refused(ctx, 5, Rejection::Pool(PoolError::InvalidMintAccount));
}

#[test]
fn sell_checks_in_order() {
    let mut ctx = selling(10);
    ctx.metadata.data = metadata_bytes(10001, None, false);
    ctx.nft_mint.data = mint_bytes(2, 0);
    ctx.sale_manager = manager(1);
    sell_refused(ctx.clone(), 11, Rejection::Pool(PoolError::InvalidPrice));
    sell_refused(ctx.clone(), 10, Rejection::InvalidAccountData);
    ctx.metadata.data = metadata_bytes(10000, None, false);
    sell_refused(ctx.clone(), 10, Rejection::Pool(PoolError::InvalidMintAccount));
    ctx.nft_mint.data = mint_bytes(1, 0);
    sell_refused(ctx.clone(), 10, Rejection::Pool(PoolError::AlreadyTrading));
    ctx.nft_seller_token = token_account(addr(SELLER_NFT), addr(NFT), addr(BUYER), 1);
    sell_refused(ctx, 11, Rejection::Pool(PoolError::InvalidTokenAccount));
}

#[test]
fn sell_fails_when_the_caller_does_not_hold_the_asset() {
    let mut ctx = selling(0);
    ctx.nft_seller_token = token_account(addr(SELLER_NFT), addr(NFT), addr(BUYER), 1);
    sell_refused(ctx, 5, Rejection::Pool(PoolError::InvalidTokenAccount));
    let mut ctx = selling(0);
    ctx.nft_seller_token = token_account(addr(SELLER_NFT), addr(99), addr(SELLER), 1);
    sell_refused(ctx, 5, Rejection::Pool(PoolError::InvalidTokenAccount));
    let mut ctx = selling(0);
    ctx.nft_manager_token = token_account(addr(ESCROW_NFT), addr(99), addr(MANAGER), 0);
    sell_refused(ctx, 5, Rejection::Pool(PoolError::InvalidTokenAccount));
}

#[test]
fn sell_fails_on_a_pot_that_is_not_the_escrows() {
    let mut ctx = selling(0);
    ctx.manager_pot = token_account(addr(ESCROW_FUNDS), addr(51), addr(MANAGER), 0);
    sell_refused(ctx, 5, Rejection::Pool(PoolError::InvalidMintAccount));
    let mut ctx = selling(0);
    ctx.manager_pot = token_account(addr(ESCROW_FUNDS), addr(CURRENCY), addr(SELLER), 0);
    sell_refused(ctx, 5, Rejection::Pool(PoolError::InvalidTokenAccount));
}

#[test]
fn sell_fails_on_a_cap_of_another_pool() {
    let mut ctx = selling(0);
    ctx.metadata_extended.pool = addr(11);
    sell_refused(ctx, 5, Rejection::Pool(PoolError::InvalidPoolAccount));
    let mut ctx = selling(10);
    ctx.metadata_extended.pool = addr(11);
    sell_refused(ctx, 11, Rejection::Pool(PoolError::InvalidPrice));
}

#[test]
fn sell_fails_unless_unlisted() {
    let mut ctx = selling(0);
    ctx.sale_manager = manager(1);
    sell_refused(ctx, 5, Rejection::Pool(PoolError::AlreadyTrading));
    let mut ctx = selling(0);
    ctx.sale_manager = manager(2);
    sell_refused(ctx, 5, Rejection::Pool(PoolError::InvalidSaleState));
    let mut ctx = selling(0);
    ctx.sale_manager.sale_state = 200;
    sell_refused(ctx, 5, Rejection::Pool(PoolError::InvalidSaleState));
}

#[test]
fn sell_decoded_goes_by_the_values_given() {
    let mut ctx = selling(0);
    ctx.metadata.data = Vec::new();
    ctx.manager_pot.data = Vec::new();
    ctx.nft_seller_token.data = Vec::new();
    ctx.nft_manager_token.data = Vec::new();
    let pot = TokenAccount { mint: addr(CURRENCY), owner: addr(MANAGER), amount: 0 };
    let seller = TokenAccount { mint: addr(NFT), owner: addr(SELLER), amount: 1 };
    let held = TokenAccount { mint: addr(NFT), owner: addr(MANAGER), amount: 0 };
    let terms = MetadataSnapshot {
        seller_fee_basis_points: 500,
        creators: Some(vec![
            Creator { address: addr(40), verified: true, share: 30 },
            Creator { address: addr(41), verified: true, share: 20 },
        ]),
        primary_sale_happened: false,
    };
    ctx.nft_mint.data = Vec::new();
    let single = Some(MintAccount { supply: 1, decimals: 0 });
    assert_eq!(
        sell_nft_decoded(&mut ctx, 1000, Some(pot), Some(seller), None, Some(terms.clone()), single),
        Err(Rejection::InvalidAccountData)
    );
    assert_eq!(
        sell_nft_decoded(&mut ctx, 1000, Some(pot), Some(seller), Some(held), None, single),
        Err(Rejection::InvalidAccountData)
    );
    assert_eq!(
        sell_nft_decoded(&mut ctx, 1000, Some(pot), Some(seller), Some(held), Some(terms.clone()), None),
        Err(Rejection::Pool(PoolError::InvalidMintAccount))
    );
    assert_eq!(ctx.sale_manager, manager(0));
    assert!(
        sell_nft_decoded(&mut ctx, 1000, Some(pot), Some(seller), Some(held), Some(terms), single).is_ok()
    );
    assert_eq!(ctx.sale_manager, manager(1));
    assert_eq!(ctx.sale_pot, listed_pot());
}

#[test]
fn buy_moves_to_sold_and_opens_the_ledger() {
    let mut ctx = buying(1000);
    let actions = buy_nft(&mut ctx).unwrap();
    assert_eq!(
        actions,
        vec![
            Action::Transfer {
                source: addr(BUYER_FUNDS),
                destination: addr(ESCROW_FUNDS),
                authority: Authority::Caller { key: addr(BUYER) },
                amount: 1000,
            },
            Action::MarkPrimarySale { metadata: addr(RECORD), authority: escrow(), token: addr(ESCROW_NFT) },
            Action::Transfer {
                source: addr(ESCROW_NFT),
                destination: addr(BUYER_NFT),
                authority: escrow(),
                amount: 1,
            },
            Action::UpdateMetadataAuthority {
                metadata: addr(RECORD),
                authority: escrow(),
                new_update_authority: addr(BUYER),
            },
        ]
    );
    let mut expected = buying(1000);
    expected.sale_manager.sale_state = 2;
    expected.sale_pot.is_used = true;
    assert_eq!(ctx, expected);
}

#[test]
fn buy_fails_if_buyer_is_seller() {
    let mut ctx = buying(1000);
    ctx.sale_manager.seller = addr(BUYER);
    buy_refused(ctx, Rejection::Pool(PoolError::InvalidBidder));
}

#[test]
fn buy_fails_if_balance_is_below_price() {
    buy_refused(buying(999), Rejection::Pool(PoolError::NotEnoughTokenAmount));
    buy_refused(buying(0), Rejection::Pool(PoolError::NotEnoughTokenAmount));
    let mut ctx = buying(u64::MAX);
    assert!(buy_nft(&mut ctx).is_ok());
}

#[test]
fn buy_fails_unless_listed() {
    let mut ctx = buying(1000);
    ctx.sale_manager.sale_state = 0;
    buy_refused(ctx, Rejection::Pool(PoolError::InvalidSaleState));
    let mut ctx = buying(1000);
    ctx.sale_manager.sale_state = 2;
    buy_refused(ctx, Rejection::Pool(PoolError::InvalidSaleState));
}

#[test]
fn buy_twice_fails_the_second_time() {
    let mut ctx = buying(5000);
    assert!(buy_nft(&mut ctx).is_ok());
    let sold = ctx.clone();
    assert_eq!(buy_nft(&mut ctx), Err(Rejection::Pool(PoolError::InvalidSaleState)));
    assert_eq!(ctx, sold);
}

#[test]
fn buy_fails_on_accounts_of_other_mints() {
    let mut ctx = buying(1000);
    ctx.nft_manager_token = token_account(addr(ESCROW_NFT), addr(99), addr(MANAGER), 1);
    buy_refused(ctx, Rejection::Pool(PoolError::InvalidTokenAccount));
    let mut ctx = buying(1000);
    ctx.nft_bidder_token = token_account(addr(BUYER_NFT), addr(99), addr(BUYER), 0);
    buy_refused(ctx, Rejection::Pool(PoolError::InvalidTokenAccount));
    let mut ctx = buying(1000);
    ctx.manager_pot = token_account(addr(ESCROW_FUNDS), addr(99), addr(MANAGER), 0);
    buy_refused(ctx, Rejection::Pool(PoolError::InvalidTokenAccount));
    let mut ctx = buying(1000);
    ctx.bidder_token = token_account(addr(BUYER_FUNDS), addr(99), addr(BUYER), 1000);
    buy_refused(ctx, Rejection::Pool(PoolError::InvalidTokenAccount));
    let mut ctx = buying(1000);
    ctx.bidder_token = token_account(addr(BUYER_FUNDS), addr(CURRENCY), addr(SELLER), 1000);
    buy_refused(ctx, Rejection::Pool(PoolError::InvalidTokenAccount));
}

#[test]
fn buy_fails_on_references_that_do_not_match() {
    let mut ctx = buying(1000);
    ctx.sale_pot.pool_pot = addr(99);
    buy_refused(ctx, Rejection::Pool(PoolError::InvalidTokenAccount));
    let mut ctx = buying(1000);
    ctx.sale_manager.nft_mint = addr(99);
    buy_refused(ctx, Rejection::Pool(PoolError::InvalidMintAccount));
}

#[test]
fn buy_fails_on_a_custody_account_that_the_escrow_did_not_record() {
    let mut ctx = buying(1000);
    ctx.sale_manager.nft_pot = addr(99);
    buy_refused(ctx, Rejection::Pool(PoolError::InvalidTokenAccount));
    let mut ctx = buying(1000);
    ctx.sale_manager.nft_pot = addr(99);
    ctx.sale_manager.seller = addr(BUYER);
    buy_refused(ctx, Rejection::Pool(PoolError::InvalidBidder));
}

#[test]
fn buy_fails_on_unreadable_accounts() {
    let mut ctx = buying(1000);
    ctx.bidder_token.data = Vec::new();
    buy_refused(ctx, Rejection::InvalidAccountData);
    let mut ctx = buying(1000);
    ctx.metadata.data = Vec::new();
    buy_refused(ctx, Rejection::InvalidAccountData);
    let mut ctx = buying(1000);
    ctx.nft_bidder_token.data = vec![0u8; 164];
    buy_refused(ctx, Rejection::InvalidAccountData);
}

#[test]
fn buy_checks_in_order() {
    let mut ctx = buying(1);
    ctx.sale_manager.sale_state = 0;
    ctx.sale_manager.seller = addr(BUYER);
    buy_refused(ctx, Rejection::Pool(PoolError::NotEnoughTokenAmount));
    let mut ctx = buying(1000);
    ctx.sale_manager.sale_state = 0;
    ctx.sale_manager.seller = addr(BUYER);
    buy_refused(ctx, Rejection::Pool(PoolError::InvalidSaleState));
}

#[test]
fn buy_decoded_goes_by_the_values_given() {
    let mut ctx = buying(0);
    let held = TokenAccount { mint: addr(NFT), owner: addr(MANAGER), amount: 1 };
    let wanted = TokenAccount { mint: addr(NFT), owner: addr(BUYER), amount: 0 };
    let pot = TokenAccount { mint: addr(CURRENCY), owner: addr(MANAGER), amount: 0 };
    let funds = TokenAccount { mint: addr(CURRENCY), owner: addr(BUYER), amount: 1000 };
    let terms = MetadataSnapshot { seller_fee_basis_points: 0, creators: None, primary_sale_happened: false };
    assert_eq!(
        buy_nft_decoded(&mut ctx, Some(held), Some(wanted), Some(pot), Some(funds), None),
        Err(Rejection::InvalidAccountData)
    );
    assert_eq!(
        buy_nft_decoded(
            &mut ctx,
            Some(held),
            Some(wanted),
            Some(pot),
            Some(TokenAccount { amount: 999, ..funds }),
            Some(terms.clone())
        ),
        Err(Rejection::Pool(PoolError::NotEnoughTokenAmount))
    );
    assert!(buy_nft_decoded(&mut ctx, Some(held), Some(wanted), Some(pot), Some(funds), Some(terms)).is_ok());
    assert_eq!(ctx.sale_manager.sale_state, 2);
    assert!(ctx.sale_pot.is_used);
}

#[test]
fn redeem_returns_to_unlisted_without_moving_funds() {
    let mut ctx = redeeming();
    let actions = redeem_nft(&mut ctx).unwrap();
    assert_eq!(
        actions,
        vec![
            Action::Transfer {
                source: addr(ESCROW_NFT),
                destination: addr(SELLER_NFT),
                authority: escrow(),
                amount: 1,
            },
            Action::UpdateMetadataAuthority {
                metadata: addr(RECORD),
                authority: escrow(),
                new_update_authority: addr(SELLER),
            },
        ]
    );
    let mut expected = redeeming();
    expected.sale_manager.sale_state = 0;
    assert_eq!(ctx, expected);
}

#[test]
fn redeem_fails_unless_listed() {
    let mut ctx = redeeming();
    ctx.sale_manager.sale_state = 0;
    redeem_refused(ctx, Rejection::Pool(PoolError::InvalidSaleState));
    let mut ctx = redeeming();
    ctx.sale_manager.sale_state = 2;
    redeem_refused(ctx, Rejection::Pool(PoolError::InvalidSaleState));
}

#[test]
fn redeem_is_for_the_seller_only() {
    let mut ctx = redeeming();
    ctx.owner = addr(BUYER);
    redeem_refused(ctx, Rejection::Pool(PoolError::InvalidSeller));
}

#[test]
fn redeem_fails_on_accounts_that_do_not_match() {
    let mut ctx = redeeming();
    ctx.sale_manager.nft_mint = addr(99);
    redeem_refused(ctx, Rejection::Pool(PoolError::InvalidMintAccount));
    let mut ctx = redeeming();
    ctx.nft_manager_token = token_account(addr(ESCROW_NFT), addr(99), addr(MANAGER), 1);
    redeem_refused(ctx, Rejection::Pool(PoolError::InvalidTokenAccount));
    let mut ctx = redeeming();
    ctx.nft_seller_token = token_account(addr(SELLER_NFT), addr(99), addr(SELLER), 0);
    redeem_refused(ctx, Rejection::Pool(PoolError::InvalidTokenAccount));
    let mut ctx = redeeming();
    ctx.metadata.data = vec![0u8; 3];
    redeem_refused(ctx, Rejection::InvalidAccountData);
}

#[test]
fn redeem_decoded_goes_by_the_values_given() {
    let mut ctx = redeeming();
    let held = TokenAccount { mint: addr(NFT), owner: addr(MANAGER), amount: 1 };
    let back = TokenAccount { mint: addr(NFT), owner: addr(SELLER), amount: 0 };
    let terms = MetadataSnapshot { seller_fee_basis_points: 0, creators: None, primary_sale_happened: false };
    assert_eq!(
        redeem_nft_decoded(&mut ctx, None, Some(back), Some(terms.clone())),
        Err(Rejection::InvalidAccountData)
    );
    assert_eq!(ctx.sale_manager.sale_state, 1);
    assert!(redeem_nft_decoded(&mut ctx, Some(held), Some(back), Some(terms)).is_ok());
    assert_eq!(ctx.sale_manager.sale_state, 0);
}

#[test]
fn list_redeem_list_buy_follows_the_state_machine() {
    let mut sale = selling(0);
    assert!(sell_nft(&mut sale, 1000).is_ok());
    assert_eq!(sale.sale_manager.sale_state, 1);

    let mut back = redeeming();
    back.sale_manager = sale.sale_manager;
    assert!(redeem_nft(&mut back).is_ok());
    assert_eq!(back.sale_manager.sale_state, 0);

    let mut again = selling(0);
    again.sale_manager = back.sale_manager;
    assert!(sell_nft(&mut again, 2000).is_ok());
    assert_eq!(again.sale_manager.sale_state, 1);
    assert_eq!(again.sale_manager.price, 2000);

    let mut purchase = buying(2000);
    purchase.sale_manager = again.sale_manager;
    purchase.sale_pot = again.sale_pot.clone();
    assert!(buy_nft(&mut purchase).is_ok());
    assert_eq!(purchase.sale_manager.sale_state, 2);
    assert!(purchase.sale_pot.is_used);

    let mut late = redeeming();
    late.sale_manager = purchase.sale_manager;
    assert_eq!(redeem_nft(&mut late), Err(Rejection::Pool(PoolError::InvalidSaleState)));
    let mut relist = selling(0);
    relist.sale_manager = purchase.sale_manager;
    assert_eq!(sell_nft(&mut relist, 1), Err(Rejection::Pool(PoolError::InvalidSaleState)));
}
