use vstd::prelude::*;
use crate::action::{Action, Authority, RawAccount};
use crate::address::Address;
use crate::asset::{decode_metadata, metadata_of, snapshot_view, MetadataSnapshot, MetadataSnapshotView};
use crate::error::{PoolError, Rejection};
use crate::state::{
    check_shares, shares_in_range, Creator, MetadataExtended, Pool, SaleManager, SalePot,
    SalePotView, FULL_BASIS_POINTS, MAX_CREATOR_NUM, SALE_STATE_LISTED, SALE_STATE_SOLD,
    SALE_STATE_UNLISTED,
};
use crate::token::{
    decode_mint, decode_token_account, mint_of, token_account_of, MintAccount, TokenAccount,
};

verus! {

/// The accounts of `init_sale_manager`.
#[derive(Clone, Debug, PartialEq, Eq)]
pub struct InitSaleManager {
    pub owner: Address,
    pub pool_key: Address,
    pub nft_mint: Address,
    pub sale_manager: SaleManager,
}

/// The accounts of `sell_nft`.
#[derive(Clone, Debug, PartialEq, Eq)]
pub struct SellNft {
    pub owner: Address,
    pub pool_key: Address,
    pub pool: Pool,
    pub nft_mint: RawAccount,
    pub metadata: RawAccount,
    pub metadata_extended: MetadataExtended,
    pub sale_manager_key: Address,
    pub sale_manager: SaleManager,
    pub sale_pot_key: Address,
    pub sale_pot: SalePot,
    pub nft_seller_token: RawAccount,
    pub nft_manager_token: RawAccount,
    pub manager_pot: RawAccount,
}

/// The accounts of `buy_nft`.
#[derive(Clone, Debug, PartialEq, Eq)]
pub struct BuyNft {
    pub owner: Address,
    pub pool_key: Address,
    pub pool: Pool,
    pub nft_mint: Address,
    pub metadata: RawAccount,
    pub sale_manager_key: Address,
    pub sale_manager: SaleManager,
    pub sale_pot: SalePot,
    pub nft_manager_token: RawAccount,
    pub nft_bidder_token: RawAccount,
    pub manager_pot: RawAccount,
    pub bidder_token: RawAccount,
}

/// The accounts of `redeem_nft`.
#[derive(Clone, Debug, PartialEq, Eq)]
pub struct RedeemNft {
    pub owner: Address,
    pub pool_key: Address,
    pub nft_mint: Address,
    pub metadata: RawAccount,
    pub sale_manager_key: Address,
    pub sale_manager: SaleManager,
    pub nft_seller_token: RawAccount,
    pub nft_manager_token: RawAccount,
}

/// The escrow's own authority over what it holds for `manager`.
pub open spec fn escrow_authority(key: Address, manager: SaleManager) -> Authority {
    Authority::Escrow { key, pool: manager.pool, nft_mint: manager.nft_mint, bump: manager.bump }
}

/// The escrow's own authority over what it holds for `manager`.
pub fn escrow_authority_of(key: Address, manager: &SaleManager) -> (a: Authority)
    ensures
        a == escrow_authority(key, *manager),
{
    Authority::Escrow { key, pool: manager.pool, nft_mint: manager.nft_mint, bump: manager.bump }
}

/// The escrow of a pair of pool and asset when it is made: nothing on sale.
pub open spec fn new_sale_manager(pre: SaleManager, pool: Address, nft_mint: Address, bump: u8) -> SaleManager {
    SaleManager { bump, pool, nft_mint, sale_state: SALE_STATE_UNLISTED, ..pre }
}

/// Makes the escrow of the asset `nft_mint` in the pool, with nothing on sale, in a
/// record that the host has just handed out. A record that holds anything is left
/// as it is and the making refused: an escrow that exists is never made again.
pub fn init_sale_manager(ctx: &mut InitSaleManager, bump: u8) -> (r: Result<(), Rejection>)
    ensures
        old(ctx).sale_manager != SaleManager::blank() ==> r == Err::<(), Rejection>(
            Rejection::AlreadyInitialized,
        ) && *final(ctx) == *old(ctx),
        old(ctx).sale_manager == SaleManager::blank() ==> r is Ok && *final(ctx) == (InitSaleManager {
            sale_manager: new_sale_manager(
                old(ctx).sale_manager,
                old(ctx).pool_key,
                old(ctx).nft_mint,
                bump,
            ),
            ..*old(ctx)
        }),
{
    if !ctx.sale_manager.is_blank() {
        return Err(Rejection::AlreadyInitialized);
    }
    ctx.sale_manager.bump = bump;
    ctx.sale_manager.pool = ctx.pool_key;
    ctx.sale_manager.nft_mint = ctx.nft_mint;
    ctx.sale_manager.sale_state = SALE_STATE_UNLISTED;
    Ok(())
}

/// The fee and the shares of a metadata record are percentages, and its creators fit
/// a stored `SalePot`.
pub open spec fn snapshot_in_bounds(snapshot: MetadataSnapshotView) -> bool {
    &&& snapshot.seller_fee_basis_points <= FULL_BASIS_POINTS
    &&& snapshot.creators matches Some(creators) ==> creators.len() <= MAX_CREATOR_NUM
        && shares_in_range(creators)
}

/// Whether the fee and the shares of a metadata record are percentages, and its
/// creators fit a stored `SalePot`.
pub fn check_snapshot(snapshot: &MetadataSnapshot) -> (ok: bool)
    ensures
        ok == snapshot_in_bounds(snapshot@),
{
    if snapshot.seller_fee_basis_points > FULL_BASIS_POINTS {
        return false;
    }
    match &snapshot.creators {
        Some(creators) => creators.len() <= MAX_CREATOR_NUM && check_shares(creators),
        None => true,
    }
}

/// The creators of a record, none of them settled.
pub open spec fn unsettled(creators: Option<Seq<Creator>>) -> Seq<Creator> {
    match creators {
        Some(list) => Seq::new(list.len(), |i: int| Creator { verified: false, ..list[i] }),
        None => Seq::empty(),
    }
}

/// Whether a mint is that of a single edition: one unit, not divisible.
pub open spec fn single_edition(mint: Option<MintAccount>) -> bool {
    mint matches Some(m) && m.supply == 1 && m.decimals == 0
}

/// The first rule that a listing breaks, if it breaks one. In this order: the three
/// token accounts and the asset's record must be readable; the caller must own the
/// account that gives the asset, and that account and the escrow's custody account
/// must be of the asset; the escrow's pot must be in the pool's currency and owned by
/// the escrow; the price must be within the cap, where there is one; the cap must be
/// of this pool; the escrow must be the one of this pool and of this asset; the fee
/// and the shares of the record must be percentages, and its creators fit a stored
/// ledger; the asset must be a single edition; and nothing may be listed or sold
/// already (`AlreadyTrading` where the asset is listed, `InvalidSaleState` in any
/// other state but unlisted).
pub open spec fn sell_nft_rejection(
    ctx: SellNft,
    price: u64,
    manager_pot: Option<TokenAccount>,
    nft_seller_token: Option<TokenAccount>,
    nft_manager_token: Option<TokenAccount>,
    metadata: Option<MetadataSnapshotView>,
    nft_mint: Option<MintAccount>,
) -> Option<Rejection> {
    if manager_pot is None || nft_seller_token is None || nft_manager_token is None
        || metadata is None {
        Some(Rejection::InvalidAccountData)
    } else if nft_seller_token->0.owner != ctx.owner {
        Some(Rejection::Pool(PoolError::InvalidTokenAccount))
    } else if nft_seller_token->0.mint != ctx.nft_mint.key {
        Some(Rejection::Pool(PoolError::InvalidTokenAccount))
    } else if nft_manager_token->0.mint != ctx.nft_mint.key {
        Some(Rejection::Pool(PoolError::InvalidTokenAccount))
    } else if manager_pot->0.mint != ctx.pool.sale_mint {
        Some(Rejection::Pool(PoolError::InvalidMintAccount))
    } else if manager_pot->0.owner != ctx.sale_manager_key {
        Some(Rejection::Pool(PoolError::InvalidTokenAccount))
    } else if ctx.metadata_extended.max_price < price && ctx.metadata_extended.max_price != 0 {
        Some(Rejection::Pool(PoolError::InvalidPrice))
    } else if ctx.metadata_extended.pool != ctx.pool_key {
        Some(Rejection::Pool(PoolError::InvalidPoolAccount))
    } else if ctx.sale_manager.pool != ctx.pool_key {
        Some(Rejection::Pool(PoolError::InvalidPoolAccount))
    } else if ctx.sale_manager.nft_mint != ctx.nft_mint.key {
        Some(Rejection::Pool(PoolError::InvalidMintAccount))
    } else if !snapshot_in_bounds(metadata->0) {
        Some(Rejection::InvalidAccountData)
    } else if !single_edition(nft_mint) {
        Some(Rejection::Pool(PoolError::InvalidMintAccount))
    } else if ctx.sale_manager.sale_state == SALE_STATE_LISTED {
        Some(Rejection::Pool(PoolError::AlreadyTrading))
    } else if ctx.sale_manager.sale_state != SALE_STATE_UNLISTED {
        Some(Rejection::Pool(PoolError::InvalidSaleState))
    } else {
        None
    }
}

/// The escrow once the asset is listed at `price`.
pub open spec fn listed_manager(ctx: SellNft, price: u64) -> SaleManager {
    SaleManager {
        sale_pot: ctx.sale_pot_key,
        seller: ctx.owner,
        price,
        sale_state: SALE_STATE_LISTED,
        nft_pot: ctx.nft_manager_token.key,
        ..ctx.sale_manager
    }
}

/// The settlement ledger of a new listing: the asset's royalty terms as they stand,
/// nobody settled but the seller of a primary sale.
pub open spec fn listed_pot(ctx: SellNft, price: u64, metadata: MetadataSnapshotView) -> SalePotView {
    SalePotView {
        is_used: false,
        sale_manager: ctx.sale_manager_key,
        pool_pot: ctx.manager_pot.key,
        price,
        is_primary: !metadata.primary_sale_happened,
        seller: ctx.owner,
        seller_verified: !metadata.primary_sale_happened,
        seller_fee_basis_points: metadata.seller_fee_basis_points,
        creators: unsettled(metadata.creators),
    }
}

/// What an accepted listing asks of the collaborators: the asset moves from the
/// seller into escrow, and the escrow becomes the authority over its record.
pub open spec fn sell_nft_actions(ctx: SellNft) -> Seq<Action> {
    seq![
        Action::Transfer {
            source: ctx.nft_seller_token.key,
            destination: ctx.nft_manager_token.key,
            authority: Authority::Caller { key: ctx.owner },
            amount: 1,
        },
        Action::UpdateMetadataAuthority {
            metadata: ctx.metadata.key,
            authority: Authority::Caller { key: ctx.owner },
            new_update_authority: ctx.sale_manager_key,
        },
    ]
}

/// How a listing ends: refused with nothing changed, or accepted with the escrow
/// listed, a new settlement ledger, and its requests.
pub open spec fn sell_nft_post(
    pre: SellNft,
    price: u64,
    manager_pot: Option<TokenAccount>,
    nft_seller_token: Option<TokenAccount>,
    nft_manager_token: Option<TokenAccount>,
    metadata: Option<MetadataSnapshotView>,
    nft_mint: Option<MintAccount>,
    r: Result<Vec<Action>, Rejection>,
    post: SellNft,
) -> bool {
    match sell_nft_rejection(
        pre,
        price,
        manager_pot,
        nft_seller_token,
        nft_manager_token,
        metadata,
        nft_mint,
    ) {
        Some(e) => r == Err::<Vec<Action>, Rejection>(e) && post == pre,
        None => {
            &&& r is Ok
            &&& r->Ok_0@ == sell_nft_actions(pre)
            &&& post.sale_manager == listed_manager(pre, price)
            &&& post.sale_pot@ == listed_pot(pre, price, metadata->0)
            &&& post.sale_pot@.wf()
            &&& post == (SellNft { sale_manager: post.sale_manager, sale_pot: post.sale_pot, ..pre })
        },
    }
}

/// Lists, given what the data of the accounts hold.
pub fn sell_nft_decoded(
    ctx: &mut SellNft,
    price: u64,
    manager_pot: Option<TokenAccount>,
    nft_seller_token: Option<TokenAccount>,
    nft_manager_token: Option<TokenAccount>,
    metadata: Option<MetadataSnapshot>,
    nft_mint: Option<MintAccount>,
) -> (r: Result<Vec<Action>, Rejection>)
    ensures
        sell_nft_post(
            *old(ctx),
            price,
            manager_pot,
            nft_seller_token,
            nft_manager_token,
            snapshot_view(metadata),
            nft_mint,
            r,
            *final(ctx),
        ),
{
    let (manager_pot, nft_seller_token, nft_manager_token, metadata) = match (
        manager_pot,
        nft_seller_token,
        nft_manager_token,
        metadata,
    ) {
        (Some(p), Some(s), Some(m), Some(d)) => (p, s, m, d),
        _ => {
            return Err(Rejection::InvalidAccountData);
        },
    };
    if nft_seller_token.owner != ctx.owner {
        return Err(Rejection::Pool(PoolError::InvalidTokenAccount));
    }
    if nft_seller_token.mint != ctx.nft_mint.key {
        return Err(Rejection::Pool(PoolError::InvalidTokenAccount));
    }
    if nft_manager_token.mint != ctx.nft_mint.key {
        return Err(Rejection::Pool(PoolError::InvalidTokenAccount));
    }
    if manager_pot.mint != ctx.pool.sale_mint {
        return Err(Rejection::Pool(PoolError::InvalidMintAccount));
    }
    if manager_pot.owner != ctx.sale_manager_key {
        return Err(Rejection::Pool(PoolError::InvalidTokenAccount));
    }
    if ctx.metadata_extended.max_price < price && ctx.metadata_extended.max_price != 0 {
        return Err(Rejection::Pool(PoolError::InvalidPrice));
    }
    if ctx.metadata_extended.pool != ctx.pool_key {
        return Err(Rejection::Pool(PoolError::InvalidPoolAccount));
    }
    if ctx.sale_manager.pool != ctx.pool_key {
        return Err(Rejection::Pool(PoolError::InvalidPoolAccount));
    }
    if ctx.sale_manager.nft_mint != ctx.nft_mint.key {
        return Err(Rejection::Pool(PoolError::InvalidMintAccount));
    }
    if !check_snapshot(&metadata) {
        return Err(Rejection::InvalidAccountData);
    }
    match nft_mint {
        Some(m) => {
            if m.supply != 1 || m.decimals != 0 {
                return Err(Rejection::Pool(PoolError::InvalidMintAccount));
            }
        },
        None => {
            return Err(Rejection::Pool(PoolError::InvalidMintAccount));
        },
    }
    if ctx.sale_manager.sale_state == SALE_STATE_LISTED {
        return Err(Rejection::Pool(PoolError::AlreadyTrading));
    }
    if ctx.sale_manager.sale_state != SALE_STATE_UNLISTED {
        return Err(Rejection::Pool(PoolError::InvalidSaleState));
    }
    let mut creators: Vec<Creator> = Vec::new();
    match &metadata.creators {
        Some(list) => {
            let mut i: usize = 0;
            while i < list.len()
                invariant
                    i <= list.len(),
                    creators@.len() == i,
                    forall|j: int|
                        0 <= j < i ==> creators@[j] == (Creator {
                            verified: false,
                            ..list@[j]
                        }),
                decreases list.len() - i,
            {
                creators.push(Creator { address: list[i].address, verified: false, share: list[i].share });
                i += 1;
            }
        },
        None => {},
    }
    assert(creators@ =~= unsettled(metadata@.creators));
    let mut actions: Vec<Action> = Vec::new();
    actions.push(
        Action::Transfer {
            source: ctx.nft_seller_token.key,
            destination: ctx.nft_manager_token.key,
            authority: Authority::Caller { key: ctx.owner },
            amount: 1,
        },
    );
    actions.push(
        Action::UpdateMetadataAuthority {
            metadata: ctx.metadata.key,
            authority: Authority::Caller { key: ctx.owner },
            new_update_authority: ctx.sale_manager_key,
        },
    );
    assert(actions@ =~= sell_nft_actions(*old(ctx)));
    ctx.sale_manager.sale_pot = ctx.sale_pot_key;
    ctx.sale_manager.seller = ctx.owner;
    ctx.sale_manager.price = price;
    ctx.sale_manager.sale_state = SALE_STATE_LISTED;
    ctx.sale_manager.nft_pot = ctx.nft_manager_token.key;
    let is_primary = !metadata.primary_sale_happened;
    ctx.sale_pot = SalePot {
        is_used: false,
        sale_manager: ctx.sale_manager_key,
        pool_pot: ctx.manager_pot.key,
        price,
        is_primary,
        seller: ctx.owner,
        seller_verified: is_primary,
        seller_fee_basis_points: metadata.seller_fee_basis_points,
        creators,
    };
    Ok(actions)
}

/// Lists a single-edition asset at `price`: it moves into escrow, and a new
/// settlement ledger takes the asset's royalty terms as they stand.
pub fn sell_nft(ctx: &mut SellNft, price: u64) -> (r: Result<Vec<Action>, Rejection>)
    ensures
        sell_nft_post(
            *old(ctx),
            price,
            token_account_of(old(ctx).manager_pot.data@),
            token_account_of(old(ctx).nft_seller_token.data@),
            token_account_of(old(ctx).nft_manager_token.data@),
            metadata_of(old(ctx).metadata.data@),
            mint_of(old(ctx).nft_mint.data@),
            r,
            *final(ctx),
        ),
{
    let manager_pot = decode_token_account(&ctx.manager_pot.data);
    let nft_seller_token = decode_token_account(&ctx.nft_seller_token.data);
    let nft_manager_token = decode_token_account(&ctx.nft_manager_token.data);
    let metadata = decode_metadata(&ctx.metadata.data);
    let nft_mint = decode_mint(&ctx.nft_mint.data);
    sell_nft_decoded(ctx, price, manager_pot, nft_seller_token, nft_manager_token, metadata, nft_mint)
}

/// The first rule that a purchase breaks, if it breaks one. In this order: the four
/// token accounts and the asset's record must be readable; the custody account and
/// the buyer's account for the asset must be of the asset; the escrow's pot and the
/// buyer's funds must be in the pool's currency, and the funds the buyer's own; the
/// funds must cover the price; the asset must be listed; the pot must be the one of
/// the settlement ledger, and the asset the one of the escrow; the buyer must not be
/// the seller; the custody account must be the one that the escrow recorded when the
/// asset was listed; the escrow must be the one of this pool.
pub open spec fn buy_nft_rejection(
    ctx: BuyNft,
    nft_manager_token: Option<TokenAccount>,
    nft_bidder_token: Option<TokenAccount>,
    manager_pot: Option<TokenAccount>,
    bidder_token: Option<TokenAccount>,
    metadata: Option<MetadataSnapshotView>,
) -> Option<Rejection> {
    if nft_manager_token is None || nft_bidder_token is None || manager_pot is None
        || bidder_token is None || metadata is None {
        Some(Rejection::InvalidAccountData)
    } else if nft_manager_token->0.mint != ctx.nft_mint {
        Some(Rejection::Pool(PoolError::InvalidTokenAccount))
    } else if nft_bidder_token->0.mint != ctx.nft_mint {
        Some(Rejection::Pool(PoolError::InvalidTokenAccount))
    } else if manager_pot->0.mint != ctx.pool.sale_mint {
        Some(Rejection::Pool(PoolError::InvalidTokenAccount))
    } else if bidder_token->0.mint != ctx.pool.sale_mint {
        Some(Rejection::Pool(PoolError::InvalidTokenAccount))
    } else if bidder_token->0.owner != ctx.owner {
        Some(Rejection::Pool(PoolError::InvalidTokenAccount))
    } else if bidder_token->0.amount < ctx.sale_manager.price {
        Some(Rejection::Pool(PoolError::NotEnoughTokenAmount))
    } else if ctx.sale_manager.sale_state != SALE_STATE_LISTED {
        Some(Rejection::Pool(PoolError::InvalidSaleState))
    } else if ctx.sale_pot.pool_pot != ctx.manager_pot.key {
        Some(Rejection::Pool(PoolError::InvalidTokenAccount))
    } else if ctx.sale_manager.nft_mint != ctx.nft_mint {
        Some(Rejection::Pool(PoolError::InvalidMintAccount))
    } else if ctx.sale_manager.seller == ctx.owner {
        Some(Rejection::Pool(PoolError::InvalidBidder))
    } else if ctx.sale_manager.nft_pot != ctx.nft_manager_token.key {
        Some(Rejection::Pool(PoolError::InvalidTokenAccount))
    } else if ctx.sale_manager.pool != ctx.pool_key {
        Some(Rejection::Pool(PoolError::InvalidPoolAccount))
    } else {
        None
    }
}

/// What an accepted purchase asks of the collaborators, in this order: the price
/// moves from the buyer to the escrow's pot, the asset's primary sale is recorded,
/// the asset moves from escrow to the buyer, and the buyer becomes the authority
/// over its record.
pub open spec fn buy_nft_actions(ctx: BuyNft) -> Seq<Action> {
    seq![
        Action::Transfer {
            source: ctx.bidder_token.key,
            destination: ctx.manager_pot.key,
            authority: Authority::Caller { key: ctx.owner },
            amount: ctx.sale_manager.price,
        },
        Action::MarkPrimarySale {
            metadata: ctx.metadata.key,
            authority: escrow_authority(ctx.sale_manager_key, ctx.sale_manager),
            token: ctx.nft_manager_token.key,
        },
        Action::Transfer {
            source: ctx.nft_manager_token.key,
            destination: ctx.nft_bidder_token.key,
            authority: escrow_authority(ctx.sale_manager_key, ctx.sale_manager),
            amount: 1,
        },
        Action::UpdateMetadataAuthority {
            metadata: ctx.metadata.key,
            authority: escrow_authority(ctx.sale_manager_key, ctx.sale_manager),
            new_update_authority: ctx.owner,
        },
    ]
}

/// The accounts after an accepted purchase: the escrow is sold, and the settlement
/// ledger is open to claims.
pub open spec fn buy_nft_effect(ctx: BuyNft) -> BuyNft {
    BuyNft {
        sale_manager: SaleManager { sale_state: SALE_STATE_SOLD, ..ctx.sale_manager },
        sale_pot: SalePot { is_used: true, ..ctx.sale_pot },
        ..ctx
    }
}

/// How a purchase ends: refused with nothing changed, or accepted with its effect
/// and its requests.
pub open spec fn buy_nft_post(
    pre: BuyNft,
    nft_manager_token: Option<TokenAccount>,
    nft_bidder_token: Option<TokenAccount>,
    manager_pot: Option<TokenAccount>,
    bidder_token: Option<TokenAccount>,
    metadata: Option<MetadataSnapshotView>,
    r: Result<Vec<Action>, Rejection>,
    post: BuyNft,
) -> bool {
    match buy_nft_rejection(pre, nft_manager_token, nft_bidder_token, manager_pot, bidder_token, metadata) {
        Some(e) => r == Err::<Vec<Action>, Rejection>(e) && post == pre,
        None => r is Ok && r->Ok_0@ == buy_nft_actions(pre) && post == buy_nft_effect(pre),
    }
}

/// Buys, given what the data of the accounts hold.
pub fn buy_nft_decoded(
    ctx: &mut BuyNft,
    nft_manager_token: Option<TokenAccount>,
    nft_bidder_token: Option<TokenAccount>,
    manager_pot: Option<TokenAccount>,
    bidder_token: Option<TokenAccount>,
    metadata: Option<MetadataSnapshot>,
) -> (r: Result<Vec<Action>, Rejection>)
    ensures
        buy_nft_post(
            *old(ctx),
            nft_manager_token,
            nft_bidder_token,
            manager_pot,
            bidder_token,
            snapshot_view(metadata),
            r,
            *final(ctx),
        ),
{
    let (nft_manager_token, nft_bidder_token, manager_pot, bidder_token) = match (
        nft_manager_token,
        nft_bidder_token,
        manager_pot,
        bidder_token,
        &metadata,
    ) {
        (Some(m), Some(b), Some(p), Some(t), Some(_)) => (m, b, p, t),
        _ => {
            return Err(Rejection::InvalidAccountData);
        },
    };
    if nft_manager_token.mint != ctx.nft_mint {
        return Err(Rejection::Pool(PoolError::InvalidTokenAccount));
    }
    if nft_bidder_token.mint != ctx.nft_mint {
        return Err(Rejection::Pool(PoolError::InvalidTokenAccount));
    }
    if manager_pot.mint != ctx.pool.sale_mint {
        return Err(Rejection::Pool(PoolError::InvalidTokenAccount));
    }
    if bidder_token.mint != ctx.pool.sale_mint {
        return Err(Rejection::Pool(PoolError::InvalidTokenAccount));
    }
    if bidder_token.owner != ctx.owner {
        return Err(Rejection::Pool(PoolError::InvalidTokenAccount));
    }
    if bidder_token.amount < ctx.sale_manager.price {
        return Err(Rejection::Pool(PoolError::NotEnoughTokenAmount));
    }
    if ctx.sale_manager.sale_state != SALE_STATE_LISTED {
        return Err(Rejection::Pool(PoolError::InvalidSaleState));
    }
    if ctx.sale_pot.pool_pot != ctx.manager_pot.key {
        return Err(Rejection::Pool(PoolError::InvalidTokenAccount));
    }
    if ctx.sale_manager.nft_mint != ctx.nft_mint {
        return Err(Rejection::Pool(PoolError::InvalidMintAccount));
    }
    if ctx.sale_manager.seller == ctx.owner {
        return Err(Rejection::Pool(PoolError::InvalidBidder));
    }
    if ctx.sale_manager.nft_pot != ctx.nft_manager_token.key {
        return Err(Rejection::Pool(PoolError::InvalidTokenAccount));
    }
    if ctx.sale_manager.pool != ctx.pool_key {
        return Err(Rejection::Pool(PoolError::InvalidPoolAccount));
    }
    let escrow = escrow_authority_of(ctx.sale_manager_key, &ctx.sale_manager);
    let mut actions: Vec<Action> = Vec::new();
    actions.push(
        Action::Transfer {
            source: ctx.bidder_token.key,
            destination: ctx.manager_pot.key,
            authority: Authority::Caller { key: ctx.owner },
            amount: ctx.sale_manager.price,
        },
    );
    actions.push(
        Action::MarkPrimarySale {
            metadata: ctx.metadata.key,
            authority: escrow,
            token: ctx.nft_manager_token.key,
        },
    );
    actions.push(
        Action::Transfer {
            source: ctx.nft_manager_token.key,
            destination: ctx.nft_bidder_token.key,
            authority: escrow,
            amount: 1,
        },
    );
    actions.push(
        Action::UpdateMetadataAuthority {
            metadata: ctx.metadata.key,
            authority: escrow,
            new_update_authority: ctx.owner,
        },
    );
    assert(actions@ =~= buy_nft_actions(*old(ctx)));
    ctx.sale_manager.sale_state = SALE_STATE_SOLD;
    ctx.sale_pot.is_used = true;
    assert(*ctx == buy_nft_effect(*old(ctx)));
    Ok(actions)
}

/// Buys the listed asset at its price: the price goes to the escrow's pot, the asset
/// to the buyer, and the settlement ledger opens to claims.
pub fn buy_nft(ctx: &mut BuyNft) -> (r: Result<Vec<Action>, Rejection>)
    ensures
        buy_nft_post(
            *old(ctx),
            token_account_of(old(ctx).nft_manager_token.data@),
            token_account_of(old(ctx).nft_bidder_token.data@),
            token_account_of(old(ctx).manager_pot.data@),
            token_account_of(old(ctx).bidder_token.data@),
            metadata_of(old(ctx).metadata.data@),
            r,
            *final(ctx),
        ),
{
    let nft_manager_token = decode_token_account(&ctx.nft_manager_token.data);
    let nft_bidder_token = decode_token_account(&ctx.nft_bidder_token.data);
    let manager_pot = decode_token_account(&ctx.manager_pot.data);
    let bidder_token = decode_token_account(&ctx.bidder_token.data);
    let metadata = decode_metadata(&ctx.metadata.data);
    buy_nft_decoded(ctx, nft_manager_token, nft_bidder_token, manager_pot, bidder_token, metadata)
}

/// The first rule that a redemption breaks, if it breaks one. In this order: the two
/// token accounts and the asset's record must be readable; the asset must be listed,
/// and be the one of the escrow; both token accounts must be of the asset; the caller
/// must be the recorded seller; the escrow must be the one of this pool.
pub open spec fn redeem_nft_rejection(
    ctx: RedeemNft,
    nft_manager_token: Option<TokenAccount>,
    nft_seller_token: Option<TokenAccount>,
    metadata: Option<MetadataSnapshotView>,
) -> Option<Rejection> {
    if nft_manager_token is None || nft_seller_token is None || metadata is None {
        Some(Rejection::InvalidAccountData)
    } else if ctx.sale_manager.sale_state != SALE_STATE_LISTED {
        Some(Rejection::Pool(PoolError::InvalidSaleState))
    } else if ctx.sale_manager.nft_mint != ctx.nft_mint {
        Some(Rejection::Pool(PoolError::InvalidMintAccount))
    } else if nft_manager_token->0.mint != ctx.nft_mint {
        Some(Rejection::Pool(PoolError::InvalidTokenAccount))
    } else if nft_seller_token->0.mint != ctx.nft_mint {
        Some(Rejection::Pool(PoolError::InvalidTokenAccount))
    } else if ctx.sale_manager.seller != ctx.owner {
        Some(Rejection::Pool(PoolError::InvalidSeller))
    } else if ctx.sale_manager.pool != ctx.pool_key {
        Some(Rejection::Pool(PoolError::InvalidPoolAccount))
    } else {
        None
    }
}

/// What an accepted redemption asks of the collaborators: the asset moves from
/// escrow back to the seller, who becomes the authority over its record again.
pub open spec fn redeem_nft_actions(ctx: RedeemNft) -> Seq<Action> {
    seq![
        Action::Transfer {
            source: ctx.nft_manager_token.key,
            destination: ctx.nft_seller_token.key,
            authority: escrow_authority(ctx.sale_manager_key, ctx.sale_manager),
            amount: 1,
        },
        Action::UpdateMetadataAuthority {
            metadata: ctx.metadata.key,
            authority: escrow_authority(ctx.sale_manager_key, ctx.sale_manager),
            new_update_authority: ctx.owner,
        },
    ]
}

/// The accounts after an accepted redemption: nothing is on sale.
pub open spec fn redeem_nft_effect(ctx: RedeemNft) -> RedeemNft {
    RedeemNft {
        sale_manager: SaleManager { sale_state: SALE_STATE_UNLISTED, ..ctx.sale_manager },
        ..ctx
    }
}

/// How a redemption ends: refused with nothing changed, or accepted with its effect
/// and its requests.
pub open spec fn redeem_nft_post(
    pre: RedeemNft,
    nft_manager_token: Option<TokenAccount>,
    nft_seller_token: Option<TokenAccount>,
    metadata: Option<MetadataSnapshotView>,
    r: Result<Vec<Action>, Rejection>,
    post: RedeemNft,
) -> bool {
    match redeem_nft_rejection(pre, nft_manager_token, nft_seller_token, metadata) {
        Some(e) => r == Err::<Vec<Action>, Rejection>(e) && post == pre,
        None => r is Ok && r->Ok_0@ == redeem_nft_actions(pre) && post == redeem_nft_effect(pre),
    }
}

/// Redeems, given what the data of the accounts hold.
pub fn redeem_nft_decoded(
    ctx: &mut RedeemNft,
    nft_manager_token: Option<TokenAccount>,
    nft_seller_token: Option<TokenAccount>,
    metadata: Option<MetadataSnapshot>,
) -> (r: Result<Vec<Action>, Rejection>)
    ensures
        redeem_nft_post(
            *old(ctx),
            nft_manager_token,
            nft_seller_token,
            snapshot_view(metadata),
            r,
            *final(ctx),
        ),
{
    let (nft_manager_token, nft_seller_token) = match (
        nft_manager_token,
        nft_seller_token,
        &metadata,
    ) {
        (Some(m), Some(s), Some(_)) => (m, s),
        _ => {
            return Err(Rejection::InvalidAccountData);
        },
    };
    if ctx.sale_manager.sale_state != SALE_STATE_LISTED {
        return Err(Rejection::Pool(PoolError::InvalidSaleState));
    }
    if ctx.sale_manager.nft_mint != ctx.nft_mint {
        return Err(Rejection::Pool(PoolError::InvalidMintAccount));
    }
    if nft_manager_token.mint != ctx.nft_mint {
        return Err(Rejection::Pool(PoolError::InvalidTokenAccount));
    }
    if nft_seller_token.mint != ctx.nft_mint {
        return Err(Rejection::Pool(PoolError::InvalidTokenAccount));
    }
    if ctx.sale_manager.seller != ctx.owner {
        return Err(Rejection::Pool(PoolError::InvalidSeller));
    }
    if ctx.sale_manager.pool != ctx.pool_key {
        return Err(Rejection::Pool(PoolError::InvalidPoolAccount));
    }
    let escrow = escrow_authority_of(ctx.sale_manager_key, &ctx.sale_manager);
    let mut actions: Vec<Action> = Vec::new();
    actions.push(
        Action::Transfer {
            source: ctx.nft_manager_token.key,
            destination: ctx.nft_seller_token.key,
            authority: escrow,
            amount: 1,
        },
    );
    actions.push(
        Action::UpdateMetadataAuthority {
            metadata: ctx.metadata.key,
            authority: escrow,
            new_update_authority: ctx.owner,
        },
    );
    assert(actions@ =~= redeem_nft_actions(*old(ctx)));
    ctx.sale_manager.sale_state = SALE_STATE_UNLISTED;
    assert(*ctx == redeem_nft_effect(*old(ctx)));
    Ok(actions)
}

/// Takes the listed asset back: it returns from escrow to its seller, and no funds
/// move.
pub fn redeem_nft(ctx: &mut RedeemNft) -> (r: Result<Vec<Action>, Rejection>)
    ensures
        redeem_nft_post(
            *old(ctx),
            token_account_of(old(ctx).nft_manager_token.data@),
            token_account_of(old(ctx).nft_seller_token.data@),
            metadata_of(old(ctx).metadata.data@),
            r,
            *final(ctx),
        ),
{
    let nft_manager_token = decode_token_account(&ctx.nft_manager_token.data);
    let nft_seller_token = decode_token_account(&ctx.nft_seller_token.data);
    let metadata = decode_metadata(&ctx.metadata.data);
    redeem_nft_decoded(ctx, nft_manager_token, nft_seller_token, metadata)
}

} // verus!
