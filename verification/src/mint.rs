use vstd::prelude::*;
use crate::action::{Action, RawAccount};
use crate::address::Address;
use crate::error::{PoolError, Rejection};
use crate::state::{Client, Metadata, MetadataExtended, Pool};
use crate::token::{decode_mint, decode_token_account, mint_of, token_account_of, MintAccount, TokenAccount};

verus! {

/// The accounts of `mint_nft`.
#[derive(Clone, Debug, PartialEq, Eq)]
pub struct MintNft {
    pub owner: Address,
    pub pool_key: Address,
    pub pool: Pool,
    pub client: Client,
    pub mint: RawAccount,
    pub token_account: RawAccount,
    pub metadata: Address,
    pub master_edition: Address,
    pub metadata_extended: MetadataExtended,
}

/// The first rule that a mint breaks, if it breaks one. `mint` and `token_account`
/// are what the data of the two accounts hold. In this order: the client record must
/// be the caller's own; the presale must run; the client must be of this pool,
/// whitelisted, and have something left to mint; both accounts must be readable; the
/// mint must be new, with no supply and no decimals; the custody account must be of
/// that mint.
pub open spec fn mint_nft_rejection(
    ctx: MintNft,
    mint: Option<MintAccount>,
    token_account: Option<TokenAccount>,
) -> Option<Rejection> {
    if ctx.client.owner != ctx.owner {
        Some(Rejection::NotClientOwner)
    } else if !ctx.pool.presale_live {
        Some(Rejection::Pool(PoolError::PresaleNotLive))
    } else if ctx.client.pool != ctx.pool_key {
        Some(Rejection::Pool(PoolError::InvalidPoolAccount))
    } else if !ctx.client.whitelisted {
        Some(Rejection::Pool(PoolError::NotWhitelisted))
    } else if ctx.client.amount == 0 {
        Some(Rejection::Pool(PoolError::MintAmountIsZero))
    } else if mint is None || token_account is None {
        Some(Rejection::InvalidAccountData)
    } else if mint->0.decimals != 0 || mint->0.supply != 0 {
        Some(Rejection::Pool(PoolError::InvalidMintAccount))
    } else if token_account->0.mint != ctx.mint.key {
        Some(Rejection::Pool(PoolError::InvalidTokenAccount))
    } else {
        None
    }
}

/// What an accepted mint asks of the collaborators: one unit issued to the custody
/// account, the asset's record, and its mark as a single edition.
pub open spec fn mint_nft_actions(ctx: MintNft, data: Metadata) -> Seq<Action> {
    seq![
        Action::MintTo {
            mint: ctx.mint.key,
            account: ctx.token_account.key,
            owner: ctx.owner,
            amount: 1,
        },
        Action::CreateMetadata {
            metadata: ctx.metadata,
            mint: ctx.mint.key,
            mint_authority: ctx.owner,
            payer: ctx.owner,
            update_authority: ctx.owner,
            name: data.name,
            symbol: data.symbol,
            uri: data.uri,
            creators: data.creators,
            seller_fee_basis_points: data.seller_fee_basis_points,
            update_authority_is_signer: true,
            is_mutable: data.is_mutable,
        },
        Action::CreateMasterEdition {
            edition: ctx.master_edition,
            mint: ctx.mint.key,
            update_authority: ctx.owner,
            mint_authority: ctx.owner,
            metadata: ctx.metadata,
            payer: ctx.owner,
            max_supply: None,
        },
    ]
}

/// The accounts after an accepted mint: one unit less to mint, and a price cap of 0
/// for the new asset.
pub open spec fn mint_nft_effect(ctx: MintNft, bump: u8) -> MintNft {
    MintNft {
        client: Client { amount: (ctx.client.amount - 1) as u64, ..ctx.client },
        metadata_extended: MetadataExtended { pool: ctx.pool_key, max_price: 0, bump },
        ..ctx
    }
}

/// How a mint ends: refused with nothing changed, or accepted with its effect and
/// its requests.
pub open spec fn mint_nft_post(
    pre: MintNft,
    bump: u8,
    data: Metadata,
    mint: Option<MintAccount>,
    token_account: Option<TokenAccount>,
    r: Result<Vec<Action>, Rejection>,
    post: MintNft,
) -> bool {
    match mint_nft_rejection(pre, mint, token_account) {
        Some(e) => r == Err::<Vec<Action>, Rejection>(e) && post == pre,
        None => r is Ok && r->Ok_0@ == mint_nft_actions(pre, data) && post == mint_nft_effect(
            pre,
            bump,
        ),
    }
}

/// Mints, given what the data of the mint and of the custody account hold.
pub fn mint_nft_decoded(
    ctx: &mut MintNft,
    bump: u8,
    data: Metadata,
    mint: Option<MintAccount>,
    token_account: Option<TokenAccount>,
) -> (r: Result<Vec<Action>, Rejection>)
    ensures
        mint_nft_post(*old(ctx), bump, data, mint, token_account, r, *final(ctx)),
{
    if ctx.client.owner != ctx.owner {
        return Err(Rejection::NotClientOwner);
    }
    if !ctx.pool.presale_live {
        return Err(Rejection::Pool(PoolError::PresaleNotLive));
    }
    if ctx.client.pool != ctx.pool_key {
        return Err(Rejection::Pool(PoolError::InvalidPoolAccount));
    }
    if !ctx.client.whitelisted {
        return Err(Rejection::Pool(PoolError::NotWhitelisted));
    }
    if ctx.client.amount == 0 {
        return Err(Rejection::Pool(PoolError::MintAmountIsZero));
    }
    let (mint, token_account) = match (mint, token_account) {
        (Some(m), Some(t)) => (m, t),
        _ => {
            return Err(Rejection::InvalidAccountData);
        },
    };
    if mint.decimals != 0 || mint.supply != 0 {
        return Err(Rejection::Pool(PoolError::InvalidMintAccount));
    }
    if token_account.mint != ctx.mint.key {
        return Err(Rejection::Pool(PoolError::InvalidTokenAccount));
    }
    let mut actions: Vec<Action> = Vec::new();
    actions.push(
        Action::MintTo {
            mint: ctx.mint.key,
            account: ctx.token_account.key,
            owner: ctx.owner,
            amount: 1,
        },
    );
    actions.push(
        Action::CreateMetadata {
            metadata: ctx.metadata,
            mint: ctx.mint.key,
            mint_authority: ctx.owner,
            payer: ctx.owner,
            update_authority: ctx.owner,
            name: data.name,
            symbol: data.symbol,
            uri: data.uri,
            creators: data.creators,
            seller_fee_basis_points: data.seller_fee_basis_points,
            update_authority_is_signer: true,
            is_mutable: data.is_mutable,
        },
    );
    actions.push(
        Action::CreateMasterEdition {
            edition: ctx.master_edition,
            mint: ctx.mint.key,
            update_authority: ctx.owner,
            mint_authority: ctx.owner,
            metadata: ctx.metadata,
            payer: ctx.owner,
            max_supply: None,
        },
    );
    assert(actions@ =~= mint_nft_actions(*old(ctx), data));
    ctx.client.amount = ctx.client.amount - 1;
    ctx.metadata_extended.pool = ctx.pool_key;
    ctx.metadata_extended.max_price = 0;
    ctx.metadata_extended.bump = bump;
    assert(*ctx == mint_nft_effect(*old(ctx), bump));
    Ok(actions)
}

/// Mints one asset for a whitelisted bidder while the presale runs.
pub fn mint_nft(ctx: &mut MintNft, bump: u8, data: Metadata) -> (r: Result<Vec<Action>, Rejection>)
    ensures
        mint_nft_post(
            *old(ctx),
            bump,
            data,
            mint_of(old(ctx).mint.data@),
            token_account_of(old(ctx).token_account.data@),
            r,
            *final(ctx),
        ),
{
    let mint = decode_mint(&ctx.mint.data);
    let token_account = decode_token_account(&ctx.token_account.data);
    mint_nft_decoded(ctx, bump, data, mint, token_account)
}

} // verus!
