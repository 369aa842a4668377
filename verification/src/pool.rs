use vstd::prelude::*;
use crate::action::RawAccount;
use crate::address::Address;
use crate::error::{PoolError, Rejection};
use crate::state::{Client, MetadataExtended, Pool};
use crate::token::{decode_mint, mint_of, MintAccount};

verus! {

/// The accounts of `init_pool`.
#[derive(Clone, Debug, PartialEq, Eq)]
pub struct InitPool {
    pub pool: Pool,
    pub owner: Address,
    pub sale_mint: RawAccount,
}

/// The accounts of `set_authority`.
#[derive(Clone, Copy, Debug, PartialEq, Eq)]
pub struct SetAuthority {
    pub pool: Pool,
    pub owner: Address,
    pub new_owner: Address,
}

/// The accounts of `set_whitelist`.
#[derive(Clone, Copy, Debug, PartialEq, Eq)]
pub struct SetWhitelist {
    pub client: Client,
    pub pool_key: Address,
    pub pool: Pool,
    pub owner: Address,
    pub bidder: Address,
}

/// The accounts of `update_whitelist`.
#[derive(Clone, Copy, Debug, PartialEq, Eq)]
pub struct UpdateWhitelist {
    pub client: Client,
    pub pool_key: Address,
    pub pool: Pool,
    pub owner: Address,
}

/// The accounts of `control_presale_live`.
#[derive(Clone, Copy, Debug, PartialEq, Eq)]
pub struct ControlPresaleLive {
    pub pool: Pool,
    pub owner: Address,
}

/// The accounts of `set_max_price`.
#[derive(Clone, Copy, Debug, PartialEq, Eq)]
pub struct SetMaxPrice {
    pub owner: Address,
    pub pool_key: Address,
    pub pool: Pool,
    pub mint: Address,
    pub metadata_extended: MetadataExtended,
}

/// How the making of a pool ends: refused with nothing changed where the currency is
/// no mint, else the pool belongs to the caller, trades in that currency, and its
/// presale does not run.
pub open spec fn init_pool_post(
    pre: InitPool,
    sale_mint: Option<MintAccount>,
    r: Result<(), Rejection>,
    post: InitPool,
) -> bool {
    if sale_mint is None {
        r == Err::<(), Rejection>(Rejection::InvalidAccountData) && post == pre
    } else {
        r is Ok && post == (InitPool {
            pool: Pool { owner: pre.owner, presale_live: false, sale_mint: pre.sale_mint.key },
            ..pre
        })
    }
}

/// Makes a pool, given what the data of its currency's mint holds.
pub fn init_pool_decoded(ctx: &mut InitPool, sale_mint: Option<MintAccount>) -> (r: Result<
    (),
    Rejection,
>)
    ensures
        init_pool_post(*old(ctx), sale_mint, r, *final(ctx)),
{
    if sale_mint.is_none() {
        return Err(Rejection::InvalidAccountData);
    }
    ctx.pool.owner = ctx.owner;
    ctx.pool.presale_live = false;
    ctx.pool.sale_mint = ctx.sale_mint.key;
    Ok(())
}

/// Makes a pool that belongs to the caller and trades in the currency `sale_mint`.
pub fn init_pool(ctx: &mut InitPool) -> (r: Result<(), Rejection>)
    ensures
        init_pool_post(*old(ctx), mint_of(old(ctx).sale_mint.data@), r, *final(ctx)),
{
    let sale_mint = decode_mint(&ctx.sale_mint.data);
    init_pool_decoded(ctx, sale_mint)
}

/// Hands the pool to `new_owner`. Only the pool's owner may.
pub fn set_authority(ctx: &mut SetAuthority) -> (r: Result<(), Rejection>)
    ensures
        old(ctx).pool.owner != old(ctx).owner ==> r == Err::<(), Rejection>(
            Rejection::NotPoolOwner,
        ) && *final(ctx) == *old(ctx),
        old(ctx).pool.owner == old(ctx).owner ==> r is Ok && *final(ctx) == (SetAuthority {
            pool: Pool { owner: old(ctx).new_owner, ..old(ctx).pool },
            ..*old(ctx)
        }),
{
    if ctx.pool.owner != ctx.owner {
        return Err(Rejection::NotPoolOwner);
    }
    ctx.pool.owner = ctx.new_owner;
    Ok(())
}

/// The first rule that a change of the whitelist breaks, if it breaks one.
pub open spec fn whitelist_rejection(pool: Pool, owner: Address) -> Option<Rejection> {
    if pool.owner != owner {
        Some(Rejection::NotPoolOwner)
    } else if pool.presale_live {
        Some(Rejection::Pool(PoolError::PresaleLive))
    } else {
        None
    }
}

/// Gives `bidder` an allowance of `amount` mints in the pool. Only the pool's owner
/// may, and only while the presale does not run.
pub fn set_whitelist(ctx: &mut SetWhitelist, bump: u8, amount: u64, whitelisted: bool) -> (r: Result<
    (),
    Rejection,
>)
    ensures
        match whitelist_rejection(old(ctx).pool, old(ctx).owner) {
            Some(e) => r == Err::<(), Rejection>(e) && *final(ctx) == *old(ctx),
            None => r is Ok && *final(ctx) == (SetWhitelist {
                client: Client {
                    owner: old(ctx).bidder,
                    pool: old(ctx).pool_key,
                    amount,
                    whitelisted,
                    bump,
                },
                ..*old(ctx)
            }),
        },
{
    if ctx.pool.owner != ctx.owner {
        return Err(Rejection::NotPoolOwner);
    }
    if ctx.pool.presale_live {
        return Err(Rejection::Pool(PoolError::PresaleLive));
    }
    ctx.client.owner = ctx.bidder;
    ctx.client.pool = ctx.pool_key;
    ctx.client.amount = amount;
    ctx.client.whitelisted = whitelisted;
    ctx.client.bump = bump;
    Ok(())
}

/// The first rule that a change of an allowance breaks, if it breaks one: those of
/// the whitelist, and the client must be of this pool.
pub open spec fn update_whitelist_rejection(ctx: UpdateWhitelist) -> Option<Rejection> {
    if whitelist_rejection(ctx.pool, ctx.owner) is Some {
        whitelist_rejection(ctx.pool, ctx.owner)
    } else if ctx.client.pool != ctx.pool_key {
        Some(Rejection::Pool(PoolError::InvalidPoolAccount))
    } else {
        None
    }
}

/// Changes a bidder's allowance in the pool. Only the pool's owner may, and only
/// while the presale does not run.
pub fn update_whitelist(ctx: &mut UpdateWhitelist, amount: u64, whitelisted: bool) -> (r: Result<
    (),
    Rejection,
>)
    ensures
        match update_whitelist_rejection(*old(ctx)) {
            Some(e) => r == Err::<(), Rejection>(e) && *final(ctx) == *old(ctx),
            None => r is Ok && *final(ctx) == (UpdateWhitelist {
                client: Client { amount, whitelisted, ..old(ctx).client },
                ..*old(ctx)
            }),
        },
{
    if ctx.pool.owner != ctx.owner {
        return Err(Rejection::NotPoolOwner);
    }
    if ctx.pool.presale_live {
        return Err(Rejection::Pool(PoolError::PresaleLive));
    }
    if ctx.client.pool != ctx.pool_key {
        return Err(Rejection::Pool(PoolError::InvalidPoolAccount));
    }
    ctx.client.amount = amount;
    ctx.client.whitelisted = whitelisted;
    Ok(())
}

/// Starts or stops the presale. Only the pool's owner may.
pub fn control_presale_live(ctx: &mut ControlPresaleLive, lived: bool) -> (r: Result<(), Rejection>)
    ensures
        old(ctx).pool.owner != old(ctx).owner ==> r == Err::<(), Rejection>(
            Rejection::NotPoolOwner,
        ) && *final(ctx) == *old(ctx),
        old(ctx).pool.owner == old(ctx).owner ==> r is Ok && *final(ctx) == (ControlPresaleLive {
            pool: Pool { presale_live: lived, ..old(ctx).pool },
            ..*old(ctx)
        }),
{
    if ctx.pool.owner != ctx.owner {
        return Err(Rejection::NotPoolOwner);
    }
    ctx.pool.presale_live = lived;
    Ok(())
}

/// The first rule that a change of the price cap breaks, if it breaks one.
pub open spec fn set_max_price_rejection(ctx: SetMaxPrice) -> Option<Rejection> {
    if ctx.pool.owner != ctx.owner {
        Some(Rejection::NotPoolOwner)
    } else if ctx.metadata_extended.pool != ctx.pool_key {
        Some(Rejection::Pool(PoolError::InvalidPoolAccount))
    } else {
        None
    }
}

/// Sets the price cap of an asset in the pool; 0 lifts the cap. Only the pool's owner
/// may.
pub fn set_max_price(ctx: &mut SetMaxPrice, max_price: u64) -> (r: Result<(), Rejection>)
    ensures
        match set_max_price_rejection(*old(ctx)) {
            Some(e) => r == Err::<(), Rejection>(e) && *final(ctx) == *old(ctx),
            None => r is Ok && *final(ctx) == (SetMaxPrice {
                metadata_extended: MetadataExtended { max_price, ..old(ctx).metadata_extended },
                ..*old(ctx)
            }),
        },
{
    if ctx.pool.owner != ctx.owner {
        return Err(Rejection::NotPoolOwner);
    }
    if ctx.metadata_extended.pool != ctx.pool_key {
        return Err(Rejection::Pool(PoolError::InvalidPoolAccount));
    }
    ctx.metadata_extended.max_price = max_price;
    Ok(())
}

} // verus!
