use vstd::prelude::*;
use crate::action::{Action, RawAccount};
use crate::address::Address;
use crate::error::{PoolError, Rejection};
use crate::escrow::{escrow_authority, escrow_authority_of};
use crate::state::{Creator, SaleManager, SalePot, SalePotView, FULL_BASIS_POINTS, FULL_SHARE};
use crate::token::{decode_token_account, token_account_of, TokenAccount};

verus! {

/// A creator's part of a primary sale: `share` percent of the price, rounded down.
pub open spec fn primary_cut(price: u64, share: u8) -> int {
    price * share / 100
}

/// The seller's part of a secondary sale: the price less the royalty fee, rounded
/// down.
pub open spec fn seller_cut(price: u64, fee: u16) -> int {
    price * (10000 - fee) / 10000
}

/// The royalty fee of a secondary sale: `fee` basis points of the price, rounded
/// down.
pub open spec fn royalty_fee(price: u64, fee: u16) -> int {
    price * fee / 10000
}

/// A creator's part of a secondary sale: `share` percent of the royalty fee, rounded
/// down.
pub open spec fn creator_cut(price: u64, fee: u16, share: u8) -> int {
    royalty_fee(price, fee) * share / 100
}

/// `floor(a / n) + floor(b / n) <= floor((a + b) / n)`, and a part of a whole is no
/// more than the whole.
pub proof fn lemma_cut_bounds(price: u64, fee: u16, share: u8)
    requires
        fee <= FULL_BASIS_POINTS,
        share <= FULL_SHARE,
    ensures
        0 <= primary_cut(price, share) <= price,
        0 <= seller_cut(price, fee),
        0 <= royalty_fee(price, fee),
        seller_cut(price, fee) + royalty_fee(price, fee) <= price,
        0 <= creator_cut(price, fee, share) <= royalty_fee(price, fee),
{
    let p = price as int;
    let f = fee as int;
    let s = share as int;
    assert(0 <= p * s / 100 <= p) by (nonlinear_arith)
        requires
            0 <= p,
            0 <= s <= 100,
    ;
    assert(0 <= p * (10000 - f) / 10000 && 0 <= p * f / 10000 && p * (10000 - f) / 10000 + p * f
        / 10000 <= p) by (nonlinear_arith)
        requires
            0 <= p,
            0 <= f <= 10000,
    ;
    let r = royalty_fee(price, fee);
    assert(0 <= r * s / 100 <= r) by (nonlinear_arith)
        requires
            0 <= r,
            0 <= s <= 100,
    ;
}

/// Computes `primary_cut`.
pub fn compute_primary_cut(price: u64, share: u8) -> (cut: u64)
    requires
        share <= FULL_SHARE,
    ensures
        cut == primary_cut(price, share),
{
    proof {
        lemma_cut_bounds(price, 0, share);
        assert(price * share <= u64::MAX * 100) by (nonlinear_arith)
            requires
                0 <= price <= u64::MAX,
                0 <= share <= 100,
        ;
    }
    let product: u128 = price as u128 * share as u128;
    (product / 100) as u64
}

/// Computes `seller_cut`.
pub fn compute_seller_cut(price: u64, fee: u16) -> (cut: u64)
    requires
        fee <= FULL_BASIS_POINTS,
    ensures
        cut == seller_cut(price, fee),
{
    proof {
        lemma_cut_bounds(price, fee, 0);
        assert(price * (10000 - fee) <= u64::MAX * 10000) by (nonlinear_arith)
            requires
                0 <= price <= u64::MAX,
                0 <= fee <= 10000,
        ;
    }
    let keep: u128 = (FULL_BASIS_POINTS - fee) as u128;
    let product: u128 = price as u128 * keep;
    (product / 10000) as u64
}

/// Computes `creator_cut`.
pub fn compute_creator_cut(price: u64, fee: u16, share: u8) -> (cut: u64)
    requires
        fee <= FULL_BASIS_POINTS,
        share <= FULL_SHARE,
    ensures
        cut == creator_cut(price, fee, share),
{
    proof {
        lemma_cut_bounds(price, fee, share);
        assert(price * fee <= u64::MAX * 10000) by (nonlinear_arith)
            requires
                0 <= price <= u64::MAX,
                0 <= fee <= 10000,
        ;
    }
    let product: u128 = price as u128 * fee as u128;
    let royalty: u128 = product / 10000;
    proof {
        assert(royalty * share <= u64::MAX * 100) by (nonlinear_arith)
            requires
                0 <= royalty <= u64::MAX,
                0 <= share <= 100,
        ;
    }
    let part: u128 = royalty * share as u128;
    (part / 100) as u64
}

/// Whether `claimant` may still draw the share of the entry `c`.
pub open spec fn claimable(c: Creator, claimant: Address) -> bool {
    !c.verified && c.address == claimant
}

/// The index of the first entry from `start` on whose share `claimant` may still
/// draw; the length of the list where there is none.
pub open spec fn first_claimable_from(creators: Seq<Creator>, claimant: Address, start: int) -> int
    decreases creators.len() - start,
{
    if start < 0 || start >= creators.len() {
        creators.len() as int
    } else if claimable(creators[start], claimant) {
        start
    } else {
        first_claimable_from(creators, claimant, start + 1)
    }
}

/// The index of the first entry whose share `claimant` may still draw; the length of
/// the list where there is none.
pub open spec fn first_claimable(creators: Seq<Creator>, claimant: Address) -> int {
    first_claimable_from(creators, claimant, 0)
}

/// `first_claimable_from` finds a claimable entry with none before it, or the end of
/// the list.
pub proof fn lemma_first_claimable_from(creators: Seq<Creator>, claimant: Address, start: int)
    requires
        0 <= start <= creators.len(),
    ensures
        start <= first_claimable_from(creators, claimant, start) <= creators.len(),
        forall|j: int|
            start <= j < first_claimable_from(creators, claimant, start) ==> !claimable(
                #[trigger] creators[j],
                claimant,
            ),
        first_claimable_from(creators, claimant, start) < creators.len() ==> claimable(
            creators[first_claimable_from(creators, claimant, start)],
            claimant,
        ),
    decreases creators.len() - start,
{
    if start < creators.len() && !claimable(creators[start], claimant) {
        lemma_first_claimable_from(creators, claimant, start + 1);
    }
}

/// Finds the first entry whose share `claimant` may still draw.
pub fn find_claimable(creators: &Vec<Creator>, claimant: &Address) -> (i: usize)
    ensures
        i == first_claimable(creators@, *claimant),
{
    let mut i: usize = 0;
    while i < creators.len()
        invariant
            i <= creators.len(),
            first_claimable(creators@, *claimant) == first_claimable_from(
                creators@,
                *claimant,
                i as int,
            ),
        decreases creators.len() - i,
    {
        if !creators[i].verified && creators[i].address == *claimant {
            return i;
        }
        i += 1;
    }
    i
}

/// The share that `claimant` draws from the list of creators: that of the first
/// entry still open to the claimant, 0 where there is none.
pub open spec fn claimed_share(creators: Seq<Creator>, claimant: Address) -> u8 {
    let i = first_claimable(creators, claimant);
    if i < creators.len() {
        creators[i].share
    } else {
        0
    }
}

/// The list of creators once `claimant` has drawn: the first entry still open to the
/// claimant is settled.
pub open spec fn settle_creator(creators: Seq<Creator>, claimant: Address) -> Seq<Creator> {
    let i = first_claimable(creators, claimant);
    if i < creators.len() {
        creators.update(i, Creator { verified: true, ..creators[i] })
    } else {
        creators
    }
}

/// Whether `claimant` draws the seller's part: only in a secondary sale, and once.
pub open spec fn seller_claims(pot: SalePotView, claimant: Address) -> bool {
    !pot.is_primary && !pot.seller_verified && pot.seller == claimant
}

/// What `claimant` is owed from the settlement ledger `pot` now.
pub open spec fn claim_amount(pot: SalePotView, claimant: Address) -> int {
    let share = claimed_share(pot.creators, claimant);
    if pot.is_primary {
        primary_cut(pot.price, share)
    } else {
        (if seller_claims(pot, claimant) {
            seller_cut(pot.price, pot.seller_fee_basis_points)
        } else {
            0
        }) + creator_cut(pot.price, pot.seller_fee_basis_points, share)
    }
}

/// The settlement ledger once `claimant` has drawn what `claim_amount` says.
pub open spec fn claimed_pot(pot: SalePotView, claimant: Address) -> SalePotView {
    SalePotView {
        seller_verified: pot.seller_verified || seller_claims(pot, claimant),
        creators: settle_creator(pot.creators, claimant),
        ..pot
    }
}

/// How a claim ends: refused as `InvalidAmount` with nothing changed where nothing
/// is owed, else the amount owed with the claimant's entries settled.
pub open spec fn claim_post(
    pre: SalePotView,
    claimant: Address,
    r: Result<u64, Rejection>,
    post: SalePotView,
) -> bool {
    if claim_amount(pre, claimant) == 0 {
        r == Err::<u64, Rejection>(Rejection::Pool(PoolError::InvalidAmount)) && post == pre
    } else {
        r == Ok::<u64, Rejection>(claim_amount(pre, claimant) as u64) && post == claimed_pot(
            pre,
            claimant,
        )
    }
}

/// What is owed stays within the price.
pub proof fn lemma_claim_amount_bounds(pot: SalePotView, claimant: Address)
    requires
        pot.wf(),
    ensures
        0 <= claim_amount(pot, claimant) <= pot.price,
{
    let share = claimed_share(pot.creators, claimant);
    lemma_first_claimable_from(pot.creators, claimant, 0);
    lemma_cut_bounds(pot.price, pot.seller_fee_basis_points, share);
}

/// What `claimant` is owed from the ledger now.
pub fn owed_to(sale_pot: &SalePot, claimant: &Address) -> (amount: u64)
    requires
        sale_pot@.wf(),
    ensures
        amount == claim_amount(sale_pot@, *claimant),
{
    proof {
        lemma_claim_amount_bounds(sale_pot@, *claimant);
        lemma_first_claimable_from(sale_pot@.creators, *claimant, 0);
    }
    let i = find_claimable(&sale_pot.creators, claimant);
    let share: u8 = if i < sale_pot.creators.len() {
        sale_pot.creators[i].share
    } else {
        0
    };
    if sale_pot.is_primary {
        compute_primary_cut(sale_pot.price, share)
    } else {
        let seller_part: u64 = if !sale_pot.seller_verified && sale_pot.seller == *claimant {
            compute_seller_cut(sale_pot.price, sale_pot.seller_fee_basis_points)
        } else {
            0
        };
        let creator_part = compute_creator_cut(
            sale_pot.price,
            sale_pot.seller_fee_basis_points,
            share,
        );
        seller_part + creator_part
    }
}

/// Settles what `claimant` is owed from the ledger, each entry once.
pub fn claim(sale_pot: &mut SalePot, claimant: &Address) -> (r: Result<u64, Rejection>)
    requires
        old(sale_pot)@.wf(),
    ensures
        claim_post(old(sale_pot)@, *claimant, r, final(sale_pot)@),
        r is Err ==> *final(sale_pot) == *old(sale_pot),
        final(sale_pot)@.wf(),
{
    proof {
        lemma_first_claimable_from(sale_pot@.creators, *claimant, 0);
    }
    let amount = owed_to(sale_pot, claimant);
    if amount == 0 {
        return Err(Rejection::Pool(PoolError::InvalidAmount));
    }
    let i = find_claimable(&sale_pot.creators, claimant);
    if !sale_pot.is_primary && !sale_pot.seller_verified && sale_pot.seller == *claimant {
        sale_pot.seller_verified = true;
    }
    if i < sale_pot.creators.len() {
        let entry = sale_pot.creators[i];
        sale_pot.creators.set(i, Creator { address: entry.address, verified: true, share: entry.share });
    }
    assert(sale_pot@.creators =~= settle_creator(old(sale_pot)@.creators, *claimant));
    Ok(amount)
}

/// The accounts of `withdraw_fund`.
#[derive(Clone, Debug, PartialEq, Eq)]
pub struct WithdrawFund {
    pub owner: Address,
    pub sale_manager_key: Address,
    pub sale_manager: SaleManager,
    pub sale_pot: SalePot,
    pub pool_pot: RawAccount,
    pub withdraw_pot: Address,
}

/// The first rule that a withdrawal breaks, if it breaks one. In this order: the
/// escrow's pot must be readable and the settlement ledger well formed; something
/// must be owed to the caller; the sale must be complete.
pub open spec fn withdraw_fund_rejection(ctx: WithdrawFund, pool_pot: Option<TokenAccount>) -> Option<
    Rejection,
> {
    if pool_pot is None || !ctx.sale_pot@.wf() {
        Some(Rejection::InvalidAccountData)
    } else if claim_amount(ctx.sale_pot@, ctx.owner) == 0 {
        Some(Rejection::Pool(PoolError::InvalidAmount))
    } else if !ctx.sale_pot.is_used {
        Some(Rejection::Pool(PoolError::InvalidSaleState))
    } else {
        None
    }
}

/// What leaves the escrow's pot: what is owed, but no more than the pot holds.
pub open spec fn withdrawal(owed: int, balance: u64) -> int {
    if owed > balance {
        balance as int
    } else {
        owed
    }
}

/// What an accepted withdrawal asks of the collaborators: one transfer from the
/// escrow's pot to the claimant, on the escrow's own authority.
pub open spec fn withdraw_fund_actions(ctx: WithdrawFund, balance: u64) -> Seq<Action> {
    seq![
        Action::Transfer {
            source: ctx.pool_pot.key,
            destination: ctx.withdraw_pot,
            authority: escrow_authority(ctx.sale_manager_key, ctx.sale_manager),
            amount: withdrawal(claim_amount(ctx.sale_pot@, ctx.owner), balance) as u64,
        },
    ]
}

/// How a withdrawal ends: refused with nothing changed, or accepted with the
/// claimant's entries settled and one transfer requested.
pub open spec fn withdraw_fund_post(
    pre: WithdrawFund,
    pool_pot: Option<TokenAccount>,
    r: Result<Vec<Action>, Rejection>,
    post: WithdrawFund,
) -> bool {
    match withdraw_fund_rejection(pre, pool_pot) {
        Some(e) => r == Err::<Vec<Action>, Rejection>(e) && post == pre,
        None => {
            &&& r is Ok
            &&& r->Ok_0@ == withdraw_fund_actions(pre, pool_pot->0.amount)
            &&& post.sale_pot@ == claimed_pot(pre.sale_pot@, pre.owner)
            &&& post == (WithdrawFund { sale_pot: post.sale_pot, ..pre })
        },
    }
}

/// Withdraws, given what the data of the escrow's pot holds.
pub fn withdraw_fund_decoded(ctx: &mut WithdrawFund, pool_pot: Option<TokenAccount>) -> (r: Result<
    Vec<Action>,
    Rejection,
>)
    ensures
        withdraw_fund_post(*old(ctx), pool_pot, r, *final(ctx)),
{
    let pool_pot = match pool_pot {
        Some(p) => p,
        None => {
            return Err(Rejection::InvalidAccountData);
        },
    };
    if !ctx.sale_pot.is_wf() {
        return Err(Rejection::InvalidAccountData);
    }
    let owner = ctx.owner;
    proof {
        lemma_claim_amount_bounds(ctx.sale_pot@, owner);
    }
    if owed_to(&ctx.sale_pot, &owner) == 0 {
        return Err(Rejection::Pool(PoolError::InvalidAmount));
    }
    if !ctx.sale_pot.is_used {
        return Err(Rejection::Pool(PoolError::InvalidSaleState));
    }
    let owed = match claim(&mut ctx.sale_pot, &owner) {
        Ok(owed) => owed,
        Err(e) => {
            return Err(e);
        },
    };
    let amount = if owed > pool_pot.amount {
        pool_pot.amount
    } else {
        owed
    };
    let mut actions: Vec<Action> = Vec::new();
    actions.push(
        Action::Transfer {
            source: ctx.pool_pot.key,
            destination: ctx.withdraw_pot,
            authority: escrow_authority_of(ctx.sale_manager_key, &ctx.sale_manager),
            amount,
        },
    );
    assert(actions@ =~= withdraw_fund_actions(*old(ctx), pool_pot.amount));
    Ok(actions)
}

/// Pays the caller the share of a completed sale that the caller has not drawn yet,
/// as far as the escrow's pot holds it.
pub fn withdraw_fund(ctx: &mut WithdrawFund) -> (r: Result<Vec<Action>, Rejection>)
    ensures
        withdraw_fund_post(*old(ctx), token_account_of(old(ctx).pool_pot.data@), r, *final(ctx)),
{
    let pool_pot = decode_token_account(&ctx.pool_pot.data);
    withdraw_fund_decoded(ctx, pool_pot)
}

} // verus!
