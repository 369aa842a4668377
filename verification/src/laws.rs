use vstd::prelude::*;
use crate::action::{Action, Authority};
use crate::address::Address;
use crate::asset::MetadataSnapshotView;
use crate::error::{PoolError, Rejection};
use crate::escrow::{
    buy_nft_actions, buy_nft_effect, buy_nft_post, buy_nft_rejection, new_sale_manager,
    redeem_nft_actions, redeem_nft_effect, redeem_nft_post, redeem_nft_rejection, sell_nft_post,
    sell_nft_rejection, BuyNft, RedeemNft, SellNft,
};
use crate::mint::{mint_nft_post, MintNft};
use crate::royalty::{
    claim_amount, claimable, claimed_pot, creator_cut, first_claimable, first_claimable_from,
    lemma_cut_bounds, lemma_first_claimable_from, primary_cut, royalty_fee, seller_cut,
    withdraw_fund_post, withdrawal, WithdrawFund,
};
use crate::state::{
    Creator, Metadata, SaleManager, SalePotView, FULL_SHARE, SALE_STATE_LISTED, SALE_STATE_SOLD,
    SALE_STATE_UNLISTED,
};
use crate::token::{MintAccount, TokenAccount};

verus! {

/// The moves that the state of an escrow can make: it is listed from unlisted, sold
/// from listed, or unlisted again from listed.
pub open spec fn sale_state_step(before: u8, after: u8) -> bool {
    ||| before == SALE_STATE_UNLISTED && after == SALE_STATE_LISTED
    ||| before == SALE_STATE_LISTED && after == SALE_STATE_SOLD
    ||| before == SALE_STATE_LISTED && after == SALE_STATE_UNLISTED
}

/// A listing leaves the escrow as it was, or takes it from unlisted to listed.
pub proof fn lemma_sell_nft_step(
    pre: SellNft,
    price: u64,
    manager_pot: Option<TokenAccount>,
    nft_seller_token: Option<TokenAccount>,
    nft_manager_token: Option<TokenAccount>,
    metadata: Option<MetadataSnapshotView>,
    nft_mint: Option<MintAccount>,
    r: Result<Vec<Action>, Rejection>,
    post: SellNft,
)
    requires
        sell_nft_post(
            pre,
            price,
            manager_pot,
            nft_seller_token,
            nft_manager_token,
            metadata,
            nft_mint,
            r,
            post,
        ),
    ensures
        r is Err ==> post.sale_manager == pre.sale_manager,
        r is Ok ==> pre.sale_manager.sale_state == SALE_STATE_UNLISTED
            && post.sale_manager.sale_state == SALE_STATE_LISTED,
        post.sale_manager.sale_state == pre.sale_manager.sale_state || sale_state_step(
            pre.sale_manager.sale_state,
            post.sale_manager.sale_state,
        ),
{
}

/// A purchase leaves the escrow as it was, or takes it from listed to sold.
pub proof fn lemma_buy_nft_step(
    pre: BuyNft,
    nft_manager_token: Option<TokenAccount>,
    nft_bidder_token: Option<TokenAccount>,
    manager_pot: Option<TokenAccount>,
    bidder_token: Option<TokenAccount>,
    metadata: Option<MetadataSnapshotView>,
    r: Result<Vec<Action>, Rejection>,
    post: BuyNft,
)
    requires
        buy_nft_post(pre, nft_manager_token, nft_bidder_token, manager_pot, bidder_token, metadata, r, post),
    ensures
        r is Err ==> post.sale_manager == pre.sale_manager,
        r is Ok ==> pre.sale_manager.sale_state == SALE_STATE_LISTED
            && post.sale_manager.sale_state == SALE_STATE_SOLD,
        post.sale_manager.sale_state == pre.sale_manager.sale_state || sale_state_step(
            pre.sale_manager.sale_state,
            post.sale_manager.sale_state,
        ),
{
}

/// A redemption leaves the escrow as it was, or takes it from listed to unlisted.
pub proof fn lemma_redeem_nft_step(
    pre: RedeemNft,
    nft_manager_token: Option<TokenAccount>,
    nft_seller_token: Option<TokenAccount>,
    metadata: Option<MetadataSnapshotView>,
    r: Result<Vec<Action>, Rejection>,
    post: RedeemNft,
)
    requires
        redeem_nft_post(pre, nft_manager_token, nft_seller_token, metadata, r, post),
    ensures
        r is Err ==> post.sale_manager == pre.sale_manager,
        r is Ok ==> pre.sale_manager.sale_state == SALE_STATE_LISTED
            && post.sale_manager.sale_state == SALE_STATE_UNLISTED,
        post.sale_manager.sale_state == pre.sale_manager.sale_state || sale_state_step(
            pre.sale_manager.sale_state,
            post.sale_manager.sale_state,
        ),
{
}

/// The making of an escrow changes no escrow that exists: it is accepted only on a
/// record that holds nothing, and leaves that record unlisted.
pub proof fn lemma_init_sale_manager_makes_only(pre: SaleManager, pool: Address, nft_mint: Address, bump: u8)
    ensures
        new_sale_manager(SaleManager::blank(), pool, nft_mint, bump).sale_state
            == SALE_STATE_UNLISTED,
        pre.sale_state != SALE_STATE_UNLISTED ==> pre != SaleManager::blank(),
{
}

/// A withdrawal never touches the escrow.
pub proof fn lemma_withdraw_fund_keeps_escrow(
    pre: WithdrawFund,
    pool_pot: Option<TokenAccount>,
    r: Result<Vec<Action>, Rejection>,
    post: WithdrawFund,
)
    requires
        withdraw_fund_post(pre, pool_pot, r, post),
    ensures
        post.sale_manager == pre.sale_manager,
{
}

/// A listing above the asset's price cap is refused; where the cap is 0, the price
/// plays no part in whether a listing is accepted.
pub proof fn lemma_listing_price_cap(
    ctx: SellNft,
    price: u64,
    other_price: u64,
    manager_pot: Option<TokenAccount>,
    nft_seller_token: Option<TokenAccount>,
    nft_manager_token: Option<TokenAccount>,
    metadata: Option<MetadataSnapshotView>,
    nft_mint: Option<MintAccount>,
)
    ensures
        ctx.metadata_extended.max_price != 0 && price > ctx.metadata_extended.max_price
            ==> sell_nft_rejection(
            ctx,
            price,
            manager_pot,
            nft_seller_token,
            nft_manager_token,
            metadata,
            nft_mint,
        ) is Some,
        ctx.metadata_extended.max_price == 0 ==> sell_nft_rejection(
            ctx,
            price,
            manager_pot,
            nft_seller_token,
            nft_manager_token,
            metadata,
            nft_mint,
        ) == sell_nft_rejection(
            ctx,
            other_price,
            manager_pot,
            nft_seller_token,
            nft_manager_token,
            metadata,
            nft_mint,
        ),
        sell_nft_rejection(
            ctx,
            price,
            manager_pot,
            nft_seller_token,
            nft_manager_token,
            metadata,
            nft_mint,
        ) == Some(Rejection::Pool(PoolError::InvalidPrice)) ==> ctx.metadata_extended.max_price
            != 0 && price > ctx.metadata_extended.max_price,
{
}

/// A purchase by the seller is refused, and so is one that the buyer's balance does
/// not cover; an accepted purchase starts from listed and ends in sold, and it asks
/// for the payment before it asks for the asset.
pub proof fn lemma_buy_nft_rules(
    ctx: BuyNft,
    nft_manager_token: Option<TokenAccount>,
    nft_bidder_token: Option<TokenAccount>,
    manager_pot: Option<TokenAccount>,
    bidder_token: Option<TokenAccount>,
    metadata: Option<MetadataSnapshotView>,
)
    ensures
        ctx.sale_manager.seller == ctx.owner ==> buy_nft_rejection(
            ctx,
            nft_manager_token,
            nft_bidder_token,
            manager_pot,
            bidder_token,
            metadata,
        ) is Some,
        bidder_token is Some && bidder_token->0.amount < ctx.sale_manager.price
            ==> buy_nft_rejection(
            ctx,
            nft_manager_token,
            nft_bidder_token,
            manager_pot,
            bidder_token,
            metadata,
        ) is Some,
        buy_nft_rejection(ctx, nft_manager_token, nft_bidder_token, manager_pot, bidder_token, metadata)
            is None ==> ctx.sale_manager.sale_state == SALE_STATE_LISTED && buy_nft_effect(
            ctx,
        ).sale_manager.sale_state == SALE_STATE_SOLD && buy_nft_effect(ctx).sale_pot.is_used,
        buy_nft_actions(ctx)[0] == (Action::Transfer {
            source: ctx.bidder_token.key,
            destination: ctx.manager_pot.key,
            authority: Authority::Caller { key: ctx.owner },
            amount: ctx.sale_manager.price,
        }),
        buy_nft_actions(ctx)[2] matches Action::Transfer { source, destination, amount, .. }
            && source == ctx.nft_manager_token.key && destination == ctx.nft_bidder_token.key
            && amount == 1,
{
}

/// A redemption is accepted only from listed and only for the recorded seller; it
/// ends in unlisted, and all it moves is the one unit of the asset out of escrow.
pub proof fn lemma_redeem_nft_rules(
    ctx: RedeemNft,
    nft_manager_token: Option<TokenAccount>,
    nft_seller_token: Option<TokenAccount>,
    metadata: Option<MetadataSnapshotView>,
)
    ensures
        redeem_nft_rejection(ctx, nft_manager_token, nft_seller_token, metadata) is None ==> {
            &&& ctx.sale_manager.sale_state == SALE_STATE_LISTED
            &&& ctx.sale_manager.seller == ctx.owner
            &&& redeem_nft_effect(ctx).sale_manager.sale_state == SALE_STATE_UNLISTED
        },
        forall|i: int|
            0 <= i < redeem_nft_actions(ctx).len() ==> (#[trigger] redeem_nft_actions(ctx)[i]
                matches Action::Transfer { source, destination, amount, .. } ==> source
                == ctx.nft_manager_token.key && destination == ctx.nft_seller_token.key && amount
                == 1),
{
}

/// What leaves the escrow's pot is never more than the pot holds, nor more than is
/// owed.
pub proof fn lemma_withdrawal_is_clamped(owed: int, balance: u64)
    ensures
        withdrawal(owed, balance) <= balance,
        withdrawal(owed, balance) <= owed,
        owed <= balance ==> withdrawal(owed, balance) == owed,
        owed > balance ==> withdrawal(owed, balance) == balance,
{
}

/// A mint against a client that is not whitelisted, or that has nothing left to
/// mint, is refused, and the client's allowance stays as it was.
pub proof fn lemma_mint_needs_allowance(
    pre: MintNft,
    bump: u8,
    data: Metadata,
    mint: Option<MintAccount>,
    token_account: Option<TokenAccount>,
    r: Result<Vec<Action>, Rejection>,
    post: MintNft,
)
    requires
        mint_nft_post(pre, bump, data, mint, token_account, r, post),
        !pre.client.whitelisted || pre.client.amount == 0,
    ensures
        r is Err,
        post == pre,
        post.client.amount == pre.client.amount,
{
}

/// An accepted mint is against the caller's own client record, and takes exactly one
/// from its allowance.
pub proof fn lemma_mint_takes_one(
    pre: MintNft,
    bump: u8,
    data: Metadata,
    mint: Option<MintAccount>,
    token_account: Option<TokenAccount>,
    r: Result<Vec<Action>, Rejection>,
    post: MintNft,
)
    requires
        mint_nft_post(pre, bump, data, mint, token_account, r, post),
        r is Ok,
    ensures
        pre.client.owner == pre.owner,
        pre.pool.presale_live,
        pre.client.whitelisted,
        pre.client.amount > 0,
        post.client.amount == pre.client.amount - 1,
{
}

/// At most one entry of the list is still open to `claimant`.
pub open spec fn at_most_one_open(creators: Seq<Creator>, claimant: Address) -> bool {
    forall|i: int, j: int|
        0 <= i < j < creators.len() ==> !(claimable(#[trigger] creators[i], claimant) && claimable(
            #[trigger] creators[j],
            claimant,
        ))
}

/// Where no entry from `start` on is open to `claimant`, the search ends at the end
/// of the list.
pub proof fn lemma_none_claimable(creators: Seq<Creator>, claimant: Address, start: int)
    requires
        0 <= start <= creators.len(),
        forall|j: int| start <= j < creators.len() ==> !claimable(#[trigger] creators[j], claimant),
    ensures
        first_claimable_from(creators, claimant, start) == creators.len(),
    decreases creators.len() - start,
{
    if start < creators.len() {
        assert(!claimable(creators[start], claimant));
        lemma_none_claimable(creators, claimant, start + 1);
    }
}

/// A settled ledger stays well formed.
pub proof fn lemma_claimed_pot_wf(pot: SalePotView, claimant: Address)
    requires
        pot.wf(),
    ensures
        claimed_pot(pot, claimant).wf(),
{
    lemma_first_claimable_from(pot.creators, claimant, 0);
    let after = claimed_pot(pot, claimant).creators;
    assert forall|k: int| 0 <= k < after.len() implies (#[trigger] after[k]).share
        <= FULL_SHARE by {
        assert(pot.creators[k].share <= FULL_SHARE);
    }
}

/// Once a claimant with at most one open entry has drawn, nothing more is owed to
/// that claimant.
pub proof fn lemma_nothing_owed_after_claim(pot: SalePotView, claimant: Address)
    requires
        at_most_one_open(pot.creators, claimant),
    ensures
        claim_amount(claimed_pot(pot, claimant), claimant) == 0,
{
    let before = pot.creators;
    let i = first_claimable(before, claimant);
    lemma_first_claimable_from(before, claimant, 0);
    let after = claimed_pot(pot, claimant).creators;
    assert forall|k: int| 0 <= k < after.len() implies !claimable(
        #[trigger] after[k],
        claimant,
    ) by {
        if k < i {
            assert(!claimable(before[k], claimant));
        } else if k > i {
            assert(claimable(before[i], claimant));
            assert(!claimable(before[k], claimant));
        }
    }
    lemma_none_claimable(after, claimant, 0);
}

/// Two withdrawals in a row by a claimant with at most one open entry: where the
/// first is accepted, the second is refused and changes nothing.
pub proof fn lemma_withdraw_fund_once(
    pre: WithdrawFund,
    first_pot: Option<TokenAccount>,
    first: Result<Vec<Action>, Rejection>,
    between: WithdrawFund,
    second_pot: Option<TokenAccount>,
    second: Result<Vec<Action>, Rejection>,
    post: WithdrawFund,
)
    requires
        at_most_one_open(pre.sale_pot@.creators, pre.owner),
        withdraw_fund_post(pre, first_pot, first, between),
        first is Ok,
        withdraw_fund_post(between, second_pot, second, post),
    ensures
        second is Err,
        second_pot is Some ==> second == Err::<Vec<Action>, Rejection>(
            Rejection::Pool(PoolError::InvalidAmount),
        ),
        post == between,
{
    lemma_nothing_owed_after_claim(pre.sale_pot@, pre.owner);
    lemma_claimed_pot_wf(pre.sale_pot@, pre.owner);
}

/// What the entry of a creator with `share` is worth in the sale of `pot`.
pub open spec fn entry_cut(pot: SalePotView, share: u8) -> int {
    if pot.is_primary {
        primary_cut(pot.price, share)
    } else {
        creator_cut(pot.price, pot.seller_fee_basis_points, share)
    }
}

/// What the first `n` creators of the list have not drawn yet.
pub open spec fn open_cuts(pot: SalePotView, creators: Seq<Creator>, n: int) -> int
    decreases n,
{
    if n <= 0 {
        0
    } else {
        open_cuts(pot, creators, n - 1) + if creators[n - 1].verified {
            0
        } else {
            entry_cut(pot, creators[n - 1].share)
        }
    }
}

/// The shares of the first `n` creators of the list, added up.
pub open spec fn share_sum(creators: Seq<Creator>, n: int) -> int
    decreases n,
{
    if n <= 0 {
        0
    } else {
        share_sum(creators, n - 1) + creators[n - 1].share
    }
}

/// What the sale of `pot` still owes: the seller's part of a secondary sale while
/// the seller has not drawn it, and the part of each creator who has not drawn.
pub open spec fn outstanding(pot: SalePotView) -> int {
    (if !pot.is_primary && !pot.seller_verified {
        seller_cut(pot.price, pot.seller_fee_basis_points)
    } else {
        0
    }) + open_cuts(pot, pot.creators, pot.creators.len() as int)
}

/// Settling the open entry `i` takes its worth from what the first `n` creators have
/// not drawn.
pub proof fn lemma_open_cuts_settle(pot: SalePotView, after: SalePotView, creators: Seq<Creator>, i: int, n: int)
    requires
        0 <= i < creators.len(),
        0 <= n <= creators.len(),
        !creators[i].verified,
        after.is_primary == pot.is_primary,
        after.price == pot.price,
        after.seller_fee_basis_points == pot.seller_fee_basis_points,
    ensures
        open_cuts(after, creators.update(i, Creator { verified: true, ..creators[i] }), n)
            == open_cuts(pot, creators, n) - if i < n {
            entry_cut(pot, creators[i].share)
        } else {
            0
        },
    decreases n,
{
    if n > 0 {
        lemma_open_cuts_settle(pot, after, creators, i, n - 1);
    }
}

/// The same list is worth the same in two ledgers of one sale.
pub proof fn lemma_open_cuts_same_sale(pot: SalePotView, after: SalePotView, creators: Seq<Creator>, n: int)
    requires
        after.is_primary == pot.is_primary,
        after.price == pot.price,
        after.seller_fee_basis_points == pot.seller_fee_basis_points,
    ensures
        open_cuts(after, creators, n) == open_cuts(pot, creators, n),
    decreases n,
{
    if n > 0 {
        lemma_open_cuts_same_sale(pot, after, creators, n - 1);
    }
}

/// A claim takes what it pays from what the sale still owes: what is owed after the
/// claim and what the claim computed add up to what was owed before.
pub proof fn lemma_claim_draws_from_outstanding(pot: SalePotView, claimant: Address)
    requires
        pot.wf(),
    ensures
        outstanding(claimed_pot(pot, claimant)) + claim_amount(pot, claimant) == outstanding(pot),
{
    let after = claimed_pot(pot, claimant);
    let i = first_claimable(pot.creators, claimant);
    let n = pot.creators.len() as int;
    lemma_first_claimable_from(pot.creators, claimant, 0);
    if i < n {
        lemma_open_cuts_settle(pot, after, pot.creators, i, n);
    } else {
        lemma_open_cuts_same_sale(pot, after, pot.creators, n);
        lemma_cut_bounds(pot.price, pot.seller_fee_basis_points, 0);
        assert(entry_cut(pot, 0) == 0) by {
            let r = royalty_fee(pot.price, pot.seller_fee_basis_points);
            assert(pot.price * 0 / 100 == 0 && r * 0 / 100 == 0) by (nonlinear_arith);
        }
    }
}

/// What the first `n` creators have not drawn is at most their shares of the whole:
/// each part is rounded down.
pub proof fn lemma_open_cuts_bound(pot: SalePotView, n: int)
    requires
        pot.wf(),
        0 <= n <= pot.creators.len(),
    ensures
        0 <= open_cuts(pot, pot.creators, n),
        100 * open_cuts(pot, pot.creators, n) <= entry_base(pot) * share_sum(pot.creators, n),
        0 <= share_sum(pot.creators, n),
    decreases n,
{
    if n > 0 {
        lemma_open_cuts_bound(pot, n - 1);
        let share = pot.creators[n - 1].share;
        assert(share <= FULL_SHARE);
        lemma_cut_bounds(pot.price, pot.seller_fee_basis_points, share);
        let base = entry_base(pot);
        let cut = entry_cut(pot, share);
        let s = share as int;
        assert(cut == base * s / 100);
        assert(0 <= cut && 100 * cut <= base * s) by (nonlinear_arith)
            requires
                cut == base * s / 100,
                0 <= base,
                0 <= s,
        ;
        let before = share_sum(pot.creators, n - 1);
        assert(base * (before + s) == base * before + base * s) by (nonlinear_arith);
    }
}

/// The whole of which creators draw their shares: the price in a primary sale, the
/// royalty fee in a secondary sale.
pub open spec fn entry_base(pot: SalePotView) -> int {
    if pot.is_primary {
        pot.price as int
    } else {
        royalty_fee(pot.price, pot.seller_fee_basis_points)
    }
}

/// Where the creators' shares add up to no more than one hundred percent, the sale
/// never owes more than its price: whatever the order of the claims, all payouts
/// together stay within the price.
pub proof fn lemma_outstanding_within_price(pot: SalePotView)
    requires
        pot.wf(),
        share_sum(pot.creators, pot.creators.len() as int) <= FULL_SHARE,
    ensures
        0 <= outstanding(pot) <= pot.price,
{
    let n = pot.creators.len() as int;
    lemma_open_cuts_bound(pot, n);
    lemma_cut_bounds(pot.price, pot.seller_fee_basis_points, 0);
    let base = entry_base(pot);
    let sum = share_sum(pot.creators, n);
    let open = open_cuts(pot, pot.creators, n);
    assert(open <= base) by (nonlinear_arith)
        requires
            100 * open <= base * sum,
            0 <= sum <= 100,
            0 <= base,
    ;
}

/// The ledger after `claimant` has asked: settled where something was owed, as it
/// was where nothing was.
pub open spec fn after_claim(pot: SalePotView, claimant: Address) -> SalePotView {
    if claim_amount(pot, claimant) == 0 {
        pot
    } else {
        claimed_pot(pot, claimant)
    }
}

/// What the claimants are owed in all when they ask one after the other.
pub open spec fn owed_in_all(pot: SalePotView, claimants: Seq<Address>) -> int
    decreases claimants.len(),
{
    if claimants.len() == 0 {
        0
    } else {
        claim_amount(pot, claimants[0]) + owed_in_all(
            after_claim(pot, claimants[0]),
            claimants.drop_first(),
        )
    }
}

/// Settling an entry leaves the shares as they were.
pub proof fn lemma_share_sum_settle(creators: Seq<Creator>, i: int, n: int)
    requires
        0 <= i < creators.len(),
        0 <= n <= creators.len(),
    ensures
        share_sum(creators.update(i, Creator { verified: true, ..creators[i] }), n) == share_sum(
            creators,
            n,
        ),
    decreases n,
{
    if n > 0 {
        lemma_share_sum_settle(creators, i, n - 1);
    }
}

/// Whoever asks, in whatever order and however often: where the creators' shares add
/// up to no more than one hundred percent, what is owed in all is no more than what
/// the sale owes, which is no more than its price. What is paid is clamped to the
/// pot and so is no more than what is owed.
pub proof fn lemma_all_payouts_within_price(pot: SalePotView, claimants: Seq<Address>)
    requires
        pot.wf(),
        share_sum(pot.creators, pot.creators.len() as int) <= FULL_SHARE,
    ensures
        0 <= owed_in_all(pot, claimants) <= outstanding(pot) <= pot.price,
    decreases claimants.len(),
{
    lemma_outstanding_within_price(pot);
    if claimants.len() > 0 {
        let claimant = claimants[0];
        let next = after_claim(pot, claimant);
        lemma_claim_draws_from_outstanding(pot, claimant);
        lemma_claimed_pot_wf(pot, claimant);
        lemma_first_claimable_from(pot.creators, claimant, 0);
        let i = first_claimable(pot.creators, claimant);
        if i < pot.creators.len() {
            lemma_share_sum_settle(pot.creators, i, pot.creators.len() as int);
        }
        lemma_cut_bounds(pot.price, pot.seller_fee_basis_points, 0);
        let share = if i < pot.creators.len() {
            pot.creators[i].share
        } else {
            0
        };
        lemma_cut_bounds(pot.price, pot.seller_fee_basis_points, share);
        assert(0 <= claim_amount(pot, claimant));
        lemma_all_payouts_within_price(next, claimants.drop_first());
        lemma_outstanding_within_price(next);
    }
}

} // verus!
