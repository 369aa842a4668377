use vstd::prelude::*;
use crate::address::Address;
use crate::escrow::{init_sale_manager, new_sale_manager, InitSaleManager};
use crate::state::SaleManager;

verus! {

/// Whether `manager` is the escrow of the asset `nft_mint` in the pool `pool`.
pub open spec fn escrow_of(manager: SaleManager, pool: Address, nft_mint: Address) -> bool {
    manager.pool == pool && manager.nft_mint == nft_mint
}

/// No two escrows in the list are for the same asset in the same pool.
pub open spec fn one_escrow_each(managers: Seq<SaleManager>) -> bool {
    forall|i: int, j: int|
        0 <= i < j < managers.len() ==> !escrow_of(
            #[trigger] managers[i],
            (#[trigger] managers[j]).pool,
            managers[j].nft_mint,
        )
}

/// The escrows of a marketplace, at most one for each asset in each pool.
#[derive(Clone, Debug, PartialEq, Eq)]
pub struct SaleRegistry {
    pub managers: Vec<SaleManager>,
}

impl SaleRegistry {
    /// No asset has two escrows in one pool.
    pub open spec fn wf(&self) -> bool {
        one_escrow_each(self.managers@)
    }

    /// Whether the registry holds the escrow of the asset in the pool.
    pub open spec fn has(&self, pool: Address, nft_mint: Address) -> bool {
        exists|i: int| 0 <= i < self.managers@.len() && escrow_of(#[trigger] self.managers@[i], pool, nft_mint)
    }

    /// A registry without escrows.
    pub fn new() -> (r: SaleRegistry)
        ensures
            r.managers@.len() == 0,
            r.wf(),
    {
        SaleRegistry { managers: Vec::new() }
    }

    /// Whether this registry is well formed.
    pub fn is_wf(&self) -> (ok: bool)
        ensures
            ok == self.wf(),
    {
        let mut j: usize = 0;
        while j < self.managers.len()
            invariant
                j <= self.managers.len(),
                forall|a: int, b: int|
                    0 <= a < b < j ==> !escrow_of(
                        #[trigger] self.managers@[a],
                        (#[trigger] self.managers@[b]).pool,
                        self.managers@[b].nft_mint,
                    ),
            decreases self.managers.len() - j,
        {
            let mut i: usize = 0;
            while i < j
                invariant
                    i <= j < self.managers.len(),
                    forall|a: int|
                        0 <= a < i ==> !escrow_of(
                            #[trigger] self.managers@[a],
                            self.managers@[j as int].pool,
                            self.managers@[j as int].nft_mint,
                        ),
                decreases j - i,
            {
                if self.managers[i].pool == self.managers[j].pool && self.managers[i].nft_mint
                    == self.managers[j].nft_mint {
                    return false;
                }
                i += 1;
            }
            j += 1;
        }
        true
    }

    /// The place of the escrow of the asset in the pool, if the registry holds it.
    pub fn find(&self, pool: &Address, nft_mint: &Address) -> (r: Option<usize>)
        ensures
            match r {
                Some(i) => i < self.managers@.len() && escrow_of(
                    self.managers@[i as int],
                    *pool,
                    *nft_mint,
                ) && forall|k: int| 0 <= k < i ==> !escrow_of(#[trigger] self.managers@[k], *pool, *nft_mint),
                None => !self.has(*pool, *nft_mint),
            },
    {
        let mut i: usize = 0;
        while i < self.managers.len()
            invariant
                i <= self.managers.len(),
                forall|k: int| 0 <= k < i ==> !escrow_of(#[trigger] self.managers@[k], *pool, *nft_mint),
            decreases self.managers.len() - i,
        {
            if self.managers[i].pool == *pool && self.managers[i].nft_mint == *nft_mint {
                return Some(i);
            }
            i += 1;
        }
        None
    }

    /// Makes the escrow of the asset in the pool unless the registry holds it
    /// already. Gives its place, and whether it was made now.
    pub fn create_if_absent(&mut self, pool: Address, nft_mint: Address, bump: u8) -> (r: (
        usize,
        bool,
    ))
        requires
            old(self).wf(),
        ensures
            final(self).wf(),
            r.0 < final(self).managers@.len(),
            escrow_of(final(self).managers@[r.0 as int], pool, nft_mint),
            r.1 == !old(self).has(pool, nft_mint),
            !r.1 ==> *final(self) == *old(self),
            r.1 ==> r.0 == old(self).managers@.len() && final(self).managers@ == old(
                self,
            ).managers@.push(new_sale_manager(SaleManager::blank(), pool, nft_mint, bump)),
    {
        match self.find(&pool, &nft_mint) {
            Some(i) => (i, false),
            None => {
                let mut ctx = InitSaleManager {
                    owner: Address::default(),
                    pool_key: pool,
                    nft_mint,
                    sale_manager: SaleManager::default(),
                };
                let made = init_sale_manager(&mut ctx, bump);
                let place = self.managers.len();
                self.managers.push(ctx.sale_manager);
                assert forall|i: int, j: int| 0 <= i < j < self.managers@.len() implies !escrow_of(
                    #[trigger] self.managers@[i],
                    (#[trigger] self.managers@[j]).pool,
                    self.managers@[j].nft_mint,
                ) by {
                    if j == place {
                        assert(escrow_of(old(self).managers@[i], pool, nft_mint) ==> old(self).has(
                            pool,
                            nft_mint,
                        ));
                    } else {
                        assert(self.managers@[i] == old(self).managers@[i]);
                        assert(self.managers@[j] == old(self).managers@[j]);
                    }
                }
                (place, true)
            },
        }
    }

    /// Puts `manager` in the place `place`, where that is the place of the escrow of
    /// the same asset in the same pool; says whether it did.
    pub fn store(&mut self, place: usize, manager: SaleManager) -> (done: bool)
        requires
            old(self).wf(),
        ensures
            final(self).wf(),
            done == (place < old(self).managers@.len() && escrow_of(
                old(self).managers@[place as int],
                manager.pool,
                manager.nft_mint,
            )),
            done ==> final(self).managers@ == old(self).managers@.update(place as int, manager),
            !done ==> *final(self) == *old(self),
    {
        if place >= self.managers.len() {
            return false;
        }
        if self.managers[place].pool != manager.pool || self.managers[place].nft_mint
            != manager.nft_mint {
            return false;
        }
        self.managers.set(place, manager);
        assert forall|i: int, j: int| 0 <= i < j < self.managers@.len() implies !escrow_of(
            #[trigger] self.managers@[i],
            (#[trigger] self.managers@[j]).pool,
            self.managers@[j].nft_mint,
        ) by {
            assert(!escrow_of(
                old(self).managers@[i],
                old(self).managers@[j].pool,
                old(self).managers@[j].nft_mint,
            ));
        }
        true
    }
}

/// In a well-formed registry the escrow of an asset in a pool is in one place only.
pub proof fn lemma_one_escrow_per_asset(registry: SaleRegistry, i: int, j: int)
    requires
        registry.wf(),
        0 <= i < registry.managers@.len(),
        0 <= j < registry.managers@.len(),
        registry.managers@[i].pool == registry.managers@[j].pool,
        registry.managers@[i].nft_mint == registry.managers@[j].nft_mint,
    ensures
        i == j,
{
    if i < j {
        assert(!escrow_of(
            registry.managers@[i],
            registry.managers@[j].pool,
            registry.managers@[j].nft_mint,
        ));
    } else if j < i {
        assert(!escrow_of(
            registry.managers@[j],
            registry.managers@[i].pool,
            registry.managers@[i].nft_mint,
        ));
    }
}

} // verus!
