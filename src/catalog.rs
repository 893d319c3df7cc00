//! Creating a store, adding products and reading the catalog.
use vstd::prelude::*;

use crate::error::{PreconditionError, StoreError};
use crate::product::Product;
use crate::store::{CallContext, PiparStoreFactory, StoreModel, ids_increasing, next_product_id};
use crate::TOKEN_BALANCE;

verus! {

impl PiparStoreFactory {
    /// An empty store of `owner_id`, served by the escrow contract `contract_id`,
    /// with no token and the standard token cost.
    pub fn new(owner_id: String, contract_id: String) -> (r: Self)
        ensures
            r@.wf(),
            r@ == (StoreModel {
                products: Seq::empty(),
                owner_id: owner_id@,
                contract_id: contract_id@,
                token: false,
                token_pending: false,
                token_cost: TOKEN_BALANCE,
            }),
    {
        PiparStoreFactory {
            products: Vec::new(),
            owner_id,
            contract_id,
            token: false,
            token_pending: false,
            token_cost: TOKEN_BALANCE,
        }
    }

    /// The number of products in the catalog.
    pub fn get_product_count(&self) -> (r: usize)
        ensures
            r == self.products@.len(),
    {
        self.products.len()
    }

    /// A copy of the catalog, in storage order.
    pub fn get_store_products(&self) -> (r: Vec<Product>)
        ensures
            r@ == self.products@,
    {
        let mut r: Vec<Product> = Vec::new();
        let mut i: usize = 0;
        while i < self.products.len()
            invariant
                i <= self.products@.len(),
                r@ == self.products@.subrange(0, i as int),
            decreases self.products@.len() - i,
        {
            r.push(self.products[i].snapshot());
            i += 1;
        }
        assert(r@ =~= self.products@);
        r
    }

    /// The price of deploying the companion token contract.
    pub fn get_token_cost(&self) -> (r: u128)
        ensures
            r == self.token_cost,
    {
        self.token_cost
    }

    /// Whether the companion token contract has been deployed.
    pub fn has_token(&self) -> (r: bool)
        ensures
            r == self.token,
    {
        self.token
    }

    /// Whether a deployment has been issued and its outcome has not come back.
    pub fn is_token_pending(&self) -> (r: bool)
        ensures
            r == self.token_pending,
    {
        self.token_pending
    }

    /// Appends a product. Only the owner may call, with the authorization
    /// deposit; the price must be positive. The identifier is `timestamp`, or
    /// one more than the last identifier where that is not smaller, so that
    /// identifiers increase along the catalog. A refused call changes nothing.
    pub fn add_product(
        &mut self,
        ctx: &CallContext,
        timestamp: u64,
        name: String,
        ipfs: String,
        price: u128,
        total_supply: u128,
        timeout: u128,
        is_discount: bool,
        discount_percent: u128,
        token_amount: u128,
        is_reward: bool,
        reward_amount: u128,
        custom: bool,
        user: String,
    ) -> (r: Result<bool, StoreError>)
        requires
            old(self)@.wf(),
        ensures
            final(self)@.wf(),
            r == (match old(self)@.add_error(*ctx, timestamp, price) {
                Some(e) => Err(e),
                None => Ok(true),
            }),
            r is Err ==> final(self)@ == old(self)@,
            r is Ok ==> final(self)@ == (StoreModel {
                products: old(self)@.products.push(
                    Product {
                        product_id: next_product_id(old(self)@.products, timestamp)->0,
                        name,
                        ipfs,
                        price,
                        total_supply,
                        timeout,
                        is_discount,
                        discount_percent,
                        token_amount,
                        is_reward,
                        reward_amount,
                        custom,
                        user,
                    },
                ),
                ..old(self)@
            }),
    {
        match self.assert_only_owner(ctx) {
            Err(e) => return Err(e),
            Ok(()) => {},
        }
        if price == 0 {
            return Err(StoreError::Precondition(PreconditionError::ZeroPrice));
        }
        let n = self.products.len();
        let product_id: u128 = if n == 0 || self.products[n - 1].product_id < timestamp as u128 {
            timestamp as u128
        } else {
            match self.products[n - 1].product_id.checked_add(1) {
                Some(id) => id,
                None => return Err(StoreError::Precondition(PreconditionError::ArithmeticOverflow)),
            }
        };
        self.products.push(
            Product {
                product_id,
                name,
                ipfs,
                price,
                total_supply,
                timeout,
                is_discount,
                discount_percent,
                token_amount,
                is_reward,
                reward_amount,
                custom,
                user,
            },
        );
        assert(ids_increasing(self.products@)) by {
            assert forall|a: int, b: int| 0 <= a < b < self.products@.len() implies
                (#[trigger] self.products@[a]).product_id < (#[trigger] self.products@[b]).product_id by {
                if b == n && a < n - 1 {
                    assert(old(self).products@[a].product_id < old(self).products@[n - 1].product_id);
                }
            }
        }
        Ok(true)
    }
}

} // verus!
