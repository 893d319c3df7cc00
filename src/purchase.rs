//! Purchases and restocks: the synchronous changes to a product's supply.
use vstd::prelude::*;

use crate::error::{PreconditionError, StoreError};
use crate::product::Product;
use crate::store::{CallContext, PiparStoreFactory, StoreModel, ids_increasing};

verus! {

/// A purchase as the escrow contract reports it: the product, the buyer and
/// the payment in yoctoNEAR.
#[derive(Debug, Clone, PartialEq, Eq)]
pub struct PurchaseData {
    pub product_id: u128,
    pub buyer_account_id: String,
    pub attached_near: u128,
}

impl PiparStoreFactory {
    /// Sells product `product_id` for the payment `attached_near`, on behalf of
    /// `buyer_account_id`. The quantity is the payment divided by the price,
    /// rounded down; the remainder is kept, not refunded. Where
    /// `product_quantity` is given, the quantity must equal it. Only the escrow
    /// contract may call, with the authorization deposit. Returns the updated
    /// record; a refused purchase changes nothing.
    pub fn store_purchase_product(
        &mut self,
        ctx: &CallContext,
        product_id: u128,
        product_quantity: Option<u128>,
        buyer_account_id: String,
        attached_near: u128,
    ) -> (r: Result<Product, StoreError>)
        requires
            old(self)@.wf(),
        ensures
            final(self)@.wf(),
            r == old(self)@.purchase_result(*ctx, product_id, product_quantity, attached_near),
            final(self)@ == old(self)@.after_purchase(
                *ctx,
                product_id,
                product_quantity,
                attached_near,
            ),
    {
        match self.assert_only_pipar(ctx) {
            Err(e) => return Err(e),
            Ok(()) => {},
        }
        let i = match self.find_index(product_id) {
            Some(i) => i,
            None => return Err(StoreError::Precondition(PreconditionError::ProductNotFound)),
        };
        let price = self.products[i].price;
        if attached_near < price {
            return Err(StoreError::Precondition(PreconditionError::InsufficientPayment));
        }
        let quantity = attached_near / price;
        match product_quantity {
            Some(requested) => {
                if requested != quantity {
                    return Err(StoreError::Precondition(PreconditionError::QuantityMismatch));
                }
            },
            None => {},
        }
        let supply = self.products[i].total_supply;
        if quantity > supply {
            return Err(StoreError::Precondition(PreconditionError::InsufficientStock));
        }
        let updated = self.products[i].with_supply(supply - quantity);
        let result = updated.snapshot();
        self.replace_product(i, updated);
        Ok(result)
    }

    /// Adds `quantity` units to product `product_id`. Only the escrow contract
    /// may call, with the authorization deposit. A supply that would pass
    /// `u128::MAX` is refused. Returns the updated record; a refused restock
    /// changes nothing.
    pub fn plus_product(&mut self, ctx: &CallContext, product_id: u128, quantity: u128) -> (r:
        Result<Product, StoreError>)
        requires
            old(self)@.wf(),
        ensures
            final(self)@.wf(),
            r == old(self)@.restock_result(*ctx, product_id, quantity),
            final(self)@ == old(self)@.after_restock(*ctx, product_id, quantity),
    {
        match self.assert_only_pipar(ctx) {
            Err(e) => return Err(e),
            Ok(()) => {},
        }
        let i = match self.find_index(product_id) {
            Some(i) => i,
            None => return Err(StoreError::Precondition(PreconditionError::ProductNotFound)),
        };
        let new_supply = match self.products[i].total_supply.checked_add(quantity) {
            Some(n) => n,
            None => return Err(StoreError::Precondition(PreconditionError::ArithmeticOverflow)),
        };
        let updated = self.products[i].with_supply(new_supply);
        let result = updated.snapshot();
        self.replace_product(i, updated);
        Ok(result)
    }

    /// Swaps `p` into slot `i`, which it takes over with its identifier and price.
    fn replace_product(&mut self, i: usize, p: Product)
        requires
            old(self)@.wf(),
            i < old(self).products@.len(),
            p == old(self).products@[i as int].with_supply_spec(p.total_supply),
        ensures
            final(self)@.wf(),
            final(self)@ == (StoreModel { products: old(self)@.products.update(i as int, p), ..old(self)@ }),
    {
        self.products.set(i, p);
        assert(ids_increasing(self.products@)) by {
            assert forall|a: int, b: int| 0 <= a < b < self.products@.len() implies
                (#[trigger] self.products@[a]).product_id < (#[trigger] self.products@[b]).product_id by {
                assert(old(self).products@[a].product_id < old(self).products@[b].product_id);
            }
        }
        assert(forall|a: int| 0 <= a < self.products@.len() ==> (#[trigger] self.products@[a]).price
            == old(self).products@[a].price);
    }
}

} // verus!
