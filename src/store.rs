//! The store: its catalog, its principals and the state of its token.
use vstd::prelude::*;

use crate::error::{AuthorizationError, PreconditionError, StoreError};
use crate::product::Product;
use crate::ONE_YOCTO;

verus! {

/// What the platform tells a call about itself.
#[derive(Debug, Clone, PartialEq, Eq)]
pub struct CallContext {
    /// The account that signed the transaction.
    pub signer_account_id: String,
    /// The account that made this call.
    pub predecessor_account_id: String,
    /// The store's own account.
    pub current_account_id: String,
    /// yoctoNEAR attached to the call.
    pub attached_deposit: u128,
}

/// The abstract state of a store.
pub struct StoreModel {
    pub products: Seq<Product>,
    pub owner_id: Seq<char>,
    pub contract_id: Seq<char>,
    pub token: bool,
    pub token_pending: bool,
    pub token_cost: u128,
}

/// The slot of the product with identifier `id`, if there is one.
pub open spec fn locate(products: Seq<Product>, id: u128) -> Option<int> {
    if exists|i: int| 0 <= i < products.len() && (#[trigger] products[i]).product_id == id {
        Some(choose|i: int| 0 <= i < products.len() && (#[trigger] products[i]).product_id == id)
    } else {
        None
    }
}

/// Identifiers increase along the catalog, so no two slots share one.
pub open spec fn ids_increasing(products: Seq<Product>) -> bool {
    forall|i: int, j: int|
        0 <= i < j < products.len() ==> (#[trigger] products[i]).product_id
            < (#[trigger] products[j]).product_id
}

/// Units bought with `attached`: the payment divided by the price, rounded down.
pub open spec fn purchase_quantity(attached: u128, price: u128) -> int {
    attached as int / price as int
}

/// The identifier of a product added at `timestamp`: the timestamp, or one
/// more than the last identifier where that is not larger.
pub open spec fn next_product_id(products: Seq<Product>, timestamp: u64) -> Option<u128> {
    if products.len() == 0 || products.last().product_id < timestamp as u128 {
        Some(timestamp as u128)
    } else if products.last().product_id == u128::MAX {
        None
    } else {
        Some((products.last().product_id + 1) as u128)
    }
}

impl StoreModel {
    /// Identifiers increase along the catalog (so they are unique), prices are
    /// positive, and a deployed token is not also pending.
    pub open spec fn wf(self) -> bool {
        &&& ids_increasing(self.products)
        &&& forall|i: int| 0 <= i < self.products.len() ==> (#[trigger] self.products[i]).price > 0
        &&& !(self.token && self.token_pending)
    }

    /// Why an owner-only call is refused, if it is.
    pub open spec fn owner_error(self, ctx: CallContext) -> Option<StoreError> {
        if ctx.attached_deposit != ONE_YOCTO {
            Some(StoreError::Authorization(AuthorizationError::MissingAuthorizationDeposit))
        } else if ctx.signer_account_id@ != self.owner_id {
            Some(StoreError::Authorization(AuthorizationError::NotOwner))
        } else {
            None
        }
    }

    /// Why an escrow-only call is refused, if it is.
    pub open spec fn escrow_error(self, ctx: CallContext) -> Option<StoreError> {
        if ctx.attached_deposit != ONE_YOCTO {
            Some(StoreError::Authorization(AuthorizationError::MissingAuthorizationDeposit))
        } else if ctx.predecessor_account_id@ != self.contract_id {
            Some(StoreError::Authorization(AuthorizationError::NotEscrow))
        } else {
            None
        }
    }

    /// The store with the product of `id` replaced by the record of `r`, or
    /// unchanged where `r` is an error.
    pub open spec fn apply(self, id: u128, r: Result<Product, StoreError>) -> StoreModel {
        match r {
            Ok(p) => StoreModel { products: self.products.update(locate(self.products, id)->0, p), ..self },
            Err(_) => self,
        }
    }

    /// The outcome of a purchase of product `id` paid with `attached`; with
    /// `requested`, the quantity bought must equal it.
    pub open spec fn purchase_result(
        self,
        ctx: CallContext,
        id: u128,
        requested: Option<u128>,
        attached: u128,
    ) -> Result<Product, StoreError> {
        match self.escrow_error(ctx) {
            Some(e) => Err(e),
            None => match locate(self.products, id) {
                None => Err(StoreError::Precondition(PreconditionError::ProductNotFound)),
                Some(i) => {
                    let p = self.products[i];
                    let q = purchase_quantity(attached, p.price);
                    if attached < p.price {
                        Err(StoreError::Precondition(PreconditionError::InsufficientPayment))
                    } else if requested is Some && requested->0 != q {
                        Err(StoreError::Precondition(PreconditionError::QuantityMismatch))
                    } else if q > p.total_supply {
                        Err(StoreError::Precondition(PreconditionError::InsufficientStock))
                    } else {
                        Ok(p.with_supply_spec((p.total_supply - q) as u128))
                    }
                },
            },
        }
    }

    pub open spec fn after_purchase(
        self,
        ctx: CallContext,
        id: u128,
        requested: Option<u128>,
        attached: u128,
    ) -> StoreModel {
        self.apply(id, self.purchase_result(ctx, id, requested, attached))
    }

    /// The outcome of restocking product `id` with `quantity` units.
    pub open spec fn restock_result(self, ctx: CallContext, id: u128, quantity: u128) -> Result<
        Product,
        StoreError,
    > {
        match self.escrow_error(ctx) {
            Some(e) => Err(e),
            None => match locate(self.products, id) {
                None => Err(StoreError::Precondition(PreconditionError::ProductNotFound)),
                Some(i) => {
                    let p = self.products[i];
                    if p.total_supply + quantity > u128::MAX {
                        Err(StoreError::Precondition(PreconditionError::ArithmeticOverflow))
                    } else {
                        Ok(p.with_supply_spec((p.total_supply + quantity) as u128))
                    }
                },
            },
        }
    }

    pub open spec fn after_restock(self, ctx: CallContext, id: u128, quantity: u128) -> StoreModel {
        self.apply(id, self.restock_result(ctx, id, quantity))
    }

    /// Why adding a product of `price` at `timestamp` is refused, if it is.
    pub open spec fn add_error(self, ctx: CallContext, timestamp: u64, price: u128) -> Option<
        StoreError,
    > {
        match self.owner_error(ctx) {
            Some(e) => Some(e),
            None => if price == 0 {
                Some(StoreError::Precondition(PreconditionError::ZeroPrice))
            } else if next_product_id(self.products, timestamp) is None {
                Some(StoreError::Precondition(PreconditionError::ArithmeticOverflow))
            } else {
                None
            },
        }
    }
}

/// A store.
#[derive(Debug, Clone, PartialEq, Eq)]
pub struct PiparStoreFactory {
    pub products: Vec<Product>,
    pub owner_id: String,
    /// The escrow contract, which alone makes purchases, restocks and rewards.
    pub contract_id: String,
    /// The companion token contract has been deployed.
    pub token: bool,
    /// A deployment has been issued and its outcome has not come back.
    pub token_pending: bool,
    pub token_cost: u128,
}

impl View for PiparStoreFactory {
    type V = StoreModel;

    open spec fn view(&self) -> StoreModel {
        StoreModel {
            products: self.products@,
            owner_id: self.owner_id@,
            contract_id: self.contract_id@,
            token: self.token,
            token_pending: self.token_pending,
            token_cost: self.token_cost,
        }
    }
}

/// Within a well-formed catalog, an identifier names at most one slot.
pub proof fn lemma_locate_unique(products: Seq<Product>, id: u128, i: int)
    requires
        ids_increasing(products),
        0 <= i < products.len(),
        products[i].product_id == id,
    ensures
        locate(products, id) == Some(i),
{
    let k = choose|k: int| 0 <= k < products.len() && (#[trigger] products[k]).product_id == id;
    if k < i {
        assert(products[k].product_id < products[i].product_id);
    } else if i < k {
        assert(products[i].product_id < products[k].product_id);
    }
}

impl PiparStoreFactory {
    /// Whether the store satisfies its invariant: identifiers increase along
    /// the catalog, prices are positive, and a deployed token is not also pending.
    pub fn is_well_formed(&self) -> (r: bool)
        ensures
            r == self@.wf(),
    {
        if self.token && self.token_pending {
            return false;
        }
        let mut i: usize = 0;
        while i < self.products.len()
            invariant
                i <= self.products@.len(),
                forall|j: int| 0 <= j < i ==> (#[trigger] self.products@[j]).price > 0,
                forall|a: int, b: int|
                    0 <= a < b < i ==> (#[trigger] self.products@[a]).product_id
                        < (#[trigger] self.products@[b]).product_id,
            decreases self.products@.len() - i,
        {
            if self.products[i].price == 0 {
                return false;
            }
            if i > 0 && self.products[i - 1].product_id >= self.products[i].product_id {
                return false;
            }
            proof {
                assert forall|a: int, b: int| 0 <= a < b < i + 1 implies
                    (#[trigger] self.products@[a]).product_id
                        < (#[trigger] self.products@[b]).product_id by {
                    if b == i && a < i - 1 {
                        assert(self.products@[a].product_id < self.products@[i - 1].product_id);
                    }
                }
            }
            i += 1;
        }
        true
    }

    /// The owner guard: the authorization deposit and the owner's signature.
    pub(crate) fn assert_only_owner(&self, ctx: &CallContext) -> (r: Result<(), StoreError>)
        ensures
            r == (match self@.owner_error(*ctx) {
                Some(e) => Err(e),
                None => Ok(()),
            }),
    {
        if ctx.attached_deposit != ONE_YOCTO {
            return Err(StoreError::Authorization(AuthorizationError::MissingAuthorizationDeposit));
        }
        if ctx.signer_account_id != self.owner_id {
            return Err(StoreError::Authorization(AuthorizationError::NotOwner));
        }
        Ok(())
    }

    /// The escrow guard: the authorization deposit, and the escrow contract as caller.
    pub(crate) fn assert_only_pipar(&self, ctx: &CallContext) -> (r: Result<(), StoreError>)
        ensures
            r == (match self@.escrow_error(*ctx) {
                Some(e) => Err(e),
                None => Ok(()),
            }),
    {
        if ctx.attached_deposit != ONE_YOCTO {
            return Err(StoreError::Authorization(AuthorizationError::MissingAuthorizationDeposit));
        }
        if ctx.predecessor_account_id != self.contract_id {
            return Err(StoreError::Authorization(AuthorizationError::NotEscrow));
        }
        Ok(())
    }

    /// The payment guard: the attached deposit covers the token cost.
    pub(crate) fn assert_enough_deposit(&self, ctx: &CallContext) -> (r: Result<(), StoreError>)
        ensures
            r is Ok <==> ctx.attached_deposit >= self.token_cost,
            r is Err ==> r == Err::<(), StoreError>(
                StoreError::Precondition(PreconditionError::InsufficientDeposit),
            ),
    {
        if ctx.attached_deposit < self.token_cost {
            return Err(StoreError::Precondition(PreconditionError::InsufficientDeposit));
        }
        Ok(())
    }

    /// The deployment guard: no token is deployed, and none is on its way.
    pub(crate) fn assert_token_false(&self) -> (r: Result<(), StoreError>)
        ensures
            r == (if self.token {
                Err(StoreError::Precondition(PreconditionError::AlreadyDeployed))
            } else if self.token_pending {
                Err(StoreError::Precondition(PreconditionError::DeploymentPending))
            } else {
                Ok(())
            }),
    {
        if self.token {
            return Err(StoreError::Precondition(PreconditionError::AlreadyDeployed));
        }
        if self.token_pending {
            return Err(StoreError::Precondition(PreconditionError::DeploymentPending));
        }
        Ok(())
    }

    /// The first slot that holds product `id`; in a well-formed store, the only one.
    pub fn find_index(&self, id: u128) -> (r: Option<usize>)
        requires
            self@.wf(),
        ensures
            match r {
                Some(i) => locate(self.products@, id) == Some(i as int),
                None => locate(self.products@, id) is None,
            },
    {
        let mut i: usize = 0;
        while i < self.products.len()
            invariant
                i <= self.products@.len(),
                ids_increasing(self.products@),
                forall|j: int| 0 <= j < i ==> (#[trigger] self.products@[j]).product_id != id,
            decreases self.products@.len() - i,
        {
            if self.products[i].product_id == id {
                proof {
                    lemma_locate_unique(self.products@, id, i as int);
                }
                return Some(i);
            }
            i += 1;
        }
        None
    }
}

} // verus!
