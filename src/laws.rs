//! Properties of the store that relate its operations, proved over the model.
use vstd::prelude::*;

use crate::error::{PreconditionError, StoreError};
use crate::product::Product;
use crate::store::{CallContext, StoreModel, ids_increasing, lemma_locate_unique, locate, purchase_quantity};

verus! {

/// Replacing a record by one with the same identifier keeps identifiers
/// increasing, and the identifier still names that slot.
pub proof fn lemma_update_keeps_slot(products: Seq<Product>, i: int, p: Product)
    requires
        ids_increasing(products),
        0 <= i < products.len(),
        p.product_id == products[i].product_id,
    ensures
        ids_increasing(products.update(i, p)),
        locate(products.update(i, p), p.product_id) == Some(i),
{
    let u = products.update(i, p);
    assert forall|a: int, b: int| 0 <= a < b < u.len() implies
        (#[trigger] u[a]).product_id < (#[trigger] u[b]).product_id by {
        assert(products[a].product_id < products[b].product_id);
    }
    lemma_locate_unique(u, p.product_id, i);
}

/// Supply never goes below zero: a purchase of more units than are in stock
/// is refused and leaves the store, and so the supply, as it was; an accepted
/// purchase takes exactly the units bought out of a supply that held them.
pub proof fn lemma_purchase_never_oversells(
    s: StoreModel,
    ctx: CallContext,
    id: u128,
    requested: Option<u128>,
    attached: u128,
)
    requires
        s.wf(),
        locate(s.products, id) is Some,
    ensures
        ({
            let i = locate(s.products, id)->0;
            let p = s.products[i];
            let q = purchase_quantity(attached, p.price);
            &&& q > p.total_supply ==> s.purchase_result(ctx, id, requested, attached) is Err
                && s.after_purchase(ctx, id, requested, attached) == s
            &&& s.purchase_result(ctx, id, requested, attached) is Ok ==> {
                &&& 0 <= q <= p.total_supply
                &&& s.purchase_result(ctx, id, requested, attached)->Ok_0.total_supply
                    == p.total_supply - q
                &&& s.after_purchase(ctx, id, requested, attached).products[i].total_supply
                    == p.total_supply - q
            }
        }),
{
    let i = locate(s.products, id)->0;
    let p = s.products[i];
    assert(0 <= i < s.products.len() && s.products[i].product_id == id);
    assert(p.price > 0);
    assert(purchase_quantity(attached, p.price) >= 0) by (nonlinear_arith)
        requires
            p.price > 0,
    ;
}

/// A payment of twice the price plus a remainder below the price buys two
/// units: where two are in stock the purchase goes through, two units leave
/// the supply and the remainder buys nothing.
pub proof fn lemma_purchase_floor(
    s: StoreModel,
    ctx: CallContext,
    id: u128,
    attached: u128,
    remainder: u128,
)
    requires
        s.wf(),
        s.escrow_error(ctx) is None,
        locate(s.products, id) is Some,
        attached == 2 * s.products[locate(s.products, id)->0].price + remainder,
        remainder < s.products[locate(s.products, id)->0].price,
        s.products[locate(s.products, id)->0].total_supply >= 2,
    ensures
        ({
            let i = locate(s.products, id)->0;
            let p = s.products[i];
            let bought = Ok::<Product, StoreError>(
                p.with_supply_spec((p.total_supply - 2) as u128),
            );
            &&& purchase_quantity(attached, p.price) == 2
            &&& s.purchase_result(ctx, id, None, attached) == bought
            &&& s.purchase_result(ctx, id, Some(2), attached) == bought
        }),
{
    let i = locate(s.products, id)->0;
    let p = s.products[i];
    let price = p.price as int;
    let r = remainder as int;
    assert(0 <= i < s.products.len() && s.products[i].product_id == id);
    assert(price > 0);
    assert((2 * price + r) / price == 2) by (nonlinear_arith)
        requires
            price > 0,
            0 <= r < price,
    ;
}

/// A purchase by any caller but the escrow contract is refused as
/// unauthorized and changes nothing.
pub proof fn lemma_purchase_needs_escrow(
    s: StoreModel,
    ctx: CallContext,
    id: u128,
    requested: Option<u128>,
    attached: u128,
)
    requires
        ctx.predecessor_account_id@ != s.contract_id,
    ensures
        s.purchase_result(ctx, id, requested, attached) is Err,
        s.purchase_result(ctx, id, requested, attached)->Err_0 is Authorization,
        s.after_purchase(ctx, id, requested, attached) == s,
{
}

/// Once a deployment has succeeded, every further deployment is refused:
/// asked for by the owner, as already deployed; by anyone else, as unauthorized.
pub proof fn lemma_deploy_at_most_once(s: StoreModel, ctx: CallContext, again: CallContext)
    requires
        s.wf(),
        s.deploy_error(ctx) is None,
    ensures
        s.after_deploy(ctx).after_deploy_callback(true).token,
        s.after_deploy(ctx).after_deploy_callback(true).deploy_error(again) is Some,
        again.signer_account_id@ == s.owner_id ==> s.after_deploy(ctx).after_deploy_callback(
            true,
        ).deploy_error(again) == Some(StoreError::Precondition(PreconditionError::AlreadyDeployed)),
{
}

/// While a deployment is on its way, no second one is accepted: asked for by
/// the owner, it is refused as pending; by anyone else, as unauthorized.
pub proof fn lemma_no_deploy_while_pending(s: StoreModel, ctx: CallContext, again: CallContext)
    requires
        s.wf(),
        s.deploy_error(ctx) is None,
    ensures
        s.after_deploy(ctx).deploy_error(again) is Some,
        again.signer_account_id@ == s.owner_id ==> s.after_deploy(ctx).deploy_error(again) == Some(
            StoreError::Precondition(PreconditionError::DeploymentPending),
        ),
{
}

/// A failed deployment leaves no token and returns the store to where it was
/// before the deployment was asked for, so that it may be asked for again.
pub proof fn lemma_failed_deploy_rolls_back(s: StoreModel, ctx: CallContext)
    requires
        s.wf(),
        s.deploy_error(ctx) is None,
    ensures
        !s.after_deploy(ctx).after_deploy_callback(false).token,
        s.after_deploy(ctx).after_deploy_callback(false) == s,
{
}

/// An accepted restock adds exactly the quantity to the product's supply.
pub proof fn lemma_restock_adds(s: StoreModel, ctx: CallContext, id: u128, quantity: u128)
    requires
        s.wf(),
        s.restock_result(ctx, id, quantity) is Ok,
    ensures
        ({
            let i = locate(s.products, id)->0;
            &&& s.after_restock(ctx, id, quantity).products[i].total_supply
                == s.products[i].total_supply + quantity
            &&& s.after_restock(ctx, id, quantity).products.len() == s.products.len()
        }),
{
}

/// Two accepted restocks of `q1` and then `q2` units leave the store as one
/// restock of `q1 + q2` units does.
pub proof fn lemma_restock_additive(s: StoreModel, ctx: CallContext, id: u128, q1: u128, q2: u128)
    requires
        s.wf(),
        s.restock_result(ctx, id, q1) is Ok,
        s.after_restock(ctx, id, q1).restock_result(ctx, id, q2) is Ok,
    ensures
        q1 + q2 <= u128::MAX,
        s.restock_result(ctx, id, (q1 + q2) as u128) is Ok,
        s.after_restock(ctx, id, q1).after_restock(ctx, id, q2) == s.after_restock(
            ctx,
            id,
            (q1 + q2) as u128,
        ),
{
    let i = locate(s.products, id)->0;
    let p = s.products[i];
    assert(0 <= i < s.products.len() && s.products[i].product_id == id);
    let p1 = p.with_supply_spec((p.total_supply + q1) as u128);
    lemma_update_keeps_slot(s.products, i, p1);
    let s1 = s.after_restock(ctx, id, q1);
    assert(s1.products == s.products.update(i, p1));
    let p2 = p1.with_supply_spec((p1.total_supply + q2) as u128);
    assert(s1.products.update(i, p2) =~= s.products.update(i, p2));
}

} // verus!
