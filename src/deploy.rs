//! Deploying the companion token contract: the checks and state change made
//! before the remote deployment, and the reconciliation once it resolves.
use vstd::prelude::*;

use crate::account::{is_valid_account, token_account, token_account_of, valid_account_id};
use crate::error::{AuthorizationError, PreconditionError, StoreError};
use crate::gas::{CREATE_ACCOUNT_TGAS, TGAS, tgas};
use crate::store::{CallContext, PiparStoreFactory, StoreModel};

verus! {

/// Arguments of the token contract's initializer.
#[derive(Debug, Clone, PartialEq, Eq)]
pub struct FtData {
    pub owner_id: String,
    pub total_supply: u128,
    pub name: String,
    pub symbol: String,
    pub icon: String,
}

/// The remote deployment to issue: create `account_id`, fund it with
/// `funding`, install the token contract and call its initializer with
/// `init_args` and `gas`; then call back with `creator_id` and
/// `attached_deposit`.
#[derive(Debug, Clone, PartialEq, Eq)]
pub struct DeployPlan {
    pub account_id: String,
    pub funding: u128,
    pub init_args: FtData,
    pub gas: u64,
    pub creator_id: String,
    pub attached_deposit: u128,
}

/// Payment to send back to `receiver_id`.
#[derive(Debug, Clone, PartialEq, Eq)]
pub struct Refund {
    pub receiver_id: String,
    pub amount: u128,
}

impl StoreModel {
    /// Why a deployment is refused, if it is. The caller is checked first, so
    /// that anyone but the owner is refused as unauthorized whatever the state.
    pub open spec fn deploy_error(self, ctx: CallContext) -> Option<StoreError> {
        if ctx.signer_account_id@ != self.owner_id {
            Some(StoreError::Authorization(AuthorizationError::NotOwner))
        } else if self.token {
            Some(StoreError::Precondition(PreconditionError::AlreadyDeployed))
        } else if self.token_pending {
            Some(StoreError::Precondition(PreconditionError::DeploymentPending))
        } else if ctx.attached_deposit < self.token_cost {
            Some(StoreError::Precondition(PreconditionError::InsufficientDeposit))
        } else if !valid_account_id(token_account_of(ctx.current_account_id@)) {
            Some(StoreError::Precondition(PreconditionError::InvalidSubaccount))
        } else {
            None
        }
    }

    /// The store once a deployment has been asked for: pending where it was accepted.
    pub open spec fn after_deploy(self, ctx: CallContext) -> StoreModel {
        if self.deploy_error(ctx) is None {
            StoreModel { token_pending: true, ..self }
        } else {
            self
        }
    }

    /// The store once the deployment has resolved: no longer pending, and
    /// holding a token where the deployment succeeded.
    pub open spec fn after_deploy_callback(self, success: bool) -> StoreModel {
        StoreModel { token: self.token || success, token_pending: false, ..self }
    }
}

impl PiparStoreFactory {
    /// Accepts a deployment of the companion token contract and marks it
    /// pending. Refused where the signer is not the owner, where a token is
    /// deployed or pending, where the attached deposit is below the token cost,
    /// and where the token account is not a valid account. The plan names the
    /// token account, its funding and initializer, and the caller and deposit
    /// to refund should the deployment fail.
    pub fn deploy_token(
        &mut self,
        ctx: &CallContext,
        total_supply: u128,
        name: String,
        symbol: String,
        icon: String,
    ) -> (r: Result<DeployPlan, StoreError>)
        requires
            old(self)@.wf(),
        ensures
            final(self)@.wf(),
            final(self)@ == old(self)@.after_deploy(*ctx),
            match r {
                Ok(plan) => {
                    &&& old(self)@.deploy_error(*ctx) is None
                    &&& plan.account_id@ == token_account_of(ctx.current_account_id@)
                    &&& plan.funding == old(self).token_cost
                    &&& plan.init_args.owner_id@ == token_account_of(ctx.current_account_id@)
                    &&& plan.init_args.total_supply == total_supply
                    &&& plan.init_args.name == name
                    &&& plan.init_args.symbol == symbol
                    &&& plan.init_args.icon == icon
                    &&& plan.gas == CREATE_ACCOUNT_TGAS * TGAS
                    &&& plan.creator_id@ == ctx.predecessor_account_id@
                    &&& plan.attached_deposit == ctx.attached_deposit
                },
                Err(e) => old(self)@.deploy_error(*ctx) == Some(e),
            },
    {
        if ctx.signer_account_id != self.owner_id {
            return Err(StoreError::Authorization(AuthorizationError::NotOwner));
        }
        match self.assert_token_false() {
            Err(e) => return Err(e),
            Ok(()) => {},
        }
        match self.assert_enough_deposit(ctx) {
            Err(e) => return Err(e),
            Ok(()) => {},
        }
        let account_id = token_account(ctx.current_account_id.as_str());
        if !is_valid_account(account_id.as_str()) {
            return Err(StoreError::Precondition(PreconditionError::InvalidSubaccount));
        }
        self.token_pending = true;
        let owner_id = account_id.clone();
        Ok(
            DeployPlan {
                account_id,
                funding: self.token_cost,
                init_args: FtData { owner_id, total_supply, name, symbol, icon },
                gas: tgas(CREATE_ACCOUNT_TGAS),
                creator_id: ctx.predecessor_account_id.clone(),
                attached_deposit: ctx.attached_deposit,
            },
        )
    }

    /// Reconciles the store with the outcome of its deployment. On success the
    /// store holds a token and nothing moves; on failure no token is recorded,
    /// a new deployment may be asked for, and the whole deposit goes back to
    /// the account that paid it.
    pub fn deploy_token_callback(
        &mut self,
        success: bool,
        token_creator_id: String,
        attached_deposit: u128,
    ) -> (r: Option<Refund>)
        requires
            old(self)@.wf(),
        ensures
            final(self)@.wf(),
            final(self)@ == old(self)@.after_deploy_callback(success),
            r == (if success {
                None
            } else {
                Some(Refund { receiver_id: token_creator_id, amount: attached_deposit })
            }),
    {
        self.token_pending = false;
        if success {
            self.token = true;
            None
        } else {
            Some(Refund { receiver_id: token_creator_id, amount: attached_deposit })
        }
    }
}

} // verus!
