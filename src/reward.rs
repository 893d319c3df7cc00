//! Paying reward tokens to a buyer through the companion token contract.
use vstd::prelude::*;
use vstd::string::StringExecFns;

use crate::account::{is_valid_account, token_account, token_account_of, valid_account_id};
use crate::error::{PreconditionError, StoreError};
use crate::gas::{CREATE_ACCOUNT_TGAS, TGAS, tgas};
use crate::store::{CallContext, PiparStoreFactory, StoreModel, locate};
use crate::STORAGE_DEPOSIT;

verus! {

/// Arguments of the token contract's storage registration.
#[derive(Debug, Clone, PartialEq, Eq)]
pub struct StorageData {
    pub account_id: String,
    pub registration_only: bool,
}

/// Arguments of the token contract's transfer.
#[derive(Debug, Clone, PartialEq, Eq)]
pub struct TokenData {
    pub receiver_id: String,
    pub amount: u128,
    pub memo: String,
}

/// The remote calls to issue on `token_account`, one after the other:
/// register the buyer's storage with `storage_deposit` attached, then
/// transfer the reward; each with `gas`. The outcome comes back with
/// `transfer_args.amount`.
#[derive(Debug, Clone, PartialEq, Eq)]
pub struct RewardPlan {
    pub token_account: String,
    pub storage_args: StorageData,
    pub storage_deposit: u128,
    pub transfer_args: TokenData,
    pub gas: u64,
}

/// The largest reward one payment may carry: the reward total is a 64-bit
/// amount, and a product beyond it is an overflow.
pub const MAX_REWARD: u128 = 18_446_744_073_709_551_615;

/// The memo of a reward paid by the store `current`.
pub open spec fn reward_memo(current: Seq<char>) -> Seq<char> {
    "Thank You for Shopping at "@ + current + "!"@
}

/// The character of decimal digit `d`.
pub open spec fn digit_char(d: nat) -> char {
    if d == 0 {
        '0'
    } else if d == 1 {
        '1'
    } else if d == 2 {
        '2'
    } else if d == 3 {
        '3'
    } else if d == 4 {
        '4'
    } else if d == 5 {
        '5'
    } else if d == 6 {
        '6'
    } else if d == 7 {
        '7'
    } else if d == 8 {
        '8'
    } else {
        '9'
    }
}

/// `n` written in decimal, without sign or leading zeros.
pub open spec fn decimal(n: nat) -> Seq<char>
    decreases n,
{
    if n < 10 {
        seq![digit_char(n)]
    } else {
        decimal(n / 10) + seq![digit_char(n % 10)]
    }
}

/// Relies on `ToString` for `u128` in std, which writes the number in
/// decimal, without sign or leading zeros.
#[verifier::external_body]
fn decimal_string(n: u128) -> (r: String)
    ensures
        r@ == decimal(n as nat),
{
    n.to_string()
}

impl StoreModel {
    /// The reward owed for `quantity` units of product `id`, or why the
    /// reward is refused.
    pub open spec fn reward_result(self, ctx: CallContext, id: u128, quantity: u128) -> Result<
        u128,
        StoreError,
    > {
        match self.escrow_error(ctx) {
            Some(e) => Err(e),
            None => match locate(self.products, id) {
                None => Err(StoreError::Precondition(PreconditionError::ProductNotFound)),
                Some(i) => {
                    let total = self.products[i].reward_amount * quantity;
                    if total > MAX_REWARD {
                        Err(StoreError::Precondition(PreconditionError::ArithmeticOverflow))
                    } else if !valid_account_id(token_account_of(ctx.current_account_id@)) {
                        Err(StoreError::Precondition(PreconditionError::InvalidSubaccount))
                    } else {
                        Ok(total as u128)
                    }
                },
            },
        }
    }
}

impl PiparStoreFactory {
    /// Plans the payment of the reward for `quantity` units of product
    /// `product_id` to `buyer_account_id`: the product's reward per unit times
    /// the quantity, refused where that passes `MAX_REWARD`. Only the escrow
    /// contract may call, with the authorization deposit. The store does not
    /// change, and a failed payment is not compensated.
    pub fn reward_with_token(
        &self,
        ctx: &CallContext,
        product_id: u128,
        quantity: u128,
        buyer_account_id: String,
    ) -> (r: Result<RewardPlan, StoreError>)
        requires
            self@.wf(),
        ensures
            match r {
                Ok(plan) => {
                    &&& self@.reward_result(*ctx, product_id, quantity) == Ok::<u128, StoreError>(
                        plan.transfer_args.amount,
                    )
                    &&& plan.token_account@ == token_account_of(ctx.current_account_id@)
                    &&& plan.storage_args.account_id@ == buyer_account_id@
                    &&& !plan.storage_args.registration_only
                    &&& plan.storage_deposit == STORAGE_DEPOSIT
                    &&& plan.transfer_args.receiver_id@ == buyer_account_id@
                    &&& plan.transfer_args.memo@ == reward_memo(ctx.current_account_id@)
                    &&& plan.gas == CREATE_ACCOUNT_TGAS * TGAS
                },
                Err(e) => self@.reward_result(*ctx, product_id, quantity) == Err::<u128, StoreError>(e),
            },
    {
        match self.assert_only_pipar(ctx) {
            Err(e) => return Err(e),
            Ok(()) => {},
        }
        let i = match self.find_index(product_id) {
            Some(i) => i,
            None => return Err(StoreError::Precondition(PreconditionError::ProductNotFound)),
        };
        let amount = match self.products[i].reward_amount.checked_mul(quantity) {
            Some(t) => t,
            None => return Err(StoreError::Precondition(PreconditionError::ArithmeticOverflow)),
        };
        if amount > MAX_REWARD {
            return Err(StoreError::Precondition(PreconditionError::ArithmeticOverflow));
        }
        let token_account = token_account(ctx.current_account_id.as_str());
        if !is_valid_account(token_account.as_str()) {
            return Err(StoreError::Precondition(PreconditionError::InvalidSubaccount));
        }
        let mut memo = String::from_str("Thank You for Shopping at ");
        memo.append(ctx.current_account_id.as_str());
        memo.append("!");
        Ok(
            RewardPlan {
                token_account,
                storage_args: StorageData {
                    account_id: buyer_account_id.clone(),
                    registration_only: false,
                },
                storage_deposit: STORAGE_DEPOSIT,
                transfer_args: TokenData { receiver_id: buyer_account_id, amount, memo },
                gas: tgas(CREATE_ACCOUNT_TGAS),
            },
        )
    }

    /// Reports the outcome of a reward payment of `token_quantity` tokens.
    /// Nothing is undone on failure.
    pub fn reward_with_token_callback(&self, success: bool, token_quantity: u128) -> (r: String)
        ensures
            r@ == (if success {
                "Sent "@ + decimal(token_quantity as nat) + " token successfully!"@
            } else {
                "failed sending token"@
            }),
    {
        if success {
            let mut r = String::from_str("Sent ");
            r.append(decimal_string(token_quantity).as_str());
            r.append(" token successfully!");
            r
        } else {
            String::from_str("failed sending token")
        }
    }
}

} // verus!
