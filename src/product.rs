//! A catalog entry.
use vstd::prelude::*;

verus! {

/// A sellable product. Records are never edited in place: an update builds
/// a new record and swaps it into the catalog slot.
#[derive(Debug, Clone, PartialEq, Eq)]
pub struct Product {
    pub product_id: u128,
    pub name: String,
    /// Content address of the product's description.
    pub ipfs: String,
    /// Price of one unit in yoctoNEAR.
    pub price: u128,
    /// Units available.
    pub total_supply: u128,
    pub timeout: u128,
    pub is_discount: bool,
    pub discount_percent: u128,
    pub token_amount: u128,
    pub is_reward: bool,
    /// Reward tokens paid per unit bought.
    pub reward_amount: u128,
    pub custom: bool,
    pub user: String,
}

impl Product {
    /// This record with `total_supply` set to `n`, every other field kept.
    pub open spec fn with_supply_spec(self, n: u128) -> Product {
        Product {
            product_id: self.product_id,
            name: self.name,
            ipfs: self.ipfs,
            price: self.price,
            total_supply: n,
            timeout: self.timeout,
            is_discount: self.is_discount,
            discount_percent: self.discount_percent,
            token_amount: self.token_amount,
            is_reward: self.is_reward,
            reward_amount: self.reward_amount,
            custom: self.custom,
            user: self.user,
        }
    }

    /// A new record equal to this one but for its supply, which is `n`.
    pub fn with_supply(&self, n: u128) -> (r: Product)
        ensures
            r == self.with_supply_spec(n),
    {
        Product {
            product_id: self.product_id,
            name: self.name.clone(),
            ipfs: self.ipfs.clone(),
            price: self.price,
            total_supply: n,
            timeout: self.timeout,
            is_discount: self.is_discount,
            discount_percent: self.discount_percent,
            token_amount: self.token_amount,
            is_reward: self.is_reward,
            reward_amount: self.reward_amount,
            custom: self.custom,
            user: self.user.clone(),
        }
    }

    /// A copy of this record.
    pub fn snapshot(&self) -> (r: Product)
        ensures
            r == *self,
    {
        self.with_supply(self.total_supply)
    }
}

} // verus!
