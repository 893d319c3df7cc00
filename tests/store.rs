use pipar_store::error::{AuthorizationError, PreconditionError, StoreError};
use pipar_store::gas::tgas;
use pipar_store::reward::MAX_REWARD;
use pipar_store::product::Product;
use pipar_store::store::{CallContext, PiparStoreFactory};
use pipar_store::{ONE_NEAR, STORAGE_DEPOSIT, TOKEN_BALANCE};

const OWNER: &str = "alice.near";
const ESCROW: &str = "escrow.near";
const STORE: &str = "store.near";

fn call(signer: &str, predecessor: &str, deposit: u128) -> CallContext {
    CallContext {
        signer_account_id: signer.to_string(),
        predecessor_account_id: predecessor.to_string(),
        current_account_id: STORE.to_string(),
        attached_deposit: deposit,
    }
}

fn owner_call() -> CallContext {
    call(OWNER, OWNER, 1)
}

fn escrow_call() -> CallContext {
    call(OWNER, ESCROW, 1)
}

fn store() -> PiparStoreFactory {
    PiparStoreFactory::new(OWNER.to_string(), ESCROW.to_string())
}

fn add(s: &mut PiparStoreFactory, timestamp: u64, price: u128, supply: u128, reward: u128) -> u128 {
    let r = s.add_product(
        &owner_call(),
        timestamp,
        "mug".to_string(),
        "QmHash".to_string(),
        price,
        supply,
        0,
        false,
        0,
        0,
        reward > 0,
        reward,
        false,
        String::new(),
    );
    assert_eq!(r, Ok(true));
    s.get_store_products().last().unwrap().product_id
}

fn supply_of(s: &PiparStoreFactory, id: u128) -> u128 {
    s.get_store_products().iter().find(|p| p.product_id == id).unwrap().total_supply
}

#[test]
fn new_store_is_empty() {
    let s = store();
    assert_eq!(s.get_product_count(), 0);
    assert!(s.get_store_products().is_empty());
    assert!(!s.has_token());
    assert!(!s.is_token_pending());
    assert_eq!(s.get_token_cost(), TOKEN_BALANCE);
    assert_eq!(TOKEN_BALANCE, 4 * ONE_NEAR);
}

#[test]
fn add_product_stores_every_field() {
    let mut s = store();
    let r = s.add_product(
        &owner_call(),
        1_700_000_000,
        "mug".to_string(),
        "QmHash".to_string(),
        10,
        5,
        60,
        true,
        15,
        2,
        true,
        4,
        true,
        "bob.near".to_string(),
    );
    assert_eq!(r, Ok(true));
    assert_eq!(s.get_product_count(), 1);
    let expected = Product {
        product_id: 1_700_000_000,
        name: "mug".to_string(),
        ipfs: "QmHash".to_string(),
        price: 10,
        total_supply: 5,
        timeout: 60,
        is_discount: true,
        discount_percent: 15,
        token_amount: 2,
        is_reward: true,
        reward_amount: 4,
        custom: true,
        user: "bob.near".to_string(),
    };
    assert_eq!(s.get_store_products(), vec![expected]);
}

#[test]
fn add_product_ids_stay_unique_within_one_timestamp() {
    let mut s = store();
    let a = add(&mut s, 100, 10, 5, 0);
    let b = add(&mut s, 100, 10, 5, 0);
    let c = add(&mut s, 50, 10, 5, 0);
    let d = add(&mut s, 500, 10, 5, 0);
    assert_eq!((a, b, c, d), (100, 101, 102, 500));
    assert_eq!(s.get_product_count(), 4);
}

#[test]
fn add_product_refuses_strangers_and_zero_price() {
    let mut s = store();
    let args = |s: &mut PiparStoreFactory, ctx: &CallContext, price: u128| {
        s.add_product(
            ctx,
            1,
            "mug".to_string(),
            "QmHash".to_string(),
            price,
            5,
            0,
            false,
            0,
            0,
            false,
            0,
            false,
            String::new(),
        )
    };
    assert_eq!(
        args(&mut s, &call("mallory.near", "mallory.near", 1), 10),
        Err(StoreError::Authorization(AuthorizationError::NotOwner))
    );
    assert_eq!(
        args(&mut s, &call(OWNER, OWNER, 0), 10),
        Err(StoreError::Authorization(AuthorizationError::MissingAuthorizationDeposit))
    );
    assert_eq!(
        args(&mut s, &owner_call(), 0),
        Err(StoreError::Precondition(PreconditionError::ZeroPrice))
    );
    assert_eq!(s.get_product_count(), 0);
}

#[test]
fn add_product_refuses_when_identifiers_run_out() {
    let mut s = store();
    let id = add(&mut s, 7, 10, 5, 0);
    s.products[0].product_id = u128::MAX;
    let r = s.add_product(
        &owner_call(),
        1,
        "cup".to_string(),
        String::new(),
        3,
        1,
        0,
        false,
        0,
        0,
        false,
        0,
        false,
        String::new(),
    );
    assert_eq!(id, 7);
    assert_eq!(r, Err(StoreError::Precondition(PreconditionError::ArithmeticOverflow)));
    assert_eq!(s.get_product_count(), 1);
}

#[test]
fn purchase_scenario_add_buy_then_run_short() {
    let mut s = store();
    let id = add(&mut s, 1, 10, 5, 0);
    let bought = s
        .store_purchase_product(&escrow_call(), id, None, "bob.near".to_string(), 25)
        .unwrap();
    assert_eq!(bought.total_supply, 3);
    assert_eq!(supply_of(&s, id), 3);
    let r = s.store_purchase_product(&escrow_call(), id, None, "bob.near".to_string(), 40);
    assert_eq!(r, Err(StoreError::Precondition(PreconditionError::InsufficientStock)));
    assert_eq!(supply_of(&s, id), 3);
    let all = s.store_purchase_product(&escrow_call(), id, None, "bob.near".to_string(), 30);
    assert_eq!(all.unwrap().total_supply, 0);
    assert_eq!(s.get_product_count(), 1);
}

#[test]
fn purchase_rounds_payment_down() {
    let mut s = store();
    let id = add(&mut s, 1, 7, 10, 0);
    let bought = s
        .store_purchase_product(&escrow_call(), id, None, "bob.near".to_string(), 2 * 7 + 6)
        .unwrap();
    assert_eq!(bought.total_supply, 8);
    assert_eq!(bought.price, 7);
    let exact = s
        .store_purchase_product(&escrow_call(), id, Some(2), "bob.near".to_string(), 14)
        .unwrap();
    assert_eq!(exact.total_supply, 6);
}

#[test]
fn purchase_beyond_supply_is_refused() {
    let mut s = store();
    let id = add(&mut s, 1, 10, 1, 0);
    let before = s.get_store_products();
    let r = s.store_purchase_product(&escrow_call(), id, None, "bob.near".to_string(), 30);
    assert_eq!(r, Err(StoreError::Precondition(PreconditionError::InsufficientStock)));
    assert_eq!(s.get_store_products(), before);
}

#[test]
fn purchase_by_stranger_is_unauthorized() {
    let mut s = store();
    let id = add(&mut s, 1, 10, 5, 0);
    let before = s.clone();
    let r = s.store_purchase_product(&call(OWNER, OWNER, 1), id, None, "bob.near".to_string(), 20);
    assert_eq!(r, Err(StoreError::Authorization(AuthorizationError::NotEscrow)));
    let r = s.store_purchase_product(&call(ESCROW, ESCROW, 0), id, None, "bob.near".to_string(), 20);
    assert_eq!(r, Err(StoreError::Authorization(AuthorizationError::MissingAuthorizationDeposit)));
    assert_eq!(s, before);
}

#[test]
fn purchase_refusals() {
    let mut s = store();
    let id = add(&mut s, 1, 10, 5, 0);
    let before = s.clone();
    let buy = |s: &mut PiparStoreFactory, id: u128, q: Option<u128>, pay: u128| {
        s.store_purchase_product(&escrow_call(), id, q, "bob.near".to_string(), pay)
    };
    assert_eq!(
        buy(&mut s, id + 1, None, 20),
        Err(StoreError::Precondition(PreconditionError::ProductNotFound))
    );
    assert_eq!(
        buy(&mut s, id, None, 9),
        Err(StoreError::Precondition(PreconditionError::InsufficientPayment))
    );
    assert_eq!(
        buy(&mut s, id, Some(1), 25),
        Err(StoreError::Precondition(PreconditionError::QuantityMismatch))
    );
    assert_eq!(s, before);
}

#[test]
fn purchase_finds_the_right_product() {
    let mut s = store();
    let a = add(&mut s, 1, 10, 5, 0);
    let b = add(&mut s, 2, 3, 9, 0);
    let bought = s
        .store_purchase_product(&escrow_call(), b, None, "bob.near".to_string(), 10)
        .unwrap();
    assert_eq!(bought.product_id, b);
    assert_eq!(supply_of(&s, b), 6);
    assert_eq!(supply_of(&s, a), 5);
}

#[test]
fn restock_adds_exactly_and_composes() {
    let mut one = store();
    let id = add(&mut one, 1, 10, 5, 0);
    let mut two = one.clone();
    let r = one.plus_product(&escrow_call(), id, 3).unwrap();
    assert_eq!(r.total_supply, 8);
    one.plus_product(&escrow_call(), id, 4).unwrap();
    two.plus_product(&escrow_call(), id, 7).unwrap();
    assert_eq!(supply_of(&one, id), 12);
    assert_eq!(one, two);
}

#[test]
fn restock_refusals() {
    let mut s = store();
    let id = add(&mut s, 1, 10, u128::MAX - 1, 0);
    let before = s.clone();
    assert_eq!(
        s.plus_product(&escrow_call(), id, 2),
        Err(StoreError::Precondition(PreconditionError::ArithmeticOverflow))
    );
    assert_eq!(
        s.plus_product(&escrow_call(), id + 1, 2),
        Err(StoreError::Precondition(PreconditionError::ProductNotFound))
    );
    assert_eq!(
        s.plus_product(&owner_call(), id, 1),
        Err(StoreError::Authorization(AuthorizationError::NotEscrow))
    );
    assert_eq!(s, before);
    assert_eq!(s.plus_product(&escrow_call(), id, 1).unwrap().total_supply, u128::MAX);
}

#[test]
fn deploy_token_plans_the_deployment() {
    let mut s = store();
    let plan = s
        .deploy_token(&call(OWNER, OWNER, TOKEN_BALANCE), 1000, "Mug".to_string(), "MUG".to_string(), "icon".to_string())
        .unwrap();
    assert_eq!(plan.account_id, "ft.store.near");
    assert_eq!(plan.funding, TOKEN_BALANCE);
    assert_eq!(plan.init_args.owner_id, "ft.store.near");
    assert_eq!(plan.init_args.total_supply, 1000);
    assert_eq!(plan.init_args.name, "Mug");
    assert_eq!(plan.init_args.symbol, "MUG");
    assert_eq!(plan.init_args.icon, "icon");
    assert_eq!(plan.gas, 70_000_000_000_000);
    assert_eq!(plan.creator_id, OWNER);
    assert_eq!(plan.attached_deposit, TOKEN_BALANCE);
    assert!(s.is_token_pending());
    assert!(!s.has_token());
}

#[test]
fn deploy_token_succeeds_at_most_once() {
    let mut s = store();
    let ctx = call(OWNER, OWNER, TOKEN_BALANCE);
    let plan = s.deploy_token(&ctx, 1000, "Mug".to_string(), "MUG".to_string(), String::new()).unwrap();
    assert_eq!(
        s.deploy_token(&ctx, 1000, "Mug".to_string(), "MUG".to_string(), String::new()),
        Err(StoreError::Precondition(PreconditionError::DeploymentPending))
    );
    assert_eq!(
        s.deploy_token(&call("mallory.near", "mallory.near", TOKEN_BALANCE), 1, String::new(), String::new(), String::new()),
        Err(StoreError::Authorization(AuthorizationError::NotOwner))
    );
    assert_eq!(s.deploy_token_callback(true, plan.creator_id, plan.attached_deposit), None);
    assert!(s.has_token());
    assert!(!s.is_token_pending());
    assert_eq!(
        s.deploy_token(&ctx, 1000, "Mug".to_string(), "MUG".to_string(), String::new()),
        Err(StoreError::Precondition(PreconditionError::AlreadyDeployed))
    );
    assert_eq!(
        s.deploy_token(&call("mallory.near", "mallory.near", 0), 1, String::new(), String::new(), String::new()),
        Err(StoreError::Authorization(AuthorizationError::NotOwner))
    );
}

#[test]
fn deploy_token_failure_refunds_the_whole_deposit() {
    let mut s = store();
    let before = s.clone();
    let paid = TOKEN_BALANCE + 5;
    let ctx = call(OWNER, "wallet.alice.near", paid);
    let plan = s.deploy_token(&ctx, 1000, "Mug".to_string(), "MUG".to_string(), String::new()).unwrap();
    let refund = s.deploy_token_callback(false, plan.creator_id, plan.attached_deposit).unwrap();
    assert_eq!(refund.receiver_id, "wallet.alice.near");
    assert_eq!(refund.amount, paid);
    assert!(!s.has_token());
    assert_eq!(s, before);
    assert!(s.deploy_token(&ctx, 1000, "Mug".to_string(), "MUG".to_string(), String::new()).is_ok());
}

#[test]
fn deploy_token_refusals() {
    let mut s = store();
    let before = s.clone();
    let deploy = |s: &mut PiparStoreFactory, ctx: &CallContext| {
        s.deploy_token(ctx, 1000, "Mug".to_string(), "MUG".to_string(), String::new())
    };
    assert_eq!(
        deploy(&mut s, &call("mallory.near", OWNER, TOKEN_BALANCE)),
        Err(StoreError::Authorization(AuthorizationError::NotOwner))
    );
    assert_eq!(
        deploy(&mut s, &call(OWNER, OWNER, TOKEN_BALANCE - 1)),
        Err(StoreError::Precondition(PreconditionError::InsufficientDeposit))
    );
    let mut bad = call(OWNER, OWNER, TOKEN_BALANCE);
    bad.current_account_id = "Store.near".to_string();
    assert_eq!(
        deploy(&mut s, &bad),
        Err(StoreError::Precondition(PreconditionError::InvalidSubaccount))
    );
    bad.current_account_id = "a".repeat(62);
    assert_eq!(
        deploy(&mut s, &bad),
        Err(StoreError::Precondition(PreconditionError::InvalidSubaccount))
    );
    bad.current_account_id = "a".repeat(61);
    assert_eq!(s, before);
    assert!(deploy(&mut s, &bad).is_ok());
}

#[test]
fn reward_multiplies_rate_by_quantity() {
    let mut s = store();
    let id = add(&mut s, 1, 10, 5, 5);
    let before = s.clone();
    let plan = s.reward_with_token(&escrow_call(), id, 3, "bob.near".to_string()).unwrap();
    assert_eq!(plan.transfer_args.amount, 15);
    assert_eq!(plan.transfer_args.receiver_id, "bob.near");
    assert_eq!(plan.transfer_args.memo, "Thank You for Shopping at store.near!");
    assert_eq!(plan.storage_args.account_id, "bob.near");
    assert!(!plan.storage_args.registration_only);
    assert_eq!(plan.storage_deposit, STORAGE_DEPOSIT);
    assert_eq!(plan.token_account, "ft.store.near");
    assert_eq!(plan.gas, tgas(70));
    assert_eq!(s, before);
}

#[test]
fn reward_overflow_is_refused() {
    let mut s = store();
    let wide = add(&mut s, 1, 10, 5, u64::MAX as u128);
    let huge = add(&mut s, 2, 10, 5, u128::MAX);
    let before = s.clone();
    let plan = s.reward_with_token(&escrow_call(), wide, 1, "bob.near".to_string()).unwrap();
    assert_eq!(plan.transfer_args.amount, u64::MAX as u128);
    assert_eq!(MAX_REWARD, u64::MAX as u128);
    assert_eq!(
        s.reward_with_token(&escrow_call(), wide, 2, "bob.near".to_string()),
        Err(StoreError::Precondition(PreconditionError::ArithmeticOverflow))
    );
    assert_eq!(
        s.reward_with_token(&escrow_call(), huge, 2, "bob.near".to_string()),
        Err(StoreError::Precondition(PreconditionError::ArithmeticOverflow))
    );
    assert_eq!(
        s.reward_with_token(&escrow_call(), huge, 0, "bob.near".to_string()).unwrap().transfer_args.amount,
        0
    );
    assert_eq!(s, before);
}

#[test]
fn reward_refusals() {
    let mut s = store();
    let id = add(&mut s, 1, 10, 5, 5);
    assert_eq!(
        s.reward_with_token(&escrow_call(), id + 1, 3, "bob.near".to_string()),
        Err(StoreError::Precondition(PreconditionError::ProductNotFound))
    );
    assert_eq!(
        s.reward_with_token(&owner_call(), id, 3, "bob.near".to_string()),
        Err(StoreError::Authorization(AuthorizationError::NotEscrow))
    );
    let mut bad = escrow_call();
    bad.current_account_id = "store..near".to_string();
    assert_eq!(
        s.reward_with_token(&bad, id, 3, "bob.near".to_string()),
        Err(StoreError::Precondition(PreconditionError::InvalidSubaccount))
    );
}

#[test]
fn reward_callback_reports_outcome() {
    let s = store();
    assert_eq!(s.reward_with_token_callback(true, 15), "Sent 15 token successfully!");
    assert_eq!(s.reward_with_token_callback(true, 0), "Sent 0 token successfully!");
    assert_eq!(
        s.reward_with_token_callback(true, u128::MAX),
        "Sent 340282366920938463463374607431768211455 token successfully!"
    );
    assert_eq!(s.reward_with_token_callback(false, 15), "failed sending token");
}

#[test]
fn tgas_counts_teragas() {
    assert_eq!(tgas(0), 0);
    assert_eq!(tgas(70), 70_000_000_000_000);
}

#[test]
fn well_formedness_is_checked() {
    let mut s = store();
    assert!(s.is_well_formed());
    add(&mut s, 10, 10, 5, 0);
    add(&mut s, 20, 3, 5, 0);
    assert!(s.is_well_formed());
    let mut unordered = s.clone();
    unordered.products[1].product_id = 10;
    assert!(!unordered.is_well_formed());
    let mut free = s.clone();
    free.products[0].price = 0;
    assert!(!free.is_well_formed());
    let mut both = s.clone();
    both.token = true;
    both.token_pending = true;
    assert!(!both.is_well_formed());
}
