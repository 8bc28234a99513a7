use nft_market::error::Error;
use nft_market::registry::{
    Contract, Guest, GuestSale, ACCESS_KEY_ALLOWANCE, GAS_FOR_MARKET_CALL, MAX_MARKET_DEPOSIT,
    ON_CALLBACK_GAS, SPONSOR_FEE,
};
use nft_market::remote::RemoteOutcome;

fn s(x: &str) -> String {
    x.to_string()
}

/// A registry whose owner registered guest key `pk1` for `alice`, with one
/// token `t1` minted by that guest.
fn registry_with_token() -> Contract {
    let mut reg = Contract::new(s("admin"));
    reg.add_guest(&s("admin"), &s("alice"), &s("pk1")).unwrap();
    reg.nft_mint_guest(&s("pk1"), &s("t1"), &s("meta")).unwrap();
    reg
}

#[test]
fn mint_records_token_and_charges_guest() {
    let reg = registry_with_token();
    let token = reg.tokens_by_id.get(&s("t1")).unwrap();
    assert_eq!(token.owner_id, s("alice"));
    assert_eq!(token.metadata, s("meta"));
    assert_eq!(token.approved_account_ids.len(), 0);
    assert_eq!(reg.total_supply, 1);
    assert_eq!(reg.get_token_ids(), vec![s("t1")]);
    assert_eq!(reg.get_guest(&s("pk1")).unwrap().mints, 1);
    let owned = reg.get_account(&s("alice")).unwrap();
    assert_eq!(owned, vec![s("t1")]);
}

#[test]
fn mint_guards() {
    let mut reg = Contract::new(s("admin"));
    reg.add_guest(&s("admin"), &s("alice"), &s("pk1")).unwrap();
    let long = "x".repeat(256);
    assert_eq!(
        reg.nft_mint_guest(&s("pk1"), &long, &s("m")).unwrap_err(),
        Error::TokenIdTooLong
    );
    assert_eq!(
        reg.nft_mint_guest(&s("pk1"), &s("t"), &long).unwrap_err(),
        Error::MetadataTooLong
    );
    assert_eq!(
        reg.nft_mint_guest(&s("nobody"), &s("t"), &s("m")).unwrap_err(),
        Error::NotAGuest
    );
    reg.nft_mint_guest(&s("pk1"), &s("t1"), &s("m")).unwrap();
    assert_eq!(
        reg.nft_mint_guest(&s("pk1"), &s("t1"), &s("m")).unwrap_err(),
        Error::TokenAlreadyExists
    );
    reg.nft_mint_guest(&s("pk1"), &s("t2"), &s("m")).unwrap();
    reg.nft_mint_guest(&s("pk1"), &s("t3"), &s("m")).unwrap();
    assert_eq!(
        reg.nft_mint_guest(&s("pk1"), &s("t4"), &s("m")).unwrap_err(),
        Error::MintLimitExceeded
    );
}

#[test]
fn add_sale_guest_emits_market_call() {
    let mut reg = registry_with_token();
    let intent = reg
        .nft_add_sale_guest(&s("pk1"), &s("registry"), &s("t1"), 100, &s("market"), 7)
        .unwrap();
    assert_eq!(intent.call.market_id, s("market"));
    assert_eq!(intent.call.token_contract_id, s("registry"));
    assert_eq!(intent.call.token_id, s("t1"));
    assert_eq!(intent.call.price, 100);
    assert_eq!(intent.call.on_behalf_of, s("alice"));
    assert_eq!(intent.call.attached_deposit, 7);
    assert_eq!(intent.call.gas, GAS_FOR_MARKET_CALL);
    assert_eq!(intent.callback.token_id, s("t1"));
    assert_eq!(intent.callback.market_contract, s("market"));
    let sale = intent.callback.sale.unwrap();
    assert_eq!(sale.public_key, s("pk1"));
    assert_eq!(sale.price, 100);
    assert_eq!(sale.deposit, 7);
    assert_eq!(intent.callback.attached_deposit, 0);
    assert_eq!(intent.callback.gas, ON_CALLBACK_GAS);
    // Nothing is committed locally before the callback.
    assert_eq!(
        reg.tokens_by_id.get(&s("t1")).unwrap().approved_account_ids.len(),
        0
    );
    assert!(reg.guest_sales.get(&s("t1")).is_none());
}

#[test]
fn add_sale_guest_guards() {
    let mut reg = registry_with_token();
    assert_eq!(
        reg.nft_add_sale_guest(
            &s("pk1"),
            &s("registry"),
            &s("t1"),
            100,
            &s("market"),
            MAX_MARKET_DEPOSIT + 1
        )
        .unwrap_err(),
        Error::DepositTooHigh
    );
    assert_eq!(
        reg.nft_add_sale_guest(&s("nobody"), &s("registry"), &s("t1"), 100, &s("market"), 7)
            .unwrap_err(),
        Error::NotAGuest
    );
    assert_eq!(
        reg.nft_add_sale_guest(&s("pk1"), &s("registry"), &s("t9"), 100, &s("market"), 7)
            .unwrap_err(),
        Error::TokenNotFound
    );
    // A second guest does not own alice's token.
    reg.add_guest(&s("admin"), &s("bob"), &s("pk2")).unwrap();
    assert_eq!(
        reg.nft_add_sale_guest(&s("pk2"), &s("registry"), &s("t1"), 100, &s("market"), 7)
            .unwrap_err(),
        Error::MustBeTokenOwner
    );
}

#[test]
fn sync_callback_failure_keeps_local_state() {
    let mut reg = registry_with_token();
    let pending = GuestSale { public_key: s("pk1"), price: 100, deposit: 7 };
    let r = reg
        .on_market_updated(&s("t1"), &s("market"), Some(pending), RemoteOutcome::Failed)
        .unwrap();
    assert!(!r);
    let token = reg.tokens_by_id.get(&s("t1")).unwrap();
    assert_eq!(token.approved_account_ids.len(), 0);
    assert!(!token.approved_account_ids.contains(&s("market")));
    assert!(reg.guest_sales.get(&s("t1")).is_none());
}

#[test]
fn sync_callback_success_commits() {
    let mut reg = registry_with_token();
    let pending = GuestSale { public_key: s("pk1"), price: 100, deposit: 7 };
    let r = reg
        .on_market_updated(&s("t1"), &s("market"), Some(pending), RemoteOutcome::Success)
        .unwrap();
    assert!(r);
    let token = reg.tokens_by_id.get(&s("t1")).unwrap();
    assert!(token.approved_account_ids.contains(&s("market")));
    assert_eq!(token.approved_account_ids.len(), 1);
    let shadow = reg.guest_sales.get(&s("t1")).unwrap();
    assert_eq!(shadow.public_key, s("pk1"));
    assert_eq!(shadow.price, 100);
    assert_eq!(shadow.deposit, 7);
}

#[test]
fn sync_callback_removal_clears_regardless_of_outcome() {
    for outcome in [RemoteOutcome::Success, RemoteOutcome::Failed] {
        let mut reg = registry_with_token();
        let pending = GuestSale { public_key: s("pk1"), price: 100, deposit: 7 };
        reg.on_market_updated(&s("t1"), &s("market"), Some(pending), RemoteOutcome::Success)
            .unwrap();
        let reported = reg
            .on_market_updated(&s("t1"), &s("market"), None, outcome)
            .unwrap();
        assert_eq!(reported, outcome == RemoteOutcome::Success);
        let token = reg.tokens_by_id.get(&s("t1")).unwrap();
        assert!(!token.approved_account_ids.contains(&s("market")));
        assert_eq!(token.approved_account_ids.len(), 0);
        assert!(reg.guest_sales.get(&s("t1")).is_none());
    }
}

#[test]
fn remove_sale_guest_needs_one_approval() {
    let mut reg = registry_with_token();
    assert_eq!(
        reg.nft_remove_sale_guest(&s("pk1"), &s("registry"), &s("t1"), &s("market"))
            .unwrap_err(),
        Error::NoSaleAtMarket
    );
    let pending = GuestSale { public_key: s("pk1"), price: 100, deposit: 7 };
    reg.on_market_updated(&s("t1"), &s("market"), Some(pending), RemoteOutcome::Success)
        .unwrap();
    let intent = reg
        .nft_remove_sale_guest(&s("pk1"), &s("registry"), &s("t1"), &s("market"))
        .unwrap();
    assert_eq!(intent.call.market_id, s("market"));
    assert_eq!(intent.call.token_contract_id, s("registry"));
    assert_eq!(intent.call.token_id, s("t1"));
    assert_eq!(intent.call.attached_deposit, 0);
    assert_eq!(intent.call.gas, GAS_FOR_MARKET_CALL);
    assert!(intent.callback.sale.is_none());
    assert_eq!(intent.callback.market_contract, s("market"));
    // Still approved until the callback clears it.
    assert_eq!(
        reg.tokens_by_id.get(&s("t1")).unwrap().approved_account_ids.len(),
        1
    );
}

#[test]
fn upgrade_guest_emits_sponsor_intent() {
    let mut reg = Contract::new(s("admin"));
    reg.guests.insert(
        &s("pk1"),
        Guest { account_id: s("alice"), mints: 0, balance: 3 * SPONSOR_FEE },
    );
    let intent = reg
        .upgrade_guest(&s("pk1"), &s("registry"), &s("full-key"), &s("fn-key"), &s("claim,ship"))
        .unwrap();
    assert_eq!(intent.account_id, s("alice"));
    assert_eq!(intent.full_access_key, s("full-key"));
    assert_eq!(intent.function_call_key, s("fn-key"));
    assert_eq!(intent.allowance, ACCESS_KEY_ALLOWANCE);
    assert_eq!(intent.receiver_id, s("registry"));
    assert_eq!(intent.method_names, s("claim,ship"));
    assert_eq!(intent.transfer_amount, 2 * SPONSOR_FEE);
    assert_eq!(intent.callback.public_key, s("pk1"));
    assert_eq!(intent.callback.gas, ON_CALLBACK_GAS);
    // The guest record survives until the callback confirms.
    assert!(reg.get_guest(&s("pk1")).is_some());
}

#[test]
fn upgrade_guest_guards() {
    let mut reg = Contract::new(s("admin"));
    assert_eq!(
        reg.upgrade_guest(&s("pk1"), &s("registry"), &s("k1"), &s("k2"), &s("m"))
            .unwrap_err(),
        Error::NotAGuest
    );
    reg.add_guest(&s("admin"), &s("alice"), &s("pk1")).unwrap();
    assert_eq!(
        reg.upgrade_guest(&s("pk1"), &s("registry"), &s("k1"), &s("k2"), &s("m"))
            .unwrap_err(),
        Error::NotEnoughToUpgrade
    );
}

#[test]
fn account_created_callback_clears_guest_only_on_success() {
    let mut reg = Contract::new(s("admin"));
    reg.add_guest(&s("admin"), &s("alice"), &s("pk1")).unwrap();
    assert!(!reg.on_account_created(&s("pk1"), RemoteOutcome::Failed));
    assert!(reg.get_guest(&s("pk1")).is_some());
    assert!(reg.on_account_created(&s("pk1"), RemoteOutcome::Success));
    assert!(reg.get_guest(&s("pk1")).is_none());
}

#[test]
fn guest_administration_is_owner_only() {
    let mut reg = Contract::new(s("admin"));
    assert_eq!(
        reg.add_guest(&s("mallory"), &s("alice"), &s("pk1")).unwrap_err(),
        Error::MustBeContractOwner
    );
    reg.add_guest(&s("admin"), &s("alice"), &s("pk1")).unwrap();
    assert_eq!(
        reg.add_guest(&s("admin"), &s("alice"), &s("pk9")).unwrap_err(),
        Error::AccountAlreadyRegistered
    );
    assert_eq!(
        reg.add_guest(&s("admin"), &s("bob"), &s("pk1")).unwrap_err(),
        Error::GuestAlreadyAdded
    );
    assert_eq!(
        reg.remove_guest(&s("mallory"), &s("pk1")).unwrap_err(),
        Error::MustBeContractOwner
    );
    reg.remove_guest(&s("admin"), &s("pk1")).unwrap();
    assert!(reg.get_guest(&s("pk1")).is_none());
    assert!(reg.get_account(&s("alice")).is_none());
}
