use nft_market::error::Error;
use nft_market::trust::Trust;

fn ntoy(near_amount: u128) -> u128 {
    near_amount * 10u128.pow(24)
}

#[test]
fn deposit() {
    let current_account_id = "alice.testnet".to_string();
    let signer_account_id = "bob.testnet".to_string();
    let mut contract = Trust::new(current_account_id);

    contract.deposit(&signer_account_id, ntoy(1000));
    let balance = contract.get_balance(&signer_account_id);

    assert_eq!(balance, ntoy(1000));
}

#[test]
fn withdraw() {
    let current_account_id = "alice.testnet".to_string();
    let signer_account_id = "bob.testnet".to_string();
    let mut contract = Trust::new(current_account_id);

    contract.deposit(&signer_account_id, ntoy(1000));
    let balance = contract.get_balance(&signer_account_id);

    assert_eq!(balance, ntoy(1000));

    contract
        .withdraw(&signer_account_id, ntoy(1000), ntoy(1000))
        .unwrap();
    let balance = contract.get_balance(&signer_account_id);

    assert_eq!(balance, 0);
}

#[test]
#[should_panic(expected = "not enough tokens")]
fn should_panic_withdraw() {
    let current_account_id = "alice.testnet".to_string();
    let signer_account_id = "bob.testnet".to_string();
    let mut contract = Trust::new(current_account_id);

    contract.deposit(&signer_account_id, ntoy(1000));
    let balance = contract.get_balance(&signer_account_id);

    assert_eq!(balance, ntoy(1000));

    match contract.withdraw(&signer_account_id, ntoy(2000), ntoy(1000)) {
        Err(Error::NotEnoughTokens) => panic!("not enough tokens"),
        other => panic!("unexpected result: {:?}", other.is_ok()),
    }
}

#[test]
fn withdraw_pays_out_the_remainder() {
    let mut contract = Trust::new("owner".to_string());
    let signer = "carol".to_string();
    contract.deposit(&signer, 100);
    let transfer = contract.withdraw(&signer, 30, 100).unwrap();
    assert_eq!(transfer.account_id, signer);
    assert_eq!(transfer.amount, 70);
    assert_eq!(contract.get_balance(&signer), 70);
}

#[test]
fn withdraw_missing_funds() {
    let mut contract = Trust::new("owner".to_string());
    let signer = "carol".to_string();
    contract.deposit(&signer, 100);
    let r = contract.withdraw(&signer, 30, 99);
    assert_eq!(r.unwrap_err(), Error::MissingFunds);
    assert_eq!(contract.get_balance(&signer), 100);
}

#[test]
fn deposit_accumulates() {
    let mut contract = Trust::new("owner".to_string());
    let signer = "dave".to_string();
    contract.deposit(&signer, 40);
    contract.deposit(&signer, 2);
    assert_eq!(contract.get_balance(&signer), 42);
    assert_eq!(contract.get_balance(&"someone-else".to_string()), 0);
}
