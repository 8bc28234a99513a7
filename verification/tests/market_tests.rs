use nft_market::error::{Error, ErrorClass};
use nft_market::market::{
    Contract, OnApprovalMsg, GAS_FOR_NFT_TRANSFER_CALL, GAS_FOR_RESOLVE_TRANSFER,
    MIN_ATTACHED_DEPOSIT,
};
use nft_market::remote::RemoteOutcome;

const PRICE: u128 = 100;
const BOND: u128 = MIN_ATTACHED_DEPOSIT;
const GAS: u64 = 100_000_000_000_000;

fn s(x: &str) -> String {
    x.to_string()
}

/// A market holding one listing by `alice` of token `t1` at `nft`,
/// beneficiary `alice`, price 100, bond at the listing minimum.
fn listed_market() -> Contract {
    let mut market = Contract::new(s("market-owner"));
    market
        .add_sale(BOND, &s("nft"), &s("t1"), PRICE, &s("alice"), None)
        .unwrap();
    market
}

#[test]
fn list_then_get() {
    let market = listed_market();
    let sale = market.get_sale(&s("nft"), &s("t1")).unwrap();
    assert_eq!(sale.owner_id, s("alice"));
    assert_eq!(sale.beneficiary, s("alice"));
    assert_eq!(sale.price, PRICE);
    assert_eq!(sale.deposit, BOND);
    assert!(!sale.processing);
    assert!(market.get_sale(&s("nft"), &s("t2")).is_none());
}

#[test]
fn list_rejects_small_bond() {
    let mut market = Contract::new(s("market-owner"));
    let r = market.add_sale(
        MIN_ATTACHED_DEPOSIT - 1,
        &s("nft"),
        &s("t1"),
        PRICE,
        &s("alice"),
        None,
    );
    assert_eq!(r.unwrap_err(), Error::InsufficientDeposit);
    assert_eq!(Error::InsufficientDeposit.class(), ErrorClass::Validation);
    assert!(market.get_sale(&s("nft"), &s("t1")).is_none());
}

#[test]
fn list_records_designated_beneficiary() {
    let mut market = Contract::new(s("market-owner"));
    market
        .add_sale(BOND, &s("nft"), &s("t1"), PRICE, &s("alice"), Some(&s("carol")))
        .unwrap();
    let sale = market.get_sale(&s("nft"), &s("t1")).unwrap();
    assert_eq!(sale.owner_id, s("alice"));
    assert_eq!(sale.beneficiary, s("carol"));
}

#[test]
fn purchase_locks_and_emits_intent() {
    let mut market = listed_market();
    let intent = market
        .purchase(&s("bob"), PRICE, GAS, &s("nft"), &s("t1"))
        .unwrap();
    assert!(market.get_sale(&s("nft"), &s("t1")).unwrap().processing);
    assert_eq!(intent.transfer.nft_contract_id, s("nft"));
    assert_eq!(intent.transfer.receiver_id, s("bob"));
    assert_eq!(intent.transfer.token_id, s("t1"));
    assert_eq!(intent.transfer.enforce_owner_id, s("alice"));
    assert_eq!(intent.transfer.memo, s("Sold by Matt Market"));
    assert_eq!(intent.transfer.attached_deposit, 1);
    assert_eq!(intent.transfer.gas, GAS - GAS_FOR_NFT_TRANSFER_CALL);
    assert_eq!(intent.callback.token_contract_id, s("nft"));
    assert_eq!(intent.callback.token_id, s("t1"));
    assert_eq!(intent.callback.buyer_id, s("bob"));
    assert_eq!(intent.callback.attached_deposit, 0);
    assert_eq!(intent.callback.gas, GAS_FOR_RESOLVE_TRANSFER);
}

#[test]
fn purchase_of_missing_sale() {
    let mut market = Contract::new(s("market-owner"));
    let r = market.purchase(&s("bob"), PRICE, GAS, &s("nft"), &s("t1"));
    assert_eq!(r.unwrap_err(), Error::NoSale);
    assert_eq!(Error::NoSale.class(), ErrorClass::NotFound);
}

#[test]
fn purchase_with_wrong_payment() {
    let mut market = listed_market();
    let under = market.purchase(&s("bob"), PRICE - 1, GAS, &s("nft"), &s("t1"));
    assert_eq!(under.unwrap_err(), Error::WrongPaymentAmount);
    let over = market.purchase(&s("bob"), PRICE + 1, GAS, &s("nft"), &s("t1"));
    assert_eq!(over.unwrap_err(), Error::WrongPaymentAmount);
    assert_eq!(Error::WrongPaymentAmount.class(), ErrorClass::Validation);
    let sale = market.get_sale(&s("nft"), &s("t1")).unwrap();
    assert!(!sale.processing);
    assert_eq!(sale.price, PRICE);
    assert_eq!(sale.deposit, BOND);
}

#[test]
fn purchase_while_in_flight_conflicts() {
    let mut market = listed_market();
    market
        .purchase(&s("bob"), PRICE, GAS, &s("nft"), &s("t1"))
        .unwrap();
    let r = market.purchase(&s("carol"), PRICE, GAS, &s("nft"), &s("t1"));
    assert_eq!(r.unwrap_err(), Error::SaleInProgress);
    assert_eq!(Error::SaleInProgress.class(), ErrorClass::Conflict);
    let sale = market.get_sale(&s("nft"), &s("t1")).unwrap();
    assert!(sale.processing);
    assert_eq!(sale.price, PRICE);
    assert_eq!(sale.deposit, BOND);
    assert_eq!(sale.owner_id, s("alice"));
}

#[test]
fn resolve_success_settles() {
    let mut market = listed_market();
    market
        .purchase(&s("bob"), PRICE, GAS, &s("nft"), &s("t1"))
        .unwrap();
    let (settled, payout) = market
        .nft_resolve_purchase(&s("nft"), &s("t1"), &s("bob"), RemoteOutcome::Success)
        .unwrap();
    assert!(settled);
    assert_eq!(payout.account_id, s("alice"));
    assert_eq!(payout.amount, PRICE + BOND);
    assert!(market.get_sale(&s("nft"), &s("t1")).is_none());
}

#[test]
fn resolve_failure_compensates() {
    let mut market = listed_market();
    market
        .purchase(&s("bob"), PRICE, GAS, &s("nft"), &s("t1"))
        .unwrap();
    let (settled, refund) = market
        .nft_resolve_purchase(&s("nft"), &s("t1"), &s("bob"), RemoteOutcome::Failed)
        .unwrap();
    assert!(!settled);
    assert_eq!(refund.account_id, s("bob"));
    assert_eq!(refund.amount, PRICE);
    let sale = market.get_sale(&s("nft"), &s("t1")).unwrap();
    assert!(!sale.processing);
    assert_eq!(sale.owner_id, s("alice"));
    assert_eq!(sale.beneficiary, s("alice"));
    assert_eq!(sale.price, PRICE);
    assert_eq!(sale.deposit, BOND);
}

#[test]
fn resolve_of_missing_sale_aborts() {
    let mut market = Contract::new(s("market-owner"));
    let r = market.nft_resolve_purchase(&s("nft"), &s("t1"), &s("bob"), RemoteOutcome::Success);
    assert_eq!(r.unwrap_err(), Error::InvariantViolation);
    assert_eq!(Error::InvariantViolation.class(), ErrorClass::Invariant);
    let r = market.nft_resolve_purchase(&s("nft"), &s("t1"), &s("bob"), RemoteOutcome::Failed);
    assert_eq!(r.unwrap_err(), Error::InvariantViolation);
}

#[test]
fn cancel_refunds_bond_to_owner() {
    let mut market = listed_market();
    let refund = market.remove_sale(&s("alice"), &s("nft"), &s("t1")).unwrap();
    assert_eq!(refund.account_id, s("alice"));
    assert_eq!(refund.amount, BOND);
    assert!(market.get_sale(&s("nft"), &s("t1")).is_none());
}

#[test]
fn cancel_by_non_owner_is_unauthorized() {
    let mut market = listed_market();
    let r = market.remove_sale(&s("mallory"), &s("nft"), &s("t1"));
    assert_eq!(r.unwrap_err(), Error::MustBeSaleOwner);
    assert_eq!(Error::MustBeSaleOwner.class(), ErrorClass::Authorization);
    let sale = market.get_sale(&s("nft"), &s("t1")).unwrap();
    assert_eq!(sale.owner_id, s("alice"));
    assert_eq!(sale.deposit, BOND);
}

#[test]
fn cancel_is_permitted_while_in_flight() {
    // Documented quirk: cancellation does not require the lock to be clear.
    let mut market = listed_market();
    market
        .purchase(&s("bob"), PRICE, GAS, &s("nft"), &s("t1"))
        .unwrap();
    let refund = market.remove_sale(&s("alice"), &s("nft"), &s("t1")).unwrap();
    assert_eq!(refund.account_id, s("alice"));
    assert_eq!(refund.amount, BOND);
    assert!(market.get_sale(&s("nft"), &s("t1")).is_none());
}

#[test]
fn cancel_missing_sale() {
    let mut market = Contract::new(s("market-owner"));
    let r = market.remove_sale(&s("alice"), &s("nft"), &s("t1"));
    assert_eq!(r.unwrap_err(), Error::NoSale);
}

#[test]
fn update_price_keeps_other_fields() {
    let mut market = listed_market();
    market.update_price(&s("alice"), &s("nft"), &s("t1"), 250).unwrap();
    let sale = market.get_sale(&s("nft"), &s("t1")).unwrap();
    assert_eq!(sale.price, 250);
    assert_eq!(sale.deposit, BOND);
    assert!(!sale.processing);
    let r = market.update_price(&s("mallory"), &s("nft"), &s("t1"), 1);
    assert_eq!(r.unwrap_err(), Error::MustBeSaleOwner);
    assert_eq!(market.get_sale(&s("nft"), &s("t1")).unwrap().price, 250);
}

#[test]
fn update_price_preserves_the_lock() {
    let mut market = listed_market();
    market
        .purchase(&s("bob"), PRICE, GAS, &s("nft"), &s("t1"))
        .unwrap();
    market.update_price(&s("alice"), &s("nft"), &s("t1"), 250).unwrap();
    let sale = market.get_sale(&s("nft"), &s("t1")).unwrap();
    assert_eq!(sale.price, 250);
    assert!(sale.processing);
}

#[test]
fn end_to_end_success_and_failure() {
    // List, lock, settle.
    let mut market = Contract::new(s("market-owner"));
    market
        .add_sale(BOND, &s("nft"), &s("t1"), PRICE, &s("alice"), None)
        .unwrap();
    let sale = market.get_sale(&s("nft"), &s("t1")).unwrap();
    assert!(
        sale.owner_id == s("alice")
            && sale.beneficiary == s("alice")
            && sale.price == PRICE
            && sale.deposit == BOND
            && !sale.processing
    );
    market
        .purchase(&s("bob"), PRICE, GAS, &s("nft"), &s("t1"))
        .unwrap();
    assert!(market.get_sale(&s("nft"), &s("t1")).unwrap().processing);
    let (settled, payout) = market
        .nft_resolve_purchase(&s("nft"), &s("t1"), &s("bob"), RemoteOutcome::Success)
        .unwrap();
    assert!(settled);
    assert_eq!(payout.account_id, s("alice"));
    assert_eq!(payout.amount, PRICE + BOND);
    assert!(market.get_sale(&s("nft"), &s("t1")).is_none());

    // Reset: list again, lock, fail the remote transfer.
    market
        .add_sale(BOND, &s("nft"), &s("t1"), PRICE, &s("alice"), None)
        .unwrap();
    market
        .purchase(&s("bob"), PRICE, GAS, &s("nft"), &s("t1"))
        .unwrap();
    let (settled, refund) = market
        .nft_resolve_purchase(&s("nft"), &s("t1"), &s("bob"), RemoteOutcome::Failed)
        .unwrap();
    assert!(!settled);
    assert_eq!(refund.account_id, s("bob"));
    assert_eq!(refund.amount, PRICE);
    let sale = market.get_sale(&s("nft"), &s("t1")).unwrap();
    assert!(
        sale.owner_id == s("alice")
            && sale.beneficiary == s("alice")
            && sale.price == PRICE
            && sale.deposit == BOND
            && !sale.processing
    );
}

#[test]
fn relist_overwrites_in_flight_lock() {
    // Documented consistency gap: listing again does not check the lock.
    let mut market = listed_market();
    market
        .purchase(&s("bob"), PRICE, GAS, &s("nft"), &s("t1"))
        .unwrap();
    market
        .add_sale(BOND, &s("nft"), &s("t1"), PRICE, &s("alice"), None)
        .unwrap();
    assert!(!market.get_sale(&s("nft"), &s("t1")).unwrap().processing);
}

#[test]
fn approval_callback_lists_on_behalf() {
    let mut market = Contract::new(s("market-owner"));
    let msg = OnApprovalMsg { beneficiary: s("carol"), price: PRICE };
    let listed = market
        .nft_on_approve_account_id(&s("nft"), BOND, &s("nft"), &s("t1"), &s("alice"), Some(msg))
        .unwrap();
    assert!(listed);
    let sale = market.get_sale(&s("nft"), &s("t1")).unwrap();
    assert_eq!(sale.owner_id, s("alice"));
    assert_eq!(sale.beneficiary, s("carol"));
    assert_eq!(sale.price, PRICE);
}

#[test]
fn approval_callback_without_terms_does_nothing() {
    let mut market = Contract::new(s("market-owner"));
    let listed = market
        .nft_on_approve_account_id(&s("nft"), BOND, &s("nft"), &s("t1"), &s("alice"), None)
        .unwrap();
    assert!(!listed);
    assert!(market.get_sale(&s("nft"), &s("t1")).is_none());
}

#[test]
fn approval_callback_from_wrong_caller() {
    let mut market = Contract::new(s("market-owner"));
    let msg = OnApprovalMsg { beneficiary: s("carol"), price: PRICE };
    let r = market.nft_on_approve_account_id(
        &s("mallory"),
        BOND,
        &s("nft"),
        &s("t1"),
        &s("alice"),
        Some(msg),
    );
    assert_eq!(r.unwrap_err(), Error::MustBeTokenContract);
    assert_eq!(Error::MustBeTokenContract.class(), ErrorClass::Authorization);
}

#[test]
fn revoke_callback_cancels_contract_owned_listing() {
    let mut market = Contract::new(s("market-owner"));
    // The revoke path cancels under the asset contract's identity, so it
    // only succeeds for a listing the asset contract itself owns.
    market
        .add_sale(BOND, &s("nft"), &s("t1"), PRICE, &s("nft"), None)
        .unwrap();
    let (ok, refund) = market
        .nft_on_revoke_account_id(&s("nft"), &s("nft"), &s("t1"), &s("alice"), None)
        .unwrap();
    assert!(ok);
    assert_eq!(refund.account_id, s("nft"));
    assert_eq!(refund.amount, BOND);
    assert!(market.get_sale(&s("nft"), &s("t1")).is_none());

    // A listing owned by anyone else cannot be revoked this way.
    market
        .add_sale(BOND, &s("nft"), &s("t2"), PRICE, &s("alice"), None)
        .unwrap();
    let r = market.nft_on_revoke_account_id(&s("nft"), &s("nft"), &s("t2"), &s("alice"), None);
    assert_eq!(r.unwrap_err(), Error::MustBeSaleOwner);
}
