use nft_market::approvals::{Contract, GUEST_APPROVAL_LIMIT};
use nft_market::error::Error;

fn s(x: &str) -> String {
    x.to_string()
}

fn registry_with_token() -> Contract {
    let mut reg = Contract::new(s("admin"));
    reg.add_guest(&s("admin"), &s("alice"), &s("pk1")).unwrap();
    reg.nft_mint_guest(&s("pk1"), &s("t1"), &s("meta")).unwrap();
    reg
}

#[test]
fn approve_then_revoke() {
    let mut reg = registry_with_token();
    assert!(reg
        .nft_approve_account_id_guest(&s("pk1"), &s("t1"), &s("market"))
        .unwrap());
    assert!(reg
        .tokens_by_id
        .get(&s("t1"))
        .unwrap()
        .approved_account_ids
        .contains(&s("market")));
    assert_eq!(reg.get_guest(&s("pk1")).unwrap().approvals, 1);
    // Approving the same party again reports false but still charges.
    assert!(!reg
        .nft_approve_account_id_guest(&s("pk1"), &s("t1"), &s("market"))
        .unwrap());
    assert_eq!(reg.get_guest(&s("pk1")).unwrap().approvals, 2);
    assert!(reg
        .nft_revoke_account_id_guest(&s("pk1"), &s("t1"), &s("market"))
        .unwrap());
    assert!(!reg
        .tokens_by_id
        .get(&s("t1"))
        .unwrap()
        .approved_account_ids
        .contains(&s("market")));
    assert_eq!(reg.get_guest(&s("pk1")).unwrap().approvals, 1);
    // Revoking a party that was never approved reports false.
    assert!(!reg
        .nft_revoke_account_id_guest(&s("pk1"), &s("t1"), &s("other"))
        .unwrap());
    assert_eq!(reg.get_guest(&s("pk1")).unwrap().approvals, 0);
    assert_eq!(
        reg.nft_revoke_account_id_guest(&s("pk1"), &s("t1"), &s("other"))
            .unwrap_err(),
        Error::NoApprovalsToRevoke
    );
}

#[test]
fn revoke_all_clears_set_and_counter() {
    let mut reg = registry_with_token();
    reg.nft_approve_account_id_guest(&s("pk1"), &s("t1"), &s("m1"))
        .unwrap();
    reg.nft_approve_account_id_guest(&s("pk1"), &s("t1"), &s("m2"))
        .unwrap();
    reg.nft_revoke_all_guest(&s("pk1"), &s("t1")).unwrap();
    let token = reg.tokens_by_id.get(&s("t1")).unwrap();
    assert_eq!(token.approved_account_ids.len(), 0);
    assert_eq!(reg.get_guest(&s("pk1")).unwrap().approvals, 0);
}

#[test]
fn approval_allowance_is_enforced() {
    let mut reg = registry_with_token();
    for i in 0..GUEST_APPROVAL_LIMIT {
        reg.nft_approve_account_id_guest(&s("pk1"), &s("t1"), &format!("m{}", i))
            .unwrap();
    }
    assert_eq!(
        reg.nft_approve_account_id_guest(&s("pk1"), &s("t1"), &s("one-more"))
            .unwrap_err(),
        Error::ApprovalLimitExceeded
    );
}

#[test]
fn approval_needs_token_ownership() {
    let mut reg = registry_with_token();
    reg.add_guest(&s("admin"), &s("bob"), &s("pk2")).unwrap();
    assert_eq!(
        reg.nft_approve_account_id_guest(&s("pk2"), &s("t1"), &s("market"))
            .unwrap_err(),
        Error::MustBeTokenOwner
    );
    assert_eq!(
        reg.nft_approve_account_id_guest(&s("pk1"), &s("t9"), &s("market"))
            .unwrap_err(),
        Error::TokenNotFound
    );
    assert_eq!(
        reg.nft_approve_account_id_guest(&s("nobody"), &s("t1"), &s("market"))
            .unwrap_err(),
        Error::NotAGuest
    );
}
