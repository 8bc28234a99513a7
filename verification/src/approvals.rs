//! Draft asset registry whose guests manage approvals directly, without a
//! market saga: approvals are granted and revoked synchronously, charged
//! against a per-guest approval allowance next to the mint allowance.

use vstd::prelude::*;
use vstd::string::StrSliceExecFns;

use crate::error::Error;
use crate::store::{StrMap, StrSet};

verus! {

/// Longest token id or metadata a guest may store.
pub const GUEST_STRING_LENGTH_LIMIT: usize = 256;

/// Mints a guest is allowed in total.
pub const GUEST_MINT_LIMIT: u8 = 3;

/// Approvals a guest is allowed outstanding.
pub const GUEST_APPROVAL_LIMIT: u8 = 10;

/// Abstract value of a [`Token`].
pub struct TokenView {
    /// Current owner.
    pub owner_id: Seq<char>,
    /// Free-form metadata.
    pub metadata: Seq<char>,
    /// Parties approved to move this token.
    pub approved_account_ids: Set<Seq<char>>,
}

/// One registered asset.
#[derive(Debug)]
pub struct Token {
    /// Current owner.
    pub owner_id: String,
    /// Free-form metadata.
    pub metadata: String,
    /// Parties approved to move this token.
    pub approved_account_ids: StrSet,
}

impl View for Token {
    type V = TokenView;

    open spec fn view(&self) -> TokenView {
        TokenView {
            owner_id: self.owner_id@,
            metadata: self.metadata@,
            approved_account_ids: self.approved_account_ids@,
        }
    }
}

/// Abstract value of a [`Guest`].
pub struct GuestView {
    /// Account the guest key acts for.
    pub account_id: Seq<char>,
    /// Mints used so far.
    pub mints: u8,
    /// Approvals charged so far.
    pub approvals: u8,
}

/// A sponsored account with mint and approval allowances.
#[derive(Debug)]
pub struct Guest {
    /// Account the guest key acts for.
    pub account_id: String,
    /// Mints used so far.
    pub mints: u8,
    /// Approvals charged so far.
    pub approvals: u8,
}

impl View for Guest {
    type V = GuestView;

    open spec fn view(&self) -> GuestView {
        GuestView { account_id: self.account_id@, mints: self.mints, approvals: self.approvals }
    }
}

/// Guard chain of guest administration: the signing key must be a guest
/// with mints and approvals left, and a revocation needs an approval to
/// give back.
pub open spec fn spec_admin_guest_check(
    guests: Map<Seq<char>, GuestView>,
    signer_pk: Seq<char>,
    change_approvals: Option<i8>,
) -> Result<(), Error> {
    if !guests.contains_key(signer_pk) {
        Err(Error::NotAGuest)
    } else if guests[signer_pk].mints >= GUEST_MINT_LIMIT {
        Err(Error::MintLimitExceeded)
    } else if guests[signer_pk].approvals >= GUEST_APPROVAL_LIMIT {
        Err(Error::ApprovalLimitExceeded)
    } else if change_approvals matches Some(c) && c < 0 && guests[signer_pk].approvals == 0 {
        Err(Error::NoApprovalsToRevoke)
    } else {
        Ok(())
    }
}

/// How guest administration charges the allowances: `add_mints` is added,
/// and the approval count is decremented, reset, or incremented as the
/// sign of `change_approvals` says.
pub open spec fn spec_admin_guest_apply(
    g: GuestView,
    add_mints: u8,
    change_approvals: Option<i8>,
) -> GuestView {
    GuestView {
        account_id: g.account_id,
        mints: (g.mints + add_mints) as u8,
        approvals: match change_approvals {
            None => g.approvals,
            Some(c) => if c < 0 {
                (g.approvals - 1) as u8
            } else if c == 0 {
                0
            } else {
                (g.approvals + 1) as u8
            },
        },
    }
}

/// Guard chain of an operation on a guest's token.
pub open spec fn spec_guest_token_check(
    tokens: Map<Seq<char>, TokenView>,
    guests: Map<Seq<char>, GuestView>,
    signer_pk: Seq<char>,
    token_id: Seq<char>,
    change_approvals: Option<i8>,
) -> Result<(), Error> {
    match spec_admin_guest_check(guests, signer_pk, change_approvals) {
        Err(e) => Err(e),
        Ok(()) => if !tokens.contains_key(token_id) {
            Err(Error::TokenNotFound)
        } else if guests[signer_pk].account_id != tokens[token_id].owner_id {
            Err(Error::MustBeTokenOwner)
        } else {
            Ok(())
        },
    }
}

/// Guard chain of a guest mint.
pub open spec fn spec_mint_guest_check(
    tokens: Map<Seq<char>, TokenView>,
    guests: Map<Seq<char>, GuestView>,
    signer_pk: Seq<char>,
    token_id: Seq<char>,
    metadata: Seq<char>,
) -> Result<(), Error> {
    if token_id.len() >= GUEST_STRING_LENGTH_LIMIT {
        Err(Error::TokenIdTooLong)
    } else if metadata.len() >= GUEST_STRING_LENGTH_LIMIT {
        Err(Error::MetadataTooLong)
    } else {
        match spec_admin_guest_check(guests, signer_pk, None) {
            Err(e) => Err(e),
            Ok(()) => if tokens.contains_key(token_id) {
                Err(Error::TokenAlreadyExists)
            } else {
                Ok(())
            },
        }
    }
}

/// The draft registry contract.
#[derive(Debug)]
pub struct Contract {
    /// Token ids held by each account.
    pub tokens_per_owner: StrMap<StrSet>,
    /// Token records by id.
    pub tokens_by_id: StrMap<Token>,
    /// Administrative owner of the deployed registry.
    pub owner_id: String,
    /// Number of tokens minted.
    pub total_supply: u64,
    /// Storage each additional token costs, as measured by the host.
    pub extra_storage_in_bytes_per_token: u64,
    /// Guest records by signing key.
    pub guests: StrMap<Guest>,
}

impl Contract {
    /// Fresh registry with no tokens and no guests.
    pub fn new(owner_id: String) -> (r: Contract)
        ensures
            r.owner_id == owner_id,
            r.tokens_per_owner@ == Map::<Seq<char>, Set<Seq<char>>>::empty(),
            r.tokens_by_id@ == Map::<Seq<char>, TokenView>::empty(),
            r.guests@ == Map::<Seq<char>, GuestView>::empty(),
            r.total_supply == 0,
            r.extra_storage_in_bytes_per_token == 0,
    {
        Contract {
            tokens_per_owner: StrMap::new(),
            tokens_by_id: StrMap::new(),
            owner_id,
            total_supply: 0,
            extra_storage_in_bytes_per_token: 0,
            guests: StrMap::new(),
        }
    }

    /// Record `token_id` against `account_id`'s token set, creating the
    /// set if the account has none yet.
    fn internal_add_token_to_owner(&mut self, account_id: &String, token_id: &String)
        ensures
            final(self).tokens_per_owner@ == old(self).tokens_per_owner@.insert(
                account_id@,
                if old(self).tokens_per_owner@.contains_key(account_id@) {
                    old(self).tokens_per_owner@[account_id@].insert(token_id@)
                } else {
                    Set::<Seq<char>>::empty().insert(token_id@)
                },
            ),
            final(self).tokens_by_id == old(self).tokens_by_id,
            final(self).owner_id == old(self).owner_id,
            final(self).total_supply == old(self).total_supply,
            final(self).extra_storage_in_bytes_per_token == old(self).extra_storage_in_bytes_per_token,
            final(self).guests == old(self).guests,
    {
        let mut tokens_set = match self.tokens_per_owner.remove(account_id) {
            Some(s) => s,
            None => StrSet::new(),
        };
        tokens_set.insert(token_id);
        self.tokens_per_owner.insert(account_id, tokens_set);
        proof {
            if old(self).tokens_per_owner@.contains_key(account_id@) {
                assert(old(self).tokens_per_owner@.remove(account_id@).insert(
                    account_id@,
                    old(self).tokens_per_owner@[account_id@].insert(token_id@),
                ) =~= old(self).tokens_per_owner@.insert(
                    account_id@,
                    old(self).tokens_per_owner@[account_id@].insert(token_id@),
                ));
            } else {
                assert(old(self).tokens_per_owner@.remove(account_id@) =~= old(self).tokens_per_owner@);
            }
        }
    }

    /// Look up the signing guest, enforce both allowances, and charge the
    /// mint and approval changes against it.
    fn admin_guest(&mut self, signer_pk: &String, add_mints: u8, change_approvals: Option<i8>) -> (r:
        Result<Guest, Error>)
        requires
            add_mints <= 1,
        ensures
            final(self).tokens_per_owner == old(self).tokens_per_owner,
            final(self).tokens_by_id == old(self).tokens_by_id,
            final(self).owner_id == old(self).owner_id,
            final(self).total_supply == old(self).total_supply,
            final(self).extra_storage_in_bytes_per_token == old(self).extra_storage_in_bytes_per_token,
            match spec_admin_guest_check(old(self).guests@, signer_pk@, change_approvals) {
                Err(e) => (r matches Err(e2) && e2 == e) && final(self).guests@ == old(self).guests@,
                Ok(()) => r matches Ok(g) && g@ == spec_admin_guest_apply(
                    old(self).guests@[signer_pk@],
                    add_mints,
                    change_approvals,
                ) && final(self).guests@ == old(self).guests@.insert(signer_pk@, g@),
            },
    {
        let mut guest = match self.guests.get(signer_pk) {
            None => {
                return Err(Error::NotAGuest);
            },
            Some(g) => {
                if g.mints >= GUEST_MINT_LIMIT {
                    return Err(Error::MintLimitExceeded);
                }
                if g.approvals >= GUEST_APPROVAL_LIMIT {
                    return Err(Error::ApprovalLimitExceeded);
                }
                Guest {
                    account_id: g.account_id.clone(),
                    mints: g.mints + add_mints,
                    approvals: g.approvals,
                }
            },
        };
        match change_approvals {
            None => {},
            Some(change) => {
                if change < 0 {
                    if guest.approvals == 0 {
                        return Err(Error::NoApprovalsToRevoke);
                    }
                    guest.approvals = guest.approvals - 1;
                } else if change == 0 {
                    guest.approvals = 0;
                } else {
                    guest.approvals = guest.approvals + 1;
                }
            },
        };
        let returned = Guest {
            account_id: guest.account_id.clone(),
            mints: guest.mints,
            approvals: guest.approvals,
        };
        self.guests.insert(signer_pk, guest);
        Ok(returned)
    }

    /// Mint a token as a guest: id and metadata are length-limited, the
    /// mint is charged against the guest's allowance, and the id must be
    /// fresh.
    pub fn nft_mint_guest(&mut self, signer_pk: &String, token_id: &String, metadata: &String) -> (r:
        Result<(), Error>)
        requires
            old(self).total_supply < u64::MAX,
        ensures
            final(self).owner_id == old(self).owner_id,
            final(self).extra_storage_in_bytes_per_token == old(self).extra_storage_in_bytes_per_token,
            match spec_mint_guest_check(
                old(self).tokens_by_id@,
                old(self).guests@,
                signer_pk@,
                token_id@,
                metadata@,
            ) {
                Err(e) => r == Result::<(), Error>::Err(e) && final(self).tokens_by_id@ == old(self).tokens_by_id@ && final(self).guests@ == old(self).guests@ && final(self).tokens_per_owner@ == old(self).tokens_per_owner@ && final(self).total_supply
                    == old(self).total_supply,
                Ok(()) => r is Ok && {
                    let owner = old(self).guests@[signer_pk@].account_id;
                    final(self).tokens_by_id@ == old(self).tokens_by_id@.insert(
                        token_id@,
                        TokenView {
                            owner_id: owner,
                            metadata: metadata@,
                            approved_account_ids: Set::<Seq<char>>::empty(),
                        },
                    ) && final(self).guests@ == old(self).guests@.insert(
                        signer_pk@,
                        spec_admin_guest_apply(old(self).guests@[signer_pk@], 1, None),
                    ) && final(self).tokens_per_owner@ == old(self).tokens_per_owner@.insert(
                        owner,
                        if old(self).tokens_per_owner@.contains_key(owner) {
                            old(self).tokens_per_owner@[owner].insert(token_id@)
                        } else {
                            Set::<Seq<char>>::empty().insert(token_id@)
                        },
                    ) && final(self).total_supply == old(self).total_supply + 1
                },
            },
    {
        if token_id.as_str().unicode_len() >= GUEST_STRING_LENGTH_LIMIT {
            return Err(Error::TokenIdTooLong);
        }
        if metadata.as_str().unicode_len() >= GUEST_STRING_LENGTH_LIMIT {
            return Err(Error::MetadataTooLong);
        }
        match self.guests.get(signer_pk) {
            None => {
                return Err(Error::NotAGuest);
            },
            Some(g) => {
                if g.mints >= GUEST_MINT_LIMIT {
                    return Err(Error::MintLimitExceeded);
                }
                if g.approvals >= GUEST_APPROVAL_LIMIT {
                    return Err(Error::ApprovalLimitExceeded);
                }
            },
        };
        match self.tokens_by_id.get(token_id) {
            Some(_) => {
                return Err(Error::TokenAlreadyExists);
            },
            None => {},
        };
        let guest = match self.admin_guest(signer_pk, 1, None) {
            Ok(g) => g,
            Err(_) => {
                proof {
                    assert(false);
                }
                return Err(Error::NotAGuest);
            },
        };
        let owner_id = guest.account_id;
        let token = Token {
            owner_id: owner_id.clone(),
            metadata: metadata.clone(),
            approved_account_ids: StrSet::new(),
        };
        self.tokens_by_id.insert(token_id, token);
        self.internal_add_token_to_owner(&owner_id, token_id);
        self.total_supply = self.total_supply + 1;
        Ok(())
    }

    /// Approve `account_id` for a guest's token, charging one approval;
    /// reports whether the party was newly approved.
    pub fn nft_approve_account_id_guest(
        &mut self,
        signer_pk: &String,
        token_id: &String,
        account_id: &String,
    ) -> (r: Result<bool, Error>)
        ensures
            final(self).tokens_per_owner == old(self).tokens_per_owner,
            final(self).owner_id == old(self).owner_id,
            final(self).total_supply == old(self).total_supply,
            final(self).extra_storage_in_bytes_per_token == old(self).extra_storage_in_bytes_per_token,
            match spec_guest_token_check(
                old(self).tokens_by_id@,
                old(self).guests@,
                signer_pk@,
                token_id@,
                Some(1int as i8),
            ) {
                Err(e) => (r matches Err(e2) && e2 == e) && final(self).tokens_by_id@ == old(self).tokens_by_id@ && final(self).guests@ == old(self).guests@,
                Ok(()) => r == Result::<bool, Error>::Ok(
                    !old(self).tokens_by_id@[token_id@].approved_account_ids.contains(account_id@),
                ) && final(self).guests@ == old(self).guests@.insert(
                    signer_pk@,
                    spec_admin_guest_apply(old(self).guests@[signer_pk@], 0, Some(1int as i8)),
                ) && final(self).tokens_by_id@ == old(self).tokens_by_id@.insert(
                    token_id@,
                    TokenView {
                        owner_id: old(self).tokens_by_id@[token_id@].owner_id,
                        metadata: old(self).tokens_by_id@[token_id@].metadata,
                        approved_account_ids: old(self).tokens_by_id@[token_id@].approved_account_ids.insert(account_id@),
                    },
                ),
            },
    {
        match self.precheck_guest_token(signer_pk, token_id, Some(1)) {
            Ok(()) => {},
            Err(e) => {
                return Err(e);
            },
        };
        match self.admin_guest(signer_pk, 0, Some(1)) {
            Ok(_) => {},
            Err(_) => {
                proof {
                    assert(false);
                }
                return Err(Error::NotAGuest);
            },
        };
        let mut token = match self.tokens_by_id.get(token_id) {
            None => {
                proof {
                    assert(false);
                }
                return Err(Error::TokenNotFound);
            },
            Some(t) => Token {
                owner_id: t.owner_id.clone(),
                metadata: t.metadata.clone(),
                approved_account_ids: t.approved_account_ids.clone(),
            },
        };
        let added = token.approved_account_ids.insert(account_id);
        self.tokens_by_id.insert(token_id, token);
        Ok(added)
    }

    /// Revoke `account_id` from a guest's token, giving one approval back;
    /// reports whether the party had been approved.
    pub fn nft_revoke_account_id_guest(
        &mut self,
        signer_pk: &String,
        token_id: &String,
        account_id: &String,
    ) -> (r: Result<bool, Error>)
        ensures
            final(self).tokens_per_owner == old(self).tokens_per_owner,
            final(self).owner_id == old(self).owner_id,
            final(self).total_supply == old(self).total_supply,
            final(self).extra_storage_in_bytes_per_token == old(self).extra_storage_in_bytes_per_token,
            match spec_guest_token_check(
                old(self).tokens_by_id@,
                old(self).guests@,
                signer_pk@,
                token_id@,
                Some((-1int) as i8),
            ) {
                Err(e) => (r matches Err(e2) && e2 == e) && final(self).tokens_by_id@ == old(self).tokens_by_id@ && final(self).guests@ == old(self).guests@,
                Ok(()) => r == Result::<bool, Error>::Ok(
                    old(self).tokens_by_id@[token_id@].approved_account_ids.contains(account_id@),
                ) && final(self).guests@ == old(self).guests@.insert(
                    signer_pk@,
                    spec_admin_guest_apply(old(self).guests@[signer_pk@], 0, Some((-1int) as i8)),
                ) && final(self).tokens_by_id@ == old(self).tokens_by_id@.insert(
                    token_id@,
                    TokenView {
                        owner_id: old(self).tokens_by_id@[token_id@].owner_id,
                        metadata: old(self).tokens_by_id@[token_id@].metadata,
                        approved_account_ids: old(self).tokens_by_id@[token_id@].approved_account_ids.remove(account_id@),
                    },
                ),
            },
    {
        match self.precheck_guest_token(signer_pk, token_id, Some(-1)) {
            Ok(()) => {},
            Err(e) => {
                return Err(e);
            },
        };
        match self.admin_guest(signer_pk, 0, Some(-1)) {
            Ok(_) => {},
            Err(_) => {
                proof {
                    assert(false);
                }
                return Err(Error::NotAGuest);
            },
        };
        let mut token = match self.tokens_by_id.get(token_id) {
            None => {
                proof {
                    assert(false);
                }
                return Err(Error::TokenNotFound);
            },
            Some(t) => Token {
                owner_id: t.owner_id.clone(),
                metadata: t.metadata.clone(),
                approved_account_ids: t.approved_account_ids.clone(),
            },
        };
        let removed = token.approved_account_ids.remove(account_id);
        self.tokens_by_id.insert(token_id, token);
        Ok(removed)
    }

    /// Revoke every approved party of a guest's token and reset the
    /// guest's approval count.
    pub fn nft_revoke_all_guest(&mut self, signer_pk: &String, token_id: &String) -> (r: Result<
        (),
        Error,
    >)
        ensures
            final(self).tokens_per_owner == old(self).tokens_per_owner,
            final(self).owner_id == old(self).owner_id,
            final(self).total_supply == old(self).total_supply,
            final(self).extra_storage_in_bytes_per_token == old(self).extra_storage_in_bytes_per_token,
            match spec_guest_token_check(
                old(self).tokens_by_id@,
                old(self).guests@,
                signer_pk@,
                token_id@,
                Some(0int as i8),
            ) {
                Err(e) => (r matches Err(e2) && e2 == e) && final(self).tokens_by_id@ == old(self).tokens_by_id@ && final(self).guests@ == old(self).guests@,
                Ok(()) => r is Ok && final(self).guests@ == old(self).guests@.insert(
                    signer_pk@,
                    spec_admin_guest_apply(old(self).guests@[signer_pk@], 0, Some(0int as i8)),
                ) && final(self).tokens_by_id@ == old(self).tokens_by_id@.insert(
                    token_id@,
                    TokenView {
                        owner_id: old(self).tokens_by_id@[token_id@].owner_id,
                        metadata: old(self).tokens_by_id@[token_id@].metadata,
                        approved_account_ids: Set::<Seq<char>>::empty(),
                    },
                ),
            },
    {
        match self.precheck_guest_token(signer_pk, token_id, Some(0)) {
            Ok(()) => {},
            Err(e) => {
                return Err(e);
            },
        };
        match self.admin_guest(signer_pk, 0, Some(0)) {
            Ok(_) => {},
            Err(_) => {
                proof {
                    assert(false);
                }
                return Err(Error::NotAGuest);
            },
        };
        let mut token = match self.tokens_by_id.get(token_id) {
            None => {
                proof {
                    assert(false);
                }
                return Err(Error::TokenNotFound);
            },
            Some(t) => Token {
                owner_id: t.owner_id.clone(),
                metadata: t.metadata.clone(),
                approved_account_ids: t.approved_account_ids.clone(),
            },
        };
        token.approved_account_ids.clear();
        self.tokens_by_id.insert(token_id, token);
        Ok(())
    }

    /// Check every guard of an operation on a guest's token without
    /// changing anything.
    fn precheck_guest_token(
        &self,
        signer_pk: &String,
        token_id: &String,
        change_approvals: Option<i8>,
    ) -> (r: Result<(), Error>)
        ensures
            r == spec_guest_token_check(
                self.tokens_by_id@,
                self.guests@,
                signer_pk@,
                token_id@,
                change_approvals,
            ),
    {
        let guest_account = match self.guests.get(signer_pk) {
            None => {
                return Err(Error::NotAGuest);
            },
            Some(g) => {
                if g.mints >= GUEST_MINT_LIMIT {
                    return Err(Error::MintLimitExceeded);
                }
                if g.approvals >= GUEST_APPROVAL_LIMIT {
                    return Err(Error::ApprovalLimitExceeded);
                }
                match change_approvals {
                    Some(c) => {
                        if c < 0 && g.approvals == 0 {
                            return Err(Error::NoApprovalsToRevoke);
                        }
                    },
                    None => {},
                };
                &g.account_id
            },
        };
        match self.tokens_by_id.get(token_id) {
            None => Err(Error::TokenNotFound),
            Some(t) => {
                if !guest_account.eq(&t.owner_id) {
                    Err(Error::MustBeTokenOwner)
                } else {
                    Ok(())
                }
            },
        }
    }

    /// Register a guest: only the registry owner may; the account gets an
    /// empty token set and the signing key a fresh guest record.
    pub fn add_guest(
        &mut self,
        predecessor_id: &String,
        account_id: &String,
        public_key: &String,
    ) -> (r: Result<(), Error>)
        ensures
            final(self).tokens_by_id == old(self).tokens_by_id,
            final(self).owner_id == old(self).owner_id,
            final(self).total_supply == old(self).total_supply,
            final(self).extra_storage_in_bytes_per_token == old(self).extra_storage_in_bytes_per_token,
            match r {
                Err(e) => final(self).tokens_per_owner@ == old(self).tokens_per_owner@ && final(self).guests@ == old(self).guests@ && ((predecessor_id@ != old(self).owner_id@ && e
                    == Error::MustBeContractOwner) || (predecessor_id@ == old(self).owner_id@ && old(self).tokens_per_owner@.contains_key(account_id@) && e == Error::AccountAlreadyRegistered)
                    || (predecessor_id@ == old(self).owner_id@ && !old(self).tokens_per_owner@.contains_key(account_id@) && old(self).guests@.contains_key(
                    public_key@,
                ) && e == Error::GuestAlreadyAdded)),
                Ok(()) => predecessor_id@ == old(self).owner_id@ && !old(self).tokens_per_owner@.contains_key(account_id@) && !old(self).guests@.contains_key(
                    public_key@,
                ) && final(self).tokens_per_owner@ == old(self).tokens_per_owner@.insert(
                    account_id@,
                    Set::<Seq<char>>::empty(),
                ) && final(self).guests@ == old(self).guests@.insert(
                    public_key@,
                    GuestView { account_id: account_id@, mints: 0, approvals: 0 },
                ),
            },
    {
        if !predecessor_id.eq(&self.owner_id) {
            return Err(Error::MustBeContractOwner);
        }
        match self.tokens_per_owner.get(account_id) {
            Some(_) => {
                return Err(Error::AccountAlreadyRegistered);
            },
            None => {},
        };
        match self.guests.get(public_key) {
            Some(_) => {
                return Err(Error::GuestAlreadyAdded);
            },
            None => {},
        };
        self.tokens_per_owner.insert(account_id, StrSet::new());
        self.guests.insert(
            public_key,
            Guest { account_id: account_id.clone(), mints: 0, approvals: 0 },
        );
        Ok(())
    }

    /// Unregister a guest: only the registry owner may; the guest record
    /// and the account's token set are dropped.
    pub fn remove_guest(&mut self, predecessor_id: &String, public_key: &String) -> (r: Result<
        (),
        Error,
    >)
        ensures
            final(self).tokens_by_id == old(self).tokens_by_id,
            final(self).owner_id == old(self).owner_id,
            final(self).total_supply == old(self).total_supply,
            final(self).extra_storage_in_bytes_per_token == old(self).extra_storage_in_bytes_per_token,
            match r {
                Err(e) => final(self).tokens_per_owner@ == old(self).tokens_per_owner@ && final(self).guests@ == old(self).guests@ && ((predecessor_id@ != old(self).owner_id@ && e
                    == Error::MustBeContractOwner) || (predecessor_id@ == old(self).owner_id@
                    && !old(self).guests@.contains_key(public_key@) && e == Error::NotAGuest)),
                Ok(()) => predecessor_id@ == old(self).owner_id@ && old(self).guests@.contains_key(
                    public_key@,
                ) && final(self).tokens_per_owner@ == old(self).tokens_per_owner@.remove(
                    old(self).guests@[public_key@].account_id,
                ) && final(self).guests@ == old(self).guests@.remove(public_key@),
            },
    {
        if !predecessor_id.eq(&self.owner_id) {
            return Err(Error::MustBeContractOwner);
        }
        let account_id = match self.guests.get(public_key) {
            None => {
                return Err(Error::NotAGuest);
            },
            Some(g) => g.account_id.clone(),
        };
        self.tokens_per_owner.remove(&account_id);
        self.guests.remove(public_key);
        Ok(())
    }

    /// Guest record of a signing key, if any.
    pub fn get_guest(&self, public_key: &String) -> (r: Option<&Guest>)
        ensures
            match r {
                Some(g) => self.guests@.contains_key(public_key@) && g@
                    == self.guests@[public_key@],
                None => !self.guests@.contains_key(public_key@),
            },
    {
        self.guests.get(public_key)
    }
}

} // verus!
