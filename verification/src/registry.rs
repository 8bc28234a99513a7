//! Asset registry with guest accounts: the listing-sync saga and the
//! account-sponsorship saga.
//!
//! The registry mirrors marketplace approval state through the same
//! act-then-resolve pattern the market uses: `nft_add_sale_guest` and
//! `nft_remove_sale_guest` validate and hand back exactly one remote
//! market call chained into one `on_market_updated` callback; local
//! approval state is only reconciled in that callback. Sponsorship follows
//! the identical shape: `upgrade_guest` emits the account-creation intent,
//! `on_account_created` clears the guest record only on success.

use vstd::prelude::*;
use vstd::string::StrSliceExecFns;

use crate::error::Error;
use crate::remote::RemoteOutcome;
use crate::store::{str_views, StrMap, StrSet};

verus! {

/// Gas reserved for a registry self-callback.
pub const ON_CALLBACK_GAS: u64 = 20_000_000_000_000;

/// Gas handed to a remote market call.
pub const GAS_FOR_MARKET_CALL: u64 = 25_000_000_000_000;

/// Deposit attached to a call that carries none.
pub const NO_DEPOSIT: u128 = 0;

/// Longest token id or metadata a guest may store.
pub const GUEST_STRING_LENGTH_LIMIT: usize = 256;

/// Mints a guest is allowed in total.
pub const GUEST_MINT_LIMIT: u8 = 3;

/// Largest bond the registry will sponsor at a market.
pub const MAX_MARKET_DEPOSIT: u128 = 100_000_000_000_000_000_000_000;

/// Allowance of the limited access key granted on upgrade.
pub const ACCESS_KEY_ALLOWANCE: u128 = 100_000_000_000_000_000_000_000;

/// Fee retained when a guest account is upgraded.
pub const SPONSOR_FEE: u128 = 100_000_000_000_000_000_000_000;

/// Abstract value of a [`Token`].
pub struct TokenView {
    /// Current owner.
    pub owner_id: Seq<char>,
    /// Free-form metadata.
    pub metadata: Seq<char>,
    /// Parties approved to move this token.
    pub approved_account_ids: Set<Seq<char>>,
}

/// One registered asset.
#[derive(Debug)]
pub struct Token {
    /// Current owner.
    pub owner_id: String,
    /// Free-form metadata.
    pub metadata: String,
    /// Parties approved to move this token.
    pub approved_account_ids: StrSet,
}

impl View for Token {
    type V = TokenView;

    open spec fn view(&self) -> TokenView {
        TokenView {
            owner_id: self.owner_id@,
            metadata: self.metadata@,
            approved_account_ids: self.approved_account_ids@,
        }
    }
}

/// Abstract value of a [`Guest`].
pub struct GuestView {
    /// Account the guest key acts for.
    pub account_id: Seq<char>,
    /// Mints used so far.
    pub mints: u8,
    /// Balance the registry escrows for the guest.
    pub balance: u128,
}

/// A sponsored account: acts through a registered signing key until it is
/// upgraded to a real account.
#[derive(Debug)]
pub struct Guest {
    /// Account the guest key acts for.
    pub account_id: String,
    /// Mints used so far.
    pub mints: u8,
    /// Balance the registry escrows for the guest.
    pub balance: u128,
}

impl View for Guest {
    type V = GuestView;

    open spec fn view(&self) -> GuestView {
        GuestView { account_id: self.account_id@, mints: self.mints, balance: self.balance }
    }
}

/// Abstract value of a [`GuestSale`].
pub struct GuestSaleView {
    /// Signing key that initiated the listing.
    pub public_key: Seq<char>,
    /// Asking price.
    pub price: u128,
    /// Bond placed at the market.
    pub deposit: u128,
}

/// Shadow record of the sale terms a guest asked a market to list; kept
/// only after the market confirms.
#[derive(Debug)]
pub struct GuestSale {
    /// Signing key that initiated the listing.
    pub public_key: String,
    /// Asking price.
    pub price: u128,
    /// Bond placed at the market.
    pub deposit: u128,
}

impl View for GuestSale {
    type V = GuestSaleView;

    open spec fn view(&self) -> GuestSaleView {
        GuestSaleView { public_key: self.public_key@, price: self.price, deposit: self.deposit }
    }
}

/// The remote add-sale call a guest listing schedules.
#[derive(Debug)]
pub struct MarketAddSaleCall {
    /// Market contract the call goes to.
    pub market_id: String,
    /// This registry, as the asset contract of the listing.
    pub token_contract_id: String,
    /// Asset being listed.
    pub token_id: String,
    /// Asking price.
    pub price: u128,
    /// Listing owner the market records.
    pub on_behalf_of: String,
    /// Bond attached to the call.
    pub attached_deposit: u128,
    /// Gas budget of the call.
    pub gas: u64,
}

/// The remote remove-sale call a guest delisting schedules.
#[derive(Debug)]
pub struct MarketRemoveSaleCall {
    /// Market contract the call goes to.
    pub market_id: String,
    /// This registry, as the asset contract of the listing.
    pub token_contract_id: String,
    /// Asset being delisted.
    pub token_id: String,
    /// Deposit attached to the call.
    pub attached_deposit: u128,
    /// Gas budget of the call.
    pub gas: u64,
}

/// The `on_market_updated` callback registered behind a market call. For
/// the add case it carries the pending sale terms to commit locally on
/// success; for the remove case it carries none.
#[derive(Debug)]
pub struct MarketUpdateCallback {
    /// Asset the market call concerned.
    pub token_id: String,
    /// Market contract that was called.
    pub market_contract: String,
    /// Pending sale terms (add case) or none (remove case).
    pub sale: Option<GuestSale>,
    /// Deposit attached to the callback.
    pub attached_deposit: u128,
    /// Gas budget of the callback.
    pub gas: u64,
}

/// What the host must schedule for a guest listing: one market add-sale
/// call chained into one reconciliation callback.
#[derive(Debug)]
pub struct AddSaleIntent {
    /// The remote market call.
    pub call: MarketAddSaleCall,
    /// The chained reconciliation callback.
    pub callback: MarketUpdateCallback,
}

/// What the host must schedule for a guest delisting: one market
/// remove-sale call chained into one reconciliation callback.
#[derive(Debug)]
pub struct RemoveSaleIntent {
    /// The remote market call.
    pub call: MarketRemoveSaleCall,
    /// The chained reconciliation callback.
    pub callback: MarketUpdateCallback,
}

/// The `on_account_created` callback registered behind a sponsorship call.
#[derive(Debug)]
pub struct OnAccountCreatedCallback {
    /// Guest signing key whose record is cleared on success.
    pub public_key: String,
    /// Deposit attached to the callback.
    pub attached_deposit: u128,
    /// Gas budget of the callback.
    pub gas: u64,
}

/// What the host must schedule to upgrade a guest: one remote sequence —
/// create the account, grant both keys, transfer the escrowed balance less
/// the fee — chained into one `on_account_created` callback.
#[derive(Debug)]
pub struct SponsorUpgradeIntent {
    /// Account to create.
    pub account_id: String,
    /// Full-access key to grant.
    pub full_access_key: String,
    /// Limited key to grant.
    pub function_call_key: String,
    /// Allowance of the limited key.
    pub allowance: u128,
    /// Contract the limited key may call.
    pub receiver_id: String,
    /// Methods the limited key may call.
    pub method_names: String,
    /// Escrowed balance transferred to the new account.
    pub transfer_amount: u128,
    /// The chained callback.
    pub callback: OnAccountCreatedCallback,
}

/// Whether a callback's single remote outcome reports success.
pub fn is_promise_success(outcome: &RemoteOutcome) -> (r: bool)
    ensures
        r == (*outcome is Success),
{
    outcome.is_success()
}

/// Guard chain of guest administration: the signing key must be a guest
/// with mints left.
pub open spec fn spec_admin_guest_check(
    guests: Map<Seq<char>, GuestView>,
    signer_pk: Seq<char>,
) -> Result<(), Error> {
    if !guests.contains_key(signer_pk) {
        Err(Error::NotAGuest)
    } else if guests[signer_pk].mints >= GUEST_MINT_LIMIT {
        Err(Error::MintLimitExceeded)
    } else {
        Ok(())
    }
}

/// Guard chain of a guest mint.
pub open spec fn spec_mint_guest_check(
    tokens: Map<Seq<char>, TokenView>,
    guests: Map<Seq<char>, GuestView>,
    signer_pk: Seq<char>,
    token_id: Seq<char>,
    metadata: Seq<char>,
) -> Result<(), Error> {
    if token_id.len() >= GUEST_STRING_LENGTH_LIMIT {
        Err(Error::TokenIdTooLong)
    } else if metadata.len() >= GUEST_STRING_LENGTH_LIMIT {
        Err(Error::MetadataTooLong)
    } else {
        match spec_admin_guest_check(guests, signer_pk) {
            Err(e) => Err(e),
            Ok(()) => if tokens.contains_key(token_id) {
                Err(Error::TokenAlreadyExists)
            } else {
                Ok(())
            },
        }
    }
}

/// Guard chain of a guest listing.
pub open spec fn spec_add_sale_guest_check(
    tokens: Map<Seq<char>, TokenView>,
    guests: Map<Seq<char>, GuestView>,
    signer_pk: Seq<char>,
    token_id: Seq<char>,
    market_deposit: u128,
) -> Result<(), Error> {
    if market_deposit > MAX_MARKET_DEPOSIT {
        Err(Error::DepositTooHigh)
    } else {
        match spec_admin_guest_check(guests, signer_pk) {
            Err(e) => Err(e),
            Ok(()) => if !tokens.contains_key(token_id) {
                Err(Error::TokenNotFound)
            } else if guests[signer_pk].account_id != tokens[token_id].owner_id {
                Err(Error::MustBeTokenOwner)
            } else if tokens[token_id].approved_account_ids.len() != 0 {
                Err(Error::MarketAlreadyApproved)
            } else {
                Ok(())
            },
        }
    }
}

/// Guard chain of a guest delisting.
pub open spec fn spec_remove_sale_guest_check(
    tokens: Map<Seq<char>, TokenView>,
    guests: Map<Seq<char>, GuestView>,
    signer_pk: Seq<char>,
    token_id: Seq<char>,
) -> Result<(), Error> {
    match spec_admin_guest_check(guests, signer_pk) {
        Err(e) => Err(e),
        Ok(()) => if !tokens.contains_key(token_id) {
            Err(Error::TokenNotFound)
        } else if guests[signer_pk].account_id != tokens[token_id].owner_id {
            Err(Error::MustBeTokenOwner)
        } else if tokens[token_id].approved_account_ids.len() != 1 {
            Err(Error::NoSaleAtMarket)
        } else {
            Ok(())
        },
    }
}

/// Reconciliation of local approval state from a market-call outcome.
///
/// With pending sale terms (add case): a failed outcome leaves local state
/// untouched and reports `false`; a successful one records the market as
/// approved and persists the shadow terms. Without terms (remove case):
/// the approval and the shadow record are cleared *regardless* of the
/// outcome — removal is best-effort, always-clear-locally — and the
/// outcome itself is reported.
pub open spec fn spec_market_updated(
    tokens: Map<Seq<char>, TokenView>,
    guest_sales: Map<Seq<char>, GuestSaleView>,
    token_id: Seq<char>,
    market_contract: Seq<char>,
    sale: Option<GuestSaleView>,
    success: bool,
) -> Result<(Map<Seq<char>, TokenView>, Map<Seq<char>, GuestSaleView>, bool), Error> {
    match sale {
        Some(s) => {
            if !success {
                Ok((tokens, guest_sales, false))
            } else if !tokens.contains_key(token_id) {
                Err(Error::TokenNotFound)
            } else {
                Ok(
                    (
                        tokens.insert(
                            token_id,
                            TokenView {
                                owner_id: tokens[token_id].owner_id,
                                metadata: tokens[token_id].metadata,
                                approved_account_ids: tokens[token_id].approved_account_ids.insert(
                                    market_contract,
                                ),
                            },
                        ),
                        guest_sales.insert(token_id, s),
                        true,
                    ),
                )
            }
        },
        None => {
            if !tokens.contains_key(token_id) {
                Err(Error::TokenNotFound)
            } else {
                Ok(
                    (
                        tokens.insert(
                            token_id,
                            TokenView {
                                owner_id: tokens[token_id].owner_id,
                                metadata: tokens[token_id].metadata,
                                approved_account_ids: tokens[token_id].approved_account_ids.remove(
                                    market_contract,
                                ),
                            },
                        ),
                        guest_sales.remove(token_id),
                        success,
                    ),
                )
            }
        },
    }
}

/// The asset registry contract.
#[derive(Debug)]
pub struct Contract {
    /// Token ids held by each account.
    pub tokens_per_owner: StrMap<StrSet>,
    /// Token records by id.
    pub tokens_by_id: StrMap<Token>,
    /// Administrative owner of the deployed registry.
    pub owner_id: String,
    /// Number of tokens minted.
    pub total_supply: u64,
    /// Storage each additional token costs, as measured by the host.
    pub extra_storage_in_bytes_per_token: u64,
    /// Guest records by signing key.
    pub guests: StrMap<Guest>,
    /// Shadow sale terms by token id.
    pub guest_sales: StrMap<GuestSale>,
    /// Every minted token id, in mint order.
    pub token_ids: Vec<String>,
}

impl Contract {
    /// Fresh registry with no tokens and no guests.
    pub fn new(owner_id: String) -> (r: Contract)
        ensures
            r.owner_id == owner_id,
            r.tokens_per_owner@ == Map::<Seq<char>, Set<Seq<char>>>::empty(),
            r.tokens_by_id@ == Map::<Seq<char>, TokenView>::empty(),
            r.guests@ == Map::<Seq<char>, GuestView>::empty(),
            r.guest_sales@ == Map::<Seq<char>, GuestSaleView>::empty(),
            r.total_supply == 0,
            r.extra_storage_in_bytes_per_token == 0,
            r.token_ids@.len() == 0,
    {
        Contract {
            tokens_per_owner: StrMap::new(),
            tokens_by_id: StrMap::new(),
            owner_id,
            total_supply: 0,
            extra_storage_in_bytes_per_token: 0,
            guests: StrMap::new(),
            guest_sales: StrMap::new(),
            token_ids: Vec::new(),
        }
    }

    /// Record `token_id` against `account_id`'s token set, creating the
    /// set if the account has none yet.
    fn internal_add_token_to_owner(&mut self, account_id: &String, token_id: &String)
        ensures
            final(self).tokens_per_owner@ == old(self).tokens_per_owner@.insert(
                account_id@,
                if old(self).tokens_per_owner@.contains_key(account_id@) {
                    old(self).tokens_per_owner@[account_id@].insert(token_id@)
                } else {
                    Set::<Seq<char>>::empty().insert(token_id@)
                },
            ),
            final(self).tokens_by_id == old(self).tokens_by_id,
            final(self).owner_id == old(self).owner_id,
            final(self).total_supply == old(self).total_supply,
            final(self).extra_storage_in_bytes_per_token == old(self).extra_storage_in_bytes_per_token,
            final(self).guests == old(self).guests,
            final(self).guest_sales == old(self).guest_sales,
            final(self).token_ids == old(self).token_ids,
    {
        let mut tokens_set = match self.tokens_per_owner.remove(account_id) {
            Some(s) => s,
            None => StrSet::new(),
        };
        tokens_set.insert(token_id);
        self.tokens_per_owner.insert(account_id, tokens_set);
        proof {
            if old(self).tokens_per_owner@.contains_key(account_id@) {
                assert(old(self).tokens_per_owner@.remove(account_id@).insert(
                    account_id@,
                    old(self).tokens_per_owner@[account_id@].insert(token_id@),
                ) =~= old(self).tokens_per_owner@.insert(
                    account_id@,
                    old(self).tokens_per_owner@[account_id@].insert(token_id@),
                ));
            } else {
                assert(old(self).tokens_per_owner@.remove(account_id@) =~= old(self).tokens_per_owner@);
            }
        }
    }

    /// Look up the signing guest, enforce the mint allowance, and charge
    /// `new_mints` against it.
    fn admin_guest(&mut self, signer_pk: &String, new_mints: u8) -> (r: Result<Guest, Error>)
        requires
            new_mints <= 1,
        ensures
            final(self).tokens_per_owner == old(self).tokens_per_owner,
            final(self).tokens_by_id == old(self).tokens_by_id,
            final(self).owner_id == old(self).owner_id,
            final(self).total_supply == old(self).total_supply,
            final(self).extra_storage_in_bytes_per_token == old(self).extra_storage_in_bytes_per_token,
            final(self).guest_sales == old(self).guest_sales,
            final(self).token_ids == old(self).token_ids,
            match spec_admin_guest_check(old(self).guests@, signer_pk@) {
                Err(e) => (r matches Err(e2) && e2 == e) && final(self).guests@ == old(self).guests@,
                Ok(()) => r matches Ok(g) && g@ == GuestView {
                    account_id: old(self).guests@[signer_pk@].account_id,
                    mints: (old(self).guests@[signer_pk@].mints + new_mints) as u8,
                    balance: old(self).guests@[signer_pk@].balance,
                } && final(self).guests@ == old(self).guests@.insert(signer_pk@, g@),
            },
    {
        let guest = match self.guests.get(signer_pk) {
            None => {
                return Err(Error::NotAGuest);
            },
            Some(g) => {
                if g.mints >= GUEST_MINT_LIMIT {
                    return Err(Error::MintLimitExceeded);
                }
                Guest {
                    account_id: g.account_id.clone(),
                    mints: g.mints + new_mints,
                    balance: g.balance,
                }
            },
        };
        let returned = Guest {
            account_id: guest.account_id.clone(),
            mints: guest.mints,
            balance: guest.balance,
        };
        self.guests.insert(signer_pk, guest);
        Ok(returned)
    }

    /// Mint a token as a guest: id and metadata are length-limited so the
    /// registry can bound the storage it sponsors, the mint is charged
    /// against the guest's allowance, and the id must be fresh.
    pub fn nft_mint_guest(&mut self, signer_pk: &String, token_id: &String, metadata: &String) -> (r:
        Result<(), Error>)
        requires
            old(self).total_supply < u64::MAX,
        ensures
            final(self).owner_id == old(self).owner_id,
            final(self).extra_storage_in_bytes_per_token == old(self).extra_storage_in_bytes_per_token,
            final(self).guest_sales == old(self).guest_sales,
            match spec_mint_guest_check(
                old(self).tokens_by_id@,
                old(self).guests@,
                signer_pk@,
                token_id@,
                metadata@,
            ) {
                Err(e) => r == Result::<(), Error>::Err(e) && final(self).tokens_by_id@ == old(self).tokens_by_id@ && final(self).guests@ == old(self).guests@ && final(self).tokens_per_owner@ == old(self).tokens_per_owner@ && final(self).total_supply
                    == old(self).total_supply && final(self).token_ids == old(self).token_ids,
                Ok(()) => r is Ok && {
                    let owner = old(self).guests@[signer_pk@].account_id;
                    final(self).tokens_by_id@ == old(self).tokens_by_id@.insert(
                        token_id@,
                        TokenView {
                            owner_id: owner,
                            metadata: metadata@,
                            approved_account_ids: Set::<Seq<char>>::empty(),
                        },
                    ) && final(self).guests@ == old(self).guests@.insert(
                        signer_pk@,
                        GuestView {
                            account_id: owner,
                            mints: (old(self).guests@[signer_pk@].mints + 1) as u8,
                            balance: old(self).guests@[signer_pk@].balance,
                        },
                    ) && final(self).tokens_per_owner@ == old(self).tokens_per_owner@.insert(
                        owner,
                        if old(self).tokens_per_owner@.contains_key(owner) {
                            old(self).tokens_per_owner@[owner].insert(token_id@)
                        } else {
                            Set::<Seq<char>>::empty().insert(token_id@)
                        },
                    ) && final(self).total_supply == old(self).total_supply + 1 && final(self).token_ids@ == old(self).token_ids@.push(*token_id)
                },
            },
    {
        if token_id.as_str().unicode_len() >= GUEST_STRING_LENGTH_LIMIT {
            return Err(Error::TokenIdTooLong);
        }
        if metadata.as_str().unicode_len() >= GUEST_STRING_LENGTH_LIMIT {
            return Err(Error::MetadataTooLong);
        }
        match self.guests.get(signer_pk) {
            None => {
                return Err(Error::NotAGuest);
            },
            Some(g) => {
                if g.mints >= GUEST_MINT_LIMIT {
                    return Err(Error::MintLimitExceeded);
                }
            },
        };
        match self.tokens_by_id.get(token_id) {
            Some(_) => {
                return Err(Error::TokenAlreadyExists);
            },
            None => {},
        };
        let guest = match self.admin_guest(signer_pk, 1) {
            Ok(g) => g,
            Err(_) => {
                proof {
                    assert(false);
                }
                return Err(Error::NotAGuest);
            },
        };
        let owner_id = guest.account_id;
        let token = Token {
            owner_id: owner_id.clone(),
            metadata: metadata.clone(),
            approved_account_ids: StrSet::new(),
        };
        self.tokens_by_id.insert(token_id, token);
        self.internal_add_token_to_owner(&owner_id, token_id);
        self.total_supply = self.total_supply + 1;
        self.token_ids.push(token_id.clone());
        Ok(())
    }

    /// Ask a market to list a guest's token. Validates — bond cap, guest
    /// and its allowance, token ownership, no market approved yet — and
    /// hands back exactly one remote add-sale call chained into one
    /// reconciliation callback carrying the pending sale terms. Local
    /// state is not changed here: approval is committed only by the
    /// callback, on success.
    pub fn nft_add_sale_guest(
        &mut self,
        signer_pk: &String,
        current_account_id: &String,
        token_id: &String,
        price: u128,
        market_id: &String,
        market_deposit: u128,
    ) -> (r: Result<AddSaleIntent, Error>)
        ensures
            final(self).tokens_per_owner == old(self).tokens_per_owner,
            final(self).tokens_by_id == old(self).tokens_by_id,
            final(self).owner_id == old(self).owner_id,
            final(self).total_supply == old(self).total_supply,
            final(self).extra_storage_in_bytes_per_token == old(self).extra_storage_in_bytes_per_token,
            final(self).guests@ == old(self).guests@,
            final(self).guest_sales == old(self).guest_sales,
            final(self).token_ids == old(self).token_ids,
            match spec_add_sale_guest_check(
                old(self).tokens_by_id@,
                old(self).guests@,
                signer_pk@,
                token_id@,
                market_deposit,
            ) {
                Err(e) => r matches Err(e2) && e2 == e,
                Ok(()) => r matches Ok(i) && i.call.market_id@ == market_id@
                    && i.call.token_contract_id@ == current_account_id@ && i.call.token_id@
                    == token_id@ && i.call.price == price && i.call.on_behalf_of@ == old(self).guests@[signer_pk@].account_id && i.call.attached_deposit == market_deposit
                    && i.call.gas == GAS_FOR_MARKET_CALL && i.callback.token_id@ == token_id@
                    && i.callback.market_contract@ == market_id@ && (i.callback.sale matches Some(s)
                    && s@ == GuestSaleView {
                    public_key: signer_pk@,
                    price: price,
                    deposit: market_deposit,
                }) && i.callback.attached_deposit == NO_DEPOSIT && i.callback.gas
                    == ON_CALLBACK_GAS,
            },
    {
        if market_deposit > MAX_MARKET_DEPOSIT {
            return Err(Error::DepositTooHigh);
        }
        let guest = match self.admin_guest(signer_pk, 0) {
            Ok(g) => g,
            Err(e) => {
                return Err(e);
            },
        };
        proof {
            assert(self.guests@ =~= old(self).guests@);
        }
        let owner_ok = match self.tokens_by_id.get(token_id) {
            None => {
                return Err(Error::TokenNotFound);
            },
            Some(token) => {
                if !guest.account_id.eq(&token.owner_id) {
                    false
                } else if token.approved_account_ids.len() != 0 {
                    return Err(Error::MarketAlreadyApproved);
                } else {
                    true
                }
            },
        };
        if !owner_ok {
            return Err(Error::MustBeTokenOwner);
        }
        let sale = GuestSale { public_key: signer_pk.clone(), price, deposit: market_deposit };
        Ok(
            AddSaleIntent {
                call: MarketAddSaleCall {
                    market_id: market_id.clone(),
                    token_contract_id: current_account_id.clone(),
                    token_id: token_id.clone(),
                    price,
                    on_behalf_of: guest.account_id,
                    attached_deposit: market_deposit,
                    gas: GAS_FOR_MARKET_CALL,
                },
                callback: MarketUpdateCallback {
                    token_id: token_id.clone(),
                    market_contract: market_id.clone(),
                    sale: Some(sale),
                    attached_deposit: NO_DEPOSIT,
                    gas: ON_CALLBACK_GAS,
                },
            },
        )
    }

    /// Ask a market to delist a guest's token. Validates — guest and its
    /// allowance, token ownership, exactly one market approved — and hands
    /// back one remote remove-sale call chained into one reconciliation
    /// callback carrying no pending terms. Local state is cleared only by
    /// the callback.
    pub fn nft_remove_sale_guest(
        &mut self,
        signer_pk: &String,
        current_account_id: &String,
        token_id: &String,
        market_id: &String,
    ) -> (r: Result<RemoveSaleIntent, Error>)
        ensures
            final(self).tokens_per_owner == old(self).tokens_per_owner,
            final(self).tokens_by_id == old(self).tokens_by_id,
            final(self).owner_id == old(self).owner_id,
            final(self).total_supply == old(self).total_supply,
            final(self).extra_storage_in_bytes_per_token == old(self).extra_storage_in_bytes_per_token,
            final(self).guests@ == old(self).guests@,
            final(self).guest_sales == old(self).guest_sales,
            final(self).token_ids == old(self).token_ids,
            match spec_remove_sale_guest_check(
                old(self).tokens_by_id@,
                old(self).guests@,
                signer_pk@,
                token_id@,
            ) {
                Err(e) => r matches Err(e2) && e2 == e,
                Ok(()) => r matches Ok(i) && i.call.market_id@ == market_id@
                    && i.call.token_contract_id@ == current_account_id@ && i.call.token_id@
                    == token_id@ && i.call.attached_deposit == NO_DEPOSIT && i.call.gas
                    == GAS_FOR_MARKET_CALL && i.callback.token_id@ == token_id@
                    && i.callback.market_contract@ == market_id@ && i.callback.sale is None
                    && i.callback.attached_deposit == NO_DEPOSIT && i.callback.gas
                    == ON_CALLBACK_GAS,
            },
    {
        let guest = match self.admin_guest(signer_pk, 0) {
            Ok(g) => g,
            Err(e) => {
                return Err(e);
            },
        };
        proof {
            assert(self.guests@ =~= old(self).guests@);
        }
        let owner_ok = match self.tokens_by_id.get(token_id) {
            None => {
                return Err(Error::TokenNotFound);
            },
            Some(token) => {
                if !guest.account_id.eq(&token.owner_id) {
                    false
                } else if token.approved_account_ids.len() != 1 {
                    return Err(Error::NoSaleAtMarket);
                } else {
                    true
                }
            },
        };
        if !owner_ok {
            return Err(Error::MustBeTokenOwner);
        }
        Ok(
            RemoveSaleIntent {
                call: MarketRemoveSaleCall {
                    market_id: market_id.clone(),
                    token_contract_id: current_account_id.clone(),
                    token_id: token_id.clone(),
                    attached_deposit: NO_DEPOSIT,
                    gas: GAS_FOR_MARKET_CALL,
                },
                callback: MarketUpdateCallback {
                    token_id: token_id.clone(),
                    market_contract: market_id.clone(),
                    sale: None,
                    attached_deposit: NO_DEPOSIT,
                    gas: ON_CALLBACK_GAS,
                },
            },
        )
    }

    /// Sponsor a guest's upgrade to a real account: the guest's escrowed
    /// balance must cover the fee; hands back the account-creation intent
    /// — create the account, grant a full key and a limited key, transfer
    /// the balance less the fee — chained into one `on_account_created`
    /// callback. The guest record survives until that callback confirms.
    pub fn upgrade_guest(
        &mut self,
        signer_pk: &String,
        current_account_id: &String,
        public_key: &String,
        access_key: &String,
        method_names: &String,
    ) -> (r: Result<SponsorUpgradeIntent, Error>)
        ensures
            *final(self) == *old(self),
            match r {
                Err(e) => (!old(self).guests@.contains_key(signer_pk@) && e == Error::NotAGuest) || (
                old(self).guests@.contains_key(signer_pk@) && old(self).guests@[signer_pk@].balance <= SPONSOR_FEE && e == Error::NotEnoughToUpgrade),
                Ok(i) => old(self).guests@.contains_key(signer_pk@) && old(self).guests@[signer_pk@].balance > SPONSOR_FEE && i.account_id@ == old(self).guests@[signer_pk@].account_id && i.full_access_key@ == public_key@
                    && i.function_call_key@ == access_key@ && i.allowance == ACCESS_KEY_ALLOWANCE
                    && i.receiver_id@ == current_account_id@ && i.method_names@ == method_names@
                    && i.transfer_amount == old(self).guests@[signer_pk@].balance - SPONSOR_FEE
                    && i.callback.public_key@ == signer_pk@ && i.callback.attached_deposit
                    == NO_DEPOSIT && i.callback.gas == ON_CALLBACK_GAS,
            },
    {
        let guest = match self.guests.get(signer_pk) {
            None => {
                return Err(Error::NotAGuest);
            },
            Some(g) => g,
        };
        let balance = guest.balance;
        if balance <= SPONSOR_FEE {
            return Err(Error::NotEnoughToUpgrade);
        }
        let account_id = guest.account_id.clone();
        Ok(
            SponsorUpgradeIntent {
                account_id,
                full_access_key: public_key.clone(),
                function_call_key: access_key.clone(),
                allowance: ACCESS_KEY_ALLOWANCE,
                receiver_id: current_account_id.clone(),
                method_names: method_names.clone(),
                transfer_amount: balance - SPONSOR_FEE,
                callback: OnAccountCreatedCallback {
                    public_key: signer_pk.clone(),
                    attached_deposit: NO_DEPOSIT,
                    gas: ON_CALLBACK_GAS,
                },
            },
        )
    }

    /// Register a guest: only the registry owner may; the account gets an
    /// empty token set and the signing key a fresh guest record.
    pub fn add_guest(
        &mut self,
        predecessor_id: &String,
        account_id: &String,
        public_key: &String,
    ) -> (r: Result<(), Error>)
        ensures
            final(self).tokens_by_id == old(self).tokens_by_id,
            final(self).owner_id == old(self).owner_id,
            final(self).total_supply == old(self).total_supply,
            final(self).extra_storage_in_bytes_per_token == old(self).extra_storage_in_bytes_per_token,
            final(self).guest_sales == old(self).guest_sales,
            final(self).token_ids == old(self).token_ids,
            match r {
                Err(e) => final(self).tokens_per_owner@ == old(self).tokens_per_owner@ && final(self).guests@ == old(self).guests@ && ((predecessor_id@ != old(self).owner_id@ && e
                    == Error::MustBeContractOwner) || (predecessor_id@ == old(self).owner_id@ && old(self).tokens_per_owner@.contains_key(account_id@) && e == Error::AccountAlreadyRegistered)
                    || (predecessor_id@ == old(self).owner_id@ && !old(self).tokens_per_owner@.contains_key(account_id@) && old(self).guests@.contains_key(
                    public_key@,
                ) && e == Error::GuestAlreadyAdded)),
                Ok(()) => predecessor_id@ == old(self).owner_id@ && !old(self).tokens_per_owner@.contains_key(account_id@) && !old(self).guests@.contains_key(
                    public_key@,
                ) && final(self).tokens_per_owner@ == old(self).tokens_per_owner@.insert(
                    account_id@,
                    Set::<Seq<char>>::empty(),
                ) && final(self).guests@ == old(self).guests@.insert(
                    public_key@,
                    GuestView { account_id: account_id@, mints: 0, balance: 0 },
                ),
            },
    {
        if !predecessor_id.eq(&self.owner_id) {
            return Err(Error::MustBeContractOwner);
        }
        match self.tokens_per_owner.get(account_id) {
            Some(_) => {
                return Err(Error::AccountAlreadyRegistered);
            },
            None => {},
        };
        match self.guests.get(public_key) {
            Some(_) => {
                return Err(Error::GuestAlreadyAdded);
            },
            None => {},
        };
        let tokens_set = StrSet::new();
        self.tokens_per_owner.insert(account_id, tokens_set);
        self.guests.insert(
            public_key,
            Guest { account_id: account_id.clone(), mints: 0, balance: 0 },
        );
        Ok(())
    }

    /// Unregister a guest: only the registry owner may; the guest record
    /// and the account's token set are dropped.
    pub fn remove_guest(&mut self, predecessor_id: &String, public_key: &String) -> (r: Result<
        (),
        Error,
    >)
        ensures
            final(self).tokens_by_id == old(self).tokens_by_id,
            final(self).owner_id == old(self).owner_id,
            final(self).total_supply == old(self).total_supply,
            final(self).extra_storage_in_bytes_per_token == old(self).extra_storage_in_bytes_per_token,
            final(self).guest_sales == old(self).guest_sales,
            final(self).token_ids == old(self).token_ids,
            match r {
                Err(e) => final(self).tokens_per_owner@ == old(self).tokens_per_owner@ && final(self).guests@ == old(self).guests@ && ((predecessor_id@ != old(self).owner_id@ && e
                    == Error::MustBeContractOwner) || (predecessor_id@ == old(self).owner_id@
                    && !old(self).guests@.contains_key(public_key@) && e == Error::NotAGuest)),
                Ok(()) => predecessor_id@ == old(self).owner_id@ && old(self).guests@.contains_key(
                    public_key@,
                ) && final(self).tokens_per_owner@ == old(self).tokens_per_owner@.remove(
                    old(self).guests@[public_key@].account_id,
                ) && final(self).guests@ == old(self).guests@.remove(public_key@),
            },
    {
        if !predecessor_id.eq(&self.owner_id) {
            return Err(Error::MustBeContractOwner);
        }
        let account_id = match self.guests.get(public_key) {
            None => {
                return Err(Error::NotAGuest);
            },
            Some(g) => g.account_id.clone(),
        };
        self.tokens_per_owner.remove(&account_id);
        self.guests.remove(public_key);
        Ok(())
    }

    /// Guest record of a signing key, if any.
    pub fn get_guest(&self, public_key: &String) -> (r: Option<&Guest>)
        ensures
            match r {
                Some(g) => self.guests@.contains_key(public_key@) && g@
                    == self.guests@[public_key@],
                None => !self.guests@.contains_key(public_key@),
            },
    {
        self.guests.get(public_key)
    }

    /// Token ids held by an account, each exactly once, if the account is
    /// registered.
    pub fn get_account(&self, account_id: &String) -> (r: Option<Vec<String>>)
        ensures
            match r {
                Some(v) => self.tokens_per_owner@.contains_key(account_id@) && str_views(
                    v@,
                ).to_set() == self.tokens_per_owner@[account_id@] && str_views(v@).no_duplicates(),
                None => !self.tokens_per_owner@.contains_key(account_id@),
            },
    {
        match self.tokens_per_owner.get(account_id) {
            None => None,
            Some(s) => Some(s.to_vec()),
        }
    }

    /// Every minted token id, in mint order.
    pub fn get_token_ids(&self) -> (r: Vec<String>)
        ensures
            r@ == self.token_ids@,
    {
        let n = self.token_ids.len();
        let mut r: Vec<String> = Vec::new();
        let mut i: usize = 0;
        while i < n
            invariant
                i <= n,
                n == self.token_ids@.len(),
                r@ =~= self.token_ids@.subrange(0, i as int),
            decreases n - i,
        {
            let x = self.token_ids[i].clone();
            let ghost prev = r@;
            r.push(x);
            proof {
                assert(r@ =~= self.token_ids@.subrange(0, i as int + 1));
            }
            i += 1;
        }
        proof {
            assert(r@ =~= self.token_ids@);
        }
        r
    }

    /// Sponsorship callback: consumes the one remote outcome of an
    /// upgrade. The guest record is deleted only if the whole remote
    /// sequence succeeded; otherwise it survives unchanged, available for
    /// retry. Reports the outcome.
    pub fn on_account_created(&mut self, public_key: &String, outcome: RemoteOutcome) -> (r: bool)
        ensures
            final(self).tokens_per_owner == old(self).tokens_per_owner,
            final(self).tokens_by_id == old(self).tokens_by_id,
            final(self).owner_id == old(self).owner_id,
            final(self).total_supply == old(self).total_supply,
            final(self).extra_storage_in_bytes_per_token == old(self).extra_storage_in_bytes_per_token,
            final(self).guest_sales == old(self).guest_sales,
            final(self).token_ids == old(self).token_ids,
            r == (outcome is Success),
            outcome is Success ==> final(self).guests@ == old(self).guests@.remove(public_key@),
            !(outcome is Success) ==> final(self).guests@ == old(self).guests@,
    {
        let success = is_promise_success(&outcome);
        if success {
            self.guests.remove(public_key);
        }
        success
    }

    /// Listing-sync callback: reconciles local approval state from the one
    /// remote market-call outcome, as [`spec_market_updated`] states —
    /// commit on confirmed addition, always clear on removal.
    pub fn on_market_updated(
        &mut self,
        token_id: &String,
        market_contract: &String,
        sale: Option<GuestSale>,
        outcome: RemoteOutcome,
    ) -> (r: Result<bool, Error>)
        ensures
            final(self).tokens_per_owner == old(self).tokens_per_owner,
            final(self).owner_id == old(self).owner_id,
            final(self).total_supply == old(self).total_supply,
            final(self).extra_storage_in_bytes_per_token == old(self).extra_storage_in_bytes_per_token,
            final(self).guests == old(self).guests,
            final(self).token_ids == old(self).token_ids,
            match spec_market_updated(
                old(self).tokens_by_id@,
                old(self).guest_sales@,
                token_id@,
                market_contract@,
                match sale {
                    Some(s) => Some(s@),
                    None => None,
                },
                outcome is Success,
            ) {
                Ok((tk, gs, b)) => r == Result::<bool, Error>::Ok(b) && final(self).tokens_by_id@
                    == tk && final(self).guest_sales@ == gs,
                Err(e) => r == Result::<bool, Error>::Err(e) && final(self).tokens_by_id@ == old(self).tokens_by_id@ && final(self).guest_sales@ == old(self).guest_sales@,
            },
    {
        let success = is_promise_success(&outcome);
        match sale {
            Some(s) => {
                if !success {
                    return Ok(false);
                }
                let mut token = match self.tokens_by_id.get(token_id) {
                    None => {
                        return Err(Error::TokenNotFound);
                    },
                    Some(t) => Token {
                        owner_id: t.owner_id.clone(),
                        metadata: t.metadata.clone(),
                        approved_account_ids: t.approved_account_ids.clone(),
                    },
                };
                token.approved_account_ids.insert(market_contract);
                self.tokens_by_id.insert(token_id, token);
                self.guest_sales.insert(token_id, s);
                Ok(true)
            },
            None => {
                let mut token = match self.tokens_by_id.get(token_id) {
                    None => {
                        return Err(Error::TokenNotFound);
                    },
                    Some(t) => Token {
                        owner_id: t.owner_id.clone(),
                        metadata: t.metadata.clone(),
                        approved_account_ids: t.approved_account_ids.clone(),
                    },
                };
                token.approved_account_ids.remove(market_contract);
                self.tokens_by_id.insert(token_id, token);
                self.guest_sales.remove(token_id);
                Ok(success)
            },
        }
    }
}

/// A pending addition whose remote call failed changes nothing locally:
/// the approved-party set and the shadow record are exactly what they
/// were, and the callback reports failure.
pub proof fn lemma_sync_failure_keeps_local(
    tokens: Map<Seq<char>, TokenView>,
    guest_sales: Map<Seq<char>, GuestSaleView>,
    token_id: Seq<char>,
    market_contract: Seq<char>,
    sale: GuestSaleView,
)
    ensures
        spec_market_updated(tokens, guest_sales, token_id, market_contract, Some(sale), false)
            == Result::<(Map<Seq<char>, TokenView>, Map<Seq<char>, GuestSaleView>, bool), Error>::Ok(
            (tokens, guest_sales, false),
        ),
{
}

/// A pending addition whose remote call succeeded is committed locally:
/// the market is in the token's approved-party set and the shadow record
/// holds the pending terms.
pub proof fn lemma_sync_success_commits(
    tokens: Map<Seq<char>, TokenView>,
    guest_sales: Map<Seq<char>, GuestSaleView>,
    token_id: Seq<char>,
    market_contract: Seq<char>,
    sale: GuestSaleView,
)
    requires
        tokens.contains_key(token_id),
    ensures
        spec_market_updated(tokens, guest_sales, token_id, market_contract, Some(sale), true)
            matches Ok(o) && o.0[token_id].approved_account_ids.contains(market_contract)
            && o.1[token_id] == sale && o.2 == true,
{
}

/// Removal clears locally whatever the remote outcome was: after the
/// callback the market is not in the approved-party set and the shadow
/// record is gone, for success and failure alike — and both outcomes
/// leave the very same local state.
pub proof fn lemma_sync_removal_always_clears(
    tokens: Map<Seq<char>, TokenView>,
    guest_sales: Map<Seq<char>, GuestSaleView>,
    token_id: Seq<char>,
    market_contract: Seq<char>,
    success: bool,
)
    requires
        tokens.contains_key(token_id),
    ensures
        spec_market_updated(tokens, guest_sales, token_id, market_contract, None, success)
            matches Ok(o) && !o.0[token_id].approved_account_ids.contains(market_contract)
            && !o.1.contains_key(token_id) && o.2 == success,
        spec_market_updated(tokens, guest_sales, token_id, market_contract, None, true) matches Ok(
            a,
        ) ==> spec_market_updated(tokens, guest_sales, token_id, market_contract, None, false)
            matches Ok(b) && a.0 == b.0 && a.1 == b.1,
{
}

} // verus!
