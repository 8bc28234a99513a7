//! Escrow settlement engine: the sale ledger, the purchase saga and its
//! resolve callback.
//!
//! An operation takes the host context it needs (caller, attached deposit,
//! prepaid gas) as plain values and returns either an error — in which case
//! the ledger is untouched — or the intents the host must execute. The
//! purchase saga persists its `processing` lock *before* the remote-transfer
//! intent is handed back, so a second purchase of the same listing observes
//! the lock and fails fast; the resolve callback consumes the one remote
//! outcome and either settles (record removed, beneficiary paid price plus
//! bond) or compensates (record kept unlocked, buyer refunded exactly the
//! price, bond retained).

use vstd::prelude::*;
use vstd::string::StringExecFns;

use crate::error::Error;
use crate::remote::{RemoteOutcome, Transfer, TransferView};
use crate::store::StrMap;

verus! {

/// Gas reserved for the resolve callback of a purchase.
pub const GAS_FOR_RESOLVE_TRANSFER: u64 = 10_000_000_000_000;

/// Gas handed to the remote asset-transfer call, callback included.
pub const GAS_FOR_NFT_TRANSFER_CALL: u64 = 25_000_000_000_000 + GAS_FOR_RESOLVE_TRANSFER;

/// Deposit attached to a call that carries none.
pub const NO_DEPOSIT: u128 = 0;

/// Smallest bond accepted when listing a sale.
pub const MIN_ATTACHED_DEPOSIT: u128 = 100_000_000_000_000_000_000_000;

/// Abstract value of a [`Sale`] record.
pub struct SaleView {
    /// Party whose consent authorized the listing.
    pub owner_id: Seq<char>,
    /// Funds recipient on settlement.
    pub beneficiary: Seq<char>,
    /// Sale price in base units.
    pub price: u128,
    /// Refundable listing bond.
    pub deposit: u128,
    /// Whether a settlement remote call is in flight.
    pub processing: bool,
}

/// One listing: terms, parties, and the single-flight lock.
#[derive(Debug)]
pub struct Sale {
    /// Party whose consent authorized the listing.
    pub owner_id: String,
    /// Funds recipient on settlement; differs from `owner_id` for
    /// sponsored listings.
    pub beneficiary: String,
    /// Sale price in base units.
    pub price: u128,
    /// Refundable listing bond, distinct from the price.
    pub deposit: u128,
    /// True exactly while a settlement remote call is in flight.
    pub processing: bool,
}

impl View for Sale {
    type V = SaleView;

    open spec fn view(&self) -> SaleView {
        SaleView {
            owner_id: self.owner_id@,
            beneficiary: self.beneficiary@,
            price: self.price,
            deposit: self.deposit,
            processing: self.processing,
        }
    }
}

/// Composite ledger key of one listing: asset contract and asset id.
pub open spec fn sale_key(token_contract_id: Seq<char>, token_id: Seq<char>) -> Seq<char> {
    token_contract_id + seq![':'] + token_id
}

/// The ledger a market holds: listing key to sale record.
pub type SalesView = Map<Seq<char>, SaleView>;

/// Character-sequence view of an optional string.
pub open spec fn opt_view(o: Option<&String>) -> Option<Seq<char>> {
    match o {
        Some(b) => Some(b@),
        None => None,
    }
}

/// Listing: rejects a bond below the minimum, else records the sale
/// unlocked, overwriting any record at the key.
pub open spec fn spec_list(
    sales: SalesView,
    deposit: u128,
    token_contract_id: Seq<char>,
    token_id: Seq<char>,
    price: u128,
    owner_id: Seq<char>,
    beneficiary: Option<Seq<char>>,
) -> Result<SalesView, Error> {
    if deposit < MIN_ATTACHED_DEPOSIT {
        Err(Error::InsufficientDeposit)
    } else {
        Ok(
            sales.insert(
                sale_key(token_contract_id, token_id),
                SaleView {
                    owner_id: owner_id,
                    beneficiary: match beneficiary {
                        Some(b) => b,
                        None => owner_id,
                    },
                    price: price,
                    deposit: deposit,
                    processing: false,
                },
            ),
        )
    }
}

/// Purchase: rejects a missing listing, a listing already in flight, or a
/// payment differing from the price; else locks the listing.
pub open spec fn spec_purchase(
    sales: SalesView,
    buyer_id: Seq<char>,
    attached_deposit: u128,
    token_contract_id: Seq<char>,
    token_id: Seq<char>,
) -> Result<SalesView, Error> {
    let k = sale_key(token_contract_id, token_id);
    if !sales.contains_key(k) {
        Err(Error::NoSale)
    } else if sales[k].processing {
        Err(Error::SaleInProgress)
    } else if attached_deposit != sales[k].price {
        Err(Error::WrongPaymentAmount)
    } else {
        Ok(
            sales.insert(
                k,
                SaleView {
                    owner_id: sales[k].owner_id,
                    beneficiary: sales[k].beneficiary,
                    price: sales[k].price,
                    deposit: sales[k].deposit,
                    processing: true,
                },
            ),
        )
    }
}

/// Resolve: consumes the remote outcome. Success removes the record and
/// pays the beneficiary price plus bond in one payment; failure keeps the
/// record — unlocked, terms unchanged — and refunds the buyer exactly the
/// price. A missing record is an invariant violation: no funds move.
pub open spec fn spec_resolve(
    sales: SalesView,
    token_contract_id: Seq<char>,
    token_id: Seq<char>,
    buyer_id: Seq<char>,
    success: bool,
) -> Result<(SalesView, bool, TransferView), Error> {
    let k = sale_key(token_contract_id, token_id);
    if !sales.contains_key(k) {
        Err(Error::InvariantViolation)
    } else if success {
        Ok(
            (
                sales.remove(k),
                true,
                TransferView {
                    account_id: sales[k].beneficiary,
                    amount: (sales[k].price + sales[k].deposit) as u128,
                },
            ),
        )
    } else {
        Ok(
            (
                sales.insert(
                    k,
                    SaleView {
                        owner_id: sales[k].owner_id,
                        beneficiary: sales[k].beneficiary,
                        price: sales[k].price,
                        deposit: sales[k].deposit,
                        processing: false,
                    },
                ),
                false,
                TransferView { account_id: buyer_id, amount: sales[k].price },
            ),
        )
    }
}

/// Cancellation: only the sale owner may remove a listing; the bond is
/// refunded to the owner.
pub open spec fn spec_cancel(
    sales: SalesView,
    caller_id: Seq<char>,
    token_contract_id: Seq<char>,
    token_id: Seq<char>,
) -> Result<(SalesView, TransferView), Error> {
    let k = sale_key(token_contract_id, token_id);
    if !sales.contains_key(k) {
        Err(Error::NoSale)
    } else if caller_id != sales[k].owner_id {
        Err(Error::MustBeSaleOwner)
    } else {
        Ok(
            (
                sales.remove(k),
                TransferView { account_id: sales[k].owner_id, amount: sales[k].deposit },
            ),
        )
    }
}

/// Price update: only the sale owner; every other field — the lock
/// included — is kept.
pub open spec fn spec_update_price(
    sales: SalesView,
    caller_id: Seq<char>,
    token_contract_id: Seq<char>,
    token_id: Seq<char>,
    price: u128,
) -> Result<SalesView, Error> {
    let k = sale_key(token_contract_id, token_id);
    if !sales.contains_key(k) {
        Err(Error::NoSale)
    } else if caller_id != sales[k].owner_id {
        Err(Error::MustBeSaleOwner)
    } else {
        Ok(
            sales.insert(
                k,
                SaleView {
                    owner_id: sales[k].owner_id,
                    beneficiary: sales[k].beneficiary,
                    price: price,
                    deposit: sales[k].deposit,
                    processing: sales[k].processing,
                },
            ),
        )
    }
}

/// Abstract value of an [`OnApprovalMsg`].
pub struct OnApprovalMsgView {
    /// Funds recipient the approving owner designates.
    pub beneficiary: Seq<char>,
    /// Asking price in base units.
    pub price: u128,
}

/// Sale terms an asset contract forwards when an owner approves this
/// market; the host decodes the wire message into this record.
#[derive(Debug)]
pub struct OnApprovalMsg {
    /// Funds recipient the approving owner designates.
    pub beneficiary: String,
    /// Asking price in base units.
    pub price: u128,
}

impl View for OnApprovalMsg {
    type V = OnApprovalMsgView;

    open spec fn view(&self) -> OnApprovalMsgView {
        OnApprovalMsgView { beneficiary: self.beneficiary@, price: self.price }
    }
}

/// Approval callback: only the named asset contract may call; with sale
/// terms attached it lists the sale on the owner's behalf, without terms it
/// does nothing and reports so.
pub open spec fn spec_on_approve(
    sales: SalesView,
    predecessor_id: Seq<char>,
    attached_deposit: u128,
    token_contract_id: Seq<char>,
    token_id: Seq<char>,
    owner_id: Seq<char>,
    msg: Option<OnApprovalMsgView>,
) -> Result<(SalesView, bool), Error> {
    if predecessor_id != token_contract_id {
        Err(Error::MustBeTokenContract)
    } else {
        match msg {
            None => Ok((sales, false)),
            Some(m) => match spec_list(
                sales,
                attached_deposit,
                token_contract_id,
                token_id,
                m.price,
                owner_id,
                Some(m.beneficiary),
            ) {
                Ok(m2) => Ok((m2, true)),
                Err(e) => Err(e),
            },
        }
    }
}

/// Revocation callback: only the named asset contract may call; it then
/// cancels the listing under the asset contract's own identity.
pub open spec fn spec_on_revoke(
    sales: SalesView,
    predecessor_id: Seq<char>,
    token_contract_id: Seq<char>,
    token_id: Seq<char>,
) -> Result<(SalesView, TransferView), Error> {
    if predecessor_id != token_contract_id {
        Err(Error::MustBeTokenContract)
    } else {
        spec_cancel(sales, predecessor_id, token_contract_id, token_id)
    }
}

/// The remote asset-transfer call a purchase schedules.
#[derive(Debug)]
pub struct NftTransferCall {
    /// Asset contract the call goes to.
    pub nft_contract_id: String,
    /// Buyer receiving the asset.
    pub receiver_id: String,
    /// Asset being transferred.
    pub token_id: String,
    /// The transfer must fail unless this party still owns the asset.
    pub enforce_owner_id: String,
    /// Free-form transfer memo.
    pub memo: String,
    /// Deposit attached to the call.
    pub attached_deposit: u128,
    /// Gas budget of the call.
    pub gas: u64,
}

/// The resolve callback a purchase registers: only the correlating key and
/// the buyer cross the boundary; everything else is re-read from the ledger.
#[derive(Debug)]
pub struct ResolvePurchaseCallback {
    /// Asset contract part of the listing key.
    pub token_contract_id: String,
    /// Asset id part of the listing key.
    pub token_id: String,
    /// Buyer to refund if the transfer fails.
    pub buyer_id: String,
    /// Deposit attached to the callback.
    pub attached_deposit: u128,
    /// Gas budget of the callback.
    pub gas: u64,
}

/// What the host must schedule after a successful purchase: exactly one
/// remote transfer chained into exactly one resolve callback.
#[derive(Debug)]
pub struct PurchaseIntent {
    /// The remote asset-transfer call.
    pub transfer: NftTransferCall,
    /// The chained resolve callback.
    pub callback: ResolvePurchaseCallback,
}

/// The marketplace contract: sale ledger plus administrative owner.
#[derive(Debug)]
pub struct Contract {
    /// Administrative owner of the deployed market.
    pub owner_id: String,
    /// The sale ledger; exclusively owned and mutated by this engine.
    pub sales: StrMap<Sale>,
}

impl Contract {
    /// Every recorded sale can be settled in one payment: price plus bond
    /// fits the payment width.
    pub open spec fn wf(self) -> bool {
        forall|k: Seq<char>| #[trigger]
            self.sales@.contains_key(k) ==> self.sales@[k].price + self.sales@[k].deposit
                <= u128::MAX
    }

    /// Fresh market with an empty ledger.
    pub fn new(owner_id: String) -> (r: Contract)
        ensures
            r.owner_id == owner_id,
            r.sales@ == Map::<Seq<char>, SaleView>::empty(),
            r.wf(),
    {
        Contract { owner_id, sales: StrMap::new() }
    }

    /// List a sale. Rejects a bond below [`MIN_ATTACHED_DEPOSIT`];
    /// otherwise writes the record unlocked, overwriting any prior record
    /// at the key — deliberately without checking an in-flight lock.
    pub fn add_sale(
        &mut self,
        attached_deposit: u128,
        token_contract_id: &String,
        token_id: &String,
        price: u128,
        owner_id: &String,
        beneficiary: Option<&String>,
    ) -> (r: Result<(), Error>)
        requires
            old(self).wf(),
            price + attached_deposit <= u128::MAX,
        ensures
            final(self).wf(),
            final(self).owner_id == old(self).owner_id,
            match spec_list(
                old(self).sales@,
                attached_deposit,
                token_contract_id@,
                token_id@,
                price,
                owner_id@,
                opt_view(beneficiary),
            ) {
                Ok(m) => r is Ok && final(self).sales@ == m,
                Err(e) => r == Result::<(), Error>::Err(e) && final(self).sales@ == old(self).sales@,
            },
    {
        if attached_deposit < MIN_ATTACHED_DEPOSIT {
            return Err(Error::InsufficientDeposit);
        }
        let sale_beneficiary = match beneficiary {
            Some(b) => b.clone(),
            None => owner_id.clone(),
        };
        let key = listing_key(token_contract_id, token_id);
        let sale = Sale {
            owner_id: owner_id.clone(),
            beneficiary: sale_beneficiary,
            price,
            deposit: attached_deposit,
            processing: false,
        };
        self.sales.insert(&key, sale);
        Ok(())
    }

    /// Change the price of a listing; only the sale owner may. Every other
    /// field, the lock included, is kept.
    pub fn update_price(
        &mut self,
        predecessor_id: &String,
        token_contract_id: &String,
        token_id: &String,
        price: u128,
    ) -> (r: Result<(), Error>)
        requires
            old(self).wf(),
            old(self).sales@.contains_key(sale_key(token_contract_id@, token_id@)) ==> price
                + old(self).sales@[sale_key(token_contract_id@, token_id@)].deposit <= u128::MAX,
        ensures
            final(self).wf(),
            final(self).owner_id == old(self).owner_id,
            match spec_update_price(
                old(self).sales@,
                predecessor_id@,
                token_contract_id@,
                token_id@,
                price,
            ) {
                Ok(m) => r is Ok && final(self).sales@ == m,
                Err(e) => r == Result::<(), Error>::Err(e) && final(self).sales@ == old(self).sales@,
            },
    {
        let key = listing_key(token_contract_id, token_id);
        let (owner_ok, updated) = match self.sales.get(&key) {
            None => {
                return Err(Error::NoSale);
            },
            Some(sale) => {
                (
                    predecessor_id.eq(&sale.owner_id),
                    Sale {
                        owner_id: sale.owner_id.clone(),
                        beneficiary: sale.beneficiary.clone(),
                        price,
                        deposit: sale.deposit,
                        processing: sale.processing,
                    },
                )
            },
        };
        if !owner_ok {
            return Err(Error::MustBeSaleOwner);
        }
        self.sales.insert(&key, updated);
        Ok(())
    }

    /// Cancel a listing; only the sale owner may. The record is removed and
    /// the bond refunded to the owner.
    pub fn remove_sale(
        &mut self,
        predecessor_id: &String,
        token_contract_id: &String,
        token_id: &String,
    ) -> (r: Result<Transfer, Error>)
        requires
            old(self).wf(),
        ensures
            final(self).wf(),
            final(self).owner_id == old(self).owner_id,
            match spec_cancel(
                old(self).sales@,
                predecessor_id@,
                token_contract_id@,
                token_id@,
            ) {
                Ok((m, tv)) => final(self).sales@ == m && (r matches Ok(p) && p@ == tv),
                Err(e) => (r matches Err(e2) && e2 == e) && final(self).sales@ == old(self).sales@,
            },
    {
        let key = listing_key(token_contract_id, token_id);
        let owner_ok = match self.sales.get(&key) {
            None => {
                return Err(Error::NoSale);
            },
            Some(sale) => predecessor_id.eq(&sale.owner_id),
        };
        if !owner_ok {
            return Err(Error::MustBeSaleOwner);
        }
        match self.sales.remove(&key) {
            Some(sale) => Ok(Transfer { account_id: sale.owner_id, amount: sale.deposit }),
            None => {
                proof {
                    assert(false);
                }
                Err(Error::NoSale)
            },
        }
    }

    /// Purchase a listing. Validates, persists the single-flight lock, and
    /// only then hands back the remote transfer-asset intent with its
    /// chained resolve callback; the callback carries only the listing key
    /// and the buyer.
    pub fn purchase(
        &mut self,
        predecessor_id: &String,
        attached_deposit: u128,
        prepaid_gas: u64,
        token_contract_id: &String,
        token_id: &String,
    ) -> (r: Result<PurchaseIntent, Error>)
        requires
            old(self).wf(),
            prepaid_gas >= GAS_FOR_NFT_TRANSFER_CALL,
        ensures
            final(self).wf(),
            final(self).owner_id == old(self).owner_id,
            match spec_purchase(
                old(self).sales@,
                predecessor_id@,
                attached_deposit,
                token_contract_id@,
                token_id@,
            ) {
                Ok(m) => final(self).sales@ == m && (r matches Ok(p)
                    && p.transfer.nft_contract_id@ == token_contract_id@
                    && p.transfer.receiver_id@ == predecessor_id@ && p.transfer.token_id@
                    == token_id@ && p.transfer.enforce_owner_id@ == old(self).sales@[sale_key(
                    token_contract_id@,
                    token_id@,
                )].owner_id && p.transfer.attached_deposit == 1 && p.transfer.gas == prepaid_gas
                    - GAS_FOR_NFT_TRANSFER_CALL && p.callback.token_contract_id@
                    == token_contract_id@ && p.callback.token_id@ == token_id@
                    && p.callback.buyer_id@ == predecessor_id@ && p.callback.attached_deposit
                    == NO_DEPOSIT && p.callback.gas == GAS_FOR_RESOLVE_TRANSFER),
                Err(e) => (r matches Err(e2) && e2 == e) && final(self).sales@ == old(self).sales@,
            },
    {
        let key = listing_key(token_contract_id, token_id);
        let locked = match self.sales.get(&key) {
            None => {
                return Err(Error::NoSale);
            },
            Some(sale) => {
                if sale.processing {
                    return Err(Error::SaleInProgress);
                }
                if attached_deposit != sale.price {
                    return Err(Error::WrongPaymentAmount);
                }
                Sale {
                    owner_id: sale.owner_id.clone(),
                    beneficiary: sale.beneficiary.clone(),
                    price: sale.price,
                    deposit: sale.deposit,
                    processing: true,
                }
            },
        };
        let enforce_owner_id = locked.owner_id.clone();
        self.sales.insert(&key, locked);
        Ok(
            PurchaseIntent {
                transfer: NftTransferCall {
                    nft_contract_id: token_contract_id.clone(),
                    receiver_id: predecessor_id.clone(),
                    token_id: token_id.clone(),
                    enforce_owner_id,
                    memo: String::from_str("Sold by Matt Market"),
                    attached_deposit: 1,
                    gas: prepaid_gas - GAS_FOR_NFT_TRANSFER_CALL,
                },
                callback: ResolvePurchaseCallback {
                    token_contract_id: token_contract_id.clone(),
                    token_id: token_id.clone(),
                    buyer_id: predecessor_id.clone(),
                    attached_deposit: NO_DEPOSIT,
                    gas: GAS_FOR_RESOLVE_TRANSFER,
                },
            },
        )
    }

    /// Resolve a purchase: the self-callback consuming the one remote
    /// outcome. Success settles — record removed, beneficiary paid price
    /// plus bond in one payment. Failure compensates — record kept with
    /// unchanged terms and the lock cleared, buyer refunded exactly the
    /// price; the bond stays with the surviving listing.
    pub fn nft_resolve_purchase(
        &mut self,
        token_contract_id: &String,
        token_id: &String,
        buyer_id: &String,
        outcome: RemoteOutcome,
    ) -> (r: Result<(bool, Transfer), Error>)
        requires
            old(self).wf(),
        ensures
            final(self).wf(),
            final(self).owner_id == old(self).owner_id,
            match spec_resolve(
                old(self).sales@,
                token_contract_id@,
                token_id@,
                buyer_id@,
                outcome is Success,
            ) {
                Ok((m, settled, tv)) => final(self).sales@ == m && (r matches Ok(p) && p.0
                    == settled && p.1@ == tv),
                Err(e) => (r matches Err(e2) && e2 == e) && final(self).sales@ == old(self).sales@,
            },
    {
        let key = listing_key(token_contract_id, token_id);
        if outcome.is_success() {
            match self.sales.remove(&key) {
                None => {
                    proof {
                        assert(old(self).sales@.remove(key@) =~= old(self).sales@);
                    }
                    Err(Error::InvariantViolation)
                },
                Some(sale) => {
                    let amount = sale.price + sale.deposit;
                    Ok((true, Transfer { account_id: sale.beneficiary, amount }))
                },
            }
        } else {
            let unlocked = match self.sales.get(&key) {
                None => {
                    return Err(Error::InvariantViolation);
                },
                Some(sale) => {
                    Sale {
                        owner_id: sale.owner_id.clone(),
                        beneficiary: sale.beneficiary.clone(),
                        price: sale.price,
                        deposit: sale.deposit,
                        processing: false,
                    }
                },
            };
            let amount = unlocked.price;
            self.sales.insert(&key, unlocked);
            Ok((false, Transfer { account_id: buyer_id.clone(), amount }))
        }
    }

    /// Approval callback from an asset contract: with decoded sale terms
    /// attached it lists the sale for the approving owner and reports
    /// `true`; without terms it changes nothing and reports `false`.
    pub fn nft_on_approve_account_id(
        &mut self,
        predecessor_id: &String,
        attached_deposit: u128,
        token_contract_id: &String,
        token_id: &String,
        owner_id: &String,
        msg: Option<OnApprovalMsg>,
    ) -> (r: Result<bool, Error>)
        requires
            old(self).wf(),
            msg matches Some(m) ==> m.price + attached_deposit <= u128::MAX,
        ensures
            final(self).wf(),
            final(self).owner_id == old(self).owner_id,
            match spec_on_approve(
                old(self).sales@,
                predecessor_id@,
                attached_deposit,
                token_contract_id@,
                token_id@,
                owner_id@,
                match msg {
                    Some(m) => Some(m@),
                    None => None,
                },
            ) {
                Ok((m2, listed)) => final(self).sales@ == m2 && r == Result::<bool, Error>::Ok(
                    listed,
                ),
                Err(e) => r == Result::<bool, Error>::Err(e) && final(self).sales@ == old(self).sales@,
            },
    {
        if !predecessor_id.eq(token_contract_id) {
            return Err(Error::MustBeTokenContract);
        }
        match msg {
            None => Ok(false),
            Some(m) => {
                match self.add_sale(
                    attached_deposit,
                    token_contract_id,
                    token_id,
                    m.price,
                    owner_id,
                    Some(&m.beneficiary),
                ) {
                    Ok(()) => Ok(true),
                    Err(e) => Err(e),
                }
            },
        }
    }

    /// Revocation callback from an asset contract: cancels the listing
    /// under the asset contract's own identity, refunding the bond to the
    /// recorded owner.
    pub fn nft_on_revoke_account_id(
        &mut self,
        predecessor_id: &String,
        token_contract_id: &String,
        token_id: &String,
        _owner_id: &String,
        _msg: Option<String>,
    ) -> (r: Result<(bool, Transfer), Error>)
        requires
            old(self).wf(),
        ensures
            final(self).wf(),
            final(self).owner_id == old(self).owner_id,
            match spec_on_revoke(
                old(self).sales@,
                predecessor_id@,
                token_contract_id@,
                token_id@,
            ) {
                Ok((m2, tv)) => final(self).sales@ == m2 && (r matches Ok(p) && p.0 == true && p.1@
                    == tv),
                Err(e) => (r matches Err(e2) && e2 == e) && final(self).sales@ == old(self).sales@,
            },
    {
        if !predecessor_id.eq(token_contract_id) {
            return Err(Error::MustBeTokenContract);
        }
        match self.remove_sale(predecessor_id, token_contract_id, token_id) {
            Ok(t) => Ok((true, t)),
            Err(e) => Err(e),
        }
    }

    /// Sale recorded under the listing key, if any.
    pub fn get_sale(&self, token_contract_id: &String, token_id: &String) -> (r: Option<&Sale>)
        ensures
            match r {
                Some(s) => self.sales@.contains_key(sale_key(token_contract_id@, token_id@)) && s@
                    == self.sales@[sale_key(token_contract_id@, token_id@)],
                None => !self.sales@.contains_key(sale_key(token_contract_id@, token_id@)),
            },
    {
        let key = listing_key(token_contract_id, token_id);
        self.sales.get(&key)
    }
}

/// A listing is never locked by listing or resolving: immediately after a
/// successful listing its record is unlocked; after a successful resolve
/// the record is gone (success) or unlocked (failure); and a successful
/// purchase is what locks it.
pub proof fn lemma_processing_lifecycle(
    sales: SalesView,
    deposit: u128,
    token_contract_id: Seq<char>,
    token_id: Seq<char>,
    price: u128,
    owner_id: Seq<char>,
    beneficiary: Option<Seq<char>>,
    buyer_id: Seq<char>,
    attached_deposit: u128,
)
    ensures
        (spec_list(sales, deposit, token_contract_id, token_id, price, owner_id, beneficiary)
            matches Ok(m) ==> m[sale_key(token_contract_id, token_id)].processing == false),
        (spec_purchase(sales, buyer_id, attached_deposit, token_contract_id, token_id) matches Ok(
            m,
        ) ==> m[sale_key(token_contract_id, token_id)].processing == true),
        (spec_resolve(sales, token_contract_id, token_id, buyer_id, true) matches Ok(o)
            ==> !o.0.contains_key(sale_key(token_contract_id, token_id))),
        (spec_resolve(sales, token_contract_id, token_id, buyer_id, false) matches Ok(o)
            ==> o.0[sale_key(token_contract_id, token_id)].processing == false),
{
}

/// Purchase is the only operation that locks a listing: after any other
/// operation, every listing that is locked was already locked before it.
pub proof fn lemma_lock_only_by_purchase(
    sales: SalesView,
    deposit: u128,
    token_contract_id: Seq<char>,
    token_id: Seq<char>,
    price: u128,
    owner_id: Seq<char>,
    beneficiary: Option<Seq<char>>,
    caller_id: Seq<char>,
    buyer_id: Seq<char>,
    success: bool,
)
    ensures
        (spec_list(sales, deposit, token_contract_id, token_id, price, owner_id, beneficiary)
            matches Ok(m) ==> forall|k: Seq<char>|
            #[trigger] m.contains_key(k) && m[k].processing ==> sales.contains_key(k)
                && sales[k].processing),
        (spec_cancel(sales, caller_id, token_contract_id, token_id) matches Ok(o) ==> forall|
            k: Seq<char>,
        |
            #[trigger] o.0.contains_key(k) && o.0[k].processing ==> sales.contains_key(k)
                && sales[k].processing),
        (spec_update_price(sales, caller_id, token_contract_id, token_id, price) matches Ok(m)
            ==> forall|k: Seq<char>|
            #[trigger] m.contains_key(k) && m[k].processing ==> sales.contains_key(k)
                && sales[k].processing),
        (spec_resolve(sales, token_contract_id, token_id, buyer_id, success) matches Ok(o)
            ==> forall|k: Seq<char>|
            #[trigger] o.0.contains_key(k) && o.0[k].processing ==> sales.contains_key(k)
                && sales[k].processing),
{
}

/// A purchase of a locked listing always fails as a conflict, and a
/// payment differing from the price — over or under — always fails as
/// invalid; the engine's contract then leaves the ledger unchanged.
pub proof fn lemma_purchase_guards(
    sales: SalesView,
    buyer_id: Seq<char>,
    attached_deposit: u128,
    token_contract_id: Seq<char>,
    token_id: Seq<char>,
)
    ensures
        sales.contains_key(sale_key(token_contract_id, token_id)) && sales[sale_key(
            token_contract_id,
            token_id,
        )].processing ==> spec_purchase(
            sales,
            buyer_id,
            attached_deposit,
            token_contract_id,
            token_id,
        ) == Result::<SalesView, Error>::Err(Error::SaleInProgress),
        sales.contains_key(sale_key(token_contract_id, token_id)) && !sales[sale_key(
            token_contract_id,
            token_id,
        )].processing && attached_deposit != sales[sale_key(token_contract_id, token_id)].price
            ==> spec_purchase(sales, buyer_id, attached_deposit, token_contract_id, token_id)
            == Result::<SalesView, Error>::Err(Error::WrongPaymentAmount),
        crate::error::class_of(Error::SaleInProgress) == crate::error::ErrorClass::Conflict,
        crate::error::class_of(Error::WrongPaymentAmount) == crate::error::ErrorClass::Validation,
{
}

/// Single flight: once a purchase has locked a listing, any further
/// purchase of the same listing fails as a conflict until its resolve has
/// run.
pub proof fn lemma_single_flight(
    sales: SalesView,
    buyer_id: Seq<char>,
    attached_deposit: u128,
    second_buyer_id: Seq<char>,
    second_attached_deposit: u128,
    token_contract_id: Seq<char>,
    token_id: Seq<char>,
)
    ensures
        spec_purchase(sales, buyer_id, attached_deposit, token_contract_id, token_id) matches Ok(m)
            ==> spec_purchase(
            m,
            second_buyer_id,
            second_attached_deposit,
            token_contract_id,
            token_id,
        ) == Result::<SalesView, Error>::Err(Error::SaleInProgress),
{
}

/// Settlement amounts. A successful resolve pays the beneficiary exactly
/// price plus bond in one payment and removes the record. A failed resolve
/// refunds the buyer exactly the price — never the bond — and the record
/// survives unlocked with its price and bond unchanged.
pub proof fn lemma_settlement_amounts(
    sales: SalesView,
    token_contract_id: Seq<char>,
    token_id: Seq<char>,
    buyer_id: Seq<char>,
)
    requires
        forall|k: Seq<char>| #[trigger]
            sales.contains_key(k) ==> sales[k].price + sales[k].deposit <= u128::MAX,
    ensures
        (spec_resolve(sales, token_contract_id, token_id, buyer_id, true) matches Ok(o) ==> {
            let k = sale_key(token_contract_id, token_id);
            o.1 == true && o.2.account_id == sales[k].beneficiary && o.2.amount == sales[k].price
                + sales[k].deposit && o.0 == sales.remove(k)
        }),
        (spec_resolve(sales, token_contract_id, token_id, buyer_id, false) matches Ok(o) ==> {
            let k = sale_key(token_contract_id, token_id);
            o.1 == false && o.2.account_id == buyer_id && o.2.amount == sales[k].price
                && o.0.contains_key(k) && o.0[k].price == sales[k].price && o.0[k].deposit
                == sales[k].deposit && o.0[k].owner_id == sales[k].owner_id && o.0[k].beneficiary
                == sales[k].beneficiary && o.0[k].processing == false
        }),
{
}

/// Cancellation. Only the recorded owner may cancel: the record is removed
/// and exactly the bond is refunded to the owner; any other caller fails
/// as unauthorized, and the engine's contract then leaves the ledger
/// unchanged.
pub proof fn lemma_cancel_refund(
    sales: SalesView,
    caller_id: Seq<char>,
    token_contract_id: Seq<char>,
    token_id: Seq<char>,
)
    ensures
        (spec_cancel(sales, caller_id, token_contract_id, token_id) matches Ok(o) ==> {
            let k = sale_key(token_contract_id, token_id);
            caller_id == sales[k].owner_id && o.1.account_id == sales[k].owner_id && o.1.amount
                == sales[k].deposit && o.0 == sales.remove(k)
        }),
        sales.contains_key(sale_key(token_contract_id, token_id)) && caller_id != sales[sale_key(
            token_contract_id,
            token_id,
        )].owner_id ==> spec_cancel(sales, caller_id, token_contract_id, token_id) == Result::<
            (SalesView, TransferView),
            Error,
        >::Err(Error::MustBeSaleOwner),
        crate::error::class_of(Error::MustBeSaleOwner) == crate::error::ErrorClass::Authorization,
{
}

/// Composite ledger key of one listing, as persisted: asset contract and
/// asset id joined by a separator.
pub fn listing_key(token_contract_id: &String, token_id: &String) -> (k: String)
    ensures
        k@ == sale_key(token_contract_id@, token_id@),
{
    let mut k = token_contract_id.clone();
    k.append(":");
    k.append(token_id.as_str());
    proof {
        reveal_strlit(":");
        assert(":"@ =~= seq![':']);
        assert(k@ =~= sale_key(token_contract_id@, token_id@));
    }
    k
}

} // verus!
