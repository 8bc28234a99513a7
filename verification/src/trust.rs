//! Balance escrow: per-account deposits, withdrawn on request.

use vstd::prelude::*;

use crate::error::Error;
use crate::remote::{Transfer, TransferView};
use crate::store::StrMap;

verus! {

/// Balance an account holds in the escrow; absent means zero.
pub open spec fn balance_of(balances: Map<Seq<char>, u128>, account_id: Seq<char>) -> u128 {
    if balances.contains_key(account_id) {
        balances[account_id]
    } else {
        0
    }
}

/// The escrow contract.
#[derive(Debug)]
pub struct Trust {
    /// Administrative owner of the deployed escrow.
    pub owner_id: String,
    /// Escrowed balance per account.
    pub balances: StrMap<u128>,
}

impl Trust {
    /// Fresh escrow with no balances.
    pub fn new(owner_id: String) -> (r: Trust)
        ensures
            r.owner_id == owner_id,
            r.balances@ == Map::<Seq<char>, u128>::empty(),
    {
        Trust { owner_id, balances: StrMap::new() }
    }

    /// Credit the attached deposit to the signing account.
    pub fn deposit(&mut self, signer_id: &String, attached_deposit: u128)
        requires
            balance_of(old(self).balances@, signer_id@) + attached_deposit <= u128::MAX,
        ensures
            final(self).owner_id == old(self).owner_id,
            final(self).balances@ == old(self).balances@.insert(
                signer_id@,
                (balance_of(old(self).balances@, signer_id@) + attached_deposit) as u128,
            ),
    {
        let balance = match self.balances.get(signer_id) {
            Some(b) => *b,
            None => 0,
        };
        let updated = balance + attached_deposit;
        self.balances.insert(signer_id, updated);
    }

    /// Withdraw `amount` for the signing account: the account must hold at
    /// least that much, and the contract's own balance — passed in by the
    /// host — must cover what the ledger records. The remainder left after
    /// the deduction is what is paid out.
    pub fn withdraw(&mut self, signer_id: &String, amount: u128, account_balance: u128) -> (r:
        Result<Transfer, Error>)
        ensures
            final(self).owner_id == old(self).owner_id,
            match r {
                Err(e) => final(self).balances@ == old(self).balances@ && ((balance_of(
                    old(self).balances@,
                    signer_id@,
                ) < amount && e == Error::NotEnoughTokens) || (balance_of(
                    old(self).balances@,
                    signer_id@,
                ) >= amount && account_balance < balance_of(old(self).balances@, signer_id@) && e
                    == Error::MissingFunds)),
                Ok(t) => balance_of(old(self).balances@, signer_id@) >= amount && account_balance
                    >= balance_of(old(self).balances@, signer_id@) && final(self).balances@ == old(self).balances@.insert(
                    signer_id@,
                    (balance_of(old(self).balances@, signer_id@) - amount) as u128,
                ) && t@ == TransferView {
                    account_id: signer_id@,
                    amount: (balance_of(old(self).balances@, signer_id@) - amount) as u128,
                },
            },
    {
        let balance = match self.balances.get(signer_id) {
            Some(b) => *b,
            None => 0,
        };
        if balance < amount {
            return Err(Error::NotEnoughTokens);
        }
        if account_balance < balance {
            return Err(Error::MissingFunds);
        }
        let remaining = balance - amount;
        self.balances.insert(signer_id, remaining);
        Ok(Transfer { account_id: signer_id.clone(), amount: remaining })
    }

    /// Balance the escrow holds for an account; zero when absent.
    pub fn get_balance(&self, account_id: &String) -> (r: u128)
        ensures
            r == balance_of(self.balances@, account_id@),
    {
        match self.balances.get(account_id) {
            Some(b) => *b,
            None => 0,
        }
    }
}

} // verus!
