//! Balance arithmetic of the subcurrency contract scenario.
//!
//! The contract keeps one balance per wallet. The minter wallet (index 0)
//! mints a fixed amount to every other wallet; every other wallet then sends
//! a small amount back to the minter. This module models the contract's
//! mint/send ledger and proves the expected closing balances.

use vstd::prelude::*;

verus! {

/// The contract's ledger: one balance per wallet; wallet 0 is the minter.
pub struct Ledger {
    balances: Vec<u64>,
}

impl Ledger {
    /// The balances, by wallet index.
    pub closed spec fn balances(self) -> Seq<u64> {
        self.balances@
    }

    /// How many wallets the ledger tracks.
    pub fn num_wallets(&self) -> (r: usize)
        ensures
            r == self.balances().len(),
    {
        self.balances.len()
    }

    /// The balance of wallet `i`.
    pub fn balance(&self, i: usize) -> (r: u64)
        requires
            i < self.balances().len(),
        ensures
            r == self.balances()[i as int],
    {
        self.balances[i]
    }

    /// A fresh ledger: every wallet starts at zero.
    pub fn new(num_wallets: usize) -> (r: Ledger)
        ensures
            r.balances().len() == num_wallets,
            forall|i: int| 0 <= i < num_wallets ==> r.balances()[i] == 0,
    {
        let mut balances: Vec<u64> = Vec::new();
        let mut k: usize = 0;
        while k < num_wallets
            invariant
                k <= num_wallets,
                balances@.len() == k,
                forall|i: int| 0 <= i < k ==> balances@[i] == 0,
            decreases num_wallets - k,
        {
            balances.push(0);
            k = k + 1;
        }
        Ledger { balances }
    }

    /// Mints `amount` new units to wallet `to`. Succeeds exactly when the
    /// wallet exists and its balance does not overflow; a failed mint leaves
    /// the ledger unchanged.
    pub fn mint(&mut self, to: usize, amount: u64) -> (ok: bool)
        ensures
            ok <==> (to < old(self).balances().len() && old(self).balances()[to as int] + amount
                <= u64::MAX),
            ok ==> final(self).balances() == old(self).balances().update(
                to as int,
                (old(self).balances()[to as int] + amount) as u64,
            ),
            !ok ==> final(self).balances() == old(self).balances(),
    {
        if to >= self.balances.len() {
            return false;
        }
        let current: u64 = self.balances[to];
        if amount > u64::MAX - current {
            return false;
        }
        self.balances.set(to, current + amount);
        true
    }

    /// Moves `amount` from wallet `from` to wallet `to`. Succeeds exactly
    /// when both wallets exist, the sender holds at least `amount`, and the
    /// receiver does not overflow; a send to oneself changes nothing. A
    /// failed send leaves the ledger unchanged.
    pub fn send(&mut self, from: usize, to: usize, amount: u64) -> (ok: bool)
        ensures
            ok <==> (from < old(self).balances().len() && to < old(self).balances().len()
                && old(self).balances()[from as int] >= amount && (from == to || old(
                self,
            ).balances()[to as int] + amount <= u64::MAX)),
            ok && from != to ==> final(self).balances() == old(self).balances().update(
                from as int,
                (old(self).balances()[from as int] - amount) as u64,
            ).update(to as int, (old(self).balances()[to as int] + amount) as u64),
            ok && from == to ==> final(self).balances() == old(self).balances(),
            !ok ==> final(self).balances() == old(self).balances(),
    {
        if from >= self.balances.len() || to >= self.balances.len() {
            return false;
        }
        let from_balance: u64 = self.balances[from];
        if from_balance < amount {
            return false;
        }
        if from == to {
            return true;
        }
        let to_balance: u64 = self.balances[to];
        if amount > u64::MAX - to_balance {
            return false;
        }
        self.balances.set(from, from_balance - amount);
        self.balances.set(to, to_balance + amount);
        true
    }
}

/// Runs the whole contract scenario on the ledger model: mint `mint_amount`
/// to each of the `num_wallets - 1` non-minter wallets, then have each of
/// them send `send_amount` back to the minter. The minter ends holding
/// exactly one `send_amount` per non-minter wallet, and every non-minter
/// wallet keeps what it was minted less what it sent back.
pub fn run_contract_scenario(num_wallets: usize, mint_amount: u64, send_amount: u64) -> (r: Ledger)
    requires
        num_wallets >= 1,
        send_amount <= mint_amount,
        (num_wallets - 1) * send_amount <= u64::MAX,
    ensures
        r.balances().len() == num_wallets,
        r.balances()[0] == (num_wallets - 1) * send_amount,
        forall|i: int| 1 <= i < num_wallets ==> r.balances()[i] == mint_amount - send_amount,
{
    let mut ledger = Ledger::new(num_wallets);
    let mut k: usize = 1;
    while k < num_wallets
        invariant
            num_wallets >= 1,
            1 <= k <= num_wallets,
            ledger.balances().len() == num_wallets,
            ledger.balances()[0] == 0,
            forall|i: int| 1 <= i < k ==> ledger.balances()[i] == mint_amount,
            forall|i: int| k <= i < num_wallets ==> ledger.balances()[i] == 0,
        decreases num_wallets - k,
    {
        let ok = ledger.mint(k, mint_amount);
        assert(ok);
        k = k + 1;
    }
    let mut k: usize = 1;
    while k < num_wallets
        invariant
            num_wallets >= 1,
            1 <= k <= num_wallets,
            send_amount <= mint_amount,
            (num_wallets - 1) * send_amount <= u64::MAX,
            ledger.balances().len() == num_wallets,
            ledger.balances()[0] == (k - 1) * send_amount,
            forall|i: int| 1 <= i < k ==> ledger.balances()[i] == mint_amount - send_amount,
            forall|i: int| k <= i < num_wallets ==> ledger.balances()[i] == mint_amount,
        decreases num_wallets - k,
    {
        proof {
            assert((k - 1) * send_amount + send_amount == k * send_amount) by (nonlinear_arith);
            assert(k * send_amount <= (num_wallets - 1) * send_amount) by (nonlinear_arith)
                requires
                    1 <= k <= num_wallets - 1,
                    send_amount >= 0,
            ;
        }
        let ok = ledger.send(k, 0, send_amount);
        assert(ok);
        k = k + 1;
    }
    ledger
}

} // verus!
