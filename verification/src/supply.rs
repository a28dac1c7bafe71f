//! The ledger's invariant, the supply is the sum of the balances, and the
//! proof that a mint and a burn keep it.

use vstd::prelude::*;

use crate::ledger::{BurnStep, Ledger, MintStep};

verus! {

/// The sum of `amounts` over the finite set `accounts`.
pub open spec fn sum_over(accounts: Set<Seq<char>>, amounts: Map<Seq<char>, nat>) -> nat
    decreases accounts.len(),
    when accounts.finite()
{
    if accounts.len() == 0 {
        0
    } else {
        let a = accounts.choose();
        amounts[a] + sum_over(accounts.remove(a), amounts)
    }
}

impl Ledger {
    /// The accounts that hold something.
    pub open spec fn holders(self) -> Set<Seq<char>> {
        Set::new(|a: Seq<char>| self.balances.dom().contains(a) && self.balances[a] > 0)
    }

    /// The sum of all balances.
    pub open spec fn held(self) -> nat {
        sum_over(self.holders(), self.balances)
    }

    /// A token record is stored, finitely many accounts hold something, and
    /// the supply is the sum of what they hold.
    pub open spec fn conserved(self) -> bool {
        &&& self.token is Some
        &&& self.holders().finite()
        &&& self.held() == self.total_supply()
    }
}

/// The sum can be taken with any of the accounts first.
pub proof fn lemma_sum_take(accounts: Set<Seq<char>>, amounts: Map<Seq<char>, nat>, a: Seq<char>)
    requires
        accounts.finite(),
        accounts.contains(a),
    ensures
        sum_over(accounts, amounts) == amounts[a] + sum_over(accounts.remove(a), amounts),
    decreases accounts.len(),
{
    let c = accounts.choose();
    if c != a {
        lemma_sum_take(accounts.remove(c), amounts, a);
        lemma_sum_take(accounts.remove(a), amounts, c);
        assert(accounts.remove(c).remove(a) =~= accounts.remove(a).remove(c));
    }
}

/// The sum looks only at the amounts of the accounts it runs over.
pub proof fn lemma_sum_agree(accounts: Set<Seq<char>>, f: Map<Seq<char>, nat>, g: Map<Seq<char>, nat>)
    requires
        accounts.finite(),
        forall|a: Seq<char>| accounts.contains(a) ==> f[a] == g[a],
    ensures
        sum_over(accounts, f) == sum_over(accounts, g),
    decreases accounts.len(),
{
    if accounts.len() != 0 {
        let c = accounts.choose();
        lemma_sum_agree(accounts.remove(c), f, g);
    }
}

/// No account holds more than all accounts together.
pub proof fn lemma_balance_within_held(ledger: Ledger, account: Seq<char>)
    requires
        ledger.holders().finite(),
    ensures
        ledger.balance(account) <= ledger.held(),
{
    if ledger.holders().contains(account) {
        lemma_sum_take(ledger.holders(), ledger.balances, account);
    }
}

/// Setting one balance changes the sum by the difference.
pub proof fn lemma_held_after_set(ledger: Ledger, account: Seq<char>, amount: nat)
    requires
        ledger.holders().finite(),
    ensures
        (Ledger { balances: ledger.balances.insert(account, amount), ..ledger }).holders().finite(),
        (Ledger { balances: ledger.balances.insert(account, amount), ..ledger }).held() + ledger.balance(account)
            == ledger.held() + amount,
{
    let after = Ledger { balances: ledger.balances.insert(account, amount), ..ledger };
    let rest = ledger.holders().remove(account);
    assert(after.holders().remove(account) =~= rest);
    lemma_sum_agree(rest, ledger.balances, after.balances);
    if ledger.holders().contains(account) {
        lemma_sum_take(ledger.holders(), ledger.balances, account);
    } else {
        assert(rest =~= ledger.holders());
    }
    if amount > 0 {
        assert(after.holders() =~= rest.insert(account));
        lemma_sum_take(after.holders(), after.balances, account);
    } else {
        assert(after.holders() =~= rest);
    }
}

/// A mint that goes through keeps the supply equal to the sum of the
/// balances.
pub proof fn lemma_mint_conserves(ledger: Ledger, sender: Seq<char>, recipient: Seq<char>, amount: nat)
    requires
        ledger.conserved(),
        ledger.mint_step(sender, recipient, amount) is Minted,
    ensures
        ledger.after_mint(sender, recipient, amount).conserved(),
{
    lemma_held_after_set(ledger, recipient, ledger.balance(recipient) + amount);
    let set = Ledger { balances: ledger.balances.insert(recipient, ledger.balance(recipient) + amount), ..ledger };
    let after = ledger.after_mint(sender, recipient, amount);
    assert(after.holders() =~= set.holders());
}

/// A burn that goes through keeps the supply equal to the sum of the
/// balances.
pub proof fn lemma_burn_conserves(ledger: Ledger, sender: Seq<char>, amount: nat)
    requires
        ledger.conserved(),
        ledger.burn_step(sender, amount) is Burned,
    ensures
        ledger.after_burn(sender, amount).conserved(),
{
    let left = (ledger.balances[sender] - amount) as nat;
    lemma_held_after_set(ledger, sender, left);
    let set = Ledger { balances: ledger.balances.insert(sender, left), ..ledger };
    let after = ledger.after_burn(sender, amount);
    assert(after.holders() =~= set.holders());
}

/// Where the supply is the sum of the balances, a burn that the caller's
/// balance covers is covered by the supply too.
pub proof fn lemma_supply_covers_balance(ledger: Ledger, account: Seq<char>)
    requires
        ledger.conserved(),
    ensures
        ledger.balance(account) <= ledger.total_supply(),
{
    lemma_balance_within_held(ledger, account);
}

} // verus!
