//! The compost ledger: the one currency of the garden.

use vstd::prelude::*;
use crate::consts::STARTING_COMPOST;
use crate::target::Sighting;

verus! {

/// The balance of compost. Planting and unlocking debit it through
/// [`Compost::try_spend`]; composting and decay credit it.
#[derive(Clone, Copy, Debug, PartialEq, Eq, Structural)]
pub struct Compost(pub u32);

impl Compost {
    /// The balance as a number: it is never negative.
    pub open spec fn amount(self) -> nat {
        self.0 as nat
    }

    /// A ledger holding `balance`.
    pub fn new(balance: u32) -> (ledger: Compost)
        ensures
            ledger.amount() == balance,
    {
        Compost(balance)
    }

    /// The ledger with which a session begins.
    pub fn starting() -> (ledger: Compost)
        ensures
            ledger.amount() == STARTING_COMPOST,
    {
        Compost(STARTING_COMPOST)
    }

    /// The current balance.
    pub fn balance(&self) -> (b: u32)
        ensures
            b == self.amount(),
    {
        self.0
    }

    /// Pays `amount` if the balance covers it. Either the whole amount is
    /// debited and `true` returned, or the balance stays as it was and
    /// `false` is returned.
    pub fn try_spend(&mut self, amount: u32) -> (paid: bool)
        ensures
            paid == (old(self).amount() >= amount),
            paid ==> final(self).amount() == old(self).amount() - amount,
            !paid ==> *final(self) == *old(self),
            final(self).amount() >= 0,
    {
        if self.0 >= amount {
            self.0 = self.0 - amount;
            true
        } else {
            false
        }
    }

    /// Adds `amount` to the balance.
    pub fn credit(&mut self, amount: u32)
        requires
            old(self).amount() + amount <= u32::MAX,
        ensures
            final(self).amount() == old(self).amount() + amount,
    {
        self.0 = self.0 + amount;
    }
}

/// The home base stands: it is among the living.
pub open spec fn base_stands(entities: Seq<Sighting>) -> bool {
    exists|i: int| 0 <= i < entities.len() && (#[trigger] entities[i]).high_value
}

/// Decides whether the session is lost: it is when the home base is no
/// longer among the living.
pub fn end_game(entities: &Vec<Sighting>) -> (over: bool)
    ensures
        over == !base_stands(entities@),
{
    let mut i: usize = 0;
    while i < entities.len()
        invariant
            0 <= i <= entities.len(),
            forall|j: int| 0 <= j < i ==> !(#[trigger] entities[j]).high_value,
        decreases entities.len() - i,
    {
        if entities[i].high_value {
            return false;
        }
        i = i + 1;
    }
    true
}

} // verus!
