//! Linear privacy-budget accountant.
//!
//! Composition is linear: the privacy spent after `n` rounds is the sum of the
//! round costs. Every ε is a count of millionths. The running total stops at
//! `u64::MAX` instead of wrapping, so it never goes down between resets, and a
//! total that has reached the top of the range still reads as exhausted.

use vstd::prelude::*;

verus! {

/// What an accountant holds, as mathematical integers.
pub struct Ledger {
    /// The configured budget, in millionths.
    pub budget: nat,
    /// The ε spent since the last reset, in millionths, capped at `u64::MAX`.
    pub total: nat,
    /// The number of rounds recorded since the last reset, capped at `u64::MAX`.
    pub rounds: nat,
}

impl Ledger {
    /// The ledger of a new accountant.
    pub open spec fn fresh(budget: nat) -> Ledger {
        Ledger { budget, total: 0, rounds: 0 }
    }

    /// The ledger after one more round that costs `epsilon`.
    pub open spec fn record(self, epsilon: nat) -> Ledger {
        Ledger {
            budget: self.budget,
            total: if self.total + epsilon > u64::MAX {
                u64::MAX as nat
            } else {
                self.total + epsilon
            },
            rounds: if self.rounds + 1 > u64::MAX {
                u64::MAX as nat
            } else {
                self.rounds + 1
            },
        }
    }

    /// The ledger after the rounds of `costs`, recorded in order.
    pub open spec fn record_all(self, costs: Seq<u64>) -> Ledger
        decreases costs.len(),
    {
        if costs.len() == 0 {
            self
        } else {
            self.record_all(costs.drop_last()).record(costs.last() as nat)
        }
    }

    /// The budget is used up when the total has reached it.
    pub open spec fn exhausted(self) -> bool {
        self.total >= self.budget
    }

    /// What is left of the budget, never below zero.
    pub open spec fn remaining(self) -> nat {
        if self.total >= self.budget {
            0
        } else {
            (self.budget - self.total) as nat
        }
    }

    /// The ledger after a reset: nothing spent, no round, the same budget.
    pub open spec fn cleared(self) -> Ledger {
        Ledger { budget: self.budget, total: 0, rounds: 0 }
    }

    /// Every count fits the machine word that holds it.
    pub open spec fn in_range(self) -> bool {
        self.budget <= u64::MAX && self.total <= u64::MAX && self.rounds <= u64::MAX
    }
}

/// Sum of a sequence of round costs.
pub open spec fn sum_of(costs: Seq<u64>) -> nat
    decreases costs.len(),
{
    if costs.len() == 0 {
        0
    } else {
        sum_of(costs.drop_last()) + costs.last() as nat
    }
}

/// Tracker of the cumulative ε spent against a budget.
#[derive(Debug)]
pub struct PrivacyAccountant {
    budget: u64,
    total_epsilon: u64,
    rounds: u64,
}

impl View for PrivacyAccountant {
    type V = Ledger;

    closed spec fn view(&self) -> Ledger {
        Ledger {
            budget: self.budget as nat,
            total: self.total_epsilon as nat,
            rounds: self.rounds as nat,
        }
    }
}

impl PrivacyAccountant {
    /// An accountant with the given budget and nothing spent.
    #[must_use]
    pub fn new(budget: u64) -> (a: Self)
        ensures
            a@ == Ledger::fresh(budget as nat),
    {
        PrivacyAccountant { budget, total_epsilon: 0, rounds: 0 }
    }

    /// Records one round that costs `epsilon`.
    pub fn record_round(&mut self, epsilon: u64)
        ensures
            final(self)@ == old(self)@.record(epsilon as nat),
    {
        self.total_epsilon = self.total_epsilon.saturating_add(epsilon);
        self.rounds = self.rounds.saturating_add(1);
    }

    /// Whether the total spent has reached the budget.
    #[must_use]
    pub fn is_budget_exhausted(&self) -> (b: bool)
        ensures
            b == self@.exhausted(),
    {
        self.total_epsilon >= self.budget
    }

    /// What is left of the budget, never below zero.
    #[must_use]
    pub fn remaining_budget(&self) -> (r: u64)
        ensures
            r == self@.remaining(),
    {
        if self.total_epsilon >= self.budget {
            0
        } else {
            self.budget - self.total_epsilon
        }
    }

    /// The ε spent since the last reset.
    #[must_use]
    pub fn total_epsilon(&self) -> (t: u64)
        ensures
            t == self@.total,
    {
        self.total_epsilon
    }

    /// The number of rounds recorded since the last reset.
    #[must_use]
    pub fn rounds(&self) -> (n: u64)
        ensures
            n == self@.rounds,
    {
        self.rounds
    }

    /// The configured budget.
    #[must_use]
    pub fn budget(&self) -> (b: u64)
        ensures
            b == self@.budget,
    {
        self.budget
    }

    /// Forgets what was spent and the rounds; the budget stays.
    pub fn reset(&mut self)
        ensures
            final(self)@ == old(self)@.cleared(),
    {
        self.total_epsilon = 0;
        self.rounds = 0;
    }

    /// The ledger of an accountant is always in range.
    pub proof fn lemma_in_range(&self)
        ensures
            self@.in_range(),
    {
    }
}

/// Recording keeps the budget, and never lowers the total or the round count.
pub proof fn lemma_record_is_monotone(ledger: Ledger, epsilon: nat)
    requires
        ledger.in_range(),
    ensures
        ledger.record(epsilon).in_range(),
        ledger.record(epsilon).budget == ledger.budget,
        ledger.record(epsilon).total >= ledger.total,
        ledger.record(epsilon).rounds >= ledger.rounds,
        ledger.exhausted() ==> ledger.record(epsilon).exhausted(),
{
}

/// Linear composition: after any sequence of rounds on a new accountant the
/// total is the sum of the round costs (capped at `u64::MAX`), the round count
/// is their number, the budget is the one configured, the budget reads as
/// exhausted exactly when the sum has reached it, what remains is the budget
/// less the sum and never below zero, and a reset gives back the new accountant.
pub proof fn lemma_linear_composition(budget: u64, costs: Seq<u64>)
    ensures
        ({
            let ledger = Ledger::fresh(budget as nat).record_all(costs);
            &&& ledger.in_range()
            &&& ledger.budget == budget
            &&& ledger.total == if sum_of(costs) > u64::MAX {
                u64::MAX as nat
            } else {
                sum_of(costs)
            }
            &&& ledger.rounds == if costs.len() > u64::MAX {
                u64::MAX as nat
            } else {
                costs.len()
            }
            &&& ledger.exhausted() == (sum_of(costs) >= budget)
            &&& ledger.remaining() == if sum_of(costs) >= budget {
                0
            } else {
                (budget - sum_of(costs)) as nat
            }
            &&& ledger.cleared() == Ledger::fresh(budget as nat)
        }),
    decreases costs.len(),
{
    if costs.len() > 0 {
        lemma_linear_composition(budget, costs.drop_last());
    }
}

/// While the sum of the round costs fits in 64 bits, the total is that sum.
pub proof fn lemma_total_is_sum(budget: u64, costs: Seq<u64>)
    requires
        sum_of(costs) <= u64::MAX,
    ensures
        Ledger::fresh(budget as nat).record_all(costs).total == sum_of(costs),
{
    lemma_linear_composition(budget, costs);
}

} // verus!
