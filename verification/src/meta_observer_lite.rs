//! Counter of policy decisions.

use crate::policy_core::PolicyDecisionKind;
use vstd::prelude::*;

verus! {

/// `a + 1`, stopping at `u64::MAX`.
pub open spec fn bumped(a: u64) -> u64 {
    if a == u64::MAX {
        a
    } else {
        (a + 1) as u64
    }
}

/// The counters at one moment.
#[derive(Debug, Clone, Copy, Default, PartialEq, Eq, Structural)]
pub struct MetaSnapshot {
    /// Requests processed.
    pub total_requests: u64,
    /// Decisions to allow.
    pub allow_count: u64,
    /// Decisions to answer safely.
    pub safe_respond_count: u64,
    /// Decisions to refuse.
    pub refuse_count: u64,
}

impl MetaSnapshot {
    /// The counters before any decision.
    pub open spec fn zero() -> MetaSnapshot {
        MetaSnapshot { total_requests: 0, allow_count: 0, safe_respond_count: 0, refuse_count: 0 }
    }

    /// The counters after one more decision of the given kind. Each counter
    /// stops at `u64::MAX`.
    pub open spec fn counted(self, kind: PolicyDecisionKind) -> MetaSnapshot {
        MetaSnapshot {
            total_requests: bumped(self.total_requests),
            allow_count: if kind == PolicyDecisionKind::Allow {
                bumped(self.allow_count)
            } else {
                self.allow_count
            },
            safe_respond_count: if kind == PolicyDecisionKind::SafeRespond {
                bumped(self.safe_respond_count)
            } else {
                self.safe_respond_count
            },
            refuse_count: if kind == PolicyDecisionKind::Refuse {
                bumped(self.refuse_count)
            } else {
                self.refuse_count
            },
        }
    }

    /// The total is the sum of the three counters, capped at `u64::MAX`.
    pub open spec fn consistent(self) -> bool {
        self.total_requests == if self.allow_count + self.safe_respond_count + self.refuse_count
            > u64::MAX {
            u64::MAX as int
        } else {
            self.allow_count + self.safe_respond_count + self.refuse_count
        }
    }
}

/// Observer that counts how often the policy allowed, softened or refused.
#[derive(Debug, Default)]
pub struct MetaObserverLite {
    total_requests: u64,
    allow_count: u64,
    safe_respond_count: u64,
    refuse_count: u64,
}

impl View for MetaObserverLite {
    type V = MetaSnapshot;

    closed spec fn view(&self) -> MetaSnapshot {
        MetaSnapshot {
            total_requests: self.total_requests,
            allow_count: self.allow_count,
            safe_respond_count: self.safe_respond_count,
            refuse_count: self.refuse_count,
        }
    }
}

impl MetaObserverLite {
    /// An observer with every counter at zero.
    #[must_use]
    pub fn new() -> (m: Self)
        ensures
            m@ == MetaSnapshot::zero(),
    {
        MetaObserverLite {
            total_requests: 0,
            allow_count: 0,
            safe_respond_count: 0,
            refuse_count: 0,
        }
    }

    /// Counts one decision to allow.
    pub fn record_decision_allow(&mut self)
        ensures
            final(self)@ == old(self)@.counted(PolicyDecisionKind::Allow),
    {
        self.total_requests = self.total_requests.saturating_add(1);
        self.allow_count = self.allow_count.saturating_add(1);
    }

    /// Counts one decision to answer safely.
    pub fn record_decision_safe_respond(&mut self)
        ensures
            final(self)@ == old(self)@.counted(PolicyDecisionKind::SafeRespond),
    {
        self.total_requests = self.total_requests.saturating_add(1);
        self.safe_respond_count = self.safe_respond_count.saturating_add(1);
    }

    /// Counts one decision to refuse.
    pub fn record_decision_refuse(&mut self)
        ensures
            final(self)@ == old(self)@.counted(PolicyDecisionKind::Refuse),
    {
        self.total_requests = self.total_requests.saturating_add(1);
        self.refuse_count = self.refuse_count.saturating_add(1);
    }

    /// Counts one decision of the given kind.
    pub fn record_decision(&mut self, kind: PolicyDecisionKind)
        ensures
            final(self)@ == old(self)@.counted(kind),
    {
        match kind {
            PolicyDecisionKind::Allow => self.record_decision_allow(),
            PolicyDecisionKind::SafeRespond => self.record_decision_safe_respond(),
            PolicyDecisionKind::Refuse => self.record_decision_refuse(),
        }
    }

    /// The counters as they stand.
    #[must_use]
    pub fn snapshot(&self) -> (s: MetaSnapshot)
        ensures
            s == self@,
    {
        MetaSnapshot {
            total_requests: self.total_requests,
            allow_count: self.allow_count,
            safe_respond_count: self.safe_respond_count,
            refuse_count: self.refuse_count,
        }
    }

    /// Puts every counter back to zero.
    pub fn reset(&mut self)
        ensures
            final(self)@ == MetaSnapshot::zero(),
    {
        self.total_requests = 0;
        self.allow_count = 0;
        self.safe_respond_count = 0;
        self.refuse_count = 0;
    }
}

/// The total keeps being the capped sum of the three counters: it is so at
/// zero, and counting a decision of any kind keeps it so.
pub proof fn lemma_total_is_sum_of_kinds(before: MetaSnapshot, kind: PolicyDecisionKind)
    requires
        before.consistent(),
    ensures
        MetaSnapshot::zero().consistent(),
        before.counted(kind).consistent(),
{
}

} // verus!
