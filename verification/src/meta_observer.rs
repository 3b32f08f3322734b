//! Metrics of the inferences of a node.
//!
//! The observer is told of every inference after it happened: how long it
//! took, how large message and answer were, how the answer was made and what
//! the policy decided. It keeps counters that stop at the top of their range
//! and latency statistics in millionths of a millisecond.

use crate::meta_observer_lite::bumped;
use crate::neural_engine_lite::{ModelOutput, ReplyMode};
use crate::policy_core::{PolicyDecision, PolicyDecisionKind};
use vstd::prelude::*;
use vstd::string::StrSliceExecFns;

verus! {

/// `a + b`, stopping at `u64::MAX`.
pub open spec fn capped_sum(a: u64, b: nat) -> u64 {
    if a + b > u64::MAX {
        u64::MAX
    } else {
        (a + b) as u64
    }
}

/// Latency statistics, in millionths of a millisecond.
#[derive(Debug, Clone, Copy, PartialEq, Eq, Structural)]
pub struct LatencyStats {
    /// Latency of the latest inference.
    pub last_ms: u64,
    /// Moving average of the latency.
    pub avg_ms_ema: u64,
    /// Largest latency seen.
    pub max_ms: u64,
    /// Smallest latency seen.
    pub min_ms: u64,
}

/// Amount of text that went through the node.
#[derive(Debug, Clone, Copy, PartialEq, Eq, Structural)]
pub struct TrafficStats {
    /// Characters of all messages.
    pub total_input_chars: u64,
    /// Characters of all answers.
    pub total_output_chars: u64,
    /// Estimated tokens of all inferences.
    pub total_tokens: u64,
}

/// How often the policy decided what.
#[derive(Debug, Clone, Copy, PartialEq, Eq, Structural)]
pub struct DecisionBreakdown {
    /// Decisions to allow.
    pub allow: u64,
    /// Decisions to answer safely.
    pub safe_respond: u64,
    /// Decisions to refuse.
    pub refuse: u64,
}

/// How often the engine answered in which mode.
#[derive(Debug, Clone, Copy, PartialEq, Eq, Structural)]
pub struct ModeBreakdown {
    /// Answers to questions.
    pub answer: u64,
    /// Summaries.
    pub summary: u64,
    /// Prompts toward a next step.
    pub coaching: u64,
    /// Short exchanges.
    pub small_talk: u64,
}

/// All metrics at one moment.
#[derive(Debug, Clone, Copy, PartialEq, Eq, Structural)]
pub struct InferenceMetricsSnapshot {
    /// Time of the latest inference, in milliseconds since the epoch.
    pub last_update_ms: u128,
    /// Inferences observed.
    pub total_requests: u64,
    /// Latency statistics.
    pub latency: LatencyStats,
    /// Amount of text.
    pub traffic: TrafficStats,
    /// Decisions of the policy.
    pub decisions: DecisionBreakdown,
    /// Modes of the engine.
    pub modes: ModeBreakdown,
}

/// What is observed of one inference.
pub struct Observation {
    /// Characters of the message.
    pub input_chars: nat,
    /// Characters of the answer.
    pub output_chars: nat,
    /// Estimated tokens.
    pub tokens: nat,
    /// Decision of the policy.
    pub decision: PolicyDecisionKind,
    /// Mode of the answer.
    pub mode: ReplyMode,
    /// Latency, in millionths of a millisecond.
    pub latency: u64,
    /// Time of the observation, in milliseconds since the epoch.
    pub now_ms: u128,
}

impl InferenceMetricsSnapshot {
    /// The metrics before any inference: all zero.
    pub open spec fn zero() -> InferenceMetricsSnapshot {
        InferenceMetricsSnapshot {
            last_update_ms: 0,
            total_requests: 0,
            latency: LatencyStats { last_ms: 0, avg_ms_ema: 0, max_ms: 0, min_ms: 0 },
            traffic: TrafficStats { total_input_chars: 0, total_output_chars: 0, total_tokens: 0 },
            decisions: DecisionBreakdown { allow: 0, safe_respond: 0, refuse: 0 },
            modes: ModeBreakdown { answer: 0, summary: 0, coaching: 0, small_talk: 0 },
        }
    }

    /// The latency statistics after one more inference: the first one sets
    /// average, smallest and largest latency; every later one moves the
    /// average by a tenth toward its latency and widens the range.
    pub open spec fn latency_after(self, latency: u64) -> LatencyStats {
        if bumped(self.total_requests) == 1 {
            LatencyStats { last_ms: latency, avg_ms_ema: latency, max_ms: latency, min_ms: latency }
        } else {
            LatencyStats {
                last_ms: latency,
                avg_ms_ema: ((9 * self.latency.avg_ms_ema + latency) / 10) as u64,
                max_ms: if latency > self.latency.max_ms {
                    latency
                } else {
                    self.latency.max_ms
                },
                min_ms: if latency < self.latency.min_ms {
                    latency
                } else {
                    self.latency.min_ms
                },
            }
        }
    }

    /// The metrics after one more inference.
    pub open spec fn observed(self, seen: Observation) -> InferenceMetricsSnapshot {
        InferenceMetricsSnapshot {
            last_update_ms: seen.now_ms,
            total_requests: bumped(self.total_requests),
            latency: self.latency_after(seen.latency),
            traffic: TrafficStats {
                total_input_chars: capped_sum(self.traffic.total_input_chars, seen.input_chars),
                total_output_chars: capped_sum(self.traffic.total_output_chars, seen.output_chars),
                total_tokens: capped_sum(self.traffic.total_tokens, seen.tokens),
            },
            decisions: DecisionBreakdown {
                allow: if seen.decision == PolicyDecisionKind::Allow {
                    bumped(self.decisions.allow)
                } else {
                    self.decisions.allow
                },
                safe_respond: if seen.decision == PolicyDecisionKind::SafeRespond {
                    bumped(self.decisions.safe_respond)
                } else {
                    self.decisions.safe_respond
                },
                refuse: if seen.decision == PolicyDecisionKind::Refuse {
                    bumped(self.decisions.refuse)
                } else {
                    self.decisions.refuse
                },
            },
            modes: ModeBreakdown {
                answer: if seen.mode == ReplyMode::QuestionAnswer {
                    bumped(self.modes.answer)
                } else {
                    self.modes.answer
                },
                summary: if seen.mode == ReplyMode::Summary {
                    bumped(self.modes.summary)
                } else {
                    self.modes.summary
                },
                coaching: if seen.mode == ReplyMode::Coaching {
                    bumped(self.modes.coaching)
                } else {
                    self.modes.coaching
                },
                small_talk: if seen.mode == ReplyMode::SmallTalk {
                    bumped(self.modes.small_talk)
                } else {
                    self.modes.small_talk
                },
            },
        }
    }
}

/// Observer of the inferences of a node.
#[derive(Debug)]
pub struct MetaObserver {
    metrics: InferenceMetricsSnapshot,
}

impl View for MetaObserver {
    type V = InferenceMetricsSnapshot;

    closed spec fn view(&self) -> InferenceMetricsSnapshot {
        self.metrics
    }
}

/// `count` as a 64-bit number, or the largest one if it does not fit.
fn widened(count: usize) -> (n: u64)
    ensures
        n == if count > u64::MAX {
            u64::MAX
        } else {
            count as u64
        },
{
    if count as u128 > u64::MAX as u128 {
        u64::MAX
    } else {
        count as u64
    }
}

impl MetaObserver {
    /// An observer that has seen nothing.
    #[must_use]
    pub fn new() -> (m: Self)
        ensures
            m@ == InferenceMetricsSnapshot::zero(),
    {
        MetaObserver {
            metrics: InferenceMetricsSnapshot {
                last_update_ms: 0,
                total_requests: 0,
                latency: LatencyStats { last_ms: 0, avg_ms_ema: 0, max_ms: 0, min_ms: 0 },
                traffic: TrafficStats {
                    total_input_chars: 0,
                    total_output_chars: 0,
                    total_tokens: 0,
                },
                decisions: DecisionBreakdown { allow: 0, safe_respond: 0, refuse: 0 },
                modes: ModeBreakdown { answer: 0, summary: 0, coaching: 0, small_talk: 0 },
            },
        }
    }

    /// Takes note of one inference that took `latency` millionths of a
    /// millisecond and ended at `now_ms` milliseconds since the epoch.
    pub fn observe_inference(
        &mut self,
        user_input: &str,
        output: &ModelOutput,
        decision: &PolicyDecision,
        latency: u64,
        now_ms: u128,
    )
        ensures
            final(self)@ == old(self)@.observed(
                Observation {
                    input_chars: user_input@.len(),
                    output_chars: output.text@.len(),
                    tokens: output.estimated_tokens as nat,
                    decision: decision.kind,
                    mode: output.mode,
                    latency,
                    now_ms,
                },
            ),
    {
        let first: bool = self.metrics.total_requests == 0;
        self.metrics.total_requests = self.metrics.total_requests.saturating_add(1);

        self.metrics.latency.last_ms = latency;
        if first {
            self.metrics.latency.avg_ms_ema = latency;
            self.metrics.latency.min_ms = latency;
            self.metrics.latency.max_ms = latency;
        } else {
            let sum: u128 = 9 * (self.metrics.latency.avg_ms_ema as u128) + latency as u128;
            self.metrics.latency.avg_ms_ema = (sum / 10) as u64;
            if latency > self.metrics.latency.max_ms {
                self.metrics.latency.max_ms = latency;
            }
            if latency < self.metrics.latency.min_ms {
                self.metrics.latency.min_ms = latency;
            }
        }

        let input_chars: u64 = widened(user_input.unicode_len());
        let output_chars: u64 = widened(output.text.as_str().unicode_len());
        let tokens: u64 = widened(output.estimated_tokens);
        self.metrics.traffic.total_input_chars = self.metrics.traffic.total_input_chars.saturating_add(
            input_chars,
        );
        self.metrics.traffic.total_output_chars =
        self.metrics.traffic.total_output_chars.saturating_add(output_chars);
        self.metrics.traffic.total_tokens = self.metrics.traffic.total_tokens.saturating_add(tokens);

        match decision.kind {
            PolicyDecisionKind::Allow => {
                self.metrics.decisions.allow = self.metrics.decisions.allow.saturating_add(1);
            },
            PolicyDecisionKind::SafeRespond => {
                self.metrics.decisions.safe_respond =
                self.metrics.decisions.safe_respond.saturating_add(1);
            },
            PolicyDecisionKind::Refuse => {
                self.metrics.decisions.refuse = self.metrics.decisions.refuse.saturating_add(1);
            },
        }

        match output.mode {
            ReplyMode::QuestionAnswer => {
                self.metrics.modes.answer = self.metrics.modes.answer.saturating_add(1);
            },
            ReplyMode::Summary => {
                self.metrics.modes.summary = self.metrics.modes.summary.saturating_add(1);
            },
            ReplyMode::Coaching => {
                self.metrics.modes.coaching = self.metrics.modes.coaching.saturating_add(1);
            },
            ReplyMode::SmallTalk => {
                self.metrics.modes.small_talk = self.metrics.modes.small_talk.saturating_add(1);
            },
        }

        self.metrics.last_update_ms = now_ms;
    }

    /// The metrics as they stand.
    #[must_use]
    pub fn snapshot(&self) -> (s: InferenceMetricsSnapshot)
        ensures
            s == self@,
    {
        self.metrics
    }

    /// Forgets everything that was observed.
    pub fn reset(&mut self)
        ensures
            final(self)@ == InferenceMetricsSnapshot::zero(),
    {
        *self = MetaObserver::new();
    }
}

impl Default for MetaObserver {
    /// Same as [`MetaObserver::new`].
    fn default() -> (m: Self)
        ensures
            m@ == InferenceMetricsSnapshot::zero(),
    {
        MetaObserver::new()
    }
}

/// The moving average and the latest latency lie between the smallest and the
/// largest latency seen, once an inference has been observed.
pub proof fn lemma_latency_range(before: InferenceMetricsSnapshot, latency: u64)
    requires
        before.total_requests > 0 ==> before.latency.min_ms <= before.latency.avg_ms_ema
            <= before.latency.max_ms,
    ensures
        ({
            let after = before.latency_after(latency);
            &&& after.min_ms <= after.avg_ms_ema <= after.max_ms
            &&& after.min_ms <= after.last_ms <= after.max_ms
        }),
{
}

} // verus!
