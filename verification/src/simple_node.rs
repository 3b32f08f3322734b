//! A whole small node: text engine, safety policy and decision counter.
//!
//! For every message the engine writes an answer, the policy judges the pair
//! of message and answer, the decision is counted, and the text that may leave
//! the node is returned.

use crate::config::SimpleNodeConfig;
use crate::meta_observer_lite::{MetaObserverLite, MetaSnapshot};
use crate::neural_engine_lite::{
    answer_text, mode_of, token_estimate, NeuralEngineLite, NeuralEngineLiteConfig, ReplyMode,
};
use crate::policy_core::{rule_for, PolicyCore, PolicyDecision, PolicyDecisionKind, PolicyRule};
use crate::text::{chars_of, lowercase_of, push_text, string_of, trim_chars, trimmed};
use vstd::prelude::*;
use vstd::string::StringExecFns;

verus! {

/// Identifier of a node made without one.
pub const DEFAULT_NODE_ID: &'static str = "node-lite-1";

/// What goes before an answer that the policy asked to soften.
pub const SAFE_HEAD: &'static str = "[safe-mode] ";

/// What goes after an answer that the policy asked to soften.
pub const SAFE_TAIL: &'static str =
    "\n\n(Questa risposta è stata adattata per maggiore sicurezza.)";

/// Note that follows an answer shown as softened.
pub const SAFE_NOTE: &'static str =
    "\n\n[Nota: questa risposta è stata filtrata in modalità sicura.]";

/// What is returned in place of an answer that the policy refused.
pub const REFUSAL: &'static str = "I’m not able to provide a safe answer to this request.";

/// What a node returns for one message.
#[derive(Debug, Clone)]
pub struct SimpleNodeOutput {
    /// The text that may leave the node.
    pub text: String,
    /// What the policy decided.
    pub policy_decision: PolicyDecisionKind,
    /// How the engine made its answer.
    pub mode: ReplyMode,
    /// Rough count of the words of message and answer.
    pub tokens_used: usize,
}

/// The text that leaves the node: the answer itself if it is allowed, the
/// answer between the safe-mode marks if it has to be softened, and the
/// refusal if it is refused.
pub open spec fn released_text(kind: PolicyDecisionKind, answer: Seq<char>) -> Seq<char> {
    match kind {
        PolicyDecisionKind::Allow => answer,
        PolicyDecisionKind::SafeRespond => SAFE_HEAD@ + answer + SAFE_TAIL@,
        PolicyDecisionKind::Refuse => REFUSAL@,
    }
}

/// A node.
#[derive(Debug)]
pub struct SimpleNode {
    id: String,
    policy_core: PolicyCore,
    engine: NeuralEngineLite,
    meta: MetaObserverLite,
}

impl SimpleNode {
    /// The identifier of the node.
    pub closed spec fn name(&self) -> Seq<char> {
        self.id@
    }

    /// Whether the policy of the node is strict.
    pub closed spec fn strict(&self) -> bool {
        self.policy_core.strict()
    }

    /// The settings of the engine of the node.
    pub closed spec fn engine_settings(&self) -> NeuralEngineLiteConfig {
        self.engine.settings()
    }

    /// The decision counters of the node.
    pub closed spec fn counters(&self) -> MetaSnapshot {
        self.meta@
    }

    /// The answer of the node's engine to a message.
    pub open spec fn answer_to(&self, user_input: Seq<char>) -> Seq<char> {
        answer_text(
            trimmed(user_input),
            lowercase_of(trimmed(user_input)),
            self.engine_settings().assistant_name@,
            self.engine_settings().max_bullets as nat,
            self.engine_settings().max_output_chars as nat,
        )
    }

    /// The rule by which the node's policy decides on a message.
    pub open spec fn rule_on(&self, user_input: Seq<char>) -> PolicyRule {
        rule_for(self.strict(), user_input, self.answer_to(user_input))
    }

    /// A node with the default settings, the default identifier, and a policy
    /// that is strict or not.
    pub fn new(strict_policy: bool) -> (n: Self)
        ensures
            n.name() == DEFAULT_NODE_ID@,
            n.strict() == strict_policy,
            n.counters() == MetaSnapshot::zero(),
            n.engine_settings().max_output_chars == 2_000,
            n.engine_settings().max_bullets == 5,
            n.engine_settings().assistant_name@ == "Samaritan Lite"@,
    {
        Self::from_config(
            String::from_str(DEFAULT_NODE_ID),
            SimpleNodeConfig { strict_mode: strict_policy, max_output_chars: 2_000 },
        )
    }

    /// A node with the given identifier and settings.
    pub fn from_config(id: String, cfg: SimpleNodeConfig) -> (n: Self)
        ensures
            n.name() == id@,
            n.strict() == cfg.strict_mode,
            n.counters() == MetaSnapshot::zero(),
            n.engine_settings().max_output_chars == cfg.max_output_chars,
            n.engine_settings().max_bullets == 5,
            n.engine_settings().assistant_name@ == "Samaritan Lite"@,
    {
        let mut engine_config = NeuralEngineLiteConfig::default();
        engine_config.max_output_chars = cfg.max_output_chars;
        SimpleNode {
            id,
            policy_core: PolicyCore::new(cfg.strict_mode),
            engine: NeuralEngineLite::new(engine_config),
            meta: MetaObserverLite::new(),
        }
    }

    /// The identifier of the node.
    pub fn id(&self) -> (s: &str)
        ensures
            s@ == self.name(),
    {
        self.id.as_str()
    }

    /// The decision counter.
    pub fn meta(&self) -> (m: &MetaObserverLite)
        ensures
            m@ == self.counters(),
    {
        &self.meta
    }

    /// The decision counter.
    pub fn meta_observer(&self) -> (m: &MetaObserverLite)
        ensures
            m@ == self.counters(),
    {
        &self.meta
    }

    /// The decision counter, to be changed in place. Nothing else of the node
    /// changes with it.
    pub fn meta_observer_mut(&mut self) -> (m: &mut MetaObserverLite)
        ensures
            m@ == old(self).counters(),
            final(self).counters() == final(m)@,
            final(self).name() == old(self).name(),
            final(self).strict() == old(self).strict(),
            final(self).engine_settings() == old(self).engine_settings(),
    {
        &mut self.meta
    }

    /// Puts the decision counters back to zero.
    pub fn reset_stats(&mut self)
        ensures
            final(self).counters() == MetaSnapshot::zero(),
            final(self).name() == old(self).name(),
            final(self).strict() == old(self).strict(),
            final(self).engine_settings() == old(self).engine_settings(),
    {
        self.meta.reset();
    }

    /// Handles one turn: returns the engine's answer as it is, with the
    /// decision of the policy on it, and counts the decision.
    pub fn handle_turn(&mut self, user_input: &str) -> (r: (String, PolicyDecision))
        ensures
            r.0@ == old(self).answer_to(user_input@),
            r.1.states(old(self).rule_on(user_input@)),
            final(self).counters() == old(self).counters().counted(
                old(self).rule_on(user_input@).kind_spec(),
            ),
            final(self).name() == old(self).name(),
            final(self).strict() == old(self).strict(),
            final(self).engine_settings() == old(self).engine_settings(),
    {
        let output = self.engine.generate(user_input);
        let decision = self.policy_core.evaluate_text(user_input, output.text.as_str());
        self.meta.record_decision(decision.kind);
        (output.text, decision)
    }

    /// Handles one message: returns the text that may leave the node, with
    /// the decision of the policy, the mode of the answer and the token
    /// estimate of the engine, and counts the decision.
    pub fn handle_user_message(&mut self, user_input: &str) -> (out: SimpleNodeOutput)
        ensures
            out.policy_decision == old(self).rule_on(user_input@).kind_spec(),
            out.text@ == released_text(out.policy_decision, old(self).answer_to(user_input@)),
            out.mode == mode_of(trimmed(user_input@), lowercase_of(trimmed(user_input@))),
            out.tokens_used == token_estimate(
                trimmed(user_input@),
                old(self).answer_to(user_input@),
            ),
            final(self).counters() == old(self).counters().counted(out.policy_decision),
            final(self).name() == old(self).name(),
            final(self).strict() == old(self).strict(),
            final(self).engine_settings() == old(self).engine_settings(),
    {
        let raw = self.engine.generate(user_input);
        let decision = self.policy_core.evaluate_text(user_input, raw.text.as_str());
        let text: String = match decision.kind {
            PolicyDecisionKind::Allow => raw.text.clone(),
            PolicyDecisionKind::SafeRespond => String::from_str(SAFE_HEAD).concat(
                raw.text.as_str(),
            ).concat(SAFE_TAIL),
            PolicyDecisionKind::Refuse => String::from_str(REFUSAL),
        };
        self.meta.record_decision(decision.kind);
        SimpleNodeOutput {
            text,
            policy_decision: decision.kind,
            mode: raw.mode,
            tokens_used: raw.estimated_tokens,
        }
    }
}

/// Marks an answer for display as softened: the trimmed answer, followed by
/// the safe-mode note.
pub fn safe_wrapper(output: &str) -> (marked: String)
    ensures
        marked@ == trimmed(output@) + SAFE_NOTE@,
{
    let mut text: Vec<char> = trim_chars(&chars_of(output));
    push_text(&mut text, SAFE_NOTE);
    string_of(&text)
}

/// A refused answer never leaves the node, and an allowed one leaves it
/// unchanged.
pub proof fn lemma_release(answer: Seq<char>)
    ensures
        released_text(PolicyDecisionKind::Refuse, answer) == REFUSAL@,
        released_text(PolicyDecisionKind::Allow, answer) == answer,
{
}

} // verus!
