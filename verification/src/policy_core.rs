//! Safety policy over a pair of user input and model output.
//!
//! The policy does not change a text: it says whether the output may be
//! returned as it is, has to be made safer, or has to be refused, and why. The
//! rules are tried in a fixed order and the first that fires decides.

use crate::neural_engine_lite::ModelOutput;
use crate::text::{
    chars_of, contains, contains_text, exceeds_bytes, is_blank, lowercase, lowercase_of,
    trim_range, utf8_len,
};
use vstd::prelude::*;
use vstd::string::StringExecFns;

verus! {

/// Pattern of a run of 13 to 16 digits, each possibly followed by blanks or
/// hyphens, between word boundaries: what a payment card number looks like.
pub const CARD_PATTERN: &'static str = r"\b(?:\d[ -]*?){13,16}\b";

/// Length in bytes above which an output is too long in strict mode.
pub const STRICT_OUTPUT_LIMIT: usize = 10_000;

/// What the policy decides.
#[derive(Debug, Clone, Copy, PartialEq, Eq, Structural)]
pub enum PolicyDecisionKind {
    /// The output may be returned as it is.
    Allow,
    /// The output has to be made safer.
    SafeRespond,
    /// The output has to be refused.
    Refuse,
}

/// The rule that decided.
#[derive(Debug, Clone, Copy, PartialEq, Eq, Structural)]
pub enum PolicyRule {
    /// The output is empty or blank.
    EmptyOutput,
    /// Input or output speaks of self-harm.
    SelfHarm,
    /// Input or output speaks of hacking or crime.
    Crime,
    /// Input or output holds what looks like a payment card number.
    SensitiveData,
    /// The output is too long for strict mode.
    TooLong,
    /// No rule fired.
    Clean,
}

impl PolicyRule {
    /// What each rule decides.
    pub open spec fn kind_spec(self) -> PolicyDecisionKind {
        match self {
            PolicyRule::EmptyOutput => PolicyDecisionKind::Refuse,
            PolicyRule::SelfHarm => PolicyDecisionKind::SafeRespond,
            PolicyRule::Crime => PolicyDecisionKind::Refuse,
            PolicyRule::SensitiveData => PolicyDecisionKind::SafeRespond,
            PolicyRule::TooLong => PolicyDecisionKind::SafeRespond,
            PolicyRule::Clean => PolicyDecisionKind::Allow,
        }
    }

    /// The reason each rule gives.
    pub open spec fn reason_spec(self) -> Seq<char> {
        match self {
            PolicyRule::EmptyOutput => "output vuoto o non valido"@,
            PolicyRule::SelfHarm => "rilevato contenuto self-harm"@,
            PolicyRule::Crime => "rilevato contenuto di hacking o crimine"@,
            PolicyRule::SensitiveData => "possibile dato sensibile rilevato"@,
            PolicyRule::TooLong => "risposta troppo lunga in modalità strict"@,
            PolicyRule::Clean => "nessuna violazione rilevata"@,
        }
    }

    /// What the rule decides.
    #[must_use]
    pub fn kind(&self) -> (k: PolicyDecisionKind)
        ensures
            k == self.kind_spec(),
    {
        match self {
            PolicyRule::EmptyOutput => PolicyDecisionKind::Refuse,
            PolicyRule::SelfHarm => PolicyDecisionKind::SafeRespond,
            PolicyRule::Crime => PolicyDecisionKind::Refuse,
            PolicyRule::SensitiveData => PolicyDecisionKind::SafeRespond,
            PolicyRule::TooLong => PolicyDecisionKind::SafeRespond,
            PolicyRule::Clean => PolicyDecisionKind::Allow,
        }
    }

    /// The reason the rule gives.
    #[must_use]
    pub fn reason(&self) -> (r: &'static str)
        ensures
            r@ == self.reason_spec(),
    {
        match self {
            PolicyRule::EmptyOutput => "output vuoto o non valido",
            PolicyRule::SelfHarm => "rilevato contenuto self-harm",
            PolicyRule::Crime => "rilevato contenuto di hacking o crimine",
            PolicyRule::SensitiveData => "possibile dato sensibile rilevato",
            PolicyRule::TooLong => "risposta troppo lunga in modalità strict",
            PolicyRule::Clean => "nessuna violazione rilevata",
        }
    }

    /// The decision that the rule stands for.
    #[must_use]
    pub fn decision(&self) -> (d: PolicyDecision)
        ensures
            d.states(*self),
    {
        PolicyDecision { kind: self.kind(), reason: String::from_str(self.reason()) }
    }
}

/// A decision with its reason.
#[derive(Debug, Clone)]
pub struct PolicyDecision {
    /// What was decided.
    pub kind: PolicyDecisionKind,
    /// Why, in words.
    pub reason: String,
}

impl PolicyDecision {
    /// Whether this is the decision of `rule`, with its reason.
    pub open spec fn states(&self, rule: PolicyRule) -> bool {
        self.kind == rule.kind_spec() && self.reason@ == rule.reason_spec()
    }
}

/// Whether the regular expression `pattern` matches somewhere in `haystack`,
/// as the `regex` crate decides it; `None` where the pattern does not compile.
pub uninterp spec fn pattern_match(pattern: Seq<char>, haystack: Seq<char>) -> Option<bool>;

/// Whether a lower-case text speaks of self-harm.
pub open spec fn mentions_self_harm(lower: Seq<char>) -> bool {
    contains_text(lower, "voglio uccidermi"@) || contains_text(lower, "farla finita"@)
}

/// Whether a lower-case text speaks of hacking or crime.
pub open spec fn mentions_crime(lower: Seq<char>) -> bool {
    ||| contains_text(lower, "ddos"@)
    ||| contains_text(lower, "sql injection"@)
    ||| contains_text(lower, "come bucare"@)
    ||| contains_text(lower, "exploit 0day"@)
    ||| contains_text(lower, "zero-day"@)
    ||| contains_text(lower, "ransomware"@)
}

/// The rule that decides, given the lower-case forms of input and output and
/// what the card pattern found in each. The rules in their order: a blank
/// output is refused; self-harm in either text asks for a safer answer; crime
/// in either text is refused; a card number in either text asks for a safer
/// answer; so does, in strict mode, an output of more than 10000 bytes.
pub open spec fn rule_given(
    strict: bool,
    output: Seq<char>,
    lower_input: Seq<char>,
    lower_output: Seq<char>,
    card_in_input: Option<bool>,
    card_in_output: Option<bool>,
) -> PolicyRule {
    if is_blank(output) {
        PolicyRule::EmptyOutput
    } else if mentions_self_harm(lower_input) || mentions_self_harm(lower_output) {
        PolicyRule::SelfHarm
    } else if mentions_crime(lower_input) || mentions_crime(lower_output) {
        PolicyRule::Crime
    } else if card_in_input == Some(true) || card_in_output == Some(true) {
        PolicyRule::SensitiveData
    } else if strict && utf8_len(output) > STRICT_OUTPUT_LIMIT {
        PolicyRule::TooLong
    } else {
        PolicyRule::Clean
    }
}

/// The rule that decides on a pair of input and output.
pub open spec fn rule_for(strict: bool, input: Seq<char>, output: Seq<char>) -> PolicyRule {
    rule_given(
        strict,
        output,
        lowercase_of(input),
        lowercase_of(output),
        pattern_match(CARD_PATTERN@, input),
        pattern_match(CARD_PATTERN@, output),
    )
}

/// Calls `regex::Regex::new` and, on the compiled expression,
/// `regex::Regex::is_match`: the result says whether `pattern` matches
/// somewhere in `haystack`, and is `None` where `pattern` does not compile.
#[verifier::external_body]
fn matches_pattern(pattern: &str, haystack: &str) -> (found: Option<bool>)
    ensures
        found == pattern_match(pattern@, haystack@),
{
    match regex::Regex::new(pattern) {
        Ok(expression) => Some(expression.is_match(haystack)),
        Err(_) => None,
    }
}

/// Whether a lower-case text speaks of self-harm.
pub fn finds_self_harm(lower: &Vec<char>) -> (b: bool)
    ensures
        b == mentions_self_harm(lower@),
{
    contains(lower, &chars_of("voglio uccidermi")) || contains(lower, &chars_of("farla finita"))
}

/// Whether a lower-case text speaks of hacking or crime.
pub fn finds_crime(lower: &Vec<char>) -> (b: bool)
    ensures
        b == mentions_crime(lower@),
{
    contains(lower, &chars_of("ddos")) || contains(lower, &chars_of("sql injection")) || contains(
        lower,
        &chars_of("come bucare"),
    ) || contains(lower, &chars_of("exploit 0day")) || contains(lower, &chars_of("zero-day"))
        || contains(lower, &chars_of("ransomware"))
}

/// The safety policy.
#[derive(Debug, Clone, Copy, Default)]
pub struct PolicyCore {
    strict_mode: bool,
}

impl PolicyCore {
    /// Whether strict mode is on.
    pub closed spec fn strict(&self) -> bool {
        self.strict_mode
    }

    /// A policy with strict mode on or off.
    #[must_use]
    pub fn new(strict_mode: bool) -> (p: Self)
        ensures
            p.strict() == strict_mode,
    {
        PolicyCore { strict_mode }
    }

    /// Switches strict mode on.
    pub fn enable_strict_mode(&mut self)
        ensures
            final(self).strict(),
    {
        self.strict_mode = true;
    }

    /// Whether strict mode is on.
    #[must_use]
    pub fn is_strict(&self) -> (b: bool)
        ensures
            b == self.strict(),
    {
        self.strict_mode
    }

    /// Decides on an output, given the lower-case forms of input and output
    /// and what the card pattern found in each.
    pub fn judge(
        &self,
        model_output: &str,
        lower_input: &str,
        lower_output: &str,
        card_in_input: Option<bool>,
        card_in_output: Option<bool>,
    ) -> (decision: PolicyDecision)
        ensures
            decision.states(
                rule_given(
                    self.strict(),
                    model_output@,
                    lower_input@,
                    lower_output@,
                    card_in_input,
                    card_in_output,
                ),
            ),
    {
        let output_chars = chars_of(model_output);
        let range = trim_range(&output_chars);
        if range.0 == range.1 {
            return PolicyRule::EmptyOutput.decision();
        }
        let lower_in = chars_of(lower_input);
        let lower_out = chars_of(lower_output);
        if finds_self_harm(&lower_in) || finds_self_harm(&lower_out) {
            return PolicyRule::SelfHarm.decision();
        }
        if finds_crime(&lower_in) || finds_crime(&lower_out) {
            return PolicyRule::Crime.decision();
        }
        let in_input: bool = match card_in_input {
            Some(found) => found,
            None => false,
        };
        let in_output: bool = match card_in_output {
            Some(found) => found,
            None => false,
        };
        if in_input || in_output {
            return PolicyRule::SensitiveData.decision();
        }
        if self.strict_mode && exceeds_bytes(&output_chars, STRICT_OUTPUT_LIMIT) {
            return PolicyRule::TooLong.decision();
        }
        PolicyRule::Clean.decision()
    }

    /// Decides whether `model_output` may answer `user_input`.
    ///
    /// Neither text is changed. Where the card pattern cannot be compiled, the
    /// rule on card numbers is passed over.
    pub fn evaluate_text(&self, user_input: &str, model_output: &str) -> (decision: PolicyDecision)
        ensures
            decision.states(rule_for(self.strict(), user_input@, model_output@)),
    {
        let lower_input: String = lowercase(user_input);
        let lower_output: String = lowercase(model_output);
        let card_in_input = matches_pattern(CARD_PATTERN, user_input);
        let card_in_output = matches_pattern(CARD_PATTERN, model_output);
        self.judge(
            model_output,
            lower_input.as_str(),
            lower_output.as_str(),
            card_in_input,
            card_in_output,
        )
    }

    /// Decides on an answer by itself, as the answer to an empty message.
    pub fn evaluate(&self, output: &ModelOutput) -> (decision: PolicyDecision)
        ensures
            decision.states(rule_for(self.strict(), Seq::<char>::empty(), output.text@)),
    {
        let nothing = String::new();
        self.evaluate_text(nothing.as_str(), output.text.as_str())
    }
}

/// A blank output is refused, whatever the input and the mode.
pub proof fn lemma_blank_output_is_refused(strict: bool, input: Seq<char>, output: Seq<char>)
    requires
        is_blank(output),
    ensures
        rule_for(strict, input, output) == PolicyRule::EmptyOutput,
        rule_for(strict, input, output).kind_spec() == PolicyDecisionKind::Refuse,
{
}

/// Strict mode never allows what the lenient mode does not allow.
pub proof fn lemma_strict_is_stricter(input: Seq<char>, output: Seq<char>)
    ensures
        rule_for(true, input, output).kind_spec() == PolicyDecisionKind::Allow ==> rule_for(
            false,
            input,
            output,
        ).kind_spec() == PolicyDecisionKind::Allow,
{
}

} // verus!
