//! Deterministic text engine that stands in for a language model.
//!
//! The engine looks at the shape of a message and answers from a template: a
//! welcome for an empty message, a numbered summary for a long one, a
//! structured answer for a question, and a short prompt for anything else.
//! The answer never takes more bytes than the configured limit.

use crate::text::{
    begins_with, chars_of, count_lines, count_words, decimal, decimal_of, exceeds_bytes,
    line_count, longest_prefix, lowercase, lowercase_of, prefix_within, push_chars, push_text,
    slice_of, starts_with, string_of, strip_hyphens, trim_chars, trimmed, utf8_len, utf8_len_in,
    views_of, without_hyphens, word_count,
};
use vstd::prelude::*;
use vstd::string::StringExecFns;

verus! {

/// A message of more bytes than this is long.
pub const LONG_INPUT_BYTES: usize = 200;

/// A message of more lines than this is long.
pub const LONG_INPUT_LINES: usize = 5;

/// Mark that ends a shortened answer.
pub const ELLIPSIS: char = '…';

/// Number of bytes of the mark that ends a shortened answer.
pub const ELLIPSIS_BYTES: usize = 3;

/// Start of the welcome, up to the assistant's name.
pub const WELCOME_HEAD: &'static str = "Ciao, sono ";

/// Rest of the welcome, after the assistant's name.
pub const WELCOME_TAIL: &'static str =
    ".\nPuoi incollare un testo, farmi una domanda o raccontarmi una situazione.\nIo cercherò di:\n- riassumere i punti importanti,\n- proporti qualche passo concreto,\n- rispondere in modo chiaro e sintetico.\n";

/// Start of the answer to a question, up to the quoted message.
pub const QUESTION_HEAD: &'static str = "Ho capito che mi stai facendo una domanda:\n\"";

/// Rest of the answer to a question, after the quoted message.
pub const QUESTION_TAIL: &'static str =
    "\"\n\nCome motore 'lite' non ho accesso a un modello enorme, però posso aiutarti a strutturare il ragionamento:\n\n1. Prova a chiarire l'obiettivo finale che vuoi raggiungere.\n2. Identifica quali informazioni ti mancano davvero.\n3. Elenca 2–3 azioni piccole che puoi fare oggi per avvicinarti alla risposta.\n\nSe vuoi, puoi specificare meglio il contesto (esempio: lavoro, studio, progetto personale) e posso darti passi ancora più concreti.";

/// Start of a summary, before the points.
pub const SUMMARY_HEAD: &'static str =
    "Ho letto il tuo messaggio (abbastanza lungo) e provo a riassumere i punti chiave:\n\n";

/// Line that stands for the points where none could be drawn.
pub const SUMMARY_NO_POINTS: &'static str =
    "- Non riesco a estrarre punti chiari, ma sembra che ci sia molta complessità.\n";

/// What separates the number of a point from its text.
pub const POINT_SEPARATOR: &'static str = ". ";

/// What ends a point.
pub const POINT_END: &'static str = "\n";

/// Rest of a summary, after the points.
pub const SUMMARY_TAIL: &'static str =
    "\nDa qui puoi chiederti:\n- qual è il punto che ti pesa di più in questo momento;\n- quale piccolo cambiamento puoi fare nelle prossime 24 ore;\n- che tipo di aiuto o informazione concreta ti servirebbe.\n\nSe vuoi, puoi zoomare su uno solo di questi punti e riscrivermelo in una o due frasi: ti risponderò in modo più mirato.";

/// Start of the answer to a short message, up to the quoted message.
pub const SHORT_HEAD: &'static str = "Ho letto quello che hai scritto:\n\"";

/// Rest of the answer to a short message, after the quoted message.
pub const SHORT_TAIL: &'static str =
    "\"\n\nNon essendo un modello enorme, non posso 'capire tutto', ma posso aiutarti a fare il passo successivo.\n\nProva a dirmi una di queste cose:\n- cosa ti aspetti come risultato,\n- cosa ti blocca di più in questo momento,\n- se preferisci un elenco di passi pratici o solo una riflessione.\n\nIn base a quello, posso suggerirti qualche azione concreta da provare subito.";

/// How an answer was made.
#[derive(Debug, Clone, Copy, PartialEq, Eq, Structural)]
pub enum ReplyMode {
    /// Short exchange: the welcome.
    SmallTalk,
    /// Answer to a question.
    QuestionAnswer,
    /// Summary of a long message, in points.
    Summary,
    /// Prompt toward a next step.
    Coaching,
}

/// Settings of the engine.
#[derive(Debug, Clone)]
pub struct NeuralEngineLiteConfig {
    /// Largest number of bytes of an answer.
    pub max_output_chars: usize,
    /// Largest number of points of a summary.
    pub max_bullets: usize,
    /// Name under which the engine introduces itself.
    pub assistant_name: String,
}

impl Default for NeuralEngineLiteConfig {
    /// Answers of at most 2000 bytes, summaries of at most 5 points, and the
    /// name "Samaritan Lite".
    fn default() -> (c: Self)
        ensures
            c.max_output_chars == 2_000,
            c.max_bullets == 5,
            c.assistant_name@ == "Samaritan Lite"@,
    {
        NeuralEngineLiteConfig {
            max_output_chars: 2_000,
            max_bullets: 5,
            assistant_name: String::from_str("Samaritan Lite"),
        }
    }
}

/// An answer of the engine.
#[derive(Debug, Clone)]
pub struct ModelOutput {
    /// The text of the answer.
    pub text: String,
    /// Rough count of the words of message and answer.
    pub estimated_tokens: usize,
    /// How the answer was made.
    pub mode: ReplyMode,
}

/// Whether a character ends a sentence.
pub open spec fn ends_sentence(c: char) -> bool {
    c == '.' || c == '!' || c == '?'
}

/// Where the sentence begins that is open after the first `upto` characters.
pub open spec fn open_start(text: Seq<char>, upto: int) -> int
    decreases upto,
{
    if upto <= 0 {
        0
    } else if ends_sentence(text[upto - 1]) {
        upto
    } else {
        open_start(text, upto - 1)
    }
}

/// The sentences that end within the first `upto` characters, each trimmed,
/// blank ones left out.
pub open spec fn closed_sentences(text: Seq<char>, upto: int) -> Seq<Seq<char>>
    decreases upto,
{
    if upto <= 0 {
        Seq::<Seq<char>>::empty()
    } else {
        let before = closed_sentences(text, upto - 1);
        if ends_sentence(text[upto - 1]) {
            let piece = trimmed(text.subrange(open_start(text, upto - 1), upto));
            if piece.len() > 0 {
                before.push(piece)
            } else {
                before
            }
        } else {
            before
        }
    }
}

/// The sentences of a text: it is cut after every full stop, exclamation mark
/// and question mark; each piece is trimmed, and blank pieces are left out.
pub open spec fn sentences_of(text: Seq<char>) -> Seq<Seq<char>> {
    let closed = closed_sentences(text, text.len() as int);
    let rest = trimmed(text.subrange(open_start(text, text.len() as int), text.len() as int));
    if rest.len() > 0 {
        closed.push(rest)
    } else {
        closed
    }
}

/// A sentence made into a point: trimmed, freed of hyphens at both ends, and
/// trimmed again.
pub open spec fn cleaned(sentence: Seq<char>) -> Seq<char> {
    trimmed(without_hyphens(trimmed(sentence)))
}

/// The points drawn from the first `upto` sentences, empty ones left out.
pub open spec fn points_in(sentences: Seq<Seq<char>>, upto: int) -> Seq<Seq<char>>
    decreases upto,
{
    if upto <= 0 {
        Seq::<Seq<char>>::empty()
    } else {
        let before = points_in(sentences, upto - 1);
        let point = cleaned(sentences[upto - 1]);
        if point.len() > 0 {
            before.push(point)
        } else {
            before
        }
    }
}

/// The points of a summary: drawn from the first `max_bullets` sentences.
pub open spec fn points_of(sentences: Seq<Seq<char>>, max_bullets: nat) -> Seq<Seq<char>> {
    points_in(
        sentences,
        if max_bullets < sentences.len() {
            max_bullets as int
        } else {
            sentences.len() as int
        },
    )
}

/// The first `upto` points, each on a line of its own, numbered from one.
pub open spec fn numbered(points: Seq<Seq<char>>, upto: int) -> Seq<char>
    decreases upto,
{
    if upto <= 0 {
        Seq::<char>::empty()
    } else {
        numbered(points, upto - 1) + decimal(upto as nat) + POINT_SEPARATOR@ + points[upto - 1]
            + POINT_END@
    }
}

/// The welcome of an assistant of the given name.
pub open spec fn welcome_text(name: Seq<char>) -> Seq<char> {
    WELCOME_HEAD@ + name + WELCOME_TAIL@
}

/// The answer to a question.
pub open spec fn question_text(message: Seq<char>) -> Seq<char> {
    QUESTION_HEAD@ + message + QUESTION_TAIL@
}

/// The answer to a short message.
pub open spec fn short_text(message: Seq<char>) -> Seq<char> {
    SHORT_HEAD@ + message + SHORT_TAIL@
}

/// The summary of a long message, with at most `max_bullets` points.
pub open spec fn summary_text(message: Seq<char>, max_bullets: nat) -> Seq<char> {
    let points = points_of(sentences_of(message), max_bullets);
    SUMMARY_HEAD@ + (if points.len() == 0 {
        SUMMARY_NO_POINTS@
    } else {
        numbered(points, points.len() as int)
    }) + SUMMARY_TAIL@
}

/// Whether a trimmed message is long: more than 200 bytes or more than 5 lines.
pub open spec fn is_long(message: Seq<char>) -> bool {
    utf8_len(message) > LONG_INPUT_BYTES || line_count(message) > LONG_INPUT_LINES
}

/// Whether a trimmed message looks like a question: it ends with a question
/// mark, or its lower-case form begins with a question word.
pub open spec fn is_question(message: Seq<char>, lower: Seq<char>) -> bool {
    ||| (message.len() > 0 && message.last() == '?')
    ||| begins_with(lower, "come "@)
    ||| begins_with(lower, "cosa "@)
    ||| begins_with(lower, "perché "@)
    ||| begins_with(lower, "perche "@)
    ||| begins_with(lower, "quando "@)
    ||| begins_with(lower, "dove "@)
    ||| begins_with(lower, "chi "@)
}

/// How a trimmed message is answered.
pub open spec fn mode_of(message: Seq<char>, lower: Seq<char>) -> ReplyMode {
    if message.len() == 0 {
        ReplyMode::SmallTalk
    } else if is_long(message) {
        ReplyMode::Summary
    } else if is_question(message, lower) {
        ReplyMode::QuestionAnswer
    } else {
        ReplyMode::Coaching
    }
}

/// A text held to at most `max` bytes: left as it is if it fits; else its
/// longest prefix that, with the ellipsis, fits; for a limit too small for the
/// ellipsis, its longest prefix that fits.
pub open spec fn limited(text: Seq<char>, max: nat) -> Seq<char> {
    if utf8_len(text) <= max {
        text
    } else if max < ELLIPSIS_BYTES {
        text.take(longest_prefix(text, max))
    } else {
        text.take(longest_prefix(text, (max - ELLIPSIS_BYTES) as nat)).push(ELLIPSIS)
    }
}

/// The text that answers a trimmed message.
pub open spec fn answer_text(
    message: Seq<char>,
    lower: Seq<char>,
    name: Seq<char>,
    max_bullets: nat,
    max_output: nat,
) -> Seq<char> {
    match mode_of(message, lower) {
        ReplyMode::SmallTalk => welcome_text(name),
        ReplyMode::Summary => limited(summary_text(message, max_bullets), max_output),
        ReplyMode::QuestionAnswer => limited(question_text(message), max_output),
        ReplyMode::Coaching => limited(short_text(message), max_output),
    }
}

/// The rough token count of a message and its answer: their words, added up
/// and capped at `usize::MAX`.
pub open spec fn token_estimate(message: Seq<char>, answer: Seq<char>) -> nat {
    if word_count(message) + word_count(answer) > usize::MAX {
        usize::MAX as nat
    } else {
        word_count(message) + word_count(answer)
    }
}

/// The sentences of a text.
pub fn split_sentences(text: &Vec<char>) -> (sentences: Vec<Vec<char>>)
    ensures
        views_of(sentences@) == sentences_of(text@),
{
    let mut sentences: Vec<Vec<char>> = Vec::new();
    let mut start: usize = 0;
    let mut i: usize = 0;
    assert(views_of(sentences@) =~= closed_sentences(text@, 0));
    while i < text.len()
        invariant
            start <= i <= text@.len(),
            start == open_start(text@, i as int),
            views_of(sentences@) == closed_sentences(text@, i as int),
        decreases text@.len() - i,
    {
        let c: char = text[i];
        if c == '.' || c == '!' || c == '?' {
            let piece: Vec<char> = trim_chars(&slice_of(text, start, i + 1));
            if piece.len() > 0 {
                let ghost before = views_of(sentences@);
                sentences.push(piece);
                assert(views_of(sentences@) =~= before.push(piece@));
            }
            start = i + 1;
        }
        i = i + 1;
    }
    let rest: Vec<char> = trim_chars(&slice_of(text, start, text.len()));
    if rest.len() > 0 {
        let ghost before = views_of(sentences@);
        sentences.push(rest);
        assert(views_of(sentences@) =~= before.push(rest@));
    }
    sentences
}

/// The points of a summary, drawn from the first `max_bullets` sentences.
pub fn build_bullets_from_sentences(sentences: &Vec<Vec<char>>, max_bullets: usize) -> (points: Vec<
    Vec<char>,
>)
    ensures
        views_of(points@) == points_of(views_of(sentences@), max_bullets as nat),
{
    let mut points: Vec<Vec<char>> = Vec::new();
    let limit: usize = if max_bullets < sentences.len() {
        max_bullets
    } else {
        sentences.len()
    };
    let mut i: usize = 0;
    assert(views_of(points@) =~= points_in(views_of(sentences@), 0));
    while i < limit
        invariant
            i <= limit <= sentences@.len(),
            views_of(points@) == points_in(views_of(sentences@), i as int),
        decreases limit - i,
    {
        let point: Vec<char> = trim_chars(&strip_hyphens(&trim_chars(&sentences[i])));
        assert(point@ == cleaned(views_of(sentences@)[i as int]));
        if point.len() > 0 {
            let ghost before = views_of(points@);
            points.push(point);
            assert(views_of(points@) =~= before.push(point@));
        }
        i = i + 1;
    }
    points
}

/// A text held to at most `max` bytes.
pub fn limit_length(text: &Vec<char>, max: usize) -> (held: Vec<char>)
    ensures
        held@ == limited(text@, max as nat),
{
    let whole: usize = prefix_within(text, max);
    if whole == text.len() {
        proof {
            assert(utf8_len(text@) <= max);
        }
        return slice_of(text, 0, text.len());
    }
    proof {
        crate::text::lemma_utf8_len_in_grows(text@, whole + 1, text@.len() as int);
    }
    if max < ELLIPSIS_BYTES {
        let held = slice_of(text, 0, whole);
        assert(held@ =~= text@.take(whole as int));
        return held;
    }
    let kept: usize = prefix_within(text, max - ELLIPSIS_BYTES);
    let mut held = slice_of(text, 0, kept);
    assert(held@ =~= text@.take(kept as int));
    held.push(ELLIPSIS);
    held
}

/// The rough token count of a message and its answer.
pub fn estimate_tokens(message: &Vec<char>, answer: &Vec<char>) -> (n: usize)
    ensures
        n == token_estimate(message@, answer@),
{
    count_words(message).saturating_add(count_words(answer))
}

/// Whether a trimmed message looks like a question.
pub fn looks_like_question(message: &Vec<char>, lower: &Vec<char>) -> (b: bool)
    ensures
        b == is_question(message@, lower@),
{
    (message.len() > 0 && message[message.len() - 1] == '?') || starts_with(lower, &chars_of("come "))
        || starts_with(lower, &chars_of("cosa ")) || starts_with(lower, &chars_of("perché "))
        || starts_with(lower, &chars_of("perche ")) || starts_with(lower, &chars_of("quando "))
        || starts_with(lower, &chars_of("dove ")) || starts_with(lower, &chars_of("chi "))
}

/// Whether a trimmed message is long.
pub fn looks_long(message: &Vec<char>) -> (b: bool)
    ensures
        b == is_long(message@),
{
    exceeds_bytes(message, LONG_INPUT_BYTES) || count_lines(message) > LONG_INPUT_LINES
}

/// The engine.
#[derive(Debug, Clone)]
pub struct NeuralEngineLite {
    config: NeuralEngineLiteConfig,
}

impl NeuralEngineLite {
    /// The settings of the engine.
    pub closed spec fn settings(&self) -> NeuralEngineLiteConfig {
        self.config
    }

    /// Whether `output` is the answer of this engine to the trimmed message
    /// `message` whose lower-case form is `lower`.
    pub open spec fn answers(&self, output: ModelOutput, message: Seq<char>, lower: Seq<char>) -> bool {
        &&& output.mode == mode_of(message, lower)
        &&& output.text@ == answer_text(
            message,
            lower,
            self.settings().assistant_name@,
            self.settings().max_bullets as nat,
            self.settings().max_output_chars as nat,
        )
        &&& output.estimated_tokens == token_estimate(message, output.text@)
    }

    /// An engine with the given settings.
    pub fn new(config: NeuralEngineLiteConfig) -> (e: Self)
        ensures
            e.settings() == config,
    {
        NeuralEngineLite { config }
    }

    /// An engine with the default settings.
    pub fn new_default() -> (e: Self)
        ensures
            e.settings().max_output_chars == 2_000,
            e.settings().max_bullets == 5,
            e.settings().assistant_name@ == "Samaritan Lite"@,
    {
        NeuralEngineLite { config: NeuralEngineLiteConfig::default() }
    }

    /// The settings of the engine.
    pub fn config(&self) -> (c: &NeuralEngineLiteConfig)
        ensures
            *c == self.settings(),
    {
        &self.config
    }

    /// The welcome, for an empty message.
    pub fn welcome_message(&self) -> (text: Vec<char>)
        ensures
            text@ == welcome_text(self.settings().assistant_name@),
    {
        let mut text: Vec<char> = chars_of(WELCOME_HEAD);
        push_text(&mut text, self.config.assistant_name.as_str());
        push_text(&mut text, WELCOME_TAIL);
        text
    }

    /// The answer to a question.
    pub fn question_answer_style_reply(&self, message: &Vec<char>) -> (text: Vec<char>)
        ensures
            text@ == question_text(message@),
    {
        let mut text: Vec<char> = chars_of(QUESTION_HEAD);
        push_chars(&mut text, message);
        push_text(&mut text, QUESTION_TAIL);
        text
    }

    /// The answer to a short message.
    pub fn small_talk_style_reply(&self, message: &Vec<char>) -> (text: Vec<char>)
        ensures
            text@ == short_text(message@),
    {
        let mut text: Vec<char> = chars_of(SHORT_HEAD);
        push_chars(&mut text, message);
        push_text(&mut text, SHORT_TAIL);
        text
    }

    /// The summary of a long message.
    pub fn summary_style_reply(&self, message: &Vec<char>) -> (text: Vec<char>)
        ensures
            text@ == summary_text(message@, self.settings().max_bullets as nat),
    {
        let sentences = split_sentences(message);
        let points = build_bullets_from_sentences(&sentences, self.config.max_bullets);
        let mut text: Vec<char> = chars_of(SUMMARY_HEAD);
        if points.len() == 0 {
            push_text(&mut text, SUMMARY_NO_POINTS);
        } else {
            let ghost listed = views_of(points@);
            let mut i: usize = 0;
            assert(text@ =~= SUMMARY_HEAD@ + numbered(listed, 0));
            while i < points.len()
                invariant
                    i <= points@.len(),
                    listed == views_of(points@),
                    text@ == SUMMARY_HEAD@ + numbered(listed, i as int),
                decreases points@.len() - i,
            {
                let ghost before = text@;
                push_chars(&mut text, &decimal_of(i + 1));
                push_text(&mut text, POINT_SEPARATOR);
                push_chars(&mut text, &points[i]);
                push_text(&mut text, POINT_END);
                assert(text@ =~= SUMMARY_HEAD@ + numbered(listed, i + 1)) by {
                    assert(listed[i as int] == points@[i as int]@);
                    assert(text@ =~= before + decimal((i + 1) as nat) + POINT_SEPARATOR@
                        + points@[i as int]@ + POINT_END@);
                }
                i = i + 1;
            }
        }
        push_text(&mut text, SUMMARY_TAIL);
        text
    }

    /// Answers a trimmed message whose lower-case form is `lower`.
    pub fn reply_to(&self, message: &Vec<char>, lower: &Vec<char>) -> (output: ModelOutput)
        ensures
            self.answers(output, message@, lower@),
    {
        if message.len() == 0 {
            let text = self.welcome_message();
            let estimated_tokens = estimate_tokens(message, &text);
            return ModelOutput { text: string_of(&text), estimated_tokens, mode: ReplyMode::SmallTalk };
        }
        let mode: ReplyMode;
        let raw: Vec<char>;
        if looks_long(message) {
            raw = self.summary_style_reply(message);
            mode = ReplyMode::Summary;
        } else if looks_like_question(message, lower) {
            raw = self.question_answer_style_reply(message);
            mode = ReplyMode::QuestionAnswer;
        } else {
            raw = self.small_talk_style_reply(message);
            mode = ReplyMode::Coaching;
        }
        let held = limit_length(&raw, self.config.max_output_chars);
        let estimated_tokens = estimate_tokens(message, &held);
        ModelOutput { text: string_of(&held), estimated_tokens, mode }
    }

    /// Answers a message.
    ///
    /// The message is trimmed first. The same message always gets the same
    /// answer.
    pub fn generate(&mut self, user_input: &str) -> (output: ModelOutput)
        ensures
            final(self).settings() == old(self).settings(),
            old(self).answers(output, trimmed(user_input@), lowercase_of(trimmed(user_input@))),
    {
        let message: Vec<char> = trim_chars(&chars_of(user_input));
        let lower: String = lowercase(string_of(&message).as_str());
        self.reply_to(&message, &chars_of(lower.as_str()))
    }
}

/// An answer that was held to a limit takes no more bytes than the limit.
pub proof fn lemma_limited_fits(text: Seq<char>, max: nat)
    ensures
        utf8_len(limited(text, max)) <= max,
{
    if utf8_len(text) > max {
        let budget: nat = if max < ELLIPSIS_BYTES {
            max
        } else {
            (max - ELLIPSIS_BYTES) as nat
        };
        let k = longest_prefix(text, budget);
        lemma_longest_prefix_fits(text, budget, 0);
        crate::text::lemma_utf8_len_of_prefix(text, k, k);
        if max >= ELLIPSIS_BYTES {
            let held = text.take(k).push(ELLIPSIS);
            assert(held.len() == k + 1);
            assert(held.take(k) =~= text.take(k));
            crate::text::lemma_utf8_len_of_prefix(held, k, k);
            assert(utf8_len_in(held, k) == utf8_len_in(held.take(k), k));
            assert(held[k] == ELLIPSIS);
            assert(crate::text::utf8_width(ELLIPSIS) == 3);
        }
    }
}

/// The answer to a message that is not empty takes no more bytes than the
/// configured limit. Only the welcome is never shortened.
pub proof fn lemma_answer_fits(
    message: Seq<char>,
    lower: Seq<char>,
    name: Seq<char>,
    max_bullets: nat,
    max_output: nat,
)
    requires
        message.len() > 0,
    ensures
        utf8_len(answer_text(message, lower, name, max_bullets, max_output)) <= max_output,
{
    lemma_limited_fits(summary_text(message, max_bullets), max_output);
    lemma_limited_fits(question_text(message), max_output);
    lemma_limited_fits(short_text(message), max_output);
}

/// The longest prefix within a budget is a prefix, and it is within the budget.
pub proof fn lemma_longest_prefix_fits(text: Seq<char>, budget: nat, from: int)
    requires
        0 <= from <= text.len(),
        utf8_len_in(text, from) <= budget,
    ensures
        from <= crate::text::longest_prefix_from(text, budget, from) <= text.len(),
        utf8_len_in(text, crate::text::longest_prefix_from(text, budget, from)) <= budget,
    decreases text.len() - from,
{
    if from < text.len() && utf8_len_in(text, from + 1) <= budget {
        lemma_longest_prefix_fits(text, budget, from + 1);
    }
}

} // verus!
