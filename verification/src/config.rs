//! Settings of a simple node, and how they are read from text.
//!
//! The values come from the environment of the process. Fetching them is the
//! caller's part; what a value means is decided here.

use crate::text::{
    ascii_lowercase, chars_of, same_text, to_ascii_lowercase, trim_chars, trimmed,
};
use vstd::prelude::*;

verus! {

/// Largest number of bytes of an answer where none is configured.
pub const DEFAULT_MAX_OUTPUT_CHARS: usize = 2_000;

/// Settings of a simple node.
#[derive(Debug, Clone, Copy, PartialEq, Eq, Structural)]
pub struct SimpleNodeConfig {
    /// Whether the policy is strict.
    pub strict_mode: bool,
    /// Largest number of bytes of an answer.
    pub max_output_chars: usize,
}

/// Why settings could not be read.
#[derive(Debug, Clone, Copy, PartialEq, Eq, Structural)]
pub enum ConfigError {
    /// The limit on the output is not a number that fits a machine word.
    InvalidMaxOutputChars,
    /// The limit on the output is zero.
    ZeroMaxOutputChars,
}

impl ConfigError {
    /// The error in words.
    #[must_use]
    pub fn message(&self) -> (s: &'static str)
        ensures
            s@ == match *self {
                ConfigError::InvalidMaxOutputChars => "Invalid value for max output chars"@,
                ConfigError::ZeroMaxOutputChars => "max_output_chars must be > 0"@,
            },
    {
        match self {
            ConfigError::InvalidMaxOutputChars => "Invalid value for max output chars",
            ConfigError::ZeroMaxOutputChars => "max_output_chars must be > 0",
        }
    }
}

/// Whether a text reads as "true": trimmed and lower-cased, it is one of
/// `1`, `true`, `yes` and `on`.
pub open spec fn reads_as_true(raw: Seq<char>) -> bool {
    let v = ascii_lowercase(trimmed(raw));
    v == "1"@ || v == "true"@ || v == "yes"@ || v == "on"@
}

/// Whether a character is a decimal digit.
pub open spec fn is_digit(c: char) -> bool {
    '0' <= c <= '9'
}

/// The value of a decimal digit.
pub open spec fn digit_value(c: char) -> nat {
    (c as u8 - 48) as nat
}

/// Whether every character of `s` is a decimal digit.
pub open spec fn all_digits(s: Seq<char>) -> bool {
    forall|i: int| 0 <= i < s.len() ==> is_digit(#[trigger] s[i])
}

/// The number that a run of decimal digits stands for.
pub open spec fn digits_value(s: Seq<char>) -> nat
    decreases s.len(),
{
    if s.len() == 0 {
        0
    } else {
        digits_value(s.drop_last()) * 10 + digit_value(s.last())
    }
}

/// The digits of a numeral: the numeral without a leading plus sign.
pub open spec fn digits_of(s: Seq<char>) -> Seq<char> {
    if s.len() > 0 && s[0] == '+' {
        s.drop_first()
    } else {
        s
    }
}

/// The number that a text stands for: an optional plus sign and at least one
/// decimal digit, nothing else, and a value that fits a machine word.
pub open spec fn number_of(s: Seq<char>) -> Option<usize> {
    let digits = digits_of(s);
    if digits.len() > 0 && all_digits(digits) && digits_value(digits) <= usize::MAX {
        Some(digits_value(digits) as usize)
    } else {
        None
    }
}

/// What the settings are, given the raw values of the two variables, each
/// absent or a text.
pub open spec fn settings_from(
    strict_mode: Option<Seq<char>>,
    max_output_chars: Option<Seq<char>>,
) -> Result<SimpleNodeConfig, ConfigError> {
    let strict = match strict_mode {
        Some(raw) => reads_as_true(raw),
        None => false,
    };
    match max_output_chars {
        None => Ok(SimpleNodeConfig { strict_mode: strict, max_output_chars: DEFAULT_MAX_OUTPUT_CHARS }),
        Some(raw) => match number_of(trimmed(raw)) {
            None => Err(ConfigError::InvalidMaxOutputChars),
            Some(value) => if value == 0 {
                Err(ConfigError::ZeroMaxOutputChars)
            } else {
                Ok(SimpleNodeConfig { strict_mode: strict, max_output_chars: value })
            },
        },
    }
}

/// The first value that is set among the first `upto` of `values`.
pub open spec fn first_set_in(values: Seq<Option<String>>, upto: int) -> Option<String>
    decreases upto,
{
    if upto <= 0 {
        None
    } else {
        match first_set_in(values, upto - 1) {
            Some(value) => Some(value),
            None => values[upto - 1],
        }
    }
}

/// The first value that is set among `values`, which are the values of the
/// variables of several names for one setting, in the order of preference.
pub fn first_set(values: &Vec<Option<String>>) -> (value: Option<String>)
    ensures
        value == first_set_in(values@, values@.len() as int),
{
    let mut i: usize = 0;
    while i < values.len()
        invariant
            i <= values@.len(),
            first_set_in(values@, i as int) is None,
        decreases values@.len() - i,
    {
        match &values[i] {
            Some(value) => {
                proof {
                    lemma_first_set_stays(values@, i + 1, values@.len() as int);
                }
                return Some(value.clone());
            },
            None => {},
        }
        i = i + 1;
    }
    None
}

/// Once a value is found among the first values, it stays the first.
proof fn lemma_first_set_stays(values: Seq<Option<String>>, from: int, upto: int)
    requires
        0 <= from <= upto,
        first_set_in(values, from) is Some,
    ensures
        first_set_in(values, upto) == first_set_in(values, from),
    decreases upto - from,
{
    if from < upto {
        lemma_first_set_stays(values, from, upto - 1);
    }
}

/// Whether a text reads as "true". Anything that is not `1`, `true`, `yes` or
/// `on`, in any case and with any whitespace around it, reads as "false".
pub fn parse_bool(raw: &str) -> (b: bool)
    ensures
        b == reads_as_true(raw@),
{
    let v: Vec<char> = to_ascii_lowercase(&trim_chars(&chars_of(raw)));
    same_text(&v, &chars_of("1")) || same_text(&v, &chars_of("true")) || same_text(
        &v,
        &chars_of("yes"),
    ) || same_text(&v, &chars_of("on"))
}

/// The value of a run of digits is at least the value of each of its prefixes.
proof fn lemma_digits_value_grows(s: Seq<char>, k: int)
    requires
        0 <= k <= s.len(),
    ensures
        digits_value(s.take(k)) <= digits_value(s),
    decreases s.len() - k,
{
    if k < s.len() {
        lemma_digits_value_grows(s, k + 1);
        assert(s.take(k + 1).drop_last() =~= s.take(k));
    } else {
        assert(s.take(k) =~= s);
    }
}

/// The number that a text stands for.
pub fn parse_number(s: &Vec<char>) -> (n: Option<usize>)
    ensures
        n == number_of(s@),
{
    let start: usize = if s.len() > 0 && s[0] == '+' {
        1
    } else {
        0
    };
    if start == s.len() {
        return None;
    }
    let ghost digits = digits_of(s@);
    assert(digits =~= s@.skip(start as int));
    let mut value: usize = 0;
    let mut i: usize = start;
    assert(digits.take(0) =~= Seq::<char>::empty());
    while i < s.len()
        invariant
            start <= i <= s@.len(),
            start <= 1,
            digits == s@.skip(start as int),
            digits == digits_of(s@),
            all_digits(digits.take(i - start)),
            value == digits_value(digits.take(i - start)),
        decreases s@.len() - i,
    {
        let c: char = s[i];
        let ghost k = i - start;
        proof {
            assert(digits[k] == c);
            assert(digits.take(k + 1).drop_last() =~= digits.take(k));
            assert(digits.take(k + 1).last() == c);
        }
        if !('0' <= c && c <= '9') {
            assert(!is_digit(digits[k]));
            return None;
        }
        let d: usize = (c as u8 - 48) as usize;
        assert(digits_value(digits.take(k + 1)) == value * 10 + d);
        let next: Option<usize> = match value.checked_mul(10) {
            Some(tenfold) => tenfold.checked_add(d),
            None => None,
        };
        match next {
            Some(v) => {
                value = v;
            },
            None => {
                proof {
                    lemma_digits_value_grows(digits, k + 1);
                }
                return None;
            },
        }
        proof {
            assert forall|j: int| 0 <= j < k + 1 implies is_digit(
                #[trigger] digits.take(k + 1)[j],
            ) by {
                if j < k {
                    assert(digits.take(k)[j] == digits.take(k + 1)[j]);
                }
            }
        }
        i = i + 1;
    }
    assert(digits.take(i - start) =~= digits);
    Some(value)
}

impl SimpleNodeConfig {
    /// Settings with the given values.
    #[must_use]
    pub fn new(strict_mode: bool, max_output_chars: usize) -> (c: Self)
        ensures
            c == (SimpleNodeConfig { strict_mode, max_output_chars }),
    {
        SimpleNodeConfig { strict_mode, max_output_chars }
    }

    /// The settings that the environment asks for.
    ///
    /// `strict_mode` and `max_output_chars` are the raw values of the two
    /// variables, absent where a variable is not set. An absent variable
    /// leaves the default. The limit has to be a positive number.
    pub fn from_env(strict_mode: Option<&str>, max_output_chars: Option<&str>) -> (r: Result<
        Self,
        ConfigError,
    >)
        ensures
            r == settings_from(
                match strict_mode {
                    Some(raw) => Some(raw@),
                    None => None,
                },
                match max_output_chars {
                    Some(raw) => Some(raw@),
                    None => None,
                },
            ),
    {
        let mut cfg = SimpleNodeConfig::default();
        match strict_mode {
            Some(raw) => {
                cfg.strict_mode = parse_bool(raw);
            },
            None => {},
        }
        match max_output_chars {
            Some(raw) => {
                match parse_number(&trim_chars(&chars_of(raw))) {
                    Some(value) => {
                        if value == 0 {
                            return Err(ConfigError::ZeroMaxOutputChars);
                        }
                        cfg.max_output_chars = value;
                    },
                    None => {
                        return Err(ConfigError::InvalidMaxOutputChars);
                    },
                }
            },
            None => {},
        }
        Ok(cfg)
    }
}

impl Default for SimpleNodeConfig {
    /// Lenient policy and answers of at most 2000 bytes.
    fn default() -> (c: Self)
        ensures
            c == (SimpleNodeConfig {
                strict_mode: false,
                max_output_chars: DEFAULT_MAX_OUTPUT_CHARS,
            }),
    {
        SimpleNodeConfig { strict_mode: false, max_output_chars: DEFAULT_MAX_OUTPUT_CHARS }
    }
}

} // verus!
