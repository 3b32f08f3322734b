//! Text helpers over sequences of characters.
//!
//! A text is looked at as the sequence of its characters. Whitespace is what
//! the Unicode property White_Space lists.

use vstd::prelude::*;

verus! {

/// Whether `c` is a whitespace character.
pub open spec fn is_space(c: char) -> bool {
    let u = c as u32;
    ||| 0x09 <= u <= 0x0D
    ||| u == 0x20
    ||| u == 0x85
    ||| u == 0xA0
    ||| u == 0x1680
    ||| 0x2000 <= u <= 0x200A
    ||| u == 0x2028
    ||| u == 0x2029
    ||| u == 0x202F
    ||| u == 0x205F
    ||| u == 0x3000
}

/// Whether every character of `s` is whitespace.
pub open spec fn is_blank(s: Seq<char>) -> bool {
    forall|i: int| 0 <= i < s.len() ==> is_space(#[trigger] s[i])
}

/// Whether `needle` stands in `hay` at position `i`.
pub open spec fn occurs_at(hay: Seq<char>, needle: Seq<char>, i: int) -> bool {
    0 <= i && i + needle.len() <= hay.len() && hay.subrange(i, i + needle.len()) == needle
}

/// Whether `needle` stands somewhere in `hay`.
pub open spec fn contains_text(hay: Seq<char>, needle: Seq<char>) -> bool {
    exists|i: int| occurs_at(hay, needle, i)
}

/// Whether `hay` begins with `prefix`.
pub open spec fn begins_with(hay: Seq<char>, prefix: Seq<char>) -> bool {
    occurs_at(hay, prefix, 0)
}

/// Index of the first character of `s` that is not whitespace, or the length
/// of `s` if it is blank.
pub open spec fn trim_start_index(s: Seq<char>) -> int
    decreases s.len(),
{
    if s.len() == 0 || !is_space(s[0]) {
        0
    } else {
        1 + trim_start_index(s.drop_first())
    }
}

/// Index after the last character of `s` that is not whitespace, or zero if
/// `s` is blank.
pub open spec fn trim_end_index(s: Seq<char>) -> int
    decreases s.len(),
{
    if s.len() == 0 || !is_space(s.last()) {
        s.len() as int
    } else {
        trim_end_index(s.drop_last())
    }
}

/// `s` without its leading and trailing whitespace.
pub open spec fn trimmed(s: Seq<char>) -> Seq<char> {
    if is_blank(s) {
        Seq::<char>::empty()
    } else {
        s.subrange(trim_start_index(s), trim_end_index(s))
    }
}

/// Number of words among the first `upto` characters of `s`: a word is a
/// longest run of characters that are not whitespace, and it is counted where
/// it begins.
pub open spec fn words_in(s: Seq<char>, upto: int) -> nat
    decreases upto,
{
    if upto <= 0 {
        0
    } else {
        words_in(s, upto - 1) + if !is_space(s[upto - 1]) && (upto == 1 || is_space(s[upto - 2])) {
            1nat
        } else {
            0nat
        }
    }
}

/// Number of words of `s`.
pub open spec fn word_count(s: Seq<char>) -> nat {
    words_in(s, s.len() as int)
}

/// Number of line feeds among the first `upto` characters of `s`.
pub open spec fn line_feeds_in(s: Seq<char>, upto: int) -> nat
    decreases upto,
{
    if upto <= 0 {
        0
    } else {
        line_feeds_in(s, upto - 1) + if s[upto - 1] == '\n' {
            1nat
        } else {
            0nat
        }
    }
}

/// Number of lines of `s`: one per line feed, and one more for a last line
/// that no line feed ends.
pub open spec fn line_count(s: Seq<char>) -> nat {
    line_feeds_in(s, s.len() as int) + if s.len() > 0 && s.last() != '\n' {
        1nat
    } else {
        0nat
    }
}

/// `c` in lower case if it is an ASCII capital letter, else `c`.
pub open spec fn ascii_lower(c: char) -> char {
    if 'A' <= c <= 'Z' {
        ((c as u8) + 32) as char
    } else {
        c
    }
}

/// `s` with every ASCII capital letter in lower case.
pub open spec fn ascii_lowercase(s: Seq<char>) -> Seq<char> {
    Seq::new(s.len(), |i: int| ascii_lower(s[i]))
}

/// The characters of `s`, in order.
pub fn chars_of(s: &str) -> (v: Vec<char>)
    ensures
        v@ == s@,
{
    let mut v: Vec<char> = Vec::new();
    for c in it: s.chars()
        invariant
            v@ == it.seq().take(it.index@),
    {
        v.push(c);
    }
    v
}

/// Whether `c` is a whitespace character.
pub fn is_whitespace(c: char) -> (b: bool)
    ensures
        b == is_space(c),
{
    let u: u32 = c as u32;
    (0x09 <= u && u <= 0x0D) || u == 0x20 || u == 0x85 || u == 0xA0 || u == 0x1680 || (0x2000 <= u
        && u <= 0x200A) || u == 0x2028 || u == 0x2029 || u == 0x202F || u == 0x205F || u == 0x3000
}

/// Whether `needle` stands in `hay` at position `at`.
pub fn matches_at(hay: &Vec<char>, needle: &Vec<char>, at: usize) -> (b: bool)
    ensures
        b == occurs_at(hay@, needle@, at as int),
{
    if needle.len() > hay.len() || at > hay.len() - needle.len() {
        return false;
    }
    let mut k: usize = 0;
    while k < needle.len()
        invariant
            k <= needle@.len(),
            at + needle@.len() <= hay@.len() <= usize::MAX,
            forall|j: int| 0 <= j < k ==> hay@[at + j] == needle@[j],
        decreases needle@.len() - k,
    {
        if hay[at + k] != needle[k] {
            proof {
                let window = hay@.subrange(at as int, at + needle@.len());
                assert(window[k as int] == hay@[at + k]);
            }
            return false;
        }
        k = k + 1;
    }
    assert(hay@.subrange(at as int, at + needle@.len()) =~= needle@);
    true
}

/// Whether `needle` stands somewhere in `hay`.
pub fn contains(hay: &Vec<char>, needle: &Vec<char>) -> (b: bool)
    ensures
        b == contains_text(hay@, needle@),
{
    if needle.len() > hay.len() {
        return false;
    }
    if needle.len() == 0 {
        assert(hay@.subrange(0, 0) =~= needle@);
        assert(occurs_at(hay@, needle@, 0));
        return true;
    }
    let last: usize = hay.len() - needle.len();
    let mut i: usize = 0;
    while i <= last
        invariant
            last == hay@.len() - needle@.len(),
            last < usize::MAX,
            i <= last + 1,
            forall|j: int| 0 <= j < i ==> !occurs_at(hay@, needle@, j),
        decreases last + 1 - i,
    {
        if matches_at(hay, needle, i) {
            return true;
        }
        i = i + 1;
    }
    false
}

/// Whether `hay` begins with `prefix`.
pub fn starts_with(hay: &Vec<char>, prefix: &Vec<char>) -> (b: bool)
    ensures
        b == begins_with(hay@, prefix@),
{
    matches_at(hay, prefix, 0)
}

/// The range of `s` that is left when leading and trailing whitespace goes:
/// `(0, 0)` for a blank text.
pub fn trim_range(s: &Vec<char>) -> (r: (usize, usize))
    ensures
        r.0 <= r.1 <= s@.len(),
        s@.subrange(r.0 as int, r.1 as int) == trimmed(s@),
        (r.0 == r.1) == is_blank(s@),
        is_blank(s@) ==> r.0 == 0,
{
    let mut start: usize = 0;
    assert(s@.skip(0) =~= s@);
    while start < s.len() && is_whitespace(s[start])
        invariant
            start <= s@.len(),
            forall|j: int| 0 <= j < start ==> is_space(#[trigger] s@[j]),
            trim_start_index(s@) == start + trim_start_index(s@.skip(start as int)),
        decreases s@.len() - start,
    {
        proof {
            let rest = s@.skip(start as int);
            assert(rest[0] == s@[start as int]);
            assert(rest.drop_first() =~= s@.skip(start + 1));
        }
        start = start + 1;
    }
    if start == s.len() {
        assert(is_blank(s@));
        assert(s@.subrange(0, 0) =~= Seq::<char>::empty());
        return (0, 0);
    }
    proof {
        let rest = s@.skip(start as int);
        assert(rest[0] == s@[start as int]);
        assert(!is_space(s@[start as int]));
    }
    let mut end: usize = s.len();
    assert(s@.take(end as int) =~= s@);
    while end > start + 1 && is_whitespace(s[end - 1])
        invariant
            start < end <= s@.len(),
            !is_space(s@[start as int]),
            trim_end_index(s@) == trim_end_index(s@.take(end as int)),
        decreases end,
    {
        proof {
            let head = s@.take(end as int);
            assert(head.last() == s@[end - 1]);
            assert(head.drop_last() =~= s@.take(end - 1));
        }
        end = end - 1;
    }
    proof {
        let head = s@.take(end as int);
        assert(head.last() == s@[end - 1]);
        assert(!is_space(head.last()));
        assert(trim_end_index(head) == end);
    }
    (start, end)
}

/// Number of words of `s`.
pub fn count_words(s: &Vec<char>) -> (n: usize)
    ensures
        n == word_count(s@),
{
    let mut n: usize = 0;
    let mut i: usize = 0;
    let mut after_space: bool = true;
    while i < s.len()
        invariant
            i <= s@.len(),
            n == words_in(s@, i as int),
            n <= i,
            after_space == (i == 0 || is_space(s@[i - 1])),
        decreases s@.len() - i,
    {
        let space: bool = is_whitespace(s[i]);
        if !space && after_space {
            n = n + 1;
        }
        after_space = space;
        i = i + 1;
    }
    n
}

/// Number of lines of `s`.
pub fn count_lines(s: &Vec<char>) -> (n: usize)
    ensures
        n == line_count(s@),
{
    let mut n: usize = 0;
    let mut i: usize = 0;
    while i < s.len()
        invariant
            i <= s@.len(),
            n == line_feeds_in(s@, i as int),
            n <= i,
            i < s@.len() ==> n < s@.len(),
            i == s@.len() && i > 0 && s@[i - 1] != '\n' ==> n < s@.len(),
        decreases s@.len() - i,
    {
        if s[i] == '\n' {
            n = n + 1;
        }
        i = i + 1;
    }
    if s.len() > 0 && s[s.len() - 1] != '\n' {
        n = n + 1;
    }
    n
}

/// `c` in lower case if it is an ASCII capital letter, else `c`.
pub fn to_ascii_lower(c: char) -> (l: char)
    ensures
        l == ascii_lower(c),
{
    if 'A' <= c && c <= 'Z' {
        ((c as u8) + 32) as char
    } else {
        c
    }
}

/// `s` with every ASCII capital letter in lower case.
pub fn to_ascii_lowercase(s: &Vec<char>) -> (l: Vec<char>)
    ensures
        l@ == ascii_lowercase(s@),
{
    let mut l: Vec<char> = Vec::new();
    let mut i: usize = 0;
    while i < s.len()
        invariant
            i <= s@.len(),
            l@.len() == i,
            forall|j: int| 0 <= j < i ==> l@[j] == ascii_lower(s@[j]),
        decreases s@.len() - i,
    {
        l.push(to_ascii_lower(s[i]));
        i = i + 1;
    }
    assert(l@ =~= ascii_lowercase(s@));
    l
}

/// Whether two texts are the same.
pub fn same_text(a: &Vec<char>, b: &Vec<char>) -> (same: bool)
    ensures
        same == (a@ == b@),
{
    if a.len() != b.len() {
        return false;
    }
    let same = matches_at(a, b, 0);
    proof {
        assert(a@.subrange(0, a@.len() as int) =~= a@);
    }
    same
}

/// The characters of `s` from `from` up to `to`.
pub fn slice_of(s: &Vec<char>, from: usize, to: usize) -> (r: Vec<char>)
    requires
        from <= to <= s@.len(),
    ensures
        r@ == s@.subrange(from as int, to as int),
{
    let mut r: Vec<char> = Vec::new();
    let mut i: usize = from;
    while i < to
        invariant
            from <= i <= to <= s@.len(),
            r@ == s@.subrange(from as int, i as int),
        decreases to - i,
    {
        r.push(s[i]);
        assert(r@ =~= s@.subrange(from as int, i + 1));
        i = i + 1;
    }
    assert(r@ =~= s@.subrange(from as int, to as int));
    r
}

/// `s` without its leading and trailing whitespace.
pub fn trim_chars(s: &Vec<char>) -> (r: Vec<char>)
    ensures
        r@ == trimmed(s@),
{
    let range = trim_range(s);
    slice_of(s, range.0, range.1)
}

/// Appends the characters of `s` to `out`.
pub fn push_text(out: &mut Vec<char>, s: &str)
    ensures
        final(out)@ == old(out)@ + s@,
{
    for c in it: s.chars()
        invariant
            out@ == old(out)@ + it.seq().take(it.index@),
    {
        out.push(c);
        assert(out@ =~= old(out)@ + it.seq().take(it.index@ + 1));
    }
}

/// Appends the characters of `s` to `out`.
pub fn push_chars(out: &mut Vec<char>, s: &Vec<char>)
    ensures
        final(out)@ == old(out)@ + s@,
{
    let mut i: usize = 0;
    while i < s.len()
        invariant
            i <= s@.len(),
            out@ == old(out)@ + s@.take(i as int),
        decreases s@.len() - i,
    {
        out.push(s[i]);
        assert(out@ =~= old(out)@ + s@.take(i + 1));
        i = i + 1;
    }
    assert(s@.take(i as int) =~= s@);
}

/// The lower-case form of a text, as `str::to_lowercase` gives it.
pub uninterp spec fn lowercase_of(text: Seq<char>) -> Seq<char>;

/// Calls `str::to_lowercase`: the result is the lower-case form of `text`.
#[verifier::external_body]
pub(crate) fn lowercase(text: &str) -> (lower: String)
    ensures
        lower@ == lowercase_of(text@),
{
    text.to_lowercase()
}

/// Index of the first character of `s` that is not a hyphen, or the length of
/// `s` if there is none.
pub open spec fn hyphens_start_index(s: Seq<char>) -> int
    decreases s.len(),
{
    if s.len() == 0 || s[0] != '-' {
        0
    } else {
        1 + hyphens_start_index(s.drop_first())
    }
}

/// Index after the last character of `s` that is not a hyphen, or zero if
/// there is none.
pub open spec fn hyphens_end_index(s: Seq<char>) -> int
    decreases s.len(),
{
    if s.len() == 0 || s.last() != '-' {
        s.len() as int
    } else {
        hyphens_end_index(s.drop_last())
    }
}

/// `s` without its leading and trailing hyphens.
pub open spec fn without_hyphens(s: Seq<char>) -> Seq<char> {
    if hyphens_start_index(s) >= s.len() {
        Seq::<char>::empty()
    } else {
        s.subrange(hyphens_start_index(s), hyphens_end_index(s))
    }
}

/// `s` without its leading and trailing hyphens.
pub fn strip_hyphens(s: &Vec<char>) -> (r: Vec<char>)
    ensures
        r@ == without_hyphens(s@),
{
    let mut start: usize = 0;
    assert(s@.skip(0) =~= s@);
    while start < s.len() && s[start] == '-'
        invariant
            start <= s@.len(),
            hyphens_start_index(s@) == start + hyphens_start_index(s@.skip(start as int)),
        decreases s@.len() - start,
    {
        proof {
            let rest = s@.skip(start as int);
            assert(rest[0] == s@[start as int]);
            assert(rest.drop_first() =~= s@.skip(start + 1));
        }
        start = start + 1;
    }
    if start == s.len() {
        return Vec::new();
    }
    proof {
        let rest = s@.skip(start as int);
        assert(rest[0] == s@[start as int]);
    }
    let mut end: usize = s.len();
    assert(s@.take(end as int) =~= s@);
    while end > start + 1 && s[end - 1] == '-'
        invariant
            start < end <= s@.len(),
            s@[start as int] != '-',
            hyphens_end_index(s@) == hyphens_end_index(s@.take(end as int)),
        decreases end,
    {
        proof {
            let head = s@.take(end as int);
            assert(head.last() == s@[end - 1]);
            assert(head.drop_last() =~= s@.take(end - 1));
        }
        end = end - 1;
    }
    proof {
        let head = s@.take(end as int);
        assert(head.last() == s@[end - 1]);
    }
    slice_of(s, start, end)
}

/// Calls `String::push`: the character is appended to the text.
#[verifier::external_body]
fn push_char(text: &mut String, c: char)
    ensures
        final(text)@ == old(text)@.push(c),
{
    text.push(c)
}

/// The text made of the characters of `chars`.
pub fn string_of(chars: &Vec<char>) -> (text: String)
    ensures
        text@ == chars@,
{
    let mut text = String::new();
    let mut i: usize = 0;
    while i < chars.len()
        invariant
            i <= chars@.len(),
            text@ == chars@.take(i as int),
        decreases chars@.len() - i,
    {
        push_char(&mut text, chars[i]);
        assert(text@ =~= chars@.take(i + 1));
        i = i + 1;
    }
    assert(chars@.take(i as int) =~= chars@);
    text
}

/// The decimal digit of a number below ten.
pub open spec fn digit_char(d: nat) -> char
    recommends
        d < 10,
{
    ((48 + d) as u8) as char
}

/// The decimal numeral of `n`, without leading zeros.
pub open spec fn decimal(n: nat) -> Seq<char>
    decreases n,
{
    if n < 10 {
        seq![digit_char(n)]
    } else {
        decimal(n / 10).push(digit_char(n % 10))
    }
}

/// The decimal numeral of `n`.
pub fn decimal_of(n: usize) -> (digits: Vec<char>)
    ensures
        digits@ == decimal(n as nat),
    decreases n,
{
    if n < 10 {
        let mut digits: Vec<char> = Vec::new();
        digits.push(((48 + n) as u8) as char);
        assert(digits@ =~= seq![digit_char(n as nat)]);
        digits
    } else {
        let mut digits = decimal_of(n / 10);
        digits.push(((48 + n % 10) as u8) as char);
        digits
    }
}

/// Number of bytes of the UTF-8 form of a character.
pub open spec fn utf8_width(c: char) -> nat {
    let u = c as u32;
    if u < 0x80 {
        1
    } else if u < 0x800 {
        2
    } else if u < 0x1_0000 {
        3
    } else {
        4
    }
}

/// Number of bytes of the UTF-8 form of the first `upto` characters of `s`.
pub open spec fn utf8_len_in(s: Seq<char>, upto: int) -> nat
    decreases upto,
{
    if upto <= 0 {
        0
    } else {
        utf8_len_in(s, upto - 1) + utf8_width(s[upto - 1])
    }
}

/// Number of bytes of the UTF-8 form of `s`.
pub open spec fn utf8_len(s: Seq<char>) -> nat {
    utf8_len_in(s, s.len() as int)
}

/// Number of bytes of the UTF-8 form of a character.
pub fn width_of(c: char) -> (w: usize)
    ensures
        w == utf8_width(c),
        1 <= w <= 4,
{
    let u: u32 = c as u32;
    if u < 0x80 {
        1
    } else if u < 0x800 {
        2
    } else if u < 0x1_0000 {
        3
    } else {
        4
    }
}

/// The UTF-8 length grows with the prefix, by at least one and at most four
/// bytes per character.
pub proof fn lemma_utf8_len_in_grows(s: Seq<char>, a: int, b: int)
    requires
        0 <= a <= b,
    ensures
        utf8_len_in(s, a) + (b - a) <= utf8_len_in(s, b) <= utf8_len_in(s, a) + 4 * (b - a),
    decreases b - a,
{
    if a < b {
        lemma_utf8_len_in_grows(s, a, b - 1);
    }
}

/// The UTF-8 length of a text is that of its first character plus that of
/// the rest.
pub proof fn lemma_utf8_len_from_front(s: Seq<char>, upto: int)
    requires
        1 <= upto <= s.len(),
    ensures
        utf8_len_in(s, upto) == utf8_width(s[0]) + utf8_len_in(s.drop_first(), upto - 1),
    decreases upto,
{
    let rest = s.drop_first();
    if upto > 1 {
        lemma_utf8_len_from_front(s, upto - 1);
        assert(rest[upto - 2] == s[upto - 1]);
        assert(utf8_len_in(rest, upto - 1) == utf8_len_in(rest, upto - 2) + utf8_width(
            rest[upto - 2],
        ));
    } else {
        assert(utf8_len_in(s, 0) == 0);
        assert(utf8_len_in(rest, 0) == 0);
    }
}

/// The UTF-8 length of a text is the number of bytes of its UTF-8 encoding.
pub proof fn lemma_utf8_len_is_encoded_len(s: Seq<char>)
    ensures
        utf8_len(s) == vstd::utf8::encode_utf8(s).len(),
    decreases s.len(),
{
    if s.len() > 0 {
        lemma_utf8_len_is_encoded_len(s.drop_first());
        lemma_utf8_len_from_front(s, s.len() as int);
        vstd::utf8::char_is_scalar(s[0]);
        assert(vstd::utf8::encode_scalar(s[0] as u32).len() == utf8_width(s[0]));
    }
}

/// The UTF-8 length of a prefix depends on that prefix alone.
pub proof fn lemma_utf8_len_of_prefix(s: Seq<char>, k: int, upto: int)
    requires
        0 <= upto <= k <= s.len(),
    ensures
        utf8_len_in(s.take(k), upto) == utf8_len_in(s, upto),
    decreases upto,
{
    if upto > 0 {
        lemma_utf8_len_of_prefix(s, k, upto - 1);
    }
}

/// Where the line begins that is open after the first `upto` characters: after
/// the last line feed among them.
pub open spec fn line_start(text: Seq<char>, upto: int) -> int
    decreases upto,
{
    if upto <= 0 {
        0
    } else if text[upto - 1] == '\n' {
        upto
    } else {
        line_start(text, upto - 1)
    }
}

/// The lines that a line feed ends within the first `upto` characters, each
/// without its line feed.
pub open spec fn closed_lines(text: Seq<char>, upto: int) -> Seq<Seq<char>>
    decreases upto,
{
    if upto <= 0 {
        Seq::<Seq<char>>::empty()
    } else if text[upto - 1] == '\n' {
        closed_lines(text, upto - 1).push(text.subrange(line_start(text, upto - 1), upto - 1))
    } else {
        closed_lines(text, upto - 1)
    }
}

/// The lines of a text: it is cut at every line feed, and what follows the
/// last line feed is a line if it is not empty.
pub open spec fn lines_of(text: Seq<char>) -> Seq<Seq<char>> {
    let closed = closed_lines(text, text.len() as int);
    let start = line_start(text, text.len() as int);
    if start < text.len() {
        closed.push(text.subrange(start, text.len() as int))
    } else {
        closed
    }
}

/// Where the word begins that is open after the first `upto` characters: after
/// the last whitespace among them.
pub open spec fn word_start(text: Seq<char>, upto: int) -> int
    decreases upto,
{
    if upto <= 0 {
        0
    } else if is_space(text[upto - 1]) {
        upto
    } else {
        word_start(text, upto - 1)
    }
}

/// The words that whitespace ends within the first `upto` characters.
pub open spec fn closed_words(text: Seq<char>, upto: int) -> Seq<Seq<char>>
    decreases upto,
{
    if upto <= 0 {
        Seq::<Seq<char>>::empty()
    } else if is_space(text[upto - 1]) && word_start(text, upto - 1) < upto - 1 {
        closed_words(text, upto - 1).push(text.subrange(word_start(text, upto - 1), upto - 1))
    } else {
        closed_words(text, upto - 1)
    }
}

/// The words of a text: its longest runs of characters that are not
/// whitespace, in order.
pub open spec fn words_of(text: Seq<char>) -> Seq<Seq<char>> {
    let closed = closed_words(text, text.len() as int);
    let start = word_start(text, text.len() as int);
    if start < text.len() {
        closed.push(text.subrange(start, text.len() as int))
    } else {
        closed
    }
}

/// The views of a list of texts.
pub open spec fn views_of(list: Seq<Vec<char>>) -> Seq<Seq<char>> {
    Seq::new(list.len(), |i: int| list[i]@)
}

/// The lines of a text.
pub fn split_lines(text: &Vec<char>) -> (lines: Vec<Vec<char>>)
    ensures
        views_of(lines@) == lines_of(text@),
{
    let mut lines: Vec<Vec<char>> = Vec::new();
    let mut start: usize = 0;
    let mut i: usize = 0;
    assert(views_of(lines@) =~= closed_lines(text@, 0));
    while i < text.len()
        invariant
            start <= i <= text@.len(),
            start == line_start(text@, i as int),
            views_of(lines@) == closed_lines(text@, i as int),
        decreases text@.len() - i,
    {
        if text[i] == '\n' {
            let line: Vec<char> = slice_of(text, start, i);
            let ghost before = views_of(lines@);
            lines.push(line);
            assert(views_of(lines@) =~= before.push(line@));
            start = i + 1;
        }
        i = i + 1;
    }
    if start < text.len() {
        let line: Vec<char> = slice_of(text, start, text.len());
        let ghost before = views_of(lines@);
        lines.push(line);
        assert(views_of(lines@) =~= before.push(line@));
    }
    lines
}

/// The words of a text.
pub fn split_words(text: &Vec<char>) -> (words: Vec<Vec<char>>)
    ensures
        views_of(words@) == words_of(text@),
{
    let mut words: Vec<Vec<char>> = Vec::new();
    let mut start: usize = 0;
    let mut i: usize = 0;
    assert(views_of(words@) =~= closed_words(text@, 0));
    while i < text.len()
        invariant
            start <= i <= text@.len(),
            start == word_start(text@, i as int),
            views_of(words@) == closed_words(text@, i as int),
        decreases text@.len() - i,
    {
        if is_whitespace(text[i]) {
            if start < i {
                let word: Vec<char> = slice_of(text, start, i);
                let ghost before = views_of(words@);
                words.push(word);
                assert(views_of(words@) =~= before.push(word@));
            }
            start = i + 1;
        }
        i = i + 1;
    }
    if start < text.len() {
        let word: Vec<char> = slice_of(text, start, text.len());
        let ghost before = views_of(words@);
        words.push(word);
        assert(views_of(words@) =~= before.push(word@));
    }
    words
}

/// Whether `c` is among the characters of `s`.
pub fn has_char(s: &Vec<char>, c: char) -> (b: bool)
    ensures
        b == s@.contains(c),
{
    let mut i: usize = 0;
    while i < s.len()
        invariant
            i <= s@.len(),
            forall|j: int| 0 <= j < i ==> s@[j] != c,
        decreases s@.len() - i,
    {
        if s[i] == c {
            return true;
        }
        i = i + 1;
    }
    false
}

/// Whether the UTF-8 form of `s` has more than `limit` bytes.
pub fn exceeds_bytes(s: &Vec<char>, limit: usize) -> (b: bool)
    ensures
        b == (utf8_len(s@) > limit),
{
    let within: usize = prefix_within(s, limit);
    proof {
        if within < s@.len() {
            lemma_utf8_len_in_grows(s@, within + 1, s@.len() as int);
        }
    }
    within < s.len()
}

/// Number of characters of the longest prefix of `s` that starts with the
/// first `from` characters and whose UTF-8 form has at most `budget` bytes.
pub open spec fn longest_prefix_from(s: Seq<char>, budget: nat, from: int) -> int
    decreases s.len() - from,
{
    if from < 0 || from >= s.len() || utf8_len_in(s, from + 1) > budget {
        from
    } else {
        longest_prefix_from(s, budget, from + 1)
    }
}

/// Number of characters of the longest prefix of `s` whose UTF-8 form has at
/// most `budget` bytes.
pub open spec fn longest_prefix(s: Seq<char>, budget: nat) -> int {
    longest_prefix_from(s, budget, 0)
}

/// Number of characters of the longest prefix of `s` whose UTF-8 form has at
/// most `budget` bytes.
pub fn prefix_within(s: &Vec<char>, budget: usize) -> (k: usize)
    ensures
        k == longest_prefix(s@, budget as nat),
        k <= s@.len(),
        utf8_len_in(s@, k as int) <= budget,
        k < s@.len() ==> utf8_len_in(s@, k + 1) > budget,
{
    let mut k: usize = 0;
    let mut used: usize = 0;
    while k < s.len()
        invariant
            k <= s@.len(),
            used == utf8_len_in(s@, k as int),
            used <= budget,
            longest_prefix(s@, budget as nat) == longest_prefix_from(s@, budget as nat, k as int),
        decreases s@.len() - k,
    {
        let w: usize = width_of(s[k]);
        if w > budget - used {
            return k;
        }
        used = used + w;
        k = k + 1;
    }
    k
}

} // verus!
