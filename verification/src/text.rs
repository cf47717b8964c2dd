//! Character-level text helpers shared by the rest of the library.
//!
//! Every function here works on the sequence of Unicode scalar values of a
//! string, which is also the view that contracts speak of.

use vstd::prelude::*;
use vstd::string::*;

verus! {

/// Appends one character to `s`.
///
/// Trusted: stands for `String::push`, which is documented to append the
/// given character to the end of the string and nothing else.
#[verifier::external_body]
pub(crate) fn push_char(s: &mut String, c: char)
    ensures
        final(s)@ == old(s)@.push(c),
{
    s.push(c);
}

/// The characters of `s`, in order.
pub fn chars_of(s: &str) -> (v: Vec<char>)
    ensures
        v@ == s@,
{
    broadcast use vstd::string::group_string_axioms;

    let mut v: Vec<char> = Vec::new();
    let chars = s.chars();
    for c in iter: chars
        invariant
            iter.seq() == s@,
            v@ == iter.seq().take(iter.index() as int),
    {
        v.push(c);
        assert(iter.seq().take(iter.index() + 1) == iter.seq().take(iter.index() as int).push(c));
    }
    assert(s@.take(s@.len() as int) == s@);
    v
}

/// The string made of the characters of `v`, in order.
pub fn string_of(v: &Vec<char>) -> (s: String)
    ensures
        s@ == v@,
{
    let mut s = String::new();
    let mut i: usize = 0;
    while i < v.len()
        invariant
            i <= v.len(),
            s@ == v@.subrange(0, i as int),
        decreases v.len() - i,
    {
        push_char(&mut s, v[i]);
        i = i + 1;
    }
    assert(v@.subrange(0, v.len() as int) == v@);
    s
}

/// The lowercase form of a text, as the standard library's Unicode case
/// mapping gives it.
pub uninterp spec fn lowercase_text(text: Seq<char>) -> Seq<char>;

/// The uppercase form of a text, as the standard library's Unicode case
/// mapping gives it.
pub uninterp spec fn uppercase_text(text: Seq<char>) -> Seq<char>;

/// The lowercase form of `s`.
///
/// Trusted: stands for `str::to_lowercase`. The mapping follows the Unicode
/// tables and is not restated here; the contract only gives its result a
/// name, which depends on the characters of `s` alone.
#[verifier::external_body]
pub(crate) fn lowercase(s: &str) -> (r: String)
    ensures
        r@ == lowercase_text(s@),
{
    s.to_lowercase()
}

/// The uppercase form of `s`.
///
/// Trusted: stands for `str::to_uppercase`. The mapping follows the Unicode
/// tables and is not restated here; the contract only gives its result a
/// name, which depends on the characters of `s` alone.
#[verifier::external_body]
pub(crate) fn uppercase(s: &str) -> (r: String)
    ensures
        r@ == uppercase_text(s@),
{
    s.to_uppercase()
}

/// Whether the two character vectors hold the same text.
pub fn same_chars(a: &Vec<char>, b: &Vec<char>) -> (r: bool)
    ensures
        r == (a@ == b@),
{
    if a.len() != b.len() {
        return false;
    }
    let mut i: usize = 0;
    while i < a.len()
        invariant
            a.len() == b.len(),
            i <= a.len(),
            a@.subrange(0, i as int) == b@.subrange(0, i as int),
        decreases a.len() - i,
    {
        if a[i] != b[i] {
            assert(a@[i as int] != b@[i as int]);
            return false;
        }
        assert(a@.subrange(0, i + 1) == a@.subrange(0, i as int).push(a@[i as int]));
        assert(b@.subrange(0, i + 1) == b@.subrange(0, i as int).push(b@[i as int]));
        i = i + 1;
    }
    assert(a@.subrange(0, a.len() as int) == a@);
    assert(b@.subrange(0, b.len() as int) == b@);
    true
}

/// Whether the two strings hold the same text.
pub fn same(a: &str, b: &str) -> (r: bool)
    ensures
        r == (a@ == b@),
{
    let x = chars_of(a);
    let y = chars_of(b);
    same_chars(&x, &y)
}

/// Whether `needle` stands in `hay` at position `at`.
pub open spec fn occurs_at(hay: Seq<char>, needle: Seq<char>, at: int) -> bool {
    &&& 0 <= at
    &&& at + needle.len() <= hay.len()
    &&& hay.subrange(at, at + needle.len()) == needle
}

/// Whether `needle` stands somewhere in `hay`. The empty text stands in every
/// text.
pub open spec fn occurs(hay: Seq<char>, needle: Seq<char>) -> bool {
    exists|at: int| occurs_at(hay, needle, at)
}

/// Whether `at` is the first position from `from` on at which `needle` stands
/// in `hay`.
pub open spec fn is_first_occurrence(hay: Seq<char>, needle: Seq<char>, from: int, at: int) -> bool {
    &&& from <= at
    &&& occurs_at(hay, needle, at)
    &&& forall|earlier: int| from <= earlier < at ==> !occurs_at(hay, needle, earlier)
}

/// Whether `needle` stands in `hay` at position `at`.
pub fn stands_at(hay: &Vec<char>, needle: &Vec<char>, at: usize) -> (r: bool)
    ensures
        r == occurs_at(hay@, needle@, at as int),
{
    if at > hay.len() || needle.len() > hay.len() - at {
        return false;
    }
    let mut i: usize = 0;
    while i < needle.len()
        invariant
            at + needle.len() <= hay.len(),
            i <= needle.len(),
            hay@.subrange(at as int, at + i) == needle@.subrange(0, i as int),
        decreases needle.len() - i,
    {
        if hay[at + i] != needle[i] {
            assert(hay@.subrange(at as int, at + needle.len())[i as int] != needle@[i as int]);
            return false;
        }
        assert(hay@.subrange(at as int, at + i + 1) == hay@.subrange(at as int, at + i).push(
            hay@[at + i],
        ));
        assert(needle@.subrange(0, i + 1) == needle@.subrange(0, i as int).push(needle@[i as int]));
        i = i + 1;
    }
    assert(needle@.subrange(0, needle.len() as int) == needle@);
    true
}

/// The first position from `from` on at which `needle` stands in `hay`, if it
/// stands there at all.
pub fn find_from(hay: &Vec<char>, needle: &Vec<char>, from: usize) -> (r: Option<usize>)
    ensures
        match r {
            Some(at) => is_first_occurrence(hay@, needle@, from as int, at as int),
            None => forall|at: int| from <= at ==> !occurs_at(hay@, needle@, at),
        },
        hay@.len() <= usize::MAX,
{
    let mut at: usize = from;
    while at < hay.len()
        invariant
            from <= at,
            forall|earlier: int| from <= earlier < at ==> !occurs_at(hay@, needle@, earlier),
        decreases hay.len() - at,
    {
        if stands_at(hay, needle, at) {
            return Some(at);
        }
        at = at + 1;
    }
    if stands_at(hay, needle, at) {
        Some(at)
    } else {
        None
    }
}

/// Whether `needle` stands somewhere in `hay`.
pub fn contains(hay: &Vec<char>, needle: &Vec<char>) -> (r: bool)
    ensures
        r == occurs(hay@, needle@),
{
    match find_from(hay, needle, 0) {
        Some(at) => true,
        None => {
            assert forall|at: int| !occurs_at(hay@, needle@, at) by {}
            false
        },
    }
}

/// The character of a decimal digit.
pub open spec fn digit_of(d: int) -> char {
    if d == 0 {
        '0'
    } else if d == 1 {
        '1'
    } else if d == 2 {
        '2'
    } else if d == 3 {
        '3'
    } else if d == 4 {
        '4'
    } else if d == 5 {
        '5'
    } else if d == 6 {
        '6'
    } else if d == 7 {
        '7'
    } else if d == 8 {
        '8'
    } else {
        '9'
    }
}

/// The decimal numeral of `n`, without leading zeros.
pub open spec fn decimal_of(n: nat) -> Seq<char>
    decreases n,
{
    if n < 10 {
        seq![digit_of(n as int)]
    } else {
        decimal_of(n / 10).push(digit_of((n % 10) as int))
    }
}

/// The character of the decimal digit `d`.
pub(crate) fn digit(d: u8) -> (c: char)
    requires
        d < 10,
    ensures
        c == digit_of(d as int),
{
    if d == 0 {
        '0'
    } else if d == 1 {
        '1'
    } else if d == 2 {
        '2'
    } else if d == 3 {
        '3'
    } else if d == 4 {
        '4'
    } else if d == 5 {
        '5'
    } else if d == 6 {
        '6'
    } else if d == 7 {
        '7'
    } else if d == 8 {
        '8'
    } else {
        '9'
    }
}

/// Appends the decimal numeral of `n` to `s`.
pub fn push_decimal(s: &mut String, n: u128)
    ensures
        final(s)@ == old(s)@ + decimal_of(n as nat),
    decreases n,
{
    if n >= 10 {
        push_decimal(s, n / 10);
    }
    push_char(s, digit((n % 10) as u8));
}

/// The decimal numeral of `n`, without leading zeros.
pub fn decimal(n: u128) -> (s: String)
    ensures
        s@ == decimal_of(n as nat),
{
    let mut s = String::new();
    push_decimal(&mut s, n);
    s
}

/// The decimal numeral of a whole number, with a minus sign where it is
/// below zero.
pub open spec fn signed_decimal_of(n: int) -> Seq<char> {
    if n < 0 {
        seq!['-'] + decimal_of((-n) as nat)
    } else {
        decimal_of(n as nat)
    }
}

/// Appends the decimal numeral of `n` to `s`, with a minus sign where `n` is
/// below zero.
pub fn push_signed_decimal(s: &mut String, n: i64)
    ensures
        final(s)@ == old(s)@ + signed_decimal_of(n as int),
{
    if n < 0 {
        let ghost before = s@;
        push_char(s, '-');
        push_decimal(s, (-(n as i128)) as u128);
        assert(s@ == before + (seq!['-'] + decimal_of((-n) as nat)));
    } else {
        push_decimal(s, n as u128);
    }
}

/// Whether a character beyond ASCII is white space, as the standard library's
/// Unicode tables have it.
pub uninterp spec fn is_white_beyond_ascii(c: char) -> bool;

/// Whether an ASCII character is white space: the space and the control
/// characters from the horizontal tab to the carriage return, U+0009 to
/// U+000D, are; no other ASCII character is.
pub open spec fn is_ascii_white(c: char) -> bool {
    c == ' ' || 0x09 <= (c as u32) <= 0x0d
}

/// Whether a character is white space, that is, has the Unicode property
/// `White_Space`. Within ASCII the property is written out; beyond it the
/// answer is that of the standard library's tables.
pub open spec fn is_white(c: char) -> bool {
    if (c as u32) < 0x80 {
        is_ascii_white(c)
    } else {
        is_white_beyond_ascii(c)
    }
}

/// Whether `c` is white space.
///
/// Trusted: stands for `char::is_whitespace`, which tells whether the
/// character has the Unicode property `White_Space`. Of the ASCII characters
/// the property holds the space and U+0009 to U+000D and no other, and the
/// contract says so; of a character beyond ASCII it only gives the answer a
/// name, which depends on the character alone.
#[verifier::external_body]
pub(crate) fn is_whitespace(c: char) -> (white: bool)
    ensures
        white == (if (c as u32) < 0x80 {
            is_ascii_white(c)
        } else {
            is_white_beyond_ascii(c)
        }),
{
    c.is_whitespace()
}

/// A text without the white space that it begins with.
pub open spec fn trim_start_of(text: Seq<char>) -> Seq<char>
    decreases text.len(),
{
    if text.len() > 0 && is_white(text[0]) {
        trim_start_of(text.drop_first())
    } else {
        text
    }
}

/// A text without the white space that it ends with.
pub open spec fn trim_end_of(text: Seq<char>) -> Seq<char>
    decreases text.len(),
{
    if text.len() > 0 && is_white(text.last()) {
        trim_end_of(text.drop_last())
    } else {
        text
    }
}

/// A text without the white space that it begins and ends with.
pub open spec fn trimmed(text: Seq<char>) -> Seq<char> {
    trim_end_of(trim_start_of(text))
}

/// The first word of a text: what stands between the white space that the
/// text begins with and the next white space. Empty where there is no word.
pub open spec fn first_word_of(text: Seq<char>) -> Seq<char> {
    word_at_start(trim_start_of(text))
}

/// The characters that a text begins with up to its first white space.
pub open spec fn word_at_start(text: Seq<char>) -> Seq<char>
    decreases text.len(),
{
    if text.len() > 0 && !is_white(text[0]) {
        seq![text[0]] + word_at_start(text.drop_first())
    } else {
        Seq::empty()
    }
}

/// Whether `text` begins with `prefix`.
pub open spec fn begins_with(text: Seq<char>, prefix: Seq<char>) -> bool {
    occurs_at(text, prefix, 0)
}

/// Whether `text` ends with `suffix`.
pub open spec fn ends_with(text: Seq<char>, suffix: Seq<char>) -> bool {
    occurs_at(text, suffix, text.len() - suffix.len())
}

/// A text in which every occurrence of `from`, taken from left to right and
/// without overlap, is replaced by `to`. An empty `from` replaces nothing.
pub open spec fn replaced(text: Seq<char>, from: Seq<char>, to: Seq<char>) -> Seq<char>
    decreases text.len(),
{
    if from.len() == 0 || text.len() < from.len() {
        text
    } else if occurs_at(text, from, 0) {
        to + replaced(text.subrange(from.len() as int, text.len() as int), from, to)
    } else {
        seq![text[0]] + replaced(text.drop_first(), from, to)
    }
}

/// The position of the first line feed of a text, or its length where it has
/// none.
pub open spec fn line_end(text: Seq<char>) -> nat
    decreases text.len(),
{
    if text.len() == 0 || text[0] == '\n' {
        0
    } else {
        1 + line_end(text.drop_first())
    }
}

/// A line without the carriage return that it ends with, if it ends with
/// one.
pub open spec fn without_carriage_return(line: Seq<char>) -> Seq<char> {
    if line.len() > 0 && line.last() == '\r' {
        line.drop_last()
    } else {
        line
    }
}

/// The lines of a text. A line ends with a line feed, or with a carriage
/// return and a line feed; neither belongs to the line. The last line need
/// not end with one, and a text that ends with a line ending has no empty
/// line after it.
pub open spec fn lines_of(text: Seq<char>) -> Seq<Seq<char>>
    decreases text.len(),
{
    if text.len() == 0 {
        Seq::empty()
    } else {
        let end = line_end(text) as int;
        if end >= text.len() {
            seq![text]
        } else {
            seq![without_carriage_return(text.subrange(0, end))] + lines_of(
                text.subrange(end + 1, text.len() as int),
            )
        }
    }
}

/// The position of the first occurrence of `needle` in `hay`, if there is
/// one.
pub open spec fn position_of(hay: Seq<char>, needle: Seq<char>) -> Option<int> {
    if occurs(hay, needle) {
        Some(choose|at: int| is_first_occurrence(hay, needle, 0, at))
    } else {
        None
    }
}

/// The first occurrence of a text in another is determined: two positions
/// that are both first are the same.
pub proof fn lemma_first_occurrence_is_unique(hay: Seq<char>, needle: Seq<char>, a: int, b: int)
    requires
        is_first_occurrence(hay, needle, 0, a),
        is_first_occurrence(hay, needle, 0, b),
    ensures
        a == b,
{
    if a < b {
        assert(!occurs_at(hay, needle, a));
    } else if b < a {
        assert(!occurs_at(hay, needle, b));
    }
}

/// The position of the first occurrence of `needle` in `hay`, if there is
/// one.
pub fn find(hay: &Vec<char>, needle: &Vec<char>) -> (r: Option<usize>)
    ensures
        match r {
            Some(at) => position_of(hay@, needle@) == Some(at as int) && at + needle@.len()
                <= hay@.len() <= usize::MAX,
            None => position_of(hay@, needle@) is None,
        },
{
    match find_from(hay, needle, 0) {
        Some(at) => {
            proof {
                let chosen = choose|c: int| is_first_occurrence(hay@, needle@, 0, c);
                lemma_first_occurrence_is_unique(hay@, needle@, at as int, chosen);
            }
            Some(at)
        },
        None => {
            assert forall|at: int| !occurs_at(hay@, needle@, at) by {}
            None
        },
    }
}

/// Whether `text` begins with `prefix`.
pub fn starts_with(text: &Vec<char>, prefix: &Vec<char>) -> (r: bool)
    ensures
        r == begins_with(text@, prefix@),
{
    stands_at(text, prefix, 0)
}

/// Whether `text` ends with `suffix`.
pub fn finishes_with(text: &Vec<char>, suffix: &Vec<char>) -> (r: bool)
    ensures
        r == ends_with(text@, suffix@),
{
    if suffix.len() > text.len() {
        false
    } else {
        stands_at(text, suffix, text.len() - suffix.len())
    }
}

/// The part of `text` from position `from` up to, but not including, `to`.
pub(crate) fn slice(text: &Vec<char>, from: usize, to: usize) -> (part: Vec<char>)
    requires
        from <= to <= text.len(),
    ensures
        part@ == text@.subrange(from as int, to as int),
{
    let mut part: Vec<char> = Vec::new();
    let mut i: usize = from;
    while i < to
        invariant
            from <= i <= to,
            to <= text.len(),
            part@ == text@.subrange(from as int, i as int),
        decreases to - i,
    {
        part.push(text[i]);
        assert(text@.subrange(from as int, i + 1) == text@.subrange(from as int, i as int).push(
            text@[i as int],
        ));
        i = i + 1;
    }
    part
}

proof fn lemma_trim_start(text: Seq<char>, count: int)
    requires
        0 <= count <= text.len(),
        forall|i: int| 0 <= i < count ==> is_white(#[trigger] text[i]),
        count == text.len() || !is_white(text[count]),
    ensures
        trim_start_of(text) == text.subrange(count, text.len() as int),
    decreases count,
{
    if count == 0 {
        assert(text.subrange(0, text.len() as int) == text);
    } else {
        let rest = text.drop_first();
        assert forall|i: int| 0 <= i < count - 1 implies is_white(#[trigger] rest[i]) by {
            assert(rest[i] == text[i + 1]);
        }
        lemma_trim_start(rest, count - 1);
        assert(rest.subrange(count - 1, rest.len() as int) == text.subrange(
            count,
            text.len() as int,
        ));
    }
}

proof fn lemma_trim_end(text: Seq<char>, keep: int)
    requires
        0 <= keep <= text.len(),
        forall|i: int| keep <= i < text.len() ==> is_white(#[trigger] text[i]),
        keep == 0 || !is_white(text[keep - 1]),
    ensures
        trim_end_of(text) == text.subrange(0, keep),
    decreases text.len() - keep,
{
    if keep == text.len() {
        assert(text.subrange(0, text.len() as int) == text);
    } else {
        let rest = text.drop_last();
        lemma_trim_end(rest, keep);
        assert(rest.subrange(0, keep) == text.subrange(0, keep));
    }
}

/// A text without the white space that it begins and ends with.
pub fn trim(text: &Vec<char>) -> (r: Vec<char>)
    ensures
        r@ == trimmed(text@),
{
    let mut from: usize = 0;
    while from < text.len() && is_whitespace(text[from])
        invariant
            from <= text.len(),
            forall|i: int| 0 <= i < from ==> is_white(#[trigger] text@[i]),
        decreases text.len() - from,
    {
        from = from + 1;
    }
    let mut to: usize = text.len();
    while to > from && is_whitespace(text[to - 1])
        invariant
            from <= to <= text.len(),
            forall|i: int| to <= i < text.len() ==> is_white(#[trigger] text@[i]),
        decreases to,
    {
        to = to - 1;
    }
    proof {
        lemma_trim_start(text@, from as int);
        let tail = text@.subrange(from as int, text.len() as int);
        assert forall|i: int| to - from <= i < tail.len() implies is_white(#[trigger] tail[i]) by {
            assert(tail[i] == text@[i + from]);
        }
        lemma_trim_end(tail, to - from);
        assert(tail.subrange(0, to - from) == text@.subrange(from as int, to as int));
    }
    slice(text, from, to)
}

proof fn lemma_word_at_start(text: Seq<char>, count: int)
    requires
        0 <= count <= text.len(),
        forall|i: int| 0 <= i < count ==> !is_white(#[trigger] text[i]),
        count == text.len() || is_white(text[count]),
    ensures
        word_at_start(text) == text.subrange(0, count),
    decreases count,
{
    if count == 0 {
        assert(text.subrange(0, 0) == Seq::<char>::empty());
    } else {
        let rest = text.drop_first();
        assert forall|i: int| 0 <= i < count - 1 implies !is_white(#[trigger] rest[i]) by {
            assert(rest[i] == text[i + 1]);
        }
        lemma_word_at_start(rest, count - 1);
        assert(seq![text[0]] + rest.subrange(0, count - 1) == text.subrange(0, count));
    }
}

/// The first word of a text, or the empty text where it has none.
pub fn first_word(text: &Vec<char>) -> (word: Vec<char>)
    ensures
        word@ == first_word_of(text@),
{
    let mut from: usize = 0;
    while from < text.len() && is_whitespace(text[from])
        invariant
            from <= text.len(),
            forall|i: int| 0 <= i < from ==> is_white(#[trigger] text@[i]),
        decreases text.len() - from,
    {
        from = from + 1;
    }
    let mut to: usize = from;
    while to < text.len() && !is_whitespace(text[to])
        invariant
            from <= to <= text.len(),
            forall|i: int| from <= i < to ==> !is_white(#[trigger] text@[i]),
        decreases text.len() - to,
    {
        to = to + 1;
    }
    proof {
        lemma_trim_start(text@, from as int);
        let tail = text@.subrange(from as int, text.len() as int);
        assert forall|i: int| 0 <= i < to - from implies !is_white(#[trigger] tail[i]) by {
            assert(tail[i] == text@[i + from]);
        }
        lemma_word_at_start(tail, to - from);
        assert(tail.subrange(0, to - from) == text@.subrange(from as int, to as int));
    }
    slice(text, from, to)
}

/// Appends the characters of `more` to `text`.
pub fn extend(text: &mut Vec<char>, more: &Vec<char>)
    ensures
        final(text)@ == old(text)@ + more@,
{
    let mut i: usize = 0;
    while i < more.len()
        invariant
            i <= more.len(),
            text@ == old(text)@ + more@.subrange(0, i as int),
        decreases more.len() - i,
    {
        text.push(more[i]);
        assert(more@.subrange(0, i + 1) == more@.subrange(0, i as int).push(more@[i as int]));
        i = i + 1;
    }
    assert(more@.subrange(0, more.len() as int) == more@);
}

/// `text` with every occurrence of `from` replaced by `to`, from left to
/// right and without overlap. An empty `from` replaces nothing.
pub fn replace(text: &Vec<char>, from: &Vec<char>, to: &Vec<char>) -> (r: Vec<char>)
    ensures
        r@ == replaced(text@, from@, to@),
{
    let mut out: Vec<char> = Vec::new();
    let n = text.len();
    let mut i: usize = 0;
    proof {
        assert(text@.subrange(0, n as int) == text@);
        assert(out@ + replaced(text@, from@, to@) == replaced(text@, from@, to@));
    }
    while i < n
        invariant
            n == text.len(),
            i <= n,
            out@ + replaced(text@.subrange(i as int, n as int), from@, to@) == replaced(
                text@,
                from@,
                to@,
            ),
        decreases n - i,
    {
        let ghost rest = text@.subrange(i as int, n as int);
        let ghost before = out@;
        if from.len() > 0 && stands_at(text, from, i) {
            proof {
                assert(rest.subrange(0, from@.len() as int) == text@.subrange(
                    i as int,
                    i + from@.len(),
                ));
                assert(occurs_at(rest, from@, 0));
                assert(rest.subrange(from@.len() as int, rest.len() as int) == text@.subrange(
                    i + from@.len(),
                    n as int,
                ));
            }
            extend(&mut out, to);
            i = i + from.len();
            proof {
                assert(out@ + replaced(text@.subrange(i as int, n as int), from@, to@) == before
                    + (to@ + replaced(text@.subrange(i as int, n as int), from@, to@)));
            }
        } else {
            proof {
                if from@.len() > 0 && rest.len() >= from@.len() {
                    assert(rest.subrange(0, from@.len() as int) == text@.subrange(
                        i as int,
                        i + from@.len(),
                    ));
                    assert(!occurs_at(rest, from@, 0));
                    assert(rest.drop_first() == text@.subrange(i + 1, n as int));
                }
            }
            if from.len() == 0 || n - i < from.len() {
                // Nothing can match from here on: the rest is kept as it is.
                let tail = slice(text, i, n);
                extend(&mut out, &tail);
                proof {
                    assert(replaced(rest, from@, to@) == rest);
                    assert(text@.subrange(n as int, n as int) == Seq::<char>::empty());
                    assert(replaced(Seq::<char>::empty(), from@, to@) == Seq::<char>::empty());
                    assert(out@ + Seq::<char>::empty() == out@);
                }
                i = n;
            } else {
                out.push(text[i]);
                i = i + 1;
                proof {
                    assert(out@ + replaced(text@.subrange(i as int, n as int), from@, to@)
                        == before + (seq![rest[0]] + replaced(rest.drop_first(), from@, to@)));
                }
            }
        }
    }
    proof {
        assert(text@.subrange(n as int, n as int) == Seq::<char>::empty());
        assert(out@ + Seq::<char>::empty() == out@);
    }
    out
}

proof fn lemma_line_end(text: Seq<char>, count: int)
    requires
        0 <= count <= text.len(),
        forall|i: int| 0 <= i < count ==> #[trigger] text[i] != '\n',
        count == text.len() || text[count] == '\n',
    ensures
        line_end(text) == count,
    decreases count,
{
    if count > 0 {
        let rest = text.drop_first();
        assert forall|i: int| 0 <= i < count - 1 implies #[trigger] rest[i] != '\n' by {
            assert(rest[i] == text[i + 1]);
        }
        lemma_line_end(rest, count - 1);
    }
}

/// The lines of a text, without their line endings.
pub fn lines(text: &Vec<char>) -> (r: Vec<Vec<char>>)
    ensures
        r@.len() == lines_of(text@).len(),
        forall|i: int| 0 <= i < r@.len() ==> (#[trigger] r@[i])@ == lines_of(text@)[i],
{
    let mut out: Vec<Vec<char>> = Vec::new();
    let n = text.len();
    let mut start: usize = 0;
    proof {
        assert(text@.subrange(0, n as int) == text@);
        assert(Seq::new(out@.len(), |i: int| out@[i]@) + lines_of(text@) == lines_of(text@));
    }
    while start < n
        invariant
            n == text.len(),
            start <= n,
            lines_of(text@) == Seq::new(out@.len(), |i: int| out@[i]@) + lines_of(
                text@.subrange(start as int, n as int),
            ),
        decreases n - start,
    {
        let ghost rest = text@.subrange(start as int, n as int);
        let ghost before = Seq::new(out@.len(), |i: int| out@[i]@);
        let mut end: usize = start;
        while end < n && text[end] != '\n'
            invariant
                n == text.len(),
                start <= end <= n,
                forall|i: int| start <= i < end ==> #[trigger] text@[i] != '\n',
            decreases n - end,
        {
            end = end + 1;
        }
        proof {
            assert forall|i: int| 0 <= i < end - start implies #[trigger] rest[i] != '\n' by {
                assert(rest[i] == text@[i + start]);
            }
            lemma_line_end(rest, end - start);
        }
        if end == n {
            let line = slice(text, start, n);
            out.push(line);
            proof {
                assert(lines_of(rest) == seq![rest]);
                assert(text@.subrange(n as int, n as int).len() == 0);
                assert(Seq::new(out@.len(), |i: int| out@[i]@) == before + seq![rest]);
                assert(Seq::new(out@.len(), |i: int| out@[i]@) + lines_of(
                    text@.subrange(n as int, n as int),
                ) == before + seq![rest]);
            }
            start = n;
        } else {
            let stop = if end > start && text[end - 1] == '\r' {
                end - 1
            } else {
                end
            };
            let line = slice(text, start, stop);
            out.push(line);
            proof {
                let raw = rest.subrange(0, end - start);
                assert(raw == text@.subrange(start as int, end as int));
                assert(without_carriage_return(raw) == text@.subrange(start as int, stop as int));
                assert(rest.subrange(end - start + 1, rest.len() as int) == text@.subrange(
                    end + 1,
                    n as int,
                ));
                assert(Seq::new(out@.len(), |i: int| out@[i]@) == before + seq![
                    without_carriage_return(raw),
                ]);
                assert(Seq::new(out@.len(), |i: int| out@[i]@) + lines_of(
                    text@.subrange(end + 1, n as int),
                ) == before + (seq![without_carriage_return(raw)] + lines_of(
                    text@.subrange(end + 1, n as int),
                )));
            }
            start = end + 1;
        }
    }
    proof {
        assert(text@.subrange(n as int, n as int).len() == 0);
        assert(lines_of(text@) == Seq::new(out@.len(), |i: int| out@[i]@));
    }
    out
}

} // verus!
