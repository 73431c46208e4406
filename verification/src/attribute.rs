//! Attribute values of a tag.
//!
//! An attribute is looked up by the first place where its name occurs in the
//! text of the tag, whatever stands around it. From a position near that
//! place the text is scanned for the first two double quotes, and what stands
//! between them is the value. A value that is missing or cannot be read as
//! the kind asked for is no value; it is never an error.

use vstd::prelude::*;
use vstd::string::*;
use vstd::slice::slice_subrange;
use crate::text::{
    chars_of, find, find_from, first_match, first_match_from, lemma_first_match_from, matches_at,
};

verus! {

/// The double quote as a one-character text.
pub open spec fn quote() -> Seq<char> {
    seq!['"']
}

/// Where the scan for the quotes of an attribute starts.
#[derive(Clone, Copy, Debug, PartialEq, Eq, Structural)]
pub enum Scan {
    /// Behind the name: the length of the name after the place it was found.
    AfterName,
    /// Ahead of the name: the length of the name before the place it was found.
    BeforeName,
}

/// The positions between which the first quoted value at or after `from`
/// stands: one behind the opening quote, and that of the closing quote.
pub open spec fn value_span(chunk: Seq<char>, from: int) -> Option<(int, int)> {
    match first_match_from(chunk, quote(), from) {
        None => None,
        Some(open) => match first_match_from(chunk, quote(), open + 1) {
            None => None,
            Some(close) => Some((open + 1, close)),
        },
    }
}

/// The first quoted value at or after `from`.
pub open spec fn value_from(chunk: Seq<char>, from: int) -> Option<Seq<char>> {
    match value_span(chunk, from) {
        None => None,
        Some(span) => Some(chunk.subrange(span.0, span.1)),
    }
}

/// The position from which the quotes of the attribute `name` are looked
/// for. There is none where the name does not occur, nor where the scan
/// would have to start before the text does.
pub open spec fn scan_start(chunk: Seq<char>, name: Seq<char>, scan: Scan) -> Option<int> {
    match first_match(chunk, name) {
        None => None,
        Some(at) => match scan {
            Scan::AfterName => Some(at + name.len()),
            Scan::BeforeName => if at >= name.len() {
                Some(at - name.len())
            } else {
                None
            },
        },
    }
}

/// The positions between which the value of the attribute `name` stands.
pub open spec fn attribute_span(chunk: Seq<char>, name: Seq<char>, scan: Scan) -> Option<
    (int, int),
> {
    match scan_start(chunk, name, scan) {
        None => None,
        Some(from) => value_span(chunk, from),
    }
}

/// The raw value of the attribute `name`.
pub open spec fn attribute_value(chunk: Seq<char>, name: Seq<char>, scan: Scan) -> Option<
    Seq<char>,
> {
    match attribute_span(chunk, name, scan) {
        None => None,
        Some(span) => Some(chunk.subrange(span.0, span.1)),
    }
}

/// `c` is one of the ten decimal digits.
pub open spec fn is_digit(c: char) -> bool {
    '0' <= c <= '9'
}

/// Every character of `s` is a decimal digit.
pub open spec fn all_digits(s: Seq<char>) -> bool {
    forall|i: int| 0 <= i < s.len() ==> is_digit(#[trigger] s[i])
}

/// The number that a run of decimal digits writes.
pub open spec fn digits_value(s: Seq<char>) -> int
    decreases s.len(),
{
    if s.len() == 0 {
        0
    } else {
        digits_value(s.drop_last()) * 10 + (s.last() as int - '0' as int)
    }
}

/// The whole number that `s` writes: an optional sign, then one or more
/// decimal digits and nothing else, within the range of 32 bits.
pub open spec fn integer_value(s: Seq<char>) -> Option<i32> {
    let signed = s.len() > 0 && (s[0] == '-' || s[0] == '+');
    let digits = if signed {
        s.skip(1)
    } else {
        s
    };
    let magnitude = digits_value(digits);
    let value = if s.len() > 0 && s[0] == '-' {
        -magnitude
    } else {
        magnitude
    };
    if digits.len() > 0 && all_digits(digits) && i32::MIN <= value <= i32::MAX {
        Some(value as i32)
    } else {
        None
    }
}

/// The switch that `s` writes: `1` is on, `0` is off.
pub open spec fn flag_value(s: Seq<char>) -> Option<bool> {
    if s == seq!['1'] {
        Some(true)
    } else if s == seq!['0'] {
        Some(false)
    } else {
        None
    }
}

/// How many decimal digits stand in a row in `s` from position `from` on.
pub open spec fn digit_run(s: Seq<char>, from: int) -> int
    decreases s.len() - from,
{
    if 0 <= from < s.len() && is_digit(s[from]) {
        1 + digit_run(s, from + 1)
    } else {
        0
    }
}

/// `s` spells a word, given in lower case as `lower` and in upper case as
/// `upper`, in any mix of the two.
pub open spec fn spells(s: Seq<char>, lower: Seq<char>, upper: Seq<char>) -> bool {
    &&& s.len() == lower.len()
    &&& s.len() == upper.len()
    &&& forall|i: int| 0 <= i < s.len() ==> #[trigger] s[i] == lower[i] || s[i] == upper[i]
}

/// From position `at` on, `s` holds an exponent and ends, or ends at once.
/// An exponent is the letter `e`, an optional sign, and one or more digits.
pub open spec fn exponent_or_end(s: Seq<char>, at: int) -> bool {
    if at == s.len() {
        true
    } else if 0 <= at < s.len() && (s[at] == 'e' || s[at] == 'E') {
        let digits_at = if at + 1 < s.len() && (s[at + 1] == '+' || s[at + 1] == '-') {
            at + 2
        } else {
            at + 1
        };
        digit_run(s, digits_at) >= 1 && digits_at + digit_run(s, digits_at) == s.len()
    } else {
        false
    }
}

/// `s` writes a decimal number: digits with at most one point among them, at
/// least one digit in all, then an optional exponent.
pub open spec fn is_decimal_number(s: Seq<char>) -> bool {
    let whole = digit_run(s, 0);
    if whole < s.len() && s[whole] == '.' {
        let fraction = digit_run(s, whole + 1);
        whole + fraction >= 1 && exponent_or_end(s, whole + 1 + fraction)
    } else {
        whole >= 1 && exponent_or_end(s, whole)
    }
}

/// `s` is a floating-point literal: an optional sign, then a decimal number
/// or one of the words `inf`, `infinity` and `nan` in any mix of cases.
pub open spec fn is_float_literal(s: Seq<char>) -> bool {
    let body = if s.len() > 0 && (s[0] == '-' || s[0] == '+') {
        s.skip(1)
    } else {
        s
    };
    ||| spells(body, seq!['i', 'n', 'f'], seq!['I', 'N', 'F'])
    ||| spells(body, seq!['n', 'a', 'n'], seq!['N', 'A', 'N'])
    ||| spells(
        body,
        seq!['i', 'n', 'f', 'i', 'n', 'i', 't', 'y'],
        seq!['I', 'N', 'F', 'I', 'N', 'I', 'T', 'Y'],
    )
    ||| is_decimal_number(body)
}

/// The floating-point literal that `s` is, as it is written.
pub open spec fn float_value(s: Seq<char>) -> Option<Seq<char>> {
    if is_float_literal(s) {
        Some(s)
    } else {
        None
    }
}

/// The value of an optional raw value as a whole number.
pub open spec fn as_integer(raw: Option<Seq<char>>) -> Option<i32> {
    match raw {
        None => None,
        Some(s) => integer_value(s),
    }
}

/// The value of an optional raw value as a switch.
pub open spec fn as_flag(raw: Option<Seq<char>>) -> Option<bool> {
    match raw {
        None => None,
        Some(s) => flag_value(s),
    }
}

/// The value of an optional raw value as a floating-point literal.
pub open spec fn as_float(raw: Option<Seq<char>>) -> Option<Seq<char>> {
    match raw {
        None => None,
        Some(s) => float_value(s),
    }
}

/// What an optional string holds.
pub open spec fn text_of(value: Option<String>) -> Option<Seq<char>> {
    match value {
        None => None,
        Some(s) => Some(s@),
    }
}

/// A quoted value lies inside the text, its end not before its start.
pub proof fn lemma_value_span_bounds(chunk: Seq<char>, from: int)
    requires
        0 <= from,
    ensures
        match value_span(chunk, from) {
            Some(span) => from < span.0 <= span.1 < chunk.len(),
            None => true,
        },
{
    lemma_first_match_from(chunk, quote(), from);
    match first_match_from(chunk, quote(), from) {
        Some(open) => {
            lemma_first_match_from(chunk, quote(), open + 1);
        },
        None => {},
    }
}

fn quote_chars() -> (q: Vec<char>)
    ensures
        q@ == quote(),
{
    let q = vec!['"'];
    assert(q@ =~= quote());
    q
}

/// Finds the first quoted value at or after `from`.
pub fn find_value(chars: &[char], from: usize) -> (found: Option<(usize, usize)>)
    ensures
        match found {
            Some(span) => value_span(chars@, from as int) == Some((span.0 as int, span.1 as int))
                && from < span.0 <= span.1 < chars@.len(),
            None => value_span(chars@, from as int) is None,
        },
{
    let q = quote_chars();
    let n = chars.len();
    proof {
        lemma_value_span_bounds(chars@, from as int);
    }
    match find_from(chars, q.as_slice(), from) {
        None => None,
        Some(open) => {
            proof {
                lemma_first_match_from(chars@, quote(), from as int);
                assert(matches_at(chars@, quote(), open as int));
                assert(quote().len() == 1);
            }
            match find_from(chars, q.as_slice(), open + 1) {
                None => None,
                Some(close) => Some((open + 1, close)),
            }
        },
    }
}

/// Finds the value of the attribute `name`.
pub fn find_attribute(chars: &[char], name: &[char], scan: Scan) -> (found: Option<
    (usize, usize),
>)
    ensures
        match found {
            Some(span) => attribute_span(chars@, name@, scan) == Some(
                (span.0 as int, span.1 as int),
            ) && span.0 <= span.1 < chars@.len(),
            None => attribute_span(chars@, name@, scan) is None,
        },
{
    let n = chars.len();
    match find(chars, name) {
        None => None,
        Some(at) => {
            proof {
                lemma_first_match_from(chars@, name@, 0);
                assert(matches_at(chars@, name@, at as int));
            }
            match scan {
                Scan::AfterName => find_value(chars, at + name.len()),
                Scan::BeforeName => {
                    if at >= name.len() {
                        find_value(chars, at - name.len())
                    } else {
                        None
                    }
                },
            }
        },
    }
}

fn is_digit_char(c: char) -> (r: bool)
    ensures
        r == is_digit(c),
{
    '0' <= c && c <= '9'
}

proof fn lemma_digits_value_grows(s: Seq<char>, n: int)
    requires
        0 <= n < s.len(),
        all_digits(s.subrange(0, n + 1)),
    ensures
        digits_value(s.subrange(0, n + 1)) == digits_value(s.subrange(0, n)) * 10 + (s[n] as int
            - '0' as int),
        0 <= s[n] as int - '0' as int <= 9,
{
    let p = s.subrange(0, n + 1);
    assert(p.drop_last() =~= s.subrange(0, n));
    assert(p.last() == s[n]);
    assert(is_digit(p[n]));
}

/// Reads a whole number: an optional sign, then one or more decimal digits
/// and nothing else, within the range of 32 bits.
pub fn parse_integer(s: &[char]) -> (value: Option<i32>)
    ensures
        value == integer_value(s@),
{
    let n = s.len();
    let signed = n > 0 && (s[0] == '-' || s[0] == '+');
    let negative = n > 0 && s[0] == '-';
    let start: usize = if signed {
        1
    } else {
        0
    };
    let digits = slice_subrange(s, start, n);
    assert(digits@ =~= if signed {
        s@.skip(1)
    } else {
        s@
    });
    let m = digits.len();
    if m == 0 {
        return None;
    }
    let mut acc: u64 = 0;
    let mut over = false;
    let mut i: usize = 0;
    while i < m
        invariant
            i <= m,
            0 < m == digits@.len(),
            signed == (s@.len() > 0 && (s@[0] == '-' || s@[0] == '+')),
            digits@ == if signed {
                s@.skip(1)
            } else {
                s@
            },
            all_digits(digits@.subrange(0, i as int)),
            !over ==> acc as int == digits_value(digits@.subrange(0, i as int)) && acc
                <= 2147483648,
            over ==> digits_value(digits@.subrange(0, i as int)) > 2147483648,
            0 <= digits_value(digits@.subrange(0, i as int)),
        decreases m - i,
    {
        let c = digits[i];
        if !is_digit_char(c) {
            assert(!is_digit(digits@[i as int]));
            assert(!all_digits(digits@));
            return None;
        }
        proof {
            assert forall|j: int| 0 <= j < i + 1 implies is_digit(
                #[trigger] digits@.subrange(0, i + 1)[j],
            ) by {
                if j < i {
                    assert(digits@.subrange(0, i as int)[j] == digits@[j]);
                }
            }
            lemma_digits_value_grows(digits@, i as int);
        }
        if !over {
            let d: u64 = (c as u32 - '0' as u32) as u64;
            let next: u64 = acc * 10 + d;
            if next > 2147483648 {
                over = true;
            } else {
                acc = next;
            }
        }
        i += 1;
    }
    assert(digits@.subrange(0, m as int) =~= digits@);
    if over {
        None
    } else if negative {
        Some((0 - acc as i64) as i32)
    } else if acc <= 2147483647 {
        Some(acc as i32)
    } else {
        None
    }
}

/// Reads a switch: `1` is on, `0` is off.
pub fn parse_flag(s: &[char]) -> (value: Option<bool>)
    ensures
        value == flag_value(s@),
{
    if s.len() == 1 && s[0] == '1' {
        assert(s@ =~= seq!['1']);
        Some(true)
    } else if s.len() == 1 && s[0] == '0' {
        assert(s@ =~= seq!['0']);
        Some(false)
    } else {
        assert(s@ != seq!['1'] && s@ != seq!['0']) by {
            if s@.len() == 1 {
                assert(seq!['1'][0] == '1');
                assert(seq!['0'][0] == '0');
            } else {
                assert(seq!['1'].len() == 1);
                assert(seq!['0'].len() == 1);
            }
        }
        None
    }
}

fn run_of_digits(s: &[char], from: usize) -> (n: usize)
    ensures
        n == digit_run(s@, from as int),
        from <= s@.len() ==> from + n <= s@.len(),
{
    if from >= s.len() {
        return 0;
    }
    let mut i: usize = from;
    while i < s.len() && is_digit_char(s[i])
        invariant
            from <= i <= s@.len(),
            digit_run(s@, from as int) == (i - from) + digit_run(s@, i as int),
        decreases s@.len() - i,
    {
        i += 1;
    }
    i - from
}

fn spells_word(s: &[char], lower: &[char], upper: &[char]) -> (r: bool)
    ensures
        r == spells(s@, lower@, upper@),
{
    if s.len() != lower.len() || s.len() != upper.len() {
        return false;
    }
    let mut i: usize = 0;
    while i < s.len()
        invariant
            i <= s@.len(),
            s@.len() == lower@.len(),
            s@.len() == upper@.len(),
            forall|j: int| 0 <= j < i ==> #[trigger] s@[j] == lower@[j] || s@[j] == upper@[j],
        decreases s@.len() - i,
    {
        if s[i] != lower[i] && s[i] != upper[i] {
            return false;
        }
        i += 1;
    }
    true
}

fn exponent_or_end_at(s: &[char], at: usize) -> (r: bool)
    requires
        at <= s@.len(),
    ensures
        r == exponent_or_end(s@, at as int),
{
    let n = s.len();
    if at == n {
        return true;
    }
    let c = s[at];
    if !(c == 'e' || c == 'E') {
        return false;
    }
    let digits_at: usize = if at + 1 < n && (s[at + 1] == '+' || s[at + 1] == '-') {
        at + 2
    } else {
        at + 1
    };
    let run = run_of_digits(s, digits_at);
    run >= 1 && digits_at + run == n
}

fn decimal_number(s: &[char]) -> (r: bool)
    ensures
        r == is_decimal_number(s@),
{
    let n = s.len();
    let whole = run_of_digits(s, 0);
    if whole < n && s[whole] == '.' {
        let fraction = run_of_digits(s, whole + 1);
        whole + fraction >= 1 && exponent_or_end_at(s, whole + 1 + fraction)
    } else {
        whole >= 1 && exponent_or_end_at(s, whole)
    }
}

/// Tells whether `s` is a floating-point literal.
pub fn parse_float(s: &[char]) -> (r: bool)
    ensures
        r == is_float_literal(s@),
{
    let n = s.len();
    let start: usize = if n > 0 && (s[0] == '-' || s[0] == '+') {
        1
    } else {
        0
    };
    let body = slice_subrange(s, start, n);
    assert(body@ =~= if start == 1 {
        s@.skip(1)
    } else {
        s@
    });
    let inf = vec!['i', 'n', 'f'];
    let inf_upper = vec!['I', 'N', 'F'];
    let nan = vec!['n', 'a', 'n'];
    let nan_upper = vec!['N', 'A', 'N'];
    let infinity = vec!['i', 'n', 'f', 'i', 'n', 'i', 't', 'y'];
    let infinity_upper = vec!['I', 'N', 'F', 'I', 'N', 'I', 'T', 'Y'];
    assert(inf@ =~= seq!['i', 'n', 'f']);
    assert(inf_upper@ =~= seq!['I', 'N', 'F']);
    assert(nan@ =~= seq!['n', 'a', 'n']);
    assert(nan_upper@ =~= seq!['N', 'A', 'N']);
    assert(infinity@ =~= seq!['i', 'n', 'f', 'i', 'n', 'i', 't', 'y']);
    assert(infinity_upper@ =~= seq!['I', 'N', 'F', 'I', 'N', 'I', 'T', 'Y']);
    spells_word(body, inf.as_slice(), inf_upper.as_slice()) || spells_word(
        body,
        nan.as_slice(),
        nan_upper.as_slice(),
    ) || spells_word(body, infinity.as_slice(), infinity_upper.as_slice()) || decimal_number(
        body,
    )
}

/// The attribute `name` of `chunk` as a whole number.
pub open spec fn integer_in(chunk: Seq<char>, name: &str, scan: Scan) -> Option<i32> {
    as_integer(attribute_value(chunk, name@, scan))
}

/// The attribute `name` of `chunk` as a switch.
pub open spec fn flag_in(chunk: Seq<char>, name: &str, scan: Scan) -> Option<bool> {
    as_flag(attribute_value(chunk, name@, scan))
}

/// The attribute `name` of `chunk` as a floating-point literal.
pub open spec fn float_in(chunk: Seq<char>, name: &str, scan: Scan) -> Option<Seq<char>> {
    as_float(attribute_value(chunk, name@, scan))
}

/// The attribute `name` of `chunk` as it is written.
pub open spec fn text_in(chunk: Seq<char>, name: &str, scan: Scan) -> Option<Seq<char>> {
    attribute_value(chunk, name@, scan)
}

/// Reads the first quoted value of `chunk` as a whole number.
pub fn get_property_value_integer(chunk: &str) -> (value: Option<i32>)
    ensures
        value == as_integer(value_from(chunk@, 0)),
{
    let chars = chars_of(chunk);
    match find_value(chars.as_slice(), 0) {
        None => None,
        Some(span) => parse_integer(slice_subrange(chars.as_slice(), span.0, span.1)),
    }
}

/// Reads the first quoted value of `chunk` as a switch.
pub fn get_property_value_bool(chunk: &str) -> (value: Option<bool>)
    ensures
        value == as_flag(value_from(chunk@, 0)),
{
    let chars = chars_of(chunk);
    match find_value(chars.as_slice(), 0) {
        None => None,
        Some(span) => parse_flag(slice_subrange(chars.as_slice(), span.0, span.1)),
    }
}

/// Reads the first quoted value of `chunk` as it is written.
pub fn get_property_value_str(chunk: &str) -> (value: Option<String>)
    ensures
        text_of(value) == value_from(chunk@, 0),
{
    let chars = chars_of(chunk);
    match find_value(chars.as_slice(), 0) {
        None => None,
        Some(span) => Some(chunk.substring_char(span.0, span.1).to_owned()),
    }
}

/// Reads the first quoted value of `chunk` as a floating-point literal, and
/// returns the literal as it is written.
pub fn get_property_value_float(chunk: &str) -> (value: Option<String>)
    ensures
        text_of(value) == as_float(value_from(chunk@, 0)),
{
    let chars = chars_of(chunk);
    match find_value(chars.as_slice(), 0) {
        None => None,
        Some(span) => {
            if parse_float(slice_subrange(chars.as_slice(), span.0, span.1)) {
                Some(chunk.substring_char(span.0, span.1).to_owned())
            } else {
                None
            }
        },
    }
}

/// The text of a tag, held both as a string and as its characters.
pub struct TagText<'a> {
    text: &'a str,
    chars: Vec<char>,
}

impl<'a> TagText<'a> {
    #[verifier::type_invariant]
    spec fn consistent(self) -> bool {
        self.chars@ == self.text@
    }

    /// The characters of the tag.
    pub closed spec fn view(&self) -> Seq<char> {
        self.text@
    }

    /// Takes the text of a tag.
    pub fn new(text: &'a str) -> (tag: Self)
        ensures
            tag@ == text@,
    {
        TagText { text, chars: chars_of(text) }
    }

    /// Reads the attribute `name` as a whole number.
    pub fn integer(&self, name: &str, scan: Scan) -> (value: Option<i32>)
        ensures
            value == integer_in(self@, name, scan),
    {
        proof {
            use_type_invariant(self);
        }
        let name_chars = chars_of(name);
        match find_attribute(self.chars.as_slice(), name_chars.as_slice(), scan) {
            None => None,
            Some(span) => parse_integer(slice_subrange(self.chars.as_slice(), span.0, span.1)),
        }
    }

    /// Reads the attribute `name` as a switch.
    pub fn flag(&self, name: &str, scan: Scan) -> (value: Option<bool>)
        ensures
            value == flag_in(self@, name, scan),
    {
        proof {
            use_type_invariant(self);
        }
        let name_chars = chars_of(name);
        match find_attribute(self.chars.as_slice(), name_chars.as_slice(), scan) {
            None => None,
            Some(span) => parse_flag(slice_subrange(self.chars.as_slice(), span.0, span.1)),
        }
    }

    /// Reads the attribute `name` as it is written.
    pub fn text(&self, name: &str, scan: Scan) -> (value: Option<String>)
        ensures
            text_of(value) == text_in(self@, name, scan),
    {
        proof {
            use_type_invariant(self);
        }
        let name_chars = chars_of(name);
        match find_attribute(self.chars.as_slice(), name_chars.as_slice(), scan) {
            None => None,
            Some(span) => Some(self.text.substring_char(span.0, span.1).to_owned()),
        }
    }

    /// Reads the attribute `name` as a floating-point literal, and returns
    /// the literal as it is written.
    pub fn float(&self, name: &str, scan: Scan) -> (value: Option<String>)
        ensures
            text_of(value) == float_in(self@, name, scan),
    {
        proof {
            use_type_invariant(self);
        }
        let name_chars = chars_of(name);
        match find_attribute(self.chars.as_slice(), name_chars.as_slice(), scan) {
            None => None,
            Some(span) => {
                if parse_float(slice_subrange(self.chars.as_slice(), span.0, span.1)) {
                    Some(self.text.substring_char(span.0, span.1).to_owned())
                } else {
                    None
                }
            },
        }
    }
}

} // verus!
