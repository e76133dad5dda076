//! Text helpers: characters of a string, trimming, decimal rendering and
//! parsing of integers, and the few std string functions the library calls.

use vstd::prelude::*;

verus! {

/// Calls `String::push`; the contract claims that the string's characters
/// become the old ones followed by `c`, as its documentation states.
#[verifier::external_body]
pub(crate) fn push_char(s: &mut String, c: char)
    ensures
        final(s)@ == old(s)@.push(c),
{
    s.push(c);
}

/// What `str::to_uppercase` makes of a text (upper case by the Unicode
/// case tables of std).
pub uninterp spec fn uppercase_of(s: Seq<char>) -> Seq<char>;

/// Calls `str::to_uppercase`. The contract only names the result as
/// [`uppercase_of`] of the input: the Unicode case mapping is not restated.
#[verifier::external_body]
pub(crate) fn to_uppercase(s: &str) -> (res: String)
    ensures
        res@ == uppercase_of(s@),
{
    s.to_uppercase()
}

/// What `String::from_utf8_lossy` makes of a sequence of bytes.
pub uninterp spec fn utf8_lossy_of(bytes: Seq<u8>) -> Seq<char>;

/// Calls `String::from_utf8_lossy` and takes the result as an owned string.
/// The contract names the result as [`utf8_lossy_of`] of the bytes and
/// claims, as the documentation states, that valid UTF-8 gives its decoded
/// characters; how invalid sequences become U+FFFD is not restated.
#[verifier::external_body]
pub(crate) fn utf8_lossy(bytes: &[u8]) -> (res: String)
    ensures
        res@ == utf8_lossy_of(bytes@),
        vstd::utf8::valid_utf8(bytes@) ==> res@ == vstd::utf8::decode_utf8(bytes@),
{
    String::from_utf8_lossy(bytes).into_owned()
}

/// The characters of a string, in order.
pub fn chars_of(s: &str) -> (res: Vec<char>)
    ensures
        res@ == s@,
{
    broadcast use vstd::string::group_string_axioms;
    let mut out: Vec<char> = Vec::new();
    for c in it: s.chars()
        invariant
            it.seq() == s@,
            out@ == it.seq().take(it.index() as int),
    {
        out.push(c);
    }
    out
}

/// A string holding the given characters.
pub fn string_from_chars(cs: &[char]) -> (res: String)
    ensures
        res@ == cs@,
{
    let mut out = String::new();
    let n = cs.len();
    let mut i: usize = 0;
    while i < n
        invariant
            n == cs@.len(),
            i <= n,
            out@ == cs@.take(i as int),
        decreases n - i,
    {
        push_char(&mut out, cs[i]);
        assert(cs@.take(i as int + 1) =~= cs@.take(i as int).push(cs@[i as int]));
        i = i + 1;
    }
    assert(cs@.take(n as int) =~= cs@);
    out
}

/// Whether a character has the Unicode `White_Space` property, which is what
/// `char::is_whitespace` tests.
pub open spec fn spec_is_whitespace(c: char) -> bool {
    let u = c as u32;
    (0x9 <= u <= 0xd) || u == 0x20 || u == 0x85 || u == 0xa0 || u == 0x1680
        || (0x2000 <= u <= 0x200a) || u == 0x2028 || u == 0x2029 || u == 0x202f
        || u == 0x205f || u == 0x3000
}

/// `char::is_whitespace`.
pub fn is_whitespace(c: char) -> (res: bool)
    ensures
        res == spec_is_whitespace(c),
{
    let u = c as u32;
    (0x9 <= u && u <= 0xd) || u == 0x20 || u == 0x85 || u == 0xa0 || u == 0x1680
        || (0x2000 <= u && u <= 0x200a) || u == 0x2028 || u == 0x2029 || u == 0x202f
        || u == 0x205f || u == 0x3000
}

/// The position of the first character at or after `i` that is not whitespace
/// (the length where there is none).
pub open spec fn skip_leading(s: Seq<char>, i: int) -> int
    decreases s.len() - i,
{
    if 0 <= i < s.len() && spec_is_whitespace(s[i]) {
        skip_leading(s, i + 1)
    } else {
        i
    }
}

/// The end of `s` once the whitespace before position `j` and after `lo` is
/// dropped.
pub open spec fn skip_trailing(s: Seq<char>, lo: int, j: int) -> int
    decreases j - lo,
{
    if lo < j && j <= s.len() && spec_is_whitespace(s[j - 1]) {
        skip_trailing(s, lo, j - 1)
    } else {
        j
    }
}

/// `str::trim`: the text without its leading and trailing whitespace.
pub open spec fn spec_trim(s: Seq<char>) -> Seq<char> {
    let lo = skip_leading(s, 0);
    s.subrange(lo, skip_trailing(s, lo, s.len() as int))
}

proof fn lemma_skip_leading_bounds(s: Seq<char>, i: int)
    requires
        0 <= i <= s.len(),
    ensures
        i <= skip_leading(s, i) <= s.len(),
        skip_leading(s, i) < s.len() ==> !spec_is_whitespace(s[skip_leading(s, i)]),
        forall|k: int| i <= k < skip_leading(s, i) ==> spec_is_whitespace(#[trigger] s[k]),
    decreases s.len() - i,
{
    if i < s.len() && spec_is_whitespace(s[i]) {
        lemma_skip_leading_bounds(s, i + 1);
    }
}

proof fn lemma_skip_trailing_bounds(s: Seq<char>, lo: int, j: int)
    requires
        0 <= lo <= j <= s.len(),
    ensures
        lo <= skip_trailing(s, lo, j) <= j,
        lo < skip_trailing(s, lo, j) ==> !spec_is_whitespace(s[skip_trailing(s, lo, j) - 1]),
        forall|k: int| skip_trailing(s, lo, j) <= k < j ==> spec_is_whitespace(#[trigger] s[k]),
    decreases j - lo,
{
    if lo < j && spec_is_whitespace(s[j - 1]) {
        lemma_skip_trailing_bounds(s, lo, j - 1);
    }
}

/// Trimming removes whitespace and nothing else, from the ends only: the
/// text is some whitespace, then the trimmed text, then some whitespace;
/// the trimmed text neither starts nor ends with whitespace; and trimming it
/// again changes nothing.
pub proof fn lemma_trim_strips_ends(s: Seq<char>)
    ensures
        exists|lo: int, hi: int|
            0 <= lo <= hi <= s.len() && spec_trim(s) == s.subrange(lo, hi) && (forall|k: int|
                0 <= k < lo ==> spec_is_whitespace(#[trigger] s[k])) && (forall|k: int|
                hi <= k < s.len() ==> spec_is_whitespace(#[trigger] s[k])),
        spec_trim(s).len() > 0 ==> !spec_is_whitespace(spec_trim(s)[0]) && !spec_is_whitespace(
            spec_trim(s).last(),
        ),
        spec_trim(spec_trim(s)) == spec_trim(s),
{
    let lo = skip_leading(s, 0);
    lemma_skip_leading_bounds(s, 0);
    let hi = skip_trailing(s, lo, s.len() as int);
    lemma_skip_trailing_bounds(s, lo, s.len() as int);
    let t = s.subrange(lo, hi);
    assert(spec_trim(s) == t);
    if t.len() > 0 {
        assert(t[0] == s[lo]);
        assert(t.last() == s[hi - 1]);
        lemma_skip_leading_bounds(t, 0);
        assert(skip_leading(t, 0) == 0);
        lemma_skip_trailing_bounds(t, 0, t.len() as int);
        assert(skip_trailing(t, 0, t.len() as int) == t.len());
        assert(t.subrange(0, t.len() as int) =~= t);
    } else {
        assert(t.subrange(0, 0) =~= t);
    }
}

/// Trims whitespace from both ends of a text (`str::trim`).
pub fn trim(s: &str) -> (res: String)
    ensures
        res@ == spec_trim(s@),
{
    let cs = chars_of(s);
    let n = cs.len();
    let mut lo: usize = 0;
    while lo < n && is_whitespace(cs[lo])
        invariant
            n == cs@.len(),
            cs@ == s@,
            lo <= n,
            skip_leading(s@, 0) == skip_leading(s@, lo as int),
        decreases n - lo,
    {
        lo = lo + 1;
    }
    let mut hi: usize = n;
    while hi > lo && is_whitespace(cs[hi - 1])
        invariant
            n == cs@.len(),
            cs@ == s@,
            lo <= hi <= n,
            skip_trailing(s@, lo as int, n as int) == skip_trailing(s@, lo as int, hi as int),
        decreases hi - lo,
    {
        hi = hi - 1;
    }
    let slice = vstd::slice::slice_subrange(cs.as_slice(), lo, hi);
    string_from_chars(slice)
}

/// The decimal digit character for `d` in `0..10`.
pub open spec fn digit_char(d: int) -> char {
    ((d + 48) as u32) as char
}

/// The decimal digits of a natural number, without leading zeros.
pub open spec fn nat_digits(n: nat) -> Seq<char>
    decreases n,
{
    if n < 10 {
        seq![digit_char(n as int)]
    } else {
        nat_digits(n / 10).push(digit_char((n % 10) as int))
    }
}

/// The decimal text of an integer, as `to_string` gives it: a minus sign for
/// negative values, then the digits.
pub open spec fn int_decimal(i: int) -> Seq<char> {
    if i < 0 {
        seq!['-'] + nat_digits((-i) as nat)
    } else {
        nat_digits(i as nat)
    }
}

fn push_digits(s: &mut String, n: u64)
    ensures
        final(s)@ == old(s)@ + nat_digits(n as nat),
    decreases n,
{
    if n >= 10 {
        push_digits(s, n / 10);
    }
    let d = (n % 10) as u8;
    let c = (d + 48) as char;
    push_char(s, c);
    assert(nat_digits(n as nat) =~= if n < 10 {
        seq![digit_char(n as int)]
    } else {
        nat_digits((n / 10) as nat).push(digit_char((n % 10) as int))
    });
}

/// The decimal text of an integer (`i64::to_string`).
pub fn decimal(i: i64) -> (res: String)
    ensures
        res@ == int_decimal(i as int),
{
    let mut out = String::new();
    if i < 0 {
        push_char(&mut out, '-');
        let magnitude: u64 = if i == i64::MIN {
            9223372036854775808u64
        } else {
            (-i) as u64
        };
        push_digits(&mut out, magnitude);
    } else {
        push_digits(&mut out, i as u64);
    }
    out
}

/// Whether a character is an ASCII decimal digit.
pub open spec fn is_digit(c: char) -> bool {
    '0' <= c <= '9'
}

/// Whether every character is an ASCII decimal digit.
pub open spec fn all_digits(d: Seq<char>) -> bool {
    forall|k: int| 0 <= k < d.len() ==> is_digit(#[trigger] d[k])
}

/// The value of a sequence of decimal digits (0 for none).
pub open spec fn digits_value(d: Seq<char>) -> int
    decreases d.len(),
{
    if d.len() == 0 {
        0
    } else {
        digits_value(d.drop_last()) * 10 + (d.last() as int - 48)
    }
}

/// The value that `str::parse::<i64>` gives: an optional `+` or `-` sign,
/// then one or more ASCII digits, with the value in the range of `i64`;
/// `None` for anything else.
pub open spec fn spec_parse_i64(s: Seq<char>) -> Option<i64> {
    let negative = s.len() > 0 && s[0] == '-';
    let signed = s.len() > 0 && (s[0] == '-' || s[0] == '+');
    let d = if signed { s.drop_first() } else { s };
    let v = if negative { -digits_value(d) } else { digits_value(d) };
    if d.len() == 0 || !all_digits(d) {
        None
    } else if i64::MIN <= v <= i64::MAX {
        Some(v as i64)
    } else {
        None
    }
}

proof fn lemma_digits_value_nonneg(d: Seq<char>)
    requires
        forall|k: int| 0 <= k < d.len() ==> is_digit(#[trigger] d[k]),
    ensures
        digits_value(d) >= 0,
    decreases d.len(),
{
    if d.len() > 0 {
        lemma_digits_value_nonneg(d.drop_last());
    }
}

proof fn lemma_nat_digits(n: nat)
    ensures
        nat_digits(n).len() > 0,
        all_digits(nat_digits(n)),
        digits_value(nat_digits(n)) == n,
    decreases n,
{
    let s = nat_digits(n);
    if n < 10 {
        assert(s.drop_last() =~= Seq::<char>::empty());
        assert(digit_char(n as int) as int == n + 48);
        assert(s.last() == digit_char(n as int));
        assert(digits_value(s) == digits_value(s.drop_last()) * 10 + (s.last() as int - 48));
    } else {
        lemma_nat_digits(n / 10);
        let t = nat_digits(n / 10);
        assert(s.drop_last() =~= t);
        assert(digit_char((n % 10) as int) as int == n % 10 + 48);
        assert forall|k: int| 0 <= k < s.len() implies is_digit(#[trigger] s[k]) by {
            if k < t.len() {
                assert(s[k] == t[k]);
            }
        }
        assert(s.last() == digit_char((n % 10) as int));
        assert(digits_value(s) == digits_value(s.drop_last()) * 10 + (s.last() as int - 48));
        assert((n / 10) * 10 + n % 10 == n);
    }
}

/// The decimal text of a natural number ends with its last digit, has no
/// leading zero (but for 0 itself, written `0`), and a negative integer is
/// written as `-` and the digits of its magnitude.
pub proof fn lemma_decimal_shape(n: nat, i: int)
    ensures
        nat_digits(n).last() == digit_char((n % 10) as int),
        n > 0 ==> nat_digits(n)[0] != '0',
        nat_digits(0) == seq!['0'],
        i < 0 ==> int_decimal(i) == seq!['-'] + nat_digits((-i) as nat),
        i >= 0 ==> int_decimal(i) == nat_digits(i as nat),
    decreases n,
{
    if n >= 10 {
        lemma_decimal_shape(n / 10, i);
        lemma_nat_digits(n / 10);
        assert(nat_digits(n)[0] == nat_digits(n / 10)[0]);
    } else if n > 0 {
        assert(digit_char(n as int) as int == n + 48);
    }
    assert(digit_char(0) as int == 48);
}

/// Only a sign followed by digits, or digits alone, parse: every character
/// after the first is a digit, the first is a digit or a sign, and a sign
/// alone does not parse.
pub proof fn lemma_parse_accepts_only_digits(s: Seq<char>)
    ensures
        spec_parse_i64(s) is Some ==> s.len() > 0 && (is_digit(s[0]) || ((s[0] == '-' || s[0] == '+') && s.len()
            > 1)) && forall|k: int| 1 <= k < s.len() ==> is_digit(#[trigger] s[k]),
        s.len() == 0 ==> spec_parse_i64(s) is None,
{
    if spec_parse_i64(s) is Some {
        let signed = s[0] == '-' || s[0] == '+';
        if signed {
            let d = s.drop_first();
            assert forall|k: int| 1 <= k < s.len() implies is_digit(#[trigger] s[k]) by {
                assert(s[k] == d[k - 1]);
            }
        } else {
            assert(is_digit(s[0]));
        }
    }
}

/// A leading `+` changes nothing: `+` followed by digits parses as the
/// digits alone, and `-` followed by digits as their negation.
pub proof fn lemma_parse_sign(d: Seq<char>)
    requires
        d.len() > 0,
        all_digits(d),
    ensures
        spec_parse_i64(seq!['+'] + d) == spec_parse_i64(d),
        spec_parse_i64(d) is Some ==> spec_parse_i64(seq!['-'] + d) == Some((-(spec_parse_i64(d)->0)) as i64),
{
    assert((seq!['+'] + d).drop_first() =~= d);
    assert((seq!['-'] + d).drop_first() =~= d);
    assert(is_digit(d[0]));
    lemma_digits_value_nonneg(d);
}

/// The characters `char::is_whitespace` accepts: the ASCII tab, line feed,
/// vertical tab, form feed, carriage return and space, the next line and
/// no-break spaces, and the Unicode spaces and separators; letters, digits
/// and the zero-width space are not whitespace.
pub proof fn lemma_whitespace_set()
    ensures
        spec_is_whitespace('\t') && spec_is_whitespace('\n') && spec_is_whitespace('\r') && spec_is_whitespace(' '),
        spec_is_whitespace('\u{0B}') && spec_is_whitespace('\u{0C}'),
        spec_is_whitespace('\u{85}') && spec_is_whitespace('\u{A0}') && spec_is_whitespace('\u{1680}'),
        spec_is_whitespace('\u{2000}') && spec_is_whitespace('\u{200A}') && spec_is_whitespace('\u{2028}'),
        spec_is_whitespace('\u{2029}') && spec_is_whitespace('\u{202F}') && spec_is_whitespace('\u{205F}'),
        spec_is_whitespace('\u{3000}'),
        !spec_is_whitespace('a') && !spec_is_whitespace('0') && !spec_is_whitespace('\u{200B}'),
        !spec_is_whitespace('\u{FEFF}') && !spec_is_whitespace('\u{0}'),
{
}

/// Parsing reads back exactly what decimal rendering writes: for every
/// `i64`, the text `to_string` gives parses to the same value.
pub proof fn lemma_parse_decimal_round_trip(v: i64)
    ensures
        spec_parse_i64(int_decimal(v as int)) == Some(v),
{
    if v >= 0 {
        let s = nat_digits(v as nat);
        lemma_nat_digits(v as nat);
        assert(is_digit(s[0]));
    } else {
        let t = nat_digits((-(v as int)) as nat);
        lemma_nat_digits((-(v as int)) as nat);
        let s = seq!['-'] + t;
        assert(s =~= int_decimal(v as int));
        assert(s.drop_first() =~= t);
    }
}

/// Parses a decimal integer (`str::parse::<i64>`), `None` where the text is
/// not one.
pub fn parse_i64(s: &str) -> (res: Option<i64>)
    ensures
        res == spec_parse_i64(s@),
{
    let cs = chars_of(s);
    let n = cs.len();
    if n == 0 {
        return None;
    }
    let negative = cs[0] == '-';
    let start: usize = if cs[0] == '-' || cs[0] == '+' { 1 } else { 0 };
    let ghost d = if start == 1 { s@.drop_first() } else { s@ };
    assert(d =~= s@.subrange(start as int, n as int));
    if start == n {
        return None;
    }
    // The magnitude, held at `cap` once it passes the largest one that fits.
    let cap: u128 = 9223372036854775809u128;
    let mut acc: u128 = 0;
    let mut i: usize = start;
    while i < n
        invariant
            n == cs@.len(),
            cs@ == s@,
            start <= i <= n,
            d =~= s@.subrange(start as int, n as int),
            d == if start == 1 { s@.drop_first() } else { s@ },
            n > 0,
            start == (if s@[0] == '-' || s@[0] == '+' { 1usize } else { 0usize }),
            negative == (s@[0] == '-'),
            forall|k: int| 0 <= k < i - start ==> is_digit(#[trigger] d[k]),
            acc as int == if digits_value(d.take(i - start)) < cap {
                digits_value(d.take(i - start))
            } else {
                cap as int
            },
            cap == 9223372036854775809u128,
        decreases n - i,
    {
        let c = cs[i];
        if !('0' <= c && c <= '9') {
            assert(!is_digit(d[i - start]));
            assert(!all_digits(d));
            return None;
        }
        proof {
            assert(d.take(i - start + 1).drop_last() =~= d.take(i - start));
            lemma_digits_value_nonneg(d.take(i - start));
        }
        let digit = (c as u32 - 48) as u128;
        if acc >= cap {
            acc = cap;
        } else {
            let next = acc * 10 + digit;
            acc = if next >= cap { cap } else { next };
        }
        i = i + 1;
    }
    assert(d.take(n - start) =~= d);
    proof {
        lemma_digits_value_nonneg(d);
    }
    if negative {
        if acc <= 9223372036854775807u128 {
            Some(-(acc as i64))
        } else if acc == 9223372036854775808u128 {
            Some(i64::MIN)
        } else {
            None
        }
    } else {
        if acc <= 9223372036854775807u128 {
            Some(acc as i64)
        } else {
            None
        }
    }
}

} // verus!
