//! Text helpers shared by the pool, resolver and aggregator code: comparison,
//! prefixes, and decimal numbers written as text.

use vstd::prelude::*;
use vstd::string::StringSliceAdditionalSpecFns;
use vstd::string::StrSliceExecFns;
use vstd::string::StringExecFns;
use vstd::utf8::encode_utf8_decode_utf8;
use vstd::utf8::is_ascii_chars;
use vstd::utf8::is_ascii_chars_encode_utf8;
use crate::util::search::first_index;
use crate::util::search::lemma_first_index;

verus! {

/// Two texts with the same UTF-8 encoding are the same text.
pub proof fn lemma_same_bytes_same_text(a: Seq<char>, b: Seq<char>)
    requires
        vstd::utf8::encode_utf8(a) == vstd::utf8::encode_utf8(b),
    ensures
        a == b,
{
    encode_utf8_decode_utf8(a);
    encode_utf8_decode_utf8(b);
}

/// Whether two string slices hold the same text.
pub fn str_eq(a: &str, b: &str) -> (same: bool)
    ensures
        same == (a@ == b@),
{
    let x = a.as_bytes();
    let y = b.as_bytes();
    if x.len() != y.len() {
        return false;
    }
    let n: usize = x.len();
    let mut i: usize = 0;
    while i < n
        invariant
            i <= n,
            n == x@.len(),
            n == y@.len(),
            x@ == a.spec_bytes(),
            y@ == b.spec_bytes(),
            forall|k: int| 0 <= k < i ==> x@[k] == y@[k],
        decreases n - i,
    {
        if x[i] != y[i] {
            return false;
        }
        i += 1;
    }
    proof {
        assert(x@ =~= y@);
        lemma_same_bytes_same_text(a@, b@);
    }
    true
}

/// Whether `text` begins with `prefix`. Meant for the short prefixes that
/// mark a kind of denom; the cost grows with the square of the prefix length.
pub fn starts_with(text: &str, prefix: &str) -> (found: bool)
    ensures
        found == prefix@.is_prefix_of(text@),
{
    let n: usize = prefix.unicode_len();
    let m: usize = text.unicode_len();
    if m < n {
        return false;
    }
    let mut i: usize = 0;
    while i < n
        invariant
            i <= n,
            n <= m,
            n == prefix@.len(),
            m == text@.len(),
            forall|k: int| 0 <= k < i ==> text@[k] == prefix@[k],
        decreases n - i,
    {
        if text.get_char(i) != prefix.get_char(i) {
            return false;
        }
        i += 1;
    }
    true
}

/// The text that follows the first `skip` characters of `text`: nothing
/// where the text has no more than that.
pub fn skip_chars(text: &str, skip: usize) -> (rest: &str)
    ensures
        rest@ == if skip <= text@.len() {
            text@.skip(skip as int)
        } else {
            Seq::<char>::empty()
        },
{
    let m: usize = text.unicode_len();
    let from: usize = if skip <= m {
        skip
    } else {
        m
    };
    let rest = text.substring_char(from, m);
    rest
}

/// A slash.
pub open spec fn is_slash(c: char) -> bool {
    c == '/'
}

/// What stands between the first slash of `text` and the next, or the end
/// of the text where no second slash follows. There is none where the text
/// has no slash.
pub open spec fn second_segment(text: Seq<char>) -> Option<Seq<char>> {
    match first_index(text, |c: char| is_slash(c)) {
        None => None,
        Some(i) => {
            let rest = text.skip(i + 1);
            match first_index(rest, |c: char| is_slash(c)) {
                None => Some(rest),
                Some(j) => Some(rest.take(j)),
            }
        },
    }
}

/// The position of the first slash of `text` at or after `from`. The cost
/// grows with the square of the distance; meant for denoms.
fn find_slash(text: &str, from: usize) -> (found: Option<usize>)
    requires
        from <= text@.len(),
    ensures
        match found {
            Some(i) => first_index(text@.skip(from as int), |c: char| is_slash(c)) == Some(
                i - from,
            ) && from <= i < text@.len(),
            None => first_index(text@.skip(from as int), |c: char| is_slash(c)) is None,
        },
{
    let n: usize = text.unicode_len();
    let ghost rest = text@.skip(from as int);
    let mut i: usize = from;
    while i < n
        invariant
            from <= i <= n,
            n == text@.len(),
            rest == text@.skip(from as int),
            forall|j: int| 0 <= j < i - from ==> !is_slash(#[trigger] rest[j]),
        decreases n - i,
    {
        if text.get_char(i) == '/' {
            proof {
                assert(rest[i - from] == text@[i as int]);
                lemma_first_index(rest, |c: char| is_slash(c));
            }
            return Some(i);
        }
        i += 1;
    }
    proof {
        lemma_first_index(rest, |c: char| is_slash(c));
    }
    None
}

/// What stands between the first slash of `text` and the next.
pub fn segment_after_slash(text: &str) -> (segment: Option<&str>)
    ensures
        segment.deep_view() == second_segment(text@),
{
    let first = match find_slash(text, 0) {
        Some(i) => i,
        None => {
            assert(text@.skip(0) =~= text@);
            return None;
        },
    };
    assert(text@.skip(0) =~= text@);
    let n: usize = text.unicode_len();
    let end = match find_slash(text, first + 1) {
        Some(j) => j,
        None => n,
    };
    let segment = text.substring_char(first + 1, end);
    Some(segment)
}

/// A fresh `String` holding `a` followed by `b`.
pub fn concat2(a: &str, b: &str) -> (joined: String)
    ensures
        joined@ == a@ + b@,
{
    let mut joined = String::from_str(a);
    joined.append(b);
    joined
}

/// A copy of an optional text.
pub fn clone_text_option(text: &Option<String>) -> (copy: Option<String>)
    ensures
        copy == *text,
{
    match text {
        Some(t) => Some(t.clone()),
        None => None,
    }
}

/// Pushing a text onto a list pushes its characters onto the list's view.
pub proof fn lemma_texts_push(before: Vec<String>, after: Vec<String>, pushed: String)
    requires
        after@ == before@.push(pushed),
    ensures
        after.deep_view() == before.deep_view().push(pushed@),
{
    assert(after.deep_view() =~= before.deep_view().push(pushed@));
}

/// A decimal digit.
pub open spec fn is_digit(c: char) -> bool {
    '0' <= c <= '9'
}

/// What a decimal digit counts for; zero for any other character.
pub open spec fn digit_value(c: char) -> nat {
    if is_digit(c) {
        (c as int - '0' as int) as nat
    } else {
        0
    }
}

/// The character that writes a digit below ten.
pub open spec fn digit_char(d: nat) -> char
    recommends
        d < 10,
{
    ((48 + d) as u8) as char
}

/// Every character of `s` is a decimal digit.
pub open spec fn all_digits(s: Seq<char>) -> bool {
    forall|i: int| 0 <= i < s.len() ==> is_digit(#[trigger] s[i])
}

/// The number that a run of decimal digits writes, most significant first.
pub open spec fn decimal_value(s: Seq<char>) -> nat
    decreases s.len(),
{
    if s.len() == 0 {
        0
    } else {
        decimal_value(s.drop_last()) * 10 + digit_value(s.last())
    }
}

/// The shortest decimal writing of `n`.
pub open spec fn decimal_digits(n: nat) -> Seq<char>
    decreases n,
{
    if n < 10 {
        seq![digit_char(n)]
    } else {
        decimal_digits(n / 10).push(digit_char(n % 10))
    }
}

/// The digits of a number written with an optional leading plus sign.
pub open spec fn unsigned_digits(s: Seq<char>) -> Seq<char> {
    if s.len() > 0 && s[0] == '+' {
        s.skip(1)
    } else {
        s
    }
}

/// The number that `s` writes in decimal, if it writes one that is at most
/// `max`: an optional plus sign, then one or more digits and nothing else.
pub open spec fn parse_decimal(s: Seq<char>, max: nat) -> Option<nat> {
    let digits = unsigned_digits(s);
    if digits.len() > 0 && all_digits(digits) && decimal_value(digits) <= max {
        Some(decimal_value(digits))
    } else {
        None
    }
}

/// Reading an unsigned 128-bit number.
pub open spec fn parse_u128_spec(s: Seq<char>) -> Option<u128> {
    match parse_decimal(s, u128::MAX as nat) {
        Some(v) => Some(v as u128),
        None => None,
    }
}

/// Reading an unsigned 64-bit number.
pub open spec fn parse_u64_spec(s: Seq<char>) -> Option<u64> {
    match parse_decimal(s, u64::MAX as nat) {
        Some(v) => Some(v as u64),
        None => None,
    }
}

/// A longer run of characters never writes a smaller number than its prefix.
pub proof fn lemma_decimal_value_prefix(s: Seq<char>, k: int)
    requires
        0 <= k <= s.len(),
    ensures
        decimal_value(s.take(k)) <= decimal_value(s),
    decreases s.len() - k,
{
    if k == s.len() {
        assert(s.take(k) =~= s);
    } else {
        lemma_decimal_value_prefix(s, k + 1);
        assert(s.take(k + 1).drop_last() =~= s.take(k));
    }
}

/// Writing a number and reading it back gives the number.
pub proof fn lemma_decimal_digits_value(n: nat)
    ensures
        decimal_digits(n).len() > 0,
        all_digits(decimal_digits(n)),
        decimal_value(decimal_digits(n)) == n,
        unsigned_digits(decimal_digits(n)) == decimal_digits(n),
    decreases n,
{
    if n < 10 {
        let s = decimal_digits(n);
        assert(decimal_value(s.drop_last()) == 0);
    } else {
        lemma_decimal_digits_value(n / 10);
        let s = decimal_digits(n);
        let head = decimal_digits(n / 10);
        assert(s.drop_last() =~= head);
    }
}

/// Ten to the power `k`.
pub open spec fn pow10(k: nat) -> nat
    decreases k,
{
    if k == 0 {
        1
    } else {
        10 * pow10((k - 1) as nat)
    }
}

/// A number below ten to the power `k` is written with at most `k` digits.
pub proof fn lemma_decimal_digits_len(n: nat, k: nat)
    requires
        k >= 1,
        n < pow10(k),
    ensures
        decimal_digits(n).len() <= k,
    decreases k,
{
    reveal_with_fuel(pow10, 2);
    if n >= 10 {
        lemma_decimal_digits_len(n / 10, (k - 1) as nat);
    }
}

/// A 128-bit number is written with at most 39 characters, all of them
/// ASCII.
pub proof fn lemma_decimal_digits_u128(n: u128)
    ensures
        1 <= decimal_digits(n as nat).len() <= 39,
        is_ascii_chars(decimal_digits(n as nat)),
{
    assert(pow10(39) == 1_000_000_000_000_000_000_000_000_000_000_000_000_000nat) by {
        reveal_with_fuel(pow10, 40);
    }
    lemma_decimal_digits_len(n as nat, 39);
    lemma_decimal_digits_value(n as nat);
}

/// A number written by `decimal_digits` is read back by `parse_decimal`.
pub proof fn lemma_parse_decimal_digits(n: nat, max: nat)
    requires
        n <= max,
    ensures
        parse_decimal(decimal_digits(n), max) == Some(n),
{
    lemma_decimal_digits_value(n);
}

/// Reads an unsigned number of at most `max` from its decimal writing.
fn parse_bounded(s: &str, max: u128) -> (r: Option<u128>)
    requires
        max >= 9,
    ensures
        r is Some <==> parse_decimal(s@, max as nat) is Some,
        r matches Some(v) ==> parse_decimal(s@, max as nat) == Some(v as nat),
{
    if !s.is_ascii() {
        proof {
            let i = choose|i: int| 0 <= i < s@.len() && !('\0' <= #[trigger] s@[i] <= '\u{7f}');
            let digits = unsigned_digits(s@);
            if digits.len() == s@.len() {
                assert(!is_digit(digits[i]));
            } else {
                assert(!is_digit(digits[i - 1]));
            }
        }
        return None;
    }
    let bytes = s.as_bytes();
    proof {
        is_ascii_chars_encode_utf8(s@);
    }
    let n: usize = bytes.len();
    let start: usize = if n > 0 && bytes[0] == 43u8 {
        1
    } else {
        0
    };
    let ghost digits = unsigned_digits(s@);
    if start == n {
        return None;
    }
    let mut acc: u128 = 0;
    let mut i: usize = start;
    while i < n
        invariant
            start <= i <= n,
            n == s@.len(),
            bytes@.len() == n,
            is_ascii_chars(s@),
            forall|k: int| 0 <= k < n ==> #[trigger] s@[k] as u8 == bytes@[k],
            digits == s@.skip(start as int),
            digits == unsigned_digits(s@),
            max >= 9,
            all_digits(digits.take(i - start)),
            acc == decimal_value(digits.take(i - start)),
            acc <= max,
        decreases n - i,
    {
        let b: u8 = bytes[i];
        let ghost c = s@[i as int];
        assert(digits[i - start] == c);
        if b < 48 || b > 57 {
            return None;
        }
        let d: u128 = (b - 48) as u128;
        let ghost next = digits.take(i - start + 1);
        proof {
            assert(next.drop_last() =~= digits.take(i - start));
            lemma_decimal_value_prefix(digits, i - start + 1);
            assert forall|k: int| 0 <= k < next.len() implies is_digit(#[trigger] next[k]) by {
                if k < i - start {
                    assert(next[k] == digits.take(i - start)[k]);
                }
            }
        }
        if acc > (max - d) / 10 {
            return None;
        }
        acc = acc * 10 + d;
        i += 1;
    }
    assert(digits.take(n - start) =~= digits);
    Some(acc)
}

/// Reads an unsigned 128-bit number from its decimal writing.
pub fn parse_u128(s: &str) -> (r: Option<u128>)
    ensures
        r == parse_u128_spec(s@),
{
    parse_bounded(s, u128::MAX)
}

/// Reads an unsigned 64-bit number from its decimal writing.
pub fn parse_u64(s: &str) -> (r: Option<u64>)
    ensures
        r == parse_u64_spec(s@),
{
    match parse_bounded(s, 0xffff_ffff_ffff_ffffu128) {
        Some(v) => Some(v as u64),
        None => None,
    }
}

/// The one-character text of a digit.
fn digit_str(d: u8) -> (r: &'static str)
    requires
        d < 10,
    ensures
        r@ == seq![digit_char(d as nat)],
{
    proof {
        reveal_strlit("0");
        reveal_strlit("1");
        reveal_strlit("2");
        reveal_strlit("3");
        reveal_strlit("4");
        reveal_strlit("5");
        reveal_strlit("6");
        reveal_strlit("7");
        reveal_strlit("8");
        reveal_strlit("9");
    }
    let r = match d {
        0 => "0",
        1 => "1",
        2 => "2",
        3 => "3",
        4 => "4",
        5 => "5",
        6 => "6",
        7 => "7",
        8 => "8",
        _ => "9",
    };
    r
}

/// Writes a number in decimal, without sign or leading zeros.
pub fn format_u128(n: u128) -> (r: String)
    ensures
        r@ == decimal_digits(n as nat),
    decreases n,
{
    if n < 10 {
        String::from_str(digit_str(n as u8))
    } else {
        let mut r = format_u128(n / 10);
        r.append(digit_str((n % 10) as u8));
        r
    }
}

} // verus!
