//! Text-to-number and text-shaping rules that configuration relies on:
//! unsigned integer parsing as `str::parse` performs it, whitespace trimming,
//! prefix stripping and lookup of named values.
use vstd::prelude::*;
use crate::text::{chars_eq_str, chars_of, string_from_chars};

verus! {

/// Whether `c` is an ASCII decimal digit.
pub open spec fn is_digit(c: char) -> bool {
    '0' <= c && c <= '9'
}

/// Whether every character of `s` is a decimal digit.
pub open spec fn all_digits(s: Seq<char>) -> bool {
    forall|i: int| 0 <= i < s.len() ==> is_digit(#[trigger] s[i])
}

/// The value of a string of decimal digits.
pub open spec fn digits_value(s: Seq<char>) -> nat
    decreases s.len(),
{
    if s.len() == 0 {
        0
    } else {
        digits_value(s.drop_last()) * 10 + ((s.last() as int - '0' as int) as nat)
    }
}

/// What `str::parse` gives for an unsigned integer type whose largest value
/// is `max`: an optional leading `+`, then one or more decimal digits whose
/// value does not exceed `max`; anything else is refused.
pub open spec fn parse_unsigned_spec(s: Seq<char>, max: nat) -> Option<nat> {
    let body = if s.len() > 0 && s[0] == '+' { s.drop_first() } else { s };
    if body.len() == 0 || !all_digits(body) {
        None
    } else if digits_value(body) > max {
        None
    } else {
        Some(digits_value(body))
    }
}

proof fn lemma_digits_value_grows(s: Seq<char>, i: int)
    requires
        0 <= i <= s.len(),
        all_digits(s),
    ensures
        digits_value(s.take(i)) <= digits_value(s),
    decreases s.len() - i,
{
    if i < s.len() {
        lemma_digits_value_grows(s, i + 1);
        assert(s.take(i + 1).drop_last() =~= s.take(i));
        assert(is_digit(s[i]));
    } else {
        assert(s.take(i) =~= s);
    }
}

/// Parses `s` as an unsigned integer no larger than `max`, as `str::parse` does.
pub fn parse_unsigned(s: &[char], max: u64) -> (r: Option<u64>)
    ensures
        match r {
            Some(n) => parse_unsigned_spec(s@, max as nat) == Some(n as nat),
            None => parse_unsigned_spec(s@, max as nat) is None,
        },
{
    let start: usize = if s.len() > 0 && s[0] == '+' { 1 } else { 0 };
    let ghost body = if s@.len() > 0 && s@[0] == '+' { s@.drop_first() } else { s@ };
    assert(body =~= s@.skip(start as int));
    if start >= s.len() {
        return None;
    }
    let mut acc: u64 = 0;
    let mut i: usize = start;
    while i < s.len()
        invariant
            start <= i <= s@.len(),
            start < s@.len(),
            body == (if s@.len() > 0 && s@[0] == '+' { s@.drop_first() } else { s@ }),
            body =~= s@.skip(start as int),
            all_digits(body.take(i - start)),
            acc as nat == digits_value(body.take(i - start)),
            acc <= max,
        decreases s@.len() - i,
    {
        let c = s[i];
        let ghost k: int = i - start;
        assert(body[k] == c);
        if !('0' <= c && c <= '9') {
            assert(!all_digits(body));
            return None;
        }
        assert(body.take(k + 1).drop_last() =~= body.take(k));
        let d: u64 = (c as u32 - '0' as u32) as u64;
        let next: u128 = (acc as u128) * 10 + (d as u128);
        if next > max as u128 {
            proof {
                assert(digits_value(body.take(k + 1)) == acc * 10 + d);
                if all_digits(body) {
                    lemma_digits_value_grows(body, k + 1);
                }
            }
            return None;
        }
        acc = next as u64;
        i = i + 1;
        assert(all_digits(body.take(i - start))) by {
            assert forall|j: int| 0 <= j < body.take(i - start).len() implies is_digit(#[trigger] body.take(i - start)[j]) by {
                if j < k {
                    assert(body.take(k)[j] == body.take(i - start)[j]);
                }
            }
        }
    }
    assert(body.take(i - start) =~= body);
    Some(acc)
}

/// Whether `c` has the Unicode `White_Space` property, as `char::is_whitespace` reports.
pub open spec fn is_whitespace_spec(c: char) -> bool {
    ||| ('\u{9}' <= c && c <= '\u{d}')
    ||| c == ' '
    ||| c == '\u{85}'
    ||| c == '\u{a0}'
    ||| c == '\u{1680}'
    ||| ('\u{2000}' <= c && c <= '\u{200a}')
    ||| c == '\u{2028}'
    ||| c == '\u{2029}'
    ||| c == '\u{202f}'
    ||| c == '\u{205f}'
    ||| c == '\u{3000}'
}

/// Whether `c` is whitespace, as `char::is_whitespace` reports.
pub fn is_whitespace(c: char) -> (b: bool)
    ensures
        b == is_whitespace_spec(c),
{
    ('\u{9}' <= c && c <= '\u{d}') || c == ' ' || c == '\u{85}' || c == '\u{a0}' || c == '\u{1680}'
        || ('\u{2000}' <= c && c <= '\u{200a}') || c == '\u{2028}' || c == '\u{2029}' || c
        == '\u{202f}' || c == '\u{205f}' || c == '\u{3000}'
}

/// `s` without leading whitespace.
pub open spec fn trim_start_spec(s: Seq<char>) -> Seq<char>
    decreases s.len(),
{
    if s.len() > 0 && is_whitespace_spec(s[0]) {
        trim_start_spec(s.drop_first())
    } else {
        s
    }
}

/// `s` without trailing whitespace.
pub open spec fn trim_end_spec(s: Seq<char>) -> Seq<char>
    decreases s.len(),
{
    if s.len() > 0 && is_whitespace_spec(s.last()) {
        trim_end_spec(s.drop_last())
    } else {
        s
    }
}

/// `s` without leading and trailing whitespace, as `str::trim` gives it.
pub open spec fn trim_spec(s: Seq<char>) -> Seq<char> {
    trim_end_spec(trim_start_spec(s))
}

/// `s` without leading and trailing whitespace.
pub fn trim_chars(s: &[char]) -> (r: Vec<char>)
    ensures
        r@ == trim_spec(s@),
{
    let mut lo: usize = 0;
    assert(s@.skip(0) =~= s@);
    while lo < s.len() && is_whitespace(s[lo])
        invariant
            lo <= s@.len(),
            trim_start_spec(s@) == trim_start_spec(s@.skip(lo as int)),
        decreases s@.len() - lo,
    {
        assert(s@.skip(lo as int).drop_first() =~= s@.skip(lo + 1));
        lo = lo + 1;
    }
    let mut hi: usize = s.len();
    let ghost mid = s@.skip(lo as int);
    assert(trim_start_spec(s@) == mid);
    while hi > lo && is_whitespace(s[hi - 1])
        invariant
            lo <= hi <= s@.len(),
            mid == s@.skip(lo as int),
            trim_end_spec(mid) == trim_end_spec(s@.subrange(lo as int, hi as int)),
        decreases hi,
    {
        assert(s@.subrange(lo as int, hi as int).drop_last() =~= s@.subrange(lo as int, hi - 1));
        hi = hi - 1;
    }
    let mut r: Vec<char> = Vec::new();
    let mut i: usize = lo;
    while i < hi
        invariant
            lo <= i <= hi <= s@.len(),
            r@ == s@.subrange(lo as int, i as int),
        decreases hi - i,
    {
        r.push(s[i]);
        i = i + 1;
        assert(r@ =~= s@.subrange(lo as int, i as int));
    }
    r
}

/// `s` with every leading repetition of `p` removed, as `str::trim_start_matches` does.
pub open spec fn strip_all_spec(s: Seq<char>, p: Seq<char>) -> Seq<char>
    decreases s.len(),
{
    if p.len() > 0 && s.len() >= p.len() && s.take(p.len() as int) == p {
        strip_all_spec(s.skip(p.len() as int), p)
    } else {
        s
    }
}

/// Whether `s` starts, at position `at`, with the characters of `p`.
fn starts_with_at(s: &[char], at: usize, p: &[char]) -> (b: bool)
    requires
        at <= s@.len(),
    ensures
        b == (s@.len() - at >= p@.len() && s@.skip(at as int).take(p@.len() as int) == p@),
{
    if s.len() - at < p.len() {
        return false;
    }
    let n: usize = s.len();
    let mut i: usize = 0;
    while i < p.len()
        invariant
            n == s@.len(),
            i <= p@.len(),
            at <= s@.len(),
            at + p@.len() <= s@.len(),
            forall|j: int| 0 <= j < i ==> s@[at + j] == p@[j],
        decreases p@.len() - i,
    {
        if s[at + i] != p[i] {
            assert(s@.skip(at as int).take(p@.len() as int)[i as int] != p@[i as int]);
            return false;
        }
        i = i + 1;
    }
    assert(s@.skip(at as int).take(p@.len() as int) =~= p@);
    true
}

/// `s` with every leading repetition of `p` removed.
pub fn strip_all(s: &[char], p: &str) -> (r: Vec<char>)
    ensures
        r@ == strip_all_spec(s@, p@),
{
    let pv = chars_of(p);
    let mut at: usize = 0;
    assert(s@.skip(0) =~= s@);
    let n: usize = s.len();
    if pv.len() > 0 {
        loop
            invariant
                n == s@.len(),
                at <= s@.len(),
                pv@ == p@,
                pv@.len() > 0,
                strip_all_spec(s@, p@) == strip_all_spec(s@.skip(at as int), p@),
            ensures
                at <= s@.len(),
                strip_all_spec(s@, p@) == s@.skip(at as int),
            decreases s@.len() - at,
        {
            if !starts_with_at(s, at, pv.as_slice()) {
                break;
            }
            assert(s@.skip(at as int).skip(pv@.len() as int) =~= s@.skip(at + pv@.len()));
            at = at + pv.len();
        }
    }
    let mut r: Vec<char> = Vec::new();
    let mut i: usize = at;
    while i < s.len()
        invariant
            at <= i <= s@.len(),
            r@ == s@.subrange(at as int, i as int),
        decreases s@.len() - i,
    {
        r.push(s[i]);
        i = i + 1;
        assert(r@ =~= s@.subrange(at as int, i as int));
    }
    assert(r@ =~= s@.skip(at as int));
    r
}

/// The value bound to `key` in `vars`: the first pair whose name is `key`.
pub open spec fn lookup_spec(vars: Seq<(String, String)>, key: Seq<char>) -> Option<Seq<char>>
    decreases vars.len(),
{
    if vars.len() == 0 {
        None
    } else if vars[0].0@ == key {
        Some(vars[0].1@)
    } else {
        lookup_spec(vars.drop_first(), key)
    }
}

/// Whether `a` and `b` hold the same characters.
pub fn str_eq(a: &str, b: &str) -> (r: bool)
    ensures
        r == (a@ == b@),
{
    let av = chars_of(a);
    chars_eq_str(av.as_slice(), b)
}

/// The value bound to `key` in `vars`, if any.
pub fn lookup(vars: &Vec<(String, String)>, key: &str) -> (r: Option<String>)
    ensures
        match r {
            Some(v) => lookup_spec(vars@, key@) == Some(v@),
            None => lookup_spec(vars@, key@) is None,
        },
{
    let mut i: usize = 0;
    assert(vars@.skip(0) =~= vars@);
    while i < vars.len()
        invariant
            i <= vars@.len(),
            lookup_spec(vars@, key@) == lookup_spec(vars@.skip(i as int), key@),
        decreases vars@.len() - i,
    {
        assert(vars@.skip(i as int)[0] == vars@[i as int]);
        if str_eq(vars[i].0.as_str(), key) {
            let v = vars[i].1.clone();
            return Some(v);
        }
        assert(vars@.skip(i as int).drop_first() =~= vars@.skip(i + 1));
        i = i + 1;
    }
    None
}

/// The text of `key` in `vars`, or `default` where it has none.
pub open spec fn text_or_spec(vars: Seq<(String, String)>, key: Seq<char>, default: Seq<char>) -> Seq<char> {
    match lookup_spec(vars, key) {
        Some(v) => v,
        None => default,
    }
}

/// The number bound to `key` in `vars` (at most `max`), or `default` where it
/// has none or its text is not such a number.
pub open spec fn number_or_spec(vars: Seq<(String, String)>, key: Seq<char>, max: nat, default: nat) -> nat {
    match lookup_spec(vars, key) {
        Some(v) => match parse_unsigned_spec(v, max) {
            Some(n) => n,
            None => default,
        },
        None => default,
    }
}

/// The text of `key`, or `default`.
pub fn text_or(vars: &Vec<(String, String)>, key: &str, default: &str) -> (r: String)
    ensures
        r@ == text_or_spec(vars@, key@, default@),
{
    match lookup(vars, key) {
        Some(v) => v,
        None => string_from_chars(chars_of(default).as_slice()),
    }
}

/// The number bound to `key`, at most `max`, or `default`.
pub fn number_or(vars: &Vec<(String, String)>, key: &str, max: u64, default: u64) -> (r: u64)
    ensures
        r as nat == number_or_spec(vars@, key@, max as nat, default as nat),
{
    match lookup(vars, key) {
        Some(v) => {
            let cv = chars_of(v.as_str());
            match parse_unsigned(cv.as_slice(), max) {
                Some(n) => n,
                None => default,
            }
        },
        None => default,
    }
}


/// The text of `key`, or `default`.
pub fn text_or_else(vars: &Vec<(String, String)>, key: &str, default: String) -> (r: String)
    ensures
        r@ == text_or_spec(vars@, key@, default@),
{
    match lookup(vars, key) {
        Some(v) => v,
        None => default,
    }
}

/// The text of `key` where it is present and not empty.
pub open spec fn non_empty_spec(vars: Seq<(String, String)>, key: Seq<char>) -> Option<Seq<char>> {
    match lookup_spec(vars, key) {
        Some(v) => if v.len() > 0 { Some(v) } else { None },
        None => None,
    }
}

/// The text of `key` where it is present and not empty.
pub fn non_empty(vars: &Vec<(String, String)>, key: &str) -> (r: Option<String>)
    ensures
        match r {
            Some(v) => non_empty_spec(vars@, key@) == Some(v@),
            None => non_empty_spec(vars@, key@) is None,
        },
{
    match lookup(vars, key) {
        Some(v) => {
            if v.as_str().is_empty() {
                None
            } else {
                Some(v)
            }
        },
        None => None,
    }
}

/// The switch `key`: on for `true`, `1` or `yes`, off for `false`, `0` or
/// `no`, and `default` for anything else or where it is absent.
pub open spec fn flag_or_spec(vars: Seq<(String, String)>, key: Seq<char>, default: bool) -> bool {
    match lookup_spec(vars, key) {
        Some(v) => if v == "true"@ || v == "1"@ || v == "yes"@ {
            true
        } else if v == "false"@ || v == "0"@ || v == "no"@ {
            false
        } else {
            default
        },
        None => default,
    }
}

/// The switch `key`, or `default`.
pub fn flag_or(vars: &Vec<(String, String)>, key: &str, default: bool) -> (r: bool)
    ensures
        r == flag_or_spec(vars@, key@, default),
{
    match lookup(vars, key) {
        Some(v) => {
            let s = v.as_str();
            if str_eq(s, "true") || str_eq(s, "1") || str_eq(s, "yes") {
                true
            } else if str_eq(s, "false") || str_eq(s, "0") || str_eq(s, "no") {
                false
            } else {
                default
            }
        },
        None => default,
    }
}

} // verus!
