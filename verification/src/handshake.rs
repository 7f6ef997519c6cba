use vstd::prelude::*;

use crate::text::{chars_of, decimal};

verus! {

/// `pat` stands in `s` at position `i`.
pub open spec fn occurs_at(s: Seq<char>, pat: Seq<char>, i: int) -> bool {
    &&& 0 <= i
    &&& i + pat.len() <= s.len()
    &&& s.subrange(i, i + pat.len()) == pat
}

/// The first position at or after `i` where `pat` stands in `s`.
pub open spec fn find_from(s: Seq<char>, pat: Seq<char>, i: int) -> Option<int>
    decreases s.len() + 1 - i,
{
    if i < 0 || i + pat.len() > s.len() {
        None
    } else if occurs_at(s, pat, i) {
        Some(i)
    } else {
        find_from(s, pat, i + 1)
    }
}

pub open spec fn is_digit(c: char) -> bool {
    '0' <= c && c <= '9'
}

/// The first position at or after `i` that holds a digit, or the end.
pub open spec fn next_digit(s: Seq<char>, i: int) -> int
    decreases s.len() - i,
{
    if i < 0 || i >= s.len() {
        s.len() as int
    } else if is_digit(s[i]) {
        i
    } else {
        next_digit(s, i + 1)
    }
}

/// The first position at or after `i` that does not hold a digit, or the end.
pub open spec fn digits_end(s: Seq<char>, i: int) -> int
    decreases s.len() - i,
{
    if i < 0 || i >= s.len() {
        s.len() as int
    } else if !is_digit(s[i]) {
        i
    } else {
        digits_end(s, i + 1)
    }
}

/// The number written by a run of decimal digits.
pub open spec fn digits_value(d: Seq<char>) -> nat
    decreases d.len(),
{
    if d.len() == 0 {
        0
    } else {
        digits_value(d.drop_last()) * 10 + (d.last() as nat - 48) as nat
    }
}

/// The key the host's `hello` line carries its protocol version under.
pub open spec fn api_version_key() -> Seq<char> {
    "\"api_version\""@
}

/// The api version in a `hello` line: the first run of digits after the
/// first `"api_version"`, read as a `u32`; zero when the key is missing, no
/// digit follows it, or the number does not fit.
pub open spec fn api_version_of(line: Seq<char>) -> u32 {
    match find_from(line, api_version_key(), 0) {
        None => 0,
        Some(p) => {
            let d = next_digit(line, p);
            let e = digits_end(line, d);
            let v = digits_value(line.subrange(d, e));
            if d < e && v <= u32::MAX { v as u32 } else { 0 }
        },
    }
}

proof fn lemma_find_from_skip(s: Seq<char>, pat: Seq<char>, i: int, j: int)
    requires
        0 <= i <= j,
        forall|k: int| i <= k < j ==> !occurs_at(s, pat, k),
    ensures
        find_from(s, pat, i) == find_from(s, pat, j),
    decreases j - i,
{
    if i < j {
        lemma_find_from_skip(s, pat, i + 1, j);
    }
}

proof fn lemma_next_digit_skip(s: Seq<char>, i: int, j: int)
    requires
        0 <= i <= j <= s.len(),
        forall|k: int| i <= k < j ==> !is_digit(#[trigger] s[k]),
    ensures
        next_digit(s, i) == next_digit(s, j),
    decreases j - i,
{
    if i < j {
        lemma_next_digit_skip(s, i + 1, j);
    }
}

proof fn lemma_digits_end_skip(s: Seq<char>, i: int, j: int)
    requires
        0 <= i <= j <= s.len(),
        forall|k: int| i <= k < j ==> is_digit(#[trigger] s[k]),
    ensures
        digits_end(s, i) == digits_end(s, j),
    decreases j - i,
{
    if i < j {
        lemma_digits_end_skip(s, i + 1, j);
    }
}

/// Extending a run of digits never lowers its value.
proof fn lemma_digits_value_grows(s: Seq<char>, d: int, k: int, e: int)
    requires
        0 <= d <= k <= e <= s.len(),
    ensures
        digits_value(s.subrange(d, k)) <= digits_value(s.subrange(d, e)),
    decreases e - k,
{
    if k < e {
        lemma_digits_value_grows(s, d, k, e - 1);
        assert(s.subrange(d, e).drop_last() == s.subrange(d, e - 1));
    }
}

/// Position of the first occurrence of `pat` in `s`, if any.
pub fn find(s: &Vec<char>, pat: &Vec<char>) -> (r: Option<usize>)
    ensures
        r matches Some(i) ==> find_from(s@, pat@, 0) == Some(i as int) && occurs_at(s@, pat@, i as int),
        r is None ==> find_from(s@, pat@, 0) is None,
{
    let n = s.len();
    let m = pat.len();
    if m > n {
        return None;
    }
    let mut i: usize = 0;
    while i <= n - m
        invariant
            n == s@.len(),
            m == pat@.len(),
            m <= n,
            i <= n - m + 1,
            forall|k: int| 0 <= k < i ==> !occurs_at(s@, pat@, k),
        decreases n - i,
    {
        let mut j: usize = 0;
        let mut same = true;
        while j < m && same
            invariant
                n == s@.len(),
                m == pat@.len(),
                i + m <= n,
                j <= m,
                same <==> (forall|k: int| 0 <= k < j ==> s@[i + k] == pat@[k]),
            decreases m - j,
        {
            if s[i + j] != pat[j] {
                same = false;
            }
            j = j + 1;
        }
        if same {
            assert(s@.subrange(i as int, i + m) == pat@);
            proof {
                lemma_find_from_skip(s@, pat@, 0, i as int);
            }
            return Some(i);
        }
        assert(!occurs_at(s@, pat@, i as int)) by {
            let k = choose|k: int| 0 <= k < j && s@[i + k] != pat@[k];
            if s@.subrange(i as int, i + m) == pat@ {
            }
        }
        i = i + 1;
    }
    proof {
        lemma_find_from_skip(s@, pat@, 0, i as int);
    }
    None
}

/// Pulls the host's api version out of a `hello` line without a JSON parser:
/// the digits after the `"api_version"` key, or zero.
pub fn host_api_version(line: &str) -> (v: u32)
    ensures
        v == api_version_of(line@),
{
    let s = chars_of(line);
    let pat = chars_of("\"api_version\"");
    let found = find(&s, &pat);
    let p = match found {
        None => {
            return 0;
        },
        Some(p) => p,
    };
    let n = s.len();
    let ghost sq = s@;
    // skip to the first digit
    let mut d = p;
    while d < n && !('0' <= s[d] && s[d] <= '9')
        invariant
            n == sq.len(),
            sq == s@,
            p <= d <= n,
            forall|k: int| p <= k < d ==> !is_digit(#[trigger] sq[k]),
        decreases n - d,
    {
        d = d + 1;
    }
    proof {
        lemma_next_digit_skip(sq, p as int, d as int);
    }
    // read the run of digits
    let mut e = d;
    let mut acc: u64 = 0;
    let mut too_big = false;
    while e < n && '0' <= s[e] && s[e] <= '9'
        invariant
            n == sq.len(),
            sq == s@,
            d <= e <= n,
            forall|k: int| d <= k < e ==> is_digit(#[trigger] sq[k]),
            too_big ==> digits_value(sq.subrange(d as int, e as int)) > u32::MAX,
            !too_big ==> acc == digits_value(sq.subrange(d as int, e as int)),
            !too_big ==> acc <= u32::MAX,
        decreases n - e,
    {
        assert(sq.subrange(d as int, e + 1).drop_last() == sq.subrange(d as int, e as int));
        let dv = (s[e] as u32 - 48) as u64;
        if !too_big {
            acc = acc * 10 + dv;
            if acc > 0xffff_ffff {
                too_big = true;
            }
        }
        e = e + 1;
    }
    proof {
        lemma_digits_end_skip(sq, d as int, e as int);
    }
    if d < e && !too_big {
        acc as u32
    } else {
        0
    }
}

/// Every character of a decimal numeral is a digit.
proof fn lemma_decimal_digits(n: nat)
    ensures
        decimal(n).len() >= 1,
        forall|k: int| 0 <= k < decimal(n).len() ==> is_digit(#[trigger] decimal(n)[k]),
    decreases n,
{
    if n >= 10 {
        lemma_decimal_digits(n / 10);
    }
}

/// A decimal numeral reads back as the number it was written from.
proof fn lemma_decimal_value(n: nat)
    ensures
        digits_value(decimal(n)) == n,
    decreases n,
{
    if n < 10 {
        assert(decimal(n).drop_last() == Seq::<char>::empty());
        assert(digits_value(Seq::<char>::empty()) == 0);
    } else {
        lemma_decimal_value(n / 10);
        assert(decimal(n).drop_last() == decimal(n / 10));
    }
}

/// The version a host announces is the version read: when the first
/// `"api_version"` key of a line is followed by a colon and the decimal
/// numeral of `n`, and the numeral ends there, the line yields `n`.
pub proof fn law_reads_announced_version(head: Seq<char>, n: u32, tail: Seq<char>)
    requires
        forall|i: int|
            0 <= i < head.len() ==> !occurs_at(
                head + api_version_key() + ":"@ + decimal(n as nat) + tail,
                api_version_key(),
                i,
            ),
        tail.len() == 0 || !is_digit(tail[0]),
    ensures
        api_version_of(head + api_version_key() + ":"@ + decimal(n as nat) + tail) == n,
{
    reveal_strlit("\"api_version\"");
    reveal_strlit(":");
    let key = api_version_key();
    let num = decimal(n as nat);
    let line = head + key + ":"@ + num + tail;
    let p = head.len() as int;
    let d = p + key.len() + 1;
    let e = d + num.len();
    lemma_decimal_digits(n as nat);
    lemma_decimal_value(n as nat);
    assert(line.subrange(p, p + key.len()) == key);
    lemma_find_from_skip(line, key, 0, p);
    assert forall|k: int| p <= k < d implies !is_digit(#[trigger] line[k]) by {}
    lemma_next_digit_skip(line, p, d);
    assert forall|k: int| d <= k < e implies is_digit(#[trigger] line[k]) by {}
    lemma_digits_end_skip(line, d, e);
    assert(line.subrange(d, e) == num);
}

} // verus!
