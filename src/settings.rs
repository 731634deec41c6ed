use vstd::prelude::*;
use vstd::string::StrSliceExecFns;

verus! {

pub open spec fn is_decimal_digit(c: char) -> bool {
    '0' <= c && c <= '9'
}

/// The number that a sequence of decimal digits denotes, most significant first.
pub open spec fn decimal_value(s: Seq<char>) -> nat
    decreases s.len(),
{
    if s.len() == 0 {
        0
    } else {
        decimal_value(s.drop_last()) * 10 + (s.last() as nat - '0' as nat) as nat
    }
}

/// The digits of a decimal numeral: `s` without one leading `+`.
pub open spec fn unsigned_digits(s: Seq<char>) -> Seq<char> {
    if s.len() > 0 && s[0] == '+' {
        s.subrange(1, s.len() as int)
    } else {
        s
    }
}

/// The `u64` that a decimal numeral denotes: one or more digits after an
/// optional `+`, with a value that fits in 64 bits.
pub open spec fn decimal_spec(s: Seq<char>) -> Option<u64> {
    let d = unsigned_digits(s);
    if d.len() > 0 && (forall|i: int| 0 <= i < d.len() ==> is_decimal_digit(#[trigger] d[i]))
        && decimal_value(d) <= u64::MAX {
        Some(decimal_value(d) as u64)
    } else {
        None
    }
}

proof fn lemma_decimal_value_grows(s: Seq<char>, i: int, j: int)
    requires
        0 <= i <= j <= s.len(),
    ensures
        decimal_value(s.subrange(0, i)) <= decimal_value(s.subrange(0, j)),
    decreases j - i,
{
    if i < j {
        lemma_decimal_value_grows(s, i, j - 1);
        assert(s.subrange(0, j).drop_last() =~= s.subrange(0, j - 1));
    }
}

/// Decodes a decimal numeral: an optional `+`, then one or more digits whose
/// value fits in 64 bits.
pub fn parse_decimal(s: &str) -> (r: Option<u64>)
    ensures
        r == decimal_spec(s@),
{
    let n = s.unicode_len();
    let mut start: usize = 0;
    if n >= 1 && s.get_char(0) == '+' {
        start = 1;
    }
    let ghost d = unsigned_digits(s@);
    assert(d =~= s@.subrange(start as int, n as int));
    if start == n {
        return None;
    }
    let mut i: usize = start;
    while i < n
        invariant
            start <= i <= n,
            n == s@.len(),
            d == s@.subrange(start as int, n as int),
            d == unsigned_digits(s@),
            forall|k: int| 0 <= k < i - start ==> is_decimal_digit(#[trigger] d[k]),
        decreases n - i,
    {
        let c = s.get_char(i);
        if !('0' <= c && c <= '9') {
            assert(!is_decimal_digit(d[i - start]));
            return None;
        }
        i = i + 1;
    }
    assert(forall|k: int| 0 <= k < d.len() ==> is_decimal_digit(#[trigger] d[k]));
    let mut acc: u64 = 0;
    let mut i: usize = start;
    while i < n
        invariant
            start <= i <= n,
            n == s@.len(),
            d == s@.subrange(start as int, n as int),
            d == unsigned_digits(s@),
            d.len() > 0,
            forall|k: int| 0 <= k < d.len() ==> is_decimal_digit(#[trigger] d[k]),
            acc == decimal_value(d.subrange(0, i - start)),
        decreases n - i,
    {
        let ghost k = i - start;
        assert(d.subrange(0, k + 1).drop_last() =~= d.subrange(0, k));
        assert(d.subrange(0, k + 1).last() == d[k]);
        assert(is_decimal_digit(d[k]));
        let c = s.get_char(i);
        let v = (c as u64) - ('0' as u64);
        if acc > 1844674407370955161 || (acc == 1844674407370955161 && v > 5) {
            proof {
                assert(decimal_value(d.subrange(0, k + 1)) == acc * 10 + v);
                assert(decimal_value(d.subrange(0, k + 1)) > u64::MAX);
                lemma_decimal_value_grows(d, k + 1, d.len() as int);
                assert(d.subrange(0, d.len() as int) =~= d);
            }
            return None;
        }
        acc = acc * 10 + v;
        i = i + 1;
    }
    assert(d.subrange(0, n - start) =~= d);
    Some(acc)
}

/// The value of a numeric setting: `default` when it is not set, else the
/// decimal number that it holds, and `None` when it holds none.
pub fn setting_or_default(raw: Option<&str>, default: u64) -> (r: Option<u64>)
    ensures
        raw is None ==> r == Some(default),
        raw is Some ==> r == decimal_spec(raw->0@),
{
    match raw {
        None => Some(default),
        Some(s) => parse_decimal(s),
    }
}

/// Lag threshold, in blocks, when none is configured.
pub const DEFAULT_LAG_THRESHOLD: u64 = 3;

/// Poll interval, in seconds, when none is configured.
pub const DEFAULT_POLL_INTERVAL_SECONDS: u64 = 60;

/// Alert cooldown, in minutes, when none is configured.
pub const DEFAULT_ALERT_COOLDOWN_MINUTES: u64 = 15;

/// A cooldown of `minutes` in milliseconds, held at `u64::MAX` where it would not fit.
pub fn cooldown_millis(minutes: u64) -> (r: u64)
    ensures
        minutes * 60_000 <= u64::MAX ==> r == minutes * 60_000,
        minutes * 60_000 > u64::MAX ==> r == u64::MAX,
{
    if minutes > u64::MAX / 60_000 {
        u64::MAX
    } else {
        minutes * 60_000
    }
}

} // verus!
