use vstd::prelude::*;
use vstd::string::StrSliceExecFns;

verus! {

/// The marker that, anywhere in a webhook address, stands for "no webhook
/// configured".
pub const WEBHOOK_PLACEHOLDER: &'static str = "REDACTED";

/// Whether `pat` occurs in `s` as a run of consecutive characters.
pub open spec fn occurs_in(pat: Seq<char>, s: Seq<char>) -> bool {
    exists|i: int| 0 <= i && i + pat.len() <= s.len() && #[trigger] s.subrange(i, i + pat.len()) == pat
}

fn occurs_at(pat: &str, s: &str, at: usize) -> (r: bool)
    requires
        at + pat@.len() <= s@.len(),
    ensures
        r == (s@.subrange(at as int, at + pat@.len()) == pat@),
{
    let n = pat.unicode_len();
    let total = s.unicode_len();
    let mut k: usize = 0;
    while k < n
        invariant
            n == pat@.len(),
            at + n <= s@.len(),
            total == s@.len(),
            k <= n,
            forall|j: int| 0 <= j < k ==> s@[at + j] == pat@[j],
        decreases n - k,
    {
        if s.get_char(at + k) != pat.get_char(k) {
            assert(s@.subrange(at as int, at + n)[k as int] != pat@[k as int]);
            return false;
        }
        k = k + 1;
    }
    assert(s@.subrange(at as int, at + n) =~= pat@);
    true
}

fn contains_text(s: &str, pat: &str) -> (r: bool)
    ensures
        r == occurs_in(pat@, s@),
{
    let n = s.unicode_len();
    let m = pat.unicode_len();
    if m > n {
        return false;
    }
    if m == 0 {
        assert(s@.subrange(0, 0 + pat@.len() as int) =~= pat@);
        return true;
    }
    let mut i: usize = 0;
    while i <= n - m
        invariant
            n == s@.len(),
            m == pat@.len(),
            0 < m <= n,
            i <= n - m + 1,
            forall|j: int| 0 <= j < i ==> #[trigger] s@.subrange(j, j + m) != pat@,
        decreases n - m + 1 - i,
    {
        if occurs_at(pat, s, i) {
            return true;
        }
        i = i + 1;
    }
    false
}

/// Whether alerts are to be sent to `webhook_url`: not when it is empty or
/// holds the placeholder, in which case dispatch succeeds without sending
/// anything.
pub fn alerting_enabled(webhook_url: &str) -> (r: bool)
    ensures
        r == (webhook_url@.len() > 0 && !occurs_in(WEBHOOK_PLACEHOLDER@, webhook_url@)),
{
    webhook_url.unicode_len() > 0 && !contains_text(webhook_url, WEBHOOK_PLACEHOLDER)
}

} // verus!
