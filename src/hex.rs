use vstd::prelude::*;
use vstd::string::StrSliceExecFns;

verus! {

/// Why a hexadecimal string could not be decoded.
#[derive(Debug, Clone, Copy, PartialEq, Eq, Structural)]
pub enum ParseError {
    /// Nothing is left once the optional prefix is removed.
    Empty,
    /// A character is not a hexadecimal digit.
    InvalidDigit,
    /// The value does not fit in 64 bits.
    Overflow,
}

pub open spec fn is_hex_digit(c: char) -> bool {
    ('0' <= c && c <= '9') || ('a' <= c && c <= 'f') || ('A' <= c && c <= 'F')
}

pub open spec fn digit_value(c: char) -> nat {
    if '0' <= c && c <= '9' {
        (c as nat - '0' as nat) as nat
    } else if 'a' <= c && c <= 'f' {
        (c as nat - 'a' as nat + 10) as nat
    } else {
        (c as nat - 'A' as nat + 10) as nat
    }
}

/// The number that a sequence of hexadecimal digits denotes, most significant first.
pub open spec fn hex_value(s: Seq<char>) -> nat
    decreases s.len(),
{
    if s.len() == 0 {
        0
    } else {
        hex_value(s.drop_last()) * 16 + digit_value(s.last())
    }
}

pub open spec fn all_hex_digits(s: Seq<char>) -> bool {
    forall|i: int| 0 <= i < s.len() ==> is_hex_digit(#[trigger] s[i])
}

pub open spec fn has_hex_prefix(s: Seq<char>) -> bool {
    s.len() >= 2 && s[0] == '0' && (s[1] == 'x' || s[1] == 'X')
}

/// The digits of `s`: `s` without one leading `0x` or `0X`.
pub open spec fn hex_digits_of(s: Seq<char>) -> Seq<char> {
    if has_hex_prefix(s) {
        s.subrange(2, s.len() as int)
    } else {
        s
    }
}

/// What decoding `s` yields.
pub open spec fn decode_spec(s: Seq<char>) -> Result<u64, ParseError> {
    let d = hex_digits_of(s);
    if d.len() == 0 {
        Err(ParseError::Empty)
    } else if !all_hex_digits(d) {
        Err(ParseError::InvalidDigit)
    } else if hex_value(d) > u64::MAX {
        Err(ParseError::Overflow)
    } else {
        Ok(hex_value(d) as u64)
    }
}

proof fn lemma_hex_value_grows(s: Seq<char>, i: int, j: int)
    requires
        0 <= i <= j <= s.len(),
    ensures
        hex_value(s.subrange(0, i)) <= hex_value(s.subrange(0, j)),
    decreases j - i,
{
    if i < j {
        lemma_hex_value_grows(s, i, j - 1);
        assert(s.subrange(0, j).drop_last() =~= s.subrange(0, j - 1));
    }
}

fn hex_digit(c: char) -> (r: Option<u64>)
    ensures
        r is Some <==> is_hex_digit(c),
        r is Some ==> r->0 == digit_value(c),
{
    if '0' <= c && c <= '9' {
        Some((c as u64) - ('0' as u64))
    } else if 'a' <= c && c <= 'f' {
        Some((c as u64) - ('a' as u64) + 10)
    } else if 'A' <= c && c <= 'F' {
        Some((c as u64) - ('A' as u64) + 10)
    } else {
        None
    }
}

/// Decodes a hexadecimal string, with or without a leading `0x` or `0X`, into
/// an unsigned 64-bit integer.
pub fn parse_hex_to_u64(hex: &str) -> (r: Result<u64, ParseError>)
    ensures
        r == decode_spec(hex@),
{
    let n = hex.unicode_len();
    let mut start: usize = 0;
    if n >= 2 {
        let c0 = hex.get_char(0);
        let c1 = hex.get_char(1);
        if c0 == '0' && (c1 == 'x' || c1 == 'X') {
            start = 2;
        }
    }
    let ghost d = hex_digits_of(hex@);
    assert(d =~= hex@.subrange(start as int, n as int));
    if start == n {
        return Err(ParseError::Empty);
    }
    let mut i: usize = start;
    while i < n
        invariant
            start <= i <= n,
            n == hex@.len(),
            d == hex@.subrange(start as int, n as int),
            d == hex_digits_of(hex@),
            forall|k: int| 0 <= k < i - start ==> is_hex_digit(#[trigger] d[k]),
        decreases n - i,
    {
        if hex_digit(hex.get_char(i)).is_none() {
            assert(!is_hex_digit(d[i - start]));
            assert(!all_hex_digits(d));
            assert(d.len() != 0);
            return Err(ParseError::InvalidDigit);
        }
        i = i + 1;
    }
    assert(all_hex_digits(d));
    let mut acc: u64 = 0;
    let mut i: usize = start;
    while i < n
        invariant
            start <= i <= n,
            n == hex@.len(),
            d == hex@.subrange(start as int, n as int),
            d == hex_digits_of(hex@),
            all_hex_digits(d),
            acc == hex_value(d.subrange(0, i - start)),
        decreases n - i,
    {
        let ghost k = i - start;
        assert(d.subrange(0, k + 1).drop_last() =~= d.subrange(0, k));
        assert(d.subrange(0, k + 1).last() == d[k]);
        assert(is_hex_digit(d[k]));
        let v = match hex_digit(hex.get_char(i)) {
            Some(v) => v,
            None => { return Err(ParseError::InvalidDigit); },
        };
        if acc > 0x0fff_ffff_ffff_ffff {
            proof {
                assert(hex_value(d.subrange(0, k + 1)) == acc * 16 + digit_value(d[k]));
                assert(hex_value(d.subrange(0, k + 1)) > u64::MAX);
                lemma_hex_value_grows(d, k + 1, d.len() as int);
                assert(d.subrange(0, d.len() as int) =~= d);
            }
            return Err(ParseError::Overflow);
        }
        acc = acc * 16 + v;
        i = i + 1;
    }
    assert(d.subrange(0, n - start) =~= d);
    Ok(acc)
}

} // verus!
