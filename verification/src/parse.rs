//! Decoding a raw sysfs value: the file's bytes, trimmed of surrounding
//! whitespace, read as an unsigned 8-bit decimal integer.
//!
//! The driver hands each tunable back as ASCII text, typically a digit
//! followed by a newline. A value that is empty after trimming, holds a
//! non-digit, or exceeds 255 has no decoding; the caller treats that as a
//! fatal driver-contract violation.

use vstd::prelude::*;

verus! {

/// Whitespace as trimmed from around a raw value: space, horizontal and
/// vertical tab, line feed, form feed, carriage return.
pub open spec fn is_space(b: u8) -> bool {
    b == 32 || b == 9 || b == 10 || b == 11 || b == 12 || b == 13
}

/// An ASCII decimal digit.
pub open spec fn is_digit(b: u8) -> bool {
    48 <= b <= 57
}

pub open spec fn all_digits(s: Seq<u8>) -> bool {
    forall|i: int| 0 <= i < s.len() ==> is_digit(s[i])
}

/// The number a digit string denotes, most significant digit first.
pub open spec fn digits_value(s: Seq<u8>) -> int
    decreases s.len(),
{
    if s.len() == 0 {
        0
    } else {
        digits_value(s.drop_last()) * 10 + (s.last() - 48)
    }
}

/// How many leading whitespace bytes `s` has.
pub open spec fn ws_prefix_len(s: Seq<u8>) -> int
    decreases s.len(),
{
    if s.len() > 0 && is_space(s[0]) {
        1 + ws_prefix_len(s.subrange(1, s.len() as int))
    } else {
        0
    }
}

/// How many trailing whitespace bytes `s` has.
pub open spec fn ws_suffix_len(s: Seq<u8>) -> int
    decreases s.len(),
{
    if s.len() > 0 && is_space(s[s.len() - 1]) {
        1 + ws_suffix_len(s.subrange(0, s.len() - 1))
    } else {
        0
    }
}

/// `s` without its surrounding whitespace.
pub open spec fn trimmed(s: Seq<u8>) -> Seq<u8> {
    let t = s.subrange(ws_prefix_len(s), s.len() as int);
    t.subrange(0, t.len() - ws_suffix_len(t))
}

/// The value a raw sysfs file denotes: its bytes trimmed and read as an
/// unsigned decimal integer that fits in 8 bits, or nothing.
pub open spec fn parsed_u8(raw: Seq<u8>) -> Option<u8> {
    let t = trimmed(raw);
    if t.len() > 0 && all_digits(t) && digits_value(t) <= 255 {
        Some(digits_value(t) as u8)
    } else {
        None
    }
}

proof fn lemma_ws_prefix_len_is(s: Seq<u8>, k: int)
    requires
        0 <= k <= s.len(),
        forall|i: int| 0 <= i < k ==> is_space(s[i]),
        k == s.len() || !is_space(s[k]),
    ensures
        ws_prefix_len(s) == k,
    decreases s.len(),
{
    if s.len() > 0 && is_space(s[0]) {
        let tail = s.subrange(1, s.len() as int);
        assert(forall|i: int| 0 <= i < k - 1 ==> tail[i] == s[i + 1]);
        lemma_ws_prefix_len_is(tail, k - 1);
    }
}

proof fn lemma_ws_suffix_len_is(s: Seq<u8>, k: int)
    requires
        0 <= k <= s.len(),
        forall|i: int| s.len() - k <= i < s.len() ==> is_space(s[i]),
        k == s.len() || !is_space(s[s.len() - k - 1]),
    ensures
        ws_suffix_len(s) == k,
    decreases s.len(),
{
    if s.len() > 0 && is_space(s[s.len() - 1]) {
        let head = s.subrange(0, s.len() - 1);
        assert(forall|i: int| 0 <= i < head.len() ==> head[i] == s[i]);
        lemma_ws_suffix_len_is(head, k - 1);
    }
}

proof fn lemma_digits_value_nonneg(s: Seq<u8>)
    requires
        all_digits(s),
    ensures
        digits_value(s) >= 0,
    decreases s.len(),
{
    if s.len() > 0 {
        assert(all_digits(s.drop_last()));
        lemma_digits_value_nonneg(s.drop_last());
    }
}

/// Extending a digit string to the right can only grow its value, so an
/// overflow seen on a prefix settles the whole string.
proof fn lemma_digits_value_prefix_le(s: Seq<u8>, k: int)
    requires
        all_digits(s),
        0 <= k <= s.len(),
    ensures
        digits_value(s.subrange(0, k)) <= digits_value(s),
    decreases s.len() - k,
{
    if k == s.len() {
        assert(s.subrange(0, k) =~= s);
    } else {
        let p = s.subrange(0, k);
        let q = s.subrange(0, k + 1);
        assert(q.drop_last() =~= p);
        assert(all_digits(p)) by {
            assert(forall|i: int| 0 <= i < p.len() ==> p[i] == s[i]);
        }
        lemma_digits_value_nonneg(p);
        assert(digits_value(q) == digits_value(p) * 10 + (s[k] - 48));
        assert(digits_value(p) <= digits_value(q)) by {
            assert(digits_value(p) <= digits_value(p) * 10) by (nonlinear_arith)
                requires digits_value(p) >= 0;
        }
        lemma_digits_value_prefix_le(s, k + 1);
    }
}

/// Decode a raw sysfs value: trim surrounding whitespace, then read the
/// rest as an unsigned decimal integer. `None` when nothing remains after
/// trimming, a byte is not a digit, or the value does not fit in 8 bits.
pub fn parse_trimmed_u8(raw: &[u8]) -> (r: Option<u8>)
    ensures
        r == parsed_u8(raw@),
{
    let n: usize = raw.len();
    let ghost s = raw@;

    let mut lo: usize = 0;
    while lo < n && space_byte(raw[lo])
        invariant
            0 <= lo <= n,
            n == s.len(),
            raw@ == s,
            forall|i: int| 0 <= i < lo ==> is_space(s[i]),
        decreases n - lo,
    {
        lo = lo + 1;
    }
    proof {
        lemma_ws_prefix_len_is(s, lo as int);
    }

    let mut hi: usize = n;
    while hi > lo && space_byte(raw[hi - 1])
        invariant
            lo <= hi <= n,
            n == s.len(),
            raw@ == s,
            forall|i: int| hi <= i < n ==> is_space(s[i]),
        decreases hi,
    {
        hi = hi - 1;
    }

    let ghost rest = s.subrange(lo as int, n as int);
    let ghost t = s.subrange(lo as int, hi as int);
    proof {
        assert(forall|i: int| 0 <= i < rest.len() ==> rest[i] == s[lo + i]);
        lemma_ws_suffix_len_is(rest, n - hi);
        assert(trimmed(s) =~= t);
    }

    if hi == lo {
        return None;
    }

    let mut acc: u16 = 0;
    let mut i: usize = lo;
    while i < hi
        invariant
            lo <= i <= hi <= n,
            n == s.len(),
            raw@ == s,
            t == s.subrange(lo as int, hi as int),
            t == trimmed(s),
            forall|j: int| lo <= j < i ==> is_digit(s[j]),
            acc <= 255,
            acc == digits_value(s.subrange(lo as int, i as int)),
        decreases hi - i,
    {
        let b = raw[i];
        let ghost p = s.subrange(lo as int, i as int);
        let ghost q = s.subrange(lo as int, i + 1);
        proof {
            assert(q.drop_last() =~= p);
        }
        if b < 48 || b > 57 {
            proof {
                assert(!is_digit(t[i - lo]));
            }
            return None;
        }
        acc = acc * 10 + ((b - 48) as u16);
        if acc > 255 {
            proof {
                assert(digits_value(q) > 255);
                if all_digits(t) {
                    assert(forall|j: int| 0 <= j < q.len() ==> q[j] == t[j]);
                    assert(all_digits(q));
                    assert(q =~= t.subrange(0, i + 1 - lo));
                    lemma_digits_value_prefix_le(t, i + 1 - lo);
                }
            }
            return None;
        }
        i = i + 1;
    }
    proof {
        assert(forall|j: int| 0 <= j < t.len() ==> t[j] == s[lo + j]);
        assert(all_digits(t));
    }
    Some(acc as u8)
}

/// Whether a byte counts as trimmable whitespace.
fn space_byte(b: u8) -> (r: bool)
    ensures
        r == is_space(b),
{
    b == 32 || b == 9 || b == 10 || b == 11 || b == 12 || b == 13
}

} // verus!
