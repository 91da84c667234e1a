//! Small string helpers shared across the crate.

use vstd::prelude::*;
use vstd::string::StringSliceAdditionalSpecFns;

verus! {

/// Relies on `<str as PartialEq>::eq`: two string slices compare equal
/// exactly when they consist of the same characters.
#[verifier::external_body]
pub fn str_eq(a: &str, b: &str) -> (r: bool)
    ensures
        r == (a@ == b@),
{
    a == b
}

/// Every byte of `s` is an ASCII decimal digit.
pub open spec fn all_digits(s: Seq<u8>) -> bool {
    forall|i: int| 0 <= i < s.len() ==> 48 <= #[trigger] s[i] <= 57
}

/// The value of `s` read as a big-endian decimal digit string.
pub open spec fn dec_value(s: Seq<u8>) -> int
    decreases s.len(),
{
    if s.len() == 0 {
        0
    } else {
        dec_value(s.drop_last()) * 10 + (s.last() - 48)
    }
}

/// A digit string's value is nonnegative.
proof fn lemma_dec_value_nonneg(s: Seq<u8>)
    requires
        all_digits(s),
    ensures
        dec_value(s) >= 0,
    decreases s.len(),
{
    if s.len() > 0 {
        assert(all_digits(s.drop_last())) by {
            assert(forall|i: int|
                0 <= i < s.drop_last().len() ==> s.drop_last()[i] == #[trigger] s[i]);
        }
        lemma_dec_value_nonneg(s.drop_last());
    }
}

/// Reading more digits never shrinks the value.
proof fn lemma_dec_value_prefix_le(s: Seq<u8>, k: int)
    requires
        all_digits(s),
        0 <= k <= s.len(),
    ensures
        dec_value(s.subrange(0, k)) <= dec_value(s),
    decreases s.len() - k,
{
    if k < s.len() {
        lemma_dec_value_prefix_le(s, k + 1);
        let p = s.subrange(0, k);
        let q = s.subrange(0, k + 1);
        assert(q.drop_last() =~= p);
        assert(all_digits(p)) by {
            assert(forall|i: int| 0 <= i < p.len() ==> p[i] == #[trigger] s[i]);
        }
        lemma_dec_value_nonneg(p);
        assert(dec_value(q) == dec_value(p) * 10 + (s[k] - 48));
    } else {
        assert(s.subrange(0, k) =~= s);
    }
}

/// Parses an unsigned decimal integer, the whole string being digits, with
/// no sign, whitespace or empty input accepted; values beyond `u64::MAX`
/// are rejected.
pub fn parse_u64(s: &str) -> (r: Option<u64>)
    ensures
        r is Some <==> s.spec_bytes().len() > 0 && all_digits(s.spec_bytes()) && dec_value(
            s.spec_bytes(),
        ) <= u64::MAX,
        r is Some ==> r.unwrap() == dec_value(s.spec_bytes()),
{
    let b: &[u8] = s.as_bytes();
    let n: usize = b.len();
    if n == 0 {
        return Option::None;
    }
    let mut acc: u64 = 0;
    let mut i: usize = 0;
    proof {
        assert(b@.subrange(0, 0) =~= Seq::<u8>::empty());
    }
    while i < n
        invariant
            i <= n,
            n == b@.len(),
            b@ == s.spec_bytes(),
            all_digits(b@.subrange(0, i as int)),
            acc == dec_value(b@.subrange(0, i as int)),
        decreases n - i,
    {
        let c: u8 = b[i];
        proof {
            assert(b@.subrange(0, i + 1 as int).drop_last() =~= b@.subrange(0, i as int));
            assert(b@.subrange(0, i + 1 as int).last() == b@[i as int]);
        }
        if c < 48 || c > 57 {
            return Option::None;
        }
        let d: u64 = (c - 48) as u64;
        if acc > (u64::MAX - d) / 10 {
            proof {
                if all_digits(b@) {
                    lemma_dec_value_prefix_le(b@, i + 1);
                }
            }
            return Option::None;
        }
        acc = acc * 10 + d;
        i += 1;
    }
    proof {
        assert(b@.subrange(0, n as int) =~= b@);
    }
    Option::Some(acc)
}

/// The byte string is an optional minus sign followed by digits, with a
/// magnitude of at most `i64::MAX` (the one value `-(i64::MAX + 1)` is not
/// accepted).
pub open spec fn i64_parsable(b: Seq<u8>) -> bool {
    if b.len() > 0 && b[0] == 45 {
        let d = b.subrange(1, b.len() as int);
        d.len() > 0 && all_digits(d) && dec_value(d) <= i64::MAX
    } else {
        b.len() > 0 && all_digits(b) && dec_value(b) <= i64::MAX
    }
}

/// The signed value such a byte string denotes.
pub open spec fn i64_value(b: Seq<u8>) -> int {
    if b.len() > 0 && b[0] == 45 {
        -dec_value(b.subrange(1, b.len() as int))
    } else {
        dec_value(b)
    }
}

/// Parses a signed decimal integer: an optional leading minus sign, then
/// digits only. Magnitudes above `i64::MAX` are rejected for either sign.
pub fn parse_i64(s: &str) -> (r: Option<i64>)
    ensures
        r is Some <==> i64_parsable(s.spec_bytes()),
        r is Some ==> r.unwrap() == i64_value(s.spec_bytes()),
{
    let b: &[u8] = s.as_bytes();
    let n: usize = b.len();
    if n == 0 {
        return Option::None;
    }
    let negative: bool = b[0] == 45;
    let start: usize = if negative {
        1
    } else {
        0
    };
    if start == n {
        return Option::None;
    }
    let ghost digits = b@.subrange(start as int, n as int);
    let mut acc: u64 = 0;
    let mut i: usize = start;
    proof {
        assert(digits.subrange(0, 0) =~= Seq::<u8>::empty());
        if !negative {
            assert(digits =~= b@);
        }
    }
    while i < n
        invariant
            start <= i <= n,
            n == b@.len(),
            b@ == s.spec_bytes(),
            digits == b@.subrange(start as int, n as int),
            start == (if b@.len() > 0 && b@[0] == 45 {
                1int
            } else {
                0int
            }),
            negative == (b@[0] == 45),
            !negative ==> digits == b@,
            all_digits(digits.subrange(0, i - start)),
            acc == dec_value(digits.subrange(0, i - start)),
            acc <= i64::MAX,
        decreases n - i,
    {
        let c: u8 = b[i];
        proof {
            assert(digits.subrange(0, i + 1 - start).drop_last() =~= digits.subrange(0, i - start));
            assert(digits.subrange(0, i + 1 - start).last() == b@[i as int]);
        }
        if c < 48 || c > 57 {
            proof {
                assert(digits[i - start] == b@[i as int]);
            }
            return Option::None;
        }
        let d: u64 = (c - 48) as u64;
        let limit: u64 = i64::MAX as u64;
        if acc > limit / 10 || (acc == limit / 10 && d > limit % 10) {
            proof {
                if all_digits(digits) {
                    lemma_dec_value_prefix_le(digits, i + 1 - start);
                }
            }
            return Option::None;
        }
        acc = acc * 10 + d;
        i += 1;
    }
    proof {
        assert(digits.subrange(0, n - start) =~= digits);
        if !negative {
            assert(digits =~= b@);
        }
        assert(i64_parsable(b@));
    }
    if negative {
        Option::Some((-(acc as i64)) as i64)
    } else {
        Option::Some(acc as i64)
    }
}

} // verus!
