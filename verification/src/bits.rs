//! Exact bit-level model of IEEE-754 binary64 values.
//!
//! The engine stores every real-valued quantity as the bit pattern of a
//! binary64 value, held in a `u64`. Ordering, NaN detection and the
//! tolerance tests the engine needs are fully determined by the bit
//! patterns, so they are implemented and verified here in plain integer
//! logic: a binary64 comparison is a sign-magnitude comparison of the
//! patterns in which the two zeros are equal and any NaN compares false.

use vstd::prelude::*;

verus! {

/// Bit pattern of +0.0.
pub const ZERO_BITS: u64 = 0;
/// Bit pattern of 1.0.
pub const ONE_BITS: u64 = 0x3ff0_0000_0000_0000;
/// Bit pattern of 365.0, the day count used to annualize.
pub const DAYS_PER_YEAR_BITS: u64 = 0x4076_d000_0000_0000;
/// Bit pattern of 1e-9, the tolerance below which a quantity counts as zero.
pub const EPSILON_BITS: u64 = 0x3e11_2e0b_e826_d695;
/// The sign bit of a binary64 pattern.
pub const SIGN_BITS: u64 = 0x8000_0000_0000_0000;
/// Bit pattern of positive infinity: any larger magnitude is a NaN.
pub const INFINITY_BITS: u64 = 0x7ff0_0000_0000_0000;

/// Whether the pattern carries a negative sign.
pub open spec fn sign_of(a: u64) -> bool {
    a >= SIGN_BITS
}

/// The pattern with its sign bit cleared: the magnitude of the value.
pub open spec fn magnitude_of(a: u64) -> u64 {
    if sign_of(a) {
        (a - SIGN_BITS) as u64
    } else {
        a
    }
}

/// A NaN: exponent all ones together with a nonzero fraction.
pub open spec fn is_nan(a: u64) -> bool {
    magnitude_of(a) > INFINITY_BITS
}

/// Binary64 `<` on bit patterns: false when either side is a NaN;
/// otherwise a sign-magnitude comparison in which +0.0 equals -0.0.
pub open spec fn float_lt(a: u64, b: u64) -> bool {
    &&& !is_nan(a)
    &&& !is_nan(b)
    &&& if sign_of(a) != sign_of(b) {
        sign_of(a) && (magnitude_of(a) != 0 || magnitude_of(b) != 0)
    } else if !sign_of(a) {
        magnitude_of(a) < magnitude_of(b)
    } else {
        magnitude_of(b) < magnitude_of(a)
    }
}

/// Binary64 `>=` on bit patterns: false when either side is a NaN,
/// otherwise the negation of `<`.
pub open spec fn float_ge(a: u64, b: u64) -> bool {
    !is_nan(a) && !is_nan(b) && !float_lt(a, b)
}

/// Whether the value is within the tolerance of zero: `|a| < 1e-9`.
/// A NaN has a magnitude pattern above the one of infinity, so it does
/// not count as zero, exactly as the binary64 comparison has it.
pub open spec fn effectively_zero(a: u64) -> bool {
    magnitude_of(a) < EPSILON_BITS
}

/// Whether the value is clear of zero: `|a| >= 1e-9`, false for a NaN.
pub open spec fn effectively_nonzero(a: u64) -> bool {
    !is_nan(a) && magnitude_of(a) >= EPSILON_BITS
}

/// The sign bit cleared, executably.
pub fn magnitude64(a: u64) -> (r: u64)
    ensures
        r == magnitude_of(a),
{
    if a >= SIGN_BITS {
        a - SIGN_BITS
    } else {
        a
    }
}

/// Binary64 `<` computed on the bit patterns.
pub fn lt64(a: u64, b: u64) -> (r: bool)
    ensures
        r == float_lt(a, b),
{
    let ma = magnitude64(a);
    let mb = magnitude64(b);
    if ma > INFINITY_BITS || mb > INFINITY_BITS {
        return false;
    }
    let sa = a >= SIGN_BITS;
    let sb = b >= SIGN_BITS;
    if sa != sb {
        sa && (ma != 0 || mb != 0)
    } else if !sa {
        ma < mb
    } else {
        mb < ma
    }
}

/// Binary64 `>=` computed on the bit patterns.
pub fn ge64(a: u64, b: u64) -> (r: bool)
    ensures
        r == float_ge(a, b),
{
    let ma = magnitude64(a);
    let mb = magnitude64(b);
    if ma > INFINITY_BITS || mb > INFINITY_BITS {
        return false;
    }
    !lt64(a, b)
}

/// Whether `|a| < 1e-9`, computed on the bit pattern.
pub fn is_effectively_zero(a: u64) -> (r: bool)
    ensures
        r == effectively_zero(a),
{
    magnitude64(a) < EPSILON_BITS
}

/// Whether `|a| >= 1e-9` and `a` is not a NaN, computed on the bit pattern.
pub fn is_effectively_nonzero(a: u64) -> (r: bool)
    ensures
        r == effectively_nonzero(a),
{
    let ma = magnitude64(a);
    ma >= EPSILON_BITS && ma <= INFINITY_BITS
}

/// The greatest element of a nonempty sequence under the binary64 order,
/// taken by a left fold that keeps the incumbent unless the candidate is
/// strictly greater; a NaN never displaces the incumbent.
pub open spec fn seq_max_float(s: Seq<u64>) -> u64
    recommends
        s.len() > 0,
    decreases s.len(),
{
    if s.len() <= 1 {
        s[0]
    } else {
        let prev = seq_max_float(s.drop_last());
        if float_lt(prev, s.last()) {
            s.last()
        } else {
            prev
        }
    }
}

/// The least element of a nonempty sequence under the binary64 order,
/// by the symmetric fold.
pub open spec fn seq_min_float(s: Seq<u64>) -> u64
    recommends
        s.len() > 0,
    decreases s.len(),
{
    if s.len() <= 1 {
        s[0]
    } else {
        let prev = seq_min_float(s.drop_last());
        if float_lt(s.last(), prev) {
            s.last()
        } else {
            prev
        }
    }
}

/// The fold that `seq_max_float` describes.
pub fn max_float(v: &Vec<u64>) -> (r: u64)
    requires
        v@.len() > 0,
    ensures
        r == seq_max_float(v@),
{
    let mut best: u64 = v[0];
    let mut i: usize = 1;
    while i < v.len()
        invariant
            1 <= i <= v@.len(),
            best == seq_max_float(v@.take(i as int)),
        decreases v@.len() - i,
    {
        proof {
            assert(v@.take(i + 1).drop_last() =~= v@.take(i as int));
            assert(v@.take(i + 1).last() == v@[i as int]);
        }
        if lt64(best, v[i]) {
            best = v[i];
        }
        i += 1;
    }
    proof {
        assert(v@.take(v@.len() as int) =~= v@);
    }
    best
}

/// The fold that `seq_min_float` describes.
pub fn min_float(v: &Vec<u64>) -> (r: u64)
    requires
        v@.len() > 0,
    ensures
        r == seq_min_float(v@),
{
    let mut best: u64 = v[0];
    let mut i: usize = 1;
    while i < v.len()
        invariant
            1 <= i <= v@.len(),
            best == seq_min_float(v@.take(i as int)),
        decreases v@.len() - i,
    {
        proof {
            assert(v@.take(i + 1).drop_last() =~= v@.take(i as int));
            assert(v@.take(i + 1).last() == v@[i as int]);
        }
        if lt64(v[i], best) {
            best = v[i];
        }
        i += 1;
    }
    proof {
        assert(v@.take(v@.len() as int) =~= v@);
    }
    best
}

/// The greatest element is never below any element of the sequence:
/// for every position, `seq_max_float(s) < s[i]` is false in the
/// binary64 order.
pub proof fn lemma_max_float_not_below(s: Seq<u64>)
    requires
        s.len() > 0,
    ensures
        forall|i: int| 0 <= i < s.len() ==> !float_lt(seq_max_float(s), s[i]),
    decreases s.len(),
{
    if s.len() > 1 {
        lemma_max_float_not_below(s.drop_last());
        assert forall|i: int| 0 <= i < s.len() implies !float_lt(seq_max_float(s), s[i]) by {
            if i < s.len() - 1 {
                assert(s.drop_last()[i] == s[i]);
                assert(!float_lt(seq_max_float(s.drop_last()), s[i]));
            }
        }
    }
}

/// The greatest element is an element: the fold only ever keeps a value
/// taken from the sequence.
pub proof fn lemma_max_float_is_element(s: Seq<u64>)
    requires
        s.len() > 0,
    ensures
        s.contains(seq_max_float(s)),
    decreases s.len(),
{
    if s.len() <= 1 {
        assert(s[0] == seq_max_float(s));
    } else {
        let prev = seq_max_float(s.drop_last());
        if float_lt(prev, s.last()) {
            assert(s[s.len() - 1] == seq_max_float(s));
        } else {
            lemma_max_float_is_element(s.drop_last());
            let i = choose|i: int| 0 <= i < s.drop_last().len() && s.drop_last()[i] == prev;
            assert(s[i] == seq_max_float(s));
        }
    }
}

/// The least element is an element.
pub proof fn lemma_min_float_is_element(s: Seq<u64>)
    requires
        s.len() > 0,
    ensures
        s.contains(seq_min_float(s)),
    decreases s.len(),
{
    if s.len() <= 1 {
        assert(s[0] == seq_min_float(s));
    } else {
        let prev = seq_min_float(s.drop_last());
        if float_lt(s.last(), prev) {
            assert(s[s.len() - 1] == seq_min_float(s));
        } else {
            lemma_min_float_is_element(s.drop_last());
            let i = choose|i: int| 0 <= i < s.drop_last().len() && s.drop_last()[i] == prev;
            assert(s[i] == seq_min_float(s));
        }
    }
}

/// The least element is never above any element of the sequence.
pub proof fn lemma_min_float_not_above(s: Seq<u64>)
    requires
        s.len() > 0,
    ensures
        forall|i: int| 0 <= i < s.len() ==> !float_lt(s[i], seq_min_float(s)),
    decreases s.len(),
{
    if s.len() > 1 {
        lemma_min_float_not_above(s.drop_last());
        assert forall|i: int| 0 <= i < s.len() implies !float_lt(s[i], seq_min_float(s)) by {
            if i < s.len() - 1 {
                assert(s.drop_last()[i] == s[i]);
                assert(!float_lt(s[i], seq_min_float(s.drop_last())));
            }
        }
    }
}

} // verus!
