//! What holds of the order on [`IndicatorValue`].

use vstd::prelude::*;
use crate::decimal::pow10;
use crate::indicator_value::{whole, IndicatorValue, MAX_MANTISSA};

verus! {

/// A power of ten is positive.
pub proof fn lemma_pow10_positive(n: nat)
    ensures
        pow10(n) > 0,
    decreases n,
{
    if n > 0 {
        lemma_pow10_positive((n - 1) as nat);
    }
}

/// Of two values at most one is smaller than the other, and none is smaller than itself.
pub proof fn lemma_lt_asymmetric(a: IndicatorValue, b: IndicatorValue)
    ensures
        !(a.spec_lt(b) && b.spec_lt(a)),
        !a.spec_lt(a),
{
}

/// Two values are equal as numbers exactly when neither is smaller.
pub proof fn lemma_eq_is_neither_less(a: IndicatorValue, b: IndicatorValue)
    ensures
        a.spec_eq(b) <==> (!a.spec_lt(b) && !b.spec_lt(a)),
{
}

/// Where `a < b`, any third value is above `a` or below `b`.
/// With asymmetry this makes `<` a strict weak order, so `<=` is transitive
/// and total.
pub proof fn lemma_lt_cotransitive(a: IndicatorValue, b: IndicatorValue, c: IndicatorValue)
    requires
        a.spec_lt(b),
    ensures
        a.spec_lt(c) || c.spec_lt(b),
{
    let (am, asc) = a@;
    let (bm, bsc) = b@;
    let (cm, csc) = c@;
    let pa = pow10(asc);
    let pb = pow10(bsc);
    let pc = pow10(csc);
    lemma_pow10_positive(asc);
    lemma_pow10_positive(bsc);
    lemma_pow10_positive(csc);
    if !(am * pc < cm * pa) && !(cm * pb < bm * pc) {
        assert(false) by (nonlinear_arith)
            requires
                pa > 0,
                pb > 0,
                pc > 0,
                am * pb < bm * pa,
                am * pc >= cm * pa,
                cm * pb >= bm * pc,
        {
            assert((am * pc) * pb >= (cm * pa) * pb);
            assert((cm * pb) * pa >= (bm * pc) * pa);
            assert((am * pb) * pc >= (bm * pa) * pc);
        }
    }
}

/// `<` is transitive.
pub proof fn lemma_lt_transitive(a: IndicatorValue, b: IndicatorValue, c: IndicatorValue)
    requires
        a.spec_lt(b),
        b.spec_lt(c),
    ensures
        a.spec_lt(c),
{
    lemma_lt_cotransitive(a, b, c);
    lemma_lt_asymmetric(b, c);
}

/// `<=` is transitive.
pub proof fn lemma_le_transitive(a: IndicatorValue, b: IndicatorValue, c: IndicatorValue)
    requires
        a.spec_le(b),
        b.spec_le(c),
    ensures
        a.spec_le(c),
{
    if c.spec_lt(a) {
        lemma_lt_cotransitive(c, a, b);
    }
}

/// `a < b <= c` gives `a < c`, and so does `a <= b < c`.
pub proof fn lemma_lt_le_transitive(a: IndicatorValue, b: IndicatorValue, c: IndicatorValue)
    requires
        (a.spec_lt(b) && b.spec_le(c)) || (a.spec_le(b) && b.spec_lt(c)),
    ensures
        a.spec_lt(c),
{
    if a.spec_lt(b) {
        lemma_lt_cotransitive(a, b, c);
    } else {
        lemma_lt_cotransitive(b, c, a);
    }
}

/// The sign of a value says how it compares with zero.
pub proof fn lemma_sign(a: IndicatorValue)
    ensures
        a.spec_is_positive() <==> IndicatorValue::spec_from_int(0).spec_lt(a),
        a.spec_is_negative() <==> a.spec_lt(IndicatorValue::spec_from_int(0)),
        a.spec_is_zero() <==> a.spec_eq(IndicatorValue::spec_from_int(0)),
{
    IndicatorValue::lemma_of_parts(0, 0);
    lemma_pow10_positive(a@.1);
    assert(pow10(0) == 1);
    let p = pow10(a@.1);
    let m = a@.0;
    assert(0 * p == 0);
    assert(m * 1 == m);
}

/// No value is below the smallest value there is or above the largest.
pub proof fn lemma_range(a: IndicatorValue)
    requires
        IndicatorValue::in_range(a@.0, a@.1),
    ensures
        !a.spec_lt(whole(-MAX_MANTISSA)),
        !whole(MAX_MANTISSA as int).spec_lt(a),
{
    IndicatorValue::lemma_of_parts(-MAX_MANTISSA, 0);
    IndicatorValue::lemma_of_parts(MAX_MANTISSA as int, 0);
    lemma_pow10_positive(a@.1);
    assert(pow10(0) == 1);
    let p = pow10(a@.1);
    let m = a@.0;
    let top = MAX_MANTISSA as int;
    assert(m * 1 == m);
    assert(top * p >= top && (-top) * p <= -top) by (nonlinear_arith)
        requires
            p >= 1,
            top >= 0,
    ;
}

/// Only the largest value there is is not below it.
pub proof fn lemma_largest_is_unique(a: IndicatorValue)
    requires
        IndicatorValue::in_range(a@.0, a@.1),
        !a.spec_lt(whole(MAX_MANTISSA as int)),
    ensures
        a@ == (MAX_MANTISSA as int, 0nat),
{
    IndicatorValue::lemma_of_parts(MAX_MANTISSA as int, 0);
    lemma_pow10_positive(a@.1);
    assert(pow10(0) == 1);
    let p = pow10(a@.1);
    let m = a@.0;
    let top = MAX_MANTISSA as int;
    assert(m * 1 == m);
    if a@.1 > 0 {
        lemma_pow10_positive((a@.1 - 1) as nat);
        assert(p >= 10);
        assert(top * p >= top * 10) by (nonlinear_arith)
            requires
                p >= 10,
                top >= 0,
        ;
    } else {
        assert(top * p == top) by (nonlinear_arith)
            requires
                p == 1,
        ;
    }
}

} // verus!
