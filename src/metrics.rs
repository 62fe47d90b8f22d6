use vstd::arithmetic::div_mod::lemma_div_is_ordered;
use vstd::prelude::*;

verus! {

/// The truncated percentage by which `a` exceeds a non-zero `m`: the
/// integer part of `(a - m) / m * 100`, rounded toward zero.
pub open spec fn deviation(a: int, m: int) -> int {
    let d = 100 * (a - m);
    let q = abs(d) / abs(m);
    if (d >= 0) == (m > 0) {
        q
    } else {
        -q
    }
}

pub open spec fn abs(x: int) -> int {
    if x >= 0 {
        x
    } else {
        -x
    }
}

/// `x` saturated into the range of `i64`.
pub open spec fn saturate(x: int) -> i64 {
    if x > i64::MAX {
        i64::MAX
    } else if x < i64::MIN {
        i64::MIN
    } else {
        x as i64
    }
}

/// The deviation as reported. Against a zero reference a positive value
/// saturates upward, a negative one downward, and zero stays zero.
pub open spec fn percentage_spec(a: int, m: int) -> i64 {
    if m == 0 {
        if a > 0 {
            i64::MAX
        } else if a < 0 {
            i64::MIN
        } else {
            0
        }
    } else {
        saturate(deviation(a, m))
    }
}

/// The least element of a non-empty sequence.
pub open spec fn seq_min(s: Seq<i64>) -> i64
    recommends
        s.len() > 0,
    decreases s.len(),
{
    if s.len() <= 1 {
        s[0]
    } else {
        let rest = seq_min(s.drop_last());
        if s.last() < rest {
            s.last()
        } else {
            rest
        }
    }
}

/// Percentage deviation of `a` from the reference value `m`.
pub fn percentage(a: i64, m: i64) -> (r: i64)
    ensures
        r == percentage_spec(a as int, m as int),
{
    if m == 0 {
        return if a > 0 {
            i64::MAX
        } else if a < 0 {
            i64::MIN
        } else {
            0
        };
    }
    let d: i128 = 100 * (a as i128 - m as i128);
    let dm: u128 = if d >= 0 {
        d as u128
    } else {
        (-d) as u128
    };
    let mm: u128 = if m > 0 {
        m as u128
    } else {
        (-(m as i128)) as u128
    };
    let q: u128 = dm / mm;
    assert(q <= dm);
    let v: i128 = if (d >= 0) == (m > 0) {
        q as i128
    } else {
        -(q as i128)
    };
    if v > i64::MAX as i128 {
        i64::MAX
    } else if v < i64::MIN as i128 {
        i64::MIN
    } else {
        v as i64
    }
}

/// The minimum of a non-empty list of values.
pub fn min_value(values: &Vec<i64>) -> (r: i64)
    requires
        values.len() > 0,
    ensures
        r == seq_min(values@),
        values@.contains(r),
        forall|i: int| 0 <= i < values.len() ==> r <= values[i],
{
    let mut best: i64 = values[0];
    let mut i: usize = 1;
    while i < values.len()
        invariant
            1 <= i <= values.len(),
            best == seq_min(values@.take(i as int)),
            values@.take(i as int).contains(best),
            forall|j: int| 0 <= j < i ==> best <= values[j],
        decreases values.len() - i,
    {
        let v = values[i];
        proof {
            assert(values@.take(i as int + 1).drop_last() =~= values@.take(i as int));
        }
        if v < best {
            best = v;
        }
        proof {
            let t = values@.take(i as int + 1);
            assert(t.last() == v);
            if best == v {
                assert(t[i as int] == v);
            } else {
                let k = choose|k: int| 0 <= k < i && values@.take(i as int)[k] == best;
                assert(t[k] == best);
            }
        }
        i = i + 1;
    }
    assert(values@.take(values.len() as int) =~= values@);
    best
}

/// Each value's percentage deviation from the least of them.
pub fn deviations(values: &Vec<i64>) -> (r: Vec<i64>)
    requires
        values.len() > 0,
    ensures
        r.len() == values.len(),
        forall|i: int|
            0 <= i < values.len() ==> r[i] == percentage_spec(
                values[i] as int,
                seq_min(values@) as int,
            ),
{
    let m = min_value(values);
    let mut out: Vec<i64> = Vec::new();
    let mut i: usize = 0;
    while i < values.len()
        invariant
            i <= values.len(),
            m == seq_min(values@),
            out.len() == i,
            forall|j: int| 0 <= j < i ==> out[j] == percentage_spec(values[j] as int, m as int),
        decreases values.len() - i,
    {
        let p = percentage(values[i], m);
        out.push(p);
        i = i + 1;
    }
    out
}

/// A value deviates from itself by zero percent.
pub proof fn lemma_percentage_at_reference(m: i64)
    requires
        m > 0,
    ensures
        percentage_spec(m as int, m as int) == 0,
{
    assert(0int / (m as int) == 0) by (nonlinear_arith)
        requires
            m > 0,
    ;
}

/// For a fixed positive reference, a larger value never has a smaller
/// percentage deviation.
pub proof fn lemma_percentage_monotonic(a1: i64, a2: i64, m: i64)
    requires
        a1 <= a2,
        m > 0,
    ensures
        percentage_spec(a1 as int, m as int) <= percentage_spec(a2 as int, m as int),
{
    let d1 = 100 * (a1 - m);
    let d2 = 100 * (a2 - m);
    let mi = m as int;
    if d1 >= 0 {
        lemma_div_is_ordered(d1, d2, mi);
    } else if d2 >= 0 {
        lemma_div_is_ordered(0, -d1, mi);
        lemma_div_is_ordered(0, d2, mi);
        assert(0int / mi == 0) by (nonlinear_arith)
            requires
                mi > 0,
        ;
    } else {
        lemma_div_is_ordered(-d2, -d1, mi);
    }
}

} // verus!
