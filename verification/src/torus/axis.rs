use vstd::arithmetic::div_mod::{
    lemma_fundamental_div_mod_converse, lemma_mod_bound, lemma_mod_multiples_vanish,
};
use vstd::prelude::*;

verus! {

/// The canonical coordinate of `p` on an axis of period `size`.
///
/// A coordinate that already lies in the closed interval `[0, size]` is kept
/// as it is; in particular `size` itself is not folded back to `0`. A negative
/// coordinate is moved up by whole periods to the first value that is not
/// negative, a coordinate beyond `size` is moved down by whole periods to the
/// first value that is not above `size`.
pub open spec fn wrap(p: int, size: int) -> int {
    if p < 0 {
        p % size
    } else if p > size {
        (p - 1) % size + 1
    } else {
        p
    }
}

/// How far `p` lies outside `[0, size]`; zero inside.
pub open spec fn excess(p: int, size: int) -> int {
    if p < 0 {
        -p
    } else if p > size {
        p - size
    } else {
        0
    }
}

/// The coordinate reached from `p` by adding `size` while the value is
/// negative and subtracting `size` while it is above `size`.
pub open spec fn wrap_by_steps(p: int, size: int) -> int
    decreases excess(p, size),
{
    if size <= 0 {
        p
    } else if p < 0 {
        wrap_by_steps(p + size, size)
    } else if p > size {
        wrap_by_steps(p - size, size)
    } else {
        p
    }
}

/// The absolute value of `d`.
pub open spec fn magnitude(d: int) -> int {
    if d < 0 {
        -d
    } else {
        d
    }
}

/// The displacement equivalent to `d` that takes the shorter way round an
/// axis of period `size`.
///
/// Where `d` covers more than half a period, one period is taken off in the
/// direction of `d`. At exactly half a period both ways are equally long and
/// `d` is kept with its sign.
pub open spec fn shortest(d: int, size: int) -> int {
    if 2 * magnitude(d) > size {
        if d > 0 {
            d - size
        } else if d < 0 {
            d + size
        } else {
            d
        }
    } else {
        d
    }
}

/// A canonical coordinate lies in `[0, size]`.
pub proof fn lemma_wrap_in_range(p: int, size: int)
    requires
        size > 0,
    ensures
        0 <= wrap(p, size) <= size,
{
    lemma_mod_bound(p, size);
    lemma_mod_bound(p - 1, size);
}

/// A canonical coordinate differs from the raw one by a whole number of
/// periods: `k` is that number.
pub proof fn lemma_wrap_periods(p: int, size: int) -> (k: int)
    requires
        size > 0,
    ensures
        wrap(p, size) == p + k * size,
{
    let k = if p < 0 {
        -(p / size)
    } else if p > size {
        -((p - 1) / size)
    } else {
        0
    };
    assert(wrap(p, size) == p + k * size) by (nonlinear_arith)
        requires
            size > 0,
            k == if p < 0 {
                -(p / size)
            } else if p > size {
                -((p - 1) / size)
            } else {
                0
            },
            wrap(p, size) == if p < 0 {
                p % size
            } else if p > size {
                (p - 1) % size + 1
            } else {
                p
            },
    ;
    k
}

/// Moving a negative coordinate up by one period, or one above `size` down
/// by one period, does not change its canonical coordinate.
pub proof fn lemma_wrap_step(p: int, size: int)
    requires
        size > 0,
    ensures
        p < 0 ==> wrap(p + size, size) == wrap(p, size),
        p > size ==> wrap(p - size, size) == wrap(p, size),
{
    if p < 0 {
        lemma_mod_bound(p, size);
        lemma_mod_multiples_vanish(1, p, size);
        assert(size * 1 + p == p + size);
        if p + size >= 0 {
            lemma_fundamental_div_mod_converse(p + size, size, 0, p + size);
        }
    } else if p > size {
        lemma_mod_bound(p - 1, size);
        lemma_mod_multiples_vanish(1, p - size - 1, size);
        assert(size * 1 + (p - size - 1) == p - 1);
        if p - size <= size {
            lemma_fundamental_div_mod_converse(p - size - 1, size, 0, p - size - 1);
        }
    }
}

/// The canonical coordinate is the one that stepping by whole periods
/// arrives at.
pub proof fn lemma_wrap_is_stepwise(p: int, size: int)
    requires
        size > 0,
    ensures
        wrap(p, size) == wrap_by_steps(p, size),
    decreases excess(p, size),
{
    lemma_wrap_step(p, size);
    if p < 0 {
        lemma_wrap_is_stepwise(p + size, size);
    } else if p > size {
        lemma_wrap_is_stepwise(p - size, size);
    }
}

/// Negating a displacement negates its shortest equivalent.
pub proof fn lemma_shortest_negation(d: int, size: int)
    ensures
        shortest(-d, size) == -shortest(d, size),
{
}

/// The shortest equivalent of a displacement between two canonical
/// coordinates covers at most half a period.
pub proof fn lemma_shortest_bound(d: int, size: int)
    requires
        size > 0,
        -size <= d <= size,
    ensures
        2 * magnitude(shortest(d, size)) <= size,
        magnitude(shortest(d, size)) <= size / 2,
{
}

/// No displacement that differs from `d` by whole periods is shorter than
/// the shortest equivalent of `d`.
pub proof fn lemma_shortest_is_minimal(d: int, size: int, k: int)
    requires
        size > 0,
        -size <= d <= size,
    ensures
        magnitude(shortest(d, size)) <= magnitude(d + k * size),
{
    let r = shortest(d, size);
    let j = if r == d {
        k
    } else if d > 0 {
        k + 1
    } else {
        k - 1
    };
    assert(d + k * size == r + j * size) by (nonlinear_arith)
        requires
            r == d && j == k || r == d - size && j == k + 1 || r == d + size && j == k - 1,
    ;
    assert(magnitude(r) <= magnitude(r + j * size)) by (nonlinear_arith)
        requires
            size > 0,
            2 * magnitude(r) <= size,
    {
        if j >= 1 {
            assert(j * size >= size);
        } else if j <= -1 {
            assert(j * size <= -size);
        }
    }
}

/// Computes [`wrap`] for a coordinate of any magnitude.
pub fn wrap_coord(p: i128, size: i64) -> (r: i64)
    requires
        size > 0,
    ensures
        r == wrap(p as int, size as int),
        0 <= r <= size,
{
    let period: i128 = size as i128;
    if p < 0 {
        proof {
            lemma_mod_bound(p as int, period as int);
        }
        let r: i128 = p.checked_rem_euclid(period).unwrap();
        r as i64
    } else if p > period {
        proof {
            lemma_mod_bound(p - 1, period as int);
        }
        let r: i128 = (p - 1) % period + 1;
        r as i64
    } else {
        p as i64
    }
}

/// Computes the shortest displacement from the canonical coordinate `from`
/// to the canonical coordinate `to`.
pub fn shortest_between(from: i64, to: i64, size: i64) -> (r: i64)
    requires
        size > 0,
        0 <= from <= size,
        0 <= to <= size,
    ensures
        r == shortest(to - from, size as int),
{
    let d: i64 = to - from;
    let covered: i64 = if d < 0 {
        -d
    } else {
        d
    };
    if covered > size - covered {
        if d > 0 {
            d - size
        } else {
            d + size
        }
    } else {
        d
    }
}

} // verus!
