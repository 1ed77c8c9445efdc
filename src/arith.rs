//! Facts of modular arithmetic that the ring's cursor reasoning rests on.
use vstd::prelude::*;
use vstd::arithmetic::div_mod::{lemma_fundamental_div_mod, lemma_fundamental_div_mod_converse};

verus! {

/// An integer within one period of `[0, c)` reduces by at most one period.
pub proof fn lemma_wrap(x: int, c: int)
    requires
        c > 0,
        -c <= x < 2 * c,
    ensures
        x % c == (if x < 0 {
            x + c
        } else if x < c {
            x
        } else {
            x - c
        }),
{
    if x < 0 {
        lemma_fundamental_div_mod_converse(x, c, -1, x + c);
    } else if x < c {
        lemma_fundamental_div_mod_converse(x, c, 0, x);
    } else {
        lemma_fundamental_div_mod_converse(x, c, 1, x - c);
    }
}

/// Sums and differences of multiples of `k` are multiples of `k`.
pub proof fn lemma_multiple_closed(x: int, y: int, k: int)
    requires
        k > 0,
        x % k == 0,
        y % k == 0,
    ensures
        (x + y) % k == 0,
        (x - y) % k == 0,
{
    lemma_fundamental_div_mod(x, k);
    lemma_fundamental_div_mod(y, k);
    let (p, q) = (x / k, y / k);
    assert(x + y == (p + q) * k) by (nonlinear_arith)
        requires
            x == k * p,
            y == k * q,
    ;
    assert(x - y == (p - q) * k) by (nonlinear_arith)
        requires
            x == k * p,
            y == k * q,
    ;
    lemma_fundamental_div_mod_converse(x + y, k, p + q, 0);
    lemma_fundamental_div_mod_converse(x - y, k, p - q, 0);
}

/// A multiple of `k` below a multiple `c` of `k` leaves room for another `k`.
pub proof fn lemma_multiple_below(a: int, c: int, k: int)
    requires
        k > 0,
        0 <= a < c,
        a % k == 0,
        c % k == 0,
    ensures
        a + k <= c,
{
    lemma_fundamental_div_mod(a, k);
    lemma_fundamental_div_mod(c, k);
    let (p, q) = (a / k, c / k);
    assert(a + k <= c) by (nonlinear_arith)
        requires
            a == k * p,
            c == k * q,
            a < c,
            k > 0,
    ;
}

} // verus!
