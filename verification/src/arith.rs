//! Modular arithmetic facts used for the scalar field laws.

use vstd::prelude::*;
use vstd::arithmetic::div_mod::{lemma_fundamental_div_mod, lemma_mod_multiples_vanish, lemma_small_mod};

verus! {

/// The multiplicative inverse modulo `m` is unique among reduced values:
/// if `b` inverts `a` and `c` inverts `b`, then `c` is `a` again.
pub proof fn lemma_mod_inverse_unique(a: nat, b: nat, c: nat, m: nat)
    requires
        m > 1,
        a < m,
        c < m,
        (a * b) % m == 1,
        (b * c) % m == 1,
    ensures
        c == a,
{
    let ai = a as int;
    let bi = b as int;
    let ci = c as int;
    let mi = m as int;
    lemma_fundamental_div_mod(ai * bi, mi);
    let k = (ai * bi) / mi;
    assert(ai * bi == mi * k + 1);
    lemma_fundamental_div_mod(bi * ci, mi);
    let j = (bi * ci) / mi;
    assert(bi * ci == mi * j + 1);
    // c * (a * b) equals a * (b * c); reduce both sides modulo m.
    assert(ci * (ai * bi) == ai * (bi * ci)) by (nonlinear_arith);
    assert(ci * (ai * bi) == mi * (ci * k) + ci) by (nonlinear_arith)
        requires
            ai * bi == mi * k + 1,
    ;
    assert(ai * (bi * ci) == mi * (ai * j) + ai) by (nonlinear_arith)
        requires
            bi * ci == mi * j + 1,
    ;
    lemma_mod_multiples_vanish(ci * k, ci, mi);
    lemma_mod_multiples_vanish(ai * j, ai, mi);
    lemma_small_mod(c, m);
    lemma_small_mod(a, m);
    assert((mi * (ci * k) + ci) % mi == ci);
    assert((mi * (ai * j) + ai) % mi == ai);
}

} // verus!
