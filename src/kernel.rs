use vstd::arithmetic::div_mod::{
    lemma_div_multiples_vanish, lemma_fundamental_div_mod, lemma_mod_multiples_basic,
};
use vstd::prelude::*;

use crate::scalar::{Conjugate, Scalar, Widen};

verus! {

/// The position of the source read together with destination position `k`.
pub open spec fn source_index(k: int, incx: nat, incy: nat) -> int {
    (k / incy as int) * incx
}

/// Whether the destination cursor stops at position `k`: `k` is a multiple of
/// `incy`, and the source cursor of the same step is still within `0..xlen`.
/// Both cursors only move forward, so the steps taken are exactly those on
/// which both are in bounds.
pub open spec fn visited(k: int, xlen: nat, incx: nat, incy: nat) -> bool {
    &&& k % incy as int == 0
    &&& source_index(k, incx, incy) < xlen
}

/// The value that a source element contributes: its conjugate or itself.
pub open spec fn contribution<X: Conjugate>(conjx: bool, v: X) -> X {
    if conjx {
        v.conj_spec()
    } else {
        v
    }
}

/// The new value of destination element `w` after source element `v` is added to it.
pub open spec fn accumulated<X: Conjugate, Y: Scalar + Widen<X>>(conjx: bool, v: X, w: Y) -> Y {
    Y::widen_spec(contribution(conjx, v)).add_spec(w)
}

/// Whether adding source element `v` into destination element `w` stays representable.
pub open spec fn accumulate_defined<X: Conjugate, Y: Scalar + Widen<X>>(
    conjx: bool,
    v: X,
    w: Y,
) -> bool {
    &&& conjx ==> v.conj_defined()
    &&& Y::widen_spec(contribution(conjx, v)).add_defined(w)
}

/// Whether every step of the accumulation stays representable.
pub open spec fn addv_defined<X: Conjugate, Y: Scalar + Widen<X>>(
    conjx: bool,
    x: Seq<X>,
    incx: nat,
    y: Seq<Y>,
    incy: nat,
) -> bool {
    forall|k: int|
        0 <= k < y.len() && visited(k, x.len(), incx, incy) ==> accumulate_defined(
            conjx,
            x[source_index(k, incx, incy)],
            #[trigger] y[k],
        )
}

/// The destination after the accumulation: each visited position holds its old
/// value plus the contribution of its source element, every other position is unchanged.
pub open spec fn addv_spec<X: Conjugate, Y: Scalar + Widen<X>>(
    conjx: bool,
    x: Seq<X>,
    incx: nat,
    y: Seq<Y>,
    incy: nat,
) -> Seq<Y> {
    Seq::new(
        y.len(),
        |k: int|
            if visited(k, x.len(), incx, incy) {
                accumulated(conjx, x[source_index(k, incx, incy)], y[k])
            } else {
                y[k]
            },
    )
}

/// The position of step `j` as a destination position: its source index is `j * incx`.
proof fn lemma_step_position(j: int, incx: nat, incy: nat)
    requires
        j >= 0,
        incy > 0,
    ensures
        (j * incy) % (incy as int) == 0,
        source_index(j * incy, incx, incy) == j * incx,
{
    lemma_mod_multiples_basic(j, incy as int);
    lemma_div_multiples_vanish(j, incy as int);
    assert(j * incy == incy * j) by (nonlinear_arith);
}

/// A multiple of `inc` between `j * inc` and `(j + 1) * inc` is `j * inc`.
proof fn lemma_multiple_between(k: int, j: int, inc: int)
    requires
        inc > 0,
        k % inc == 0,
        j * inc <= k < (j + 1) * inc,
    ensures
        k == j * inc,
{
    lemma_fundamental_div_mod(k, inc);
    let q = k / inc;
    assert(q == j) by (nonlinear_arith)
        requires
            inc > 0,
            k == inc * q,
            j * inc <= k,
            k < (j + 1) * inc,
    ;
    assert(k == j * inc) by (nonlinear_arith)
        requires
            k == inc * q,
            q == j,
    ;
}

/// A visited destination position whose source index lies below `j * incx`
/// lies below `j * incy`.
proof fn lemma_visited_before(k: int, j: int, incx: nat, incy: nat)
    requires
        incx > 0,
        incy > 0,
        k >= 0,
        k % incy as int == 0,
        source_index(k, incx, incy) < j * incx,
    ensures
        k < j * incy,
{
    lemma_fundamental_div_mod(k, incy as int);
    let q = k / incy as int;
    assert(k < j * incy) by (nonlinear_arith)
        requires
            incx > 0,
            incy > 0,
            k == incy * q,
            q * incx < j * incx,
    ;
}

/// Adds each element of `x` read at stride `incx` (or its conjugate, when
/// `conjx` holds) into the element of `y` at stride `incy`, widened to `Y`.
/// Both cursors start at 0; the walk stops as soon as either leaves its
/// slice. Positions of `y` that are not visited keep their value.
pub fn addv<X: Conjugate + Copy, Y: Scalar + Widen<X> + Copy>(
    conjx: bool,
    x: &[X],
    incx: usize,
    y: &mut [Y],
    incy: usize,
)
    requires
        incx > 0,
        incy > 0,
        addv_defined(conjx, x@, incx as nat, old(y)@, incy as nat),
    ensures
        final(y)@ == addv_spec(conjx, x@, incx as nat, old(y)@, incy as nat),
{
    let ghost y0 = y@;
    let ghost xlen = x@.len();
    let ghost ylen = y0.len();
    let mut ix: usize = 0;
    let mut iy: usize = 0;
    let ghost mut j: int = 0;
    while ix < x.len() && iy < y.len()
        invariant
            incx > 0,
            incy > 0,
            y@.len() == ylen,
            y0.len() == ylen,
            x@.len() == xlen,
            addv_defined(conjx, x@, incx as nat, y0, incy as nat),
            j >= 0,
            j * incx < xlen ==> ix == j * incx,
            j * incx >= xlen ==> ix == xlen,
            j * incy < ylen ==> iy == j * incy,
            j * incy >= ylen ==> iy == ylen,
            forall|k: int|
                0 <= k < ylen ==> #[trigger] y@[k] == if visited(k, xlen, incx as nat, incy as nat)
                    && k < j * incy {
                    accumulated(conjx, x@[source_index(k, incx as nat, incy as nat)], y0[k])
                } else {
                    y0[k]
                },
        decreases xlen - ix,
    {
        proof {
            lemma_step_position(j, incx as nat, incy as nat);
            assert(y@[iy as int] == y0[iy as int]);
        }
        let v = if conjx {
            x[ix].conj()
        } else {
            x[ix]
        };
        let w = y[iy];
        let ghost prev = y@;
        y[iy] = Y::widen(v).plus(w);
        proof {
            assert((j + 1) * incx == j * incx + incx) by (nonlinear_arith);
            assert((j + 1) * incy == j * incy + incy) by (nonlinear_arith);
            assert forall|k: int| 0 <= k < ylen implies #[trigger] y@[k] == if visited(
                k,
                xlen,
                incx as nat,
                incy as nat,
            ) && k < (j + 1) * incy {
                accumulated(conjx, x@[source_index(k, incx as nat, incy as nat)], y0[k])
            } else {
                y0[k]
            } by {
                if k != iy {
                    assert(y@[k] == prev[k]);
                    if visited(k, xlen, incx as nat, incy as nat) && k < (j + 1) * incy && k >= j
                        * incy {
                        lemma_multiple_between(k, j, incy as int);
                    }
                }
            }
        }
        ix = if incx < x.len() - ix {
            ix + incx
        } else {
            x.len()
        };
        iy = if incy < y.len() - iy {
            iy + incy
        } else {
            y.len()
        };
        proof {
            j = j + 1;
        }
    }
    proof {
        assert forall|k: int| 0 <= k < ylen implies #[trigger] y@[k] == addv_spec(
            conjx,
            x@,
            incx as nat,
            y0,
            incy as nat,
        )[k] by {
            if visited(k, xlen, incx as nat, incy as nat) && j * incy < ylen {
                lemma_visited_before(k, j, incx as nat, incy as nat);
            }
        }
        assert(y@ =~= addv_spec(conjx, x@, incx as nat, y0, incy as nat));
    }
}

} // verus!
