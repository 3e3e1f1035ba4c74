//! Properties of the accumulation that relate several calls or hold of all inputs.
use num::complex::Complex;
use vstd::prelude::*;

use crate::kernel::{accumulate_defined, addv_defined, addv_spec, source_index, visited};
use crate::scalar::{Conjugate, Real, Scalar, Widen};

verus! {

/// With both strides 1 and no conjugation, every position that both
/// sequences have receives the source element at the same position:
/// `y'[i] = x[i] + y[i]`; positions beyond the source are unchanged.
pub proof fn lemma_unit_stride<X: Conjugate, Y: Scalar + Widen<X>>(x: Seq<X>, y: Seq<Y>)
    ensures
        addv_spec(false, x, 1, y, 1).len() == y.len(),
        forall|i: int|
            0 <= i < y.len() && i < x.len() ==> #[trigger] addv_spec(false, x, 1, y, 1)[i]
                == Y::widen_spec(x[i]).add_spec(y[i]),
        forall|i: int|
            x.len() <= i < y.len() ==> #[trigger] addv_spec(false, x, 1, y, 1)[i] == y[i],
{
}

/// A destination position that is not a multiple of the destination stride
/// keeps its value, and so does a multiple `j * incy` whose source cursor
/// `j * incx` lies past the end of the source.
pub proof fn lemma_unvisited_unchanged<X: Conjugate, Y: Scalar + Widen<X>>(
    conjx: bool,
    x: Seq<X>,
    incx: nat,
    y: Seq<Y>,
    incy: nat,
    k: int,
)
    requires
        incx > 0,
        incy > 0,
        0 <= k < y.len(),
        k % incy as int != 0 || source_index(k, incx, incy) >= x.len(),
    ensures
        addv_spec(conjx, x, incx, y, incy)[k] == y[k],
{
}

/// An empty source or an empty destination leaves the destination as it was.
pub proof fn lemma_empty_unchanged<X: Conjugate, Y: Scalar + Widen<X>>(
    conjx: bool,
    x: Seq<X>,
    incx: nat,
    y: Seq<Y>,
    incy: nat,
)
    requires
        incx > 0,
        incy > 0,
        x.len() == 0 || y.len() == 0,
    ensures
        addv_spec(conjx, x, incx, y, incy) == y,
{
    assert(addv_spec(conjx, x, incx, y, incy) =~= y);
}

/// Adding `x` into `y` at stride 1 and then adding the negation of every
/// element of `x` gives back `y`.
pub proof fn lemma_round_trip<T: Real + Conjugate>(x: Seq<T>, y: Seq<T>)
    requires
        addv_defined(false, x, 1, y, 1),
        forall|i: int| 0 <= i < x.len() ==> (#[trigger] x[i]).neg_defined(),
    ensures
        addv_defined(false, x.map_values(|v: T| v.negated()), 1, addv_spec(false, x, 1, y, 1), 1),
        addv_spec(
            false,
            x.map_values(|v: T| v.negated()),
            1,
            addv_spec(false, x, 1, y, 1),
            1,
        ) == y,
{
    let nx = x.map_values(|v: T| v.negated());
    let y1 = addv_spec(false, x, 1, y, 1);
    let y2 = addv_spec(false, nx, 1, y1, 1);
    assert forall|k: int| 0 <= k < y1.len() && visited(k, nx.len(), 1, 1) implies accumulate_defined(
        false,
        nx[source_index(k, 1, 1)],
        #[trigger] y1[k],
    ) && y2[k] == y[k] by {
        assert(visited(k, x.len(), 1, 1));
        assert(accumulate_defined(false, x[k], y[k]));
        T::lemma_add_negated(x[k], y[k]);
    }
    assert(y2 =~= y);
}

/// Conjugated complex sources: at each visited position `(a + bi)` is added
/// as `(a - bi)`, so `y'[k] = (a + c) + (d - b)i` for `y[k] = c + di`.
pub proof fn lemma_conjugate_complex_i64(
    x: Seq<Complex<i64>>,
    incx: nat,
    y: Seq<Complex<i64>>,
    incy: nat,
    k: int,
)
    requires
        addv_defined(true, x, incx, y, incy),
        0 <= k < y.len(),
        visited(k, x.len(), incx, incy),
    ensures
        addv_spec(true, x, incx, y, incy)[k].re == x[source_index(k, incx, incy)].re + y[k].re,
        addv_spec(true, x, incx, y, incy)[k].im == y[k].im - x[source_index(k, incx, incy)].im,
{
    assert(accumulate_defined(true, x[source_index(k, incx, incy)], y[k]));
}

/// The same as `lemma_conjugate_complex_i64`, over `i32` parts.
pub proof fn lemma_conjugate_complex_i32(
    x: Seq<Complex<i32>>,
    incx: nat,
    y: Seq<Complex<i32>>,
    incy: nat,
    k: int,
)
    requires
        addv_defined(true, x, incx, y, incy),
        0 <= k < y.len(),
        visited(k, x.len(), incx, incy),
    ensures
        addv_spec(true, x, incx, y, incy)[k].re == x[source_index(k, incx, incy)].re + y[k].re,
        addv_spec(true, x, incx, y, incy)[k].im == y[k].im - x[source_index(k, incx, incy)].im,
{
    assert(accumulate_defined(true, x[source_index(k, incx, incy)], y[k]));
}

/// A real source added into a complex destination adds to the real part only:
/// the imaginary part of every position is unchanged.
pub proof fn lemma_real_into_complex_i64(
    conjx: bool,
    x: Seq<i64>,
    incx: nat,
    y: Seq<Complex<i64>>,
    incy: nat,
    k: int,
)
    requires
        addv_defined(conjx, x, incx, y, incy),
        0 <= k < y.len(),
        visited(k, x.len(), incx, incy),
    ensures
        addv_spec(conjx, x, incx, y, incy)[k].re == x[source_index(k, incx, incy)] + y[k].re,
        addv_spec(conjx, x, incx, y, incy)[k].im == y[k].im,
{
    assert(accumulate_defined(conjx, x[source_index(k, incx, incy)], y[k]));
}

/// The same as `lemma_real_into_complex_i64`, over `i32`.
pub proof fn lemma_real_into_complex_i32(
    conjx: bool,
    x: Seq<i32>,
    incx: nat,
    y: Seq<Complex<i32>>,
    incy: nat,
    k: int,
)
    requires
        addv_defined(conjx, x, incx, y, incy),
        0 <= k < y.len(),
        visited(k, x.len(), incx, incy),
    ensures
        addv_spec(conjx, x, incx, y, incy)[k].re == x[source_index(k, incx, incy)] + y[k].re,
        addv_spec(conjx, x, incx, y, incy)[k].im == y[k].im,
{
    assert(accumulate_defined(conjx, x[source_index(k, incx, incy)], y[k]));
}

} // verus!
