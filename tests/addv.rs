use addv::{addv, Conjugate};
use num::complex::Complex;

#[test]
fn addv_rr() {
    let v = vec![1i16, 2, 3, 4];
    let mut w = vec![-1i16, -1, -1, -1];
    addv(false, v.as_slice(), 1, w.as_mut_slice(), 1);
    assert_eq!(w[0], v[0] - 1);
    assert_eq!(w[1], v[1] - 1);
    assert_eq!(w[2], v[2] - 1);
    assert_eq!(w[3], v[3] - 1);
}

#[test]
fn addv_cc() {
    let j = Complex { re: 0i32, im: 1i32 };
    let v = vec![1 + 2 * j, 3 + 4 * j];
    let mut w = vec![10 + 20 * j, 30 + 40 * j];
    let wclone = w.clone();
    addv(true, v.as_slice(), 1, w.as_mut_slice(), 1);
    assert_eq!(w[0], Complex::conj(&v[0]) + wclone[0]);
    assert_eq!(w[1], Complex::conj(&v[1]) + wclone[1]);
}

#[test]
fn addv_rc() {
    let j = Complex { re: 0i64, im: 1i64 };
    let v = vec![100i64, 200i64];
    let mut w = vec![-1 * j, -2 * j];
    let wclone = w.clone();
    addv(false, v.as_slice(), 1, w.as_mut_slice(), 1);
    assert_eq!(w[0], v[0] + wclone[0]);
    assert_eq!(w[1], v[1] + wclone[1]);
}

#[test]
fn unit_stride_real_addition() {
    let x = vec![1i32, 2, 3, 4];
    let mut y = vec![-1i32, -1, -1, -1];
    addv(false, x.as_slice(), 1, y.as_mut_slice(), 1);
    assert_eq!(y, vec![0, 1, 2, 3]);
}

#[test]
fn destination_stride_two() {
    let x = vec![1i64, 2, 3, 4];
    let mut y = vec![0i64, 0, 0, 0];
    addv(false, x.as_slice(), 1, y.as_mut_slice(), 2);
    assert_eq!(y, vec![1, 0, 2, 0]);
}

#[test]
fn source_stride_two() {
    let x = vec![1i64, 2, 3, 4, 5];
    let mut y = vec![10i64, 20, 30, 40, 50];
    addv(false, x.as_slice(), 2, y.as_mut_slice(), 1);
    assert_eq!(y, vec![11, 23, 35, 40, 50]);
}

#[test]
fn both_strides_wider_than_inputs() {
    let x = vec![7i16, 8];
    let mut y = vec![1i16, 2, 3];
    addv(false, x.as_slice(), 5, y.as_mut_slice(), 9);
    assert_eq!(y, vec![8, 2, 3]);
}

#[test]
fn largest_stride_stops_after_one_step() {
    let x = vec![1i32, 2, 3];
    let mut y = vec![10i32, 20, 30];
    addv(false, x.as_slice(), usize::MAX, y.as_mut_slice(), usize::MAX);
    assert_eq!(y, vec![11, 20, 30]);
}

#[test]
fn conjugate_single_complex() {
    let x = vec![Complex { re: 3i64, im: 4 }];
    let mut y = vec![Complex { re: 10i64, im: 20 }];
    addv(true, x.as_slice(), 1, y.as_mut_slice(), 1);
    assert_eq!(y, vec![Complex { re: 13, im: 16 }]);
}

#[test]
fn conjugate_flag_off_keeps_imaginary_sign() {
    let x = vec![Complex { re: 3i32, im: 4 }];
    let mut y = vec![Complex { re: 10i32, im: 20 }];
    addv(false, x.as_slice(), 1, y.as_mut_slice(), 1);
    assert_eq!(y, vec![Complex { re: 13, im: 24 }]);
}

#[test]
fn real_into_complex_widening() {
    let x = vec![5i32];
    let mut y = vec![Complex { re: 2i32, im: 3 }];
    addv(false, x.as_slice(), 1, y.as_mut_slice(), 1);
    assert_eq!(y, vec![Complex { re: 7, im: 3 }]);
}

#[test]
fn real_into_complex_with_conjugate_flag() {
    let x = vec![5i64, -6];
    let mut y = vec![Complex { re: 2i64, im: 3 }, Complex { re: 1, im: 1 }];
    addv(true, x.as_slice(), 1, y.as_mut_slice(), 1);
    assert_eq!(y, vec![Complex { re: 7, im: 3 }, Complex { re: -5, im: 1 }]);
}

#[test]
fn empty_source_leaves_destination() {
    let x: Vec<i32> = vec![];
    let mut y = vec![4i32, 5, 6];
    addv(true, x.as_slice(), 1, y.as_mut_slice(), 1);
    assert_eq!(y, vec![4, 5, 6]);
}

#[test]
fn empty_destination_stays_empty() {
    let x = vec![Complex { re: 1i64, im: 2 }];
    let mut y: Vec<Complex<i64>> = vec![];
    addv(true, x.as_slice(), 3, y.as_mut_slice(), 2);
    assert!(y.is_empty());
}

#[test]
fn round_trip_restores_destination() {
    let x = vec![3i64, -7, 11, 0];
    let y0 = vec![100i64, 200, -300, 5];
    let mut y = y0.clone();
    addv(false, x.as_slice(), 1, y.as_mut_slice(), 1);
    assert_eq!(y, vec![103, 193, -289, 5]);
    let negated: Vec<i64> = x.iter().map(|v| -v).collect();
    addv(false, negated.as_slice(), 1, y.as_mut_slice(), 1);
    assert_eq!(y, y0);
}

#[test]
fn widening_integers() {
    let x = vec![i8::MIN, i8::MAX];
    let mut y = vec![i64::from(i32::MAX), -1i64];
    addv(false, x.as_slice(), 1, y.as_mut_slice(), 1);
    assert_eq!(y, vec![i64::from(i32::MAX) - 128, 126]);

    let x = vec![i16::MAX, i16::MIN];
    let mut y = vec![1isize, 1];
    addv(false, x.as_slice(), 1, y.as_mut_slice(), 1);
    assert_eq!(y, vec![32768, -32767]);
}

#[test]
fn sums_up_to_type_limits() {
    let x = vec![i8::MAX, i8::MIN];
    let mut y = vec![0i8, 0];
    addv(false, x.as_slice(), 1, y.as_mut_slice(), 1);
    assert_eq!(y, vec![i8::MAX, i8::MIN]);
}

#[test]
fn conj_of_reals_is_identity() {
    assert_eq!(Conjugate::conj(-5i8), -5);
    assert_eq!(Conjugate::conj(i64::MIN), i64::MIN);
    assert_eq!(Conjugate::conj(42isize), 42);
}

#[test]
fn conj_of_complex_negates_imaginary_part() {
    let c = Complex { re: 9i32, im: -4 };
    assert_eq!(Conjugate::conj(c), Complex { re: 9, im: 4 });
    let d = Complex { re: -1i64, im: i64::MAX };
    assert_eq!(Conjugate::conj(d), Complex { re: -1, im: -i64::MAX });
}

#[test]
fn unsigned_widening() {
    let x = vec![u8::MAX, 1, 2];
    let mut y = vec![u64::MAX - 255, 0, 7, 9];
    addv(true, x.as_slice(), 1, y.as_mut_slice(), 2);
    assert_eq!(y, vec![u64::MAX, 0, 8, 9]);

    let x = vec![3usize, 4];
    let mut y = vec![5usize, 6];
    addv(false, x.as_slice(), 1, y.as_mut_slice(), 1);
    assert_eq!(y, vec![8, 10]);
    assert_eq!(Conjugate::conj(17u32), 17);
}
