use vstd::prelude::*;

verus! {

/// A scalar that has a conjugate: itself for a real value, the value with its
/// imaginary part negated for a complex one.
pub trait Conjugate: Sized {
    /// The conjugate of `self`.
    spec fn conj_spec(self) -> Self;

    /// Whether the conjugate of `self` is representable in the type.
    spec fn conj_defined(self) -> bool;

    fn conj(self) -> (r: Self)
        requires
            self.conj_defined(),
        ensures
            r == self.conj_spec(),
    ;
}

/// A scalar with addition.
pub trait Scalar: Sized {
    /// The sum of `self` and `other`.
    spec fn add_spec(self, other: Self) -> Self;

    /// Whether the sum of `self` and `other` is representable in the type.
    spec fn add_defined(self, other: Self) -> bool;

    fn plus(self, other: Self) -> (r: Self)
        requires
            self.add_defined(other),
        ensures
            r == self.add_spec(other),
    ;
}

/// A destination scalar type that a source scalar type `X` converts into
/// without loss: an integer into a wider integer, a real into a complex
/// number over it, or a type into itself.
pub trait Widen<X>: Sized {
    /// The value of `x` in `Self`.
    spec fn widen_spec(x: X) -> Self;

    fn widen(x: X) -> (r: Self)
        ensures
            r == Self::widen_spec(x),
    ;
}

/// A real scalar type with negation (the signed integers), in which adding
/// a value and then its negation gives back what one started with.
pub trait Real: Scalar + Widen<Self> {
    /// The negation of `self`.
    spec fn negated(self) -> Self;

    /// Whether the negation of `self` is representable in the type.
    spec fn neg_defined(self) -> bool;

    proof fn lemma_add_negated(a: Self, b: Self)
        requires
            a.neg_defined(),
            Self::widen_spec(a).add_defined(b),
        ensures
            Self::widen_spec(a.negated()).add_defined(Self::widen_spec(a).add_spec(b)),
            Self::widen_spec(a.negated()).add_spec(Self::widen_spec(a).add_spec(b)) == b,
    ;
}

impl Conjugate for i8 {
    open spec fn conj_spec(self) -> Self {
        self
    }

    open spec fn conj_defined(self) -> bool {
        true
    }

    fn conj(self) -> (r: Self) {
        self
    }
}

impl Scalar for i8 {
    open spec fn add_spec(self, other: Self) -> Self {
        (self + other) as i8
    }

    open spec fn add_defined(self, other: Self) -> bool {
        i8::MIN <= self + other <= i8::MAX
    }

    fn plus(self, other: Self) -> (r: Self) {
        self + other
    }
}

impl Real for i8 {
    open spec fn negated(self) -> Self {
        (-self) as i8
    }

    open spec fn neg_defined(self) -> bool {
        self != i8::MIN
    }

    proof fn lemma_add_negated(a: Self, b: Self) {
    }
}

impl Widen<i8> for i8 {
    open spec fn widen_spec(x: i8) -> Self {
        x
    }

    fn widen(x: i8) -> (r: Self) {
        x
    }
}

impl Conjugate for i16 {
    open spec fn conj_spec(self) -> Self {
        self
    }

    open spec fn conj_defined(self) -> bool {
        true
    }

    fn conj(self) -> (r: Self) {
        self
    }
}

impl Scalar for i16 {
    open spec fn add_spec(self, other: Self) -> Self {
        (self + other) as i16
    }

    open spec fn add_defined(self, other: Self) -> bool {
        i16::MIN <= self + other <= i16::MAX
    }

    fn plus(self, other: Self) -> (r: Self) {
        self + other
    }
}

impl Real for i16 {
    open spec fn negated(self) -> Self {
        (-self) as i16
    }

    open spec fn neg_defined(self) -> bool {
        self != i16::MIN
    }

    proof fn lemma_add_negated(a: Self, b: Self) {
    }
}

impl Widen<i16> for i16 {
    open spec fn widen_spec(x: i16) -> Self {
        x
    }

    fn widen(x: i16) -> (r: Self) {
        x
    }
}

impl Widen<i8> for i16 {
    open spec fn widen_spec(x: i8) -> Self {
        x as i16
    }

    fn widen(x: i8) -> (r: Self) {
        i16::from(x)
    }
}

impl Conjugate for i32 {
    open spec fn conj_spec(self) -> Self {
        self
    }

    open spec fn conj_defined(self) -> bool {
        true
    }

    fn conj(self) -> (r: Self) {
        self
    }
}

impl Scalar for i32 {
    open spec fn add_spec(self, other: Self) -> Self {
        (self + other) as i32
    }

    open spec fn add_defined(self, other: Self) -> bool {
        i32::MIN <= self + other <= i32::MAX
    }

    fn plus(self, other: Self) -> (r: Self) {
        self + other
    }
}

impl Real for i32 {
    open spec fn negated(self) -> Self {
        (-self) as i32
    }

    open spec fn neg_defined(self) -> bool {
        self != i32::MIN
    }

    proof fn lemma_add_negated(a: Self, b: Self) {
    }
}

impl Widen<i32> for i32 {
    open spec fn widen_spec(x: i32) -> Self {
        x
    }

    fn widen(x: i32) -> (r: Self) {
        x
    }
}

impl Widen<i8> for i32 {
    open spec fn widen_spec(x: i8) -> Self {
        x as i32
    }

    fn widen(x: i8) -> (r: Self) {
        i32::from(x)
    }
}

impl Widen<i16> for i32 {
    open spec fn widen_spec(x: i16) -> Self {
        x as i32
    }

    fn widen(x: i16) -> (r: Self) {
        i32::from(x)
    }
}

impl Conjugate for i64 {
    open spec fn conj_spec(self) -> Self {
        self
    }

    open spec fn conj_defined(self) -> bool {
        true
    }

    fn conj(self) -> (r: Self) {
        self
    }
}

impl Scalar for i64 {
    open spec fn add_spec(self, other: Self) -> Self {
        (self + other) as i64
    }

    open spec fn add_defined(self, other: Self) -> bool {
        i64::MIN <= self + other <= i64::MAX
    }

    fn plus(self, other: Self) -> (r: Self) {
        self + other
    }
}

impl Real for i64 {
    open spec fn negated(self) -> Self {
        (-self) as i64
    }

    open spec fn neg_defined(self) -> bool {
        self != i64::MIN
    }

    proof fn lemma_add_negated(a: Self, b: Self) {
    }
}

impl Widen<i64> for i64 {
    open spec fn widen_spec(x: i64) -> Self {
        x
    }

    fn widen(x: i64) -> (r: Self) {
        x
    }
}

impl Widen<i8> for i64 {
    open spec fn widen_spec(x: i8) -> Self {
        x as i64
    }

    fn widen(x: i8) -> (r: Self) {
        i64::from(x)
    }
}

impl Widen<i16> for i64 {
    open spec fn widen_spec(x: i16) -> Self {
        x as i64
    }

    fn widen(x: i16) -> (r: Self) {
        i64::from(x)
    }
}

impl Widen<i32> for i64 {
    open spec fn widen_spec(x: i32) -> Self {
        x as i64
    }

    fn widen(x: i32) -> (r: Self) {
        i64::from(x)
    }
}

impl Conjugate for i128 {
    open spec fn conj_spec(self) -> Self {
        self
    }

    open spec fn conj_defined(self) -> bool {
        true
    }

    fn conj(self) -> (r: Self) {
        self
    }
}

impl Scalar for i128 {
    open spec fn add_spec(self, other: Self) -> Self {
        (self + other) as i128
    }

    open spec fn add_defined(self, other: Self) -> bool {
        i128::MIN <= self + other <= i128::MAX
    }

    fn plus(self, other: Self) -> (r: Self) {
        self + other
    }
}

impl Real for i128 {
    open spec fn negated(self) -> Self {
        (-self) as i128
    }

    open spec fn neg_defined(self) -> bool {
        self != i128::MIN
    }

    proof fn lemma_add_negated(a: Self, b: Self) {
    }
}

impl Widen<i128> for i128 {
    open spec fn widen_spec(x: i128) -> Self {
        x
    }

    fn widen(x: i128) -> (r: Self) {
        x
    }
}

impl Widen<i8> for i128 {
    open spec fn widen_spec(x: i8) -> Self {
        x as i128
    }

    fn widen(x: i8) -> (r: Self) {
        i128::from(x)
    }
}

impl Widen<i16> for i128 {
    open spec fn widen_spec(x: i16) -> Self {
        x as i128
    }

    fn widen(x: i16) -> (r: Self) {
        i128::from(x)
    }
}

impl Widen<i32> for i128 {
    open spec fn widen_spec(x: i32) -> Self {
        x as i128
    }

    fn widen(x: i32) -> (r: Self) {
        i128::from(x)
    }
}

impl Widen<i64> for i128 {
    open spec fn widen_spec(x: i64) -> Self {
        x as i128
    }

    fn widen(x: i64) -> (r: Self) {
        i128::from(x)
    }
}

impl Conjugate for isize {
    open spec fn conj_spec(self) -> Self {
        self
    }

    open spec fn conj_defined(self) -> bool {
        true
    }

    fn conj(self) -> (r: Self) {
        self
    }
}

impl Scalar for isize {
    open spec fn add_spec(self, other: Self) -> Self {
        (self + other) as isize
    }

    open spec fn add_defined(self, other: Self) -> bool {
        isize::MIN <= self + other <= isize::MAX
    }

    fn plus(self, other: Self) -> (r: Self) {
        self + other
    }
}

impl Real for isize {
    open spec fn negated(self) -> Self {
        (-self) as isize
    }

    open spec fn neg_defined(self) -> bool {
        self != isize::MIN
    }

    proof fn lemma_add_negated(a: Self, b: Self) {
    }
}

impl Widen<isize> for isize {
    open spec fn widen_spec(x: isize) -> Self {
        x
    }

    fn widen(x: isize) -> (r: Self) {
        x
    }
}

impl Widen<i8> for isize {
    open spec fn widen_spec(x: i8) -> Self {
        x as isize
    }

    fn widen(x: i8) -> (r: Self) {
        isize::from(x)
    }
}

impl Widen<i16> for isize {
    open spec fn widen_spec(x: i16) -> Self {
        x as isize
    }

    fn widen(x: i16) -> (r: Self) {
        isize::from(x)
    }
}

impl Conjugate for u8 {
    open spec fn conj_spec(self) -> Self {
        self
    }

    open spec fn conj_defined(self) -> bool {
        true
    }

    fn conj(self) -> (r: Self) {
        self
    }
}

impl Scalar for u8 {
    open spec fn add_spec(self, other: Self) -> Self {
        (self + other) as u8
    }

    open spec fn add_defined(self, other: Self) -> bool {
        u8::MIN <= self + other <= u8::MAX
    }

    fn plus(self, other: Self) -> (r: Self) {
        self + other
    }
}

impl Widen<u8> for u8 {
    open spec fn widen_spec(x: u8) -> Self {
        x
    }

    fn widen(x: u8) -> (r: Self) {
        x
    }
}

impl Conjugate for u16 {
    open spec fn conj_spec(self) -> Self {
        self
    }

    open spec fn conj_defined(self) -> bool {
        true
    }

    fn conj(self) -> (r: Self) {
        self
    }
}

impl Scalar for u16 {
    open spec fn add_spec(self, other: Self) -> Self {
        (self + other) as u16
    }

    open spec fn add_defined(self, other: Self) -> bool {
        u16::MIN <= self + other <= u16::MAX
    }

    fn plus(self, other: Self) -> (r: Self) {
        self + other
    }
}

impl Widen<u16> for u16 {
    open spec fn widen_spec(x: u16) -> Self {
        x
    }

    fn widen(x: u16) -> (r: Self) {
        x
    }
}

impl Widen<u8> for u16 {
    open spec fn widen_spec(x: u8) -> Self {
        x as u16
    }

    fn widen(x: u8) -> (r: Self) {
        u16::from(x)
    }
}

impl Conjugate for u32 {
    open spec fn conj_spec(self) -> Self {
        self
    }

    open spec fn conj_defined(self) -> bool {
        true
    }

    fn conj(self) -> (r: Self) {
        self
    }
}

impl Scalar for u32 {
    open spec fn add_spec(self, other: Self) -> Self {
        (self + other) as u32
    }

    open spec fn add_defined(self, other: Self) -> bool {
        u32::MIN <= self + other <= u32::MAX
    }

    fn plus(self, other: Self) -> (r: Self) {
        self + other
    }
}

impl Widen<u32> for u32 {
    open spec fn widen_spec(x: u32) -> Self {
        x
    }

    fn widen(x: u32) -> (r: Self) {
        x
    }
}

impl Widen<u8> for u32 {
    open spec fn widen_spec(x: u8) -> Self {
        x as u32
    }

    fn widen(x: u8) -> (r: Self) {
        u32::from(x)
    }
}

impl Widen<u16> for u32 {
    open spec fn widen_spec(x: u16) -> Self {
        x as u32
    }

    fn widen(x: u16) -> (r: Self) {
        u32::from(x)
    }
}

impl Conjugate for u64 {
    open spec fn conj_spec(self) -> Self {
        self
    }

    open spec fn conj_defined(self) -> bool {
        true
    }

    fn conj(self) -> (r: Self) {
        self
    }
}

impl Scalar for u64 {
    open spec fn add_spec(self, other: Self) -> Self {
        (self + other) as u64
    }

    open spec fn add_defined(self, other: Self) -> bool {
        u64::MIN <= self + other <= u64::MAX
    }

    fn plus(self, other: Self) -> (r: Self) {
        self + other
    }
}

impl Widen<u64> for u64 {
    open spec fn widen_spec(x: u64) -> Self {
        x
    }

    fn widen(x: u64) -> (r: Self) {
        x
    }
}

impl Widen<u8> for u64 {
    open spec fn widen_spec(x: u8) -> Self {
        x as u64
    }

    fn widen(x: u8) -> (r: Self) {
        u64::from(x)
    }
}

impl Widen<u16> for u64 {
    open spec fn widen_spec(x: u16) -> Self {
        x as u64
    }

    fn widen(x: u16) -> (r: Self) {
        u64::from(x)
    }
}

impl Widen<u32> for u64 {
    open spec fn widen_spec(x: u32) -> Self {
        x as u64
    }

    fn widen(x: u32) -> (r: Self) {
        u64::from(x)
    }
}

impl Conjugate for u128 {
    open spec fn conj_spec(self) -> Self {
        self
    }

    open spec fn conj_defined(self) -> bool {
        true
    }

    fn conj(self) -> (r: Self) {
        self
    }
}

impl Scalar for u128 {
    open spec fn add_spec(self, other: Self) -> Self {
        (self + other) as u128
    }

    open spec fn add_defined(self, other: Self) -> bool {
        u128::MIN <= self + other <= u128::MAX
    }

    fn plus(self, other: Self) -> (r: Self) {
        self + other
    }
}

impl Widen<u128> for u128 {
    open spec fn widen_spec(x: u128) -> Self {
        x
    }

    fn widen(x: u128) -> (r: Self) {
        x
    }
}

impl Widen<u8> for u128 {
    open spec fn widen_spec(x: u8) -> Self {
        x as u128
    }

    fn widen(x: u8) -> (r: Self) {
        u128::from(x)
    }
}

impl Widen<u16> for u128 {
    open spec fn widen_spec(x: u16) -> Self {
        x as u128
    }

    fn widen(x: u16) -> (r: Self) {
        u128::from(x)
    }
}

impl Widen<u32> for u128 {
    open spec fn widen_spec(x: u32) -> Self {
        x as u128
    }

    fn widen(x: u32) -> (r: Self) {
        u128::from(x)
    }
}

impl Widen<u64> for u128 {
    open spec fn widen_spec(x: u64) -> Self {
        x as u128
    }

    fn widen(x: u64) -> (r: Self) {
        u128::from(x)
    }
}

impl Conjugate for usize {
    open spec fn conj_spec(self) -> Self {
        self
    }

    open spec fn conj_defined(self) -> bool {
        true
    }

    fn conj(self) -> (r: Self) {
        self
    }
}

impl Scalar for usize {
    open spec fn add_spec(self, other: Self) -> Self {
        (self + other) as usize
    }

    open spec fn add_defined(self, other: Self) -> bool {
        usize::MIN <= self + other <= usize::MAX
    }

    fn plus(self, other: Self) -> (r: Self) {
        self + other
    }
}

impl Widen<usize> for usize {
    open spec fn widen_spec(x: usize) -> Self {
        x
    }

    fn widen(x: usize) -> (r: Self) {
        x
    }
}

impl Widen<u8> for usize {
    open spec fn widen_spec(x: u8) -> Self {
        x as usize
    }

    fn widen(x: u8) -> (r: Self) {
        usize::from(x)
    }
}

impl Widen<u16> for usize {
    open spec fn widen_spec(x: u16) -> Self {
        x as usize
    }

    fn widen(x: u16) -> (r: Self) {
        usize::from(x)
    }
}

} // verus!
