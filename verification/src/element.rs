//! The element types a protected cell can hold.
//!
//! The masking scheme needs three things of its element type: a bitwise XOR
//! (to mask and unmask), an exact equality test (to compare the stored and
//! the recovered value), and a uniform random draw over the full value range
//! (to pick a fresh mask on every write). [`Element`] bundles the three, so
//! the cell is written once, generically, and the XOR algebra the detection
//! scheme rests on is proved once per element type, here.

use vstd::prelude::*;

verus! {

/// What a value type must offer to live in a protected cell.
///
/// Implemented below for every fixed-width primitive integer type.
pub trait Element: Sized + Copy {
    /// The XOR of two values, as the contracts speak of it.
    spec fn xor_spec(self, other: Self) -> Self;

    /// Masking with the same mask twice gives the value back. This is the
    /// whole algebra the tamper-detection scheme rests on.
    proof fn lemma_xor_cancel(a: Self, b: Self)
        ensures
            a.xor_spec(b).xor_spec(b) == a,
    ;

    /// XOR does not care about the order of its operands.
    proof fn lemma_xor_comm(a: Self, b: Self)
        ensures
            a.xor_spec(b) == b.xor_spec(a),
    ;

    /// The bitwise XOR of `self` and `other`.
    fn xor(self, other: Self) -> (r: Self)
        ensures
            r == self.xor_spec(other),
    ;

    /// Whether `self` and `other` are the same value.
    fn eq_element(self, other: Self) -> (r: bool)
        ensures
            r == (self == other),
    ;

    /// A value drawn uniformly at random over the full range of the type.
    /// Nothing is promised of the result: a caller must be right whatever
    /// value comes back, and two draws may or may not coincide.
    fn sample() -> Self;
}

/// Relies on `rand::random`: it draws a value of `T` from the `Standard`
/// distribution, which is uniform over the full range for the primitive
/// integer types. Nothing is assumed of the value that comes back.
pub assume_specification<T>[ rand::random::<T> ]() -> (r: T)
    where
        rand::distributions::Standard: rand::distributions::Distribution<T>,
;

impl Element for u8 {
    open spec fn xor_spec(self, other: Self) -> Self {
        self ^ other
    }

    proof fn lemma_xor_cancel(a: Self, b: Self) {
        assert((a ^ b) ^ b == a) by (bit_vector);
    }

    proof fn lemma_xor_comm(a: Self, b: Self) {
        assert(a ^ b == b ^ a) by (bit_vector);
    }

    fn xor(self, other: Self) -> (r: Self) {
        self ^ other
    }

    fn eq_element(self, other: Self) -> (r: bool) {
        self == other
    }

    fn sample() -> Self {
        rand::random::<u8>()
    }
}

impl Element for u16 {
    open spec fn xor_spec(self, other: Self) -> Self {
        self ^ other
    }

    proof fn lemma_xor_cancel(a: Self, b: Self) {
        assert((a ^ b) ^ b == a) by (bit_vector);
    }

    proof fn lemma_xor_comm(a: Self, b: Self) {
        assert(a ^ b == b ^ a) by (bit_vector);
    }

    fn xor(self, other: Self) -> (r: Self) {
        self ^ other
    }

    fn eq_element(self, other: Self) -> (r: bool) {
        self == other
    }

    fn sample() -> Self {
        rand::random::<u16>()
    }
}

impl Element for u32 {
    open spec fn xor_spec(self, other: Self) -> Self {
        self ^ other
    }

    proof fn lemma_xor_cancel(a: Self, b: Self) {
        assert((a ^ b) ^ b == a) by (bit_vector);
    }

    proof fn lemma_xor_comm(a: Self, b: Self) {
        assert(a ^ b == b ^ a) by (bit_vector);
    }

    fn xor(self, other: Self) -> (r: Self) {
        self ^ other
    }

    fn eq_element(self, other: Self) -> (r: bool) {
        self == other
    }

    fn sample() -> Self {
        rand::random::<u32>()
    }
}

impl Element for u64 {
    open spec fn xor_spec(self, other: Self) -> Self {
        self ^ other
    }

    proof fn lemma_xor_cancel(a: Self, b: Self) {
        assert((a ^ b) ^ b == a) by (bit_vector);
    }

    proof fn lemma_xor_comm(a: Self, b: Self) {
        assert(a ^ b == b ^ a) by (bit_vector);
    }

    fn xor(self, other: Self) -> (r: Self) {
        self ^ other
    }

    fn eq_element(self, other: Self) -> (r: bool) {
        self == other
    }

    fn sample() -> Self {
        rand::random::<u64>()
    }
}

impl Element for u128 {
    open spec fn xor_spec(self, other: Self) -> Self {
        self ^ other
    }

    proof fn lemma_xor_cancel(a: Self, b: Self) {
        assert((a ^ b) ^ b == a) by (bit_vector);
    }

    proof fn lemma_xor_comm(a: Self, b: Self) {
        assert(a ^ b == b ^ a) by (bit_vector);
    }

    fn xor(self, other: Self) -> (r: Self) {
        self ^ other
    }

    fn eq_element(self, other: Self) -> (r: bool) {
        self == other
    }

    fn sample() -> Self {
        rand::random::<u128>()
    }
}

impl Element for usize {
    open spec fn xor_spec(self, other: Self) -> Self {
        self ^ other
    }

    proof fn lemma_xor_cancel(a: Self, b: Self) {
        assert((a ^ b) ^ b == a) by (bit_vector);
    }

    proof fn lemma_xor_comm(a: Self, b: Self) {
        assert(a ^ b == b ^ a) by (bit_vector);
    }

    fn xor(self, other: Self) -> (r: Self) {
        self ^ other
    }

    fn eq_element(self, other: Self) -> (r: bool) {
        self == other
    }

    fn sample() -> Self {
        rand::random::<usize>()
    }
}

impl Element for i8 {
    open spec fn xor_spec(self, other: Self) -> Self {
        self ^ other
    }

    proof fn lemma_xor_cancel(a: Self, b: Self) {
        assert((a ^ b) ^ b == a) by (bit_vector);
    }

    proof fn lemma_xor_comm(a: Self, b: Self) {
        assert(a ^ b == b ^ a) by (bit_vector);
    }

    fn xor(self, other: Self) -> (r: Self) {
        self ^ other
    }

    fn eq_element(self, other: Self) -> (r: bool) {
        self == other
    }

    fn sample() -> Self {
        rand::random::<i8>()
    }
}

impl Element for i16 {
    open spec fn xor_spec(self, other: Self) -> Self {
        self ^ other
    }

    proof fn lemma_xor_cancel(a: Self, b: Self) {
        assert((a ^ b) ^ b == a) by (bit_vector);
    }

    proof fn lemma_xor_comm(a: Self, b: Self) {
        assert(a ^ b == b ^ a) by (bit_vector);
    }

    fn xor(self, other: Self) -> (r: Self) {
        self ^ other
    }

    fn eq_element(self, other: Self) -> (r: bool) {
        self == other
    }

    fn sample() -> Self {
        rand::random::<i16>()
    }
}

impl Element for i32 {
    open spec fn xor_spec(self, other: Self) -> Self {
        self ^ other
    }

    proof fn lemma_xor_cancel(a: Self, b: Self) {
        assert((a ^ b) ^ b == a) by (bit_vector);
    }

    proof fn lemma_xor_comm(a: Self, b: Self) {
        assert(a ^ b == b ^ a) by (bit_vector);
    }

    fn xor(self, other: Self) -> (r: Self) {
        self ^ other
    }

    fn eq_element(self, other: Self) -> (r: bool) {
        self == other
    }

    fn sample() -> Self {
        rand::random::<i32>()
    }
}

impl Element for i64 {
    open spec fn xor_spec(self, other: Self) -> Self {
        self ^ other
    }

    proof fn lemma_xor_cancel(a: Self, b: Self) {
        assert((a ^ b) ^ b == a) by (bit_vector);
    }

    proof fn lemma_xor_comm(a: Self, b: Self) {
        assert(a ^ b == b ^ a) by (bit_vector);
    }

    fn xor(self, other: Self) -> (r: Self) {
        self ^ other
    }

    fn eq_element(self, other: Self) -> (r: bool) {
        self == other
    }

    fn sample() -> Self {
        rand::random::<i64>()
    }
}

impl Element for i128 {
    open spec fn xor_spec(self, other: Self) -> Self {
        self ^ other
    }

    proof fn lemma_xor_cancel(a: Self, b: Self) {
        assert((a ^ b) ^ b == a) by (bit_vector);
    }

    proof fn lemma_xor_comm(a: Self, b: Self) {
        assert(a ^ b == b ^ a) by (bit_vector);
    }

    fn xor(self, other: Self) -> (r: Self) {
        self ^ other
    }

    fn eq_element(self, other: Self) -> (r: bool) {
        self == other
    }

    fn sample() -> Self {
        rand::random::<i128>()
    }
}

impl Element for isize {
    open spec fn xor_spec(self, other: Self) -> Self {
        self ^ other
    }

    proof fn lemma_xor_cancel(a: Self, b: Self) {
        assert((a ^ b) ^ b == a) by (bit_vector);
    }

    proof fn lemma_xor_comm(a: Self, b: Self) {
        assert(a ^ b == b ^ a) by (bit_vector);
    }

    fn xor(self, other: Self) -> (r: Self) {
        self ^ other
    }

    fn eq_element(self, other: Self) -> (r: bool) {
        self == other
    }

    fn sample() -> Self {
        rand::random::<isize>()
    }
}

} // verus!
