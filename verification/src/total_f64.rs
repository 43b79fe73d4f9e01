//! IEEE 754 binary64 values under the standard's `totalOrder`.
//!
//! A value is held as its 64-bit pattern: one sign bit, eleven bits of biased
//! exponent and fifty-two bits of mantissa. Everything here is decided on that
//! pattern, so every pattern is accepted: both zeros, the subnormals, the
//! infinities and each single NaN encoding have a place of their own in the order.

use core::cmp::Ordering;
use core::hash::Hash;
use core::hash::Hasher;
use vstd::prelude::*;
use vstd::std_specs::cmp::PartialEqSpec;
use vstd::std_specs::cmp::PartialOrdSpec;
use vstd::std_specs::convert::FromSpec;

verus! {

/// A binary64 value that compares, tests for equality and hashes by the IEEE 754
/// total order instead of by its numeric value.
///
/// The field is the value's bit pattern, as `f64::to_bits` gives it and
/// `f64::from_bits` takes it. It is never changed: the order is computed from it
/// on each comparison.
#[derive(Debug, Clone, Copy)]
pub struct TotalF64(pub u64);

impl TotalF64 {
    /// Whether the sign bit is set. This holds of `-0.0` and of half of the NaNs too.
    pub open spec fn is_sign_negative(&self) -> bool {
        self.0 >= 0x8000_0000_0000_0000
    }

    /// The pattern without its sign bit: exponent and mantissa read as one number.
    pub open spec fn magnitude(&self) -> int {
        if self.0 >= 0x8000_0000_0000_0000 {
            self.0 - 0x8000_0000_0000_0000
        } else {
            self.0 as int
        }
    }

    /// The biased exponent, from 0 to 0x7ff.
    pub open spec fn exponent(&self) -> int {
        self.magnitude() / 0x10_0000_0000_0000
    }

    /// The mantissa field, without the implicit leading bit.
    pub open spec fn mantissa(&self) -> int {
        self.magnitude() % 0x10_0000_0000_0000
    }

    /// Positive or negative zero.
    pub open spec fn is_zero(&self) -> bool {
        self.exponent() == 0 && self.mantissa() == 0
    }

    /// A nonzero value below the smallest normal magnitude.
    pub open spec fn is_subnormal(&self) -> bool {
        self.exponent() == 0 && self.mantissa() != 0
    }

    /// A finite value with an implicit leading bit.
    pub open spec fn is_normal(&self) -> bool {
        0 < self.exponent() < 0x7ff
    }

    /// Positive or negative infinity.
    pub open spec fn is_infinite(&self) -> bool {
        self.exponent() == 0x7ff && self.mantissa() == 0
    }

    /// Any NaN, of either sign and with any payload.
    pub open spec fn is_nan(&self) -> bool {
        self.exponent() == 0x7ff && self.mantissa() != 0
    }

    /// A NaN whose quiet bit, the highest bit of the mantissa, is set.
    pub open spec fn is_quiet_nan(&self) -> bool {
        self.is_nan() && self.mantissa() >= 0x8_0000_0000_0000
    }

    /// A NaN whose quiet bit is clear.
    pub open spec fn is_signaling_nan(&self) -> bool {
        self.is_nan() && self.mantissa() < 0x8_0000_0000_0000
    }

    /// The integer that stands for this value in the total order.
    ///
    /// A value without the sign bit is ranked by its magnitude. One with the sign
    /// bit is ranked below all of those, the larger magnitude first: `-0.0` gets
    /// `-1` and the negative NaN with every bit set gets `i64::MIN`.
    pub open spec fn key(&self) -> int {
        if self.is_sign_negative() {
            -1 - self.magnitude()
        } else {
            self.magnitude()
        }
    }

    /// IEEE 754 `totalOrder(self, other)`, read off the three fields.
    ///
    /// A set sign bit comes before a clear one. Between two values without it the
    /// smaller exponent comes first, and with equal exponents the smaller mantissa;
    /// between two values with it the order is the reverse.
    pub open spec fn total_order_le(&self, other: &Self) -> bool {
        if self.is_sign_negative() != other.is_sign_negative() {
            self.is_sign_negative()
        } else if self.is_sign_negative() {
            other.exponent() < self.exponent() || (other.exponent() == self.exponent()
                && other.mantissa() <= self.mantissa())
        } else {
            self.exponent() < other.exponent() || (self.exponent() == other.exponent()
                && self.mantissa() <= other.mantissa())
        }
    }

    /// Where the value's class stands among the twelve classes that the total
    /// order keeps apart, from negative quiet NaN (`-6`) to positive quiet NaN (`5`):
    ///
    /// | class | sign bit set | sign bit clear |
    /// |---|---|---|
    /// | quiet NaN | -6 | 5 |
    /// | signaling NaN | -5 | 4 |
    /// | infinity | -4 | 3 |
    /// | normal | -3 | 2 |
    /// | subnormal | -2 | 1 |
    /// | zero | -1 | 0 |
    pub open spec fn class_rank(&self) -> int {
        let unsigned: int = if self.is_quiet_nan() {
            5
        } else if self.is_signaling_nan() {
            4
        } else if self.is_infinite() {
            3
        } else if self.is_normal() {
            2
        } else if self.is_subnormal() {
            1
        } else {
            0
        };
        if self.is_sign_negative() {
            -1 - unsigned
        } else {
            unsigned
        }
    }

    /// How `self` stands to `other` in the total order: the order of their keys.
    pub open spec fn compare(&self, other: &Self) -> Ordering {
        if self.key() < other.key() {
            Ordering::Less
        } else if self.key() == other.key() {
            Ordering::Equal
        } else {
            Ordering::Greater
        }
    }

    /// Computes the key without a branch.
    ///
    /// The pattern is read as a signed integer. Shifting it right by 63 fills a
    /// word with copies of the sign bit, and one more shift of that word, now
    /// unsigned, clears its top bit. The xor with this mask leaves a value without
    /// the sign bit as it is and flips every bit but the sign of the others.
    pub fn normalise(&self) -> (key: i64)
        ensures
            key == self.key(),
    {
        let bits: u64 = self.0;
        let val: i64 = #[verifier::truncate]
        (bits as i64);
        let fill: u64 = #[verifier::truncate]
        ((val >> 63) as u64);
        let mask: i64 = (fill >> 1) as i64;
        assert({
            &&& fill >> 1 <= 0x7fff_ffff_ffff_ffff
            &&& bits < 0x8000_0000_0000_0000 ==> val ^ mask == bits
            &&& bits >= 0x8000_0000_0000_0000 ==> val ^ mask == 0x7fff_ffff_ffff_ffff - bits
        }) by (bit_vector)
            requires
                val == bits as i64,
                fill == (val >> 63) as u64,
                mask == (fill >> 1) as i64,
        ;
        val ^ mask
    }

    /// Compares two values in the total order. No pair is left unordered, and
    /// `Equal` comes back for identical bit patterns only.
    pub fn cmp(&self, other: &Self) -> (r: Ordering)
        ensures
            r == self.compare(other),
    {
        let a: i64 = self.normalise();
        let b: i64 = other.normalise();
        a.cmp(&b)
    }
}

/// Wraps a bit pattern as it is. Every pattern is accepted.
impl From<u64> for TotalF64 {
    fn from(bits: u64) -> (r: Self) {
        TotalF64(bits)
    }
}

impl vstd::std_specs::convert::FromSpecImpl<u64> for TotalF64 {
    open spec fn obeys_from_spec() -> bool {
        true
    }

    open spec fn from_spec(bits: u64) -> Self {
        TotalF64(bits)
    }
}

/// Gives the wrapped bit pattern back, unchanged.
impl From<TotalF64> for u64 {
    fn from(value: TotalF64) -> (r: Self) {
        value.0
    }
}

impl vstd::std_specs::convert::FromSpecImpl<TotalF64> for u64 {
    open spec fn obeys_from_spec() -> bool {
        true
    }

    open spec fn from_spec(value: TotalF64) -> Self {
        value.0
    }
}

/// The default is positive zero, the pattern without any bit set.
impl Default for TotalF64 {
    fn default() -> (r: Self)
        ensures
            r.0 == 0,
    {
        TotalF64(0)
    }
}

/// Two values are equal when their keys are: when they are the same bit pattern.
/// So `-0.0` differs from `+0.0`, and a NaN equals itself and no other NaN.
impl PartialEq for TotalF64 {
    fn eq(&self, other: &Self) -> (r: bool) {
        self.normalise() == other.normalise()
    }
}

impl vstd::std_specs::cmp::PartialEqSpecImpl for TotalF64 {
    open spec fn obeys_eq_spec() -> bool {
        true
    }

    open spec fn eq_spec(&self, other: &Self) -> bool {
        self.key() == other.key()
    }
}

impl Eq for TotalF64 {}

/// The total order as a partial one: the answer is never `None`.
impl PartialOrd for TotalF64 {
    fn partial_cmp(&self, other: &Self) -> (r: Option<Ordering>) {
        Some(self.cmp(other))
    }
}

impl vstd::std_specs::cmp::PartialOrdSpecImpl for TotalF64 {
    open spec fn obeys_partial_cmp_spec() -> bool {
        true
    }

    open spec fn partial_cmp_spec(&self, other: &Self) -> Option<Ordering> {
        Some(self.compare(other))
    }
}

/// The key, and nothing else, is handed to the hasher. Equal values have the same
/// key (`lemma_equal_values_share_key`), so they hash alike with any hasher.
impl Hash for TotalF64 {
    fn hash<H: Hasher>(&self, state: &mut H) {
        write_key(self.normalise(), state)
    }
}

impl TotalF64 {
    /// Wrapping a bit pattern and unwrapping it gives the same pattern back, and
    /// unwrapping a value and wrapping the pattern gives the same value back.
    pub proof fn lemma_round_trip(bits: u64, value: TotalF64)
        ensures
            u64::from_spec(TotalF64::from_spec(bits)) == bits,
            TotalF64::from_spec(u64::from_spec(value)) == value,
    {
    }

    /// The key fits the signed integer of the pattern's width, so `normalise`
    /// loses nothing.
    pub proof fn lemma_key_in_range(a: TotalF64)
        ensures
            i64::MIN <= a.key() <= i64::MAX,
    {
    }

    /// Two values have the same key exactly when they are the same bit pattern:
    /// no two patterns share a place in the order.
    pub proof fn lemma_key_is_injective(a: TotalF64, b: TotalF64)
        ensures
            a.key() == b.key() <==> a.0 == b.0,
    {
    }

    /// Equality is that of the bit patterns.
    pub proof fn lemma_eq_is_same_bits(a: TotalF64, b: TotalF64)
        ensures
            a.eq_spec(&b) <==> a == b,
    {
    }

    /// Every value equals itself and compares `Equal` to itself, NaN included.
    pub proof fn lemma_reflexive(a: TotalF64)
        ensures
            a.eq_spec(&a),
            a.compare(&a) == Ordering::Equal,
            a.partial_cmp_spec(&a) == Some(Ordering::Equal),
    {
    }

    /// Equality, comparison and the partial comparison agree: two values are
    /// equal exactly when they compare `Equal`, and the partial comparison always
    /// answers, with the same verdict.
    pub proof fn lemma_eq_agrees_with_compare(a: TotalF64, b: TotalF64)
        ensures
            a.eq_spec(&b) <==> a.compare(&b) == Ordering::Equal,
            a.partial_cmp_spec(&b) == Some(a.compare(&b)),
    {
    }

    /// Swapping the operands of a comparison mirrors its result.
    pub proof fn lemma_compare_is_antisymmetric(a: TotalF64, b: TotalF64)
        ensures
            a.compare(&b) == Ordering::Less <==> b.compare(&a) == Ordering::Greater,
            a.compare(&b) == Ordering::Equal <==> b.compare(&a) == Ordering::Equal,
    {
    }

    /// What is below a value is below everything above that value.
    pub proof fn lemma_compare_is_transitive(a: TotalF64, b: TotalF64, c: TotalF64)
        requires
            a.compare(&b) != Ordering::Greater,
            b.compare(&c) != Ordering::Greater,
        ensures
            a.compare(&c) != Ordering::Greater,
            a.compare(&c) == Ordering::Equal ==> a == b && b == c,
    {
    }

    /// Values that are equal have the same key.
    pub proof fn lemma_equal_values_share_key(a: TotalF64, b: TotalF64)
        requires
            a.eq_spec(&b),
        ensures
            a.key() == b.key(),
    {
    }

    /// The order of the keys is IEEE 754 `totalOrder`.
    pub proof fn lemma_key_order_is_total_order(a: TotalF64, b: TotalF64)
        ensures
            a.key() <= b.key() <==> a.total_order_le(&b),
    {
    }

    /// `totalOrder` is a total order: any two values are ordered one way or the
    /// other, both ways only if they are the same pattern, and the order carries
    /// over a value in between.
    pub proof fn lemma_total_order_is_total(a: TotalF64, b: TotalF64, c: TotalF64)
        ensures
            a.total_order_le(&a),
            a.total_order_le(&b) || b.total_order_le(&a),
            a.total_order_le(&b) && b.total_order_le(&a) ==> a == b,
            a.total_order_le(&b) && b.total_order_le(&c) ==> a.total_order_le(&c),
    {
        Self::lemma_key_order_is_total_order(a, a);
        Self::lemma_key_order_is_total_order(a, b);
        Self::lemma_key_order_is_total_order(b, a);
        Self::lemma_key_order_is_total_order(b, c);
        Self::lemma_key_order_is_total_order(a, c);
    }

    /// The order keeps the classes apart, in the sequence of `class_rank`:
    /// negative quiet NaN, negative signaling NaN, negative infinity, the negative
    /// normal and subnormal values, `-0.0`, `+0.0`, the positive subnormal and
    /// normal values, positive infinity, positive signaling NaN, positive quiet NaN.
    pub proof fn lemma_classes_are_ranked(a: TotalF64, b: TotalF64)
        requires
            a.class_rank() < b.class_rank(),
        ensures
            a.key() < b.key(),
    {
    }

    /// Each value belongs to exactly one class, the one that `class_rank` names.
    /// The zeros and the infinities are single patterns of each sign.
    pub proof fn lemma_classes_partition(a: TotalF64)
        ensures
            -6 <= a.class_rank() <= 5,
            a.is_sign_negative() <==> a.class_rank() < 0,
            a.is_zero() <==> a.class_rank() == 0 || a.class_rank() == -1,
            a.is_subnormal() <==> a.class_rank() == 1 || a.class_rank() == -2,
            a.is_normal() <==> a.class_rank() == 2 || a.class_rank() == -3,
            a.is_infinite() <==> a.class_rank() == 3 || a.class_rank() == -4,
            a.is_signaling_nan() <==> a.class_rank() == 4 || a.class_rank() == -5,
            a.is_quiet_nan() <==> a.class_rank() == 5 || a.class_rank() == -6,
            a.is_nan() <==> a.is_signaling_nan() || a.is_quiet_nan(),
            a.is_zero() <==> a.0 == 0 || a.0 == 0x8000_0000_0000_0000,
            a.is_infinite() <==> a.0 == 0x7ff0_0000_0000_0000 || a.0 == 0xfff0_0000_0000_0000,
    {
    }
}

/// Hands `key` to `state` through `i64`'s implementation of `Hash::hash`.
/// Nothing is claimed of the hasher afterwards.
#[verifier::external_body]
fn write_key<H: Hasher>(key: i64, state: &mut H) {
    key.hash(state)
}

} // verus!
