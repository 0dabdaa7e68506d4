//! Temperature readings, held as IEEE 754 single-precision encodings.
//!
//! A reading is kept by its 32 bits, so that comparing it with the threshold
//! is integer arithmetic. The numeric meaning of the bits is spelled out
//! here, and the comparison on encodings is proved to agree with it.

use vstd::arithmetic::mul::{lemma_mul_inequality, lemma_mul_strict_inequality};
use vstd::arithmetic::power2::{
    lemma2_to64, lemma_pow2_adds, lemma_pow2_pos, lemma_pow2_strictly_increases, pow2,
};
use vstd::prelude::*;

verus! {

/// The temperature above which a reading raises an alert, in degrees Celsius.
pub const TEMPERATURE_THRESHOLD: u32 = 80;

/// The encoding of the threshold, 80.0.
pub const TEMPERATURE_THRESHOLD_BITS: u32 = 0x42A0_0000;

/// The encoding of positive infinity, the largest encoding that is a number.
pub const POSITIVE_INFINITY_BITS: u32 = 0x7F80_0000;

/// Whether the sign bit of an encoding is set.
pub open spec fn sign_bit(bits: u32) -> bool {
    bits >= 0x8000_0000
}

/// The eight-bit biased exponent of an encoding.
pub open spec fn exponent_field(bits: u32) -> nat {
    (bits as nat / 0x80_0000) % 0x100
}

/// The 23-bit fraction of an encoding.
pub open spec fn fraction_field(bits: u32) -> nat {
    bits as nat % 0x80_0000
}

/// Whether an encoding is not a number.
pub open spec fn is_nan(bits: u32) -> bool {
    exponent_field(bits) == 0xFF && fraction_field(bits) != 0
}

/// Whether an encoding is an infinity.
pub open spec fn is_infinite(bits: u32) -> bool {
    exponent_field(bits) == 0xFF && fraction_field(bits) == 0
}

/// The absolute value of a finite encoding, counted in units of 2^-149 (the
/// smallest positive value of the format). Subnormal encodings have no hidden
/// bit; normal ones have it and scale by their exponent.
pub open spec fn magnitude(bits: u32) -> nat {
    if exponent_field(bits) == 0 {
        fraction_field(bits)
    } else {
        (0x80_0000 + fraction_field(bits)) * pow2((exponent_field(bits) - 1) as nat)
    }
}

/// Whether the value that `bits` encodes is strictly greater than the whole
/// number `whole`. Nothing negative is, no NaN is, positive infinity is.
pub open spec fn greater_than(bits: u32, whole: nat) -> bool {
    &&& !is_nan(bits)
    &&& !sign_bit(bits)
    &&& (is_infinite(bits) || magnitude(bits) > whole * pow2(149))
}

/// Whether `bits` encodes a temperature above the threshold.
pub open spec fn above_threshold(bits: u32) -> bool {
    greater_than(bits, TEMPERATURE_THRESHOLD as nat)
}

/// The threshold's encoding stands for exactly 80.
pub proof fn lemma_threshold_encoding()
    ensures
        !sign_bit(TEMPERATURE_THRESHOLD_BITS),
        !is_nan(TEMPERATURE_THRESHOLD_BITS),
        !is_infinite(TEMPERATURE_THRESHOLD_BITS),
        magnitude(TEMPERATURE_THRESHOLD_BITS) == TEMPERATURE_THRESHOLD * pow2(149),
        !above_threshold(TEMPERATURE_THRESHOLD_BITS),
{
    lemma2_to64();
    lemma_pow2_adds(129, 3);
    lemma_pow2_adds(129, 20);
    assert(exponent_field(TEMPERATURE_THRESHOLD_BITS) == 133);
    assert(fraction_field(TEMPERATURE_THRESHOLD_BITS) == 0x20_0000);
    let unit = pow2(129);
    assert(pow2(132) == unit * 8);
    assert(pow2(149) == unit * 0x10_0000);
    assert(0xA0_0000 * (unit * 8) == 80 * (unit * 0x10_0000)) by (nonlinear_arith);
}

/// Among encodings that are numbers, a greater encoding of a non-negative
/// value is a greater value: comparing with the threshold is comparing the
/// encodings.
pub proof fn lemma_threshold_order(bits: u32)
    ensures
        above_threshold(bits) <==> TEMPERATURE_THRESHOLD_BITS < bits <= POSITIVE_INFINITY_BITS,
{
    let e = exponent_field(bits);
    let f = fraction_field(bits);
    if bits < 0x7F80_0000 {
        assert(bits as nat == e * 0x80_0000 + f);
        assert(e <= 254);
        lemma2_to64();
        lemma_pow2_pos(129);
        lemma_pow2_adds(129, 3);
        lemma_pow2_adds(129, 20);
        let unit = pow2(129);
        let step = pow2(132);
        let limit = 80 * pow2(149);
        assert(step == unit * 8);
        assert(limit == 0xA0_0000 * step) by (nonlinear_arith)
            requires
                limit == 80 * pow2(149),
                pow2(149) == unit * 0x10_0000,
                step == unit * 8,
        ;
        assert(step > 0);
        if e == 0 {
            assert(0xA0_0000 * step >= 0xA0_0000) by (nonlinear_arith)
                requires
                    step > 0,
            ;
        } else if e <= 132 {
            let scale = pow2((e - 1) as nat);
            if e < 132 {
                lemma_pow2_strictly_increases((e - 1) as nat, 131);
            }
            lemma_pow2_adds(131, 1);
            assert(step == pow2(131) * 2);
            assert(scale <= pow2(131));
            assert((0x80_0000 + f) * scale < 0xA0_0000 * step) by (nonlinear_arith)
                requires
                    f < 0x80_0000,
                    scale <= pow2(131),
                    step == pow2(131) * 2,
                    step > 0,
            ;
        } else if e == 133 {
            if f > 0x20_0000 {
                lemma_mul_strict_inequality(0xA0_0000, (0x80_0000 + f) as int, step as int);
            } else {
                lemma_mul_inequality((0x80_0000 + f) as int, 0xA0_0000, step as int);
            }
        } else {
            let scale = pow2((e - 1) as nat);
            if e > 134 {
                lemma_pow2_strictly_increases(133, (e - 1) as nat);
            }
            lemma_pow2_adds(132, 1);
            assert(pow2(133) == step * 2);
            assert(scale >= pow2(133));
            assert((0x80_0000 + f) * scale > 0xA0_0000 * step) by (nonlinear_arith)
                requires
                    scale >= step * 2,
                    step > 0,
            ;
        }
    } else if bits < 0x8000_0000 {
        assert(e == 0xFF);
        assert(bits as nat == 0x7F80_0000 + f);
    }
}

/// One temperature reading.
#[derive(Clone, Debug)]
pub struct Temperature {
    /// The reading's IEEE 754 single-precision encoding.
    pub bits: u32,
    /// The reading as it is shown to people: its shortest decimal form.
    pub text: String,
}

/// The mathematical content of a [`Temperature`].
pub struct TemperatureView {
    pub bits: u32,
    pub text: Seq<char>,
}

impl View for Temperature {
    type V = TemperatureView;

    open spec fn view(&self) -> TemperatureView {
        TemperatureView { bits: self.bits, text: self.text@ }
    }
}

impl Temperature {
    /// A reading with the given encoding and display form.
    pub fn new(bits: u32, text: String) -> (reading: Temperature)
        ensures
            reading@ == (TemperatureView { bits, text: text@ }),
    {
        Temperature { bits, text }
    }

    /// Whether the reading is strictly above the threshold.
    pub fn exceeds_threshold(&self) -> (exceeds: bool)
        ensures
            exceeds == above_threshold(self.bits),
    {
        proof {
            lemma_threshold_order(self.bits);
        }
        TEMPERATURE_THRESHOLD_BITS < self.bits && self.bits <= POSITIVE_INFINITY_BITS
    }
}

} // verus!
