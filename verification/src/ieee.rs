//! IEEE-754 values carried as their bit patterns.
//!
//! The pipeline receives times in seconds as binary64 values and hands colours
//! to the renderer as binary32 values. Both are held here as the unsigned
//! integer with the same bits, and every operation is defined on the sign,
//! exponent and fraction fields of that integer.

use vstd::prelude::*;
use vstd::arithmetic::power2::{
    lemma2_to64, lemma2_to64_rest, lemma_pow2_adds, lemma_pow2_pos, lemma_pow2_strictly_increases,
    lemma_pow2_unfold, pow2,
};
use vstd::arithmetic::div_mod::{lemma_basic_div, lemma_fundamental_div_mod};
use vstd::bits::{lemma_u64_shl_is_mul, lemma_u64_shr_is_div};

verus! {

/// Two to the power 52: the weight of the implicit leading bit of a binary64 significand.
pub const BINARY64_HIDDEN_BIT: u64 = 0x10_0000_0000_0000;

/// Two to the power 63: the weight of the sign bit of a binary64 value.
pub const BINARY64_SIGN_BIT: u64 = 0x8000_0000_0000_0000;

/// The exponent field of a binary64 infinity or NaN.
pub const BINARY64_EXPONENT_MAX: u64 = 0x7ff;

/// One million as an odd factor times a power of two: `15625 * 2^6`.
pub const MICROS_ODD_FACTOR: u64 = 15625;

/// `n / d` rounded to the nearest integer; a tie goes to the even neighbour.
pub open spec fn round_half_even(n: int, d: int) -> int
    recommends
        d > 0,
{
    let q = n / d;
    let r = n % d;
    if 2 * r < d || (2 * r == d && q % 2 == 0) {
        q
    } else {
        q + 1
    }
}

/// What `round_half_even` gives is a nearest integer: it is off the exact
/// quotient by a half at most.
pub proof fn lemma_round_half_even_is_nearest(n: int, d: int)
    requires
        0 <= n,
        0 < d,
    ensures
        -d <= 2 * (round_half_even(n, d) * d - n) <= d,
        n / d <= round_half_even(n, d) <= n / d + 1,
{
    lemma_fundamental_div_mod(n, d);
    let q = n / d;
    assert((q + 1) * d == q * d + d) by (nonlinear_arith);
    assert(d * q == q * d) by (nonlinear_arith);
}

/// A magnitude with a sign, confined to the 64-bit signed range.
pub open spec fn clamp_signed(negative: bool, magnitude: int) -> int {
    if negative {
        if magnitude >= 0x8000_0000_0000_0000 {
            i64::MIN as int
        } else {
            -magnitude
        }
    } else {
        if magnitude > i64::MAX {
            i64::MAX as int
        } else {
            magnitude
        }
    }
}

/// A magnitude of at most `2^63` with a sign, confined to the 64-bit signed range.
fn saturate(negative: bool, magnitude: u64) -> (value: i64)
    requires
        magnitude <= 0x8000_0000_0000_0000,
    ensures
        value == clamp_signed(negative, magnitude as int),
{
    if magnitude >= 0x8000_0000_0000_0000 {
        if negative {
            i64::MIN
        } else {
            i64::MAX
        }
    } else if negative {
        -(magnitude as i64)
    } else {
        magnitude as i64
    }
}

/// A binary64 value, held as its 64 bits.
#[derive(Clone, Copy, Debug, PartialEq, Eq, Structural)]
pub struct Binary64 {
    pub bits: u64,
}

impl Binary64 {
    /// Whether the sign bit is set.
    pub open spec fn sign(self) -> bool {
        self.bits >= BINARY64_SIGN_BIT
    }

    /// The biased exponent: the eleven bits below the sign bit.
    pub open spec fn exponent_field(self) -> nat {
        ((self.bits / BINARY64_HIDDEN_BIT) % 0x800) as nat
    }

    /// The fraction: the low 52 bits.
    pub open spec fn fraction_field(self) -> nat {
        (self.bits % BINARY64_HIDDEN_BIT) as nat
    }

    /// Whether the value is a NaN.
    pub open spec fn is_nan(self) -> bool {
        self.exponent_field() == BINARY64_EXPONENT_MAX && self.fraction_field() != 0
    }

    /// Whether the value is an infinity.
    pub open spec fn is_infinite(self) -> bool {
        self.exponent_field() == BINARY64_EXPONENT_MAX && self.fraction_field() == 0
    }

    /// Whether the value is positive or negative zero.
    pub open spec fn is_zero(self) -> bool {
        self.exponent_field() == 0 && self.fraction_field() == 0
    }

    /// Whether the absolute value compares greater than zero: true of every
    /// value but the two zeros and the NaNs.
    pub open spec fn magnitude_is_positive(self) -> bool {
        !self.is_zero() && !self.is_nan()
    }

    /// The significand of a normal value: the fraction under its implicit
    /// leading bit. The value is `significand * 2^(exponent_field - 1075)`.
    pub open spec fn significand(self) -> int {
        BINARY64_HIDDEN_BIT + self.fraction_field()
    }

    /// Of a normal value times one million, rounded to binary64: how many low
    /// bits of `significand * 15625` the rounding drops to keep 53.
    pub open spec fn micros_dropped_bits(self) -> nat {
        if self.significand() * MICROS_ODD_FACTOR < pow2(66) {
            13
        } else {
            14
        }
    }

    /// Of a normal value times one million, rounded to binary64: the 53-bit
    /// significand of the product.
    pub open spec fn micros_significand(self) -> int {
        round_half_even(
            self.significand() * MICROS_ODD_FACTOR,
            pow2(self.micros_dropped_bits()) as int,
        )
    }

    /// Of a normal value times one million, rounded to binary64: the power of
    /// two that scales `micros_significand`.
    pub open spec fn micros_exponent(self) -> int {
        self.exponent_field() - 1069 + self.micros_dropped_bits()
    }

    /// The whole part of the magnitude of a normal value times one million,
    /// the product rounded to binary64 first.
    pub open spec fn micros_magnitude(self) -> int {
        let k = self.micros_exponent();
        if k >= 0 {
            self.micros_significand() * pow2(k as nat)
        } else {
            self.micros_significand() / (pow2((-k) as nat) as int)
        }
    }

    /// Seconds as whole microseconds: the value times one million, rounded to
    /// the nearest binary64, then truncated toward zero and confined to the
    /// 64-bit signed range. A NaN gives zero, and so does a subnormal value,
    /// which is far below one microsecond.
    pub open spec fn micros(self) -> int {
        if self.is_nan() || self.exponent_field() == 0 {
            0
        } else if self.is_infinite() {
            clamp_signed(self.sign(), 0x8000_0000_0000_0000)
        } else {
            clamp_signed(self.sign(), self.micros_magnitude())
        }
    }

    /// The value with the given bits.
    pub fn from_bits(bits: u64) -> (value: Binary64)
        ensures
            value.bits == bits,
    {
        Binary64 { bits }
    }

    /// Tests `|self| > 0`.
    pub fn has_positive_magnitude(&self) -> (positive: bool)
        ensures
            positive == self.magnitude_is_positive(),
    {
        let exponent: u64 = (self.bits / BINARY64_HIDDEN_BIT) % 0x800;
        let fraction: u64 = self.bits % BINARY64_HIDDEN_BIT;
        if exponent == BINARY64_EXPONENT_MAX {
            fraction == 0
        } else {
            exponent != 0 || fraction != 0
        }
    }

    /// Converts seconds to whole microseconds, truncating toward zero.
    pub fn to_micros(&self) -> (micros: i64)
        ensures
            micros == self.micros(),
    {
        let exponent: u64 = (self.bits / BINARY64_HIDDEN_BIT) % 0x800;
        let fraction: u64 = self.bits % BINARY64_HIDDEN_BIT;
        let negative: bool = self.bits >= BINARY64_SIGN_BIT;
        if exponent == 0 || (exponent == BINARY64_EXPONENT_MAX && fraction != 0) {
            return 0;
        }
        if exponent == BINARY64_EXPONENT_MAX {
            return saturate(negative, 0x8000_0000_0000_0000);
        }
        proof {
            lemma2_to64();
            lemma2_to64_rest();
            lemma_pow2_adds(64, 2);
        }
        let product: u128 = (BINARY64_HIDDEN_BIT + fraction) as u128 * 15625;
        assert(product == self.significand() * MICROS_ODD_FACTOR);
        let dropped: u64 = if product < 0x4_0000_0000_0000_0000 { 13 } else { 14 };
        let unit: u128 = if dropped == 13 { 8192 } else { 16384 };
        assert(unit == pow2(self.micros_dropped_bits()));
        let quotient: u128 = product / unit;
        let remainder: u128 = product % unit;
        let round_up: bool = 2 * remainder > unit || (2 * remainder == unit && quotient % 2 == 1);
        let rounded: u64 = if round_up { (quotient + 1) as u64 } else { quotient as u64 };
        assert(rounded == self.micros_significand());
        assert(0x10_0000_0000_0000 <= rounded <= 0x20_0000_0000_0000);
        // The exponent of the rounded product, moved up by 1069 to stay unsigned.
        let raised: u64 = exponent + dropped;
        assert(raised - 1069 == self.micros_exponent());
        if raised >= 1080 {
            proof {
                let k = (raised - 1069) as nat;
                if k > 11 {
                    lemma_pow2_strictly_increases(11, k);
                }
                assert(rounded * pow2(k) >= 0x8000_0000_0000_0000) by (nonlinear_arith)
                    requires
                        rounded >= 0x10_0000_0000_0000,
                        pow2(k) >= 0x800,
                ;
            }
            saturate(negative, 0x8000_0000_0000_0000)
        } else if raised >= 1069 {
            let shift: u64 = raised - 1069;
            proof {
                lemma_pow2_strictly_increases(shift as nat, 11);
                assert(rounded * pow2(shift as nat) <= 0x8000_0000_0000_0000) by (nonlinear_arith)
                    requires
                        rounded <= 0x20_0000_0000_0000,
                        pow2(shift as nat) <= 0x400,
                ;
                lemma_u64_shl_is_mul(rounded, shift);
            }
            saturate(negative, rounded << shift)
        } else if raised + 54 <= 1069 {
            proof {
                let k = (1069 - raised) as nat;
                if k > 54 {
                    lemma_pow2_strictly_increases(54, k);
                }
                lemma_pow2_adds(32, 22);
                lemma_basic_div(rounded as int, pow2(k) as int);
            }
            saturate(negative, 0)
        } else {
            let shift: u64 = 1069 - raised;
            proof {
                lemma_u64_shr_is_div(rounded, shift);
                lemma_pow2_pos(shift as nat);
            }
            saturate(negative, rounded >> shift)
        }
    }
}

/// The product of a normal value and one million is rounded to the nearest
/// value of 53 significant bits: the significand kept is off the exact one
/// by half a unit at most, and stays between `2^52` and `2^53`.
pub proof fn lemma_micros_significand_is_nearest(seconds: Binary64)
    requires
        0 < seconds.exponent_field() < BINARY64_EXPONENT_MAX,
    ensures
        pow2(52) <= seconds.micros_significand() <= pow2(53),
        -pow2(seconds.micros_dropped_bits()) <= 2 * (seconds.micros_significand() * pow2(
            seconds.micros_dropped_bits(),
        ) - seconds.significand() * MICROS_ODD_FACTOR) <= pow2(seconds.micros_dropped_bits()),
{
    lemma2_to64();
    lemma2_to64_rest();
    lemma_pow2_adds(64, 2);
    lemma_pow2_adds(32, 20);
    lemma_pow2_adds(32, 21);
    let product = seconds.significand() * MICROS_ODD_FACTOR;
    let unit = pow2(seconds.micros_dropped_bits()) as int;
    lemma_round_half_even_is_nearest(product, unit);
}

/// Two to the power 23: the weight of the implicit leading bit of a binary32 significand.
pub const BINARY32_HIDDEN_BIT: u32 = 0x80_0000;

/// The largest value of a colour channel byte, which stands for one.
pub const CHANNEL_MAX: u8 = 255;

/// A binary32 value, held as its 32 bits.
#[derive(Clone, Copy, Debug, PartialEq, Eq, Structural)]
pub struct Binary32 {
    pub bits: u32,
}

/// How often a numerator above zero is doubled to reach 255 or more.
pub open spec fn doublings_to_full(numerator: nat) -> nat
    decreases (if numerator < 255 { 255 - numerator } else { 0 }),
{
    if numerator == 0 || numerator >= 255 {
        0
    } else {
        1 + doublings_to_full(2 * numerator)
    }
}

/// The number of binary places `s`, for a byte above zero, that puts
/// `byte / 255 * 2^s` in the range of a normal binary32 significand:
/// `255 * 2^23 <= byte * 2^s < 255 * 2^24`.
pub open spec fn channel_scale(byte: u8) -> nat {
    23 + doublings_to_full(byte as nat)
}

/// The significand of the binary32 value nearest to `byte / 255`, for a byte
/// above zero: `byte * 2^s / 255` rounded, with `s` the channel's scale.
pub open spec fn channel_significand(byte: u8) -> int {
    round_half_even(byte * pow2(channel_scale(byte)), CHANNEL_MAX as int)
}

/// The bits of the binary32 value nearest to `byte / 255`: zero for the byte
/// zero, else the exponent field `150 - s` above the significand without its
/// leading bit.
pub open spec fn channel_bits(byte: u8) -> int {
    if byte == 0 {
        0
    } else {
        (150 - channel_scale(byte)) * BINARY32_HIDDEN_BIT + (channel_significand(byte)
            - BINARY32_HIDDEN_BIT)
    }
}

/// The binary32 value nearest to `byte / 255`.
pub open spec fn unit_fraction(byte: u8) -> Binary32 {
    Binary32 { bits: channel_bits(byte) as u32 }
}

/// Doubling a numerator above zero as often as `doublings_to_full` says
/// brings it to 255 or more, and below twice that if it started below 255.
pub proof fn lemma_doublings_reach_full(numerator: nat)
    requires
        0 < numerator,
    ensures
        doublings_to_full(numerator) <= 8,
        numerator * pow2(doublings_to_full(numerator)) >= 255,
        numerator < 255 ==> numerator * pow2(doublings_to_full(numerator)) < 2 * 255,
    decreases (if numerator < 255 { 255 - numerator } else { 0 }),
{
    lemma2_to64();
    if numerator < 255 {
        let rest = doublings_to_full(2 * numerator);
        lemma_doublings_reach_full(2 * numerator);
        lemma_pow2_unfold(rest + 1);
        assert(doublings_to_full(numerator) == rest + 1);
        assert(numerator * pow2(rest + 1) == (2 * numerator) * pow2(rest)) by (nonlinear_arith)
            requires
                pow2(rest + 1) == 2 * pow2(rest),
        ;
        if 2 * numerator >= 255 {
            assert(rest == 0);
            assert((2 * numerator) * pow2(rest) == 2 * numerator) by (nonlinear_arith)
                requires
                    pow2(rest) == 1,
            ;
        }
        if rest + 1 > 8 {
            lemma_pow2_strictly_increases(8, rest + 1);
            assert(numerator * pow2(rest + 1) >= pow2(rest + 1)) by (nonlinear_arith)
                requires
                    numerator >= 1,
            ;
        }
    } else {
        assert(doublings_to_full(numerator) == 0);
        assert(numerator * pow2(0) == numerator) by (nonlinear_arith)
            requires
                pow2(0) == 1,
        ;
    }
}

/// The value that `unit_fraction` gives for a byte above zero is a positive
/// normal value `m * 2^-s`, with `m` its significand and `s` the channel's
/// scale, and none is nearer to `byte / 255`: the two differ by less than
/// half a unit of the last place of `m`.
pub proof fn lemma_unit_fraction_is_nearest(byte: u8)
    requires
        0 < byte,
    ensures
        !unit_fraction(byte).sign(),
        23 <= channel_scale(byte) <= 31,
        unit_fraction(byte).exponent_field() == 150 - channel_scale(byte),
        unit_fraction(byte).significand() == channel_significand(byte),
        -255 < 2 * (255 * unit_fraction(byte).significand() - byte * pow2(channel_scale(byte)))
            < 255,
{
    let doublings = doublings_to_full(byte as nat);
    let scale = channel_scale(byte);
    let scaled = byte * pow2(scale);
    let significand = channel_significand(byte);
    lemma2_to64();
    lemma_doublings_reach_full(byte as nat);
    lemma_pow2_adds(doublings, 23);
    assert(scaled == (byte * pow2(doublings)) * 0x80_0000) by (nonlinear_arith)
        requires
            scaled == byte * pow2(scale),
            pow2(scale) == pow2(doublings) * 0x80_0000,
    ;
    if byte == 255 {
        assert(doublings == 0);
    }
    assert(255 * 0x80_0000 <= scaled <= 509 * 0x80_0000);
    lemma_round_half_even_is_nearest(scaled, 255);
    assert(0x80_0000 <= significand < 0x100_0000);
    assert(255 * significand == significand * 255) by (nonlinear_arith);
    let bits = channel_bits(byte);
    assert(bits == (150 - scale) * 0x80_0000 + (significand - 0x80_0000));
    assert(bits / 0x80_0000 == 150 - scale);
    assert(bits % 0x80_0000 == significand - 0x80_0000);
}

impl Binary32 {
    /// Whether the sign bit is set.
    pub open spec fn sign(self) -> bool {
        self.bits >= 0x8000_0000
    }

    /// The biased exponent: the eight bits below the sign bit.
    pub open spec fn exponent_field(self) -> nat {
        ((self.bits / BINARY32_HIDDEN_BIT) % 0x100) as nat
    }

    /// The fraction: the low 23 bits.
    pub open spec fn fraction_field(self) -> nat {
        (self.bits % BINARY32_HIDDEN_BIT) as nat
    }

    /// The significand of a normal value: the fraction under its implicit
    /// leading bit. The value is `significand * 2^(exponent_field - 150)`.
    pub open spec fn significand(self) -> int {
        BINARY32_HIDDEN_BIT + self.fraction_field()
    }

    /// The value with the given bits.
    pub fn from_bits(bits: u32) -> (value: Binary32)
        ensures
            value.bits == bits,
    {
        Binary32 { bits }
    }

    /// A colour channel byte as a fraction of one: the binary32 value nearest
    /// to `byte / 255`.
    pub fn from_channel(byte: u8) -> (value: Binary32)
        ensures
            value == unit_fraction(byte),
            value.bits == channel_bits(byte),
    {
        if byte == 0 {
            return Binary32 { bits: 0 };
        }
        proof {
            lemma2_to64();
        }
        // Double the byte until it reaches 255: `numerator == byte * 2^(scale - 23)`.
        let mut scale: u32 = 23;
        let mut power: u64 = 1;
        let mut numerator: u64 = byte as u64;
        while numerator < 255
            invariant
                23 <= scale <= 31,
                power == pow2((scale - 23) as nat),
                numerator == byte * power,
                numerator >= power,
                scale > 23 ==> numerator < 2 * 255,
                scale + doublings_to_full(numerator as nat) == channel_scale(byte),
            decreases 31 - scale,
        {
            proof {
                lemma2_to64();
                lemma_pow2_unfold((scale + 1 - 23) as nat);
                assert(byte * (2 * power) == 2 * (byte * power)) by (nonlinear_arith);
            }
            power = power * 2;
            numerator = numerator * 2;
            scale = scale + 1;
        }
        let scaled: u64 = numerator * 0x80_0000;
        proof {
            lemma2_to64();
            assert(power * 0x80_0000 == pow2(scale as nat)) by {
                lemma_pow2_adds((scale - 23) as nat, 23);
            }
            assert(scaled == byte * pow2(scale as nat)) by (nonlinear_arith)
                requires
                    scaled == numerator * 0x80_0000,
                    numerator == byte * power,
                    power * 0x80_0000 == pow2(scale as nat),
            ;
        }
        let quotient: u64 = scaled / 255;
        let remainder: u64 = scaled % 255;
        let significand: u64 = if 2 * remainder > 255 { quotient + 1 } else { quotient };
        assert(significand == channel_significand(byte));
        assert(0x80_0000 <= significand < 0x100_0000);
        let exponent: u32 = 150 - scale;
        Binary32 { bits: exponent * BINARY32_HIDDEN_BIT + (significand as u32 - BINARY32_HIDDEN_BIT) }
    }
}

} // verus!
