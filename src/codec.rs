//! Conversion between temperatures and the chip's two-byte, left-justified,
//! two's-complement register format.
//!
//! Temperatures are carried as whole millidegrees Celsius: both resolutions
//! step in whole millidegrees (500 for nine bits, 125 for eleven), so every
//! register value decodes exactly.

use vstd::prelude::*;
use vstd::arithmetic::div_mod::lemma_mod_multiples_vanish;

verus! {

/// Resolution of the temperature registers.
#[derive(Debug, Clone, Copy, PartialEq, Eq, Structural)]
pub enum Resolution {
    /// Nine significant bits: 0.5 degree steps, only the top bit of the low
    /// byte counts.
    Mask9bit,
    /// Eleven significant bits: 0.125 degree steps (PCT2075 and similar).
    Mask11bit,
}

impl Default for Resolution {
    fn default() -> (r: Self)
        ensures
            r == Resolution::Mask9bit,
    {
        Resolution::Mask9bit
    }
}

/// Mask of the significant bits of the low register byte.
pub open spec fn lsb_mask(res: Resolution) -> u8 {
    match res {
        Resolution::Mask9bit => 0b1000_0000u8,
        Resolution::Mask11bit => 0b1110_0000u8,
    }
}

/// Register steps per degree.
pub open spec fn scale(res: Resolution) -> int {
    match res {
        Resolution::Mask9bit => 2,
        Resolution::Mask11bit => 8,
    }
}

/// One register step in millidegrees.
pub open spec fn step_millis(res: Resolution) -> int {
    match res {
        Resolution::Mask9bit => 500,
        Resolution::Mask11bit => 125,
    }
}

/// Number of distinct register values: two to the number of significant bits.
pub open spec fn modulus(res: Resolution) -> int {
    match res {
        Resolution::Mask9bit => 512,
        Resolution::Mask11bit => 2048,
    }
}

/// Weight of the least significant bit in the sixteen-bit word: the value
/// sits left-justified, above the bits that the resolution leaves undefined.
pub open spec fn unit(res: Resolution) -> int {
    match res {
        Resolution::Mask9bit => 128,
        Resolution::Mask11bit => 32,
    }
}

/// The temperature `m` (millidegrees) in register steps, rounded to the
/// nearest step, halves away from zero.
pub open spec fn rounded_steps(m: int, res: Resolution) -> int {
    let x = m * scale(res);
    if x >= 0 {
        (x + 500) / 1000
    } else {
        -((-x + 500) / 1000)
    }
}

/// The sixteen-bit register word for `m`: the rounded step count in two's
/// complement of the resolution's width, left-justified.
pub open spec fn encoded_word(m: int, res: Resolution) -> int {
    (rounded_steps(m, res) % modulus(res)) * unit(res)
}

/// The (most significant, least significant) register bytes for `m`.
pub open spec fn encoded_bytes(m: int, res: Resolution) -> (u8, u8) {
    ((encoded_word(m, res) / 256) as u8, (encoded_word(m, res) % 256) as u8)
}

/// The register word `msb`:`lsb`, undefined bits cleared, read as a signed
/// sixteen-bit number.
pub open spec fn signed_word(msb: u8, lsb: u8, res: Resolution) -> int {
    let raw = msb as int * 256 + (lsb & lsb_mask(res)) as int;
    if raw >= 32768 {
        raw - 65536
    } else {
        raw
    }
}

/// The temperature in millidegrees that a register holds: its signed word
/// divided by 256 (degrees), in thousandths.
pub open spec fn decoded_millis(msb: u8, lsb: u8, res: Resolution) -> int {
    signed_word(msb, lsb, res) * 1000 / 256
}

impl Resolution {
    /// Mask of the significant bits of the low register byte.
    pub fn mask(&self) -> (r: u8)
        ensures
            r == lsb_mask(*self),
    {
        match self {
            Resolution::Mask9bit => 0b1000_0000,
            Resolution::Mask11bit => 0b1110_0000,
        }
    }
}

/// A left-justified word of `n` steps fits sixteen bits, splits into its two
/// bytes, and its low byte has no bit outside the resolution's mask.
proof fn lemma_left_justified(n: int, res: Resolution)
    requires
        0 <= n < modulus(res),
    ensures
        ({
            let w = n * unit(res);
            &&& 0 <= w < 65536
            &&& ((w / 256) as u8) as int * 256 + ((w % 256) as u8) as int == w
            &&& ((w % 256) as u8) & lsb_mask(res) == (w % 256) as u8
        }),
{
    let u = unit(res);
    let w = n * u;
    assert(0 <= w < 65536) by (nonlinear_arith)
        requires
            w == n * u,
            0 <= n < modulus(res),
            modulus(res) * u == 65536,
            u > 0,
    ;
    let lsb = (w % 256) as u8;
    if u == 128 {
        assert(w % 256 == (n % 2) * 128) by (nonlinear_arith)
            requires
                w == n * 128,
                n >= 0,
        ;
        assert(lsb == 0 || lsb == 128 ==> lsb & 0x80u8 == lsb) by (bit_vector);
    } else {
        assert(w % 256 == (n % 8) * 32) by (nonlinear_arith)
            requires
                w == n * 32,
                n >= 0,
        ;
        assert(lsb % 32 == 0 ==> lsb & 0xe0u8 == lsb) by (bit_vector);
    }
}

/// The count `n` of a register read as a signed number of the resolution's
/// width.
pub open spec fn signed_steps(n: int, res: Resolution) -> int {
    if n >= modulus(res) / 2 {
        n - modulus(res)
    } else {
        n
    }
}

/// A register whose significant bits hold `n` steps decodes to `n` read as a
/// signed number of the resolution's width, in steps, and exactly.
proof fn lemma_decode_steps(msb: u8, lsb: u8, n: int, res: Resolution)
    requires
        0 <= n < modulus(res),
        msb as int * 256 + (lsb & lsb_mask(res)) as int == n * unit(res),
    ensures
        signed_word(msb, lsb, res) == signed_steps(n, res) * unit(res),
        decoded_millis(msb, lsb, res) == signed_steps(n, res) * step_millis(res),
        decoded_millis(msb, lsb, res) * 256 == signed_word(msb, lsb, res) * 1000,
{
    let u = unit(res);
    let md = modulus(res);
    let w = n * u;
    let s = signed_steps(n, res);
    assert(signed_word(msb, lsb, res) == s * u) by (nonlinear_arith)
        requires
            w == n * u,
            md * u == 65536,
            u > 0,
            s == (if n >= md / 2 { n - md } else { n }),
            signed_word(msb, lsb, res) == (if w >= 32768 { w - 65536 } else { w }),
            md == 512 || md == 2048,
    ;
    assert(s * u * 1000 == s * step_millis(res) * 256) by (nonlinear_arith)
        requires
            u * 1000 == step_millis(res) * 256,
    ;
    assert((s * step_millis(res) * 256) / 256 == s * step_millis(res)) by (nonlinear_arith);
}

/// A step count within the resolution's signed range survives wrapping into
/// its width and reading back as signed.
proof fn lemma_wrap_signed(k: int, res: Resolution)
    requires
        -modulus(res) / 2 <= k < modulus(res) / 2,
    ensures
        signed_steps(k % modulus(res), res) == k,
{
    if k < 0 {
        vstd::arithmetic::div_mod::lemma_mod_multiples_vanish(1, k, modulus(res));
        vstd::arithmetic::div_mod::lemma_small_mod((modulus(res) + k) as nat, modulus(res) as nat);
    } else {
        vstd::arithmetic::div_mod::lemma_small_mod(k as nat, modulus(res) as nat);
    }
}

/// Encodes `millicelsius` into the (most significant, least significant)
/// register bytes: rounded to the nearest step, wrapped into the
/// resolution's width, left-justified, undefined bits zero.
pub fn encode_temperature(millicelsius: i32, resolution: Resolution) -> (r: (u8, u8))
    ensures
        r.0 as int == encoded_word(millicelsius as int, resolution) / 256,
        r.1 as int == encoded_word(millicelsius as int, resolution) % 256,
        r.1 & lsb_mask(resolution) == r.1,
        r == encoded_bytes(millicelsius as int, resolution),
{
    let (scale_factor, modulus_v, unit_v): (i64, i64, i64) = match resolution {
        Resolution::Mask9bit => (2, 512, 128),
        Resolution::Mask11bit => (8, 2048, 32),
    };
    let x: i64 = millicelsius as i64 * scale_factor;
    let n: i64 = if x >= 0 {
        (x + 500) / 1000
    } else {
        -((-x + 500) / 1000)
    };
    assert(-40_000_000 < n < 40_000_000);
    let k: i64 = (n + 4_294_967_296) % modulus_v;
    proof {
        let q: int = 4_294_967_296int / modulus(resolution);
        assert(q * modulus(resolution) == 4_294_967_296);
        lemma_mod_multiples_vanish(q, n as int, modulus(resolution));
        assert(modulus(resolution) * q == q * modulus(resolution)) by (nonlinear_arith);
        lemma_left_justified(k as int, resolution);
    }
    let word: i64 = k * unit_v;
    ((word / 256) as u8, (word % 256) as u8)
}

/// Decodes the register bytes `msb`, `lsb` into millidegrees: the bits that
/// the resolution leaves undefined are ignored and the result is exact.
pub fn decode_temperature(msb: u8, lsb: u8, resolution: Resolution) -> (r: i32)
    ensures
        r as int == decoded_millis(msb, lsb, resolution),
        r as int * 256 == signed_word(msb, lsb, resolution) * 1000,
{
    let (modulus_v, unit_v, step): (i64, i64, i64) = match resolution {
        Resolution::Mask9bit => (512, 128, 500),
        Resolution::Mask11bit => (2048, 32, 125),
    };
    let low: u8 = lsb & resolution.mask();
    proof {
        if unit_v == 128 {
            assert((lsb & 0x80u8) % 128 == 0) by (bit_vector);
        } else {
            assert((lsb & 0xe0u8) % 32 == 0) by (bit_vector);
        }
    }
    let raw: i64 = msb as i64 * 256 + low as i64;
    let steps_raw: i64 = raw / unit_v;
    let steps: i64 = if steps_raw >= modulus_v / 2 {
        steps_raw - modulus_v
    } else {
        steps_raw
    };
    proof {
        assert(raw == steps_raw * unit_v && steps_raw < modulus_v) by (nonlinear_arith)
            requires
                raw % unit_v == 0,
                steps_raw == raw / unit_v,
                unit_v > 0,
                0 <= raw < 65536,
                modulus_v * unit_v == 65536,
        {
            vstd::arithmetic::div_mod::lemma_fundamental_div_mod(raw as int, unit_v as int);
        }
        lemma_decode_steps(msb, lsb, steps_raw as int, resolution);
    }
    (steps * step) as i32
}

/// The register bytes that encoding `m` produces, and what they decode to:
/// the rounded step count, wrapped into the resolution's signed range.
pub proof fn lemma_decode_encoded(m: int, res: Resolution)
    ensures
        ({
            let b = encoded_bytes(m, res);
            decoded_millis(b.0, b.1, res) == signed_steps(
                rounded_steps(m, res) % modulus(res),
                res,
            ) * step_millis(res)
        }),
{
    let n = rounded_steps(m, res) % modulus(res);
    lemma_left_justified(n, res);
    let b = encoded_bytes(m, res);
    lemma_decode_steps(b.0, b.1, n, res);
}

/// Round trip: every temperature that the resolution represents exactly (a
/// whole number `k` of steps within its signed range) decodes from its
/// encoding unchanged.
pub proof fn lemma_round_trip(k: int, res: Resolution)
    requires
        -modulus(res) / 2 <= k < modulus(res) / 2,
    ensures
        ({
            let m = k * step_millis(res);
            let b = encoded_bytes(m, res);
            decoded_millis(b.0, b.1, res) == m
        }),
{
    let m = k * step_millis(res);
    assert(m * scale(res) == k * 1000) by (nonlinear_arith)
        requires
            m == k * step_millis(res),
            step_millis(res) * scale(res) == 1000,
    ;
    if k >= 0 {
        assert((k * 1000 + 500) / 1000 == k) by (nonlinear_arith)
            requires
                k >= 0,
        ;
    } else {
        assert((-(k * 1000) + 500) / 1000 == -k) by (nonlinear_arith)
            requires
                k < 0,
        ;
    }
    assert(rounded_steps(m, res) == k);
    lemma_decode_encoded(m, res);
    lemma_wrap_signed(k, res);
}

/// Round trip within one quantisation step: whenever the rounded step count
/// of `m` lies in the resolution's signed range, encoding then decoding
/// gives that many steps, which lies within half a step of `m`.
pub proof fn lemma_round_trip_within_step(m: int, res: Resolution)
    requires
        -modulus(res) / 2 <= rounded_steps(m, res) < modulus(res) / 2,
    ensures
        ({
            let b = encoded_bytes(m, res);
            let d = decoded_millis(b.0, b.1, res);
            &&& d == rounded_steps(m, res) * step_millis(res)
            &&& -step_millis(res) <= 2 * (d - m) <= step_millis(res)
        }),
{
    let k = rounded_steps(m, res);
    lemma_decode_encoded(m, res);
    lemma_wrap_signed(k, res);
    let x = m * scale(res);
    assert(-500 <= k * 1000 - x <= 500) by {
        if x >= 0 {
            vstd::arithmetic::div_mod::lemma_fundamental_div_mod(x + 500, 1000);
        } else {
            vstd::arithmetic::div_mod::lemma_fundamental_div_mod(-x + 500, 1000);
        }
    }
    let d = k * step_millis(res);
    assert(-step_millis(res) <= 2 * (d - m) <= step_millis(res)) by (nonlinear_arith)
        requires
            -500 <= k * 1000 - x <= 500,
            x == m * scale(res),
            d == k * step_millis(res),
            step_millis(res) * scale(res) == 1000,
            scale(res) > 0,
    ;
}

} // verus!
