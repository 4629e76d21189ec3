//! Output encoding: the quantisation of a gamma-corrected channel to eight
//! bits and the text of the portable pixel map.
use vstd::prelude::*;
use vstd::arithmetic::div_mod::lemma_div_multiples_vanish_quotient;
use vstd::arithmetic::power2::{pow2, lemma_pow2_adds, lemma_pow2_pos, lemma_pow2_strictly_increases, lemma2_to64, lemma2_to64_rest};
use vstd::bits::lemma_u64_shr_is_div;
use crate::scalar::{Scalar, FRACTION_RANGE};
use crate::vec3::Vec3;

verus! {

/// A colour is a vector of red, green and blue.
pub type Color = Vec3;

/// The pattern of `0.999`, the largest intensity that is written.
pub const MAX_INTENSITY_BITS: u64 = 0x3fef_f7ce_d916_872b;

/// ASCII line feed.
pub const LINE_FEED: u8 = 10;

/// ASCII space.
pub const SPACE: u8 = 32;

/// ASCII digit zero.
pub const DIGIT_ZERO: u8 = 48;

/// `x` limited to `[lo, hi]`: `lo` when `x < lo`, `hi` when `x > hi`, else
/// `x` itself (a NaN passes through).
pub open spec fn spec_clamp(x: Scalar, lo: Scalar, hi: Scalar) -> Scalar {
    if x.spec_lt(lo) {
        lo
    } else if x.spec_gt(hi) {
        hi
    } else {
        x
    }
}

/// The eight-bit level of a gamma-corrected channel: the channel is clamped
/// to `[0, 0.999]`, scaled by 256 and truncated. In units of `2^-1074` the
/// scaled value is `numerator * 2^8`, so its integer part is
/// `numerator / 2^1066`. A NaN gives level 0.
pub open spec fn spec_quantize(x: Scalar) -> nat {
    let c = spec_clamp(x, Scalar { bits: 0 }, Scalar { bits: MAX_INTENSITY_BITS });
    if c.is_nan() {
        0
    } else {
        c.numerator() / pow2(1066)
    }
}

/// The decimal digits of `n`, most significant first, in ASCII.
pub open spec fn spec_decimal(n: nat) -> Seq<u8>
    decreases n,
{
    if n < 10 {
        seq![(DIGIT_ZERO + n) as u8]
    } else {
        spec_decimal(n / 10).push((DIGIT_ZERO + n % 10) as u8)
    }
}

/// One line of the pixel map: three levels separated by spaces.
pub open spec fn spec_pixel_line(pixel: Vec3) -> Seq<u8> {
    spec_decimal(spec_quantize(pixel.e0)) + seq![SPACE] + spec_decimal(spec_quantize(pixel.e1))
        + seq![SPACE] + spec_decimal(spec_quantize(pixel.e2)) + seq![LINE_FEED]
}

/// The header of the pixel map: `P3`, the dimensions, and the maximum level.
pub open spec fn spec_header(width: nat, height: nat) -> Seq<u8> {
    seq![80u8, 51u8, LINE_FEED] + spec_decimal(width) + seq![SPACE] + spec_decimal(height)
        + seq![LINE_FEED, 50u8, 53u8, 53u8, LINE_FEED]
}

/// The lines of a run of pixels, in order.
pub open spec fn spec_pixel_lines(pixels: Seq<Vec3>) -> Seq<u8>
    decreases pixels.len(),
{
    if pixels.len() == 0 {
        Seq::empty()
    } else {
        spec_pixel_lines(pixels.drop_last()) + spec_pixel_line(pixels.last())
    }
}

/// The whole pixel map: the header, then one line for each pixel.
pub open spec fn spec_image(width: nat, height: nat, pixels: Seq<Vec3>) -> Seq<u8> {
    spec_header(width, height) + spec_pixel_lines(pixels)
}

/// Limits `x` to `[lo, hi]`.
pub fn clamp(x: Scalar, lo: Scalar, hi: Scalar) -> (r: Scalar)
    ensures
        r == spec_clamp(x, lo, hi),
{
    if x.lt(&lo) {
        lo
    } else if x.gt(&hi) {
        hi
    } else {
        x
    }
}

/// Quantises a gamma-corrected channel to its eight-bit level.
pub fn quantize(x: Scalar) -> (level: u8)
    ensures
        level == spec_quantize(x),
{
    let c = clamp(x, Scalar::zero(), Scalar::from_bits(MAX_INTENSITY_BITS));
    if c.nan() {
        return 0;
    }
    let mag: u64 = c.abs().to_bits();
    assert(mag <= MAX_INTENSITY_BITS);
    let e: u64 = mag / FRACTION_RANGE;
    let f: u64 = mag % FRACTION_RANGE;
    assert(e <= 1022);
    proof {
        lemma2_to64();
        lemma2_to64_rest();
    }
    if e < 1015 {
        proof {
            lemma_pow2_pos(1066);
            if e == 0 {
                lemma_pow2_strictly_increases(52, 1066);
            } else {
                let s = (FRACTION_RANGE + f) as int;
                let a = pow2((e - 1) as nat) as int;
                lemma_pow2_pos((e - 1) as nat);
                if e < 1014 {
                    lemma_pow2_strictly_increases((e - 1) as nat, 1013);
                }
                lemma_pow2_adds(53, 1013);
                assert(s * a < pow2(53) * pow2(1013)) by (nonlinear_arith)
                    requires
                        0 <= s < pow2(53),
                        0 < a <= pow2(1013),
                ;
            }
            assert(c.numerator() < pow2(1066));
            assert(c.numerator() / pow2(1066) == 0) by (nonlinear_arith)
                requires
                    c.numerator() < pow2(1066),
            ;
        }
        return 0;
    }
    let s: u64 = FRACTION_RANGE + f;
    let shift: u64 = 1067 - e;
    let level: u64 = s >> shift;
    proof {
        lemma_u64_shr_is_div(s, shift);
        let a = pow2((e - 1) as nat) as int;
        let d = pow2(shift as nat) as int;
        lemma_pow2_pos((e - 1) as nat);
        lemma_pow2_pos(shift as nat);
        lemma_pow2_adds((e - 1) as nat, shift as nat);
        lemma_div_multiples_vanish_quotient(a, s as int, d);
        assert(s as int * a == a * s as int) by (nonlinear_arith);
        assert(c.numerator() == s * a);
        assert(pow2(1066) == a * d);
        if shift > 45 {
            lemma_pow2_strictly_increases(45, shift as nat);
        }
        assert(s as int / d < 256) by (nonlinear_arith)
            requires
                0 <= s < 0x20_0000_0000_0000,
                d >= 0x2000_0000_0000,
        ;
    }
    level as u8
}

/// Appends the decimal digits of `n`.
pub fn push_decimal(out: &mut Vec<u8>, n: u32)
    ensures
        final(out)@ == old(out)@ + spec_decimal(n as nat),
    decreases n,
{
    if n >= 10 {
        push_decimal(out, n / 10);
    }
    out.push(DIGIT_ZERO + (n % 10) as u8);
    proof {
        if n >= 10 {
            assert(final(out)@ =~= old(out)@ + spec_decimal(n as nat));
        } else {
            assert(final(out)@ =~= old(out)@ + spec_decimal(n as nat));
        }
    }
}

/// Appends the line of one pixel to the image stream. `pixel` holds the
/// gamma-corrected channels.
pub fn write(out: &mut Vec<u8>, pixel: Color)
    ensures
        final(out)@ == old(out)@ + spec_pixel_line(pixel),
{
    push_decimal(out, quantize(pixel.x()) as u32);
    out.push(SPACE);
    push_decimal(out, quantize(pixel.y()) as u32);
    out.push(SPACE);
    push_decimal(out, quantize(pixel.z()) as u32);
    out.push(LINE_FEED);
    proof {
        assert(final(out)@ =~= old(out)@ + spec_pixel_line(pixel));
    }
}

/// Appends the header of an image of the given dimensions.
pub fn write_header(out: &mut Vec<u8>, width: u32, height: u32)
    ensures
        final(out)@ == old(out)@ + spec_header(width as nat, height as nat),
{
    out.push(80);
    out.push(51);
    out.push(LINE_FEED);
    push_decimal(out, width);
    out.push(SPACE);
    push_decimal(out, height);
    out.push(LINE_FEED);
    out.push(50);
    out.push(53);
    out.push(53);
    out.push(LINE_FEED);
    proof {
        assert(final(out)@ =~= old(out)@ + spec_header(width as nat, height as nat));
    }
}

/// Appends the lines of a run of pixels, in order.
pub fn write_pixels(out: &mut Vec<u8>, pixels: &Vec<Color>)
    ensures
        final(out)@ == old(out)@ + spec_pixel_lines(pixels@),
{
    let mut k: usize = 0;
    assert(out@ =~= old(out)@ + spec_pixel_lines(pixels@.take(0)));
    while k < pixels.len()
        invariant
            k <= pixels@.len(),
            out@ == old(out)@ + spec_pixel_lines(pixels@.take(k as int)),
        decreases pixels@.len() - k,
    {
        let ghost before = out@;
        write(out, pixels[k]);
        proof {
            assert(pixels@.take(k as int + 1).drop_last() =~= pixels@.take(k as int));
            assert(pixels@.take(k as int + 1).last() == pixels@[k as int]);
            assert(out@ =~= old(out)@ + spec_pixel_lines(pixels@.take(k as int + 1)));
        }
        k += 1;
    }
    proof {
        assert(pixels@.take(k as int) =~= pixels@);
    }
}

} // verus!
