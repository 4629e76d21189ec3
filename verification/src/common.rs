//! The uniform random source, and the draws that are exact: those whose
//! value is a multiple of a power of two with at most fifty-three bits.
use vstd::prelude::*;
use vstd::arithmetic::power2::{pow2, lemma_pow2_unfold, lemma_pow2_strictly_increases, lemma2_to64, lemma2_to64_rest};
use rand::Rng;
use crate::scalar::{Scalar, FRACTION_RANGE, ONE_BITS};

verus! {

/// The number of low bits of a random word that a uniform draw discards.
pub const DISCARDED: u64 = 2048;

/// Draws one word from the thread-local generator: `rand::rng()` followed by
/// `Rng::random::<u64>()`. Nothing is claimed of the word.
#[verifier::external_body]
fn next_word() -> (word: u64)
{
    rand::rng().random::<u64>()
}

/// The fifty-three bits of a random word that a uniform draw keeps.
pub open spec fn spec_kept_bits(word: u64) -> int {
    word as int / DISCARDED as int
}

/// `r` is the uniform draw that `word` stands for: it lies in `[0, 1)` and
/// its value is the kept bits of the word, as a multiple of `2^-53`.
pub open spec fn is_draw_of(r: Scalar, word: u64) -> bool {
    r.bits < ONE_BITS && r.value() == spec_kept_bits(word) * pow2(1021)
}

/// `r` is the draw of `word` less one half: a value in `[-1/2, 1/2)`.
pub open spec fn is_offset_of(r: Scalar, word: u64) -> bool {
    !r.is_nan() && r.value() == (spec_kept_bits(word) - FRACTION_RANGE) * pow2(1021)
}

/// `r` is twice the draw of `word`, less one: a value in `[-1, 1)`.
pub open spec fn is_signed_draw_of(r: Scalar, word: u64) -> bool {
    !r.is_nan() && r.value() == (spec_kept_bits(word) - FRACTION_RANGE) * pow2(1022)
}

/// The pattern of `n * 2^(top - 1075)`, for `n` of at most fifty-three bits.
/// The conversion is exact: the significand is shifted up until its leading
/// bit is in place, and the exponent lowered as often.
fn dyadic(n: u64, top: u64) -> (r: Scalar)
    requires
        n < 2 * FRACTION_RANGE,
        53 <= top <= 1023,
    ensures
        !r.is_negative(),
        !r.is_nan(),
        r.numerator() == n * pow2((top - 1) as nat),
        r.bits < (top + 1) * FRACTION_RANGE,
{
    if n == 0 {
        return Scalar::zero();
    }
    let mut m: u64 = n;
    let mut e: u64 = top;
    proof {
        lemma2_to64();
    }
    while m < FRACTION_RANGE
        invariant
            0 < m < 2 * FRACTION_RANGE,
            1 <= e <= top <= 1023,
            53 <= top,
            pow2((top - e) as nat) <= m,
            m * pow2((e - 1) as nat) == n * pow2((top - 1) as nat),
        decreases e,
    {
        proof {
            lemma2_to64_rest();
            if top - e > 52 {
                lemma_pow2_strictly_increases(52, (top - e) as nat);
            }
            assert(top - e < 52);
            lemma_pow2_unfold((top - e + 1) as nat);
            lemma_pow2_unfold((e - 1) as nat);
            assert((2 * m) * pow2((e - 2) as nat) == m * (2 * pow2((e - 2) as nat)))
                by (nonlinear_arith);
        }
        m = m * 2;
        e = e - 1;
    }
    let r = Scalar { bits: e * FRACTION_RANGE + (m - FRACTION_RANGE) };
    proof {
        let f = (m - FRACTION_RANGE) as int;
        assert(r.magnitude() == e * FRACTION_RANGE + f);
        assert((e * FRACTION_RANGE + f) / (FRACTION_RANGE as int) == e && (e * FRACTION_RANGE + f)
            % (FRACTION_RANGE as int) == f) by (nonlinear_arith)
            requires
                0 <= f < FRACTION_RANGE,
                FRACTION_RANGE > 0,
                e >= 0,
        ;
    }
    r
}

/// Converts a random word to the uniform draw it stands for: the top
/// fifty-three bits of the word, read as a multiple of `2^-53`. The result
/// lies in `[0, 1)` and is exact: no rounding takes place.
pub fn unit_interval(word: u64) -> (r: Scalar)
    ensures
        is_draw_of(r, word),
{
    dyadic(word / DISCARDED, 1022)
}

/// The distance of the kept bits from the middle of their range, and
/// whether they lie below it.
fn centred(word: u64) -> (d: (u64, bool))
    ensures
        d.0 <= FRACTION_RANGE,
        d.1 ==> d.0 > 0 && spec_kept_bits(word) - FRACTION_RANGE == -d.0,
        !d.1 ==> spec_kept_bits(word) - FRACTION_RANGE == d.0,
{
    let k: u64 = word / DISCARDED;
    if k < FRACTION_RANGE {
        (FRACTION_RANGE - k, true)
    } else {
        (k - FRACTION_RANGE, false)
    }
}

/// The uniform draw of `word` less one half. The difference has at most
/// fifty-three bits, so it is exact.
pub fn offset_draw(word: u64) -> (r: Scalar)
    ensures
        is_offset_of(r, word),
{
    let (n, below) = centred(word);
    let r = dyadic(n, 1022);
    proof {
        assert((-n) * pow2(1021) == -(n * pow2(1021))) by (nonlinear_arith);
    }
    if below {
        r.neg()
    } else {
        r
    }
}

/// Twice the uniform draw of `word`, less one. The result has at most
/// fifty-three bits, so it is exact.
pub fn signed_draw(word: u64) -> (r: Scalar)
    ensures
        is_signed_draw_of(r, word),
{
    let (n, below) = centred(word);
    let r = dyadic(n, 1023);
    proof {
        assert((-n) * pow2(1022) == -(n * pow2(1022))) by (nonlinear_arith);
    }
    if below {
        r.neg()
    } else {
        r
    }
}

/// A uniform random draw in `[0, 1)`: the draw of some random word.
pub fn random_double() -> (r: Scalar)
    ensures
        exists|word: u64| #[trigger] is_draw_of(r, word),
{
    let word = next_word();
    unit_interval(word)
}

/// A uniform random draw in `[-1/2, 1/2)`: a draw in `[0, 1)` less one half.
pub fn random_offset() -> (r: Scalar)
    ensures
        exists|word: u64| #[trigger] is_offset_of(r, word),
{
    let word = next_word();
    offset_draw(word)
}

/// A uniform random draw in `[-1, 1)`.
pub fn random_signed() -> (r: Scalar)
    ensures
        exists|word: u64| #[trigger] is_signed_draw_of(r, word),
{
    let word = next_word();
    signed_draw(word)
}

} // verus!
