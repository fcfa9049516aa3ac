//! The fixed-point scalar that every entity's coordinates are made of.
//!
//! A value is `bits / FX_SCALE`.  All arithmetic is total: results are
//! clamped to the symmetric range `[-FX_MAX, FX_MAX]`, products and
//! quotients truncate toward zero, a quotient with zero divisor saturates,
//! and the square root of a negative value is zero.  Each operation's
//! contract states its result exactly over the mathematical integers.

use vstd::prelude::*;

verus! {

/// Number of fixed-point units in 1.0 (two to the twentieth power).
pub const FX_SCALE: i64 = 1048576;

/// Largest representable magnitude; arithmetic saturates at +/- this value.
pub const FX_MAX: i64 = 0x7fff_ffff_ffff_ffff;

/// One thousandth, rounded to the nearest representable scalar: the
/// tolerance below which a branch treats a quantity as zero.
pub const FX_MILLI: i64 = 1049;

/// One hundredth, rounded to the nearest representable scalar: the
/// tolerance used when two entities are compared for equality.
pub const FX_CENTI: i64 = 10486;

/// One tenth, rounded to the nearest representable scalar: the tolerance
/// of the checked narrowing from a motor to a rotor.
pub const FX_DECI: i64 = 104858;

/// Clamp an unbounded integer into the representable range.
#[verifier::opaque]
pub open spec fn fx_clamp(x: int) -> int {
    if x > FX_MAX as int {
        FX_MAX as int
    } else if x < -(FX_MAX as int) {
        -(FX_MAX as int)
    } else {
        x
    }
}

/// Magnitude of an unbounded integer.
pub open spec fn fx_abs(a: int) -> int {
    if a >= 0 {
        a
    } else {
        -a
    }
}

/// Saturating sum.
pub open spec fn fx_add(a: int, b: int) -> int {
    fx_clamp(a + b)
}

/// Saturating difference.
pub open spec fn fx_sub(a: int, b: int) -> int {
    fx_clamp(a - b)
}

/// Saturating negation.
pub open spec fn fx_neg(a: int) -> int {
    fx_clamp(-a)
}

/// Saturating doubling.
pub open spec fn fx_dbl(a: int) -> int {
    fx_clamp(2 * a)
}

/// Halving, truncating toward zero.
pub open spec fn fx_half(a: int) -> int {
    if a >= 0 {
        a / 2
    } else {
        -((-a) / 2)
    }
}

/// Fixed-point product before clamping: magnitudes are multiplied, scaled
/// back down with truncation toward zero, and the sign is reattached.
#[verifier::opaque]
pub open spec fn fx_tmul(a: int, b: int) -> int {
    let q: int = (fx_abs(a) * fx_abs(b)) / (FX_SCALE as int);
    if (a >= 0) == (b >= 0) {
        q
    } else {
        -q
    }
}

/// Saturating fixed-point product.
pub open spec fn fx_mul(a: int, b: int) -> int {
    fx_clamp(fx_tmul(a, b))
}

/// Saturating fixed-point quotient, truncating toward zero; a zero divisor
/// saturates to the signed extreme (the analogue of an infinity).
#[verifier::opaque]
pub open spec fn fx_div(a: int, b: int) -> int {
    if b == 0 {
        if a == 0 {
            0
        } else if a > 0 {
            FX_MAX as int
        } else {
            -(FX_MAX as int)
        }
    } else {
        let q: int = (fx_abs(a) * (FX_SCALE as int)) / fx_abs(b);
        if (a >= 0) == (b >= 0) {
            fx_clamp(q)
        } else {
            fx_clamp(-q)
        }
    }
}

/// The absolute difference of two values, clamped into range.
pub open spec fn fx_adiff(a: int, b: int) -> int {
    fx_clamp(fx_abs(fx_sub(a, b)))
}

/// Fixed-point rounding to a whole number of units, halves away from zero.
pub open spec fn fx_round(a: int) -> int {
    if a >= 0 {
        (a + (FX_SCALE as int) / 2) / (FX_SCALE as int)
    } else {
        -((-a + (FX_SCALE as int) / 2) / (FX_SCALE as int))
    }
}

/// The floor of the square root of a nonnegative integer.
pub open spec fn sqrt_floor(n: int) -> int {
    choose|r: int| 0 <= r && #[trigger] (r * r) <= n && n < (r + 1) * (r + 1)
}

/// Fixed-point square root: zero on nonpositive input, else the floor
/// square root of the value rescaled so the result is in fixed point.
#[verifier::opaque]
pub open spec fn fx_sqrt(a: int) -> int {
    if a <= 0 {
        0
    } else {
        sqrt_floor(a * (FX_SCALE as int))
    }
}

/// A floor square root exists for every nonnegative integer.
proof fn lemma_sqrt_floor_exists(n: int)
    requires
        n >= 0,
    ensures
        exists|r: int| 0 <= r && #[trigger] (r * r) <= n && n < (r + 1) * (r + 1),
    decreases n,
{
    if n == 0 {
        let w: int = 0;
        assert(0 <= w && w * w <= n && n < (w + 1) * (w + 1));
    } else {
        lemma_sqrt_floor_exists(n - 1);
        let r0 = choose|r: int| 0 <= r && #[trigger] (r * r) <= n - 1 && n - 1 < (r + 1) * (r + 1);
        if (r0 + 1) * (r0 + 1) <= n {
            assert(n < (r0 + 2) * (r0 + 2)) by (nonlinear_arith)
                requires
                    n - 1 < (r0 + 1) * (r0 + 1),
                    (r0 + 1) * (r0 + 1) <= n,
                    0 <= r0,
            ;
            assert(0 <= r0 + 1 && (r0 + 1) * (r0 + 1) <= n && n < (r0 + 1 + 1) * (r0 + 1 + 1));
        } else {
            assert(0 <= r0 && r0 * r0 <= n && n < (r0 + 1) * (r0 + 1));
        }
    }
}

/// The floor square root is unique.
proof fn lemma_sqrt_floor_unique(n: int, r: int) by (nonlinear_arith)
    requires
        n >= 0,
        0 <= r,
        r * r <= n,
        n < (r + 1) * (r + 1),
        0 <= sqrt_floor(n),
        sqrt_floor(n) * sqrt_floor(n) <= n,
        n < (sqrt_floor(n) + 1) * (sqrt_floor(n) + 1),
    ensures
        sqrt_floor(n) == r,
{
}

/// What `sqrt_floor` returns, for use at call sites.
pub proof fn lemma_sqrt_floor(n: int)
    requires
        n >= 0,
    ensures
        0 <= sqrt_floor(n),
        sqrt_floor(n) * sqrt_floor(n) <= n,
        n < (sqrt_floor(n) + 1) * (sqrt_floor(n) + 1),
{
    lemma_sqrt_floor_exists(n);
}

/// Clamping always lands inside the representable range.
pub proof fn lemma_fx_clamp_in_range(x: int)
    ensures
        fx_abs(fx_clamp(x)) <= FX_MAX as int,
{
    reveal(fx_clamp);
}

/// Clamping never grows a magnitude.
pub proof fn lemma_fx_clamp_shrinks(x: int)
    ensures
        fx_abs(fx_clamp(x)) <= fx_abs(x),
{
    reveal(fx_clamp);
}

/// A product always lands inside the representable range.
pub proof fn lemma_fx_mul_in_range(a: int, b: int)
    ensures
        fx_abs(fx_mul(a, b)) <= FX_MAX as int,
{
    lemma_fx_clamp_in_range(fx_tmul(a, b));
}

/// Clamping is the identity inside the range.
pub proof fn lemma_fx_clamp_id(x: int)
    requires
        fx_abs(x) <= FX_MAX as int,
    ensures
        fx_clamp(x) == x,
{
    reveal(fx_clamp);
}

/// The sum is exact when the true sum is in range.
pub proof fn lemma_fx_add_exact(a: int, b: int)
    requires
        fx_abs(a + b) <= FX_MAX as int,
    ensures
        fx_add(a, b) == a + b,
{
    lemma_fx_clamp_id(a + b);
}

/// The difference is exact when the true difference is in range.
pub proof fn lemma_fx_sub_exact(a: int, b: int)
    requires
        fx_abs(a - b) <= FX_MAX as int,
    ensures
        fx_sub(a, b) == a - b,
{
    lemma_fx_clamp_id(a - b);
}

/// The negation is exact inside the range.
pub proof fn lemma_fx_neg_exact(a: int)
    requires
        fx_abs(a) <= FX_MAX as int,
    ensures
        fx_neg(a) == -a,
{
    lemma_fx_clamp_id(-a);
}

/// Within magnitude bounds whose scaled product is in range, the product
/// does not clamp, and its magnitude is bounded by the scaled product of
/// the bounds.
pub proof fn lemma_fx_mul_exact(a: int, b: int, ma: int, mb: int)
    requires
        fx_abs(a) <= ma,
        fx_abs(b) <= mb,
        0 <= ma,
        0 <= mb,
        ma * mb <= 0x7fff_ffff_ffff_ffff * 0x10_0000,
    ensures
        fx_mul(a, b) == fx_tmul(a, b),
        fx_abs(fx_tmul(a, b)) <= (ma * mb) / (FX_SCALE as int),
{
    reveal(fx_tmul);
    assert(0 <= fx_abs(a) * fx_abs(b) && fx_abs(a) * fx_abs(b) <= ma * mb) by (nonlinear_arith)
        requires
            0 <= fx_abs(a) <= ma,
            0 <= fx_abs(b) <= mb,
    ;
    assert((fx_abs(a) * fx_abs(b)) / (FX_SCALE as int) <= (ma * mb) / (FX_SCALE as int)
        && 0 <= (fx_abs(a) * fx_abs(b)) / (FX_SCALE as int)) by (nonlinear_arith)
        requires
            0 <= fx_abs(a) * fx_abs(b) <= ma * mb,
    ;
    assert((ma * mb) / (FX_SCALE as int) <= FX_MAX as int) by (nonlinear_arith)
        requires
            0 <= ma * mb <= 0x7fff_ffff_ffff_ffff * 0x10_0000,
    ;
    lemma_fx_clamp_id(fx_tmul(a, b));
}

/// The product does not depend on the order of its factors.
pub proof fn lemma_fx_mul_comm(a: int, b: int)
    ensures
        fx_mul(a, b) == fx_mul(b, a),
{
    reveal(fx_tmul);
    assert(fx_abs(a) * fx_abs(b) == fx_abs(b) * fx_abs(a)) by (nonlinear_arith);
}

/// The product is odd in its first factor.
pub proof fn lemma_fx_mul_neg(a: int, b: int)
    requires
        fx_abs(a) <= FX_MAX as int,
    ensures
        fx_mul(fx_neg(a), b) == fx_neg(fx_mul(a, b)),
{
    reveal(fx_tmul);
    reveal(fx_clamp);
    lemma_fx_neg_exact(a);
    if a == 0 {
        assert(fx_abs(a) * fx_abs(b) == 0) by (nonlinear_arith)
            requires
                fx_abs(a) == 0,
        ;
    }
}

/// The quotient is odd in its numerator.
pub proof fn lemma_fx_div_neg(a: int, b: int)
    requires
        fx_abs(a) <= FX_MAX as int,
    ensures
        fx_div(fx_neg(a), b) == fx_neg(fx_div(a, b)),
{
    reveal(fx_div);
    reveal(fx_clamp);
    lemma_fx_neg_exact(a);
    if a == 0 && b != 0 {
        assert(fx_abs(a) * (FX_SCALE as int) == 0) by (nonlinear_arith)
            requires
                fx_abs(a) == 0,
        ;
    }
}

/// A magnitude bound on the quotient from bounds on its operands.
pub proof fn lemma_fx_div_bound(a: int, b: int, ma: int, d: int)
    requires
        fx_abs(a) <= ma,
        0 <= ma,
        1 <= d,
        d <= fx_abs(b),
    ensures
        fx_abs(fx_div(a, b)) <= (ma * (FX_SCALE as int)) / d,
{
    reveal(fx_div);
    let x: int = fx_abs(a) * (FX_SCALE as int);
    let q: int = x / fx_abs(b);
    assert(0 <= x && x <= ma * (FX_SCALE as int)) by (nonlinear_arith)
        requires
            x == fx_abs(a) * (FX_SCALE as int),
            0 <= fx_abs(a) <= ma,
            0 < FX_SCALE as int,
    ;
    vstd::arithmetic::div_mod::lemma_div_is_ordered_by_denominator(x, d, fx_abs(b));
    vstd::arithmetic::div_mod::lemma_div_is_ordered(x, ma * (FX_SCALE as int), d);
    vstd::arithmetic::div_mod::lemma_div_pos_is_pos(x, fx_abs(b));
    lemma_fx_clamp_shrinks(q);
    lemma_fx_clamp_shrinks(-q);
}

/// The unclamped product is nonnegative on sign-alike factors and
/// nonpositive on sign-unlike factors.
pub proof fn lemma_fx_tmul_sign(x: int, y: int)
    ensures
        ((x >= 0) == (y >= 0)) ==> fx_tmul(x, y) >= 0,
        ((x >= 0) != (y >= 0)) ==> fx_tmul(x, y) <= 0,
        x == 0 || y == 0 ==> fx_tmul(x, y) == 0,
{
    reveal(fx_tmul);
    assert(0 <= fx_abs(x) * fx_abs(y)) by (nonlinear_arith)
        requires
            0 <= fx_abs(x),
            0 <= fx_abs(y),
    ;
    vstd::arithmetic::div_mod::lemma_div_pos_is_pos(fx_abs(x) * fx_abs(y), FX_SCALE as int);
    if x == 0 || y == 0 {
        assert(fx_abs(x) * fx_abs(y) == 0) by (nonlinear_arith)
            requires
                fx_abs(x) == 0 || fx_abs(y) == 0,
        ;
    }
}

/// Clamping preserves the sign.
pub proof fn lemma_fx_clamp_sign(z: int)
    ensures
        z >= 0 ==> fx_clamp(z) >= 0,
        z <= 0 ==> fx_clamp(z) <= 0,
        z > 0 ==> fx_clamp(z) > 0,
        z < 0 ==> fx_clamp(z) < 0,
{
    reveal(fx_clamp);
}

/// A magnitude bound on a sum from bounds on its terms.
pub proof fn lemma_fx_add_bound(a: int, b: int, ma: int, mb: int)
    requires
        fx_abs(a) <= ma,
        fx_abs(b) <= mb,
    ensures
        fx_abs(fx_add(a, b)) <= ma + mb,
{
    lemma_fx_clamp_shrinks(a + b);
}

/// Two representable terms can be recombined across a negation: adding
/// the negation of one equals negating the difference, and swapping a
/// difference negates it.  The clamping is symmetric, so this holds even
/// where the difference saturates.
pub proof fn lemma_fx_flip(x: int, y: int)
    requires
        fx_abs(x) <= FX_MAX as int,
        fx_abs(y) <= FX_MAX as int,
    ensures
        fx_add(fx_neg(x), y) == fx_neg(fx_sub(x, y)),
        fx_sub(y, x) == fx_neg(fx_sub(x, y)),
{
    reveal(fx_clamp);
    lemma_fx_neg_exact(x);
}

/// Three bounded terms sum exactly under every association and sign
/// pattern the formulas use.
pub proof fn lemma_fx_sum3_exact(x: int, y: int, z: int)
    requires
        fx_abs(x) <= 0x1000_0000_0000_0000,
        fx_abs(y) <= 0x1000_0000_0000_0000,
        fx_abs(z) <= 0x1000_0000_0000_0000,
    ensures
        fx_add(fx_add(x, y), z) == x + y + z,
        fx_sub(fx_sub(x, y), z) == x - y - z,
        fx_add(fx_sub(x, y), z) == x - y + z,
        fx_sub(fx_add(x, y), z) == x + y - z,
{
    lemma_fx_add_exact(x, y);
    lemma_fx_sub_exact(x, y);
    lemma_fx_add_exact(x + y, z);
    lemma_fx_sub_exact(x - y, z);
    lemma_fx_add_exact(x - y, z);
    lemma_fx_sub_exact(x + y, z);
}

/// The fixed-point scalar: a value `bits / FX_SCALE`.
#[derive(Clone, Copy, Debug, PartialEq, Eq, Structural)]
pub struct Fx {
    pub bits: i64,
}

/// Clamp a wide intermediate into the representable range.
pub(crate) fn clamp_i128(x: i128) -> (r: i64)
    ensures
        r as int == fx_clamp(x as int),
{
    proof {
        reveal(fx_clamp);
    }
    if x > 0x7fff_ffff_ffff_ffffi128 {
        0x7fff_ffff_ffff_ffffi64
    } else if x < -0x7fff_ffff_ffff_ffffi128 {
        -0x7fff_ffff_ffff_ffffi64
    } else {
        x as i64
    }
}

/// Magnitude of the mantissa, widened so that even the most negative
/// mantissa has a representable magnitude.
fn abs_u128(x: i64) -> (r: u128)
    ensures
        r as int == fx_abs(x as int),
{
    if x >= 0 {
        x as u128
    } else {
        let w: i128 = -(x as i128);
        w as u128
    }
}

impl Fx {
    /// The mathematical value of this scalar, in fixed-point units.
    pub open spec fn v(self) -> int {
        self.bits as int
    }

    /// The scalar with the given mantissa.
    pub fn from_bits(bits: i64) -> (r: Fx)
        ensures
            r.v() == bits as int,
    {
        Fx { bits }
    }

    /// The scalar for a small integer.
    pub fn from_int(i: i64) -> (r: Fx)
        ensures
            r.v() == fx_clamp(i * (FX_SCALE as int)),
    {
        let w: i128 = i as i128;
        proof {
            assert((w as int) * (FX_SCALE as int) <= 0x8_0000_0000_0000_0000_0000
                && (w as int) * (FX_SCALE as int) >= -0x8_0000_0000_0000_0000_0000)
                by (nonlinear_arith)
                requires
                    -0x8000_0000_0000_0000 <= w as int <= 0x7fff_ffff_ffff_ffff,
                    FX_SCALE as int == 1048576,
            ;
        }
        Fx { bits: clamp_i128(w * (FX_SCALE as i128)) }
    }

    /// The scalar closest to `n / d` from below in magnitude.
    pub fn ratio(n: i64, d: i64) -> (r: Fx)
        ensures
            r.v() == fx_div(fx_clamp(n * (FX_SCALE as int)), fx_clamp(d * (FX_SCALE as int))),
    {
        Fx::from_int(n).div(Fx::from_int(d))
    }

    /// Saturating sum.
    pub fn add(self, o: Fx) -> (r: Fx)
        ensures
            r.v() == fx_add(self.v(), o.v()),
    {
        Fx { bits: clamp_i128(self.bits as i128 + o.bits as i128) }
    }

    /// Saturating difference.
    pub fn sub(self, o: Fx) -> (r: Fx)
        ensures
            r.v() == fx_sub(self.v(), o.v()),
    {
        Fx { bits: clamp_i128(self.bits as i128 - o.bits as i128) }
    }

    /// Saturating negation.
    pub fn neg(self) -> (r: Fx)
        ensures
            r.v() == fx_neg(self.v()),
    {
        Fx { bits: clamp_i128(-(self.bits as i128)) }
    }

    /// Saturating doubling.
    pub fn dbl(self) -> (r: Fx)
        ensures
            r.v() == fx_dbl(self.v()),
    {
        Fx { bits: clamp_i128(2i128 * (self.bits as i128)) }
    }

    /// Halving, truncating toward zero.
    pub fn half(self) -> (r: Fx)
        ensures
            r.v() == fx_half(self.v()),
    {
        let m: u128 = abs_u128(self.bits);
        let h: u128 = m / 2;
        proof {
            reveal(fx_clamp);
        }
        if self.bits < 0 {
            Fx { bits: clamp_i128(-(h as i128)) }
        } else {
            Fx { bits: clamp_i128(h as i128) }
        }
    }

    /// Saturating magnitude.
    pub fn abs(self) -> (r: Fx)
        ensures
            r.v() == fx_clamp(fx_abs(self.v())),
    {
        let m: u128 = abs_u128(self.bits);
        Fx { bits: clamp_i128(m as i128) }
    }

    /// Saturating fixed-point product.
    pub fn mul(self, o: Fx) -> (r: Fx)
        ensures
            r.v() == fx_mul(self.v(), o.v()),
    {
        let sign_neg = (self.bits < 0) != (o.bits < 0);
        let ma: u128 = abs_u128(self.bits);
        let mb: u128 = abs_u128(o.bits);
        proof {
            reveal(fx_tmul);
            assert(ma * mb <= 0xffff_ffff_ffff_ffff_ffff_ffff_ffff_ffffu128)
                by (nonlinear_arith)
                requires
                    ma <= 0x8000_0000_0000_0000u128,
                    mb <= 0x8000_0000_0000_0000u128,
            ;
        }
        let q: u128 = (ma * mb) / (FX_SCALE as u128);
        if sign_neg {
            Fx { bits: clamp_i128(-(q as i128)) }
        } else {
            Fx { bits: clamp_i128(q as i128) }
        }
    }

    /// Saturating fixed-point quotient; a zero divisor saturates.
    pub fn div(self, o: Fx) -> (r: Fx)
        ensures
            r.v() == fx_div(self.v(), o.v()),
    {
        proof {
            reveal(fx_div);
        }
        if o.bits == 0 {
            if self.bits == 0 {
                Fx { bits: 0 }
            } else if self.bits > 0 {
                Fx { bits: FX_MAX }
            } else {
                Fx { bits: -FX_MAX }
            }
        } else {
            let sign_neg = (self.bits < 0) != (o.bits < 0);
            let ma: u128 = abs_u128(self.bits);
            let mb: u128 = abs_u128(o.bits);
            proof {
                assert(ma * (FX_SCALE as u128) <= 0x8_0000_0000_0000_0000_0000u128)
                    by (nonlinear_arith)
                    requires
                        ma <= 0x8000_0000_0000_0000u128,
                        FX_SCALE as u128 == 1048576u128,
                ;
            }
            let prod: u128 = ma * (FX_SCALE as u128);
            let q: u128 = prod / mb;
            proof {
                assert(q <= prod) by (nonlinear_arith)
                    requires
                        q == prod / mb,
                        mb >= 1u128,
                ;
            }
            if sign_neg {
                Fx { bits: clamp_i128(-(q as i128)) }
            } else {
                Fx { bits: clamp_i128(q as i128) }
            }
        }
    }

    /// Fixed-point square root: zero on nonpositive input.
    pub fn sqrt(self) -> (r: Fx)
        ensures
            r.v() == fx_sqrt(self.v()),
    {
        proof {
            reveal(fx_sqrt);
        }
        if self.bits <= 0 {
            Fx { bits: 0 }
        } else {
            let n: u128 = (self.bits as u128) * (FX_SCALE as u128);
            let s: u128 = isqrt_u128(n);
            proof {
                assert(s < 0x400_0000_0000u128) by (nonlinear_arith)
                    requires
                        s * s <= n,
                        n < 0x10_0000_0000_0000_0000_0000u128,
                ;
                lemma_sqrt_floor(n as int);
                lemma_sqrt_floor_unique(n as int, s as int);
            }
            Fx { bits: s as i64 }
        }
    }

    /// The clamped absolute difference from another scalar.
    pub fn adiff(self, o: Fx) -> (r: Fx)
        ensures
            r.v() == fx_adiff(self.v(), o.v()),
    {
        self.sub(o).abs()
    }

    /// Round to the nearest whole number of units, halves away from zero.
    pub fn round_int(self) -> (r: i64)
        ensures
            r as int == fx_round(self.v()),
    {
        let m: u128 = abs_u128(self.bits);
        let q: u128 = (m + (FX_SCALE as u128) / 2) / (FX_SCALE as u128);
        if self.bits < 0 {
            -(q as i64)
        } else {
            q as i64
        }
    }

    /// Whether this scalar's magnitude is at most another's, compared
    /// without clamping.
    pub fn abs_le(self, o: Fx) -> (r: bool)
        ensures
            r == (fx_abs(self.v()) <= fx_abs(o.v())),
    {
        let ma: u128 = abs_u128(self.bits);
        let mb: u128 = abs_u128(o.bits);
        ma <= mb
    }

    /// Whether this scalar is strictly below another.
    pub fn lt(self, o: Fx) -> (r: bool)
        ensures
            r == (self.v() < o.v()),
    {
        self.bits < o.bits
    }

    /// Whether this scalar is at or below another.
    pub fn le(self, o: Fx) -> (r: bool)
        ensures
            r == (self.v() <= o.v()),
    {
        self.bits <= o.bits
    }

    /// Whether this scalar is strictly negative.
    pub fn is_neg(self) -> (r: bool)
        ensures
            r == (self.v() < 0),
    {
        self.bits < 0
    }
}

/// Floor square root of a wide integer, by binary search on the root.
fn isqrt_u128(n: u128) -> (r: u128)
    requires
        n < 0x10_0000_0000_0000_0000_0000u128,
    ensures
        r * r <= n,
        n < (r + 1) * (r + 1),
{
    let mut lo: u128 = 0;
    let mut hi: u128 = 0x400_0000_0000u128;
    proof {
        assert(0x400_0000_0000u128 * 0x400_0000_0000u128 == 0x10_0000_0000_0000_0000_0000u128)
            by (nonlinear_arith);
    }
    while lo + 1 < hi
        invariant
            lo * lo <= n,
            n < hi * hi,
            lo < hi,
            hi <= 0x400_0000_0000u128,
        decreases hi - lo,
    {
        let mid: u128 = lo + (hi - lo) / 2;
        proof {
            assert(mid * mid < 0x10_0000_0000_0000_0000_0001u128) by (nonlinear_arith)
                requires
                    mid <= 0x400_0000_0000u128,
            ;
        }
        if mid * mid <= n {
            lo = mid;
        } else {
            hi = mid;
        }
    }
    lo
}

} // verus!
