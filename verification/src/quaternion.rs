//! Quaternion and vector value types and their operations.
//!
//! Components are IEEE-754 binary64 values carried as `u64` bit patterns
//! (see the `fp` module).  Every operation states in its contract the exact
//! rounded-arithmetic data flow of its formula.

use vstd::prelude::*;
use vstd::string::StringExecFns;

use crate::fp::add_bits;
use crate::fp::cos_bits;
use crate::fp::div_bits;
use crate::fp::flip_sign;
use crate::fp::fp_add;
use crate::fp::fp_cos;
use crate::fp::fp_div;
use crate::fp::fp_ge_zero;
use crate::fp::fp_magnitude;
use crate::fp::fp_mul;
use crate::fp::fp_neg;
use crate::fp::fp_sin;
use crate::fp::fp_sqrt;
use crate::fp::fp_sub;
use crate::fp::ge_zero;
use crate::fp::lemma_flip_sign_involution;
use crate::fp::magnitude;
use crate::fp::mul_bits;
use crate::fp::sin_bits;
use crate::fp::sqrt_bits;
use crate::fp::sub_bits;

verus! {

/// Bit pattern of the double 1.0.
pub const ONE_BITS: u64 = 0x3FF0_0000_0000_0000;

/// Bit pattern of the double 2.0.
pub const TWO_BITS: u64 = 0x4000_0000_0000_0000;

/// A three-component real vector; each component is the bit pattern of an
/// IEEE-754 binary64 value.
#[derive(Debug, Clone, Copy, PartialEq, Eq, Structural)]
pub struct Vector3(pub u64, pub u64, pub u64);

/// A quaternion `w + i·i + j·j + k·k`; each component is the bit pattern
/// of an IEEE-754 binary64 value.
#[derive(Debug, Clone, Copy, PartialEq, Eq, Structural)]
pub struct Quaternion {
    pub w: u64,
    pub i: u64,
    pub j: u64,
    pub k: u64,
}

/// The multiplicative identity quaternion `(1, 0, 0, 0)`.
pub open spec fn identity() -> Quaternion {
    Quaternion { w: ONE_BITS, i: 0, j: 0, k: 0 }
}

/// Component-wise rounded sum of two quaternions.
pub open spec fn component_sum(a: Quaternion, b: Quaternion) -> Quaternion {
    Quaternion {
        w: add_bits(a.w, b.w),
        i: add_bits(a.i, b.i),
        j: add_bits(a.j, b.j),
        k: add_bits(a.k, b.k),
    }
}

/// Component-wise rounded difference of two quaternions.
pub open spec fn component_difference(a: Quaternion, b: Quaternion) -> Quaternion {
    Quaternion {
        w: sub_bits(a.w, b.w),
        i: sub_bits(a.i, b.i),
        j: sub_bits(a.j, b.j),
        k: sub_bits(a.k, b.k),
    }
}

/// The Hamilton product formula, with rounded products combined strictly
/// left to right:
/// `w = w1·w2 − i1·i2 − j1·j2 − k1·k2`,
/// `i = w1·i2 + i1·w2 + j1·k2 − k1·j2`,
/// `j = w1·j2 − i1·k2 + j1·w2 + k1·i2`,
/// `k = w1·k2 + i1·j2 − j1·i2 + k1·w2`.
pub open spec fn hamilton_formula(a: Quaternion, b: Quaternion) -> Quaternion {
    Quaternion {
        w: sub_bits(
            sub_bits(sub_bits(mul_bits(a.w, b.w), mul_bits(a.i, b.i)), mul_bits(a.j, b.j)),
            mul_bits(a.k, b.k),
        ),
        i: sub_bits(
            add_bits(add_bits(mul_bits(a.w, b.i), mul_bits(a.i, b.w)), mul_bits(a.j, b.k)),
            mul_bits(a.k, b.j),
        ),
        j: add_bits(
            add_bits(sub_bits(mul_bits(a.w, b.j), mul_bits(a.i, b.k)), mul_bits(a.j, b.w)),
            mul_bits(a.k, b.i),
        ),
        k: add_bits(
            sub_bits(add_bits(mul_bits(a.w, b.k), mul_bits(a.i, b.j)), mul_bits(a.j, b.i)),
            mul_bits(a.k, b.w),
        ),
    }
}

/// The even-product formula, a sign variant of the Hamilton product:
/// `w = w1·w2 − i1·i2 − j1·j2 − k1·k2`,
/// `i = w1·i2 + i1·w2 − j1·k2 + k1·j2`,
/// `j = w1·j2 + i1·k2 + j1·w2 − k1·i2`,
/// `k = w1·k2 − i1·j2 + j1·i2 + k1·w2`.
pub open spec fn even_formula(a: Quaternion, b: Quaternion) -> Quaternion {
    Quaternion {
        w: sub_bits(
            sub_bits(sub_bits(mul_bits(a.w, b.w), mul_bits(a.i, b.i)), mul_bits(a.j, b.j)),
            mul_bits(a.k, b.k),
        ),
        i: add_bits(
            sub_bits(add_bits(mul_bits(a.w, b.i), mul_bits(a.i, b.w)), mul_bits(a.j, b.k)),
            mul_bits(a.k, b.j),
        ),
        j: sub_bits(
            add_bits(add_bits(mul_bits(a.w, b.j), mul_bits(a.i, b.k)), mul_bits(a.j, b.w)),
            mul_bits(a.k, b.i),
        ),
        k: add_bits(
            add_bits(sub_bits(mul_bits(a.w, b.k), mul_bits(a.i, b.j)), mul_bits(a.j, b.i)),
            mul_bits(a.k, b.w),
        ),
    }
}

/// The rounded dot product of the four component pairs, summed strictly
/// left to right: `w1·w2 + i1·i2 + j1·j2 + k1·k2`.
pub open spec fn dot(a: Quaternion, b: Quaternion) -> u64 {
    add_bits(
        add_bits(add_bits(mul_bits(a.w, b.w), mul_bits(a.i, b.i)), mul_bits(a.j, b.j)),
        mul_bits(a.k, b.k),
    )
}

/// The conjugate: the scalar part kept, each imaginary part negated.
pub open spec fn conjugated(q: Quaternion) -> Quaternion {
    Quaternion { w: q.w, i: flip_sign(q.i), j: flip_sign(q.j), k: flip_sign(q.k) }
}

/// The Euclidean norm of the four components: the rounded square root of
/// the dot product of the quaternion with itself.
pub open spec fn norm(q: Quaternion) -> u64 {
    sqrt_bits(dot(q, q))
}

/// The quaternion `(0, v)` with zero scalar part and the vector as its
/// imaginary parts.
pub open spec fn pure_vector(v: Vector3) -> Quaternion {
    Quaternion { w: 0, i: v.0, j: v.1, k: v.2 }
}

/// The imaginary parts of a quaternion, as a vector.
pub open spec fn vector_part(q: Quaternion) -> Vector3 {
    Vector3(q.i, q.j, q.k)
}

/// The axis-angle encoding `(cos(angle/2), axis·sin(angle/2))`, over the
/// rounded half angle.  The axis is assumed, not checked, to be a unit
/// vector; a non-unit axis silently yields a non-unit quaternion.
pub open spec fn axis_angle_formula(axis: Vector3, angle: u64) -> Quaternion {
    let half = div_bits(angle, TWO_BITS);
    Quaternion {
        w: cos_bits(half),
        i: mul_bits(axis.0, sin_bits(half)),
        j: mul_bits(axis.1, sin_bits(half)),
        k: mul_bits(axis.2, sin_bits(half)),
    }
}

/// Each component divided by the norm.  A zero norm is not guarded
/// against: dividing by it yields NaN components.
pub open spec fn signum_formula(q: Quaternion) -> Quaternion {
    Quaternion {
        w: div_bits(q.w, norm(q)),
        i: div_bits(q.i, norm(q)),
        j: div_bits(q.j, norm(q)),
        k: div_bits(q.k, norm(q)),
    }
}

/// The conjugate scaled by the reciprocal of the squared norm, the
/// squared norm being the rounded product of the norm with itself.  A
/// zero norm is not guarded against: it yields NaN or infinite
/// components.
pub open spec fn inverse_formula(q: Quaternion) -> Quaternion {
    let n2 = mul_bits(norm(q), norm(q));
    Quaternion {
        w: div_bits(q.w, n2),
        i: div_bits(flip_sign(q.i), n2),
        j: div_bits(flip_sign(q.j), n2),
        k: div_bits(flip_sign(q.k), n2),
    }
}

/// The five arguments of the Tait-Bryan angle extraction: the two atan2
/// arguments for roll, the asin argument for pitch, and the two atan2
/// arguments for yaw.
#[derive(Debug, Clone, Copy, PartialEq, Eq, Structural)]
pub struct EulerArguments {
    pub roll_y: u64,
    pub roll_x: u64,
    pub pitch_sine: u64,
    pub yaw_y: u64,
    pub yaw_x: u64,
}

/// The Tait-Bryan arguments over rounded arithmetic:
/// `roll_y = 2·(w·i + j·k)`, `roll_x = 1 − 2·(i·i + j·j)`,
/// `pitch_sine = 2·(w·j − k·i)`,
/// `yaw_y = 2·(w·k + i·j)`, `yaw_x = 1 − 2·(j·j + k·k)`.
pub open spec fn euler_arguments_formula(q: Quaternion) -> EulerArguments {
    EulerArguments {
        roll_y: mul_bits(TWO_BITS, add_bits(mul_bits(q.w, q.i), mul_bits(q.j, q.k))),
        roll_x: sub_bits(ONE_BITS, mul_bits(TWO_BITS, add_bits(mul_bits(q.i, q.i), mul_bits(q.j, q.j)))),
        pitch_sine: mul_bits(TWO_BITS, sub_bits(mul_bits(q.w, q.j), mul_bits(q.k, q.i))),
        yaw_y: mul_bits(TWO_BITS, add_bits(mul_bits(q.w, q.k), mul_bits(q.i, q.j))),
        yaw_x: sub_bits(ONE_BITS, mul_bits(TWO_BITS, add_bits(mul_bits(q.j, q.j), mul_bits(q.k, q.k)))),
    }
}

/// The sign written before an imaginary component's magnitude: `+` when
/// the component compares `>= 0.0` (negative zero included), `-`
/// otherwise (NaNs included).
pub open spec fn sign_seq(x: u64) -> Seq<char> {
    if ge_zero(x) {
        seq!['+']
    } else {
        seq!['-']
    }
}

/// The rendering `<w><sign><|i|>i<sign><|j|>j<sign><|k|>k`, given the
/// decimal texts of the scalar part and of the three imaginary
/// magnitudes.
pub open spec fn display_seq(
    q: Quaternion,
    w_text: Seq<char>,
    i_text: Seq<char>,
    j_text: Seq<char>,
    k_text: Seq<char>,
) -> Seq<char> {
    w_text + sign_seq(q.i) + i_text + seq!['i'] + sign_seq(q.j) + j_text + seq!['j'] + sign_seq(
        q.k,
    ) + k_text + seq!['k']
}

/// Conjugating twice gives the original quaternion back: the scalar part
/// never moves, and each imaginary part's two sign flips cancel exactly,
/// on every bit pattern.
pub proof fn lemma_conjugate_involution(q: Quaternion)
    ensures
        conjugated(conjugated(q)) == q,
{
    lemma_flip_sign_involution(q.i);
    lemma_flip_sign_involution(q.j);
    lemma_flip_sign_involution(q.k);
}

impl Default for Quaternion {
    /// The identity quaternion `(1, 0, 0, 0)`: no rotation.
    fn default() -> (q: Quaternion)
        ensures
            q == identity(),
    {
        Quaternion { w: ONE_BITS, i: 0, j: 0, k: 0 }
    }
}

/// The Hamilton product, shared by the three public operations whose
/// formulas coincide.
fn hamilton(q1: &Quaternion, q2: &Quaternion) -> (r: Quaternion)
    ensures
        r == hamilton_formula(*q1, *q2),
{
    Quaternion::new(
        fp_sub(
            fp_sub(fp_sub(fp_mul(q1.w, q2.w), fp_mul(q1.i, q2.i)), fp_mul(q1.j, q2.j)),
            fp_mul(q1.k, q2.k),
        ),
        fp_sub(
            fp_add(fp_add(fp_mul(q1.w, q2.i), fp_mul(q1.i, q2.w)), fp_mul(q1.j, q2.k)),
            fp_mul(q1.k, q2.j),
        ),
        fp_add(
            fp_add(fp_sub(fp_mul(q1.w, q2.j), fp_mul(q1.i, q2.k)), fp_mul(q1.j, q2.w)),
            fp_mul(q1.k, q2.i),
        ),
        fp_add(
            fp_sub(fp_add(fp_mul(q1.w, q2.k), fp_mul(q1.i, q2.j)), fp_mul(q1.j, q2.i)),
            fp_mul(q1.k, q2.w),
        ),
    )
}

/// The even product, kept apart from the Hamilton product because its
/// sign pattern differs.
fn even(q1: &Quaternion, q2: &Quaternion) -> (r: Quaternion)
    ensures
        r == even_formula(*q1, *q2),
{
    Quaternion::new(
        fp_sub(
            fp_sub(fp_sub(fp_mul(q1.w, q2.w), fp_mul(q1.i, q2.i)), fp_mul(q1.j, q2.j)),
            fp_mul(q1.k, q2.k),
        ),
        fp_add(
            fp_sub(fp_add(fp_mul(q1.w, q2.i), fp_mul(q1.i, q2.w)), fp_mul(q1.j, q2.k)),
            fp_mul(q1.k, q2.j),
        ),
        fp_sub(
            fp_add(fp_add(fp_mul(q1.w, q2.j), fp_mul(q1.i, q2.k)), fp_mul(q1.j, q2.w)),
            fp_mul(q1.k, q2.i),
        ),
        fp_add(
            fp_add(fp_sub(fp_mul(q1.w, q2.k), fp_mul(q1.i, q2.j)), fp_mul(q1.j, q2.i)),
            fp_mul(q1.k, q2.w),
        ),
    )
}

impl Quaternion {
    /// The quaternion with exactly the four given components.
    pub fn new(w: u64, i: u64, j: u64, k: u64) -> (r: Quaternion)
        ensures
            r == (Quaternion { w, i, j, k }),
    {
        Quaternion { w, i, j, k }
    }

    /// Component-wise rounded sum.
    pub fn add(q1: &Quaternion, q2: &Quaternion) -> (r: Quaternion)
        ensures
            r == component_sum(*q1, *q2),
    {
        Quaternion::new(
            fp_add(q1.w, q2.w),
            fp_add(q1.i, q2.i),
            fp_add(q1.j, q2.j),
            fp_add(q1.k, q2.k),
        )
    }

    /// Component-wise rounded difference.
    pub fn subtract(q1: &Quaternion, q2: &Quaternion) -> (r: Quaternion)
        ensures
            r == component_difference(*q1, *q2),
    {
        Quaternion::new(
            fp_sub(q1.w, q2.w),
            fp_sub(q1.i, q2.i),
            fp_sub(q1.j, q2.j),
            fp_sub(q1.k, q2.k),
        )
    }

    /// The Hamilton product, with its exact sign convention; swapping the
    /// operands changes the result in general.
    pub fn multiply(q1: &Quaternion, q2: &Quaternion) -> (r: Quaternion)
        ensures
            r == hamilton_formula(*q1, *q2),
    {
        hamilton(q1, q2)
    }

    /// The Hamilton product of the first operand with the conjugate of the
    /// second.  This is not division by the inverse; the conjugate is
    /// deliberate.
    pub fn divide(q1: &Quaternion, q2: &Quaternion) -> (r: Quaternion)
        ensures
            r == hamilton_formula(*q1, conjugated(*q2)),
    {
        hamilton(q1, &q2.conjugate())
    }

    /// The real dot product over all four component pairs.
    pub fn scalar_product(q1: &Quaternion, q2: &Quaternion) -> (r: u64)
        ensures
            r == dot(*q1, *q2),
    {
        fp_add(
            fp_add(fp_add(fp_mul(q1.w, q2.w), fp_mul(q1.i, q2.i)), fp_mul(q1.j, q2.j)),
            fp_mul(q1.k, q2.k),
        )
    }

    /// Named outer product; its formula coincides with the Hamilton
    /// product.
    pub fn outer_product(q1: &Quaternion, q2: &Quaternion) -> (r: Quaternion)
        ensures
            r == hamilton_formula(*q1, *q2),
    {
        hamilton(q1, q2)
    }

    /// The even product, whose sign pattern differs from the Hamilton
    /// product.
    pub fn even_product(q1: &Quaternion, q2: &Quaternion) -> (r: Quaternion)
        ensures
            r == even_formula(*q1, *q2),
    {
        even(q1, q2)
    }

    /// Named cross product; its formula coincides with the Hamilton
    /// product.
    pub fn cross_product(q1: &Quaternion, q2: &Quaternion) -> (r: Quaternion)
        ensures
            r == hamilton_formula(*q1, *q2),
    {
        hamilton(q1, q2)
    }

    /// The conjugate: the scalar part kept, each imaginary part negated by
    /// an exact sign flip.
    pub fn conjugate(&self) -> (r: Quaternion)
        ensures
            r == conjugated(*self),
    {
        Quaternion::new(self.w, fp_neg(self.i), fp_neg(self.j), fp_neg(self.k))
    }

    /// The unit quaternion encoding a rotation about the given axis by
    /// the given angle in radians; the axis is assumed, not checked, to
    /// be a unit vector.
    pub fn from_axis_angle(axis: &Vector3, angle: u64) -> (r: Quaternion)
        ensures
            r == axis_angle_formula(*axis, angle),
    {
        let half_angle = fp_div(angle, TWO_BITS);
        let sin_half_angle = fp_sin(half_angle);
        Quaternion {
            w: fp_cos(half_angle),
            i: fp_mul(axis.0, sin_half_angle),
            j: fp_mul(axis.1, sin_half_angle),
            k: fp_mul(axis.2, sin_half_angle),
        }
    }

    /// The Euclidean norm: the rounded square root of the dot product of
    /// the quaternion with itself.
    pub fn abs(&self) -> (r: u64)
        ensures
            r == norm(*self),
    {
        fp_sqrt(Quaternion::scalar_product(self, self))
    }

    /// Each component divided by the norm; a zero norm yields NaN
    /// components rather than an error.
    pub fn sgn(&self) -> (r: Quaternion)
        ensures
            r == signum_formula(*self),
    {
        let n = self.abs();
        Quaternion::new(
            fp_div(self.w, n),
            fp_div(self.i, n),
            fp_div(self.j, n),
            fp_div(self.k, n),
        )
    }

    /// The conjugate scaled by the reciprocal of the squared norm; a zero
    /// norm yields NaN or infinite components rather than an error.
    pub fn inverse(&self) -> (r: Quaternion)
        ensures
            r == inverse_formula(*self),
    {
        let n = self.abs();
        let n2 = fp_mul(n, n);
        Quaternion::new(
            fp_div(self.w, n2),
            fp_div(fp_neg(self.i), n2),
            fp_div(fp_neg(self.j), n2),
            fp_div(fp_neg(self.k), n2),
        )
    }

    /// The cosine of the rotation half angle, `w / abs()`; its arc cosine
    /// is the quaternion's argument.  A zero norm, or rounding drift that
    /// pushes the ratio outside `[-1, 1]`, makes that arc cosine NaN; the
    /// ratio itself is returned as it comes.
    pub fn arg_cosine(&self) -> (r: u64)
        ensures
            r == div_bits(self.w, norm(*self)),
    {
        fp_div(self.w, self.abs())
    }

    /// The sandwich product `q · ((0, v) · q)`; the trailing operand is
    /// the quaternion itself, not its conjugate.  This coincides with the
    /// standard rotation only under that convention.
    pub fn rotate_vector(&self, v: &Vector3) -> (r: Vector3)
        ensures
            r == vector_part(hamilton_formula(*self, hamilton_formula(pure_vector(*v), *self))),
    {
        let vq = Quaternion::new(0, v.0, v.1, v.2);
        let result = Quaternion::multiply(self, &Quaternion::multiply(&vq, self));
        Vector3(result.i, result.j, result.k)
    }

    /// The vector part of the left product `q · (0, v)`; a quaternion-
    /// vector product, not a rotation.
    pub fn multiply_vector(&self, v: &Vector3) -> (r: Vector3)
        ensures
            r == vector_part(hamilton_formula(*self, pure_vector(*v))),
    {
        let vq = Quaternion::new(0, v.0, v.1, v.2);
        let result = Quaternion::multiply(self, &vq);
        Vector3(result.i, result.j, result.k)
    }

    /// The five arguments of the Tait-Bryan (ZYX) angle extraction.  The
    /// roll is the arc tangent of the first pair, the pitch the arc sine
    /// of `pitch_sine` (unclamped, so rounding drift outside `[-1, 1]`
    /// yields NaN), and the yaw the arc tangent of the last pair.
    pub fn euler_angle_arguments(&self) -> (r: EulerArguments)
        ensures
            r == euler_arguments_formula(*self),
    {
        EulerArguments {
            roll_y: fp_mul(TWO_BITS, fp_add(fp_mul(self.w, self.i), fp_mul(self.j, self.k))),
            roll_x: fp_sub(
                ONE_BITS,
                fp_mul(TWO_BITS, fp_add(fp_mul(self.i, self.i), fp_mul(self.j, self.j))),
            ),
            pitch_sine: fp_mul(TWO_BITS, fp_sub(fp_mul(self.w, self.j), fp_mul(self.k, self.i))),
            yaw_y: fp_mul(TWO_BITS, fp_add(fp_mul(self.w, self.k), fp_mul(self.i, self.j))),
            yaw_x: fp_sub(
                ONE_BITS,
                fp_mul(TWO_BITS, fp_add(fp_mul(self.j, self.j), fp_mul(self.k, self.k))),
            ),
        }
    }

    /// The imaginary parts, as a vector; the scalar part is dropped.
    pub fn to_vector3(&self) -> (r: Vector3)
        ensures
            r == vector_part(*self),
    {
        Vector3(self.i, self.j, self.k)
    }

    /// The magnitudes (exact sign-bit clears) of the three imaginary
    /// components, in order: the values whose decimal texts
    /// `compose_display` expects.
    pub fn component_magnitudes(&self) -> (r: (u64, u64, u64))
        ensures
            r.0 == magnitude(self.i),
            r.1 == magnitude(self.j),
            r.2 == magnitude(self.k),
    {
        (fp_magnitude(self.i), fp_magnitude(self.j), fp_magnitude(self.k))
    }

    /// The rendering `<w><sign><|i|>i<sign><|j|>j<sign><|k|>k`.  Each
    /// sign is decided exactly on the component's bits (`+` for `>= 0.0`,
    /// negative zero included; `-` otherwise, NaNs included); the caller
    /// supplies the decimal texts of the scalar part and of the three
    /// imaginary magnitudes from `component_magnitudes`.
    pub fn compose_display(
        &self,
        w_text: &str,
        i_text: &str,
        j_text: &str,
        k_text: &str,
    ) -> (r: String)
        ensures
            r@ == display_seq(*self, w_text@, i_text@, j_text@, k_text@),
    {
        proof {
            reveal_strlit("+");
            reveal_strlit("-");
            reveal_strlit("i");
            reveal_strlit("j");
            reveal_strlit("k");
        }
        let mut out = String::new();
        out.append(w_text);
        if fp_ge_zero(self.i) {
            out.append("+");
        } else {
            out.append("-");
        }
        out.append(i_text);
        out.append("i");
        if fp_ge_zero(self.j) {
            out.append("+");
        } else {
            out.append("-");
        }
        out.append(j_text);
        out.append("j");
        if fp_ge_zero(self.k) {
            out.append("+");
        } else {
            out.append("-");
        }
        out.append(k_text);
        out.append("k");
        proof {
            assert(out@ =~= display_seq(*self, w_text@, i_text@, j_text@, k_text@));
        }
        out
    }
}

} // verus!
