//! Two-dimensional vectors of IEEE-754 double-precision components, each
//! component held as its 64-bit pattern. The double arithmetic itself is
//! done by nalgebra behind trusted wrappers; every wrapped operation is
//! named by an uninterpreted spec function, which is sound because the
//! basic IEEE-754 operations are functions of their operands' bit
//! patterns alone, on every machine.

use vstd::prelude::*;

verus! {

/// The sign bit of a double-precision bit pattern.
pub const SIGN_BIT: u64 = 0x8000_0000_0000_0000;

/// The bit pattern of positive double-precision zero.
pub const ZERO_BITS: u64 = 0;

/// The bit pattern of the double-precision value one half.
pub const ONE_HALF_BITS: u64 = 0x3FE0_0000_0000_0000;

/// A 2D vector; `x` and `y` are the bit patterns of double-precision
/// components.
#[derive(Clone, Copy, Debug, PartialEq, Eq, Structural)]
pub struct Vec2 {
    pub x: u64,
    pub y: u64,
}

/// The zero vector, with both components positive zero.
pub open spec fn zero_vec2() -> Vec2 {
    Vec2 { x: ZERO_BITS, y: ZERO_BITS }
}

/// Whether a bit pattern denotes double-precision zero; positive and
/// negative zero are its only two encodings.
pub open spec fn is_zero_double(bits: u64) -> bool {
    bits == ZERO_BITS || bits == SIGN_BIT
}

/// IEEE-754 negation of a double flips the sign bit and nothing else.
pub open spec fn flip_sign(bits: u64) -> u64 {
    bits ^ SIGN_BIT
}

/// The componentwise sum of two vectors of doubles.
pub uninterp spec fn vadd(a: Vec2, b: Vec2) -> Vec2;

/// The componentwise difference of two vectors of doubles.
pub uninterp spec fn vsub(a: Vec2, b: Vec2) -> Vec2;

/// The dot product of two vectors of doubles.
pub uninterp spec fn vdot(a: Vec2, b: Vec2) -> u64;

/// The unit vector in the direction of a vector of doubles.
pub uninterp spec fn vnormalize(a: Vec2) -> Vec2;

/// A vector of doubles scaled by a double on the left.
pub uninterp spec fn vscale(s: u64, a: Vec2) -> Vec2;

/// A vector of doubles scaled by a double on the right.
pub uninterp spec fn vscale_r(a: Vec2, s: u64) -> Vec2;

/// A vector of doubles divided by a double.
pub uninterp spec fn vdiv(a: Vec2, s: u64) -> Vec2;

/// The product of two doubles.
pub uninterp spec fn fmul(a: u64, b: u64) -> u64;

/// The double-precision value nearest to an unsigned integer.
pub uninterp spec fn double_of_u64(m: u64) -> u64;

/// Relies on nalgebra's vector addition (`Add` on column vectors): the
/// sum depends on the operands' bit patterns alone.
#[verifier::external_body]
pub(crate) fn vec2_add(a: Vec2, b: Vec2) -> (r: Vec2)
    ensures
        r == vadd(a, b),
{
    let va = nalgebra_glm::DVec2::new(bytemuck::cast(a.x), bytemuck::cast(a.y));
    let vb = nalgebra_glm::DVec2::new(bytemuck::cast(b.x), bytemuck::cast(b.y));
    let s = va + vb;
    Vec2 { x: s.x.to_bits(), y: s.y.to_bits() }
}

/// Relies on nalgebra's vector subtraction (`Sub` on column vectors): the
/// difference depends on the operands' bit patterns alone.
#[verifier::external_body]
pub(crate) fn vec2_sub(a: Vec2, b: Vec2) -> (r: Vec2)
    ensures
        r == vsub(a, b),
{
    let va = nalgebra_glm::DVec2::new(bytemuck::cast(a.x), bytemuck::cast(a.y));
    let vb = nalgebra_glm::DVec2::new(bytemuck::cast(b.x), bytemuck::cast(b.y));
    let s = va - vb;
    Vec2 { x: s.x.to_bits(), y: s.y.to_bits() }
}

/// Relies on nalgebra's `Matrix::dot`: the dot product depends on the
/// operands' bit patterns alone.
#[verifier::external_body]
pub(crate) fn vec2_dot(a: Vec2, b: Vec2) -> (r: u64)
    ensures
        r == vdot(a, b),
{
    let va = nalgebra_glm::DVec2::new(bytemuck::cast(a.x), bytemuck::cast(a.y));
    let vb = nalgebra_glm::DVec2::new(bytemuck::cast(b.x), bytemuck::cast(b.y));
    va.dot(&vb).to_bits()
}

/// Relies on nalgebra's `Matrix::normalize`: the unit vector depends on
/// the operand's bit patterns alone.
#[verifier::external_body]
pub(crate) fn vec2_normalize(a: Vec2) -> (r: Vec2)
    ensures
        r == vnormalize(a),
{
    let va = nalgebra_glm::DVec2::new(bytemuck::cast(a.x), bytemuck::cast(a.y));
    let u = va.normalize();
    Vec2 { x: u.x.to_bits(), y: u.y.to_bits() }
}

/// Relies on nalgebra's scalar-times-vector product (`Mul` of a double by
/// a column vector): the result depends on the bit patterns alone.
#[verifier::external_body]
pub(crate) fn vec2_scale(s: u64, a: Vec2) -> (r: Vec2)
    ensures
        r == vscale(s, a),
{
    let sv = nalgebra_glm::DVec2::new(bytemuck::cast(s), bytemuck::cast(s));
    let va = nalgebra_glm::DVec2::new(bytemuck::cast(a.x), bytemuck::cast(a.y));
    let p = sv.x * va;
    Vec2 { x: p.x.to_bits(), y: p.y.to_bits() }
}

/// Relies on nalgebra's vector-times-scalar product (`Mul` of a column
/// vector by a double): the result depends on the bit patterns alone.
#[verifier::external_body]
pub(crate) fn vec2_scale_r(a: Vec2, s: u64) -> (r: Vec2)
    ensures
        r == vscale_r(a, s),
{
    let va = nalgebra_glm::DVec2::new(bytemuck::cast(a.x), bytemuck::cast(a.y));
    let sv = nalgebra_glm::DVec2::new(bytemuck::cast(s), bytemuck::cast(s));
    let p = va * sv.x;
    Vec2 { x: p.x.to_bits(), y: p.y.to_bits() }
}

/// Relies on nalgebra's vector-by-scalar division (`Div` of a column
/// vector by a double): the result depends on the bit patterns alone.
#[verifier::external_body]
pub(crate) fn vec2_div(a: Vec2, s: u64) -> (r: Vec2)
    ensures
        r == vdiv(a, s),
{
    let va = nalgebra_glm::DVec2::new(bytemuck::cast(a.x), bytemuck::cast(a.y));
    let sv = nalgebra_glm::DVec2::new(bytemuck::cast(s), bytemuck::cast(s));
    let q = va / sv.x;
    Vec2 { x: q.x.to_bits(), y: q.y.to_bits() }
}

/// Relies on double-precision multiplication (`Mul` on the components of
/// a nalgebra vector): the product depends on the bit patterns alone.
#[verifier::external_body]
pub(crate) fn f64_mul(a: u64, b: u64) -> (r: u64)
    ensures
        r == fmul(a, b),
{
    let v = nalgebra_glm::DVec2::new(bytemuck::cast(a), bytemuck::cast(b));
    (v.x * v.y).to_bits()
}

/// Relies on the numeric cast from an unsigned integer to a double,
/// which rounds to the nearest representable value, the same on every
/// machine.
#[verifier::external_body]
pub(crate) fn u64_to_double(m: u64) -> (r: u64)
    ensures
        r == double_of_u64(m),
{
    let v = nalgebra_glm::DVec2::new(m as _, m as _);
    v.x.to_bits()
}

} // verus!
