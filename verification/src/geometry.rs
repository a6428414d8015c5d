//! The numeric ground floor: opaque 2-d vectors and affine maps from glam,
//! and a scalar carrier built on them. Every floating-point operation the
//! scene logic needs is reached through a trusted wrapper whose result is
//! pinned to an uninterpreted name, so the structural logic above can be
//! verified while the numerics stay with the outside crate.

use vstd::prelude::*;

verus! {

#[verifier::external_type_specification]
#[verifier::external_body]
pub struct ExDVec2(glam::DVec2);

#[verifier::external_type_specification]
#[verifier::external_body]
pub struct ExDAffine2(glam::DAffine2);

// Names for the vector and affine operations the contracts speak of.
// Each stands for the result of exactly one outside operation, a pure
// function of its arguments.

/// What glam's `Add` for `DVec2` returns: componentwise sum.
pub uninterp spec fn add_of(a: glam::DVec2, b: glam::DVec2) -> glam::DVec2;

/// What glam's `Sub` for `DVec2` returns: componentwise difference.
pub uninterp spec fn sub_of(a: glam::DVec2, b: glam::DVec2) -> glam::DVec2;

/// What `DVec2::min` returns: componentwise minimum.
pub uninterp spec fn min_of(a: glam::DVec2, b: glam::DVec2) -> glam::DVec2;

/// What `DVec2::max` returns: componentwise maximum.
pub uninterp spec fn max_of(a: glam::DVec2, b: glam::DVec2) -> glam::DVec2;

/// A vector scaled by a whole number of steps.
pub uninterp spec fn muln_of(v: glam::DVec2, n: u32) -> glam::DVec2;

/// A vector halved: the midpoint scale.
pub uninterp spec fn half_of(v: glam::DVec2) -> glam::DVec2;

/// A vector scaled by minus one half.
pub uninterp spec fn neg_half_of(v: glam::DVec2) -> glam::DVec2;

/// The vector with a whole number in both lanes; `splat_of(0)` is the origin.
pub uninterp spec fn splat_of(n: u64) -> glam::DVec2;

/// The vector whose x lane is `x`'s carried value and whose y lane is `y`'s.
pub uninterp spec fn xy_of(x: glam::DVec2, y: glam::DVec2) -> glam::DVec2;

/// What glam's `Mul` for `DAffine2` returns: the composed map.
pub uninterp spec fn compose_of(a: glam::DAffine2, b: glam::DAffine2) -> glam::DAffine2;

/// What `DAffine2::inverse` returns.
pub uninterp spec fn inverse_of(m: glam::DAffine2) -> glam::DAffine2;

/// What `DAffine2::from_translation` returns.
pub uninterp spec fn translation_of(v: glam::DVec2) -> glam::DAffine2;

/// What `DAffine2::from_angle` returns for the carried angle in radians.
pub uninterp spec fn rotation_of(angle: glam::DVec2) -> glam::DAffine2;

/// What `DAffine2::transform_point2` returns.
pub uninterp spec fn point_xform_of(m: glam::DAffine2, p: glam::DVec2) -> glam::DVec2;

/// What `DAffine2::transform_vector2` returns: the map without its translation.
pub uninterp spec fn vector_xform_of(m: glam::DAffine2, v: glam::DVec2) -> glam::DVec2;

/// Relies on glam's `Add` for `DVec2`: componentwise addition.
#[verifier::external_body]
pub fn vec_add(a: glam::DVec2, b: glam::DVec2) -> (r: glam::DVec2)
    ensures
        r == add_of(a, b),
{
    a + b
}

/// Relies on glam's `Sub` for `DVec2`: componentwise subtraction.
#[verifier::external_body]
pub fn vec_sub(a: glam::DVec2, b: glam::DVec2) -> (r: glam::DVec2)
    ensures
        r == sub_of(a, b),
{
    a - b
}

/// Relies on `DVec2::min`: componentwise minimum.
#[verifier::external_body]
pub fn vec_min(a: glam::DVec2, b: glam::DVec2) -> (r: glam::DVec2)
    ensures
        r == min_of(a, b),
{
    a.min(b)
}

/// Relies on `DVec2::max`: componentwise maximum.
#[verifier::external_body]
pub fn vec_max(a: glam::DVec2, b: glam::DVec2) -> (r: glam::DVec2)
    ensures
        r == max_of(a, b),
{
    a.max(b)
}

/// Relies on glam's `Mul` for `DVec2`: `v` scaled componentwise by the
/// step count `n`, converted through `UVec2::as_dvec2`.
#[verifier::external_body]
pub fn vec_scale_n(v: glam::DVec2, n: u32) -> (r: glam::DVec2)
    ensures
        r == muln_of(v, n),
{
    v * glam::UVec2::splat(n).as_dvec2()
}

/// Relies on glam's `Div` for `DVec2`: `v` divided componentwise by two.
#[verifier::external_body]
pub fn vec_half(v: glam::DVec2) -> (r: glam::DVec2)
    ensures
        r == half_of(v),
{
    v / glam::IVec2::splat(2).as_dvec2()
}

/// Relies on glam's `Div` for `DVec2`: `v` divided componentwise by minus two.
#[verifier::external_body]
pub fn vec_neg_half(v: glam::DVec2) -> (r: glam::DVec2)
    ensures
        r == neg_half_of(v),
{
    v / glam::IVec2::splat(-2).as_dvec2()
}

/// Relies on `DVec2::new` applied to the two carried lanes.
#[verifier::external_body]
pub fn vec_from_reals(x: Real, y: Real) -> (r: glam::DVec2)
    ensures
        r == xy_of(x.v, y.v),
{
    glam::DVec2::new(x.v.x, y.v.x)
}

/// Relies on glam's `Mul` for `DAffine2`: composition of affine maps.
#[verifier::external_body]
pub fn affine_mul(a: glam::DAffine2, b: glam::DAffine2) -> (r: glam::DAffine2)
    ensures
        r == compose_of(a, b),
{
    a * b
}

/// Relies on `DAffine2::inverse`; for a singular map glam returns a map of
/// non-finite entries rather than failing.
#[verifier::external_body]
pub fn affine_inverse(m: glam::DAffine2) -> (r: glam::DAffine2)
    ensures
        r == inverse_of(m),
{
    m.inverse()
}

/// Relies on `DAffine2::from_translation`.
#[verifier::external_body]
pub fn affine_from_translation(v: glam::DVec2) -> (r: glam::DAffine2)
    ensures
        r == translation_of(v),
{
    glam::DAffine2::from_translation(v)
}

/// Relies on `DAffine2::from_angle`, applied to the carried angle in radians.
#[verifier::external_body]
pub fn affine_from_angle(angle: Real) -> (r: glam::DAffine2)
    ensures
        r == rotation_of(angle.v),
{
    glam::DAffine2::from_angle(angle.v.x)
}

/// Relies on `DAffine2::transform_point2`.
#[verifier::external_body]
pub fn affine_transform_point(m: glam::DAffine2, p: glam::DVec2) -> (r: glam::DVec2)
    ensures
        r == point_xform_of(m, p),
{
    m.transform_point2(p)
}

/// Relies on `DAffine2::transform_vector2`.
#[verifier::external_body]
pub fn affine_transform_vector(m: glam::DAffine2, v: glam::DVec2) -> (r: glam::DVec2)
    ensures
        r == vector_xform_of(m, v),
{
    m.transform_vector2(v)
}

/// The identity map, written as a translation by the origin; glam documents
/// `from_translation` of the zero vector as the identity.
pub open spec fn identity_spec() -> glam::DAffine2 {
    translation_of(splat_of(0))
}

/// The identity affine map.
pub fn affine_identity() -> (r: glam::DAffine2)
    ensures
        r == identity_spec(),
{
    let zero = real_from_u64(0);
    affine_from_translation(zero.v)
}

// The scalar carrier. The library cannot hold a bare floating-point number,
// so a real number travels in both lanes of an opaque `DVec2`; every
// operation below reads the x lane and is one primitive or glam operation.

/// A real number carried in an opaque two-lane vector.
#[derive(Clone, Copy)]
pub struct Real {
    pub v: glam::DVec2,
}

/// What primitive `f64` addition returns on the carried lanes.
pub uninterp spec fn radd_of(a: glam::DVec2, b: glam::DVec2) -> glam::DVec2;

/// What primitive `f64` subtraction returns on the carried lanes.
pub uninterp spec fn rsub_of(a: glam::DVec2, b: glam::DVec2) -> glam::DVec2;

/// What primitive `f64` multiplication returns on the carried lanes.
pub uninterp spec fn rmul_of(a: glam::DVec2, b: glam::DVec2) -> glam::DVec2;

/// What primitive `f64` division returns on the carried lanes.
pub uninterp spec fn rdiv_of(a: glam::DVec2, b: glam::DVec2) -> glam::DVec2;

/// What primitive `f64` remainder returns on the carried lanes.
pub uninterp spec fn rrem_of(a: glam::DVec2, b: glam::DVec2) -> glam::DVec2;

/// What `f64::round` returns on the carried lane.
pub uninterp spec fn rround_of(a: glam::DVec2) -> glam::DVec2;

/// What `f64::floor` returns on the carried lane.
pub uninterp spec fn rfloor_of(a: glam::DVec2) -> glam::DVec2;

/// What the primitive `<=` comparison returns on the carried lanes.
pub uninterp spec fn rle_of(a: glam::DVec2, b: glam::DVec2) -> bool;

/// What the primitive `>=` comparison returns on the carried lanes.
pub uninterp spec fn rge_of(a: glam::DVec2, b: glam::DVec2) -> bool;

/// What `f64::is_finite` returns on the carried lane.
pub uninterp spec fn rfinite_of(a: glam::DVec2) -> bool;

/// What `f64::to_radians` returns on the carried lane.
pub uninterp spec fn rrad_of(a: glam::DVec2) -> glam::DVec2;

/// What the saturating cast from the carried lane to `u64` returns.
pub uninterp spec fn to_u64_of(a: glam::DVec2) -> u64;

/// Relies on primitive `f64` addition.
#[verifier::external_body]
pub fn real_add(a: Real, b: Real) -> (r: Real)
    ensures
        r.v == radd_of(a.v, b.v),
{
    Real { v: glam::DVec2::splat(a.v.x + b.v.x) }
}

/// Relies on primitive `f64` subtraction.
#[verifier::external_body]
pub fn real_sub(a: Real, b: Real) -> (r: Real)
    ensures
        r.v == rsub_of(a.v, b.v),
{
    Real { v: glam::DVec2::splat(a.v.x - b.v.x) }
}

/// Relies on primitive `f64` multiplication.
#[verifier::external_body]
pub fn real_mul(a: Real, b: Real) -> (r: Real)
    ensures
        r.v == rmul_of(a.v, b.v),
{
    Real { v: glam::DVec2::splat(a.v.x * b.v.x) }
}

/// Relies on primitive `f64` division.
#[verifier::external_body]
pub fn real_div(a: Real, b: Real) -> (r: Real)
    ensures
        r.v == rdiv_of(a.v, b.v),
{
    Real { v: glam::DVec2::splat(a.v.x / b.v.x) }
}

/// Relies on primitive `f64` remainder.
#[verifier::external_body]
pub fn real_rem(a: Real, b: Real) -> (r: Real)
    ensures
        r.v == rrem_of(a.v, b.v),
{
    Real { v: glam::DVec2::splat(a.v.x % b.v.x) }
}

/// Relies on `f64::round`: rounding to the nearest whole number.
#[verifier::external_body]
pub fn real_round(a: Real) -> (r: Real)
    ensures
        r.v == rround_of(a.v),
{
    Real { v: glam::DVec2::splat(a.v.x.round()) }
}

/// Relies on `f64::floor`: rounding toward negative infinity.
#[verifier::external_body]
pub fn real_floor(a: Real) -> (r: Real)
    ensures
        r.v == rfloor_of(a.v),
{
    Real { v: glam::DVec2::splat(a.v.x.floor()) }
}

/// Relies on the primitive `f64` comparison `<=`.
#[verifier::external_body]
pub fn real_le(a: Real, b: Real) -> (r: bool)
    ensures
        r == rle_of(a.v, b.v),
{
    a.v.x <= b.v.x
}

/// Relies on the primitive `f64` comparison `>=`.
#[verifier::external_body]
pub fn real_ge(a: Real, b: Real) -> (r: bool)
    ensures
        r == rge_of(a.v, b.v),
{
    a.v.x >= b.v.x
}

/// Relies on `f64::is_finite`.
#[verifier::external_body]
pub fn real_is_finite(a: Real) -> (r: bool)
    ensures
        r == rfinite_of(a.v),
{
    a.v.x.is_finite()
}

/// Relies on `f64::to_radians`: degrees turned into radians.
#[verifier::external_body]
pub fn real_to_radians(a: Real) -> (r: Real)
    ensures
        r.v == rrad_of(a.v),
{
    Real { v: glam::DVec2::splat(a.v.x.to_radians()) }
}

/// Relies on `U64Vec2::as_dvec2`: the whole number carried into both lanes.
#[verifier::external_body]
pub fn real_from_u64(n: u64) -> (r: Real)
    ensures
        r.v == splat_of(n),
{
    Real { v: glam::U64Vec2::splat(n).as_dvec2() }
}

/// Relies on the saturating `as` cast from `f64` to `u64`.
#[verifier::external_body]
pub fn real_to_u64(a: Real) -> (r: u64)
    ensures
        r == to_u64_of(a.v),
{
    a.v.x as u64
}

} // verus!
