//! Output-size policy: from the intrinsic size of a vector document and an
//! optional per-axis pixel constraint, compute the exact target pixel
//! dimensions and the per-axis scale ratios.

use vstd::arithmetic::div_mod::lemma_fundamental_div_mod;
use vstd::arithmetic::div_mod::lemma_mod_bound;
use vstd::prelude::*;

verus! {

/// Default output height in pixels when the caller constrains neither axis.
pub const DEFAULT_RASTER_HEIGHT: u32 = 256;

/// Optional output size request: each axis independently present or absent.
#[derive(Clone, Copy, Debug)]
pub struct SizeConstraint {
    pub width: Option<u32>,
    pub height: Option<u32>,
}

/// Exact pixel size of the output raster. Both components are positive.
#[derive(Clone, Copy, PartialEq, Eq, Structural, Debug)]
pub struct TargetDimensions {
    pub width: u32,
    pub height: u32,
}

/// Per-axis scale factors as exact ratios: target dimension over intrinsic
/// dimension. Kept as integer pairs so the policy stays exact; a renderer
/// turns them into whatever numeric form it needs.
#[derive(Clone, Copy, PartialEq, Eq, Structural, Debug)]
pub struct ScaleFactors {
    pub x_num: u32,
    pub x_den: u32,
    pub y_num: u32,
    pub y_den: u32,
}

/// Why the size policy could not produce target dimensions.
#[derive(Clone, Copy, PartialEq, Eq, Structural, Debug)]
pub enum SizeError {
    /// The source document reports a zero width or height; no scale exists.
    ZeroIntrinsicDimension,
    /// A resolved dimension is zero, or too large to represent.
    InvalidTargetSize,
}

/// `round(a / b)` for non-negative `a` and positive `b`, rounding halves up
/// (equivalently, away from zero on this domain).
pub open spec fn round_div(a: int, b: int) -> int
    recommends
        a >= 0,
        b > 0,
{
    (2 * a + b) / (2 * b)
}

/// Target width demanded by the policy, before range checking.
pub open spec fn spec_target_width(w: int, h: int, c: SizeConstraint) -> int {
    match c.width {
        Some(cw) => cw as int,
        None => match c.height {
            Some(ch) => round_div(ch * w, h),
            None => round_div(DEFAULT_RASTER_HEIGHT * w, h),
        },
    }
}

/// Target height demanded by the policy, before range checking.
pub open spec fn spec_target_height(w: int, h: int, c: SizeConstraint) -> int {
    match c.height {
        Some(ch) => ch as int,
        None => match c.width {
            Some(cw) => round_div(cw * h, w),
            None => DEFAULT_RASTER_HEIGHT as int,
        },
    }
}

/// A pixel dimension the policy accepts: positive and representable.
pub open spec fn dim_ok(d: int) -> bool {
    1 <= d <= u32::MAX as int
}

/// `round(given * num / den)`, computed exactly in wide integers.
fn scaled_dim(given: u32, num: u32, den: u32) -> (d: u128)
    requires
        den > 0,
    ensures
        d == round_div(given as int * num as int, den as int),
        d >= 0,
{
    proof {
        assert(2 * (given as int) * (num as int) + (den as int) < u128::MAX as int)
            by (nonlinear_arith)
            requires
                given <= u32::MAX,
                num <= u32::MAX,
                den <= u32::MAX,
        ;
        assert((given as int) * (num as int) >= 0) by (nonlinear_arith)
            requires
                given >= 0,
                num >= 0,
        ;
    }
    let a: u128 = 2 * (given as u128) * (num as u128) + (den as u128);
    let b: u128 = 2 * (den as u128);
    proof {
        assert(2 * (given as int) * (num as int) == 2 * ((given as int) * (num as int)))
            by (nonlinear_arith);
    }
    a / b
}

/// Resolve target pixel dimensions and scale factors from the intrinsic size
/// of a document and an optional per-axis constraint.
///
/// Policy, in priority order: both axes given are taken exactly (no aspect
/// preservation); one axis given solves the other by aspect preservation with
/// rounding; neither given fixes the height at `DEFAULT_RASTER_HEIGHT` and
/// solves the width. A zero intrinsic dimension is an error, as is a resolved
/// dimension that is zero or does not fit in `u32`.
pub fn resolve(intrinsic_width: u32, intrinsic_height: u32, constraint: &SizeConstraint) -> (r:
    Result<(TargetDimensions, ScaleFactors), SizeError>)
    ensures
        ({
            let w = intrinsic_width as int;
            let h = intrinsic_height as int;
            let tw = spec_target_width(w, h, *constraint);
            let th = spec_target_height(w, h, *constraint);
            &&& (r == Err::<(TargetDimensions, ScaleFactors), SizeError>(
                SizeError::ZeroIntrinsicDimension,
            ) <==> (intrinsic_width == 0 || intrinsic_height == 0))
            &&& (r == Err::<(TargetDimensions, ScaleFactors), SizeError>(
                SizeError::InvalidTargetSize,
            ) <==> (intrinsic_width > 0 && intrinsic_height > 0 && !(dim_ok(tw) && dim_ok(th))))
            &&& (r is Ok <==> (intrinsic_width > 0 && intrinsic_height > 0 && dim_ok(tw) && dim_ok(
                th,
            )))
            &&& (r matches Ok(p) ==> {
                &&& p.0.width == tw
                &&& p.0.height == th
                &&& p.1 == (ScaleFactors {
                    x_num: p.0.width,
                    x_den: intrinsic_width,
                    y_num: p.0.height,
                    y_den: intrinsic_height,
                })
            })
        }),
{
    if intrinsic_width == 0 || intrinsic_height == 0 {
        return Err(SizeError::ZeroIntrinsicDimension);
    }
    let tw: u128 = match constraint.width {
        Some(cw) => cw as u128,
        None => match constraint.height {
            Some(ch) => scaled_dim(ch, intrinsic_width, intrinsic_height),
            None => scaled_dim(DEFAULT_RASTER_HEIGHT, intrinsic_width, intrinsic_height),
        },
    };
    let th: u128 = match constraint.height {
        Some(ch) => ch as u128,
        None => match constraint.width {
            Some(cw) => scaled_dim(cw, intrinsic_height, intrinsic_width),
            None => DEFAULT_RASTER_HEIGHT as u128,
        },
    };
    if tw == 0 || tw > u32::MAX as u128 || th == 0 || th > u32::MAX as u128 {
        return Err(SizeError::InvalidTargetSize);
    }
    let target = TargetDimensions { width: tw as u32, height: th as u32 };
    let scale = ScaleFactors {
        x_num: target.width,
        x_den: intrinsic_width,
        y_num: target.height,
        y_den: intrinsic_height,
    };
    Ok((target, scale))
}

/// The rounded quotient lands within half a divisor of the exact product:
/// `2 * round_div(p, d) * d` lies in `(2p - d, 2p + d]`.
proof fn lemma_round_div_close(p: int, d: int)
    requires
        p >= 0,
        d > 0,
    ensures
        2 * (round_div(p, d) * d) <= 2 * p + d,
        2 * p < 2 * (round_div(p, d) * d) + d,
{
    let a = 2 * p + d;
    let b = 2 * d;
    lemma_fundamental_div_mod(a, b);
    lemma_mod_bound(a, b);
    let q = a / b;
    let r = a % b;
    assert((2 * d) * q == 2 * (q * d)) by (nonlinear_arith);
    assert(2 * (q * d) == a - r);
}

/// Aspect preservation under a width-only constraint: the resolved height
/// keeps the output ratio `tw : th` within one rounding step of the intrinsic
/// ratio `w : h`, stated by cross-multiplication: `|th*w - tw*h| <= w / 2`.
pub proof fn lemma_width_only_preserves_aspect(w: int, h: int, c: SizeConstraint)
    requires
        w > 0,
        h > 0,
        c.width is Some,
        c.height is None,
    ensures
        ({
            let tw = spec_target_width(w, h, c);
            let th = spec_target_height(w, h, c);
            &&& tw == c.width.unwrap() as int
            &&& th == round_div(tw * h, w)
            &&& 2 * (th * w) <= 2 * (tw * h) + w
            &&& 2 * (tw * h) < 2 * (th * w) + w
        }),
{
    let tw = spec_target_width(w, h, c);
    assert(tw * h >= 0) by (nonlinear_arith)
        requires
            tw >= 0,
            h > 0,
    ;
    lemma_round_div_close(tw * h, w);
}

/// Aspect preservation under a height-only constraint, symmetric to the
/// width-only law: `|tw*h - th*w| <= h / 2` by cross-multiplication.
pub proof fn lemma_height_only_preserves_aspect(w: int, h: int, c: SizeConstraint)
    requires
        w > 0,
        h > 0,
        c.width is None,
        c.height is Some,
    ensures
        ({
            let tw = spec_target_width(w, h, c);
            let th = spec_target_height(w, h, c);
            &&& th == c.height.unwrap() as int
            &&& tw == round_div(th * w, h)
            &&& 2 * (tw * h) <= 2 * (th * w) + h
            &&& 2 * (th * w) < 2 * (tw * h) + h
        }),
{
    let th = spec_target_height(w, h, c);
    assert(th * w >= 0) by (nonlinear_arith)
        requires
            th >= 0,
            w > 0,
    ;
    lemma_round_div_close(th * w, h);
}

/// With no constraint at all, the height is exactly the default and the
/// width follows aspect preservation on the height axis, with the same
/// one-rounding-step bound on the output ratio.
pub proof fn lemma_unconstrained_preserves_aspect(w: int, h: int, c: SizeConstraint)
    requires
        w > 0,
        h > 0,
        c.width is None,
        c.height is None,
    ensures
        ({
            let tw = spec_target_width(w, h, c);
            let th = spec_target_height(w, h, c);
            &&& th == DEFAULT_RASTER_HEIGHT as int
            &&& tw == round_div(th * w, h)
            &&& 2 * (tw * h) <= 2 * (th * w) + h
            &&& 2 * (th * w) < 2 * (tw * h) + h
        }),
{
    let th = spec_target_height(w, h, c);
    assert(th * w >= 0) by (nonlinear_arith)
        requires
            th >= 0,
            w > 0,
    ;
    lemma_round_div_close(th * w, h);
}

} // verus!
