//! The geometry-transforming nodes: style setters, repetition, circular
//! repetition, bounding box, arc-length resampling, spline fitting, and
//! point instancing. Each one's behaviour is pinned by a `_post` predicate
//! over the scene's mathematical view.

use vstd::prelude::*;
use vstd::arithmetic::div_mod::lemma_fundamental_div_mod_converse;
use crate::geometry::{
    Real, add_of, sub_of, splat_of, xy_of, half_of, muln_of, compose_of, inverse_of,
    translation_of, rotation_of, point_xform_of, vector_xform_of, radd_of, rsub_of, rmul_of,
    rdiv_of, rrem_of, rround_of, rfloor_of, rle_of, rge_of, rfinite_of, rrad_of, to_u64_of,
    vec_add, vec_sub, vec_half, vec_from_reals, vec_scale_n, affine_mul, affine_inverse,
    affine_from_translation, affine_from_angle, affine_transform_point, affine_transform_vector,
    real_add, real_sub, real_mul, real_div, real_rem, real_round, real_floor, real_le, real_ge,
    real_is_finite, real_to_radians, real_from_u64, real_to_u64,
};
use crate::path::{
    Path, anchors_of, closed_of, length_of, eval_of, xformed_of, from_anchors_of, spline_of,
    rect_of,
};
use crate::scene::{
    VectorData, VdView, Color, Fill, FillType, Gradient, GradientView, GradientType, FillView,
    Stroke, StrokeView, LineCap, LineJoin, NodeError, scene_bbox_spec, from_subpaths_view,
    ConcatElement, Instanceable,
};

verus! {

// --- style setters ---

/// The fill a fill-setting request builds: for a plain request the solid
/// colour if one is present and no fill otherwise, the gradient parameters
/// ignored; for a gradient request the gradient built from them, the solid
/// colour ignored.
pub open spec fn requested_fill(
    fill_type: FillType,
    solid_color: Option<Color>,
    gradient_type: GradientType,
    start: glam::DVec2,
    end: glam::DVec2,
    transform: glam::DAffine2,
    positions: Seq<(Real, Option<Color>)>,
) -> FillView {
    match fill_type {
        FillType::NoFill | FillType::Solid => match solid_color {
            Some(c) => FillView::Solid(c),
            None => FillView::NoFill,
        },
        FillType::Gradient => FillView::Gradient(
            GradientView { gradient_type, start, end, transform, positions },
        ),
    }
}

/// Replace the scene's fill as the request asks; everything else is kept.
pub fn set_vector_data_fill(
    vector_data: VectorData,
    fill_type: FillType,
    solid_color: Option<Color>,
    gradient_type: GradientType,
    start: glam::DVec2,
    end: glam::DVec2,
    transform: glam::DAffine2,
    positions: Vec<(Real, Option<Color>)>,
) -> (r: VectorData)
    ensures
        r@.style.fill == requested_fill(
            fill_type,
            solid_color,
            gradient_type,
            start,
            end,
            transform,
            positions@,
        ),
        r@.style.stroke == vector_data@.style.stroke,
        r@.subpaths == vector_data@.subpaths,
        r@.transform == vector_data@.transform,
        r@.mirror_angle == vector_data@.mirror_angle,
        r@.alpha_blending == vector_data@.alpha_blending,
{
    let mut vector_data = vector_data;
    let fill = match fill_type {
        FillType::NoFill | FillType::Solid => match solid_color {
            Some(c) => Fill::Solid(c),
            None => Fill::NoFill,
        },
        FillType::Gradient => Fill::Gradient(
            Gradient { gradient_type, start, end, transform, positions },
        ),
    };
    vector_data.style.set_fill(fill);
    vector_data
}

/// The stroke a stroke-setting request stores, every field taken as given.
pub open spec fn requested_stroke(
    color: Option<Color>,
    weight: Real,
    dash_lengths: Seq<Real>,
    dash_offset: Real,
    line_cap: LineCap,
    line_join: LineJoin,
    miter_limit: Real,
) -> StrokeView {
    StrokeView {
        color,
        weight,
        dash_lengths,
        dash_offset,
        line_cap,
        line_join,
        line_join_miter_limit: miter_limit,
    }
}

/// Replace the scene's stroke wholesale; everything else is kept.
pub fn set_vector_data_stroke(
    vector_data: VectorData,
    color: Option<Color>,
    weight: Real,
    dash_lengths: Vec<Real>,
    dash_offset: Real,
    line_cap: LineCap,
    line_join: LineJoin,
    miter_limit: Real,
) -> (r: VectorData)
    ensures
        r@.style.stroke == Some(
            requested_stroke(
                color,
                weight,
                dash_lengths@,
                dash_offset,
                line_cap,
                line_join,
                miter_limit,
            ),
        ),
        r@.style.fill == vector_data@.style.fill,
        r@.subpaths == vector_data@.subpaths,
        r@.transform == vector_data@.transform,
        r@.mirror_angle == vector_data@.mirror_angle,
        r@.alpha_blending == vector_data@.alpha_blending,
{
    let mut vector_data = vector_data;
    vector_data.style.set_stroke(
        Stroke {
            color,
            weight,
            dash_lengths,
            dash_offset,
            line_cap,
            line_join,
            line_join_miter_limit: miter_limit,
        },
    );
    vector_data
}

// --- repeat ---

/// Copy `i` of path `j` under repetition: copy zero is the path itself, and
/// copy `i` is the path translated `i` steps along the direction mapped into
/// the scene's local space.
pub open spec fn repeat_copy(v: VdView, direction: glam::DVec2, i: int, j: int) -> Path {
    if i == 0 {
        v.subpaths[j]
    } else {
        xformed_of(
            v.subpaths[j],
            translation_of(muln_of(vector_xform_of(inverse_of(v.transform), direction), i as u32)),
        )
    }
}

/// The whole repeated path list: `count * n` paths, element `k` being copy
/// `k / n` of path `k % n`.
pub open spec fn repeat_target(v: VdView, direction: glam::DVec2, count: u32) -> Seq<Path> {
    Seq::new(
        (count * v.subpaths.len()) as nat,
        |k: int| repeat_copy(
            v,
            direction,
            k / (v.subpaths.len() as int),
            k % (v.subpaths.len() as int),
        ),
    )
}

/// What repetition leaves behind: `count` copies of every path, grouped by
/// translation index, everything else kept.
pub open spec fn repeat_post(v: VdView, direction: glam::DVec2, count: u32, r: VdView) -> bool {
    &&& r.subpaths == repeat_target(v, direction, count)
    &&& r.transform == v.transform
    &&& r.style == v.style
    &&& r.mirror_angle == v.mirror_angle
    &&& r.alpha_blending == v.alpha_blending
}

/// Produce `count` copies of every path, copy `i` translated by `i` steps of
/// `direction` measured in the caller's space; a count of zero empties the
/// path set.
pub fn repeat_vector_data(vector_data: VectorData, direction: glam::DVec2, count: u32) -> (r:
    VectorData)
    ensures
        repeat_post(vector_data@, direction, count, r@),
{
    let n = vector_data.subpaths.len();
    let ghost target = repeat_target(vector_data@, direction, count);
    let inverse = affine_inverse(vector_data.transform);
    let local_direction = affine_transform_vector(inverse, direction);
    let mut new_subpaths: Vec<Path> = Vec::new();
    let mut i: u32 = 0;
    while i < count
        invariant
            i <= count,
            n == vector_data.subpaths@.len(),
            local_direction == vector_xform_of(inverse_of(vector_data@.transform), direction),
            target == repeat_target(vector_data@, direction, count),
            target.len() == count * n,
            new_subpaths@.len() == i * n,
            new_subpaths@ =~= target.take((i * n) as int),
        decreases count - i,
    {
        let step = affine_from_translation(vec_scale_n(local_direction, i));
        let mut j: usize = 0;
        while j < n
            invariant
                i < count,
                j <= n,
                n == vector_data.subpaths@.len(),
                step == translation_of(
                    muln_of(vector_xform_of(inverse_of(vector_data@.transform), direction), i),
                ),
                target == repeat_target(vector_data@, direction, count),
                target.len() == count * n,
                new_subpaths@.len() == i * n + j,
                new_subpaths@ =~= target.take((i * n + j) as int),
            decreases n - j,
        {
            let mut p = vector_data.subpaths[j].clone();
            if i > 0 {
                p.apply_transform(step);
            }
            let ghost k: int = i * n + j;
            proof {
                assert(k < count * n) by (nonlinear_arith)
                    requires
                        i < count,
                        j < n,
                        k == i * n + j,
                ;
                lemma_fundamental_div_mod_converse(k, n as int, i as int, j as int);
                assert(target[k] == repeat_copy(vector_data@, direction, i as int, j as int));
                assert(p == repeat_copy(vector_data@, direction, i as int, j as int));
            }
            new_subpaths.push(p);
            proof {
                assert(target.take(k + 1) =~= target.take(k).push(target[k]));
            }
            j = j + 1;
        }
        proof {
            assert((i + 1) * n == i * n + n) by (nonlinear_arith);
        }
        i = i + 1;
    }
    proof {
        assert(new_subpaths@ =~= target.take(target.len() as int));
        assert(new_subpaths@ =~= target);
    }
    let r = VectorData {
        subpaths: new_subpaths,
        transform: vector_data.transform,
        style: vector_data.style,
        mirror_angle: vector_data.mirror_angle,
        alpha_blending: vector_data.alpha_blending,
    };
    r
}

// --- circular repeat ---

/// The rotation of copy `i` out of `count`: an even share of the full turn
/// plus the requested offset, taken in degrees and turned into radians.
pub open spec fn circ_rotation(i: int, count: u32, angle_offset: glam::DVec2) -> glam::DAffine2 {
    rotation_of(
        rrad_of(
            radd_of(
                rdiv_of(rmul_of(splat_of(360), splat_of(i as u64)), splat_of(count as u64)),
                angle_offset,
            ),
        ),
    )
}

/// The placement of copy `i`: the base point `(0, radius) - center` rotated
/// by the copy's angle and carried back to the bounding-box center.
pub open spec fn circ_transform(
    center: glam::DVec2,
    radius: glam::DVec2,
    i: int,
    count: u32,
    angle_offset: glam::DVec2,
) -> glam::DAffine2 {
    compose_of(
        compose_of(translation_of(center), circ_rotation(i, count, angle_offset)),
        translation_of(sub_of(xy_of(splat_of(0), radius), center)),
    )
}

/// The whole circularly repeated path list: `count * n` paths, element `k`
/// being path `k % n` placed as copy `k / n`.
pub open spec fn circ_target(
    v: VdView,
    center: glam::DVec2,
    radius: glam::DVec2,
    count: u32,
    angle_offset: glam::DVec2,
) -> Seq<Path> {
    Seq::new(
        (count * v.subpaths.len()) as nat,
        |k: int| xformed_of(
            v.subpaths[k % (v.subpaths.len() as int)],
            circ_transform(
                center,
                radius,
                k / (v.subpaths.len() as int),
                count,
                angle_offset,
            ),
        ),
    )
}

/// What circular repetition leaves behind when the scene has an extent: the
/// copies placed about the bounding-box center, everything else kept.
pub open spec fn circular_ok_post(
    v: VdView,
    angle_offset: glam::DVec2,
    radius: glam::DVec2,
    count: u32,
    r: VdView,
) -> bool {
    let b = scene_bbox_spec(v.subpaths);
    let center = half_of(add_of(b->Some_0.0, b->Some_0.1));
    &&& r.subpaths == circ_target(v, center, radius, count, angle_offset)
    &&& r.transform == v.transform
    &&& r.style == v.style
    &&& r.mirror_angle == v.mirror_angle
    &&& r.alpha_blending == v.alpha_blending
}

/// Place `count` copies of every path around a circle of `radius` about the
/// scene's bounding-box center; fail when the box cannot be computed.
pub fn circular_repeat_vector_data(
    vector_data: VectorData,
    angle_offset: Real,
    radius: Real,
    count: u32,
) -> (r: Result<VectorData, NodeError>)
    ensures
        match r {
            Ok(out) => scene_bbox_spec(vector_data@.subpaths) is Some && circular_ok_post(
                vector_data@,
                angle_offset.v,
                radius.v,
                count,
                out@,
            ),
            Err(e) => scene_bbox_spec(vector_data@.subpaths) is None && e
                == NodeError::MissingBoundingBox,
        },
{
    let n = vector_data.subpaths.len();
    let bbox = vector_data.bounding_box();
    let (lo, hi) = match bbox {
        Some(b) => b,
        None => {
            return Err(NodeError::MissingBoundingBox);
        },
    };
    let center = vec_half(vec_add(lo, hi));
    let ghost target = circ_target(vector_data@, center, radius.v, count, angle_offset.v);
    let zero = real_from_u64(0);
    let base = vec_sub(vec_from_reals(zero, radius), center);
    let full_turn = real_from_u64(360);
    let count_real = real_from_u64(count as u64);
    let mut new_subpaths: Vec<Path> = Vec::new();
    let mut i: u32 = 0;
    while i < count
        invariant
            i <= count,
            n == vector_data.subpaths@.len(),
            center == half_of(add_of(lo, hi)),
            base == sub_of(xy_of(splat_of(0), radius.v), center),
            full_turn.v == splat_of(360),
            count_real.v == splat_of(count as u64),
            target == circ_target(vector_data@, center, radius.v, count, angle_offset.v),
            target.len() == count * n,
            new_subpaths@.len() == i * n,
            new_subpaths@ =~= target.take((i * n) as int),
        decreases count - i,
    {
        let ir = real_from_u64(i as u64);
        let angle = real_to_radians(
            real_add(real_div(real_mul(full_turn, ir), count_real), angle_offset),
        );
        let rotation = affine_from_angle(angle);
        let placement = affine_mul(
            affine_mul(affine_from_translation(center), rotation),
            affine_from_translation(base),
        );
        assert(placement == circ_transform(center, radius.v, i as int, count, angle_offset.v));
        let mut j: usize = 0;
        while j < n
            invariant
                i < count,
                j <= n,
                n == vector_data.subpaths@.len(),
                placement == circ_transform(center, radius.v, i as int, count, angle_offset.v),
                target == circ_target(vector_data@, center, radius.v, count, angle_offset.v),
                target.len() == count * n,
                new_subpaths@.len() == i * n + j,
                new_subpaths@ =~= target.take((i * n + j) as int),
            decreases n - j,
        {
            let mut p = vector_data.subpaths[j].clone();
            p.apply_transform(placement);
            let ghost k: int = i * n + j;
            proof {
                assert(k < count * n) by (nonlinear_arith)
                    requires
                        i < count,
                        j < n,
                        k == i * n + j,
                ;
                lemma_fundamental_div_mod_converse(k, n as int, i as int, j as int);
                assert(target[k] == xformed_of(
                    vector_data@.subpaths[j as int],
                    circ_transform(center, radius.v, i as int, count, angle_offset.v),
                ));
            }
            new_subpaths.push(p);
            proof {
                assert(target.take(k + 1) =~= target.take(k).push(target[k]));
            }
            j = j + 1;
        }
        proof {
            assert((i + 1) * n == i * n + n) by (nonlinear_arith);
        }
        i = i + 1;
    }
    proof {
        assert(new_subpaths@ =~= target.take(target.len() as int));
        assert(new_subpaths@ =~= target);
    }
    let out = VectorData {
        subpaths: new_subpaths,
        transform: vector_data.transform,
        style: vector_data.style,
        mirror_angle: vector_data.mirror_angle,
        alpha_blending: vector_data.alpha_blending,
    };
    Ok(out)
}

// --- bounding box ---

/// What the bounding-box node emits when the scene has an extent: a fresh
/// scene holding one rectangle spanning the transformed box corners.
pub open spec fn bounding_box_ok_post(v: VdView, r: VdView) -> bool {
    let b = scene_bbox_spec(v.subpaths);
    r == from_subpaths_view(
        seq![
            rect_of(
                point_xform_of(v.transform, b->Some_0.0),
                point_xform_of(v.transform, b->Some_0.1),
            ),
        ],
    )
}

/// Emit one rectangular path spanning the scene's bounding box in world
/// space, with an otherwise default scene; fail when the box cannot be
/// computed.
pub fn generate_bounding_box(vector_data: VectorData) -> (r: Result<VectorData, NodeError>)
    ensures
        match r {
            Ok(out) => scene_bbox_spec(vector_data@.subpaths) is Some && bounding_box_ok_post(
                vector_data@,
                out@,
            ),
            Err(e) => scene_bbox_spec(vector_data@.subpaths) is None && e
                == NodeError::MissingBoundingBox,
        },
{
    let bbox = vector_data.bounding_box();
    let (lo, hi) = match bbox {
        Some(b) => b,
        None => {
            return Err(NodeError::MissingBoundingBox);
        },
    };
    let c1 = affine_transform_point(vector_data.transform, lo);
    let c2 = affine_transform_point(vector_data.transform, hi);
    let mut rects: Vec<Path> = Vec::new();
    rects.push(Path::rect(c1, c2));
    let out = VectorData::from_subpaths(rects);
    proof {
        assert(out@.subpaths =~= seq![rect_of(c1, c2)]);
        assert(out@ =~= from_subpaths_view(seq![rect_of(c1, c2)]));
    }
    Ok(out)
}

// --- sample points ---

/// The guard under which a path is left untouched before any measuring:
/// fewer than two anchors, so there is nothing to walk along, or a spacing
/// that is not a finite positive number.
pub open spec fn sampling_degenerate(p: Path, spacing: glam::DVec2) -> bool {
    ||| anchors_of(p).len() < 2
    ||| !rfinite_of(spacing)
    ||| rle_of(spacing, splat_of(0))
}

/// The guard against floating-point truncation at exact multiples of the
/// spacing: the machine epsilon, one part in two to the fifty-second.
pub open spec fn epsilon_spec() -> glam::DVec2 {
    rdiv_of(splat_of(1), splat_of(4503599627370496))
}

/// The sample count: in adaptive mode the rounded quotient of the used
/// length by the spacing, otherwise its floor nudged by the epsilon guard.
pub open spec fn count_real_of(used: glam::DVec2, spacing: glam::DVec2, adaptive: bool) -> glam::DVec2 {
    if adaptive {
        rround_of(rdiv_of(used, spacing))
    } else {
        rfloor_of(radd_of(rdiv_of(used, spacing), epsilon_spec()))
    }
}

/// The global arc-length parameter of sample `c` of `cr`: the ratio scaled
/// onto the effective used length, shifted by the start offset, normalised
/// by the whole length.
pub open spec fn sample_t(
    c: u64,
    cr: glam::DVec2,
    used_here: glam::DVec2,
    start: glam::DVec2,
    len: glam::DVec2,
) -> glam::DVec2 {
    rdiv_of(radd_of(rmul_of(rdiv_of(splat_of(c), cr), used_here), start), len)
}

/// What resampling leaves of one path: the path itself when it is skipped,
/// otherwise the `count + 1` straight-line samples taken in world space and
/// carried back into local space, closed only if the original was closed and
/// more than one sample was produced.
pub open spec fn sample_one(
    p: Path,
    m: glam::DAffine2,
    spacing: glam::DVec2,
    start: glam::DVec2,
    stop: glam::DVec2,
    adaptive: bool,
) -> Path {
    if sampling_degenerate(p, spacing) {
        p
    } else {
        let w = xformed_of(p, m);
        let len = length_of(w);
        let used = rsub_of(rsub_of(len, start), stop);
        if rle_of(used, splat_of(0)) {
            p
        } else {
            let cr = count_real_of(used, spacing, adaptive);
            if !rge_of(cr, splat_of(1)) {
                p
            } else {
                let n = to_u64_of(cr);
                let used_here = if adaptive {
                    used
                } else {
                    rsub_of(used, rrem_of(used, spacing))
                };
                let pts = Seq::new(
                    (n + 1) as nat,
                    |c: int| eval_of(w, sample_t(c as u64, cr, used_here, start, len)),
                );
                xformed_of(from_anchors_of(pts, closed_of(p) && n > 1), inverse_of(m))
            }
        }
    }
}

/// What resampling leaves behind: every path replaced by its own resampling,
/// everything else kept.
pub open spec fn sample_post(
    v: VdView,
    spacing: Real,
    start_offset: Real,
    stop_offset: Real,
    adaptive: bool,
    r: VdView,
) -> bool {
    &&& r.subpaths.len() == v.subpaths.len()
    &&& (forall|i: int|
        #![trigger r.subpaths[i]]
        0 <= i < v.subpaths.len() ==> r.subpaths[i] == sample_one(
            v.subpaths[i],
            v.transform,
            spacing.v,
            start_offset.v,
            stop_offset.v,
            adaptive,
        ))
    &&& r.transform == v.transform
    &&& r.style == v.style
    &&& r.mirror_angle == v.mirror_angle
    &&& r.alpha_blending == v.alpha_blending
}

/// The machine epsilon as a carried real.
pub fn epsilon() -> (r: Real)
    ensures
        r.v == epsilon_spec(),
{
    real_div(real_from_u64(1), real_from_u64(4503599627370496))
}

/// Resample every path at an arc-length spacing: adaptive mode widens or
/// narrows the effective spacing so the last sample lands at the far usable
/// end, fixed mode keeps the exact spacing and usually falls short.
pub fn sample_points(
    vector_data: VectorData,
    spacing: Real,
    start_offset: Real,
    stop_offset: Real,
    adaptive_spacing: bool,
) -> (r: VectorData)
    ensures
        sample_post(vector_data@, spacing, start_offset, stop_offset, adaptive_spacing, r@),
{
    let zero = real_from_u64(0);
    let one = real_from_u64(1);
    let eps = epsilon();
    let mut new_subpaths: Vec<Path> = Vec::new();
    let mut idx: usize = 0;
    while idx < vector_data.subpaths.len()
        invariant
            idx <= vector_data.subpaths.len(),
            zero.v == splat_of(0),
            one.v == splat_of(1),
            eps.v == epsilon_spec(),
            new_subpaths@.len() == idx,
            forall|k: int|
                #![trigger new_subpaths@[k]]
                0 <= k < idx ==> new_subpaths@[k] == sample_one(
                    vector_data@.subpaths[k],
                    vector_data@.transform,
                    spacing.v,
                    start_offset.v,
                    stop_offset.v,
                    adaptive_spacing,
                ),
        decreases vector_data.subpaths.len() - idx,
    {
        let p = &vector_data.subpaths[idx];
        let n_anchors = p.anchor_count();
        let closed = p.closed();
        if n_anchors < 2 || !real_is_finite(spacing) || real_le(spacing, zero) {
            new_subpaths.push(p.clone());
        } else {
            let mut world = p.clone();
            world.apply_transform(vector_data.transform);
            let length = world.length();
            let used = real_sub(real_sub(length, start_offset), stop_offset);
            if real_le(used, zero) {
                new_subpaths.push(p.clone());
            } else {
                let count_r = if adaptive_spacing {
                    real_round(real_div(used, spacing))
                } else {
                    real_floor(real_add(real_div(used, spacing), eps))
                };
                if !real_ge(count_r, one) {
                    new_subpaths.push(p.clone());
                } else {
                    let n = real_to_u64(count_r);
                    let used_here = if adaptive_spacing {
                        used
                    } else {
                        real_sub(used, real_rem(used, spacing))
                    };
                    let ghost target = Seq::new(
                        (n + 1) as nat,
                        |c: int| eval_of(
                            world,
                            sample_t(c as u64, count_r.v, used_here.v, start_offset.v, length.v),
                        ),
                    );
                    let mut pts: Vec<glam::DVec2> = Vec::new();
                    let mut c: u64 = 0;
                    loop
                        invariant_except_break
                            pts@.len() == c,
                            pts@ =~= target.take(c as int),
                        invariant
                            c <= n,
                            world == xformed_of(vector_data@.subpaths[idx as int], vector_data@.transform),
                            anchors_of(world).len() >= 2,
                            count_r.v == count_real_of(used.v, spacing.v, adaptive_spacing),
                            n == to_u64_of(count_r.v),
                            target == Seq::new(
                                (n + 1) as nat,
                                |cc: int| eval_of(
                                    world,
                                    sample_t(
                                        cc as u64,
                                        count_r.v,
                                        used_here.v,
                                        start_offset.v,
                                        length.v,
                                    ),
                                ),
                            ),
                        ensures
                            pts@ =~= target,
                        decreases n - c,
                    {
                        let cr = real_from_u64(c);
                        let ratio = real_div(cr, count_r);
                        let t = real_div(real_add(real_mul(ratio, used_here), start_offset), length);
                        let sample = world.evaluate(t);
                        pts.push(sample);
                        assert(pts@ =~= target.take(c as int + 1));
                        if c == n {
                            assert(pts@ =~= target);
                            break;
                        }
                        c = c + 1;
                    }
                    let new_closed = closed && n > 1;
                    let mut sampled = Path::from_anchors(&pts, new_closed);
                    sampled.apply_transform(affine_inverse(vector_data.transform));
                    new_subpaths.push(sampled);
                    assert(new_subpaths@[idx as int] == sample_one(
                        vector_data@.subpaths[idx as int],
                        vector_data@.transform,
                        spacing.v,
                        start_offset.v,
                        stop_offset.v,
                        adaptive_spacing,
                    ));
                }
            }
        }
        idx = idx + 1;
    }
    let r = VectorData {
        subpaths: new_subpaths,
        transform: vector_data.transform,
        style: vector_data.style,
        mirror_angle: vector_data.mirror_angle,
        alpha_blending: vector_data.alpha_blending,
    };
    r
}

// --- splines from points ---

/// What spline fitting leaves behind: every path replaced by the open cubic
/// spline through its own anchors, everything else kept. The fit is a pure
/// function of the anchors: it keeps them when there are at least two and
/// yields the one empty open curve otherwise.
pub open spec fn splines_post(v: VdView, r: VdView) -> bool {
    &&& r.subpaths.len() == v.subpaths.len()
    &&& (forall|i: int|
        #![trigger r.subpaths[i]]
        0 <= i < v.subpaths.len() ==> {
            let a = anchors_of(v.subpaths[i]);
            &&& r.subpaths[i] == spline_of(a)
            &&& closed_of(r.subpaths[i]) == false
            &&& anchors_of(r.subpaths[i]) == (if a.len() < 2 {
                Seq::<glam::DVec2>::empty()
            } else {
                a
            })
            &&& (a.len() < 2 ==> r.subpaths[i] == spline_of(Seq::<glam::DVec2>::empty()))
        })
    &&& r.transform == v.transform
    &&& r.style == v.style
    &&& r.mirror_angle == v.mirror_angle
    &&& r.alpha_blending == v.alpha_blending
}

/// Replace every path with a smooth cubic spline interpolating the same
/// ordered anchors.
pub fn splines_from_points(vector_data: VectorData) -> (r: VectorData)
    ensures
        splines_post(vector_data@, r@),
{
    let mut new_subpaths: Vec<Path> = Vec::new();
    let mut idx: usize = 0;
    while idx < vector_data.subpaths.len()
        invariant
            idx <= vector_data.subpaths.len(),
            new_subpaths@.len() == idx,
            forall|k: int|
                #![trigger new_subpaths@[k]]
                0 <= k < idx ==> {
                    let a = anchors_of(vector_data@.subpaths[k]);
                    &&& new_subpaths@[k] == spline_of(a)
                    &&& closed_of(new_subpaths@[k]) == false
                    &&& anchors_of(new_subpaths@[k]) == (if a.len() < 2 {
                        Seq::<glam::DVec2>::empty()
                    } else {
                        a
                    })
                    &&& (a.len() < 2 ==> new_subpaths@[k] == spline_of(
                        Seq::<glam::DVec2>::empty(),
                    ))
                },
        decreases vector_data.subpaths.len() - idx,
    {
        let anchors = vector_data.subpaths[idx].anchors();
        new_subpaths.push(Path::cubic_spline(&anchors));
        idx = idx + 1;
    }
    let r = VectorData {
        subpaths: new_subpaths,
        transform: vector_data.transform,
        style: vector_data.style,
        mirror_angle: vector_data.mirror_angle,
        alpha_blending: vector_data.alpha_blending,
    };
    r
}

// --- copy to points ---

/// All anchors of a path sequence, in path order then within-path order.
pub open spec fn scene_anchors(paths: Seq<Path>) -> Seq<glam::DVec2>
    decreases paths.len(),
{
    if paths.len() == 0 {
        Seq::empty()
    } else {
        scene_anchors(paths.drop_last()) + anchors_of(paths.last())
    }
}

/// The translation offset instancing uses: the instance's reported offset,
/// or zero when it has no computable box.
pub open spec fn instance_offset(c: Option<glam::DVec2>) -> glam::DVec2 {
    match c {
        Some(v) => v,
        None => splat_of(0),
    }
}

/// The chain of merges instancing performs: starting from `acc`, one merge
/// of the instance per anchor, each under the translation that carries the
/// instance's center onto the anchor's world position.
pub open spec fn merge_chain<I: ConcatElement>(
    acc: I::V,
    instance: I::V,
    offset: glam::DVec2,
    points_transform: glam::DAffine2,
    anchors: Seq<glam::DVec2>,
    result: I::V,
) -> bool
    decreases anchors.len(),
{
    if anchors.len() == 0 {
        result == acc
    } else {
        exists|mid: I::V|
            #![trigger I::concat_post(acc, instance, translation_of(add_of(point_xform_of(points_transform, anchors[0]), offset)), mid)]
            I::concat_post(
                acc,
                instance,
                translation_of(add_of(point_xform_of(points_transform, anchors[0]), offset)),
                mid,
            ) && merge_chain::<I>(
                mid,
                instance,
                offset,
                points_transform,
                anchors.drop_first(),
                result,
            )
    }
}

/// Extending a merge chain by one more anchor at its end.
proof fn lemma_merge_chain_snoc<I: ConcatElement>(
    acc: I::V,
    instance: I::V,
    offset: glam::DVec2,
    points_transform: glam::DAffine2,
    anchors: Seq<glam::DVec2>,
    mid: I::V,
    next: glam::DVec2,
    result: I::V,
)
    requires
        merge_chain::<I>(acc, instance, offset, points_transform, anchors, mid),
        I::concat_post(
            mid,
            instance,
            translation_of(add_of(point_xform_of(points_transform, next), offset)),
            result,
        ),
    ensures
        merge_chain::<I>(acc, instance, offset, points_transform, anchors.push(next), result),
    decreases anchors.len(),
{
    if anchors.len() == 0 {
        assert(anchors.push(next)[0] == next);
        assert(anchors.push(next).drop_first() =~= Seq::<glam::DVec2>::empty());
        assert(merge_chain::<I>(
            result,
            instance,
            offset,
            points_transform,
            anchors.push(next).drop_first(),
            result,
        ));
        assert(I::concat_post(
            acc,
            instance,
            translation_of(add_of(point_xform_of(points_transform, anchors.push(next)[0]), offset)),
            result,
        ));
    } else {
        let step = choose|m: I::V|
            #![trigger I::concat_post(acc, instance, translation_of(add_of(point_xform_of(points_transform, anchors[0]), offset)), m)]
            I::concat_post(
                acc,
                instance,
                translation_of(add_of(point_xform_of(points_transform, anchors[0]), offset)),
                m,
            ) && merge_chain::<I>(m, instance, offset, points_transform, anchors.drop_first(), mid);
        lemma_merge_chain_snoc::<I>(
            step,
            instance,
            offset,
            points_transform,
            anchors.drop_first(),
            mid,
            next,
            result,
        );
        assert(anchors.push(next)[0] == anchors[0]);
        assert(anchors.push(next).drop_first() =~= anchors.drop_first().push(next));
        assert(merge_chain::<I>(
            step,
            instance,
            offset,
            points_transform,
            anchors.push(next).drop_first(),
            result,
        ));
        assert(I::concat_post(
            acc,
            instance,
            translation_of(add_of(point_xform_of(points_transform, anchors.push(next)[0]), offset)),
            step,
        ));
    }
}

/// Merge one copy of the instance at every anchor of the points scene, in
/// anchor-enumeration order, each copy translated so the instance's center
/// lands on the anchor's world position; the accumulation starts from the
/// instance type's empty value.
pub fn copy_to_points<I: Instanceable>(points: &VectorData, instance: &I) -> (r: I)
    ensures
        exists|c: Option<glam::DVec2>, e: I::V|
            #![trigger I::center_offset_post(instance@, c), I::empty_post(e)]
            I::center_offset_post(instance@, c) && I::empty_post(e) && merge_chain::<I>(
                e,
                instance@,
                instance_offset(c),
                points@.transform,
                scene_anchors(points@.subpaths),
                r@,
            ),
{
    let mut anchors: Vec<glam::DVec2> = Vec::new();
    let mut k: usize = 0;
    while k < points.subpaths.len()
        invariant
            k <= points.subpaths.len(),
            anchors@ =~= scene_anchors(points.subpaths@.take(k as int)),
        decreases points.subpaths.len() - k,
    {
        let mut a = points.subpaths[k].anchors();
        anchors.append(&mut a);
        proof {
            assert(points.subpaths@.take(k + 1).drop_last() =~= points.subpaths@.take(k as int));
            assert(points.subpaths@.take(k + 1).last() == points.subpaths@[k as int]);
        }
        k = k + 1;
    }
    assert(points.subpaths@.take(points.subpaths@.len() as int) =~= points.subpaths@);
    let ghost all = scene_anchors(points@.subpaths);
    assert(anchors@ =~= all);

    let centered = instance.center_offset();
    let offset = match centered {
        Some(v) => v,
        None => real_from_u64(0).v,
    };
    assert(offset == instance_offset(centered));

    let mut result = I::empty();
    let ghost start = result@;
    let mut m: usize = 0;
    while m < anchors.len()
        invariant
            m <= anchors.len(),
            anchors@ =~= all,
            offset == instance_offset(centered),
            I::center_offset_post(instance@, centered),
            I::empty_post(start),
            merge_chain::<I>(
                start,
                instance@,
                offset,
                points@.transform,
                all.take(m as int),
                result@,
            ),
        decreases anchors.len() - m,
    {
        let world_point = affine_transform_point(points.transform, anchors[m]);
        let placement = affine_from_translation(vec_add(world_point, offset));
        let ghost before = result@;
        result.concat(instance, placement);
        proof {
            lemma_merge_chain_snoc::<I>(
                start,
                instance@,
                offset,
                points@.transform,
                all.take(m as int),
                before,
                all[m as int],
                result@,
            );
            assert(all.take(m + 1) =~= all.take(m as int).push(all[m as int]));
        }
        m = m + 1;
    }
    assert(all.take(all.len() as int) =~= all);
    result
}

// --- the nodes as values ---

/// The fill-setting node, holding its request.
pub struct SetFillNode {
    pub fill_type: FillType,
    pub solid_color: Option<Color>,
    pub gradient_type: GradientType,
    pub start: glam::DVec2,
    pub end: glam::DVec2,
    pub transform: glam::DAffine2,
    pub positions: Vec<(Real, Option<Color>)>,
}

impl SetFillNode {
    /// Apply the held request to a scene.
    pub fn eval(&self, vector_data: VectorData) -> (r: VectorData)
        ensures
            r@.style.fill == requested_fill(
                self.fill_type,
                self.solid_color,
                self.gradient_type,
                self.start,
                self.end,
                self.transform,
                self.positions@,
            ),
            r@.style.stroke == vector_data@.style.stroke,
            r@.subpaths == vector_data@.subpaths,
            r@.transform == vector_data@.transform,
            r@.mirror_angle == vector_data@.mirror_angle,
            r@.alpha_blending == vector_data@.alpha_blending,
    {
        set_vector_data_fill(
            vector_data,
            self.fill_type,
            self.solid_color,
            self.gradient_type,
            self.start,
            self.end,
            self.transform,
            crate::copy_vec(&self.positions),
        )
    }
}

/// The stroke-setting node, holding its request.
pub struct SetStrokeNode {
    pub color: Option<Color>,
    pub weight: Real,
    pub dash_lengths: Vec<Real>,
    pub dash_offset: Real,
    pub line_cap: LineCap,
    pub line_join: LineJoin,
    pub miter_limit: Real,
}

impl SetStrokeNode {
    /// Apply the held request to a scene.
    pub fn eval(&self, vector_data: VectorData) -> (r: VectorData)
        ensures
            r@.style.stroke == Some(
                requested_stroke(
                    self.color,
                    self.weight,
                    self.dash_lengths@,
                    self.dash_offset,
                    self.line_cap,
                    self.line_join,
                    self.miter_limit,
                ),
            ),
            r@.style.fill == vector_data@.style.fill,
            r@.subpaths == vector_data@.subpaths,
            r@.transform == vector_data@.transform,
            r@.mirror_angle == vector_data@.mirror_angle,
            r@.alpha_blending == vector_data@.alpha_blending,
    {
        set_vector_data_stroke(
            vector_data,
            self.color,
            self.weight,
            crate::copy_vec(&self.dash_lengths),
            self.dash_offset,
            self.line_cap,
            self.line_join,
            self.miter_limit,
        )
    }
}

/// The repetition node, holding direction and count.
pub struct RepeatNode {
    pub direction: glam::DVec2,
    pub count: u32,
}

impl RepeatNode {
    /// Repeat a scene's paths.
    pub fn eval(&self, vector_data: VectorData) -> (r: VectorData)
        ensures
            repeat_post(vector_data@, self.direction, self.count, r@),
    {
        repeat_vector_data(vector_data, self.direction, self.count)
    }
}

/// The circular repetition node, holding offset, radius and count.
pub struct CircularRepeatNode {
    pub angle_offset: Real,
    pub radius: Real,
    pub count: u32,
}

impl CircularRepeatNode {
    /// Place copies of a scene's paths around a circle.
    pub fn eval(&self, vector_data: VectorData) -> (r: Result<VectorData, NodeError>)
        ensures
            match r {
                Ok(out) => scene_bbox_spec(vector_data@.subpaths) is Some && circular_ok_post(
                    vector_data@,
                    self.angle_offset.v,
                    self.radius.v,
                    self.count,
                    out@,
                ),
                Err(e) => scene_bbox_spec(vector_data@.subpaths) is None && e
                    == NodeError::MissingBoundingBox,
            },
    {
        circular_repeat_vector_data(vector_data, self.angle_offset, self.radius, self.count)
    }
}

/// The bounding-box node.
pub struct BoundingBoxNode;

impl BoundingBoxNode {
    /// Emit the scene's bounding rectangle.
    pub fn eval(&self, vector_data: VectorData) -> (r: Result<VectorData, NodeError>)
        ensures
            match r {
                Ok(out) => scene_bbox_spec(vector_data@.subpaths) is Some && bounding_box_ok_post(
                    vector_data@,
                    out@,
                ),
                Err(e) => scene_bbox_spec(vector_data@.subpaths) is None && e
                    == NodeError::MissingBoundingBox,
            },
    {
        generate_bounding_box(vector_data)
    }
}

/// The instancing node; its upstream dependencies are evaluated by the
/// surrounding scheduler, which hands the materialised values here.
pub struct CopyToPoints;

impl CopyToPoints {
    /// Merge one instance copy at every anchor of the points scene.
    pub fn eval<I: Instanceable>(&self, points: &VectorData, instance: &I) -> (r: I)
        ensures
            exists|c: Option<glam::DVec2>, e: I::V|
                #![trigger I::center_offset_post(instance@, c), I::empty_post(e)]
                I::center_offset_post(instance@, c) && I::empty_post(e) && merge_chain::<I>(
                    e,
                    instance@,
                    instance_offset(c),
                    points@.transform,
                    scene_anchors(points@.subpaths),
                    r@,
                ),
    {
        copy_to_points(points, instance)
    }
}

/// The resampling node, holding spacing, offsets and mode.
pub struct SamplePoints {
    pub spacing: Real,
    pub start_offset: Real,
    pub stop_offset: Real,
    pub adaptive_spacing: bool,
}

impl SamplePoints {
    /// Resample every path of a scene at the held spacing.
    pub fn eval(&self, vector_data: VectorData) -> (r: VectorData)
        ensures
            sample_post(
                vector_data@,
                self.spacing,
                self.start_offset,
                self.stop_offset,
                self.adaptive_spacing,
                r@,
            ),
    {
        sample_points(
            vector_data,
            self.spacing,
            self.start_offset,
            self.stop_offset,
            self.adaptive_spacing,
        )
    }
}

/// The spline-fitting node.
pub struct SplinesFromPointsNode {}

impl SplinesFromPointsNode {
    /// Replace every path with the cubic spline through its anchors.
    pub fn eval(&self, vector_data: VectorData) -> (r: VectorData)
        ensures
            splines_post(vector_data@, r@),
    {
        splines_from_points(vector_data)
    }
}

} // verus!
