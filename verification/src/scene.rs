//! The vector scene data model: paint style, the scene value that flows
//! through the nodes, its mathematical view, and the transform-aware merge
//! capability shared with hierarchical groups.

use vstd::prelude::*;
use crate::copy_vec;
use crate::geometry::{
    Real, add_of, min_of, max_of, neg_half_of, identity_spec, compose_of, vec_add, vec_min,
    vec_max, vec_neg_half, affine_identity, affine_mul, real_from_u64, splat_of,
};
use crate::path::{Path, has_segments, bbox_lo_of, bbox_hi_of, bboxt_lo_of, bboxt_hi_of, xformed_of};

verus! {

/// An RGBA colour, each channel a carried real.
#[derive(Clone, Copy)]
pub struct Color {
    pub red: Real,
    pub green: Real,
    pub blue: Real,
    pub alpha: Real,
}

/// Which kind of fill a fill-setting request asks for.
#[derive(Clone, Copy)]
pub enum FillType {
    NoFill,
    Solid,
    Gradient,
}

/// The two gradient shapes the style model knows.
#[derive(Clone, Copy)]
pub enum GradientType {
    Linear,
    Radial,
}

/// A gradient fill: a type, two reference points, a transform, and ordered
/// stop positions with optional colours.
pub struct Gradient {
    pub gradient_type: GradientType,
    pub start: glam::DVec2,
    pub end: glam::DVec2,
    pub transform: glam::DAffine2,
    pub positions: Vec<(Real, Option<Color>)>,
}

/// The mathematical value of a gradient.
#[verifier::ext_equal]
pub ghost struct GradientView {
    pub gradient_type: GradientType,
    pub start: glam::DVec2,
    pub end: glam::DVec2,
    pub transform: glam::DAffine2,
    pub positions: Seq<(Real, Option<Color>)>,
}

impl View for Gradient {
    type V = GradientView;

    open spec fn view(&self) -> GradientView {
        GradientView {
            gradient_type: self.gradient_type,
            start: self.start,
            end: self.end,
            transform: self.transform,
            positions: self.positions@,
        }
    }
}

impl Clone for Gradient {
    fn clone(&self) -> (r: Self)
        ensures
            r@ == self@,
    {
        let r = Gradient {
            gradient_type: self.gradient_type,
            start: self.start,
            end: self.end,
            transform: self.transform,
            positions: copy_vec(&self.positions),
        };
        assert(r@ =~= self@);
        r
    }
}

/// A fill: nothing, one colour, or a gradient.
pub enum Fill {
    NoFill,
    Solid(Color),
    Gradient(Gradient),
}

/// The mathematical value of a fill.
#[verifier::ext_equal]
pub ghost enum FillView {
    NoFill,
    Solid(Color),
    Gradient(GradientView),
}

impl View for Fill {
    type V = FillView;

    open spec fn view(&self) -> FillView {
        match self {
            Fill::NoFill => FillView::NoFill,
            Fill::Solid(c) => FillView::Solid(*c),
            Fill::Gradient(g) => FillView::Gradient(g@),
        }
    }
}

impl Clone for Fill {
    fn clone(&self) -> (r: Self)
        ensures
            r@ == self@,
    {
        match self {
            Fill::NoFill => Fill::NoFill,
            Fill::Solid(c) => Fill::Solid(*c),
            Fill::Gradient(g) => Fill::Gradient(g.clone()),
        }
    }
}

/// How a stroke ends.
#[derive(Clone, Copy)]
pub enum LineCap {
    Butt,
    Round,
    Square,
}

/// How two stroke segments join.
#[derive(Clone, Copy)]
pub enum LineJoin {
    Miter,
    Bevel,
    Round,
}

/// A stroke: optional colour, weight, dash pattern, cap, join and miter limit.
pub struct Stroke {
    pub color: Option<Color>,
    pub weight: Real,
    pub dash_lengths: Vec<Real>,
    pub dash_offset: Real,
    pub line_cap: LineCap,
    pub line_join: LineJoin,
    pub line_join_miter_limit: Real,
}

/// The mathematical value of a stroke.
#[verifier::ext_equal]
pub ghost struct StrokeView {
    pub color: Option<Color>,
    pub weight: Real,
    pub dash_lengths: Seq<Real>,
    pub dash_offset: Real,
    pub line_cap: LineCap,
    pub line_join: LineJoin,
    pub line_join_miter_limit: Real,
}

impl View for Stroke {
    type V = StrokeView;

    open spec fn view(&self) -> StrokeView {
        StrokeView {
            color: self.color,
            weight: self.weight,
            dash_lengths: self.dash_lengths@,
            dash_offset: self.dash_offset,
            line_cap: self.line_cap,
            line_join: self.line_join,
            line_join_miter_limit: self.line_join_miter_limit,
        }
    }
}

impl Clone for Stroke {
    fn clone(&self) -> (r: Self)
        ensures
            r@ == self@,
    {
        let r = Stroke {
            color: self.color,
            weight: self.weight,
            dash_lengths: copy_vec(&self.dash_lengths),
            dash_offset: self.dash_offset,
            line_cap: self.line_cap,
            line_join: self.line_join,
            line_join_miter_limit: self.line_join_miter_limit,
        };
        assert(r@ =~= self@);
        r
    }
}

/// The paint appearance of a scene: a fill and an optional stroke, each
/// replaced wholesale by its setter.
pub struct PathStyle {
    pub fill: Fill,
    pub stroke: Option<Stroke>,
}

/// The mathematical value of a style.
#[verifier::ext_equal]
pub ghost struct StyleView {
    pub fill: FillView,
    pub stroke: Option<StrokeView>,
}

impl View for PathStyle {
    type V = StyleView;

    open spec fn view(&self) -> StyleView {
        StyleView {
            fill: self.fill@,
            stroke: match self.stroke {
                Some(s) => Some(s@),
                None => None,
            },
        }
    }
}

impl Clone for PathStyle {
    fn clone(&self) -> (r: Self)
        ensures
            r@ == self@,
    {
        let stroke = match &self.stroke {
            Some(s) => Some(s.clone()),
            None => None,
        };
        let r = PathStyle { fill: self.fill.clone(), stroke };
        assert(r@ =~= self@);
        r
    }
}

/// The style a fresh scene carries: no fill, no stroke.
pub open spec fn default_style_view() -> StyleView {
    StyleView { fill: FillView::NoFill, stroke: None }
}

impl PathStyle {
    /// Replace the fill, leaving the stroke alone.
    pub fn set_fill(&mut self, fill: Fill)
        ensures
            final(self)@.fill == fill@,
            final(self)@.stroke == old(self)@.stroke,
    {
        self.fill = fill;
    }

    /// Replace the stroke wholesale, leaving the fill alone.
    pub fn set_stroke(&mut self, stroke: Stroke)
        ensures
            final(self)@.stroke == Some(stroke@),
            final(self)@.fill == old(self)@.fill,
    {
        self.stroke = Some(stroke);
    }
}

/// How a scene or group is blended over what lies beneath it.
#[derive(Clone, Copy)]
pub enum BlendMode {
    Normal,
    Multiply,
    Screen,
}

/// The alpha-blending descriptor: a blend mode and an opacity.
#[derive(Clone, Copy)]
pub struct AlphaBlending {
    pub blend_mode: BlendMode,
    pub opacity: Real,
}

impl AlphaBlending {
    /// Normal blending at full opacity.
    pub fn normal() -> (r: AlphaBlending)
        ensures
            r.blend_mode == BlendMode::Normal,
            r.opacity.v == splat_of(1),
    {
        AlphaBlending { blend_mode: BlendMode::Normal, opacity: real_from_u64(1) }
    }
}

/// The failure a geometry node reports when a scene has no computable extent.
#[derive(Clone, Copy, PartialEq, Eq, Structural, Debug)]
pub enum NodeError {
    MissingBoundingBox,
}

/// The primary value flowing through the nodes: an ordered sequence of
/// paths, a style, a local-to-parent transform, a per-path mirror-angle
/// annotation list, and an alpha-blending descriptor.
pub struct VectorData {
    pub subpaths: Vec<Path>,
    pub transform: glam::DAffine2,
    pub style: PathStyle,
    pub mirror_angle: Vec<Real>,
    pub alpha_blending: AlphaBlending,
}

/// The mathematical value of a scene.
#[verifier::ext_equal]
pub ghost struct VdView {
    pub subpaths: Seq<Path>,
    pub transform: glam::DAffine2,
    pub style: StyleView,
    pub mirror_angle: Seq<Real>,
    pub alpha_blending: AlphaBlending,
}

impl View for VectorData {
    type V = VdView;

    open spec fn view(&self) -> VdView {
        VdView {
            subpaths: self.subpaths@,
            transform: self.transform,
            style: self.style@,
            mirror_angle: self.mirror_angle@,
            alpha_blending: self.alpha_blending,
        }
    }
}

impl Clone for VectorData {
    fn clone(&self) -> (r: Self)
        ensures
            r@ == self@,
    {
        let mut subpaths: Vec<Path> = Vec::new();
        let mut i: usize = 0;
        while i < self.subpaths.len()
            invariant
                i <= self.subpaths.len(),
                subpaths@ =~= self.subpaths@.take(i as int),
            decreases self.subpaths.len() - i,
        {
            subpaths.push(self.subpaths[i].clone());
            assert(self.subpaths@.take(i + 1) =~= self.subpaths@.take(i as int).push(
                self.subpaths@[i as int],
            ));
            i = i + 1;
        }
        assert(subpaths@ =~= self.subpaths@);
        let r = VectorData {
            subpaths,
            transform: self.transform,
            style: self.style.clone(),
            mirror_angle: copy_vec(&self.mirror_angle),
            alpha_blending: self.alpha_blending,
        };
        assert(r@ =~= self@);
        r
    }
}

/// The view a scene built from bare paths has: default style and blending,
/// identity transform, no annotations.
pub open spec fn from_subpaths_view(subpaths: Seq<Path>) -> VdView {
    VdView {
        subpaths: subpaths,
        transform: identity_spec(),
        style: default_style_view(),
        mirror_angle: Seq::empty(),
        alpha_blending: AlphaBlending {
            blend_mode: BlendMode::Normal,
            opacity: splat_of_real(1),
        },
    }
}

/// The carried real with a whole-number value, as a spec value.
pub open spec fn splat_of_real(n: u64) -> Real {
    Real { v: splat_of(n) }
}

impl VectorData {
    /// A scene over the given paths with the default style, identity
    /// transform, and empty annotations.
    pub fn from_subpaths(subpaths: Vec<Path>) -> (r: VectorData)
        ensures
            r@ == from_subpaths_view(subpaths@),
    {
        let r = VectorData {
            subpaths,
            transform: affine_identity(),
            style: PathStyle { fill: Fill::NoFill, stroke: None },
            mirror_angle: Vec::new(),
            alpha_blending: AlphaBlending {
                blend_mode: BlendMode::Normal,
                opacity: real_from_u64(1),
            },
        };
        assert(r@ =~= from_subpaths_view(r.subpaths@));
        r
    }
}

// The scene bounding box: the folded min and max corners over the paths
// that have any extent, in local space or under a transform.

/// Join two optional boxes: the corners folded componentwise, an absent box
/// ignored.
pub open spec fn bbox_join(
    a: Option<(glam::DVec2, glam::DVec2)>,
    b: Option<(glam::DVec2, glam::DVec2)>,
) -> Option<(glam::DVec2, glam::DVec2)> {
    match (a, b) {
        (Some(x), Some(y)) => Some((min_of(x.0, y.0), max_of(x.1, y.1))),
        (Some(x), None) => Some(x),
        (None, y) => y,
    }
}

/// The box of one path in local space, absent when it has no segment.
pub open spec fn path_bbox_spec(p: Path) -> Option<(glam::DVec2, glam::DVec2)> {
    if has_segments(p) {
        Some((bbox_lo_of(p), bbox_hi_of(p)))
    } else {
        None
    }
}

/// The box of one path under a transform, absent when it has no segment.
pub open spec fn path_bboxt_spec(p: Path, m: glam::DAffine2) -> Option<(glam::DVec2, glam::DVec2)> {
    if has_segments(p) {
        Some((bboxt_lo_of(p, m), bboxt_hi_of(p, m)))
    } else {
        None
    }
}

/// The folded local-space box of a path sequence.
pub open spec fn scene_bbox_spec(paths: Seq<Path>) -> Option<(glam::DVec2, glam::DVec2)>
    decreases paths.len(),
{
    if paths.len() == 0 {
        None
    } else {
        bbox_join(scene_bbox_spec(paths.drop_last()), path_bbox_spec(paths.last()))
    }
}

/// The folded box of a path sequence under a transform.
pub open spec fn world_bbox_spec(paths: Seq<Path>, m: glam::DAffine2) -> Option<
    (glam::DVec2, glam::DVec2),
>
    decreases paths.len(),
{
    if paths.len() == 0 {
        None
    } else {
        bbox_join(world_bbox_spec(paths.drop_last(), m), path_bboxt_spec(paths.last(), m))
    }
}

impl VectorData {
    /// The axis-aligned bounding box of all paths in local (pre-transform)
    /// space, absent when no path has any extent.
    pub fn bounding_box(&self) -> (r: Option<(glam::DVec2, glam::DVec2)>)
        ensures
            r == scene_bbox_spec(self@.subpaths),
    {
        let mut acc: Option<(glam::DVec2, glam::DVec2)> = None;
        let mut i: usize = 0;
        while i < self.subpaths.len()
            invariant
                i <= self.subpaths.len(),
                acc == scene_bbox_spec(self.subpaths@.take(i as int)),
            decreases self.subpaths.len() - i,
        {
            let b = self.subpaths[i].bounding_box();
            acc = match (acc, b) {
                (Some(x), Some(y)) => Some((vec_min(x.0, y.0), vec_max(x.1, y.1))),
                (Some(x), None) => Some(x),
                (None, y) => y,
            };
            assert(self.subpaths@.take(i + 1).drop_last() =~= self.subpaths@.take(i as int));
            assert(self.subpaths@.take(i + 1).last() == self.subpaths@[i as int]);
            i = i + 1;
        }
        assert(self.subpaths@.take(self.subpaths@.len() as int) =~= self.subpaths@);
        acc
    }

    /// The axis-aligned bounding box of all paths under the given transform,
    /// absent when no path has any extent.
    pub fn bounding_box_with_transform(&self, m: glam::DAffine2) -> (r: Option<
        (glam::DVec2, glam::DVec2),
    >)
        ensures
            r == world_bbox_spec(self@.subpaths, m),
    {
        let mut acc: Option<(glam::DVec2, glam::DVec2)> = None;
        let mut i: usize = 0;
        while i < self.subpaths.len()
            invariant
                i <= self.subpaths.len(),
                acc == world_bbox_spec(self.subpaths@.take(i as int), m),
            decreases self.subpaths.len() - i,
        {
            let b = self.subpaths[i].bounding_box_with_transform(m);
            acc = match (acc, b) {
                (Some(x), Some(y)) => Some((vec_min(x.0, y.0), vec_max(x.1, y.1))),
                (Some(x), None) => Some(x),
                (None, y) => y,
            };
            assert(self.subpaths@.take(i + 1).drop_last() =~= self.subpaths@.take(i as int));
            assert(self.subpaths@.take(i + 1).last() == self.subpaths@[i as int]);
            i = i + 1;
        }
        assert(self.subpaths@.take(self.subpaths@.len() as int) =~= self.subpaths@);
        acc
    }
}

/// The merge capability shared by flat scene data and hierarchical groups:
/// fold `other` into `self` under an extra transform. Each implementation
/// pins the merged value through `concat_post` over its mathematical view.
pub trait ConcatElement: View + Sized {
    /// What `concat` leaves behind, over the views of the values involved.
    spec fn concat_post(pre: Self::V, other: Self::V, transform: glam::DAffine2, post: Self::V) -> bool;

    /// Fold `other` into `self` under `transform`.
    fn concat(&mut self, other: &Self, transform: glam::DAffine2)
        ensures
            Self::concat_post(old(self)@, other@, transform, final(self)@),
    ;
}

/// What merging scene data leaves behind: every path of `other` is baked
/// through `transform` composed with `other`'s transform and appended;
/// the style and blending are overwritten by `other`'s, the mirror-angle
/// list is extended, and `self`'s own paths and transform are kept.
pub open spec fn vd_concat_post(
    pre: VdView,
    other: VdView,
    transform: glam::DAffine2,
    post: VdView,
) -> bool {
    &&& post.subpaths.len() == pre.subpaths.len() + other.subpaths.len()
    &&& (forall|j: int| 0 <= j < pre.subpaths.len() ==> post.subpaths[j] == pre.subpaths[j])
    &&& (forall|j: int|
        0 <= j < other.subpaths.len() ==> post.subpaths[pre.subpaths.len() + j] == xformed_of(
            other.subpaths[j],
            compose_of(transform, other.transform),
        ))
    &&& post.transform == pre.transform
    &&& post.style == other.style
    &&& post.mirror_angle == pre.mirror_angle + other.mirror_angle
    &&& post.alpha_blending == other.alpha_blending
}

impl ConcatElement for VectorData {
    open spec fn concat_post(pre: VdView, other: VdView, transform: glam::DAffine2, post: VdView) -> bool {
        vd_concat_post(pre, other, transform, post)
    }

    fn concat(&mut self, other: &Self, transform: glam::DAffine2) {
        let combined = affine_mul(transform, other.transform);
        let ghost pre_len: int = self.subpaths@.len() as int;
        let mut j: usize = 0;
        while j < other.subpaths.len()
            invariant
                j <= other.subpaths.len(),
                pre_len == old(self).subpaths@.len(),
                self.subpaths@.len() == pre_len + j,
                combined == compose_of(transform, other.transform),
                forall|k: int| 0 <= k < pre_len ==> self.subpaths@[k] == old(self).subpaths@[k],
                forall|k: int|
                    #![trigger other.subpaths@[k]]
                    0 <= k < j ==> self.subpaths@[pre_len + k] == xformed_of(
                        other.subpaths@[k],
                        compose_of(transform, other.transform),
                    ),
                self.transform == old(self).transform,
                self.style@ == old(self).style@,
                self.mirror_angle@ == old(self).mirror_angle@,
                self.alpha_blending == old(self).alpha_blending,
            decreases other.subpaths.len() - j,
        {
            let mut p = other.subpaths[j].clone();
            p.apply_transform(combined);
            self.subpaths.push(p);
            j = j + 1;
        }
        self.style = other.style.clone();
        let mut extra = copy_vec(&other.mirror_angle);
        self.mirror_angle.append(&mut extra);
        self.alpha_blending = other.alpha_blending;
        assert(self@.mirror_angle =~= old(self)@.mirror_angle + other@.mirror_angle);
    }
}

/// What an instance merged at sampled points must offer beyond `concat`: an
/// empty starting value and the offset that brings its bounding-box center
/// onto a target point.
pub trait Instanceable: ConcatElement {
    /// What the empty value looks like.
    spec fn empty_post(e: Self::V) -> bool;

    /// What `center_offset` returns, over the view.
    spec fn center_offset_post(this: Self::V, r: Option<glam::DVec2>) -> bool;

    /// The empty value merging starts from.
    fn empty() -> (r: Self)
        ensures
            Self::empty_post(r@),
    ;

    /// Minus half the sum of the bounding-box corners, in the instance's own
    /// space; absent when the instance has no computable box.
    fn center_offset(&self) -> (r: Option<glam::DVec2>)
        ensures
            Self::center_offset_post(self@, r),
    ;
}

impl Instanceable for VectorData {
    open spec fn empty_post(e: VdView) -> bool {
        e == from_subpaths_view(Seq::empty())
    }

    open spec fn center_offset_post(this: VdView, r: Option<glam::DVec2>) -> bool {
        match world_bbox_spec(this.subpaths, this.transform) {
            Some(b) => r == Some(neg_half_of(add_of(b.0, b.1))),
            None => r is None,
        }
    }

    fn empty() -> (r: Self) {
        let r = VectorData::from_subpaths(Vec::new());
        assert(r@.subpaths =~= Seq::<Path>::empty());
        assert(r@ =~= from_subpaths_view(Seq::empty()));
        r
    }

    fn center_offset(&self) -> (r: Option<glam::DVec2>) {
        match self.bounding_box_with_transform(self.transform) {
            Some(b) => Some(vec_neg_half(vec_add(b.0, b.1))),
            None => None,
        }
    }
}

} // verus!
