//! One path of the scene: an ordered run of anchors joined by curve
//! segments, open or closed. The curve representation lives in bezier_rs
//! and is kept opaque; contracts speak of a path through the names below.

use vstd::prelude::*;
use crate::geometry::{Real, point_xform_of};

verus! {

/// The identifier carried by every anchor; the library never tells anchors
/// apart by id.
#[derive(Clone, Copy, PartialEq, Eq, Hash, Debug)]
pub struct AnchorId;

impl bezier_rs::Identifier for AnchorId {
    fn new() -> Self {
        AnchorId
    }
}

/// A path. The held curve is opaque to the verifier.
#[verifier::external_body]
pub struct Path {
    inner: bezier_rs::Subpath<AnchorId>,
}

/// The ordered anchor positions of a path, as `Subpath::anchors` lists them.
pub uninterp spec fn anchors_of(p: Path) -> Seq<glam::DVec2>;

/// Whether the path is closed, as `Subpath::closed` reports.
pub uninterp spec fn closed_of(p: Path) -> bool;

/// The total arc length of a path, as `Subpath::length` approximates it.
pub uninterp spec fn length_of(p: Path) -> glam::DVec2;

/// The point of a path at a global arc-length parameter, as
/// `Subpath::evaluate` computes it after the parameter is clamped into [0, 1].
pub uninterp spec fn eval_of(p: Path, t: glam::DVec2) -> glam::DVec2;

/// A path with an affine map applied to every manipulator point, as
/// `Subpath::apply_transform` leaves it.
pub uninterp spec fn xformed_of(p: Path, m: glam::DAffine2) -> Path;

/// The path `Subpath::from_anchors` builds: the given anchors joined by
/// straight segments.
pub uninterp spec fn from_anchors_of(anchors: Seq<glam::DVec2>, closed: bool) -> Path;

/// The path `Subpath::new_cubic_spline` builds: a smooth open curve through
/// the given points.
pub uninterp spec fn spline_of(points: Seq<glam::DVec2>) -> Path;

/// The closed rectangle `Subpath::new_rect` builds from two corners.
pub uninterp spec fn rect_of(c1: glam::DVec2, c2: glam::DVec2) -> Path;

/// The lower corner of `Subpath::bounding_box`, defined where the path has a
/// segment.
pub uninterp spec fn bbox_lo_of(p: Path) -> glam::DVec2;

/// The lower corner of `Subpath::bounding_box_with_transform`.
pub uninterp spec fn bboxt_lo_of(p: Path, m: glam::DAffine2) -> glam::DVec2;

/// The upper corner of `Subpath::bounding_box_with_transform`.
pub uninterp spec fn bboxt_hi_of(p: Path, m: glam::DAffine2) -> glam::DVec2;

/// The upper corner of `Subpath::bounding_box`, defined where the path has a
/// segment.
pub uninterp spec fn bbox_hi_of(p: Path) -> glam::DVec2;

/// A path has at least one curve segment: an open path needs two anchors, a
/// closed one is a loop already at one.
pub open spec fn has_segments(p: Path) -> bool {
    if closed_of(p) {
        anchors_of(p).len() >= 1
    } else {
        anchors_of(p).len() >= 2
    }
}

impl Path {
    /// Relies on `Subpath::len`: one manipulator group per anchor.
    #[verifier::external_body]
    pub fn anchor_count(&self) -> (r: usize)
        ensures
            r == anchors_of(*self).len(),
    {
        self.inner.len()
    }

    /// Relies on `Subpath::closed`.
    #[verifier::external_body]
    pub fn closed(&self) -> (r: bool)
        ensures
            r == closed_of(*self),
    {
        self.inner.closed()
    }

    /// Relies on `Subpath::anchors`: the anchor of each group, in order.
    #[verifier::external_body]
    pub fn anchors(&self) -> (r: Vec<glam::DVec2>)
        ensures
            r@ == anchors_of(*self),
    {
        self.inner.anchors()
    }

    /// Relies on `Subpath::apply_transform`: every manipulator point is
    /// mapped through `m`; the closed flag and the anchor count are kept and
    /// each anchor is mapped as a point.
    #[verifier::external_body]
    pub fn apply_transform(&mut self, m: glam::DAffine2)
        ensures
            *final(self) == xformed_of(*old(self), m),
            closed_of(*final(self)) == closed_of(*old(self)),
            anchors_of(*final(self)).len() == anchors_of(*old(self)).len(),
            forall|i: int|
                0 <= i < anchors_of(*old(self)).len() ==> anchors_of(*final(self))[i]
                    == point_xform_of(m, anchors_of(*old(self))[i]),
    {
        self.inner.apply_transform(m);
    }

    /// Relies on `Subpath::length`, summed over the default subdivision.
    #[verifier::external_body]
    pub fn length(&self) -> (r: Real)
        ensures
            r.v == length_of(*self),
    {
        Real { v: glam::DVec2::splat(self.inner.length(None)) }
    }

    /// Relies on `Subpath::evaluate` at a global euclidean parameter; the
    /// carried parameter is clamped into the valid domain [0, 1] first, so
    /// the call is defined for every carried value. The path must hold at
    /// least two anchors: a lone closed anchor is a loop of no length, on
    /// which the arc-length solver is not defined.
    #[verifier::external_body]
    pub fn evaluate(&self, t: Real) -> (r: glam::DVec2)
        requires
            anchors_of(*self).len() >= 2,
        ensures
            r == eval_of(*self, t.v),
    {
        let clamped = t.v.clamp(glam::DVec2::ZERO, glam::DVec2::ONE).x;
        self.inner.evaluate(bezier_rs::SubpathTValue::GlobalEuclidean(clamped))
    }

    /// Relies on `Subpath::from_anchors`: one manipulator group per anchor,
    /// in order. A closed subpath must hold more than one anchor.
    #[verifier::external_body]
    pub fn from_anchors(anchors: &Vec<glam::DVec2>, closed: bool) -> (r: Path)
        requires
            closed ==> anchors@.len() > 1,
        ensures
            r == from_anchors_of(anchors@, closed),
            anchors_of(r) == anchors@,
            closed_of(r) == closed,
    {
        Path { inner: bezier_rs::Subpath::from_anchors(anchors.iter().copied(), closed) }
    }

    /// Relies on `Subpath::new_cubic_spline`: an open curve through the given
    /// points in order; fewer than two points yield the one empty open path.
    #[verifier::external_body]
    pub fn cubic_spline(points: &Vec<glam::DVec2>) -> (r: Path)
        ensures
            r == spline_of(points@),
            closed_of(r) == false,
            points@.len() >= 2 ==> anchors_of(r) == points@,
            points@.len() < 2 ==> anchors_of(r) == Seq::<glam::DVec2>::empty(),
            points@.len() < 2 ==> r == spline_of(Seq::<glam::DVec2>::empty()),
    {
        Path { inner: bezier_rs::Subpath::new_cubic_spline(points.iter().copied().collect()) }
    }

    /// Relies on `Subpath::new_rect`: a closed path of the four corner
    /// anchors, starting at `c1`, with `c2` diagonally opposite.
    #[verifier::external_body]
    pub fn rect(c1: glam::DVec2, c2: glam::DVec2) -> (r: Path)
        ensures
            r == rect_of(c1, c2),
            closed_of(r) == true,
            anchors_of(r).len() == 4,
            anchors_of(r)[0] == c1,
            anchors_of(r)[2] == c2,
    {
        Path { inner: bezier_rs::Subpath::new_rect(c1, c2) }
    }

    /// Relies on `Subpath::bounding_box`: the folded min and max corners over
    /// the path's segments, absent exactly when the path has no segment.
    #[verifier::external_body]
    pub fn bounding_box(&self) -> (r: Option<(glam::DVec2, glam::DVec2)>)
        ensures
            match r {
                Some(b) => has_segments(*self) && b.0 == bbox_lo_of(*self) && b.1
                    == bbox_hi_of(*self),
                None => !has_segments(*self),
            },
    {
        match self.inner.bounding_box() {
            Some(c) => Some((c[0], c[1])),
            None => None,
        }
    }
    /// Relies on `Subpath::bounding_box_with_transform`: the folded corners
    /// over the path's segments mapped through `m`, absent exactly when the
    /// path has no segment.
    #[verifier::external_body]
    pub fn bounding_box_with_transform(&self, m: glam::DAffine2) -> (r: Option<
        (glam::DVec2, glam::DVec2),
    >)
        ensures
            match r {
                Some(b) => has_segments(*self) && b.0 == bboxt_lo_of(*self, m) && b.1
                    == bboxt_hi_of(*self, m),
                None => !has_segments(*self),
            },
    {
        match self.inner.bounding_box_with_transform(m) {
            Some(c) => Some((c[0], c[1])),
            None => None,
        }
    }
}

impl Clone for Path {
    /// Relies on the derived `Clone` of `Subpath`: a field-for-field copy.
    #[verifier::external_body]
    fn clone(&self) -> (r: Self)
        ensures
            r == *self,
    {
        Path { inner: self.inner.clone() }
    }
}

} // verus!
