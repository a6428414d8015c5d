//! The laws the library states of its own operations, proved from the
//! nodes' contracts alone.

use vstd::prelude::*;
use vstd::arithmetic::div_mod::lemma_fundamental_div_mod_converse;
use crate::geometry::{add_of, translation_of, point_xform_of};
use crate::path::{Path, anchors_of, spline_of};
use crate::scene::{VdView, VectorData, ConcatElement, vd_concat_post};
use crate::nodes::{repeat_post, repeat_copy, splines_post, merge_chain};

verus! {

/// Repetition with count `n` yields exactly `n` times as many paths, so a
/// count of zero yields an empty path set.
pub proof fn lemma_repeat_count(v: VdView, direction: glam::DVec2, count: u32, r: VdView)
    requires
        repeat_post(v, direction, count, r),
    ensures
        r.subpaths.len() == count * v.subpaths.len(),
        count == 0 ==> r.subpaths =~= Seq::<Path>::empty(),
{
    if count == 0 {
        assert(count * v.subpaths.len() == 0) by (nonlinear_arith)
            requires
                count == 0,
        ;
        assert(r.subpaths.len() == 0);
    }
}

/// Repetition with count one yields the original paths unchanged in
/// position: copy zero is the identity copy.
pub proof fn lemma_repeat_identity(v: VdView, direction: glam::DVec2, r: VdView)
    requires
        repeat_post(v, direction, 1, r),
    ensures
        r.subpaths =~= v.subpaths,
{
    let n = v.subpaths.len() as int;
    assert(r.subpaths.len() == 1 * v.subpaths.len());
    assert forall|k: int| 0 <= k < n implies r.subpaths[k] == v.subpaths[k] by {
        lemma_fundamental_div_mod_converse(k, n, 0, k);
        assert(r.subpaths[k] == repeat_copy(v, direction, 0, k));
    }
}

/// Concatenation under any transform grows the path list by exactly the
/// other scene's path count, and the mirror-angle list by exactly the other
/// scene's annotation count.
pub proof fn lemma_concat_counts(a: VdView, b: VdView, m: glam::DAffine2, post: VdView)
    requires
        vd_concat_post(a, b, m, post),
    ensures
        post.subpaths.len() == a.subpaths.len() + b.subpaths.len(),
        post.mirror_angle.len() == a.mirror_angle.len() + b.mirror_angle.len(),
{
}

/// Instancing over `k` anchors accumulates exactly `k` copies of the
/// instance: the merged scene holds the starting path count plus `k` times
/// the instance's path count.
pub proof fn lemma_copy_to_points_count(
    acc: VdView,
    instance: VdView,
    offset: glam::DVec2,
    points_transform: glam::DAffine2,
    anchors: Seq<glam::DVec2>,
    r: VdView,
)
    requires
        merge_chain::<VectorData>(acc, instance, offset, points_transform, anchors, r),
    ensures
        r.subpaths.len() == acc.subpaths.len() + anchors.len() * instance.subpaths.len(),
    decreases anchors.len(),
{
    if anchors.len() == 0 {
        assert(0 * instance.subpaths.len() == 0) by (nonlinear_arith);
    } else {
        let t = translation_of(add_of(point_xform_of(points_transform, anchors[0]), offset));
        let mid = choose|mid: VdView|
            #![trigger VectorData::concat_post(acc, instance, t, mid)]
            VectorData::concat_post(acc, instance, t, mid) && merge_chain::<VectorData>(
                mid,
                instance,
                offset,
                points_transform,
                anchors.drop_first(),
                r,
            );
        lemma_copy_to_points_count(
            mid,
            instance,
            offset,
            points_transform,
            anchors.drop_first(),
            r,
        );
        assert((anchors.len() - 1) * instance.subpaths.len() + instance.subpaths.len()
            == anchors.len() * instance.subpaths.len()) by (nonlinear_arith);
    }
}

/// Spline fitting is idempotent: fitting the anchors the first fit produced
/// yields the same curves again, since the fit is a pure function of its
/// input points.
pub proof fn lemma_splines_idempotent(v: VdView, r1: VdView, r2: VdView)
    requires
        splines_post(v, r1),
        splines_post(r1, r2),
    ensures
        r2.subpaths =~= r1.subpaths,
{
    assert forall|i: int| 0 <= i < r1.subpaths.len() implies r2.subpaths[i] == r1.subpaths[i] by {
        let a = anchors_of(v.subpaths[i]);
        if a.len() < 2 {
            assert(r1.subpaths[i] == spline_of(Seq::<glam::DVec2>::empty()));
            assert(anchors_of(r1.subpaths[i]) =~= Seq::<glam::DVec2>::empty());
            assert(r2.subpaths[i] == spline_of(Seq::<glam::DVec2>::empty()));
        } else {
            assert(anchors_of(r1.subpaths[i]) == a);
            assert(r2.subpaths[i] == spline_of(a));
        }
    }
}

} // verus!
