//! Hierarchical graphic groups: an ordered, transform-bearing container of
//! heterogeneous elements, sharing the merge capability with flat scene
//! data. Merging flattens the other group one level, by design.

use vstd::prelude::*;
use crate::geometry::{
    compose_of, affine_mul, affine_identity, identity_spec, add_of, neg_half_of, vec_add,
    vec_neg_half, real_from_u64, vec_min, vec_max,
};
use crate::scene::{
    VectorData, VdView, AlphaBlending, BlendMode, ConcatElement, Instanceable, bbox_join,
    world_bbox_spec, splat_of_real,
};

verus! {

broadcast use vstd::std_specs::vec::group_vec_axioms;

/// One element of a group: flat scene data or a nested group, each carrying
/// its own transform.
pub enum GraphicElement {
    Vector(VectorData),
    Group(Box<GraphicGroup>),
}

/// An ordered, transform-bearing container of graphic elements.
pub struct GraphicGroup {
    pub elements: Vec<GraphicElement>,
    pub transform: glam::DAffine2,
    pub alpha_blending: AlphaBlending,
}

/// The mathematical value of an element.
#[verifier::ext_equal]
pub ghost enum ElementView {
    Vector(VdView),
    Group(GroupView),
}

/// The mathematical value of a group.
#[verifier::ext_equal]
pub ghost struct GroupView {
    pub elements: Seq<ElementView>,
    pub transform: glam::DAffine2,
    pub alpha_blending: AlphaBlending,
}

/// The value of one element.
pub open spec fn element_view(e: GraphicElement) -> ElementView
    decreases e,
{
    match e {
        GraphicElement::Vector(v) => ElementView::Vector(v@),
        GraphicElement::Group(g) => ElementView::Group(group_view(*g)),
    }
}

/// The values of a run of elements, in order.
pub open spec fn element_views(els: Seq<GraphicElement>) -> Seq<ElementView>
    decreases els,
{
    Seq::new(
        els.len(),
        |i: int|
            if 0 <= i < els.len() {
                element_view(els[i])
            } else {
                vstd::pervasive::arbitrary()
            },
    )
}

/// The value of a group.
pub open spec fn group_view(g: GraphicGroup) -> GroupView
    decreases g,
{
    GroupView {
        elements: element_views(g.elements@),
        transform: g.transform,
        alpha_blending: g.alpha_blending,
    }
}

impl View for GraphicElement {
    type V = ElementView;

    open spec fn view(&self) -> ElementView {
        element_view(*self)
    }
}

impl View for GraphicGroup {
    type V = GroupView;

    open spec fn view(&self) -> GroupView {
        group_view(*self)
    }
}

/// The transform an element value carries.
pub open spec fn element_transform(e: ElementView) -> glam::DAffine2 {
    match e {
        ElementView::Vector(v) => v.transform,
        ElementView::Group(g) => g.transform,
    }
}

/// An element value with only its own transform replaced.
pub open spec fn with_transform(e: ElementView, t: glam::DAffine2) -> ElementView {
    match e {
        ElementView::Vector(v) => ElementView::Vector(VdView { transform: t, ..v }),
        ElementView::Group(g) => ElementView::Group(GroupView { transform: t, ..g }),
    }
}

/// Deep copy of one element.
fn clone_element(e: &GraphicElement) -> (r: GraphicElement)
    ensures
        r@ == e@,
    decreases *e,
{
    match e {
        GraphicElement::Vector(v) => GraphicElement::Vector(v.clone()),
        GraphicElement::Group(g) => GraphicElement::Group(Box::new(clone_group(&**g))),
    }
}

/// Deep copy of a group.
fn clone_group(g: &GraphicGroup) -> (r: GraphicGroup)
    ensures
        r@ == g@,
    decreases *g,
{
    let mut elements: Vec<GraphicElement> = Vec::new();
    let mut i: usize = 0;
    while i < g.elements.len()
        invariant
            i <= g.elements.len(),
            elements@.len() == i,
            forall|k: int|
                #![trigger elements@[k]]
                0 <= k < i ==> element_view(elements@[k]) == element_view(g.elements@[k]),
        decreases g.elements.len() - i,
    {
        elements.push(clone_element(&g.elements[i]));
        i = i + 1;
    }
    let r = GraphicGroup {
        elements,
        transform: g.transform,
        alpha_blending: g.alpha_blending,
    };
    proof {
        assert(r@.elements =~= g@.elements);
        assert(r@ =~= g@);
    }
    r
}

/// What merging groups leaves behind: every element of `other` is appended
/// with its own transform replaced by the composition of the extra
/// transform, its own, and `other`'s; nested structure is flattened one
/// level; the blending descriptor is overwritten.
pub open spec fn group_concat_post(
    pre: GroupView,
    other: GroupView,
    transform: glam::DAffine2,
    post: GroupView,
) -> bool {
    &&& post.elements.len() == pre.elements.len() + other.elements.len()
    &&& (forall|j: int| 0 <= j < pre.elements.len() ==> post.elements[j] == pre.elements[j])
    &&& (forall|j: int|
        #![trigger other.elements[j]]
        0 <= j < other.elements.len() ==> post.elements[pre.elements.len() + j] == with_transform(
            other.elements[j],
            compose_of(compose_of(transform, element_transform(other.elements[j])), other.transform),
        ))
    &&& post.transform == pre.transform
    &&& post.alpha_blending == other.alpha_blending
}

impl ConcatElement for GraphicGroup {
    open spec fn concat_post(
        pre: GroupView,
        other: GroupView,
        transform: glam::DAffine2,
        post: GroupView,
    ) -> bool {
        group_concat_post(pre, other, transform, post)
    }

    fn concat(&mut self, other: &Self, transform: glam::DAffine2) {
        let ghost pre_len: int = self.elements@.len() as int;
        let mut j: usize = 0;
        while j < other.elements.len()
            invariant
                j <= other.elements.len(),
                pre_len == old(self).elements@.len(),
                self.elements@.len() == pre_len + j,
                forall|k: int| 0 <= k < pre_len ==> self.elements@[k] == old(self).elements@[k],
                forall|k: int|
                    #![trigger other.elements@[k]]
                    0 <= k < j ==> element_view(self.elements@[pre_len + k]) == with_transform(
                        element_view(other.elements@[k]),
                        compose_of(
                            compose_of(transform, element_transform(element_view(other.elements@[k]))),
                            other.transform,
                        ),
                    ),
                self.transform == old(self).transform,
                self.alpha_blending == old(self).alpha_blending,
            decreases other.elements.len() - j,
        {
            let element = &other.elements[j];
            let own_transform = match element {
                GraphicElement::Vector(v) => v.transform,
                GraphicElement::Group(g) => g.transform,
            };
            let placed = affine_mul(affine_mul(transform, own_transform), other.transform);
            let new_element = match element {
                GraphicElement::Vector(v) => {
                    let mut c = v.clone();
                    c.transform = placed;
                    proof {
                        assert(c@ =~= (VdView { transform: placed, ..v@ }));
                    }
                    GraphicElement::Vector(c)
                },
                GraphicElement::Group(g) => {
                    let mut c = clone_group(&**g);
                    c.transform = placed;
                    proof {
                        assert(c@ =~= (GroupView { transform: placed, ..(**g)@ }));
                    }
                    GraphicElement::Group(Box::new(c))
                },
            };
            self.elements.push(new_element);
            assert(element_view(self.elements@[pre_len + j as int]) == with_transform(
                element_view(other.elements@[j as int]),
                compose_of(
                    compose_of(transform, element_transform(element_view(other.elements@[j as int]))),
                    other.transform,
                ),
            ));
            j = j + 1;
        }
        self.alpha_blending = other.alpha_blending;
        proof {
            assert forall|k: int| 0 <= k < pre_len implies self@.elements[k] == old(self)@.elements[k] by {
                assert(element_view(self.elements@[k]) == element_view(old(self).elements@[k]));
            }
            assert(group_concat_post(old(self)@, other@, transform, self@));
        }
    }
}

/// The box of one element value under an outer transform: for flat scene
/// data the fold over its paths, for a nested group the fold over its own
/// elements, each under the composition with the carried transform.
pub open spec fn element_bbox_spec(e: ElementView, m: glam::DAffine2) -> Option<
    (glam::DVec2, glam::DVec2),
>
    decreases e,
{
    match e {
        ElementView::Vector(v) => world_bbox_spec(v.subpaths, compose_of(m, v.transform)),
        ElementView::Group(g) => elements_bbox_spec(g.elements, compose_of(m, g.transform)),
    }
}

/// The folded box of a run of element values under an outer transform.
pub open spec fn elements_bbox_spec(els: Seq<ElementView>, m: glam::DAffine2) -> Option<
    (glam::DVec2, glam::DVec2),
>
    decreases els,
{
    if els.len() == 0 {
        None
    } else {
        bbox_join(elements_bbox_spec(els.drop_last(), m), element_bbox_spec(els.last(), m))
    }
}

/// The box of one element under an outer transform.
fn element_bounding_box(e: &GraphicElement, m: glam::DAffine2) -> (r: Option<
    (glam::DVec2, glam::DVec2),
>)
    ensures
        r == element_bbox_spec(e@, m),
    decreases *e,
{
    match e {
        GraphicElement::Vector(v) => v.bounding_box_with_transform(affine_mul(m, v.transform)),
        GraphicElement::Group(g) => elements_bounding_box(&g.elements, affine_mul(m, g.transform)),
    }
}

/// The folded box of a list of elements under an outer transform.
fn elements_bounding_box(els: &Vec<GraphicElement>, m: glam::DAffine2) -> (r: Option<
    (glam::DVec2, glam::DVec2),
>)
    ensures
        r == elements_bbox_spec(element_views(els@), m),
    decreases *els,
{
    let ghost views = element_views(els@);
    let mut acc: Option<(glam::DVec2, glam::DVec2)> = None;
    let mut i: usize = 0;
    while i < els.len()
        invariant
            i <= els.len(),
            views == element_views(els@),
            acc == elements_bbox_spec(views.take(i as int), m),
        decreases els.len() - i,
    {
        let b = element_bounding_box(&els[i], m);
        acc = match (acc, b) {
            (Some(x), Some(y)) => Some((vec_min(x.0, y.0), vec_max(x.1, y.1))),
            (Some(x), None) => Some(x),
            (None, y) => y,
        };
        proof {
            assert(views.take(i + 1).drop_last() =~= views.take(i as int));
            assert(views.take(i + 1).last() == views[i as int]);
        }
        i = i + 1;
    }
    assert(views.take(views.len() as int) =~= views);
    acc
}

impl Instanceable for GraphicGroup {
    open spec fn empty_post(e: GroupView) -> bool {
        &&& e.elements.len() == 0
        &&& e.transform == identity_spec()
        &&& e.alpha_blending == (AlphaBlending {
            blend_mode: BlendMode::Normal,
            opacity: splat_of_real(1),
        })
    }

    open spec fn center_offset_post(this: GroupView, r: Option<glam::DVec2>) -> bool {
        match elements_bbox_spec(this.elements, this.transform) {
            Some(b) => r == Some(neg_half_of(add_of(b.0, b.1))),
            None => r is None,
        }
    }

    fn empty() -> (r: Self) {
        GraphicGroup {
            elements: Vec::new(),
            transform: affine_identity(),
            alpha_blending: AlphaBlending {
                blend_mode: BlendMode::Normal,
                opacity: real_from_u64(1),
            },
        }
    }

    fn center_offset(&self) -> (r: Option<glam::DVec2>) {
        match elements_bounding_box(&self.elements, self.transform) {
            Some(b) => Some(vec_neg_half(vec_add(b.0, b.1))),
            None => None,
        }
    }
}

} // verus!
