//! Draw-order construction: inverting the per-entity visibility records
//! into per-view, render-ready draw lists.
//!
//! For each view the builder collects every entity visible to it, splits
//! the entities into an opaque bucket (occluders) and a transparent
//! bucket, sorts the opaque bucket ascending by draw-order key (nearest
//! first) and the transparent bucket descending (farthest first, as
//! back-to-front alpha compositing requires), and concatenates opaque then
//! transparent. That concatenation order is a hard contract consumed by
//! the rendering backend. Ties in the key break by the entity handle, so
//! the lists are reproducible across runs with identical input.

use vstd::prelude::*;

use vstd::relations::sorted_by;
use vstd::relations::total_ordering;
use vstd::seq_lib::lemma_multiset_commutative;
use vstd::seq_lib::lemma_sorted_unique;

use crate::entity::RenderEntity;
use crate::entity::RenderEntityData;
use crate::visibility::RenderViews;
use crate::visibility::ViewVisibility;
use crate::visibility::VisibilityError;

verus! {

/// A thin representation of one visible entity in a single view: the
/// handle of the render-world entity, its draw-order key in that view, and
/// which bucket it draws in.
#[derive(Clone, Copy, Debug, PartialEq, Eq, Structural)]
pub struct ViewNode {
    pub render_entity: RenderEntity,
    /// Squared distance from the view origin to the entity's bounds center.
    pub order: u64,
    /// Whether the entity draws in the opaque bucket.
    pub occluder: bool,
}

/// A render view with its finished draw list for the frame.
#[derive(Debug)]
pub struct ComputedRenderView {
    /// Tag of the producer that spawned the view.
    pub spawning_feature: String,
    /// The view's draw list: opaque bucket ascending by key, then
    /// transparent bucket descending by key.
    pub view_nodes: Vec<ViewNode>,
}

/// Deterministic tie-break among nodes with equal draw-order key: by
/// entity handle (slot index, then generation), then by bucket flag.
pub open spec fn spec_node_tie_le(a: ViewNode, b: ViewNode) -> bool {
    ||| a.render_entity.index < b.render_entity.index
    ||| (a.render_entity.index == b.render_entity.index && {
        ||| a.render_entity.generation < b.render_entity.generation
        ||| (a.render_entity.generation == b.render_entity.generation && (!a.occluder
            || b.occluder))
    })
}

/// Total order of the opaque bucket: ascending draw-order key (nearest
/// first), ties broken by the entity handle.
pub open spec fn spec_opaque_le(a: ViewNode, b: ViewNode) -> bool {
    ||| a.order < b.order
    ||| (a.order == b.order && spec_node_tie_le(a, b))
}

/// Total order of the transparent bucket: descending draw-order key
/// (farthest first), ties broken by the entity handle.
pub open spec fn spec_transparent_le(a: ViewNode, b: ViewNode) -> bool {
    ||| a.order > b.order
    ||| (a.order == b.order && spec_node_tie_le(a, b))
}

/// The ordering relation of a bucket: the transparent bucket draws
/// farthest first, the opaque bucket nearest first.
pub open spec fn node_leq(transparent: bool) -> spec_fn(ViewNode, ViewNode) -> bool {
    if transparent {
        |a: ViewNode, b: ViewNode| spec_transparent_le(a, b)
    } else {
        |a: ViewNode, b: ViewNode| spec_opaque_le(a, b)
    }
}

/// Both bucket orderings are total orders, so each bucket has exactly one
/// sorted arrangement and the draw lists are deterministic.
pub proof fn lemma_node_leq_total_ordering(transparent: bool)
    ensures
        total_ordering(node_leq(transparent)),
{
    let leq = node_leq(transparent);
    assert forall|a: ViewNode| #[trigger] leq(a, a) by {}
    assert forall|a: ViewNode, b: ViewNode| #[trigger] leq(a, b) && #[trigger] leq(b, a) implies a
        == b by {}
    assert forall|a: ViewNode, b: ViewNode, c: ViewNode|
        #[trigger] leq(a, b) && #[trigger] leq(b, c) implies leq(a, c) by {}
    assert forall|a: ViewNode, b: ViewNode| #[trigger] leq(a, b) || #[trigger] leq(b, a) by {}
}

/// The first membership entry for view `view_index` in an entity's
/// `visible_to_views` record, if any.
pub open spec fn spec_find_view(s: Seq<ViewVisibility>, view_index: usize) -> Option<ViewVisibility>
    decreases s.len(),
{
    if s.len() == 0 {
        None
    } else if s.first().view_index == view_index {
        Some(s.first())
    } else {
        spec_find_view(s.drop_first(), view_index)
    }
}

/// First membership entry for view `view_index` in `s`, if any.
fn find_view(s: &Vec<ViewVisibility>, view_index: usize) -> (r: Option<ViewVisibility>)
    ensures
        r == spec_find_view(s@, view_index),
{
    let n = s.len();
    proof {
        assert(s@.skip(0) =~= s@);
    }
    for k in 0..n
        invariant
            n == s@.len(),
            spec_find_view(s@, view_index) == spec_find_view(s@.skip(k as int), view_index),
    {
        proof {
            assert(s@.skip(k as int).first() == s@[k as int]);
            assert(s@.skip(k as int).drop_first() =~= s@.skip(k + 1));
        }
        if s[k].view_index == view_index {
            return Some(s[k]);
        }
    }
    proof {
        assert(s@.skip(n as int) =~= Seq::<ViewVisibility>::empty());
    }
    None
}

/// The unsorted candidates of one bucket of one view: every entity whose
/// bucket flag matches and whose visibility record holds an entry for the
/// view, as view nodes in entity iteration order.
pub open spec fn spec_candidates(es: Seq<RenderEntityData>, view_index: usize, occluder: bool) -> Seq<
    ViewNode,
>
    decreases es.len(),
{
    if es.len() == 0 {
        Seq::empty()
    } else {
        spec_candidates(es.drop_last(), view_index, occluder) + {
            let e = es.last();
            let found = spec_find_view(e.visibility.visible_to_views@, view_index);
            if e.visible.occluder == occluder && found is Some {
                seq![
                    ViewNode {
                        render_entity: e.entity,
                        order: found->0.order,
                        occluder: e.visible.occluder,
                    },
                ]
            } else {
                Seq::empty()
            }
        }
    }
}

/// Collect one bucket's candidates for one view, in entity iteration
/// order.
fn collect_candidates(entities: &Vec<RenderEntityData>, view_index: usize, occluder: bool) -> (r:
    Vec<ViewNode>)
    ensures
        r@ == spec_candidates(entities@, view_index, occluder),
{
    let mut out: Vec<ViewNode> = Vec::new();
    let n = entities.len();
    for i in 0..n
        invariant
            n == entities@.len(),
            out@ == spec_candidates(entities@.take(i as int), view_index, occluder),
    {
        if entities[i].visible.occluder == occluder {
            match find_view(&entities[i].visibility.visible_to_views, view_index) {
                Option::Some(vv) => {
                    out.push(
                        ViewNode {
                            render_entity: entities[i].entity,
                            order: vv.order,
                            occluder: entities[i].visible.occluder,
                        },
                    );
                },
                Option::None => {},
            }
        }
        proof {
            let pre = entities@.take(i as int);
            let post = entities@.take(i + 1);
            assert(post.drop_last() =~= pre);
            assert(post.last() == entities@[i as int]);
            assert(out@ =~= spec_candidates(post, view_index, occluder));
        }
    }
    proof {
        assert(entities@.take(n as int) =~= entities@);
    }
    out
}

/// Inserting an element anywhere in a sequence adds it to the sequence's
/// multiset.
proof fn lemma_insert_multiset(s: Seq<ViewNode>, p: int, x: ViewNode)
    requires
        0 <= p <= s.len(),
    ensures
        s.insert(p, x).to_multiset() =~= s.to_multiset().insert(x),
{
    broadcast use vstd::seq_lib::group_to_multiset_ensures;
    broadcast use vstd::multiset::group_multiset_axioms;

    lemma_multiset_commutative(s.subrange(0, p).push(x), s.subrange(p, s.len() as int));
    lemma_multiset_commutative(s.subrange(0, p), s.subrange(p, s.len() as int));
    assert(s =~= s.subrange(0, p) + s.subrange(p, s.len() as int));
}

/// Inserting `x` at the first position whose element is not below `x`
/// keeps a sequence sorted.
proof fn lemma_sorted_insert(
    s: Seq<ViewNode>,
    p: int,
    x: ViewNode,
    leq: spec_fn(ViewNode, ViewNode) -> bool,
)
    requires
        total_ordering(leq),
        sorted_by(s, leq),
        0 <= p <= s.len(),
        forall|j: int| 0 <= j < p ==> leq(#[trigger] s[j], x),
        p < s.len() ==> !leq(s[p], x),
    ensures
        sorted_by(s.insert(p, x), leq),
{
    s.insert_ensures(p, x);
    let t = s.insert(p, x);
    assert forall|j: int| p <= j < s.len() implies leq(x, #[trigger] s[j]) by {
        assert(leq(s[p], x) || leq(x, s[p]));
        if j > p {
            assert(leq(s[p], s[j]));
        }
    }
    assert forall|i: int, j: int| 0 <= i < j < t.len() implies leq(#[trigger] t[i], #[trigger] t[j]) by {
        if j < p {
            assert(t[i] == s[i] && t[j] == s[j]);
        } else if j == p {
            assert(t[i] == s[i] && t[j] == x);
        } else {
            assert(t[j] == s[j - 1]);
            if i < p {
                assert(t[i] == s[i]);
                assert(leq(s[i], s[j - 1]));
            } else if i == p {
                assert(t[i] == x);
                assert(leq(x, s[j - 1]));
            } else {
                assert(t[i] == s[i - 1]);
                assert(leq(s[i - 1], s[j - 1]));
            }
        }
    }
}

/// Sort one bucket by its ordering relation. Because the relation is a
/// total order, the result is the unique sorted arrangement of the input.
pub fn sort_view_nodes(nodes: Vec<ViewNode>, transparent: bool) -> (r: Vec<ViewNode>)
    ensures
        r@ == nodes@.sort_by(node_leq(transparent)),
{
    let ghost leq = node_leq(transparent);
    let mut out: Vec<ViewNode> = Vec::new();
    let n = nodes.len();
    proof {
        assert(out@ =~= nodes@.take(0));
    }
    for idx in 0..n
        invariant
            n == nodes@.len(),
            sorted_by(out@, node_leq(transparent)),
            out@.to_multiset() == nodes@.take(idx as int).to_multiset(),
    {
        let x = nodes[idx];
        let mut p: usize = 0;
        loop
            invariant
                p <= out@.len(),
                sorted_by(out@, node_leq(transparent)),
                forall|j: int| 0 <= j < p ==> node_leq(transparent)(#[trigger] out@[j], x),
            ensures
                p <= out@.len(),
                forall|j: int| 0 <= j < p ==> node_leq(transparent)(#[trigger] out@[j], x),
                p < out@.len() ==> !node_leq(transparent)(out@[p as int], x),
            decreases out@.len() - p,
        {
            if p == out.len() {
                break ;
            }
            if transparent {
                if !(out[p].order > x.order || (out[p].order == x.order && node_tie_le(&out[p], &x))) {
                    break ;
                }
            } else {
                if !(out[p].order < x.order || (out[p].order == x.order && node_tie_le(&out[p], &x))) {
                    break ;
                }
            }
            p = p + 1;
        }
        let ghost prev = out@;
        out.insert(p, x);
        proof {
            broadcast use vstd::seq_lib::group_to_multiset_ensures;

            lemma_node_leq_total_ordering(transparent);
            lemma_sorted_insert(prev, p as int, x, node_leq(transparent));
            lemma_insert_multiset(prev, p as int, x);
            assert(nodes@.take(idx + 1) =~= nodes@.take(idx as int).push(x));
        }
    }
    proof {
        assert(nodes@.take(n as int) =~= nodes@);
        lemma_node_leq_total_ordering(transparent);
        nodes@.lemma_sort_by_ensures(node_leq(transparent));
        lemma_sorted_unique(out@, nodes@.sort_by(node_leq(transparent)), node_leq(transparent));
    }
    out
}

/// Tie-break comparison by entity handle, then bucket flag.
fn node_tie_le(a: &ViewNode, b: &ViewNode) -> (r: bool)
    ensures
        r == spec_node_tie_le(*a, *b),
{
    a.render_entity.index < b.render_entity.index || (a.render_entity.index
        == b.render_entity.index && (a.render_entity.generation < b.render_entity.generation || (
    a.render_entity.generation == b.render_entity.generation && (!a.occluder || b.occluder))))
}

/// The finished draw list of one view: the opaque bucket sorted ascending
/// by draw-order key, then the transparent bucket sorted descending, each
/// with ties broken by entity handle.
pub open spec fn spec_draw_list(es: Seq<RenderEntityData>, view_index: usize) -> Seq<ViewNode> {
    spec_candidates(es, view_index, true).sort_by(node_leq(false)) + spec_candidates(
        es,
        view_index,
        false,
    ).sort_by(node_leq(true))
}

/// Build the draw list of one view: collect both buckets, sort the opaque
/// bucket nearest first and the transparent bucket farthest first, and
/// concatenate opaque then transparent.
pub fn build_view_nodes(entities: &Vec<RenderEntityData>, view_index: usize) -> (r: Vec<ViewNode>)
    ensures
        r@ == spec_draw_list(entities@, view_index),
{
    let opaque = collect_candidates(entities, view_index, true);
    let transparent = collect_candidates(entities, view_index, false);
    let mut nodes = sort_view_nodes(opaque, false);
    let mut tail = sort_view_nodes(transparent, true);
    nodes.append(&mut tail);
    nodes
}

/// Some entity's visibility record holds an entry whose view index is not
/// valid against a registry of `n_views` views.
pub open spec fn spec_entry_fault(s: Seq<ViewVisibility>, n_views: int) -> bool {
    exists|k: int| 0 <= k < s.len() && (#[trigger] s[k]).view_index >= n_views
}

/// Some entity in the batch carries an out-of-range view index.
pub open spec fn spec_index_fault(es: Seq<RenderEntityData>, n_views: int) -> bool {
    exists|j: int|
        0 <= j < es.len() && spec_entry_fault(
            (#[trigger] es[j]).visibility.visible_to_views@,
            n_views,
        )
}

/// Whether `s` holds an entry with a view index at or beyond `n_views`.
fn entry_fault(s: &Vec<ViewVisibility>, n_views: usize) -> (r: bool)
    ensures
        r == spec_entry_fault(s@, n_views as int),
{
    let n = s.len();
    for k in 0..n
        invariant
            n == s@.len(),
            forall|j: int| 0 <= j < k ==> (#[trigger] s@[j]).view_index < n_views,
    {
        if s[k].view_index >= n_views {
            return true;
        }
    }
    false
}

/// Whether any entity in the batch carries an out-of-range view index.
fn index_fault(entities: &Vec<RenderEntityData>, n_views: usize) -> (r: bool)
    ensures
        r == spec_index_fault(entities@, n_views as int),
{
    let n = entities.len();
    for j in 0..n
        invariant
            n == entities@.len(),
            forall|i: int|
                0 <= i < j ==> !spec_entry_fault(
                    (#[trigger] entities@[i]).visibility.visible_to_views@,
                    n_views as int,
                ),
    {
        if entry_fault(&entities[j].visibility.visible_to_views, n_views) {
            return true;
        }
    }
    false
}

/// The draw-order construction stage: invert the frame's visibility
/// records into one draw list per published view.
///
/// A visibility record whose view index is not valid against the current
/// registry cannot arise from this frame's evaluation, so it is an
/// internal-consistency fault: the builder halts with
/// `ViewIndexOutOfRange` rather than producing lists from broken
/// invariants. Otherwise the result holds, for every view index in
/// registry order, that view's producer tag and its finished draw list.
pub fn build_draw_lists(views: &RenderViews, entities: &Vec<RenderEntityData>) -> (r: Result<
    Vec<ComputedRenderView>,
    VisibilityError,
>)
    ensures
        r is Err <==> spec_index_fault(entities@, views.views@.len() as int),
        match r {
            Result::Ok(lists) => {
                &&& lists@.len() == views.views@.len()
                &&& forall|i: int|
                    0 <= i < lists@.len() ==> (#[trigger] lists@[i]).spawning_feature@
                        == views.views@[i].spawning_feature@
                &&& forall|i: int|
                    0 <= i < lists@.len() ==> (#[trigger] lists@[i]).view_nodes@ == spec_draw_list(
                        entities@,
                        i as usize,
                    )
            },
            Result::Err(e) => e == VisibilityError::ViewIndexOutOfRange,
        },
{
    if index_fault(entities, views.views.len()) {
        return Err(VisibilityError::ViewIndexOutOfRange);
    }
    let mut lists: Vec<ComputedRenderView> = Vec::new();
    let n = views.views.len();
    for i in 0..n
        invariant
            n == views.views@.len(),
            lists@.len() == i,
            forall|j: int|
                0 <= j < i ==> (#[trigger] lists@[j]).spawning_feature@
                    == views.views@[j].spawning_feature@,
            forall|j: int|
                0 <= j < i ==> (#[trigger] lists@[j]).view_nodes@ == spec_draw_list(
                    entities@,
                    j as usize,
                ),
    {
        let nodes = build_view_nodes(entities, i);
        let feature = views.views[i].spawning_feature.clone();
        lists.push(ComputedRenderView { spawning_feature: feature, view_nodes: nodes });
    }
    Ok(lists)
}

/// Every candidate of a bucket carries the bucket's flag: the opaque
/// bucket holds occluders only, the transparent bucket non-occluders only.
pub proof fn lemma_candidates_flag(es: Seq<RenderEntityData>, view_index: usize, occluder: bool)
    ensures
        forall|k: int|
            0 <= k < spec_candidates(es, view_index, occluder).len() ==> (
            #[trigger] spec_candidates(es, view_index, occluder)[k]).occluder == occluder,
    decreases es.len(),
{
    if es.len() > 0 {
        lemma_candidates_flag(es.drop_last(), view_index, occluder);
        let s = spec_candidates(es, view_index, occluder);
        let prefix = spec_candidates(es.drop_last(), view_index, occluder);
        assert forall|k: int| 0 <= k < s.len() implies (#[trigger] s[k]).occluder == occluder by {
            if k < prefix.len() {
                assert(s[k] == prefix[k]);
            }
        }
    }
}

/// The shape of a view's draw list, the hard contract the rendering
/// backend consumes: the opaque bucket comes first, sorted ascending by
/// draw-order key (nearest first), followed by the transparent bucket
/// sorted descending (farthest first); the concatenation order is never
/// reversed.
pub proof fn lemma_draw_list_shape(es: Seq<RenderEntityData>, view_index: usize)
    ensures
        ({
            let opaque = spec_candidates(es, view_index, true).sort_by(node_leq(false));
            let transparent = spec_candidates(es, view_index, false).sort_by(node_leq(true));
            let list = spec_draw_list(es, view_index);
            &&& list.len() == opaque.len() + transparent.len()
            &&& list.take(opaque.len() as int) == opaque
            &&& list.skip(opaque.len() as int) == transparent
            &&& sorted_by(opaque, node_leq(false))
            &&& sorted_by(transparent, node_leq(true))
        }),
{
    lemma_node_leq_total_ordering(false);
    lemma_node_leq_total_ordering(true);
    spec_candidates(es, view_index, true).lemma_sort_by_ensures(node_leq(false));
    spec_candidates(es, view_index, false).lemma_sort_by_ensures(node_leq(true));
    broadcast use vstd::seq_lib::group_to_multiset_ensures;

    let opaque = spec_candidates(es, view_index, true).sort_by(node_leq(false));
    let transparent = spec_candidates(es, view_index, false).sort_by(node_leq(true));
    let list = spec_draw_list(es, view_index);
    assert(list.take(opaque.len() as int) =~= opaque);
    assert(list.skip(opaque.len() as int) =~= transparent);
}

/// Draw-order construction is a function of the visibility records alone:
/// any two lists satisfying the builder's contract for the same records
/// and view are identical, so repeated runs over unchanged input
/// reproduce the same list, ties included.
pub proof fn lemma_draw_list_deterministic(
    es: Seq<RenderEntityData>,
    view_index: usize,
    l1: Seq<ViewNode>,
    l2: Seq<ViewNode>,
)
    requires
        l1 == spec_draw_list(es, view_index),
        l2 == spec_draw_list(es, view_index),
    ensures
        l1 == l2,
{
}

/// An entity with no recorded membership — for instance one rejected for
/// an unrepresentable transform — leaves every view's draw list exactly
/// as it would have been without the entity: it neither appears nor
/// disturbs the order of the others.
pub proof fn lemma_empty_record_no_effect(
    es: Seq<RenderEntityData>,
    extra: RenderEntityData,
    view_index: usize,
)
    requires
        extra.visibility.visible_to_views@.len() == 0,
    ensures
        spec_draw_list(es.push(extra), view_index) == spec_draw_list(es, view_index),
{
    assert(es.push(extra).drop_last() =~= es);
    assert(es.push(extra).last() == extra);
    assert(spec_find_view(extra.visibility.visible_to_views@, view_index) is None);
    assert(spec_candidates(es.push(extra), view_index, true) =~= spec_candidates(
        es,
        view_index,
        true,
    ));
    assert(spec_candidates(es.push(extra), view_index, false) =~= spec_candidates(
        es,
        view_index,
        false,
    ));
}

} // verus!
