//! Per-frame visibility: render views, bounding volumes and the visibility
//! evaluator.
//!
//! A [`RenderView`] is a camera-defined testing volume for one render pass,
//! either a frustum bounded by six half-space planes or a two-dimensional
//! edge-bounded region. The evaluator tests every entity's [`Bounds`]
//! against every published view and records the outcome in a
//! [`FrameVisibility`] that is fully recomputed each frame.

use vstd::prelude::*;

use crate::entity::RenderEntityData;
use crate::geometry::COORD_LIMIT;
use crate::geometry::Plane;
use crate::geometry::Vec3;
use crate::geometry::dist_sq;
use crate::geometry::halfspace_pass;
use crate::geometry::spec_dist_sq;
use crate::geometry::spec_halfspace_pass;

verus! {

/// Error conditions of the visibility pipeline.
///
/// A zero-view frame is not an error: it produces empty results everywhere.
#[derive(Clone, Copy, Debug, PartialEq, Eq, Structural)]
pub enum VisibilityError {
    /// An entity's transform has coordinates that could not be represented
    /// (for example, a non-finite source value); the entity is excluded from
    /// the frame's visibility set, no other entity is affected.
    InvalidTransform,
    /// A back-reference whose simulation counterpart is gone; recovered at
    /// the next extraction pass.
    StaleRenderWorldEntity,
    /// A recorded view index is not valid against the current view registry.
    /// Under full per-frame recomputation this must never occur, so it is an
    /// internal-consistency fault that halts the pipeline.
    ViewIndexOutOfRange,
}

/// Bounding shape centered on the owning entity's world transform.
#[derive(Clone, Copy, Debug, PartialEq, Eq, Structural)]
pub enum Bounds {
    Sphere { radius: i64 },
    Rect { width: i64, height: i64 },
}

impl Bounds {
    /// The extents are nonnegative and within the world bound.
    pub open spec fn wf(self) -> bool {
        match self {
            Bounds::Sphere { radius } => 0 <= radius <= COORD_LIMIT,
            Bounds::Rect { width, height } => {
                &&& 0 <= width <= COORD_LIMIT
                &&& 0 <= height <= COORD_LIMIT
            },
        }
    }

    /// Four times the squared radius of the smallest ball enclosing the
    /// shape: `4 r^2` for a sphere, `w^2 + h^2` (four times the squared
    /// circumradius) for a rectangle. This is the scaled bounding-ball
    /// measure the half-space test consumes.
    pub open spec fn spec_rsq4(self) -> int {
        match self {
            Bounds::Sphere { radius } => 4 * radius * radius,
            Bounds::Rect { width, height } => width * width + height * height,
        }
    }

    /// Runtime check of [`Bounds::wf`].
    pub fn check_wf(&self) -> (r: bool)
        ensures
            r == self.wf(),
    {
        match *self {
            Bounds::Sphere { radius } => 0 <= radius && radius <= COORD_LIMIT,
            Bounds::Rect { width, height } => 0 <= width && width <= COORD_LIMIT && 0 <= height
                && height <= COORD_LIMIT,
        }
    }

    /// Four times the squared radius of the shape's enclosing ball.
    pub fn rsq4(&self) -> (r: i64)
        requires
            self.wf(),
        ensures
            r == self.spec_rsq4(),
            0 <= r <= 4_000_000_000_000,
    {
        match *self {
            Bounds::Sphere { radius } => {
                proof {
                    assert(0 <= radius * radius <= 1_000_000_000_000) by (nonlinear_arith)
                        requires
                            0 <= radius <= 1_000_000,
                    ;
                }
                let sq: i64 = radius * radius;
                proof {
                    assert(4 * (radius as int) * (radius as int) == 4 * ((radius as int) * (
                    radius as int))) by (nonlinear_arith);
                }
                4 * sq
            },
            Bounds::Rect { width, height } => {
                proof {
                    assert(0 <= width * width <= 1_000_000_000_000) by (nonlinear_arith)
                        requires
                            0 <= width <= 1_000_000,
                    ;
                    assert(0 <= height * height <= 1_000_000_000_000) by (nonlinear_arith)
                        requires
                            0 <= height <= 1_000_000,
                    ;
                }
                width * width + height * height
            },
        }
    }
}

/// Marks an entity as taking part in visibility checks and rendering.
#[derive(Clone, Copy, Debug, PartialEq, Eq, Structural)]
pub struct Visible {
    /// Bounding shape centered at the entity's world transform.
    pub bounds: Bounds,
    /// Whether the entity occludes other entities (is opaque); selects the
    /// front-to-back draw bucket.
    pub occluder: bool,
    /// Whether the entity is unconditionally excluded from every view this
    /// frame.
    pub hidden: bool,
}

impl Visible {
    pub open spec fn wf(self) -> bool {
        self.bounds.wf()
    }

    /// Runtime check of [`Visible::wf`].
    pub fn check_wf(&self) -> (r: bool)
        ensures
            r == self.wf(),
    {
        self.bounds.check_wf()
    }
}

impl Default for Visible {
    /// A visible, non-occluding point: the inert default of the component.
    fn default() -> (r: Visible)
        ensures
            r == (Visible { bounds: Bounds::Sphere { radius: 0 }, occluder: false, hidden: false }),
    {
        Visible { bounds: Bounds::Sphere { radius: 0 }, occluder: false, hidden: false }
    }
}

/// Marks an entity as able to move.
#[derive(Clone, Copy, Debug, PartialEq, Eq, Structural, Default)]
pub struct Dynamic {}

/// Marks an entity as unable to move; the renderer may optimize under the
/// assumption that most of a scene is static.
#[derive(Clone, Copy, Debug, PartialEq, Eq, Structural, Default)]
pub struct Static {}

/// World transform of an entity as sampled for rendering: either a
/// representable translation in integer world units, or the record that the
/// source coordinates were not representable (for example, not finite).
#[derive(Clone, Copy, Debug, PartialEq, Eq, Structural)]
pub enum GlobalTransform {
    Finite { translation: Vec3 },
    NonFinite,
}

impl GlobalTransform {
    pub open spec fn wf(self) -> bool {
        match self {
            GlobalTransform::Finite { translation } => translation.in_world(),
            GlobalTransform::NonFinite => true,
        }
    }

    /// Runtime check of [`GlobalTransform::wf`].
    pub fn check_wf(&self) -> (r: bool)
        ensures
            r == self.wf(),
    {
        match self {
            GlobalTransform::Finite { translation } => translation.check_in_world(),
            GlobalTransform::NonFinite => true,
        }
    }
}

/// Membership of one entity in one view for the current frame: the index of
/// the view in the frame's registry, and the entity's draw-order key in that
/// view (squared distance from the view origin to the bounds center).
#[derive(Clone, Copy, Debug, PartialEq, Eq, Structural)]
pub struct ViewVisibility {
    pub view_index: usize,
    pub order: u64,
}

impl ViewVisibility {
    pub fn new(view_index: usize, order: u64) -> (r: Self)
        ensures
            r == (ViewVisibility { view_index, order }),
    {
        Self { view_index, order }
    }
}

/// Per-entity visibility record for the current frame, fully recomputed
/// every frame and never merged with the previous frame's value.
#[derive(Clone, Debug)]
pub struct FrameVisibility {
    /// Whether the entity is visible to at least one view this frame.
    pub frame_visible: bool,
    /// The views the entity is visible to this frame, in view-index order.
    pub visible_to_views: Vec<ViewVisibility>,
}

impl FrameVisibility {
    /// The record of an entity visible to no view.
    pub fn empty() -> (r: FrameVisibility)
        ensures
            !r.frame_visible,
            r.visible_to_views@ =~= Seq::<ViewVisibility>::empty(),
    {
        FrameVisibility { frame_visible: false, visible_to_views: Vec::new() }
    }
}

impl Default for FrameVisibility {
    /// The record of an entity visible to no view, as
    /// [`FrameVisibility::empty`] builds.
    fn default() -> (r: FrameVisibility)
        ensures
            !r.frame_visible,
            r.visible_to_views@ =~= Seq::<ViewVisibility>::empty(),
    {
        FrameVisibility { frame_visible: false, visible_to_views: Vec::new() }
    }
}

/// Kind-specific testing geometry of a render view: a frustum bounded by
/// six half-space planes, or a two-dimensional region bounded by four
/// scalar edges.
#[derive(Clone, Copy, Debug, PartialEq, Eq, Structural)]
pub enum ViewVolume {
    Frustum3D {
        near: Plane,
        far: Plane,
        left: Plane,
        right: Plane,
        bottom: Plane,
        top: Plane,
    },
    Edges2D { left: i64, right: i64, bottom: i64, top: i64 },
}

impl ViewVolume {
    pub open spec fn wf(self) -> bool {
        match self {
            ViewVolume::Frustum3D { near, far, left, right, bottom, top } => {
                &&& near.wf()
                &&& far.wf()
                &&& left.wf()
                &&& right.wf()
                &&& bottom.wf()
                &&& top.wf()
            },
            ViewVolume::Edges2D { left, right, bottom, top } => {
                &&& -COORD_LIMIT <= left <= COORD_LIMIT
                &&& -COORD_LIMIT <= right <= COORD_LIMIT
                &&& -COORD_LIMIT <= bottom <= COORD_LIMIT
                &&& -COORD_LIMIT <= top <= COORD_LIMIT
            },
        }
    }
}

/// A view that needs to be rendered: the information needed to compute
/// visibility membership and draw order for entities. Immutable once
/// published for the frame.
#[derive(Clone, Debug)]
pub struct RenderView {
    /// Tag identifying the producer that spawned this view.
    pub spawning_feature: String,
    /// View origin; draw order is squared distance from this point.
    pub origin: Vec3,
    /// The testing volume.
    pub volume: ViewVolume,
}

impl RenderView {
    pub open spec fn wf(self) -> bool {
        &&& self.origin.in_world()
        &&& self.volume.wf()
    }

    /// Runtime check of [`RenderView::wf`].
    pub fn check_wf(&self) -> (r: bool)
        ensures
            r == self.wf(),
    {
        if !self.origin.check_in_world() {
            return false;
        }
        match &self.volume {
            ViewVolume::Frustum3D { near, far, left, right, bottom, top } => {
                near.check_wf() && far.check_wf() && left.check_wf() && right.check_wf()
                    && bottom.check_wf() && top.check_wf()
            },
            ViewVolume::Edges2D { left, right, bottom, top } => {
                -COORD_LIMIT <= *left && *left <= COORD_LIMIT && -COORD_LIMIT <= *right && *right
                    <= COORD_LIMIT && -COORD_LIMIT <= *bottom && *bottom <= COORD_LIMIT
                    && -COORD_LIMIT <= *top && *top <= COORD_LIMIT
            },
        }
    }
}

/// The entity's bounds, centered at `center`, lie inside or intersect the
/// view's testing volume: for a frustum, the enclosing ball meets all six
/// inner half-spaces; for an edge-bounded region, the shape's axis extents
/// overlap the edge intervals.
pub open spec fn spec_bounds_pass(view: RenderView, bounds: Bounds, center: Vec3) -> bool {
    match view.volume {
        ViewVolume::Frustum3D { near, far, left, right, bottom, top } => {
            &&& spec_halfspace_pass(near, center, bounds.spec_rsq4())
            &&& spec_halfspace_pass(far, center, bounds.spec_rsq4())
            &&& spec_halfspace_pass(left, center, bounds.spec_rsq4())
            &&& spec_halfspace_pass(right, center, bounds.spec_rsq4())
            &&& spec_halfspace_pass(bottom, center, bounds.spec_rsq4())
            &&& spec_halfspace_pass(top, center, bounds.spec_rsq4())
        },
        ViewVolume::Edges2D { left, right, bottom, top } => match bounds {
            Bounds::Sphere { radius } => {
                &&& center.x + radius >= left
                &&& center.x - radius <= right
                &&& center.y + radius >= bottom
                &&& center.y - radius <= top
            },
            Bounds::Rect { width, height } => {
                &&& 2 * center.x + width >= 2 * left
                &&& 2 * center.x - width <= 2 * right
                &&& 2 * center.y + height >= 2 * bottom
                &&& 2 * center.y - height <= 2 * top
            },
        },
    }
}

/// Exact containment-or-intersection test of `bounds` centered at `center`
/// against `view`'s testing volume.
pub fn bounds_pass(view: &RenderView, bounds: &Bounds, center: Vec3) -> (r: bool)
    requires
        view.wf(),
        bounds.wf(),
        center.in_world(),
    ensures
        r == spec_bounds_pass(*view, *bounds, center),
{
    match &view.volume {
        ViewVolume::Frustum3D { near, far, left, right, bottom, top } => {
            let rsq4 = bounds.rsq4();
            halfspace_pass(near, center, rsq4) && halfspace_pass(far, center, rsq4)
                && halfspace_pass(left, center, rsq4) && halfspace_pass(right, center, rsq4)
                && halfspace_pass(bottom, center, rsq4) && halfspace_pass(top, center, rsq4)
        },
        ViewVolume::Edges2D { left, right, bottom, top } => match bounds {
            Bounds::Sphere { radius } => {
                center.x + radius >= *left && center.x - radius <= *right && center.y + radius
                    >= *bottom && center.y - radius <= *top
            },
            Bounds::Rect { width, height } => {
                2 * center.x + width >= 2 * left && 2 * center.x - width <= 2 * right && 2
                    * center.y + height >= 2 * bottom && 2 * center.y - height <= 2 * top
            },
        },
    }
}

/// All render views to be rendered this frame, published once by
/// camera-side producers before evaluation begins. Order in the sequence
/// defines the `view_index` used throughout the frame; indices are never
/// reused across frames with different meanings because the whole structure
/// is rebuilt each frame. Zero views is valid and yields empty results
/// everywhere downstream.
#[derive(Clone, Debug)]
pub struct RenderViews {
    pub views: Vec<RenderView>,
}

impl RenderViews {
    pub open spec fn wf(self) -> bool {
        forall|i: int| 0 <= i < self.views@.len() ==> (#[trigger] self.views@[i]).wf()
    }

    /// An empty registry: a frame with zero views.
    pub fn new() -> (r: RenderViews)
        ensures
            r.views@ =~= Seq::<RenderView>::empty(),
            r.wf(),
    {
        RenderViews { views: Vec::new() }
    }

    /// Replace the frame's view list. From the evaluator's perspective the
    /// replacement is atomic: the registry is not mutated again while the
    /// evaluator is reading it.
    pub fn publish(&mut self, views: Vec<RenderView>)
        requires
            forall|i: int| 0 <= i < views@.len() ==> (#[trigger] views@[i]).wf(),
        ensures
            final (self).views@ == views@,
            final (self).wf(),
    {
        self.views = views;
    }

    /// The ordered, read-only view list of the current frame.
    pub fn views(&self) -> (r: &Vec<RenderView>)
        ensures
            r@ == self.views@,
    {
        &self.views
    }

    /// Number of views this frame.
    pub fn len(&self) -> (n: usize)
        ensures
            n == self.views@.len(),
    {
        self.views.len()
    }
}

impl Default for RenderViews {
    /// An empty registry, as [`RenderViews::new`] builds.
    fn default() -> (r: RenderViews)
        ensures
            r.views@ =~= Seq::<RenderView>::empty(),
            r.wf(),
    {
        RenderViews { views: Vec::new() }
    }
}

/// The view memberships of an entity with bounds `bounds` centered at
/// `center`, against the view list `views`: one entry per view the bounds
/// test passes, in view-index order, each carrying the squared distance
/// from that view's origin as its draw-order key.
pub open spec fn spec_visible_views(views: Seq<RenderView>, bounds: Bounds, center: Vec3) -> Seq<
    ViewVisibility,
>
    decreases views.len(),
{
    if views.len() == 0 {
        Seq::empty()
    } else {
        spec_visible_views(views.drop_last(), bounds, center) + if spec_bounds_pass(
            views.last(),
            bounds,
            center,
        ) {
            seq![
                ViewVisibility {
                    view_index: (views.len() - 1) as usize,
                    order: spec_dist_sq(views.last().origin, center) as u64,
                },
            ]
        } else {
            Seq::empty()
        }
    }
}

/// The evaluator rejects the entity and reports `InvalidTransform`: it is
/// not hidden (a hidden entity is recorded invisible without its transform
/// being read) and its transform is not representable.
pub open spec fn spec_rejected(visible: Visible, transform: GlobalTransform) -> bool {
    &&& !visible.hidden
    &&& transform is NonFinite
}

/// The view memberships the evaluator records for an entity: empty when the
/// entity is hidden or its transform is rejected, otherwise the outcome of
/// the bounds test against every view.
pub open spec fn spec_entity_views(
    views: Seq<RenderView>,
    visible: Visible,
    transform: GlobalTransform,
) -> Seq<ViewVisibility> {
    if visible.hidden {
        Seq::empty()
    } else {
        match transform {
            GlobalTransform::Finite { translation } => spec_visible_views(
                views,
                visible.bounds,
                translation,
            ),
            GlobalTransform::NonFinite => Seq::empty(),
        }
    }
}

/// Evaluate one entity against every published view.
///
/// A hidden entity is recorded as invisible to all views without per-view
/// work. An entity whose transform is not representable is rejected with
/// `InvalidTransform` and contributes no membership. Otherwise the entity's
/// record holds exactly the views whose bounds test it passes, in
/// view-index order, and `frame_visible` holds exactly when that set is
/// nonempty — so with zero published views every entity comes out with
/// `frame_visible == false`.
pub fn evaluate_entity(
    views: &RenderViews,
    visible: &Visible,
    transform: &GlobalTransform,
) -> (r: Result<FrameVisibility, VisibilityError>)
    requires
        views.wf(),
        visible.wf(),
        transform.wf(),
    ensures
        r is Err <==> spec_rejected(*visible, *transform),
        match r {
            Result::Ok(fv) => {
                &&& fv.visible_to_views@ == spec_entity_views(views.views@, *visible, *transform)
                &&& fv.frame_visible <==> spec_entity_views(
                    views.views@,
                    *visible,
                    *transform,
                ).len() > 0
            },
            Result::Err(e) => e == VisibilityError::InvalidTransform,
        },
{
    if visible.hidden {
        return Ok(FrameVisibility::empty());
    }
    let center: Vec3 = match transform {
        GlobalTransform::Finite { translation } => *translation,
        GlobalTransform::NonFinite => {
            return Err(VisibilityError::InvalidTransform);
        },
    };
    let mut out: Vec<ViewVisibility> = Vec::new();
    let n = views.views.len();
    for i in 0..n
        invariant
            n == views.views@.len(),
            views.wf(),
            visible.bounds.wf(),
            center.in_world(),
            !visible.hidden,
            out@ == spec_visible_views(views.views@.take(i as int), visible.bounds, center),
    {
        let view = &views.views[i];
        if bounds_pass(view, &visible.bounds, center) {
            let order = dist_sq(view.origin, center);
            out.push(ViewVisibility::new(i, order));
        }
        proof {
            let pre = views.views@.take(i as int);
            let post = views.views@.take(i + 1);
            assert(post.drop_last() =~= pre);
            assert(post.last() == views.views@[i as int]);
            assert(out@ =~= spec_visible_views(post, visible.bounds, center));
        }
    }
    proof {
        assert(views.views@.take(n as int) =~= views.views@);
    }
    let frame_visible = out.len() > 0;
    Ok(FrameVisibility { frame_visible, visible_to_views: out })
}

/// The indices, in ascending order, of the entities the evaluator rejects
/// with `InvalidTransform`.
pub open spec fn spec_rejected_indices(entities: Seq<RenderEntityData>) -> Seq<usize>
    decreases entities.len(),
{
    if entities.len() == 0 {
        Seq::empty()
    } else {
        spec_rejected_indices(entities.drop_last()) + if spec_rejected(
            entities.last().visible,
            entities.last().transform,
        ) {
            seq![(entities.len() - 1) as usize]
        } else {
            Seq::empty()
        }
    }
}

/// The per-entity record after evaluation: the same entity with its
/// `visibility` fully recomputed against `views`.
pub open spec fn spec_evaluated(entities: Seq<RenderEntityData>, i: int, views: Seq<RenderView>, e: RenderEntityData) -> bool {
    &&& e.entity == entities[i].entity
    &&& e.sim_entity == entities[i].sim_entity
    &&& e.mesh == entities[i].mesh
    &&& e.transform == entities[i].transform
    &&& e.visible == entities[i].visible
    &&& e.visibility.visible_to_views@ == spec_entity_views(
        views,
        entities[i].visible,
        entities[i].transform,
    )
    &&& e.visibility.frame_visible <==> spec_entity_views(
        views,
        entities[i].visible,
        entities[i].transform,
    ).len() > 0
}

/// The visibility evaluation stage over a batch of render-world entities.
///
/// Every entity's `FrameVisibility` is reset and fully recomputed against
/// the published views: hidden entities are recorded invisible without
/// per-view work, entities with an unrepresentable transform are excluded
/// and their indices returned as the frame's `InvalidTransform` reports,
/// and every other entity's record holds exactly the views it passes the
/// bounds test against, in view-index order, with the squared distance
/// from each view's origin as its draw-order key. Each entity's record is
/// written independently of every other entity's, and no other component
/// of any entity is touched.
pub fn visible_entities_system(views: &RenderViews, entities: &mut Vec<RenderEntityData>) -> (rejected: Vec<usize>)
    requires
        views.wf(),
        forall|i: int|
            0 <= i < old(entities)@.len() ==> (#[trigger] old(entities)@[i]).wf(),
    ensures
        final (entities)@.len() == old(entities)@.len(),
        forall|i: int|
            0 <= i < old(entities)@.len() ==> spec_evaluated(
                old(entities)@,
                i,
                views.views@,
                #[trigger] final (entities)@[i],
            ),
        forall|i: int|
            0 <= i < old(entities)@.len() ==> (#[trigger] final (entities)@[i]).wf(),
        rejected@ == spec_rejected_indices(old(entities)@),
{
    let mut rejected: Vec<usize> = Vec::new();
    let n = entities.len();
    for i in 0..n
        invariant
            n == entities@.len(),
            entities@.len() == old(entities)@.len(),
            views.wf(),
            forall|j: int|
                0 <= j < old(entities)@.len() ==> (#[trigger] old(entities)@[j]).wf(),
            forall|j: int| i <= j < n ==> #[trigger] entities@[j] == old(entities)@[j],
            forall|j: int|
                0 <= j < i ==> spec_evaluated(
                    old(entities)@,
                    j,
                    views.views@,
                    #[trigger] entities@[j],
                ),
            forall|j: int| 0 <= j < i ==> (#[trigger] entities@[j]).wf(),
            rejected@ == spec_rejected_indices(old(entities)@.take(i as int)),
    {
        let visible: Visible = entities[i].visible;
        let transform: GlobalTransform = entities[i].transform;
        let visibility: FrameVisibility = match evaluate_entity(views, &visible, &transform) {
            Result::Ok(fv) => fv,
            Result::Err(_) => {
                rejected.push(i);
                FrameVisibility::empty()
            },
        };
        let updated = RenderEntityData {
            entity: entities[i].entity,
            sim_entity: entities[i].sim_entity,
            mesh: entities[i].mesh,
            transform,
            visible,
            visibility,
        };
        entities[i] = updated;
        proof {
            let pre = old(entities)@.take(i as int);
            let post = old(entities)@.take(i + 1);
            assert(post.drop_last() =~= pre);
            assert(post.last() == old(entities)@[i as int]);
            assert(rejected@ =~= spec_rejected_indices(post));
        }
    }
    proof {
        assert(old(entities)@.take(n as int) =~= old(entities)@);
    }
    rejected
}

/// The number of views the bounds test passes against.
pub open spec fn spec_pass_count(views: Seq<RenderView>, bounds: Bounds, center: Vec3) -> nat
    decreases views.len(),
{
    if views.len() == 0 {
        0
    } else {
        spec_pass_count(views.drop_last(), bounds, center) + if spec_bounds_pass(
            views.last(),
            bounds,
            center,
        ) {
            1nat
        } else {
            0nat
        }
    }
}

/// A hidden entity is recorded invisible to every view, for any number of
/// published views including zero.
pub proof fn lemma_hidden_entity_invisible(
    views: Seq<RenderView>,
    visible: Visible,
    transform: GlobalTransform,
)
    requires
        visible.hidden,
    ensures
        spec_entity_views(views, visible, transform).len() == 0,
{
}

/// With zero published views every entity comes out invisible.
pub proof fn lemma_zero_views_invisible(visible: Visible, transform: GlobalTransform)
    ensures
        spec_entity_views(Seq::<RenderView>::empty(), visible, transform).len() == 0,
{
}

/// An entity whose transform is not representable is rejected and never
/// contributes a view membership.
pub proof fn lemma_nonfinite_rejected(views: Seq<RenderView>, visible: Visible)
    requires
        !visible.hidden,
    ensures
        spec_entity_views(views, visible, GlobalTransform::NonFinite).len() == 0,
        spec_rejected(visible, GlobalTransform::NonFinite),
{
}

/// An entity that is not hidden holds one membership entry per view it
/// passes the bounds test against: the record's length equals the number
/// of passing views.
pub proof fn lemma_membership_count(views: Seq<RenderView>, bounds: Bounds, center: Vec3)
    ensures
        spec_visible_views(views, bounds, center).len() == spec_pass_count(views, bounds, center),
    decreases views.len(),
{
    if views.len() > 0 {
        lemma_membership_count(views.drop_last(), bounds, center);
    }
}

/// For an entity that is neither hidden nor rejected, the evaluator's
/// record holds exactly one entry per view whose bounds test it passes.
pub proof fn lemma_entity_membership_count(views: Seq<RenderView>, visible: Visible, center: Vec3)
    requires
        !visible.hidden,
    ensures
        spec_entity_views(views, visible, GlobalTransform::Finite { translation: center }).len()
            == spec_pass_count(views, visible.bounds, center),
{
    lemma_membership_count(views, visible.bounds, center);
}

/// Every membership entry names a view of the current registry.
pub proof fn lemma_view_indices_bounded(views: Seq<RenderView>, bounds: Bounds, center: Vec3)
    ensures
        forall|k: int|
            0 <= k < spec_visible_views(views, bounds, center).len() ==> (
            #[trigger] spec_visible_views(views, bounds, center)[k]).view_index < views.len(),
    decreases views.len(),
{
    if views.len() > 0 {
        lemma_view_indices_bounded(views.drop_last(), bounds, center);
        let s = spec_visible_views(views, bounds, center);
        let prefix = spec_visible_views(views.drop_last(), bounds, center);
        assert forall|k: int| 0 <= k < s.len() implies (#[trigger] s[k]).view_index
            < views.len() by {
            if k < prefix.len() {
                assert(s[k] == prefix[k]);
            }
        }
    }
}

/// An entity's record never holds more entries than there are views.
pub proof fn lemma_membership_bounded(
    views: Seq<RenderView>,
    visible: Visible,
    transform: GlobalTransform,
)
    ensures
        spec_entity_views(views, visible, transform).len() <= views.len(),
    decreases views.len(),
{
    if views.len() > 0 && !visible.hidden {
        match transform {
            GlobalTransform::Finite { translation } => {
                lemma_membership_bounded(views.drop_last(), visible, transform);
            },
            GlobalTransform::NonFinite => {},
        }
    }
}

/// A non-hidden entity holds a membership entry for a view exactly when
/// its bounds pass the test against that view.
pub proof fn lemma_membership_exact(
    views: Seq<RenderView>,
    bounds: Bounds,
    center: Vec3,
    view_index: usize,
)
    requires
        views.len() <= usize::MAX,
        view_index < views.len(),
    ensures
        (exists|k: int|
            0 <= k < spec_visible_views(views, bounds, center).len() && (
            #[trigger] spec_visible_views(views, bounds, center)[k]).view_index == view_index)
            <==> spec_bounds_pass(views[view_index as int], bounds, center),
    decreases views.len(),
{
    let s = spec_visible_views(views, bounds, center);
    let prefix = spec_visible_views(views.drop_last(), bounds, center);
    lemma_view_indices_bounded(views.drop_last(), bounds, center);
    if view_index == views.len() - 1 {
        if spec_bounds_pass(views.last(), bounds, center) {
            assert(s[s.len() - 1].view_index == view_index);
        } else {
            assert(s =~= prefix);
            assert forall|k: int|
                0 <= k < s.len() implies (#[trigger] s[k]).view_index != view_index by {
                assert(s[k] == prefix[k]);
                assert(prefix[k].view_index < views.drop_last().len());
            }
        }
    } else {
        lemma_membership_exact(views.drop_last(), bounds, center, view_index);
        if spec_bounds_pass(views.last(), bounds, center) {
            assert(s.len() == prefix.len() + 1);
            assert forall|k: int| 0 <= k < prefix.len() implies #[trigger] s[k] == prefix[k] by {}
            assert(s[prefix.len() as int].view_index == views.len() - 1);
            if exists|k: int|
                0 <= k < s.len() && (#[trigger] s[k]).view_index == view_index {
                let k = choose|k: int| 0 <= k < s.len() && (#[trigger] s[k]).view_index
                    == view_index;
                assert(k < prefix.len());
                assert(prefix[k].view_index == view_index);
            }
            if exists|k: int|
                0 <= k < prefix.len() && (#[trigger] prefix[k]).view_index == view_index {
                let k = choose|k: int| 0 <= k < prefix.len() && (#[trigger] prefix[k]).view_index
                    == view_index;
                assert(s[k].view_index == view_index);
            }
        } else {
            assert(s =~= prefix);
        }
    }
}

/// Evaluation is a function of the published views and the entity's state
/// alone: any two records satisfying the evaluator's contract for the
/// same inputs are identical.
pub proof fn lemma_evaluation_deterministic(
    views: Seq<RenderView>,
    visible: Visible,
    transform: GlobalTransform,
    fv1: FrameVisibility,
    fv2: FrameVisibility,
)
    requires
        fv1.visible_to_views@ == spec_entity_views(views, visible, transform),
        fv1.frame_visible <==> spec_entity_views(views, visible, transform).len() > 0,
        fv2.visible_to_views@ == spec_entity_views(views, visible, transform),
        fv2.frame_visible <==> spec_entity_views(views, visible, transform).len() > 0,
    ensures
        fv1.frame_visible == fv2.frame_visible,
        fv1.visible_to_views@ == fv2.visible_to_views@,
{
}

} // verus!
