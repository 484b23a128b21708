//! The render world: a secondary entity store decoupled from the
//! simulation store, synchronized each frame by an extraction pass, and
//! the driver of the three-stage frame pipeline (extraction, visibility
//! evaluation, draw-order construction).
//!
//! Entities live in a generational arena: a slot index plus a generation
//! counter form a [`RenderEntity`] handle, and a handle whose generation
//! no longer matches its slot fails explicitly instead of reaching reused
//! state. The mapping from a simulation entity to its mirror is keyed by
//! the simulation identity stored in each live slot; it is consulted and
//! updated only during extraction, and mirrors whose simulation
//! counterpart is gone are pruned at the next extraction pass.

use vstd::prelude::*;

use crate::draw_order::ComputedRenderView;
use crate::draw_order::build_draw_lists;
use crate::draw_order::spec_draw_list;
use crate::draw_order::spec_index_fault;
use crate::entity::RenderEntity;
use crate::entity::RenderEntityData;
use crate::entity::RenderWorldEntity;
use crate::entity::SimEntityRecord;
use crate::visibility::Bounds;
use crate::visibility::FrameVisibility;
use crate::visibility::GlobalTransform;
use crate::visibility::RenderView;
use crate::visibility::RenderViews;
use crate::visibility::Visible;
use crate::visibility::VisibilityError;
use crate::visibility::spec_evaluated;
use crate::visibility::spec_rejected_indices;
use crate::visibility::visible_entities_system;
use crate::geometry::Vec3;

verus! {

/// Liveness and generation of one arena slot. The generation advances
/// when the slot's entity is despawned, so handles minted for an earlier
/// occupant are detected as stale.
#[derive(Clone, Copy, Debug, PartialEq, Eq, Structural)]
pub struct SlotMeta {
    pub generation: u64,
    pub live: bool,
}

/// The stage the render world is in for the current frame. Stages run as
/// a strict sequence of barriers: no stage observes a later stage's
/// partial output, and no stage runs again for the same frame once
/// complete. Transitions are one-directional; a frame that fails
/// mid-stage moves directly back to `Idle` with partial results
/// discarded.
#[derive(Clone, Copy, Debug, PartialEq, Eq, Structural)]
pub enum FrameStage {
    Idle,
    Extracting,
    Evaluating,
    Ordering,
    Published,
}

/// The simulation batch holds an entity with this identity.
pub open spec fn spec_sim_contains(sim: Seq<SimEntityRecord>, sim_entity: u64) -> bool {
    exists|j: int| 0 <= j < sim.len() && (#[trigger] sim[j]).sim_entity == sim_entity
}

/// No two records of the simulation batch share an identity.
pub open spec fn spec_sim_unique(sim: Seq<SimEntityRecord>) -> bool {
    forall|j: int, k: int|
        0 <= j < k < sim.len() ==> (#[trigger] sim[j]).sim_entity != (#[trigger] sim[k]).sim_entity
}

/// The arena invariant, over the slot metadata and the slot data held in
/// two equally long columns:
/// every record is well-formed; a live slot's record carries the handle
/// made of the slot's own index and current generation; a live slot's
/// generation has room to advance when it is freed; and no two live
/// slots mirror the same simulation entity.
pub open spec fn arena_wf(meta: Seq<SlotMeta>, ents: Seq<RenderEntityData>) -> bool {
    &&& meta.len() == ents.len()
    &&& forall|i: int| 0 <= i < ents.len() ==> (#[trigger] ents[i]).wf()
    &&& forall|i: int|
        0 <= i < meta.len() && (#[trigger] meta[i]).live ==> ents[i].entity == (RenderEntity {
            index: i as usize,
            generation: meta[i].generation,
        })
    &&& forall|i: int| 0 <= i < meta.len() && (#[trigger] meta[i]).live ==> meta[i].generation < u64::MAX
    &&& forall|i: int, k: int|
        #![trigger meta[i].live, meta[k].live]
        0 <= i < k < meta.len() && meta[i].live && meta[k].live ==> ents[i].sim_entity
            != ents[k].sim_entity
}

/// Runtime check of [`spec_sim_unique`], for callers that assemble the
/// simulation batch outside the pipeline.
pub fn check_sim_unique(sim: &Vec<SimEntityRecord>) -> (r: bool)
    ensures
        r == spec_sim_unique(sim@),
{
    let n = sim.len();
    for j in 0..n
        invariant
            n == sim@.len(),
            forall|a: int, b: int|
                0 <= a < b < sim@.len() && a < j ==> (#[trigger] sim@[a]).sim_entity != (
                #[trigger] sim@[b]).sim_entity,
    {
        let mut k = j + 1;
        while k < n
            invariant
                j < k <= n,
                n == sim@.len(),
                forall|b: int|
                    j < b < k ==> (#[trigger] sim@[b]).sim_entity != sim@[j as int].sim_entity,
            decreases n - k,
        {
            if sim[k].sim_entity == sim[j].sim_entity {
                return false;
            }
            k = k + 1;
        }
    }
    true
}

/// Whether the simulation batch holds `sim_entity`.
fn contains_sim(sim: &Vec<SimEntityRecord>, sim_entity: u64) -> (r: bool)
    ensures
        r == spec_sim_contains(sim@, sim_entity),
{
    let n = sim.len();
    for j in 0..n
        invariant
            n == sim@.len(),
            forall|i: int| 0 <= i < j ==> (#[trigger] sim@[i]).sim_entity != sim_entity,
    {
        if sim[j].sim_entity == sim_entity {
            return true;
        }
    }
    false
}

/// The live mirror of a simulation entity, if one exists.
fn find_mirror(meta: &Vec<SlotMeta>, ents: &Vec<RenderEntityData>, sim_entity: u64) -> (r: Option<
    usize,
>)
    requires
        meta@.len() == ents@.len(),
    ensures
        match r {
            Option::Some(i) => i < meta@.len() && meta@[i as int].live && ents@[i as int].sim_entity
                == sim_entity,
            Option::None => forall|i: int|
                0 <= i < meta@.len() ==> !((#[trigger] meta@[i]).live && ents@[i].sim_entity
                    == sim_entity),
        },
{
    let n = meta.len();
    for i in 0..n
        invariant
            n == meta@.len(),
            meta@.len() == ents@.len(),
            forall|j: int|
                0 <= j < i ==> !((#[trigger] meta@[j]).live && ents@[j].sim_entity == sim_entity),
    {
        if meta[i].live && ents[i].sim_entity == sim_entity {
            return Some(i);
        }
    }
    None
}

/// A free slot that may be reused: dead, with generation room left.
fn find_free(meta: &Vec<SlotMeta>) -> (r: Option<usize>)
    ensures
        match r {
            Option::Some(i) => i < meta@.len() && !meta@[i as int].live && meta@[i as int].generation
                < u64::MAX,
            Option::None => true,
        },
{
    let n = meta.len();
    for i in 0..n
        invariant
            n == meta@.len(),
    {
        if !meta[i].live && meta[i].generation < u64::MAX {
            return Some(i);
        }
    }
    None
}

/// The inert record a freed slot keeps: hidden, invisible to every view,
/// mirroring no simulation entity.
fn inert_record(index: usize, generation: u64) -> (r: RenderEntityData)
    ensures
        r.entity == (RenderEntity { index, generation }),
        r.sim_entity == 0u64,
        r.visible.hidden,
        r.visibility.visible_to_views@ =~= Seq::<crate::visibility::ViewVisibility>::empty(),
        !r.visibility.frame_visible,
        r.wf(),
{
    RenderEntityData {
        entity: RenderEntity { index, generation },
        sim_entity: 0,
        mesh: 0,
        transform: GlobalTransform::Finite { translation: Vec3 { x: 0, y: 0, z: 0 } },
        visible: Visible { bounds: Bounds::Sphere { radius: 0 }, occluder: false, hidden: true },
        visibility: FrameVisibility::empty(),
    }
}

/// The pruning half of extraction: every live mirror whose simulation
/// counterpart is absent from the batch is despawned (its slot freed and
/// its generation advanced); every other slot is left untouched.
fn prune_missing(meta: &mut Vec<SlotMeta>, ents: &mut Vec<RenderEntityData>, sim: &Vec<
    SimEntityRecord,
>)
    requires
        arena_wf(old(meta)@, old(ents)@),
    ensures
        arena_wf(final (meta)@, final (ents)@),
        final (meta)@.len() == old(meta)@.len(),
        final (ents)@.len() == old(ents)@.len(),
        forall|i: int|
            0 <= i < old(meta)@.len() && (#[trigger] old(meta)@[i]).live && spec_sim_contains(
                sim@,
                old(ents)@[i].sim_entity,
            ) ==> final (meta)@[i] == old(meta)@[i] && final (ents)@[i] == old(ents)@[i],
        forall|i: int|
            0 <= i < old(meta)@.len() && (#[trigger] old(meta)@[i]).live && !spec_sim_contains(
                sim@,
                old(ents)@[i].sim_entity,
            ) ==> final (meta)@[i] == (SlotMeta {
                generation: (old(meta)@[i].generation + 1) as u64,
                live: false,
            }),
        forall|i: int|
            0 <= i < old(meta)@.len() && !(#[trigger] old(meta)@[i]).live ==> final (meta)@[i]
                == old(meta)@[i] && final (ents)@[i] == old(ents)@[i],
        forall|i: int|
            0 <= i < old(meta)@.len() && (#[trigger] final (meta)@[i]).live ==> old(meta)@[i].live
                && final (meta)@[i] == old(meta)@[i] && final (ents)@[i] == old(ents)@[i],
{
    let n = meta.len();
    for i in 0..n
        invariant
            n == meta@.len(),
            meta@.len() == old(meta)@.len(),
            ents@.len() == old(ents)@.len(),
            arena_wf(meta@, ents@),
            arena_wf(old(meta)@, old(ents)@),
            forall|j: int| i <= j < n ==> meta@[j] == old(meta)@[j] && ents@[j] == old(ents)@[j],
            forall|j: int|
                0 <= j < i && (#[trigger] old(meta)@[j]).live && spec_sim_contains(
                    sim@,
                    old(ents)@[j].sim_entity,
                ) ==> meta@[j] == old(meta)@[j] && ents@[j] == old(ents)@[j],
            forall|j: int|
                0 <= j < i && (#[trigger] old(meta)@[j]).live && !spec_sim_contains(
                    sim@,
                    old(ents)@[j].sim_entity,
                ) ==> meta@[j] == (SlotMeta {
                    generation: (old(meta)@[j].generation + 1) as u64,
                    live: false,
                }),
            forall|j: int|
                0 <= j < i && !(#[trigger] old(meta)@[j]).live ==> meta@[j] == old(meta)@[j]
                    && ents@[j] == old(ents)@[j],
            forall|j: int|
                0 <= j < n && (#[trigger] meta@[j]).live ==> old(meta)@[j].live && meta@[j]
                    == old(meta)@[j] && ents@[j] == old(ents)@[j],
    {
        if meta[i].live && !contains_sim(sim, ents[i].sim_entity) {
            let g = meta[i].generation;
            meta[i] = SlotMeta { generation: g + 1, live: false };
            ents[i] = inert_record(i, g + 1);
        }
    }
}

/// The record `e` is the freshly extracted mirror of the simulation
/// record `r`: same identity, mesh, transform and `Visible` values, with
/// no visibility recorded yet for the new frame.
pub open spec fn spec_mirror_of(e: RenderEntityData, r: SimEntityRecord) -> bool {
    &&& e.sim_entity == r.sim_entity
    &&& e.mesh == r.mesh
    &&& e.transform == r.transform
    &&& e.visible == r.visible
    &&& e.visibility.visible_to_views@.len() == 0
    &&& !e.visibility.frame_visible
}

/// Some live slot mirrors the simulation record `r` with freshly
/// extracted values.
pub open spec fn spec_has_mirror(
    meta: Seq<SlotMeta>,
    ents: Seq<RenderEntityData>,
    r: SimEntityRecord,
) -> bool {
    exists|i: int| 0 <= i < meta.len() && (#[trigger] meta[i]).live && spec_mirror_of(ents[i], r)
}

/// The slot record extraction writes for a mirror.
fn mirror_record(index: usize, generation: u64, r: &SimEntityRecord) -> (e: RenderEntityData)
    requires
        r.wf(),
    ensures
        e.entity == (RenderEntity { index, generation }),
        spec_mirror_of(e, *r),
        e.wf(),
{
    RenderEntityData {
        entity: RenderEntity { index, generation },
        sim_entity: r.sim_entity,
        mesh: r.mesh,
        transform: r.transform,
        visible: r.visible,
        visibility: FrameVisibility::empty(),
    }
}

/// The copying half of extraction: for every simulation record, find or
/// create its render-world mirror and write the freshly extracted values
/// into it. A mirror that already exists keeps its slot and its handle;
/// a new mirror reuses a freed slot when one has generation room left,
/// and extends the arena otherwise.
fn upsert_records(meta: &mut Vec<SlotMeta>, ents: &mut Vec<RenderEntityData>, sim: &Vec<
    SimEntityRecord,
>)
    requires
        arena_wf(old(meta)@, old(ents)@),
        spec_sim_unique(sim@),
        forall|k: int| 0 <= k < sim@.len() ==> (#[trigger] sim@[k]).wf(),
    ensures
        arena_wf(final (meta)@, final (ents)@),
        old(meta)@.len() <= final (meta)@.len(),
        forall|k: int|
            0 <= k < sim@.len() ==> spec_has_mirror(final (meta)@, final (ents)@, #[trigger] sim@[k]),
        forall|i: int|
            0 <= i < old(meta)@.len() && (#[trigger] old(meta)@[i]).live ==> final (meta)@[i]
                == old(meta)@[i] && final (ents)@[i].sim_entity == old(ents)@[i].sim_entity,
        forall|i: int|
            0 <= i < old(meta)@.len() ==> (#[trigger] final (meta)@[i]).generation == old(
                meta,
            )@[i].generation,
        forall|i: int|
            0 <= i < final (meta)@.len() && (#[trigger] final (meta)@[i]).live ==> (i < old(
                meta,
            )@.len() && old(meta)@[i].live && final (ents)@[i].sim_entity
                == old(ents)@[i].sim_entity) || spec_sim_contains(
                sim@,
                final (ents)@[i].sim_entity,
            ),
{
    let n = sim.len();
    for k in 0..n
        invariant
            n == sim@.len(),
            spec_sim_unique(sim@),
            forall|k2: int| 0 <= k2 < sim@.len() ==> (#[trigger] sim@[k2]).wf(),
            arena_wf(meta@, ents@),
            old(meta)@.len() <= meta@.len(),
            forall|k2: int|
                0 <= k2 < k ==> spec_has_mirror(meta@, ents@, #[trigger] sim@[k2]),
            forall|i: int|
                0 <= i < old(meta)@.len() && (#[trigger] old(meta)@[i]).live ==> meta@[i] == old(
                    meta,
                )@[i] && ents@[i].sim_entity == old(ents)@[i].sim_entity,
            forall|i: int|
                0 <= i < old(meta)@.len() ==> (#[trigger] meta@[i]).generation == old(
                    meta,
                )@[i].generation,
            forall|i: int|
                0 <= i < meta@.len() && (#[trigger] meta@[i]).live ==> (i < old(meta)@.len()
                    && old(meta)@[i].live && ents@[i].sim_entity == old(ents)@[i].sim_entity)
                    || spec_sim_contains(sim@, ents@[i].sim_entity),
    {
        let r = sim[k];
        let ghost prev_meta = meta@;
        let ghost prev_ents = ents@;
        let target: usize = match find_mirror(meta, ents, r.sim_entity) {
            Option::Some(i) => {
                ents[i] = mirror_record(i, meta[i].generation, &r);
                i
            },
            Option::None => {
                match find_free(meta) {
                    Option::Some(i) => {
                        let g = meta[i].generation;
                        meta[i] = SlotMeta { generation: g, live: true };
                        ents[i] = mirror_record(i, g, &r);
                        i
                    },
                    Option::None => {
                        let i = meta.len();
                        meta.push(SlotMeta { generation: 0, live: true });
                        ents.push(mirror_record(i, 0, &r));
                        i
                    },
                }
            },
        };
        proof {
            let t = target as int;
            assert(meta@[t].live && spec_mirror_of(ents@[t], sim@[k as int]));
            assert forall|i: int| 0 <= i < meta@.len() && i != t implies meta@[i]
                == prev_meta[i] && ents@[i] == prev_ents[i] by {}
            assert forall|k2: int| 0 <= k2 < k + 1 implies spec_has_mirror(
                meta@,
                ents@,
                #[trigger] sim@[k2],
            ) by {
                if k2 == k {
                    assert(meta@[t].live && spec_mirror_of(ents@[t], sim@[k2]));
                } else {
                    assert(spec_has_mirror(prev_meta, prev_ents, sim@[k2]));
                    let w = choose|i: int|
                        0 <= i < prev_meta.len() && (#[trigger] prev_meta[i]).live
                            && spec_mirror_of(prev_ents[i], sim@[k2]);
                    assert(sim@[k2].sim_entity != sim@[k as int].sim_entity);
                    if w == t {
                        assert(prev_ents[w].sim_entity == sim@[k2].sim_entity);
                        assert(false);
                    }
                    assert(meta@[w].live && spec_mirror_of(ents@[w], sim@[k2]));
                }
            }
        }
    }
}

/// Types that can be used as data in the render world. Automatically
/// implemented for all types that can move between the worker threads of
/// a stage.
pub trait RenderData: Send + Sync {

}

impl<T: Send + Sync> RenderData for T {

}

/// The render world: the generational arena of mirrored entities, the
/// frame's view registry and computed draw lists, and the stage the
/// current frame is in.
#[derive(Debug)]
pub struct RenderWorld {
    /// Liveness and generation of each arena slot.
    pub meta: Vec<SlotMeta>,
    /// The data column of the arena, one record per slot.
    pub entities: Vec<RenderEntityData>,
    /// The view registry of the current frame.
    pub views: RenderViews,
    /// The draw lists of the last ordering stage, one per view.
    pub computed_views: Vec<ComputedRenderView>,
    /// The stage the current frame is in.
    pub stage: FrameStage,
}

impl RenderWorld {
    pub open spec fn wf(self) -> bool {
        &&& arena_wf(self.meta@, self.entities@)
        &&& self.views.wf()
    }

    /// A fresh render world: an empty arena, an empty view registry, no
    /// computed draw lists, and no frame in flight.
    pub fn new() -> (r: RenderWorld)
        ensures
            r.wf(),
            r.meta@.len() == 0,
            r.entities@.len() == 0,
            r.views.views@.len() == 0,
            r.computed_views@.len() == 0,
            r.stage == FrameStage::Idle,
    {
        RenderWorld {
            meta: Vec::new(),
            entities: Vec::new(),
            views: RenderViews::new(),
            computed_views: Vec::new(),
            stage: FrameStage::Idle,
        }
    }

    /// The handle `e` currently names a live entity: its slot exists, is
    /// live, and still carries the generation the handle was minted with.
    pub open spec fn spec_live(self, e: RenderEntity) -> bool {
        &&& (e.index as int) < self.meta@.len()
        &&& self.meta@[e.index as int].live
        &&& self.meta@[e.index as int].generation == e.generation
    }

    /// Dereference a handle: the slot's record if the handle is current,
    /// and nothing if it is stale.
    pub fn get(&self, e: RenderEntity) -> (r: Option<&RenderEntityData>)
        requires
            self.wf(),
        ensures
            match r {
                Option::Some(d) => self.spec_live(e) && *d == self.entities@[e.index as int],
                Option::None => !self.spec_live(e),
            },
    {
        if e.index < self.meta.len() && self.meta[e.index].live && self.meta[e.index].generation
            == e.generation {
            Some(&self.entities[e.index])
        } else {
            None
        }
    }

    /// Dereference a back-reference. A reference that points nowhere, or
    /// whose simulation counterpart's mirror has been dropped, fails
    /// explicitly with `StaleRenderWorldEntity` instead of silently
    /// reaching reused state.
    pub fn resolve(&self, reference: &RenderWorldEntity) -> (r: Result<
        &RenderEntityData,
        VisibilityError,
    >)
        requires
            self.wf(),
        ensures
            match r {
                Result::Ok(d) => {
                    &&& reference.render_entity is Some
                    &&& self.spec_live(reference.render_entity->0)
                    &&& *d == self.entities@[reference.render_entity->0.index as int]
                },
                Result::Err(e) => {
                    &&& e == VisibilityError::StaleRenderWorldEntity
                    &&& match reference.render_entity {
                        Option::Some(re) => !self.spec_live(re),
                        Option::None => true,
                    }
                },
            },
    {
        match reference.render_entity {
            Option::Some(re) => match self.get(re) {
                Option::Some(d) => Ok(d),
                Option::None => Err(VisibilityError::StaleRenderWorldEntity),
            },
            Option::None => Err(VisibilityError::StaleRenderWorldEntity),
        }
    }

    /// The back-reference for a simulation entity: its live mirror's
    /// handle if one exists, and none otherwise.
    pub fn render_world_entity(&self, sim_entity: u64) -> (r: RenderWorldEntity)
        requires
            self.wf(),
        ensures
            match r.render_entity {
                Option::Some(e) => self.spec_live(e) && self.entities@[e.index as int].sim_entity
                    == sim_entity,
                Option::None => forall|i: int|
                    0 <= i < self.meta@.len() ==> !((#[trigger] self.meta@[i]).live
                        && self.entities@[i].sim_entity == sim_entity),
            },
    {
        match find_mirror(&self.meta, &self.entities, sim_entity) {
            Option::Some(i) => RenderWorldEntity {
                render_entity: Some(RenderEntity { index: i, generation: self.meta[i].generation }),
            },
            Option::None => RenderWorldEntity { render_entity: None },
        }
    }

    /// Publish the frame's view list. Producers publish before the
    /// extraction barrier; once the frame is in flight the registry is
    /// frozen.
    pub fn publish_views(&mut self, views: Vec<RenderView>)
        requires
            old(self).wf(),
            old(self).stage == FrameStage::Idle,
            forall|i: int| 0 <= i < views@.len() ==> (#[trigger] views@[i]).wf(),
        ensures
            final (self).wf(),
            final (self).views.views@ == views@,
            final (self).stage == FrameStage::Idle,
            final (self).meta == old(self).meta,
            final (self).entities == old(self).entities,
            final (self).computed_views == old(self).computed_views,
    {
        self.views.publish(views);
    }

    /// Enter the frame: `Idle -> Extracting`. The only transition out of
    /// `Idle`, and the only way a frame starts.
    pub fn begin_frame(&mut self)
        requires
            old(self).wf(),
            old(self).stage == FrameStage::Idle,
        ensures
            final (self).wf(),
            final (self).stage == FrameStage::Extracting,
            final (self).meta == old(self).meta,
            final (self).entities == old(self).entities,
            final (self).views == old(self).views,
            final (self).computed_views == old(self).computed_views,
    {
        self.stage = FrameStage::Extracting;
    }

    /// The extraction stage: `Extracting -> Evaluating`.
    ///
    /// Synchronize the arena with the simulation batch: every simulation
    /// record finds or gets a live mirror holding its freshly extracted
    /// values with no visibility recorded yet; a mirror that already
    /// existed keeps its slot and handle; mirrors whose counterpart is
    /// absent from the batch are dropped; and afterwards every live slot
    /// mirrors some record of the batch.
    pub fn run_extraction(&mut self, sim: &Vec<SimEntityRecord>)
        requires
            old(self).wf(),
            old(self).stage == FrameStage::Extracting,
            spec_sim_unique(sim@),
            forall|k: int| 0 <= k < sim@.len() ==> (#[trigger] sim@[k]).wf(),
        ensures
            final (self).wf(),
            final (self).stage == FrameStage::Evaluating,
            final (self).views == old(self).views,
            final (self).computed_views == old(self).computed_views,
            forall|k: int|
                0 <= k < sim@.len() ==> spec_has_mirror(
                    final (self).meta@,
                    final (self).entities@,
                    #[trigger] sim@[k],
                ),
            forall|i: int|
                0 <= i < final (self).meta@.len() && (#[trigger] final (self).meta@[i]).live
                    ==> spec_sim_contains(sim@, final (self).entities@[i].sim_entity),
            forall|i: int|
                0 <= i < old(self).meta@.len() && (#[trigger] old(self).meta@[i]).live
                    && spec_sim_contains(sim@, old(self).entities@[i].sim_entity)
                    ==> final (self).meta@[i].live && final (self).meta@[i].generation == old(self).meta@[i].generation
                    && final (self).entities@[i].sim_entity == old(self).entities@[i].sim_entity,
            forall|i: int|
                0 <= i < old(self).meta@.len() && (#[trigger] old(self).meta@[i]).live
                    && !spec_sim_contains(sim@, old(self).entities@[i].sim_entity)
                    ==> final (self).meta@[i].generation == old(self).meta@[i].generation + 1,
    {
        prune_missing(&mut self.meta, &mut self.entities, sim);
        upsert_records(&mut self.meta, &mut self.entities, sim);
        self.stage = FrameStage::Evaluating;
    }

    /// The evaluation stage: `Evaluating -> Ordering`.
    ///
    /// Rewrite every slot's `FrameVisibility` against the published
    /// views, as [`visible_entities_system`] does, and return the slot
    /// indices rejected for an unrepresentable transform. No slot's
    /// liveness, handle or extracted values change.
    pub fn run_evaluation(&mut self) -> (rejected: Vec<usize>)
        requires
            old(self).wf(),
            old(self).stage == FrameStage::Evaluating,
        ensures
            final (self).wf(),
            final (self).stage == FrameStage::Ordering,
            final (self).meta == old(self).meta,
            final (self).views == old(self).views,
            final (self).computed_views == old(self).computed_views,
            final (self).entities@.len() == old(self).entities@.len(),
            forall|i: int|
                0 <= i < old(self).entities@.len() ==> spec_evaluated(
                    old(self).entities@,
                    i,
                    old(self).views.views@,
                    #[trigger] final (self).entities@[i],
                ),
            rejected@ == spec_rejected_indices(old(self).entities@),
    {
        let rejected = visible_entities_system(&self.views, &mut self.entities);
        self.stage = FrameStage::Ordering;
        rejected
    }

    /// The ordering stage: `Ordering -> Published`, or directly back to
    /// `Idle` on an internal-consistency fault.
    ///
    /// Build one draw list per published view from the frame's
    /// visibility records. A record carrying an out-of-range view index
    /// cannot arise from this frame's evaluation, so the stage halts the
    /// frame with `ViewIndexOutOfRange`, discards partial results and
    /// returns the world to `Idle`.
    pub fn run_ordering(&mut self) -> (r: Result<(), VisibilityError>)
        requires
            old(self).wf(),
            old(self).stage == FrameStage::Ordering,
        ensures
            final (self).wf(),
            final (self).meta == old(self).meta,
            final (self).entities == old(self).entities,
            final (self).views == old(self).views,
            r is Err <==> spec_index_fault(
                old(self).entities@,
                old(self).views.views@.len() as int,
            ),
            match r {
                Result::Ok(u) => {
                    &&& final (self).stage == FrameStage::Published
                    &&& final (self).computed_views@.len() == old(self).views.views@.len()
                    &&& forall|i: int|
                        0 <= i < final (self).computed_views@.len()
                            ==> (#[trigger] final (self).computed_views@[i]).spawning_feature@
                            == old(self).views.views@[i].spawning_feature@
                    &&& forall|i: int|
                        0 <= i < final (self).computed_views@.len()
                            ==> (#[trigger] final (self).computed_views@[i]).view_nodes@ == spec_draw_list(
                            old(self).entities@,
                            i as usize,
                        )
                },
                Result::Err(e) => {
                    &&& e == VisibilityError::ViewIndexOutOfRange
                    &&& final (self).stage == FrameStage::Idle
                    &&& final (self).computed_views@.len() == 0
                },
            },
    {
        match build_draw_lists(&self.views, &self.entities) {
            Result::Ok(lists) => {
                self.computed_views = lists;
                self.stage = FrameStage::Published;
                Ok(())
            },
            Result::Err(e) => {
                self.computed_views = Vec::new();
                self.stage = FrameStage::Idle;
                Err(e)
            },
        }
    }

    /// Leave the frame: `Published -> Idle`. The computed draw lists stay
    /// readable until the next ordering stage overwrites them.
    pub fn finish_frame(&mut self)
        requires
            old(self).wf(),
            old(self).stage == FrameStage::Published,
        ensures
            final (self).wf(),
            final (self).stage == FrameStage::Idle,
            final (self).meta == old(self).meta,
            final (self).entities == old(self).entities,
            final (self).views == old(self).views,
            final (self).computed_views == old(self).computed_views,
    {
        self.stage = FrameStage::Idle;
    }

    /// Abandon the frame from any stage: partial draw lists are
    /// discarded and the world returns to `Idle`. The arena itself is
    /// left as the last completed stage wrote it.
    pub fn abort_frame(&mut self)
        requires
            old(self).wf(),
        ensures
            final (self).wf(),
            final (self).stage == FrameStage::Idle,
            final (self).computed_views@.len() == 0,
            final (self).meta == old(self).meta,
            final (self).entities == old(self).entities,
            final (self).views == old(self).views,
    {
        self.computed_views = Vec::new();
        self.stage = FrameStage::Idle;
    }
}

} // verus!
