//! Entity identity shared between the simulation store and the render
//! world: arena handles, weak back-references, and the component bundles
//! that extraction copies between the two stores.

use vstd::prelude::*;

use crate::visibility::Bounds;
use crate::visibility::FrameVisibility;
use crate::visibility::GlobalTransform;
use crate::visibility::Visible;
use crate::geometry::Vec3;

verus! {

/// Handle to an entity in the render world's arena: a slot index plus the
/// generation the slot carried when the entity was spawned. After the slot
/// is freed the generation moves on, so an outdated handle is detected as
/// stale instead of silently reaching reused state.
#[derive(Clone, Copy, Debug, PartialEq, Eq, Structural)]
pub struct RenderEntity {
    pub index: usize,
    pub generation: u64,
}

/// If it exists, the corresponding entity in the render world: a weak,
/// non-owning back-reference from a simulation entity to its render-world
/// mirror. Absence of the mirror, or a stale handle, must fail explicitly
/// when dereferenced.
#[derive(Clone, Copy, Debug, PartialEq, Eq, Structural)]
pub struct RenderWorldEntity {
    pub render_entity: Option<RenderEntity>,
}

impl Default for RenderWorldEntity {
    /// A back-reference that points at no render-world entity yet.
    fn default() -> (r: RenderWorldEntity)
        ensures
            r.render_entity is None,
    {
        RenderWorldEntity { render_entity: None }
    }
}

/// The render-relevant values of one simulation entity, as handed to the
/// extraction pass: the simulation identity, the mesh handle, the sampled
/// world transform and the `Visible` component.
#[derive(Clone, Copy, Debug, PartialEq, Eq, Structural)]
pub struct SimEntityRecord {
    /// Identity of the entity in the simulation store.
    pub sim_entity: u64,
    /// Handle of the mesh asset the entity renders with.
    pub mesh: u64,
    pub transform: GlobalTransform,
    pub visible: Visible,
}

impl SimEntityRecord {
    pub open spec fn wf(self) -> bool {
        &&& self.transform.wf()
        &&& self.visible.wf()
    }

    /// Runtime check of [`SimEntityRecord::wf`].
    pub fn check_wf(&self) -> (r: bool)
        ensures
            r == self.wf(),
    {
        self.transform.check_wf() && self.visible.check_wf()
    }
}

/// The state a render-world entity carries: the back-link to its
/// simulation counterpart, the extracted component values, and the
/// per-frame visibility record the evaluator rewrites.
#[derive(Debug)]
pub struct RenderEntityData {
    /// This entity's own handle in the render world.
    pub entity: RenderEntity,
    /// Identity of the simulation counterpart this entity mirrors.
    pub sim_entity: u64,
    /// Handle of the mesh asset the entity renders with.
    pub mesh: u64,
    pub transform: GlobalTransform,
    pub visible: Visible,
    pub visibility: FrameVisibility,
}

impl RenderEntityData {
    pub open spec fn wf(self) -> bool {
        &&& self.transform.wf()
        &&& self.visible.wf()
    }
}

/// A builder which collects the render-relevant values of one simulation
/// entity before extraction copies them into the render world. Values not
/// supplied fall back to an inert default: mesh handle zero, an identity
/// transform, and a non-occluding, non-hidden point bound.
#[derive(Clone, Copy, Debug, PartialEq, Eq, Structural)]
pub struct RenderEntityBuilder {
    pub mesh: Option<u64>,
    pub transform: Option<GlobalTransform>,
    pub visible: Option<Visible>,
}

impl RenderEntityBuilder {
    pub fn new() -> (r: RenderEntityBuilder)
        ensures
            r.mesh is None,
            r.transform is None,
            r.visible is None,
    {
        RenderEntityBuilder { mesh: None, transform: None, visible: None }
    }

    pub fn with_mesh(&mut self, mesh: u64)
        ensures
            final (self).mesh == Some(mesh),
            final (self).transform == old(self).transform,
            final (self).visible == old(self).visible,
    {
        self.mesh = Some(mesh);
    }

    pub fn with_transform(&mut self, transform: GlobalTransform)
        ensures
            final (self).mesh == old(self).mesh,
            final (self).transform == Some(transform),
            final (self).visible == old(self).visible,
    {
        self.transform = Some(transform);
    }

    pub fn with_visible(&mut self, visible: Visible)
        ensures
            final (self).mesh == old(self).mesh,
            final (self).transform == old(self).transform,
            final (self).visible == Some(visible),
    {
        self.visible = Some(visible);
    }

    /// The record extraction will copy for the simulation entity
    /// `sim_entity`, with inert defaults for values never supplied.
    pub fn build(&self, sim_entity: u64) -> (r: SimEntityRecord)
        ensures
            r.sim_entity == sim_entity,
            r.mesh == match self.mesh {
                Some(m) => m,
                None => 0u64,
            },
            r.transform == match self.transform {
                Some(t) => t,
                None => GlobalTransform::Finite { translation: Vec3 { x: 0, y: 0, z: 0 } },
            },
            r.visible == match self.visible {
                Some(v) => v,
                None => (Visible {
                    bounds: Bounds::Sphere { radius: 0 },
                    occluder: false,
                    hidden: false,
                }),
            },
    {
        let mesh: u64 = match self.mesh {
            Some(m) => m,
            None => 0,
        };
        let transform: GlobalTransform = match self.transform {
            Some(t) => t,
            None => GlobalTransform::Finite { translation: Vec3 { x: 0, y: 0, z: 0 } },
        };
        let visible: Visible = match self.visible {
            Some(v) => v,
            None => Visible { bounds: Bounds::Sphere { radius: 0 }, occluder: false, hidden: false },
        };
        SimEntityRecord { sim_entity, mesh, transform, visible }
    }
}

impl Default for RenderEntityBuilder {
    /// A builder with no value supplied yet, as [`RenderEntityBuilder::new`]
    /// builds.
    fn default() -> (r: RenderEntityBuilder)
        ensures
            r.mesh is None,
            r.transform is None,
            r.visible is None,
    {
        RenderEntityBuilder { mesh: None, transform: None, visible: None }
    }
}

/// A component bundle for "mesh" entities on the simulation side: what a
/// renderable entity carries so that extraction can mirror it.
#[derive(Debug)]
pub struct MeshComponents {
    /// Handle of the mesh asset.
    pub mesh: u64,
    pub transform: GlobalTransform,
    pub visible: Visible,
    pub visibility: FrameVisibility,
    pub render_world_entity: RenderWorldEntity,
}

impl MeshComponents {
    /// The extraction record for this bundle, under the simulation identity
    /// `sim_entity`.
    pub fn extraction_record(&self, sim_entity: u64) -> (r: SimEntityRecord)
        ensures
            r == (SimEntityRecord {
                sim_entity,
                mesh: self.mesh,
                transform: self.transform,
                visible: self.visible,
            }),
    {
        SimEntityRecord {
            sim_entity,
            mesh: self.mesh,
            transform: self.transform,
            visible: self.visible,
        }
    }
}

impl Default for MeshComponents {
    /// An inert bundle: mesh handle zero, identity transform, a
    /// non-occluding, non-hidden point bound, no visibility recorded and no
    /// render-world mirror yet.
    fn default() -> (r: MeshComponents)
        ensures
            r.mesh == 0u64,
            r.transform == (GlobalTransform::Finite { translation: Vec3 { x: 0, y: 0, z: 0 } }),
            r.visible == (Visible {
                bounds: Bounds::Sphere { radius: 0 },
                occluder: false,
                hidden: false,
            }),
            !r.visibility.frame_visible,
            r.visibility.visible_to_views@ =~= Seq::<crate::visibility::ViewVisibility>::empty(),
            r.render_world_entity.render_entity is None,
    {
        MeshComponents {
            mesh: 0,
            transform: GlobalTransform::Finite { translation: Vec3 { x: 0, y: 0, z: 0 } },
            visible: Visible { bounds: Bounds::Sphere { radius: 0 }, occluder: false, hidden: false },
            visibility: FrameVisibility::empty(),
            render_world_entity: RenderWorldEntity { render_entity: None },
        }
    }
}

} // verus!
