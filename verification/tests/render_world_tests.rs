use render_visibility::entity::{
    MeshComponents, RenderEntityBuilder, RenderWorldEntity, SimEntityRecord,
};
use render_visibility::geometry::Vec3;
use render_visibility::render_world::{check_sim_unique, FrameStage, RenderWorld};
use render_visibility::visibility::{
    Bounds, Dynamic, GlobalTransform, RenderView, Static, ViewVolume, Visible, VisibilityError,
};

fn wide_view(name: &str) -> RenderView {
    RenderView {
        spawning_feature: String::from(name),
        origin: Vec3::new(0, 0, 0),
        volume: ViewVolume::Edges2D { left: -1000, right: 1000, bottom: -1000, top: 1000 },
    }
}

fn sim(sim_entity: u64, x: i64, occluder: bool) -> SimEntityRecord {
    SimEntityRecord {
        sim_entity,
        mesh: 100 + sim_entity,
        transform: GlobalTransform::Finite { translation: Vec3::new(x, 0, 0) },
        visible: Visible { bounds: Bounds::Sphere { radius: 0 }, occluder, hidden: false },
    }
}

fn run_frame(world: &mut RenderWorld, sim_batch: &Vec<SimEntityRecord>) -> Vec<usize> {
    assert!(matches!(world.stage, FrameStage::Idle));
    assert!(check_sim_unique(sim_batch));
    assert!(sim_batch.iter().all(|r| r.check_wf()));
    world.begin_frame();
    world.run_extraction(sim_batch);
    let rejected = world.run_evaluation();
    world.run_ordering().unwrap();
    world.finish_frame();
    rejected
}

#[test]
fn new_world_is_empty_and_idle() {
    let world = RenderWorld::new();
    assert!(world.meta.is_empty());
    assert!(world.entities.is_empty());
    assert!(world.views.views.is_empty());
    assert!(world.computed_views.is_empty());
    assert!(matches!(world.stage, FrameStage::Idle));
}

#[test]
fn full_frame_produces_draw_lists() {
    let mut world = RenderWorld::new();
    world.publish_views(vec![wide_view("main")]);
    let batch = vec![sim(1, 3, true), sim(2, 1, false), sim(3, 2, true)];
    let rejected = run_frame(&mut world, &batch);
    assert!(rejected.is_empty());
    assert_eq!(world.computed_views.len(), 1);
    let sims: Vec<u64> = world.computed_views[0]
        .view_nodes
        .iter()
        .map(|n| world.entities[n.render_entity.index].sim_entity)
        .collect();
    assert_eq!(sims, vec![3, 1, 2]);
}

#[test]
fn repeated_frames_identical_output() {
    let mut world = RenderWorld::new();
    world.publish_views(vec![wide_view("main"), wide_view("aux")]);
    let batch = vec![sim(1, 4, true), sim(2, -4, true), sim(3, 2, false)];
    run_frame(&mut world, &batch);
    let first: Vec<_> = world.computed_views.iter().map(|c| c.view_nodes.clone()).collect();
    run_frame(&mut world, &batch);
    let second: Vec<_> = world.computed_views.iter().map(|c| c.view_nodes.clone()).collect();
    assert_eq!(first, second);
}

#[test]
fn mirrors_keep_their_handles_across_frames() {
    let mut world = RenderWorld::new();
    world.publish_views(vec![wide_view("main")]);
    run_frame(&mut world, &vec![sim(1, 1, false), sim(2, 2, false)]);
    let h1 = world.render_world_entity(1);
    run_frame(&mut world, &vec![sim(1, 5, false), sim(2, 2, false)]);
    let h2 = world.render_world_entity(1);
    assert_eq!(h1, h2);
    let data = world.resolve(&h2).unwrap();
    assert_eq!(data.sim_entity, 1);
    assert_eq!(
        data.transform,
        GlobalTransform::Finite { translation: Vec3::new(5, 0, 0) }
    );
}

#[test]
fn dropped_mirror_reference_goes_stale() {
    let mut world = RenderWorld::new();
    world.publish_views(vec![wide_view("main")]);
    run_frame(&mut world, &vec![sim(1, 1, false)]);
    let stale = world.render_world_entity(1);
    assert!(stale.render_entity.is_some());
    // The simulation entity disappears; its mirror is pruned at the next
    // extraction pass.
    run_frame(&mut world, &vec![]);
    let r = world.resolve(&stale);
    assert_eq!(r.unwrap_err(), VisibilityError::StaleRenderWorldEntity);
    assert!(world.render_world_entity(1).render_entity.is_none());
}

#[test]
fn empty_back_reference_is_stale() {
    let world = RenderWorld::new();
    let none_ref = RenderWorldEntity { render_entity: None };
    assert_eq!(
        world.resolve(&none_ref).unwrap_err(),
        VisibilityError::StaleRenderWorldEntity
    );
}

#[test]
fn freed_slot_is_reused_with_new_generation() {
    let mut world = RenderWorld::new();
    world.publish_views(vec![wide_view("main")]);
    run_frame(&mut world, &vec![sim(1, 1, false)]);
    let old = world.render_world_entity(1).render_entity.unwrap();
    run_frame(&mut world, &vec![]);
    run_frame(&mut world, &vec![sim(9, 3, false)]);
    let new = world.render_world_entity(9).render_entity.unwrap();
    assert_eq!(new.index, old.index);
    assert_ne!(new.generation, old.generation);
    assert!(world.get(old).is_none());
    assert!(world.get(new).is_some());
}

#[test]
fn evaluation_reports_invalid_transforms() {
    let mut world = RenderWorld::new();
    world.publish_views(vec![wide_view("main")]);
    let mut bad = sim(7, 0, false);
    bad.transform = GlobalTransform::NonFinite;
    let batch = vec![sim(1, 1, false), bad];
    let rejected = run_frame(&mut world, &batch);
    assert_eq!(rejected.len(), 1);
    assert_eq!(world.entities[rejected[0]].sim_entity, 7);
    assert!(!world.entities[rejected[0]].visibility.frame_visible);
}

#[test]
fn zero_views_frame_everything_invisible() {
    let mut world = RenderWorld::new();
    let batch = vec![sim(1, 1, false), sim(2, 2, true)];
    run_frame(&mut world, &batch);
    assert!(world.computed_views.is_empty());
    for e in world.entities.iter() {
        assert!(!e.visibility.frame_visible);
    }
}

#[test]
fn abort_frame_discards_partial_results() {
    let mut world = RenderWorld::new();
    world.publish_views(vec![wide_view("main")]);
    world.begin_frame();
    world.run_extraction(&vec![sim(1, 1, false)]);
    world.abort_frame();
    assert!(matches!(world.stage, FrameStage::Idle));
    assert!(world.computed_views.is_empty());
}

#[test]
fn sim_unique_check() {
    assert!(check_sim_unique(&vec![sim(1, 0, false), sim(2, 0, false)]));
    assert!(!check_sim_unique(&vec![sim(1, 0, false), sim(1, 9, true)]));
    assert!(check_sim_unique(&vec![]));
}

#[test]
fn builder_collects_values() {
    let mut b = RenderEntityBuilder::new();
    b.with_mesh(42);
    b.with_transform(GlobalTransform::Finite { translation: Vec3::new(1, 2, 3) });
    b.with_visible(Visible { bounds: Bounds::Rect { width: 2, height: 2 }, occluder: true, hidden: false });
    let r = b.build(17);
    assert_eq!(r.sim_entity, 17);
    assert_eq!(r.mesh, 42);
    assert_eq!(r.transform, GlobalTransform::Finite { translation: Vec3::new(1, 2, 3) });
    assert!(r.visible.occluder);
}

#[test]
fn builder_defaults_are_inert() {
    let r = RenderEntityBuilder::default().build(3);
    assert_eq!(r.mesh, 0);
    assert_eq!(r.transform, GlobalTransform::Finite { translation: Vec3::new(0, 0, 0) });
    assert!(!r.visible.hidden);
    assert!(!r.visible.occluder);
}

#[test]
fn mesh_components_default_and_extraction() {
    let m = MeshComponents::default();
    assert_eq!(m.mesh, 0);
    assert!(m.render_world_entity.render_entity.is_none());
    assert!(!m.visibility.frame_visible);
    let r = m.extraction_record(5);
    assert_eq!(r.sim_entity, 5);
    assert_eq!(r.mesh, 0);
}

#[test]
fn motion_markers_construct() {
    let _d = Dynamic::default();
    let _s = Static::default();
}
