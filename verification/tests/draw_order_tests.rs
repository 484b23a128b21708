use render_visibility::draw_order::{build_draw_lists, build_view_nodes, sort_view_nodes, ViewNode};
use render_visibility::entity::{RenderEntity, RenderEntityData};
use render_visibility::geometry::Vec3;
use render_visibility::visibility::{
    visible_entities_system, Bounds, FrameVisibility, GlobalTransform, RenderView, RenderViews,
    ViewVisibility, ViewVolume, Visible, VisibilityError,
};

fn origin_view() -> RenderViews {
    let mut views = RenderViews::new();
    views.publish(vec![RenderView {
        spawning_feature: String::from("main"),
        origin: Vec3::new(0, 0, 0),
        volume: ViewVolume::Edges2D { left: -1000, right: 1000, bottom: -1000, top: 1000 },
    }]);
    views
}

fn entity_at(index: usize, sim: u64, x: i64, occluder: bool) -> RenderEntityData {
    RenderEntityData {
        entity: RenderEntity { index, generation: 0 },
        sim_entity: sim,
        mesh: 0,
        transform: GlobalTransform::Finite { translation: Vec3::new(x, 0, 0) },
        visible: Visible { bounds: Bounds::Sphere { radius: 0 }, occluder, hidden: false },
        visibility: FrameVisibility::empty(),
    }
}

fn node(index: usize, order: u64, occluder: bool) -> ViewNode {
    ViewNode { render_entity: RenderEntity { index, generation: 0 }, order, occluder }
}

#[test]
fn opaque_bucket_sorts_ascending() {
    let nodes = vec![node(0, 9, true), node(1, 1, true), node(2, 4, true)];
    let sorted = sort_view_nodes(nodes, false);
    let orders: Vec<u64> = sorted.iter().map(|n| n.order).collect();
    assert_eq!(orders, vec![1, 4, 9]);
}

#[test]
fn transparent_bucket_sorts_descending() {
    let nodes = vec![node(0, 9, false), node(1, 1, false), node(2, 4, false)];
    let sorted = sort_view_nodes(nodes, true);
    let orders: Vec<u64> = sorted.iter().map(|n| n.order).collect();
    assert_eq!(orders, vec![9, 4, 1]);
}

#[test]
fn sort_ties_break_by_entity_index() {
    let nodes = vec![node(5, 7, true), node(2, 7, true), node(9, 7, true)];
    let sorted = sort_view_nodes(nodes, false);
    let ids: Vec<usize> = sorted.iter().map(|n| n.render_entity.index).collect();
    assert_eq!(ids, vec![2, 5, 9]);
}

#[test]
fn ordering_scenario_opaque_then_transparent() {
    // One view at the origin. A at distance 3 (occluder), B at distance 1
    // (non-occluder), C at distance 2 (occluder). Expected draw list:
    // opaque ascending [C, A], then transparent descending [B].
    let views = origin_view();
    let mut entities = vec![
        entity_at(0, 10, 3, true),  // A
        entity_at(1, 11, 1, false), // B
        entity_at(2, 12, 2, true),  // C
    ];
    let rejected = visible_entities_system(&views, &mut entities);
    assert!(rejected.is_empty());
    let lists = build_draw_lists(&views, &entities).unwrap();
    assert_eq!(lists.len(), 1);
    let sims: Vec<u64> = lists[0]
        .view_nodes
        .iter()
        .map(|n| entities[n.render_entity.index].sim_entity)
        .collect();
    assert_eq!(sims, vec![12, 10, 11]); // C, A, B
    let orders: Vec<u64> = lists[0].view_nodes.iter().map(|n| n.order).collect();
    assert_eq!(orders, vec![4, 9, 1]); // squared distances 2, 3, 1
    assert!(lists[0].view_nodes[0].occluder);
    assert!(lists[0].view_nodes[1].occluder);
    assert!(!lists[0].view_nodes[2].occluder);
    assert_eq!(lists[0].spawning_feature, "main");
}

#[test]
fn equal_distance_occluders_stable_order() {
    // Two occluders at equal distance 4 must come out in the same,
    // reproducible relative order on every run with unchanged input.
    let views = origin_view();
    let mut entities = vec![entity_at(0, 20, 4, true), entity_at(1, 21, -4, true)];
    let rejected = visible_entities_system(&views, &mut entities);
    assert!(rejected.is_empty());
    let first = build_draw_lists(&views, &entities).unwrap();
    let second = build_draw_lists(&views, &entities).unwrap();
    assert_eq!(first[0].view_nodes, second[0].view_nodes);
    let ids: Vec<usize> = first[0].view_nodes.iter().map(|n| n.render_entity.index).collect();
    // Ties break by entity slot index.
    assert_eq!(ids, vec![0, 1]);
    assert_eq!(first[0].view_nodes[0].order, 16);
    assert_eq!(first[0].view_nodes[1].order, 16);
}

#[test]
fn rejected_entity_does_not_disturb_order() {
    let views = origin_view();
    let mut with_bad = vec![
        entity_at(0, 30, 3, true),
        RenderEntityData {
            entity: RenderEntity { index: 1, generation: 0 },
            sim_entity: 31,
            mesh: 0,
            transform: GlobalTransform::NonFinite,
            visible: Visible {
                bounds: Bounds::Sphere { radius: 0 },
                occluder: true,
                hidden: false,
            },
            visibility: FrameVisibility::empty(),
        },
        entity_at(2, 32, 2, false),
    ];
    let rejected = visible_entities_system(&views, &mut with_bad);
    assert_eq!(rejected, vec![1]);
    let lists = build_draw_lists(&views, &with_bad).unwrap();
    let sims: Vec<u64> = lists[0]
        .view_nodes
        .iter()
        .map(|n| with_bad[n.render_entity.index].sim_entity)
        .collect();
    assert_eq!(sims, vec![30, 32]);
}

#[test]
fn out_of_range_view_index_is_fatal() {
    let views = origin_view();
    let mut bad = entity_at(0, 40, 1, true);
    bad.visibility = FrameVisibility {
        frame_visible: true,
        visible_to_views: vec![ViewVisibility { view_index: 5, order: 1 }],
    };
    let entities = vec![bad];
    let r = build_draw_lists(&views, &entities);
    assert_eq!(r.unwrap_err(), VisibilityError::ViewIndexOutOfRange);
}

#[test]
fn zero_views_build_empty_lists() {
    let views = RenderViews::new();
    let mut entities = vec![entity_at(0, 50, 1, true)];
    visible_entities_system(&views, &mut entities);
    let lists = build_draw_lists(&views, &entities).unwrap();
    assert!(lists.is_empty());
}

#[test]
fn view_nodes_for_missing_view_are_empty() {
    let entities = vec![entity_at(0, 60, 1, true)];
    // No evaluation ran, so no memberships exist for any view.
    let nodes = build_view_nodes(&entities, 0);
    assert!(nodes.is_empty());
}
