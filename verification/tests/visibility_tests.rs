use render_visibility::geometry::{dist_sq, Plane, Vec3};
use render_visibility::visibility::{
    evaluate_entity, visible_entities_system, Bounds, GlobalTransform, RenderView, RenderViews,
    ViewVisibility, ViewVolume, Visible, VisibilityError,
};
use render_visibility::entity::{RenderEntity, RenderEntityData};
use render_visibility::visibility::FrameVisibility;

fn wide_view(name: &str, origin: Vec3) -> RenderView {
    RenderView {
        spawning_feature: String::from(name),
        origin,
        volume: ViewVolume::Edges2D { left: -1000, right: 1000, bottom: -1000, top: 1000 },
    }
}

fn box_frustum(origin: Vec3) -> RenderView {
    RenderView {
        spawning_feature: String::from("camera3d"),
        origin,
        volume: ViewVolume::Frustum3D {
            near: Plane { norm: Vec3::new(0, 0, 1), point: Vec3::new(0, 0, -10) },
            far: Plane { norm: Vec3::new(0, 0, -1), point: Vec3::new(0, 0, 10) },
            left: Plane { norm: Vec3::new(1, 0, 0), point: Vec3::new(-10, 0, 0) },
            right: Plane { norm: Vec3::new(-1, 0, 0), point: Vec3::new(10, 0, 0) },
            bottom: Plane { norm: Vec3::new(0, 1, 0), point: Vec3::new(0, -10, 0) },
            top: Plane { norm: Vec3::new(0, -1, 0), point: Vec3::new(0, 10, 0) },
        },
    }
}

fn plain_visible(bounds: Bounds, occluder: bool, hidden: bool) -> Visible {
    Visible { bounds, occluder, hidden }
}

fn at(x: i64, y: i64, z: i64) -> GlobalTransform {
    GlobalTransform::Finite { translation: Vec3::new(x, y, z) }
}

fn record(index: usize, sim: u64, visible: Visible, transform: GlobalTransform) -> RenderEntityData {
    RenderEntityData {
        entity: RenderEntity { index, generation: 0 },
        sim_entity: sim,
        mesh: 0,
        transform,
        visible,
        visibility: FrameVisibility::empty(),
    }
}

#[test]
fn dist_sq_exact_value() {
    assert_eq!(dist_sq(Vec3::new(1, 2, 3), Vec3::new(4, 6, 3)), 25);
}

#[test]
fn dist_sq_zero_for_same_point() {
    assert_eq!(dist_sq(Vec3::new(7, -8, 9), Vec3::new(7, -8, 9)), 0);
}

#[test]
fn rsq4_sphere_formula() {
    assert_eq!(Bounds::Sphere { radius: 3 }.rsq4(), 36);
}

#[test]
fn rsq4_rect_formula() {
    assert_eq!(Bounds::Rect { width: 4, height: 3 }.rsq4(), 25);
}

#[test]
fn frustum_accepts_point_inside() {
    let views = {
        let mut v = RenderViews::new();
        v.publish(vec![box_frustum(Vec3::new(0, 0, 0))]);
        v
    };
    let vis = plain_visible(Bounds::Sphere { radius: 0 }, false, false);
    let fv = evaluate_entity(&views, &vis, &at(1, 2, 3)).unwrap();
    assert!(fv.frame_visible);
    assert_eq!(fv.visible_to_views.len(), 1);
    assert_eq!(fv.visible_to_views[0].view_index, 0);
    assert_eq!(fv.visible_to_views[0].order, 14);
}

#[test]
fn frustum_rejects_point_outside() {
    let views = {
        let mut v = RenderViews::new();
        v.publish(vec![box_frustum(Vec3::new(0, 0, 0))]);
        v
    };
    let vis = plain_visible(Bounds::Sphere { radius: 0 }, false, false);
    let fv = evaluate_entity(&views, &vis, &at(15, 0, 0)).unwrap();
    assert!(!fv.frame_visible);
    assert!(fv.visible_to_views.is_empty());
}

#[test]
fn frustum_accepts_intersecting_sphere() {
    let views = {
        let mut v = RenderViews::new();
        v.publish(vec![box_frustum(Vec3::new(0, 0, 0))]);
        v
    };
    // Center is 5 units past the right plane, but the radius-6 ball
    // still reaches the inner half-space.
    let vis = plain_visible(Bounds::Sphere { radius: 6 }, false, false);
    let fv = evaluate_entity(&views, &vis, &at(15, 0, 0)).unwrap();
    assert!(fv.frame_visible);
}

#[test]
fn frustum_rect_uses_circumscribed_ball() {
    let views = {
        let mut v = RenderViews::new();
        v.publish(vec![box_frustum(Vec3::new(0, 0, 0))]);
        v
    };
    // Width 6, height 8: circumradius 5. Two units past the far plane
    // passes; six units past does not.
    let vis = plain_visible(Bounds::Rect { width: 6, height: 8 }, false, false);
    assert!(evaluate_entity(&views, &vis, &at(0, 0, 12)).unwrap().frame_visible);
    assert!(!evaluate_entity(&views, &vis, &at(0, 0, 16)).unwrap().frame_visible);
}

#[test]
fn edges_overlap_sphere() {
    let view = RenderView {
        spawning_feature: String::from("camera2d"),
        origin: Vec3::new(0, 0, 0),
        volume: ViewVolume::Edges2D { left: 0, right: 10, bottom: 0, top: 10 },
    };
    let mut views = RenderViews::new();
    views.publish(vec![view]);
    let vis = plain_visible(Bounds::Sphere { radius: 2 }, false, false);
    // Center just left of the region, radius reaches in.
    assert!(evaluate_entity(&views, &vis, &at(-1, 5, 0)).unwrap().frame_visible);
    // Too far left.
    assert!(!evaluate_entity(&views, &vis, &at(-3, 5, 0)).unwrap().frame_visible);
}

#[test]
fn edges_overlap_rect_half_extents() {
    let view = RenderView {
        spawning_feature: String::from("camera2d"),
        origin: Vec3::new(0, 0, 0),
        volume: ViewVolume::Edges2D { left: 0, right: 10, bottom: 0, top: 10 },
    };
    let mut views = RenderViews::new();
    views.publish(vec![view]);
    // Width 4: half extent 2, so x = -2 touches the left edge.
    let vis = plain_visible(Bounds::Rect { width: 4, height: 4 }, false, false);
    assert!(evaluate_entity(&views, &vis, &at(-2, 5, 0)).unwrap().frame_visible);
    assert!(!evaluate_entity(&views, &vis, &at(-3, 5, 0)).unwrap().frame_visible);
}

#[test]
fn hidden_entity_invisible_with_views() {
    let mut views = RenderViews::new();
    views.publish(vec![wide_view("a", Vec3::new(0, 0, 0)), wide_view("b", Vec3::new(1, 0, 0))]);
    let vis = plain_visible(Bounds::Sphere { radius: 5 }, true, true);
    let fv = evaluate_entity(&views, &vis, &at(0, 0, 0)).unwrap();
    assert!(!fv.frame_visible);
    assert!(fv.visible_to_views.is_empty());
}

#[test]
fn hidden_entity_invisible_with_zero_views() {
    let views = RenderViews::new();
    let vis = plain_visible(Bounds::Sphere { radius: 5 }, false, true);
    let fv = evaluate_entity(&views, &vis, &at(0, 0, 0)).unwrap();
    assert!(!fv.frame_visible);
    assert!(fv.visible_to_views.is_empty());
}

#[test]
fn zero_views_yields_invisible_entities() {
    let views = RenderViews::new();
    let vis = plain_visible(Bounds::Sphere { radius: 1 }, false, false);
    let fv = evaluate_entity(&views, &vis, &at(3, 4, 0)).unwrap();
    assert!(!fv.frame_visible);
    assert!(fv.visible_to_views.is_empty());
}

#[test]
fn nonfinite_transform_is_rejected() {
    let mut views = RenderViews::new();
    views.publish(vec![wide_view("a", Vec3::new(0, 0, 0))]);
    let vis = plain_visible(Bounds::Sphere { radius: 1 }, false, false);
    let r = evaluate_entity(&views, &vis, &GlobalTransform::NonFinite);
    assert_eq!(r.unwrap_err(), VisibilityError::InvalidTransform);
}

#[test]
fn hidden_wins_over_nonfinite() {
    let mut views = RenderViews::new();
    views.publish(vec![wide_view("a", Vec3::new(0, 0, 0))]);
    let vis = plain_visible(Bounds::Sphere { radius: 1 }, false, true);
    let fv = evaluate_entity(&views, &vis, &GlobalTransform::NonFinite).unwrap();
    assert!(!fv.frame_visible);
}

#[test]
fn membership_order_is_squared_distance() {
    let mut views = RenderViews::new();
    views.publish(vec![wide_view("a", Vec3::new(0, 0, 0))]);
    let vis = plain_visible(Bounds::Sphere { radius: 0 }, false, false);
    let fv = evaluate_entity(&views, &vis, &at(3, 4, 0)).unwrap();
    assert_eq!(fv.visible_to_views.len(), 1);
    assert_eq!(fv.visible_to_views[0], ViewVisibility { view_index: 0, order: 25 });
}

#[test]
fn memberships_in_view_index_order() {
    let mut views = RenderViews::new();
    views.publish(vec![
        wide_view("a", Vec3::new(0, 0, 0)),
        wide_view("b", Vec3::new(1, 0, 0)),
        wide_view("c", Vec3::new(2, 0, 0)),
    ]);
    let vis = plain_visible(Bounds::Sphere { radius: 0 }, false, false);
    let fv = evaluate_entity(&views, &vis, &at(5, 0, 0)).unwrap();
    assert_eq!(fv.visible_to_views.len(), 3);
    assert_eq!(fv.visible_to_views[0], ViewVisibility { view_index: 0, order: 25 });
    assert_eq!(fv.visible_to_views[1], ViewVisibility { view_index: 1, order: 16 });
    assert_eq!(fv.visible_to_views[2], ViewVisibility { view_index: 2, order: 9 });
}

#[test]
fn system_reports_rejected_indices() {
    let mut views = RenderViews::new();
    views.publish(vec![wide_view("a", Vec3::new(0, 0, 0))]);
    let ok = plain_visible(Bounds::Sphere { radius: 0 }, false, false);
    let mut entities = vec![
        record(0, 1, ok, at(1, 0, 0)),
        record(1, 2, ok, GlobalTransform::NonFinite),
        record(2, 3, ok, at(2, 0, 0)),
        record(3, 4, plain_visible(Bounds::Sphere { radius: 0 }, false, true), GlobalTransform::NonFinite),
    ];
    let rejected = visible_entities_system(&views, &mut entities);
    // Only the non-hidden entity with the bad transform is reported.
    assert_eq!(rejected, vec![1]);
    assert!(entities[0].visibility.frame_visible);
    assert!(!entities[1].visibility.frame_visible);
    assert!(entities[1].visibility.visible_to_views.is_empty());
    assert!(entities[2].visibility.frame_visible);
    assert!(!entities[3].visibility.frame_visible);
}

#[test]
fn publish_replaces_view_list() {
    let mut views = RenderViews::new();
    views.publish(vec![wide_view("a", Vec3::new(0, 0, 0))]);
    assert_eq!(views.len(), 1);
    views.publish(vec![]);
    assert_eq!(views.len(), 0);
    assert!(views.views().is_empty());
}

#[test]
fn view_visibility_new_sets_fields() {
    let vv = ViewVisibility::new(4, 99);
    assert_eq!(vv.view_index, 4);
    assert_eq!(vv.order, 99);
}

#[test]
fn check_wf_rejects_out_of_world_view() {
    let bad = RenderView {
        spawning_feature: String::from("x"),
        origin: Vec3::new(2_000_000, 0, 0),
        volume: ViewVolume::Edges2D { left: 0, right: 1, bottom: 0, top: 1 },
    };
    assert!(!bad.check_wf());
    assert!(wide_view("ok", Vec3::new(0, 0, 0)).check_wf());
}

#[test]
fn check_wf_rejects_zero_normal_plane() {
    let flat = Plane { norm: Vec3::new(0, 0, 0), point: Vec3::new(0, 0, 0) };
    assert!(!flat.check_wf());
    let fine = Plane { norm: Vec3::new(0, 0, 1), point: Vec3::new(0, 0, 0) };
    assert!(fine.check_wf());
}
