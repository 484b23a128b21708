//! Per-frame visibility evaluation and draw-order construction for a
//! real-time renderer.
//!
//! Once per rendered frame the pipeline decides which scene entities are
//! visible to which render views (cameras) and produces a deterministically
//! ordered draw list per view. The render world is a secondary entity store,
//! synchronized from the simulation store each frame by an extraction pass,
//! that hosts the per-frame visibility data.
//!
//! All world coordinates are integer world units (a fixed-point encoding
//! chosen by the caller); a transform whose source coordinates cannot be
//! represented (for example, a non-finite value) is carried as
//! [`visibility::GlobalTransform::NonFinite`] and is rejected by the
//! evaluator rather than scored.

pub mod draw_order;
pub mod entity;
pub mod geometry;
pub mod render_world;
pub mod visibility;
