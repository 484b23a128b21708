//! Integer world-space geometry: points, planes and the exact half-space
//! containment tests the visibility evaluator is built on.
//!
//! Coordinates are integer world units. Every coordinate the pipeline
//! handles lies within [`COORD_LIMIT`] of the origin, which keeps every
//! intermediate product of the containment tests inside machine integers,
//! so the tests are exact: no rounding is involved anywhere.

use vstd::prelude::*;

verus! {

/// Largest magnitude a world coordinate may have.
pub const COORD_LIMIT: i64 = 1_000_000;

/// A point or direction in integer world space.
#[derive(Clone, Copy, Debug, PartialEq, Eq, Structural)]
pub struct Vec3 {
    pub x: i64,
    pub y: i64,
    pub z: i64,
}

impl Vec3 {
    /// All three coordinates lie within the world bound.
    pub open spec fn in_world(self) -> bool {
        &&& -COORD_LIMIT <= self.x <= COORD_LIMIT
        &&& -COORD_LIMIT <= self.y <= COORD_LIMIT
        &&& -COORD_LIMIT <= self.z <= COORD_LIMIT
    }

    pub fn new(x: i64, y: i64, z: i64) -> (v: Vec3)
        ensures
            v == (Vec3 { x, y, z }),
    {
        Vec3 { x, y, z }
    }

    /// Runtime check of [`Vec3::in_world`], for callers that receive
    /// coordinates from outside the pipeline.
    pub fn check_in_world(&self) -> (r: bool)
        ensures
            r == self.in_world(),
    {
        -COORD_LIMIT <= self.x && self.x <= COORD_LIMIT && -COORD_LIMIT <= self.y && self.y
            <= COORD_LIMIT && -COORD_LIMIT <= self.z && self.z <= COORD_LIMIT
    }
}

/// Squared Euclidean distance between two points, as a mathematical integer.
pub open spec fn spec_dist_sq(a: Vec3, b: Vec3) -> int {
    (a.x - b.x) * (a.x - b.x) + (a.y - b.y) * (a.y - b.y) + (a.z - b.z) * (a.z - b.z)
}

/// Squared magnitude of a direction vector.
pub open spec fn spec_norm_sq(n: Vec3) -> int {
    n.x * n.x + n.y * n.y + n.z * n.z
}

/// Squared Euclidean distance between two in-world points.
///
/// The squared distance orders points around a center exactly as the
/// Euclidean distance does, and unlike the distance itself it is an exact
/// integer, so it serves as the draw-order key throughout the pipeline.
pub fn dist_sq(a: Vec3, b: Vec3) -> (r: u64)
    requires
        a.in_world(),
        b.in_world(),
    ensures
        r == spec_dist_sq(a, b),
{
    let dx: i64 = a.x - b.x;
    let dy: i64 = a.y - b.y;
    let dz: i64 = a.z - b.z;
    proof {
        assert(0 <= dx * dx <= 4_000_000_000_000) by (nonlinear_arith)
            requires
                -2_000_000 <= dx <= 2_000_000,
        ;
        assert(0 <= dy * dy <= 4_000_000_000_000) by (nonlinear_arith)
            requires
                -2_000_000 <= dy <= 2_000_000,
        ;
        assert(0 <= dz * dz <= 4_000_000_000_000) by (nonlinear_arith)
            requires
                -2_000_000 <= dz <= 2_000_000,
        ;
    }
    let sum: i64 = dx * dx + dy * dy + dz * dz;
    sum as u64
}

/// A plane given by a normal vector and a point on the plane. The normal
/// points toward the inner side of the half-space the plane bounds.
#[derive(Clone, Copy, Debug, PartialEq, Eq, Structural)]
pub struct Plane {
    pub norm: Vec3,
    pub point: Vec3,
}

impl Plane {
    /// Both vectors are in-world and the normal is nonzero (its squared
    /// magnitude is at least one world unit).
    pub open spec fn wf(self) -> bool {
        &&& self.norm.in_world()
        &&& self.point.in_world()
        &&& spec_norm_sq(self.norm) >= 1
    }

    /// Runtime check of [`Plane::wf`].
    pub fn check_wf(&self) -> (r: bool)
        ensures
            r == self.wf(),
    {
        if !(self.norm.check_in_world() && self.point.check_in_world()) {
            return false;
        }
        proof {
            assert(0 <= self.norm.x * self.norm.x <= 1_000_000_000_000) by (nonlinear_arith)
                requires
                    -1_000_000 <= self.norm.x <= 1_000_000,
            ;
            assert(0 <= self.norm.y * self.norm.y <= 1_000_000_000_000) by (nonlinear_arith)
                requires
                    -1_000_000 <= self.norm.y <= 1_000_000,
            ;
            assert(0 <= self.norm.z * self.norm.z <= 1_000_000_000_000) by (nonlinear_arith)
                requires
                    -1_000_000 <= self.norm.z <= 1_000_000,
            ;
        }
        let norm_sq: i64 = self.norm.x * self.norm.x + self.norm.y * self.norm.y + self.norm.z
            * self.norm.z;
        norm_sq >= 1
    }
}

/// Signed side value of point `c` against plane `p`: the dot product of the
/// plane normal with the vector from the plane point to `c`. Positive on the
/// inner side, negative on the outer side; its magnitude is the distance to
/// the plane scaled by the magnitude of the normal.
pub open spec fn spec_plane_side(p: Plane, c: Vec3) -> int {
    p.norm.x * (c.x - p.point.x) + p.norm.y * (c.y - p.point.y) + p.norm.z * (c.z - p.point.z)
}

/// A ball of squared radius `rsq4 / 4` centered at `c` lies inside, or
/// intersects, the inner half-space of `p`. Scaling the squared radius by
/// four lets a rectangle's circumscribed ball (whose squared radius is a
/// quarter of width squared plus height squared) be expressed exactly.
///
/// The condition is the standard sphere/half-space test `side / |norm| >=
/// -radius`, squared to stay in integers: either the center is on the inner
/// side, or the squared distance to the plane is within the squared radius.
pub open spec fn spec_halfspace_pass(p: Plane, c: Vec3, rsq4: int) -> bool {
    ||| spec_plane_side(p, c) >= 0
    ||| 4 * spec_plane_side(p, c) * spec_plane_side(p, c) <= rsq4 * spec_norm_sq(p.norm)
}

/// Exact half-space containment test for a bounding ball of squared radius
/// `rsq4 / 4` against plane `p`.
pub fn halfspace_pass(p: &Plane, c: Vec3, rsq4: i64) -> (r: bool)
    requires
        p.wf(),
        c.in_world(),
        0 <= rsq4 <= 4_000_000_000_000,
    ensures
        r == spec_halfspace_pass(*p, c, rsq4 as int),
{
    let ex: i64 = c.x - p.point.x;
    let ey: i64 = c.y - p.point.y;
    let ez: i64 = c.z - p.point.z;
    proof {
        assert(-2_000_000_000_000 <= p.norm.x * ex <= 2_000_000_000_000) by (nonlinear_arith)
            requires
                -1_000_000 <= p.norm.x <= 1_000_000,
                -2_000_000 <= ex <= 2_000_000,
        ;
        assert(-2_000_000_000_000 <= p.norm.y * ey <= 2_000_000_000_000) by (nonlinear_arith)
            requires
                -1_000_000 <= p.norm.y <= 1_000_000,
                -2_000_000 <= ey <= 2_000_000,
        ;
        assert(-2_000_000_000_000 <= p.norm.z * ez <= 2_000_000_000_000) by (nonlinear_arith)
            requires
                -1_000_000 <= p.norm.z <= 1_000_000,
                -2_000_000 <= ez <= 2_000_000,
        ;
    }
    let side: i64 = p.norm.x * ex + p.norm.y * ey + p.norm.z * ez;
    if side >= 0 {
        true
    } else {
        proof {
            assert(0 <= p.norm.x * p.norm.x <= 1_000_000_000_000) by (nonlinear_arith)
                requires
                    -1_000_000 <= p.norm.x <= 1_000_000,
            ;
            assert(0 <= p.norm.y * p.norm.y <= 1_000_000_000_000) by (nonlinear_arith)
                requires
                    -1_000_000 <= p.norm.y <= 1_000_000,
            ;
            assert(0 <= p.norm.z * p.norm.z <= 1_000_000_000_000) by (nonlinear_arith)
                requires
                    -1_000_000 <= p.norm.z <= 1_000_000,
            ;
        }
        let norm_sq: i64 = p.norm.x * p.norm.x + p.norm.y * p.norm.y + p.norm.z * p.norm.z;
        let side_w: i128 = side as i128;
        proof {
            assert(0 <= side_w * side_w <= 36_000_000_000_000_000_000_000_000) by (nonlinear_arith)
                requires
                    -6_000_000_000_000 <= side_w <= 6_000_000_000_000,
            ;
            assert((rsq4 as i128) * (norm_sq as i128) <= 12_000_000_000_000_000_000_000_000
                && (rsq4 as i128) * (norm_sq as i128) >= 0) by (nonlinear_arith)
                requires
                    0 <= rsq4 as i128 <= 4_000_000_000_000,
                    0 <= norm_sq as i128 <= 3_000_000_000_000,
            ;
        }
        let sq: i128 = side_w * side_w;
        let lhs: i128 = 4 * sq;
        let rhs: i128 = (rsq4 as i128) * (norm_sq as i128);
        proof {
            assert(side == spec_plane_side(*p, c));
            assert(norm_sq == spec_norm_sq(p.norm));
            assert(4 * (side as int) * (side as int) == 4 * ((side as int) * (side as int)))
                by (nonlinear_arith);
        }
        lhs <= rhs
    }
}

} // verus!
