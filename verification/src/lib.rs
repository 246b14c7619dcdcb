//! Spherical polygon areas, planned and checked.
//!
//! A polygon is given as longitude/latitude rings: the first ring is the
//! outer boundary, every later ring a hole. Its approximate surface area on
//! a sphere of the Earth's radius is the outer ring's signed area minus each
//! hole ring's signed area, where a ring's signed area comes from the
//! Chamberlain–Duquette spherical-excess formula: one term per consecutive
//! pair of points, summed and scaled by half the squared radius.
//!
//! The trigonometric evaluation of those terms is floating-point work that
//! stays outside this crate. What this crate verifies is everything else:
//! which operand pairs the formula consumes and in what order, which ring is
//! added and which rings are subtracted, the scale constant, and the
//! rejection of degenerate input (a polygon with no rings, a ring with no
//! points). Coordinates pass through as their IEEE-754 bit patterns, which
//! this crate never interprets; a caller turns a plan back into numbers and
//! folds the terms.

use vstd::prelude::*;

verus! {

/// IEEE-754 bit pattern of the Earth-radius constant, in meters
/// (the equatorial radius, `6378137.0`), the default scale for area plans.
pub const EARTH_RADIUS_BITS: u64 = 0x4158_54a6_4000_0000;

/// One geographic coordinate, held as the IEEE-754 bit patterns of its
/// longitude and latitude in decimal degrees. The crate moves these values
/// around but never reads them as numbers.
#[derive(Clone, Copy, PartialEq, Eq, Structural, Debug)]
pub struct Position {
    pub lon_bits: u64,
    pub lat_bits: u64,
}

/// Why a ring or polygon was rejected.
#[derive(Clone, Copy, PartialEq, Eq, Structural, Debug)]
pub enum AreaError {
    /// The polygon has no rings, so no outer boundary exists.
    EmptyPolygon,
    /// A ring has no points, so not even a first point can be taken.
    InvalidRing,
}

/// The operand pairs of the spherical-excess formula for one ring: each
/// consecutive pair of points, in traversal order, without wrapping from the
/// last point back to the first. A ring of fewer than two points yields no
/// pairs.
pub open spec fn ring_pairs(ring: Seq<Position>) -> Seq<(Position, Position)> {
    if ring.len() == 0 {
        Seq::empty()
    } else {
        Seq::new((ring.len() - 1) as nat, |k: int| (ring[k], ring[k + 1]))
    }
}

/// The plan for one ring's signed area: fold one formula term per operand
/// pair, then scale the sum by `radius * radius / 2`, where `radius` is the
/// floating-point number whose bit pattern is `radius_bits`.
#[derive(Clone, PartialEq, Eq, Debug)]
pub struct RingPlan {
    /// Operand pairs in traversal order.
    pub pairs: Vec<(Position, Position)>,
    /// IEEE-754 bit pattern of the radius that scales the folded terms.
    pub radius_bits: u64,
}

/// What a correct plan for `ring` holds: exactly the ring's consecutive
/// pairs, and the default Earth-radius scale.
pub open spec fn ring_plan_matches(ring: Seq<Position>, plan: RingPlan) -> bool {
    &&& plan.pairs@ == ring_pairs(ring)
    &&& plan.radius_bits == EARTH_RADIUS_BITS
}

/// Plans the signed spherical area of one ring.
///
/// A ring with no points is rejected with `InvalidRing`; any other ring gets
/// the full plan. A one-point ring gets an empty plan, whose folded sum — and
/// so whose scaled area — is zero.
pub fn ring_plan(ring: &Vec<Position>) -> (r: Result<RingPlan, AreaError>)
    ensures
        ring@.len() == 0 ==> r == Err::<RingPlan, AreaError>(AreaError::InvalidRing),
        ring@.len() > 0 ==> r is Ok && ring_plan_matches(ring@, r->Ok_0),
{
    if ring.len() == 0 {
        return Err(AreaError::InvalidRing);
    }
    let mut pairs: Vec<(Position, Position)> = Vec::new();
    let mut i: usize = 0;
    while i < ring.len() - 1
        invariant
            ring@.len() >= 1,
            i + 1 <= ring@.len(),
            pairs@.len() == i,
            forall|k: int| 0 <= k < i ==> pairs@[k] == (ring@[k], ring@[k + 1]),
        decreases ring@.len() - i,
    {
        pairs.push((ring[i], ring[i + 1]));
        i = i + 1;
    }
    proof {
        assert(pairs@ =~= ring_pairs(ring@));
    }
    Ok(RingPlan { pairs, radius_bits: EARTH_RADIUS_BITS })
}

/// The plan for a polygon's net area: the outer ring's folded, scaled area
/// taken positively, minus each hole ring's folded, scaled area, in hole
/// order.
#[derive(Clone, PartialEq, Eq, Debug)]
pub struct PolygonPlan {
    /// The first ring: its area is added, never subtracted.
    pub outer: RingPlan,
    /// Every later ring, in order: each area is subtracted.
    pub holes: Vec<RingPlan>,
}

/// What a correct plan for the rings of a polygon holds: the first ring's
/// plan as the outer boundary, and every later ring's plan as a hole, in
/// ring order.
pub open spec fn polygon_plan_matches(rings: Seq<Seq<Position>>, plan: PolygonPlan) -> bool {
    &&& ring_plan_matches(rings[0], plan.outer)
    &&& plan.holes@.len() == rings.len() - 1
    &&& forall|k: int|
        0 <= k < plan.holes@.len() ==> ring_plan_matches(rings[k + 1], #[trigger] plan.holes@[k])
}

/// Plans the net spherical area of a polygon given as its rings, the first
/// being the outer boundary and the rest holes.
///
/// A polygon with no rings is rejected with `EmptyPolygon`; one whose rings
/// include a ring with no points is rejected with `InvalidRing`; every other
/// polygon gets the full plan.
pub fn polygon_plan(rings: &Vec<Vec<Position>>) -> (r: Result<PolygonPlan, AreaError>)
    ensures
        rings@.len() == 0 ==> r == Err::<PolygonPlan, AreaError>(AreaError::EmptyPolygon),
        rings@.len() > 0 && (exists|i: int| 0 <= i < rings@.len() && rings@[i]@.len() == 0)
            ==> r == Err::<PolygonPlan, AreaError>(AreaError::InvalidRing),
        rings@.len() > 0 && (forall|i: int| 0 <= i < rings@.len() ==> rings@[i]@.len() > 0)
            ==> r is Ok && polygon_plan_matches(rings@.map_values(|ring: Vec<Position>| ring@), r->Ok_0),
{
    if rings.len() == 0 {
        return Err(AreaError::EmptyPolygon);
    }
    let outer = match ring_plan(&rings[0]) {
        Ok(plan) => plan,
        Err(e) => {
            return Err(e);
        },
    };
    let mut holes: Vec<RingPlan> = Vec::new();
    let mut i: usize = 1;
    while i < rings.len()
        invariant
            1 <= i <= rings@.len(),
            holes@.len() == i - 1,
            forall|k: int| 0 <= k < i ==> rings@[k]@.len() > 0,
            forall|k: int|
                0 <= k < i - 1 ==> ring_plan_matches(rings@[k + 1]@, #[trigger] holes@[k]),
        decreases rings@.len() - i,
    {
        match ring_plan(&rings[i]) {
            Ok(plan) => {
                holes.push(plan);
            },
            Err(e) => {
                return Err(e);
            },
        }
        i = i + 1;
    }
    Ok(PolygonPlan { outer, holes })
}

/// Degenerate rings contribute nothing: a ring with fewer than two points
/// has no consecutive pair, so its planned fold is empty and its scaled area
/// is the scaled zero. Together with `ring_plan` and `polygon_plan`
/// rejecting only rings with no points at all, every degenerate ring has one
/// deterministic outcome: an error for zero points, a zero contribution for
/// one point.
pub proof fn lemma_degenerate_ring(ring: Seq<Position>)
    requires
        ring.len() < 2,
    ensures
        ring_pairs(ring) == Seq::<(Position, Position)>::empty(),
{
    assert(ring_pairs(ring) =~= Seq::<(Position, Position)>::empty());
}

/// Hole subtraction law: a successful polygon plan decomposes ring-wise into
/// the very plans `ring_plan` gives the rings on their own. The first ring's
/// pairs stand once as the outer boundary, whose area is added, and ring
/// `k + 1`'s pairs stand once as hole `k`, whose area is subtracted — so the
/// planned net area is the outer ring's area minus the sum of the hole
/// rings' areas.
pub proof fn lemma_hole_subtraction(rings: Seq<Seq<Position>>, plan: PolygonPlan)
    requires
        rings.len() > 0,
        polygon_plan_matches(rings, plan),
    ensures
        plan.outer.pairs@ == ring_pairs(rings[0]),
        plan.holes@.len() == rings.len() - 1,
        forall|k: int|
            0 <= k < plan.holes@.len()
                ==> (#[trigger] plan.holes@[k]).pairs@ == ring_pairs(rings[k + 1]),
{
}

} // verus!
