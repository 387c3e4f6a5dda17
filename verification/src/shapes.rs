//! The kinds of shape a pattern can be built from, and the piecewise layout
//! of a rod's outline.
use crate::scalar::Scalar;
use crate::scalar::INFINITY_BITS;
use vstd::prelude::*;

verus! {

/// The kind of a guide or a wheel.
#[derive(Clone, Copy, Debug, PartialEq, Eq, Structural)]
pub enum ShapeType {
    /// A circle, given by its radius alone.
    Circle,
    /// A straight rod with rounded ends, given by its centre-to-cap distance
    /// and its width-to-length ratio.
    Rod,
}

impl ShapeType {
    /// Whether a shape of this kind takes a second parameter besides its
    /// radius.
    pub fn needs_param(&self) -> (b: bool)
        ensures
            b == (*self is Rod),
    {
        match self {
            ShapeType::Circle => false,
            ShapeType::Rod => true,
        }
    }

    /// The largest radius of curvature along the outline of a shape of this
    /// kind: a circle's own radius, and infinity for a rod, whose straight
    /// edges do not curve.
    pub open spec fn largest_radius(self, radius: Scalar) -> Scalar {
        match self {
            ShapeType::Circle => radius,
            ShapeType::Rod => Scalar { bits: INFINITY_BITS },
        }
    }

    /// The smallest radius of curvature along the outline of a shape of this
    /// kind: a circle's own radius, and the radius of its caps for a rod.
    pub open spec fn smallest_radius(self, radius: Scalar, cap_radius: Scalar) -> Scalar {
        match self {
            ShapeType::Circle => radius,
            ShapeType::Rod => cap_radius,
        }
    }

    /// The largest radius of curvature of a shape of this kind with the
    /// given radius.
    pub fn max_radius(&self, radius: Scalar) -> (r: Scalar)
        ensures
            r == self.largest_radius(radius),
    {
        match self {
            ShapeType::Circle => radius,
            ShapeType::Rod => Scalar::infinity(),
        }
    }

    /// The smallest radius of curvature of a shape of this kind with the
    /// given radius. `cap_radius` is the radius of a rod's caps; it is not
    /// read for a circle.
    pub fn min_radius(&self, radius: Scalar, cap_radius: Scalar) -> (r: Scalar)
        ensures
            r == self.smallest_radius(radius, cap_radius),
    {
        match self {
            ShapeType::Circle => radius,
            ShapeType::Rod => cap_radius,
        }
    }
}

/// Every finite number is less than a rod's largest radius of curvature,
/// and no number exceeds it.
pub proof fn lemma_rod_exceeds_every_finite_radius(radius: Scalar, x: Scalar)
    ensures
        x.finite() ==> x.less(ShapeType::Rod.largest_radius(radius)),
        !ShapeType::Rod.largest_radius(radius).less(x),
{
}

/// One of the four pieces of a rod's outline, in the order in which the arc
/// length runs through them.
#[derive(Clone, Copy, Debug, PartialEq, Eq, Structural)]
pub enum RodSegment {
    /// The semicircular cap the outline starts on.
    RightCap,
    /// The straight edge that follows it.
    BottomEdge,
    /// The opposite semicircular cap.
    LeftCap,
    /// The straight edge that closes the outline.
    TopEdge,
}

/// Where the first three pieces of a rod's outline end, as arc lengths from
/// the start of the first cap. The fourth piece runs from `left_cap_end` to
/// the perimeter.
#[derive(Clone, Copy, Debug)]
pub struct RodLayout {
    pub right_cap_end: Scalar,
    pub bottom_edge_end: Scalar,
    pub left_cap_end: Scalar,
}

impl RodLayout {
    /// The ends are numbers, none negative, in ascending order.
    pub open spec fn ordered(self) -> bool {
        &&& (Scalar { bits: 0 }).at_most(self.right_cap_end)
        &&& self.right_cap_end.at_most(self.bottom_edge_end)
        &&& self.bottom_edge_end.at_most(self.left_cap_end)
    }

    /// The piece that holds the wrapped arc length `t`: the first whose end
    /// lies beyond `t`, and the last piece when none does.
    pub open spec fn segment_of(self, t: Scalar) -> RodSegment {
        if t.less(self.right_cap_end) {
            RodSegment::RightCap
        } else if t.less(self.bottom_edge_end) {
            RodSegment::BottomEdge
        } else if t.less(self.left_cap_end) {
            RodSegment::LeftCap
        } else {
            RodSegment::TopEdge
        }
    }

    pub fn new(right_cap_end: Scalar, bottom_edge_end: Scalar, left_cap_end: Scalar) -> (r:
        RodLayout)
        ensures
            r.right_cap_end == right_cap_end,
            r.bottom_edge_end == bottom_edge_end,
            r.left_cap_end == left_cap_end,
    {
        RodLayout { right_cap_end, bottom_edge_end, left_cap_end }
    }

    /// The piece of the outline on which the wrapped arc length `t` lies.
    pub fn segment_at(&self, t: Scalar) -> (r: RodSegment)
        ensures
            r == self.segment_of(t),
    {
        if t.lt(self.right_cap_end) {
            RodSegment::RightCap
        } else if t.lt(self.bottom_edge_end) {
            RodSegment::BottomEdge
        } else if t.lt(self.left_cap_end) {
            RodSegment::LeftCap
        } else {
            RodSegment::TopEdge
        }
    }
}

/// With ordered ends, every non-negative arc length lies on exactly the
/// piece whose half-open interval holds it: the pieces tile the outline
/// without gap or overlap.
pub proof fn lemma_segments_tile_outline(layout: RodLayout, t: Scalar)
    requires
        layout.ordered(),
        (Scalar { bits: 0 }).at_most(t),
    ensures
        layout.segment_of(t) is RightCap <==> t.less(layout.right_cap_end),
        layout.segment_of(t) is BottomEdge <==> layout.right_cap_end.at_most(t) && t.less(
            layout.bottom_edge_end,
        ),
        layout.segment_of(t) is LeftCap <==> layout.bottom_edge_end.at_most(t) && t.less(
            layout.left_cap_end,
        ),
        layout.segment_of(t) is TopEdge <==> layout.left_cap_end.at_most(t),
{
}

} // verus!
