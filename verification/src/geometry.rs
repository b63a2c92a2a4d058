//! Positions, sizes and frames, and what is known of how they lie to each other.
//!
//! Coordinates are doubles. They are held by their bit patterns: they are
//! compared here, and computed with where they come from.
use crate::command::Direction;
use crate::ids::Key;
use vstd::prelude::*;

verus! {

/// The bit pattern of the positive infinity; larger magnitudes are no numbers.
pub const INFINITY_BITS: u64 = 0x7ff0_0000_0000_0000;

/// The bit that holds the sign.
pub const SIGN_BIT: u64 = 0x8000_0000_0000_0000;

/// A double, by its bit pattern (IEEE 754, binary64).
#[derive(Clone, Copy, Debug, PartialEq, Eq, Structural, Hash)]
pub struct Scalar(pub u64);

impl Scalar {
    pub open spec fn negative(self) -> bool {
        self.0 >= SIGN_BIT
    }

    /// The bit pattern without its sign.
    pub open spec fn magnitude(self) -> int {
        if self.negative() {
            self.0 - SIGN_BIT
        } else {
            self.0 as int
        }
    }

    pub open spec fn is_number(self) -> bool {
        self.magnitude() <= INFINITY_BITS
    }

    /// An integer that orders numbers as their values are ordered; both zeros have 0.
    pub open spec fn rank(self) -> int {
        if self.negative() {
            -self.magnitude()
        } else {
            self.magnitude()
        }
    }

    /// An integer that orders all doubles, no-numbers at the ends and the
    /// negative zero before the positive one.
    pub open spec fn total_rank(self) -> int {
        if self.negative() {
            -self.magnitude() - 1
        } else {
            self.magnitude()
        }
    }

    /// `self < other`: false where one of them is no number.
    pub open spec fn lt(self, other: Scalar) -> bool {
        self.is_number() && other.is_number() && self.rank() < other.rank()
    }

    /// `self == other`: false where one of them is no number.
    pub open spec fn eq_value(self, other: Scalar) -> bool {
        self.is_number() && other.is_number() && self.rank() == other.rank()
    }

    /// `self <= 0`: false where it is no number.
    pub open spec fn at_most_zero(self) -> bool {
        self.is_number() && self.rank() <= 0
    }

    fn rank_exec(&self) -> (r: Option<i64>)
        ensures
            match r {
                Some(k) => self.is_number() && k == self.rank(),
                None => !self.is_number(),
            },
    {
        let magnitude: u64 = if self.0 >= SIGN_BIT {
            self.0 - SIGN_BIT
        } else {
            self.0
        };
        if magnitude > INFINITY_BITS {
            None
        } else if self.0 >= SIGN_BIT {
            Some(-(magnitude as i64))
        } else {
            Some(magnitude as i64)
        }
    }

    pub fn less_than(&self, other: &Scalar) -> (r: bool)
        ensures
            r == self.lt(*other),
    {
        match (self.rank_exec(), other.rank_exec()) {
            (Some(a), Some(b)) => a < b,
            _ => false,
        }
    }

    pub fn equals(&self, other: &Scalar) -> (r: bool)
        ensures
            r == self.eq_value(*other),
    {
        match (self.rank_exec(), other.rank_exec()) {
            (Some(a), Some(b)) => a == b,
            _ => false,
        }
    }

    pub fn is_at_most_zero(&self) -> (r: bool)
        ensures
            r == self.at_most_zero(),
    {
        match self.rank_exec() {
            Some(a) => a <= 0,
            None => false,
        }
    }

    /// Strictly before `other` in the order of all doubles.
    pub fn totally_before(&self, other: &Scalar) -> (r: bool)
        ensures
            r == (self.total_rank() < other.total_rank()),
    {
        if self.0 >= SIGN_BIT {
            if other.0 >= SIGN_BIT {
                self.0 > other.0
            } else {
                true
            }
        } else if other.0 >= SIGN_BIT {
            false
        } else {
            self.0 < other.0
        }
    }
}

#[derive(Clone, Copy, Debug, PartialEq, Eq, Structural, Hash)]
pub struct Point {
    pub x: Scalar,
    pub y: Scalar,
}

#[derive(Clone, Copy, Debug, PartialEq, Eq, Structural, Hash)]
pub struct Size {
    pub width: Scalar,
    pub height: Scalar,
}

/// A rectangle, with its midpoint and whether its area is zero or less.
#[derive(Clone, Copy, Debug, PartialEq, Eq, Structural, Hash)]
pub struct Frame {
    pub origin: Point,
    pub size: Size,
    pub center: Point,
    pub is_flat: bool,
}

impl Key for Frame {
    fn same(&self, other: &Self) -> (r: bool) {
        *self == *other
    }
}

impl Frame {
    /// The rectangles are equal, coordinate by coordinate.
    pub open spec fn eq_value(self, other: Frame) -> bool {
        &&& self.origin.x.eq_value(other.origin.x)
        &&& self.origin.y.eq_value(other.origin.y)
        &&& self.size.width.eq_value(other.size.width)
        &&& self.size.height.eq_value(other.size.height)
    }

    pub fn equals(&self, other: &Frame) -> (r: bool)
        ensures
            r == self.eq_value(*other),
    {
        self.origin.x.equals(&other.origin.x) && self.origin.y.equals(&other.origin.y)
            && self.size.width.equals(&other.size.width) && self.size.height.equals(&other.size.height)
    }
}

/// How a frame lies to one screen.
#[derive(Clone, Copy, Debug, PartialEq, Eq, Structural, Hash)]
pub struct ScreenRelation {
    /// The frame's midpoint is on the screen.
    pub contains_center: bool,
    /// The area that both cover, cut to an integer.
    pub overlap: i64,
}

/// A point and how it lies to each screen, in the order of the screens.
#[derive(Debug)]
pub struct PointProbe {
    pub point: Point,
    /// The screens' answers to whether they contain the point.
    pub contained: Vec<bool>,
    /// The squared distances of the screens from the point.
    pub distances: Vec<Scalar>,
}

impl PointProbe {
    /// The screen at `i` contains the point.
    pub open spec fn is_on(self, i: int) -> bool {
        0 <= i < self.contained@.len() && self.contained@[i]
    }

    /// The squared distance of the screen at `i`, in the order of all doubles.
    pub open spec fn distance_rank(self, i: int) -> int {
        if 0 <= i < self.distances@.len() {
            self.distances@[i].total_rank()
        } else {
            INFINITY_BITS as int
        }
    }

    /// The answers of `n` screens: one answer and one distance for each, no
    /// distance is negative, and a screen that contains the point has none.
    pub open spec fn is_measured(self, n: int) -> bool {
        &&& self.contained@.len() == n
        &&& self.distances@.len() == n
        &&& forall|i: int| 0 <= i < n ==> !(#[trigger] self.distances@[i]).negative()
        &&& forall|i: int| 0 <= i < n && #[trigger] self.contained@[i] ==> self.distances@[i].rank() == 0
    }

    pub fn contained_in(&self, i: usize) -> (r: bool)
        ensures
            r == self.is_on(i as int),
    {
        i < self.contained.len() && self.contained[i]
    }

    pub fn distance(&self, i: usize) -> (r: Scalar)
        ensures
            r.total_rank() == self.distance_rank(i as int),
    {
        if i < self.distances.len() {
            self.distances[i]
        } else {
            Scalar(INFINITY_BITS)
        }
    }
}

/// How far a screen's midpoint lies in a direction from a point, and how far off it.
#[derive(Clone, Copy, Debug, PartialEq, Eq, Structural, Hash)]
pub struct Offset {
    /// The distance in the direction; negative where the screen lies the other way.
    pub along: Scalar,
    /// The distance across the direction.
    pub across: Scalar,
}

/// How a screen's midpoint lies to a point: the signed distance in each
/// direction, and the distances without their signs.
#[derive(Clone, Copy, Debug, PartialEq, Eq, Structural, Hash)]
pub struct Gaps {
    /// The point's x less the midpoint's.
    pub left: Scalar,
    /// The midpoint's x less the point's.
    pub right: Scalar,
    /// The point's y less the midpoint's: a smaller y is further up.
    pub up: Scalar,
    /// The midpoint's y less the point's.
    pub down: Scalar,
    /// The distance between the x, without its sign.
    pub horizontal: Scalar,
    /// The distance between the y, without its sign.
    pub vertical: Scalar,
}

impl Gaps {
    /// How far the midpoint lies in a direction, and how far off it.
    pub open spec fn toward(self, direction: Direction) -> Offset {
        match direction {
            Direction::Left => Offset { along: self.left, across: self.vertical },
            Direction::Right => Offset { along: self.right, across: self.vertical },
            Direction::Up => Offset { along: self.up, across: self.horizontal },
            Direction::Down => Offset { along: self.down, across: self.horizontal },
        }
    }
}

/// How far a midpoint lies in a direction, and how far off it.
pub fn toward(direction: Direction, gaps: &Gaps) -> (r: Offset)
    ensures
        r == gaps.toward(direction),
{
    match direction {
        Direction::Left => Offset { along: gaps.left, across: gaps.vertical },
        Direction::Right => Offset { along: gaps.right, across: gaps.vertical },
        // A smaller y is further up.
        Direction::Up => Offset { along: gaps.up, across: gaps.horizontal },
        Direction::Down => Offset { along: gaps.down, across: gaps.horizontal },
    }
}

/// A coordinate and the two ends of a stretch of its axis.
#[derive(Clone, Copy, Debug, PartialEq, Eq, Structural, Hash)]
pub struct Span {
    pub at: Scalar,
    pub min: Scalar,
    pub max: Scalar,
    /// The lower end less the coordinate.
    pub before: Scalar,
    /// The coordinate less the upper end.
    pub after: Scalar,
}

impl Span {
    /// The coordinate is beyond neither end.
    pub open spec fn is_inside(self) -> bool {
        !self.at.lt(self.min) && !self.max.lt(self.at)
    }

    /// The coordinate is some distance away from an end that it is beyond.
    pub open spec fn is_measured(self) -> bool {
        &&& self.at.lt(self.min) ==> Scalar(0).lt(self.before)
        &&& self.max.lt(self.at) ==> Scalar(0).lt(self.after)
    }

    /// How far the coordinate is outside the stretch: zero where it is not.
    pub open spec fn gap(self) -> Scalar {
        if self.at.lt(self.min) {
            self.before
        } else if self.max.lt(self.at) {
            self.after
        } else {
            Scalar(0)
        }
    }

    /// How far the coordinate is outside the stretch.
    pub fn distance_outside(&self) -> (r: Scalar)
        ensures
            r == self.gap(),
    {
        if self.at.less_than(&self.min) {
            self.before
        } else if self.max.less_than(&self.at) {
            self.after
        } else {
            Scalar(0)
        }
    }
}

/// A coordinate is a distance outside a stretch that is never negative, and
/// zero exactly where the coordinate is inside.
pub proof fn law_gap_is_a_distance(span: Span)
    requires
        span.is_measured(),
    ensures
        span.gap().is_number(),
        !span.gap().negative(),
        span.gap().rank() == 0 <==> span.is_inside(),
{
}

/// Of two numbers one is smaller or they are equal, and not both.
pub proof fn law_numbers_are_ordered(a: Scalar, b: Scalar)
    requires
        a.is_number(),
        b.is_number(),
    ensures
        a.lt(b) || b.lt(a) || a.eq_value(b),
        !(a.lt(b) && b.lt(a)),
        a.eq_value(b) ==> !a.lt(b) && !b.lt(a),
{
}

/// Any two doubles stand in the order of all doubles, one before the other
/// unless they are the same bit for bit; numbers stand in it as their values do.
pub proof fn law_all_doubles_are_ordered(a: Scalar, b: Scalar)
    ensures
        a.total_rank() == b.total_rank() <==> a == b,
        a.lt(b) ==> a.total_rank() < b.total_rank(),
{
}

} // verus!
