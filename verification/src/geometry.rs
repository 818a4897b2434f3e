//! Coordinate algebra for the simulation: integer 2D vectors and the four
//! movement directions, independent of any rendering coordinate system.

use vstd::prelude::*;

verus! {

/// An integer pair, used both as an absolute grid position and as a
/// direction delta.
#[derive(Debug, PartialEq, Eq, Structural, Hash, Clone, Copy)]
pub struct Vector(pub isize, pub isize);

impl Vector {
    /// Component-wise addition.
    pub fn add(&self, rhs: Vector) -> (r: Vector)
        requires
            isize::MIN <= self.0 + rhs.0 <= isize::MAX,
            isize::MIN <= self.1 + rhs.1 <= isize::MAX,
        ensures
            r.0 == self.0 + rhs.0,
            r.1 == self.1 + rhs.1,
    {
        Vector(self.0 + rhs.0, self.1 + rhs.1)
    }
}

/// One of the four movement directions of the snake.
#[derive(Debug, PartialEq, Eq, Structural, Clone, Copy)]
pub enum Direction {
    Up,
    Left,
    Down,
    Right,
}

impl Direction {
    /// The direction pointing the opposite way.
    pub open spec fn spec_opposite(self) -> Direction {
        match self {
            Direction::Up => Direction::Down,
            Direction::Left => Direction::Right,
            Direction::Down => Direction::Up,
            Direction::Right => Direction::Left,
        }
    }

    /// Horizontal component of the unit delta this direction stands for.
    pub open spec fn dx(self) -> int {
        match self {
            Direction::Up => 0,
            Direction::Left => -1,
            Direction::Down => 0,
            Direction::Right => 1,
        }
    }

    /// Vertical component of the unit delta this direction stands for.
    pub open spec fn dy(self) -> int {
        match self {
            Direction::Up => -1,
            Direction::Left => 0,
            Direction::Down => 1,
            Direction::Right => 0,
        }
    }

    pub fn opposite(&self) -> (r: Direction)
        ensures
            r == self.spec_opposite(),
    {
        match self {
            Direction::Up => Direction::Down,
            Direction::Left => Direction::Right,
            Direction::Down => Direction::Up,
            Direction::Right => Direction::Left,
        }
    }

    /// The unit vector this direction moves the head by on one tick.
    pub fn to_vec(self) -> (r: Vector)
        ensures
            r.0 == self.dx(),
            r.1 == self.dy(),
    {
        match self {
            Direction::Up => Vector(0, -1),
            Direction::Left => Vector(-1, 0),
            Direction::Down => Vector(0, 1),
            Direction::Right => Vector(1, 0),
        }
    }
}

/// `opposite` is an involution, and it never fixes a direction: the four
/// directions fall into two opposite pairs.
pub proof fn lemma_opposite_involution(d: Direction)
    ensures
        d.spec_opposite().spec_opposite() == d,
        d.spec_opposite() != d,
{
}

} // verus!
