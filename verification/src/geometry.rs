//! Positions and sizes, in whole length units.

use vstd::prelude::*;
use crate::platform::MovementAxis;

verus! {

/// A point in space.
#[derive(Debug, Clone, Copy, PartialEq, Eq, Structural)]
pub struct Position {
    pub x: i64,
    pub y: i64,
    pub z: i64,
}

impl Position {
    /// The coordinate on `axis`.
    pub open spec fn spec_along(self, axis: MovementAxis) -> i64 {
        match axis {
            MovementAxis::X => self.x,
            MovementAxis::Y => self.y,
        }
    }

    /// This point with its coordinate on `axis` replaced.
    pub open spec fn spec_moved_to(self, axis: MovementAxis, coordinate: i64) -> Position {
        match axis {
            MovementAxis::X => Position { x: coordinate, ..self },
            MovementAxis::Y => Position { y: coordinate, ..self },
        }
    }

    pub fn new(x: i64, y: i64, z: i64) -> (position: Self)
        ensures
            position == (Position { x, y, z }),
    {
        Position { x, y, z }
    }

    /// The coordinate on `axis`.
    pub fn along(&self, axis: MovementAxis) -> (coordinate: i64)
        ensures
            coordinate == self.spec_along(axis),
    {
        match axis {
            MovementAxis::X => self.x,
            MovementAxis::Y => self.y,
        }
    }

    /// This point with its coordinate on `axis` replaced; the other
    /// coordinates stay.
    pub fn moved_to(&self, axis: MovementAxis, coordinate: i64) -> (position: Self)
        ensures
            position == self.spec_moved_to(axis, coordinate),
            position.spec_along(axis) == coordinate,
            position.z == self.z,
    {
        match axis {
            MovementAxis::X => Position { x: coordinate, y: self.y, z: self.z },
            MovementAxis::Y => Position { x: self.x, y: coordinate, z: self.z },
        }
    }
}

/// The width and height of a rectangle.
#[derive(Debug, Clone, Copy, PartialEq, Eq, Structural)]
pub struct Size {
    pub width: u32,
    pub height: u32,
}

impl Size {
    /// Half the width and half the height, each rounded down.
    pub open spec fn spec_halved(self) -> Size {
        Size { width: (self.width / 2) as u32, height: (self.height / 2) as u32 }
    }

    pub fn new(width: u32, height: u32) -> (size: Self)
        ensures
            size == (Size { width, height }),
    {
        Size { width, height }
    }

    /// Half the width and half the height, each rounded down: the extents of
    /// the rectangle measured from its centre.
    pub fn halved(&self) -> (half: Self)
        ensures
            half == self.spec_halved(),
            2 * half.width <= self.width <= 2 * half.width + 1,
            2 * half.height <= self.height <= 2 * half.height + 1,
    {
        Size { width: self.width / 2, height: self.height / 2 }
    }
}

} // verus!
