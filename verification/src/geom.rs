//! Plain geometry for display pixel space: points, rectangles, and the
//! linear direction used by page-turn buttons.

use vstd::prelude::*;

verus! {

/// A point in display pixel space.
#[derive(Debug, Clone, Copy, PartialEq, Eq, Structural)]
pub struct Point {
    pub x: i32,
    pub y: i32,
}

impl Point {
    /// The point moved by `delta`, with two's-complement wrap-around on
    /// each coordinate.
    pub open spec fn translated(self, delta: Point) -> Point {
        Point { x: self.x.wrapping_add(delta.x), y: self.y.wrapping_add(delta.y) }
    }

    pub fn translate(&mut self, delta: Point)
        ensures
            *final(self) == old(self).translated(delta),
    {
        self.x = self.x.wrapping_add(delta.x);
        self.y = self.y.wrapping_add(delta.y);
    }
}

/// An axis-aligned rectangle, described by its minimal and maximal corners.
#[derive(Debug, Clone, Copy, PartialEq, Eq, Structural)]
pub struct Rectangle {
    pub min: Point,
    pub max: Point,
}

pub open spec fn min_i32(a: i32, b: i32) -> i32 {
    if a <= b {
        a
    } else {
        b
    }
}

pub open spec fn max_i32(a: i32, b: i32) -> i32 {
    if a >= b {
        a
    } else {
        b
    }
}

impl Rectangle {
    /// The smallest rectangle containing both `self` and `other`.
    pub open spec fn absorbed(self, other: Rectangle) -> Rectangle {
        Rectangle {
            min: Point { x: min_i32(self.min.x, other.min.x), y: min_i32(self.min.y, other.min.y) },
            max: Point { x: max_i32(self.max.x, other.max.x), y: max_i32(self.max.y, other.max.y) },
        }
    }

    /// Both corners moved by `delta`.
    pub open spec fn translated(self, delta: Point) -> Rectangle {
        Rectangle { min: self.min.translated(delta), max: self.max.translated(delta) }
    }

    /// Grow `self` so that it also contains `other`.
    pub fn absorb(&mut self, other: &Rectangle)
        ensures
            *final(self) == old(self).absorbed(*other),
    {
        if other.min.x < self.min.x {
            self.min.x = other.min.x;
        }
        if other.min.y < self.min.y {
            self.min.y = other.min.y;
        }
        if other.max.x > self.max.x {
            self.max.x = other.max.x;
        }
        if other.max.y > self.max.y {
            self.max.y = other.max.y;
        }
    }

    pub fn translate(&mut self, delta: Point)
        ensures
            *final(self) == old(self).translated(delta),
    {
        self.min.translate(delta);
        self.max.translate(delta);
    }
}

/// A direction along the reading order: backward or forward.
#[derive(Debug, Clone, Copy, PartialEq, Eq, Structural)]
pub enum LinearDir {
    Backward,
    Forward,
}

impl LinearDir {
    /// The other direction.
    pub open spec fn spec_opposite(self) -> LinearDir {
        match self {
            LinearDir::Backward => LinearDir::Forward,
            LinearDir::Forward => LinearDir::Backward,
        }
    }

    #[verifier::when_used_as_spec(spec_opposite)]
    pub fn opposite(self) -> (r: LinearDir)
        ensures
            r == self.spec_opposite(),
    {
        match self {
            LinearDir::Backward => LinearDir::Forward,
            LinearDir::Forward => LinearDir::Backward,
        }
    }
}

} // verus!
