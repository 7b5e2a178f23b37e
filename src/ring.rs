use vstd::prelude::*;

use crate::point::Point;

verus! {

/// A closed loop of points in the form the shape layer computes with.
#[derive(Debug, PartialEq, Eq)]
pub struct Ring {
    points: Vec<Point>,
}

/// A closed loop of points in the form exchanged with the host runtime.
#[derive(Debug, PartialEq, Eq)]
pub struct ElixirRing {
    points: Vec<Point>,
}

impl View for Ring {
    type V = Seq<Point>;

    closed spec fn view(&self) -> Seq<Point> {
        self.points@
    }
}

impl View for ElixirRing {
    type V = Seq<Point>;

    closed spec fn view(&self) -> Seq<Point> {
        self.points@
    }
}

impl Ring {
    /// Takes ownership of a sequence of points as a ring.
    pub fn new(points: Vec<Point>) -> (r: Ring)
        ensures
            r@ == points@,
    {
        Ring { points }
    }

    /// The points of the ring, in order.
    pub fn points(&self) -> (r: &Vec<Point>)
        ensures
            r@ == self@,
    {
        &self.points
    }
}

impl ElixirRing {
    /// Takes ownership of a sequence of points as a ring in external form.
    pub fn new(points: Vec<Point>) -> (r: ElixirRing)
        ensures
            r@ == points@,
    {
        ElixirRing { points }
    }

    /// The points of the ring, in order.
    pub fn points(&self) -> (r: &Vec<Point>)
        ensures
            r@ == self@,
    {
        &self.points
    }
}

impl From<ElixirRing> for Ring {
    fn from(value: ElixirRing) -> (r: Ring)
        ensures
            r@ == value@,
    {
        Ring { points: value.points }
    }
}

impl From<Ring> for ElixirRing {
    fn from(value: Ring) -> (r: ElixirRing)
        ensures
            r@ == value@,
    {
        ElixirRing { points: value.points }
    }
}

impl vstd::std_specs::convert::FromSpecImpl<ElixirRing> for Ring {
    open spec fn obeys_from_spec() -> bool {
        true
    }

    closed spec fn from_spec(v: ElixirRing) -> Ring {
        Ring { points: v.points }
    }
}

impl vstd::std_specs::convert::FromSpecImpl<Ring> for ElixirRing {
    open spec fn obeys_from_spec() -> bool {
        true
    }

    closed spec fn from_spec(v: Ring) -> ElixirRing {
        ElixirRing { points: v.points }
    }
}

} // verus!
