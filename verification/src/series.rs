//! The data of a chart: points with integer coordinates, and named series.

use vstd::prelude::*;

verus! {

/// One sample of a series. A coordinate is a fixed-point number, or `None`
/// where the measured value is not a finite number.
#[derive(Clone, Copy, Debug)]
pub struct Point {
    pub x: Option<i32>,
    pub y: Option<i32>,
}

impl Point {
    /// A point that is drawn: both coordinates are numbers.
    pub open spec fn retained(self) -> bool {
        self.x is Some && self.y is Some
    }

    /// The point with the two coordinates given.
    pub fn new(x: i32, y: i32) -> (p: Point)
        ensures
            p.x == Some(x),
            p.y == Some(y),
            p.retained(),
    {
        Point { x: Some(x), y: Some(y) }
    }

    /// Whether the point is drawn. A point with a coordinate that is not a
    /// number is passed over, by the search for the bounds and by the
    /// drawing alike.
    pub fn is_retained(&self) -> (r: bool)
        ensures
            r == self.retained(),
    {
        self.x.is_some() && self.y.is_some()
    }
}

/// How a series is drawn.
#[derive(Clone, Copy, Debug)]
pub enum PlotType {
    Scatter,
    Line,
    Histo,
    LineFill,
}

/// A series: its name, which may be empty, how it is drawn, and its points
/// in the order in which they are drawn.
pub struct Plot {
    pub name: String,
    pub plot_type: PlotType,
    pub points: Vec<Point>,
}

} // verus!
