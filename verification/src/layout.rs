//! The canvas and the mapping of the data onto it.
//!
//! Positions on the canvas are exact fractions rounded down to thousandths
//! of a canvas unit, and held as a count of thousandths.

use vstd::prelude::*;
use crate::arith::{floor_div, lemma_product_bound};
use crate::series::Point;

verus! {

/// The size of the canvas and what else the layout is made from.
#[derive(Clone, Copy, Debug)]
pub struct ChartConfig {
    /// The width of the canvas.
    pub width: u32,
    /// The height of the canvas.
    pub height: u32,
    /// The room left free to the left and to the right of the chart.
    pub padding: u32,
    /// The room left free above and below the chart.
    pub paddingy: u32,
    /// How many ticks are wished for on the x axis.
    pub x_ticks: u32,
    /// How many ticks are wished for on the y axis.
    pub y_ticks: u32,
    /// The x coordinates count units of ten to this power.
    pub x_exponent: i8,
    /// The y coordinates count units of ten to this power.
    pub y_exponent: i8,
}

impl ChartConfig {
    /// An axis needs two ticks at least, one at each end of a step.
    pub open spec fn wf(self) -> bool {
        self.x_ticks >= 2 && self.y_ticks >= 2
    }

    /// A canvas of 800 by 600 with paddings of 150 and 100, 9 ticks wished
    /// for on the x axis and 10 on the y axis, and coordinates in units.
    pub open spec fn standard() -> ChartConfig {
        ChartConfig {
            width: 800,
            height: 600,
            padding: 150,
            paddingy: 100,
            x_ticks: 9,
            y_ticks: 10,
            x_exponent: 0,
            y_exponent: 0,
        }
    }

    /// The standard layout, see `standard`.
    pub fn new() -> (c: ChartConfig)
        ensures
            c == ChartConfig::standard(),
            c.wf(),
    {
        ChartConfig {
            width: 800,
            height: 600,
            padding: 150,
            paddingy: 100,
            x_ticks: 9,
            y_ticks: 10,
            x_exponent: 0,
            y_exponent: 0,
        }
    }
}

/// The range of an axis.
#[derive(Clone, Copy, Debug)]
pub struct Axis {
    pub min: i64,
    pub max: i64,
}

impl Axis {
    /// The range is not empty, and lies where `axis_range` puts it.
    pub open spec fn wf(self) -> bool {
        -0x8000_0001 <= self.min < self.max <= 0x8000_0000
    }

    /// The width of the range.
    pub open spec fn span(self) -> int {
        self.max - self.min
    }
}

/// The range of an axis whose data reach from `lo` to `hi`. Where the two
/// are one value, the range is of width 2 with that value in its middle.
pub open spec fn data_axis(lo: int, hi: int) -> Axis {
    if lo == hi {
        Axis { min: (lo - 1) as i64, max: (lo + 1) as i64 }
    } else {
        Axis { min: lo as i64, max: hi as i64 }
    }
}

/// The range of an axis whose data reach from `lo` to `hi`, see `data_axis`.
pub fn axis_range(lo: i32, hi: i32) -> (a: Axis)
    requires
        lo <= hi,
    ensures
        a == data_axis(lo as int, hi as int),
        a.wf(),
        lo < hi ==> a.min == lo && a.max == hi,
        lo == hi ==> a.min == lo - 1 && a.max == lo + 1,
{
    if lo == hi {
        Axis { min: lo as i64 - 1, max: lo as i64 + 1 }
    } else {
        Axis { min: lo as i64, max: hi as i64 }
    }
}

/// The thousandths in `num / den`, rounded down.
pub open spec fn milli_ratio(num: int, den: int) -> int {
    (num * 1000) / den
}

/// The thousandths in `num / den`, rounded down.
pub fn milli(num: i128, den: i128) -> (r: i128)
    requires
        den > 0,
        -0x1_0000_0000_0000_0000_0000_0000_0000 <= num <= 0x1_0000_0000_0000_0000_0000_0000_0000,
    ensures
        r == milli_ratio(num as int, den as int),
        num >= 0 ==> 0 <= r <= num * 1000,
        num < 0 ==> num * 1000 <= r < 0,
{
    floor_div(num * 1000, den)
}

/// How far from zero a place on the canvas can lie.
pub open spec fn within_reach(v: int) -> bool {
    -0x1_0000_0000_0000_0000_0000 <= v <= 0x1_0000_0000_0000_0000_0000
}

/// All the places lie within reach.
pub open spec fn all_within_reach(places: Seq<(i128, i128)>) -> bool {
    forall|k: int|
        0 <= k < places.len() ==> within_reach((#[trigger] places[k]).0 as int) && within_reach(
            places[k].1 as int,
        )
}

/// Where the x coordinate `x` lies on the canvas: the left padding, and then
/// the share of the width between the paddings that `x` has of the range.
pub open spec fn map_x(x: int, axis: Axis, config: ChartConfig) -> int {
    milli_ratio(
        config.padding * axis.span() + (x - axis.min) * (config.width - 2 * config.padding),
        axis.span(),
    )
}

/// Where the y coordinate `y` lies on the canvas, which counts from the top:
/// the lower padding up from the bottom, and then the share of the height
/// between the paddings that `y` has of the range.
pub open spec fn map_y(y: int, axis: Axis, config: ChartConfig) -> int {
    milli_ratio(
        (config.height - config.paddingy) * axis.span() - (y - axis.min) * (config.height - 2
            * config.paddingy),
        axis.span(),
    )
}

/// The place of a point on the canvas, in thousandths: see `map_x` and
/// `map_y`. Nothing is clamped.
pub fn map_point(x: i32, y: i32, x_axis: &Axis, y_axis: &Axis, config: &ChartConfig) -> (r: (
    i128,
    i128,
))
    requires
        x_axis.wf(),
        y_axis.wf(),
    ensures
        r.0 == map_x(x as int, *x_axis, *config),
        r.1 == map_y(y as int, *y_axis, *config),
        within_reach(r.0 as int),
        within_reach(r.1 as int),
{
    let span_x: i128 = x_axis.max as i128 - x_axis.min as i128;
    let span_y: i128 = y_axis.max as i128 - y_axis.min as i128;
    let dx: i128 = x as i128 - x_axis.min as i128;
    let dy: i128 = y as i128 - y_axis.min as i128;
    let plot_w: i128 = config.width as i128 - 2 * (config.padding as i128);
    let plot_h: i128 = config.height as i128 - 2 * (config.paddingy as i128);
    let base_y: i128 = config.height as i128 - config.paddingy as i128;
    proof {
        lemma_product_bound(config.padding as int, span_x as int, 0x1_0000_0000, 0x2_0000_0000);
        lemma_product_bound(dx as int, plot_w as int, 0x2_0000_0000, 0x2_0000_0000);
        lemma_product_bound(base_y as int, span_y as int, 0x1_0000_0000, 0x2_0000_0000);
        lemma_product_bound(dy as int, plot_h as int, 0x2_0000_0000, 0x2_0000_0000);
    }
    let cx = milli((config.padding as i128) * span_x + dx * plot_w, span_x);
    let cy = milli(base_y * span_y - dy * plot_h, span_y);
    (cx, cy)
}

/// The places on the canvas of the retained points of a series, in order.
pub open spec fn canvas_points(
    points: Seq<Point>,
    x_axis: Axis,
    y_axis: Axis,
    config: ChartConfig,
) -> Seq<(int, int)>
    decreases points.len(),
{
    if points.len() == 0 {
        Seq::empty()
    } else if points.last().retained() {
        canvas_points(points.drop_last(), x_axis, y_axis, config).push(
            (
                map_x(points.last().x->0 as int, x_axis, config),
                map_y(points.last().y->0 as int, y_axis, config),
            ),
        )
    } else {
        canvas_points(points.drop_last(), x_axis, y_axis, config)
    }
}

/// A sequence of places as mathematical integers.
pub open spec fn as_ints(places: Seq<(i128, i128)>) -> Seq<(int, int)> {
    Seq::new(places.len(), |k: int| (places[k].0 as int, places[k].1 as int))
}

/// The places on the canvas of the points of a series that are retained, in
/// the order of the series: a point with a coordinate that is not a number
/// is passed over.
pub fn map_series(points: &Vec<Point>, x_axis: &Axis, y_axis: &Axis, config: &ChartConfig) -> (r:
    Vec<(i128, i128)>)
    requires
        x_axis.wf(),
        y_axis.wf(),
    ensures
        as_ints(r@) == canvas_points(points@, *x_axis, *y_axis, *config),
        all_within_reach(r@),
{
    let mut places: Vec<(i128, i128)> = Vec::new();
    let mut j: usize = 0;
    assert(points@.take(0) =~= Seq::empty());
    assert(as_ints(places@) =~= Seq::empty());
    while j < points.len()
        invariant
            j <= points.len(),
            x_axis.wf(),
            y_axis.wf(),
            as_ints(places@) == canvas_points(points@.take(j as int), *x_axis, *y_axis, *config),
            all_within_reach(places@),
        decreases points.len() - j,
    {
        let p: Point = points[j];
        proof {
            assert(points@.take(j + 1).drop_last() =~= points@.take(j as int));
            assert(points@.take(j + 1).last() == p);
        }
        let ghost before = places@;
        match (p.x, p.y) {
            (Some(x), Some(y)) => {
                let place = map_point(x, y, x_axis, y_axis, config);
                places.push(place);
                assert(as_ints(places@) =~= as_ints(before).push((place.0 as int, place.1 as int)));
            },
            _ => {},
        }
        j = j + 1;
    }
    assert(points@.take(j as int) =~= points@);
    places
}

} // verus!
