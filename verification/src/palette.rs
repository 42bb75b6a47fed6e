//! The style classes of the series. A series takes one of a small number of
//! colours by its place in the chart, and the colours repeat after the last.

use vstd::prelude::*;
use vstd::string::StringExecFns;
use crate::decimal::{nat_text, push_nat};

verus! {

/// How many colours there are before they repeat.
pub const NUM_COLORS: usize = 6;

/// The colour of the series at `index`: the colours repeat after the last.
pub open spec fn color_of(index: int) -> int {
    index % (NUM_COLORS as int)
}

/// The colour of the series at `index`, see `color_of`.
pub fn class_for(index: usize) -> (color: usize)
    ensures
        color == color_of(index as int),
        color < NUM_COLORS,
{
    index % NUM_COLORS
}

/// The class of what a series strokes.
pub open spec fn stroke_class(color: int) -> Seq<char> {
    "poloto"@ + nat_text(color as nat) + "stroke"@
}

/// The class of what a series fills.
pub open spec fn fill_class(color: int) -> Seq<char> {
    "poloto"@ + nat_text(color as nat) + "fill"@
}

/// The class of a colour, for what is stroked or for what is filled.
pub fn class_name(color: usize, stroke: bool) -> (s: String)
    ensures
        stroke ==> s@ == stroke_class(color as int),
        !stroke ==> s@ == fill_class(color as int),
{
    let mut s = String::from_str("poloto");
    push_nat(&mut s, color as u128);
    if stroke {
        s.append("stroke");
    } else {
        s.append("fill");
    }
    s
}

/// The colours of a chart as numbers: background, foreground, and one for
/// each of ten series.
pub struct Color {
    pub back: u32,
    pub fore: u32,
    plots: [u32; 10],
}

impl Color {
    /// Background, foreground, and the colours of the series.
    pub closed spec fn parts(self) -> (u32, u32, Seq<u32>) {
        (self.back, self.fore, self.plots@)
    }
}

/// All colours zero.
pub fn default_color() -> (c: Color)
    ensures
        c.parts() == (0u32, 0u32, Seq::new(10, |i: int| 0u32)),
{
    let plots: [u32; 10] = [0, 0, 0, 0, 0, 0, 0, 0, 0, 0];
    assert(plots@ =~= Seq::new(10, |i: int| 0u32));
    Color { back: 0, fore: 0, plots }
}

} // verus!
