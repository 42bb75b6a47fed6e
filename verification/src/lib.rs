//! Charts as SVG documents, from series of points with integer coordinates.
//!
//! A coordinate is a fixed-point number: a count of units, where the unit of
//! each axis is a power of ten that the layout names. A point whose
//! coordinate is not a finite number holds `None` in its place and is passed
//! over. All arithmetic is exact. Places on the canvas are fractions rounded
//! down to thousandths of a canvas unit.
//!
//! Drawing a chart finds the bounds of the data ([`bounds`]), chooses the
//! ticks of the two axes ([`ticks`]), maps the points onto the canvas
//! ([`layout`]) and writes the decoration of the axes ([`axes`]), the
//! series with their entries in the legend ([`shapes`], [`legend`],
//! [`palette`]) and the headings into one document ([`render`]). The text of
//! the document is written through the `tagger` crate ([`markup`]).
//! [`plotter`] collects the series of a chart, and [`laws`] states what
//! holds of every chart.

pub mod arith;
pub mod axes;
pub mod bounds;
pub mod decimal;
pub mod laws;
pub mod layout;
pub mod legend;
pub mod markup;
pub mod palette;
pub mod plotter;
pub mod render;
pub mod series;
pub mod shapes;
pub mod ticks;

pub use crate::layout::ChartConfig;
pub use crate::palette::Color;
pub use crate::plotter::{plot, Plotter, Splot};
pub use crate::series::{Plot, PlotType, Point};
