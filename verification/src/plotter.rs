//! The builder of a chart: the title, the names of the axes, and the series
//! in the order in which they were added.

use vstd::prelude::*;
use vstd::string::StringExecFns;
use crate::layout::ChartConfig;
use crate::render::{document_text, render};
use crate::series::{Plot, PlotType, Point};

verus! {

/// Keeps the series of a chart until it is drawn.
pub struct Plotter {
    title: String,
    xname: String,
    yname: String,
    plots: Vec<Plot>,
    x_exponent: i8,
    y_exponent: i8,
}

/// The standard layout for coordinates that count units of ten to the
/// powers given.
pub open spec fn standard_in_units(x_exponent: i8, y_exponent: i8) -> ChartConfig {
    ChartConfig {
        width: 800,
        height: 600,
        padding: 150,
        paddingy: 100,
        x_ticks: 9,
        y_ticks: 10,
        x_exponent,
        y_exponent,
    }
}

/// `after` is `before` with one series added behind the others.
pub open spec fn with_series(
    before: Seq<Plot>,
    after: Seq<Plot>,
    name: Seq<char>,
    plot_type: PlotType,
    points: Seq<Point>,
) -> bool {
    &&& after.len() == before.len() + 1
    &&& after.drop_last() == before
    &&& after.last().name@ == name
    &&& after.last().plot_type == plot_type
    &&& after.last().points@ == points
}

/// A plotter without series. Short for `Plotter::new`.
pub fn plot(title: &str, xname: &str, yname: &str) -> (p: Plotter)
    ensures
        p.title() == title@,
        p.xname() == xname@,
        p.yname() == yname@,
        p.plots().len() == 0,
        p.config() == ChartConfig::standard(),
{
    Plotter::new(title, xname, yname)
}

impl Plotter {
    /// The title of the chart.
    pub closed spec fn title(&self) -> Seq<char> {
        self.title@
    }

    /// The name of the x axis.
    pub closed spec fn xname(&self) -> Seq<char> {
        self.xname@
    }

    /// The name of the y axis.
    pub closed spec fn yname(&self) -> Seq<char> {
        self.yname@
    }

    /// The series, in the order in which they were added.
    pub closed spec fn plots(&self) -> Seq<Plot> {
        self.plots@
    }

    /// The layout in which the chart is drawn: the standard layout, in the
    /// units that were set.
    pub closed spec fn config(&self) -> ChartConfig {
        standard_in_units(self.x_exponent, self.y_exponent)
    }

    /// Nothing but the series differs between the two.
    pub open spec fn same_frame(&self, other: &Plotter) -> bool {
        &&& self.title() == other.title()
        &&& self.xname() == other.xname()
        &&& self.yname() == other.yname()
        &&& self.config() == other.config()
    }

    /// A plotter without series, for coordinates that count units.
    pub fn new(title: &str, xname: &str, yname: &str) -> (p: Plotter)
        ensures
            p.title() == title@,
            p.xname() == xname@,
            p.yname() == yname@,
            p.plots().len() == 0,
            p.config() == ChartConfig::standard(),
    {
        Plotter {
            title: String::from_str(title),
            xname: String::from_str(xname),
            yname: String::from_str(yname),
            plots: Vec::new(),
            x_exponent: 0,
            y_exponent: 0,
        }
    }

    /// Sets the units of the coordinates: the x coordinates count units of
    /// ten to the power `x_exponent`, the y coordinates of ten to the power
    /// `y_exponent`. The labels of the ticks show the values.
    pub fn units(&mut self, x_exponent: i8, y_exponent: i8)
        ensures
            final(self).title() == old(self).title(),
            final(self).xname() == old(self).xname(),
            final(self).yname() == old(self).yname(),
            final(self).plots() == old(self).plots(),
            final(self).config() == standard_in_units(x_exponent, y_exponent),
    {
        self.x_exponent = x_exponent;
        self.y_exponent = y_exponent;
    }

    fn add(&mut self, name: &str, plot_type: PlotType, points: Vec<Point>)
        ensures
            final(self).same_frame(old(self)),
            with_series(old(self).plots(), final(self).plots(), name@, plot_type, points@),
    {
        self.plots.push(Plot { name: String::from_str(name), plot_type, points });
        assert(self.plots@.drop_last() =~= old(self).plots@);
    }

    /// Adds a series that is drawn as a line through its points.
    pub fn line(&mut self, name: &str, points: Vec<Point>)
        ensures
            final(self).same_frame(old(self)),
            with_series(old(self).plots(), final(self).plots(), name@, PlotType::Line, points@),
    {
        self.add(name, PlotType::Line, points)
    }

    /// Adds a series that is drawn as a line with the area under it filled.
    pub fn line_fill(&mut self, name: &str, points: Vec<Point>)
        ensures
            final(self).same_frame(old(self)),
            with_series(
                old(self).plots(),
                final(self).plots(),
                name@,
                PlotType::LineFill,
                points@,
            ),
    {
        self.add(name, PlotType::LineFill, points)
    }

    /// Adds a series that is drawn as a circle at each of its points.
    pub fn scatter(&mut self, name: &str, points: Vec<Point>)
        ensures
            final(self).same_frame(old(self)),
            with_series(old(self).plots(), final(self).plots(), name@, PlotType::Scatter, points@),
    {
        self.add(name, PlotType::Scatter, points)
    }

    /// Adds a series that is drawn as bars, the left side of each bar at a
    /// point.
    pub fn histogram(&mut self, name: &str, points: Vec<Point>)
        ensures
            final(self).same_frame(old(self)),
            with_series(old(self).plots(), final(self).plots(), name@, PlotType::Histo, points@),
    {
        self.add(name, PlotType::Histo, points)
    }

    /// Draws the chart in the standard layout, with the given elements
    /// first in the document: a style, for one.
    pub fn render_with_elements(self, elements: &str) -> (out: String)
        ensures
            out@ == document_text(
                self.title(),
                self.xname(),
                self.yname(),
                self.plots(),
                self.config(),
                elements@,
            ),
    {
        let mut config = ChartConfig::new();
        config.x_exponent = self.x_exponent;
        config.y_exponent = self.y_exponent;
        render(
            self.title.as_str(),
            self.xname.as_str(),
            self.yname.as_str(),
            &self.plots,
            &config,
            elements,
        )
    }

    /// Draws the chart in the standard layout.
    pub fn render(self) -> (out: String)
        ensures
            out@ == document_text(
                self.title(),
                self.xname(),
                self.yname(),
                self.plots(),
                self.config(),
                Seq::empty(),
            ),
    {
        let none = String::new();
        self.render_with_elements(none.as_str())
    }
}

/// A chart of lines.
pub struct Splot {
    chart: Plotter,
}

impl Splot {
    /// The plotter that holds the lines.
    pub closed spec fn chart(&self) -> Plotter {
        self.chart
    }

    /// A chart without lines, for coordinates that count units.
    pub fn new(title: &str, xname: &str, yname: &str) -> (s: Splot)
        ensures
            s.chart().title() == title@,
            s.chart().xname() == xname@,
            s.chart().yname() == yname@,
            s.chart().plots().len() == 0,
            s.chart().config() == ChartConfig::standard(),
    {
        Splot { chart: Plotter::new(title, xname, yname) }
    }

    /// Sets the units of the coordinates, see `Plotter::units`.
    pub fn units(&mut self, x_exponent: i8, y_exponent: i8)
        ensures
            final(self).chart().title() == old(self).chart().title(),
            final(self).chart().xname() == old(self).chart().xname(),
            final(self).chart().yname() == old(self).chart().yname(),
            final(self).chart().plots() == old(self).chart().plots(),
            final(self).chart().config() == standard_in_units(x_exponent, y_exponent),
    {
        self.chart.units(x_exponent, y_exponent);
    }

    /// Adds a line through the points.
    pub fn lines(&mut self, name: &str, points: Vec<Point>)
        ensures
            final(self).chart().same_frame(&old(self).chart()),
            with_series(
                old(self).chart().plots(),
                final(self).chart().plots(),
                name@,
                PlotType::Line,
                points@,
            ),
    {
        self.chart.line(name, points);
    }

    /// Draws the chart in the standard layout.
    pub fn render(self) -> (out: String)
        ensures
            out@ == document_text(
                self.chart().title(),
                self.chart().xname(),
                self.chart().yname(),
                self.chart().plots(),
                self.chart().config(),
                Seq::empty(),
            ),
    {
        self.chart.render()
    }
}

} // verus!
