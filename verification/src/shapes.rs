//! What is drawn for one series: the entry in the legend, and the shape of
//! its kind through the places of its points on the canvas.

use vstd::prelude::*;
use crate::axes::{text_attrs, text_head};
use crate::decimal::{milli_string, milli_text};
use crate::layout::{all_within_reach, as_ints, milli, milli_ratio, ChartConfig};
use crate::markup::{
    attrs_text, elem_text, elem_written, escape, line_text, move_text, number_attr, pair_text,
    path_attr_text, points_attr_text, push_close, push_line, push_move, push_number, push_owned,
    push_pair, push_path, push_points, put_elem, put_single, single_text, vertex_text,
    vertices_text, writer_finish, writer_new, Attr, Body, PathStep,
};
use crate::palette::{class_name, fill_class, stroke_class};
use crate::series::PlotType;

verus! {

/// Where the entry of series `index` stands in the legend, from the top, in
/// thousandths: each series has a slot of its own, a third of the padding
/// below the one before, whether or not the series before have names.
pub open spec fn legend_slot(config: ChartConfig, index: int) -> int {
    milli_ratio(3 * config.paddingy + index * config.padding, 3)
}

/// The name of series `index` in the legend.
pub open spec fn legend_label_text(name: Seq<char>, config: ChartConfig, index: int) -> Seq<char> {
    elem_text(
        "text"@,
        text_head("middle"@, "start"@) + pair_text("font-size"@, "large"@) + number_attr(
            "x"@,
            milli_ratio(6 * config.width - 5 * config.padding, 6),
        ) + number_attr("y"@, legend_slot(config, index)),
        escape(name),
    )
}

/// The left edge of the swatches, in thousandths.
pub open spec fn swatch_x(config: ChartConfig) -> int {
    milli_ratio(5 * config.width - 4 * config.padding, 5)
}

/// The height at which the swatch of series `index` is drawn, in thousandths.
pub open spec fn swatch_y(config: ChartConfig, index: int) -> int {
    milli_ratio(24 * config.paddingy - 3 * config.padding + 8 * (index * config.padding), 24)
}

/// The swatch of a line: a short line.
pub open spec fn line_swatch_text(config: ChartConfig, index: int, color: int) -> Seq<char> {
    single_text(
        "line"@,
        Seq::empty() + pair_text("class"@, stroke_class(color)) + pair_text("stroke"@, "black"@)
            + number_attr("x1"@, swatch_x(config)) + number_attr(
            "x2"@,
            milli_ratio(15 * config.width - 7 * config.padding, 15),
        ) + number_attr("y1"@, swatch_y(config, index)) + number_attr(
            "y2"@,
            swatch_y(config, index),
        ),
    )
}

/// The swatch of a scatter plot: one of its circles.
pub open spec fn circle_swatch_text(config: ChartConfig, index: int, color: int) -> Seq<char> {
    single_text(
        "circle"@,
        Seq::empty() + pair_text("class"@, fill_class(color)) + number_attr(
            "cx"@,
            milli_ratio(30 * config.width - 23 * config.padding, 30),
        ) + number_attr("cy"@, swatch_y(config, index)) + number_attr(
            "r"@,
            milli_ratio(config.padding as int, 30),
        ),
    )
}

/// The swatch of a histogram and of a filled line: a small rounded
/// rectangle.
pub open spec fn rect_swatch_text(config: ChartConfig, index: int, color: int) -> Seq<char> {
    single_text(
        "rect"@,
        Seq::empty() + pair_text("class"@, fill_class(color)) + number_attr("x"@, swatch_x(config))
            + number_attr(
            "y"@,
            milli_ratio(
                120 * config.paddingy - 19 * config.padding + 40 * (index * config.padding),
                120,
            ),
        ) + number_attr("width"@, milli_ratio(config.padding as int, 3)) + number_attr(
            "height"@,
            milli_ratio(config.padding as int, 20),
        ) + number_attr("rx"@, milli_ratio(config.padding as int, 30)) + number_attr(
            "ry"@,
            milli_ratio(config.padding as int, 30),
        ),
    )
}

/// The swatch of a series of the given kind.
pub open spec fn swatch_text(
    plot_type: PlotType,
    config: ChartConfig,
    index: int,
    color: int,
) -> Seq<char> {
    match plot_type {
        PlotType::Line => line_swatch_text(config, index, color),
        PlotType::Scatter => circle_swatch_text(config, index, color),
        PlotType::Histo => rect_swatch_text(config, index, color),
        PlotType::LineFill => rect_swatch_text(config, index, color),
    }
}

/// The points of a polyline through the places, in order.
pub open spec fn polyline_points(places: Seq<(int, int)>) -> Seq<char>
    decreases places.len(),
{
    if places.len() == 0 {
        Seq::empty()
    } else {
        polyline_points(places.drop_last()) + vertex_text(
            milli_text(places.last().0),
            milli_text(places.last().1),
        )
    }
}

/// A line: one polyline through all the places.
pub open spec fn line_shape_text(places: Seq<(int, int)>, color: int) -> Seq<char> {
    single_text(
        "polyline"@,
        Seq::empty() + pair_text("class"@, stroke_class(color)) + pair_text("fill"@, "none"@)
            + pair_text("stroke"@, "black"@) + points_attr_text(polyline_points(places)),
    )
}

/// One circle at a place.
pub open spec fn circle_text(place: (int, int), radius: int) -> Seq<char> {
    single_text(
        "circle"@,
        Seq::empty() + number_attr("cx"@, place.0) + number_attr("cy"@, place.1) + number_attr(
            "r"@,
            radius,
        ),
    )
}

/// A circle at each place, in order.
pub open spec fn circles_text(places: Seq<(int, int)>, radius: int) -> Seq<char>
    decreases places.len(),
{
    if places.len() == 0 {
        Seq::empty()
    } else {
        circles_text(places.drop_last(), radius) + circle_text(places.last(), radius)
    }
}

/// The class of a group of filled shapes.
pub open spec fn group_attrs(color: int) -> Seq<char> {
    Seq::empty() + pair_text("class"@, fill_class(color))
}

/// A scatter plot: a group of circles, one at each place, with a radius of
/// a thirtieth of the padding.
pub open spec fn scatter_shape_text(places: Seq<(int, int)>, config: ChartConfig, color: int) -> Seq<
    char,
> {
    elem_text(
        "g"@,
        group_attrs(color),
        circles_text(places, milli_ratio(config.padding as int, 30)),
    )
}

/// The gap between the bars of a histogram: a fiftieth of the padding.
pub open spec fn bar_gap(config: ChartConfig) -> int {
    milli_ratio(config.padding as int, 50)
}

/// The width of a bar from `left` to `right`: the distance less the gap,
/// and the gap at least.
pub open spec fn bar_width(left: int, right: int, gap: int) -> int {
    if right - left - gap > gap {
        right - left - gap
    } else {
        gap
    }
}

/// The bar that starts at `from` and ends before `to`: its left edge and
/// its top are those of `from`, and it reaches down to the bottom axis line.
pub open spec fn bar_text(from: (int, int), to: (int, int), config: ChartConfig) -> Seq<char> {
    single_text(
        "rect"@,
        Seq::empty() + number_attr("x"@, from.0) + number_attr("y"@, from.1) + number_attr(
            "width"@,
            bar_width(from.0, to.0, bar_gap(config)),
        ) + number_attr("height"@, (config.height - config.paddingy) * 1000 - from.1),
    )
}

/// One bar for each place but the last, from it to the next.
pub open spec fn bars_text(places: Seq<(int, int)>, config: ChartConfig) -> Seq<char>
    decreases places.len(),
{
    if places.len() < 2 {
        Seq::empty()
    } else {
        bars_text(places.drop_last(), config) + bar_text(
            places[places.len() - 2],
            places.last(),
            config,
        )
    }
}

/// A histogram: a group of bars.
pub open spec fn histogram_shape_text(
    places: Seq<(int, int)>,
    config: ChartConfig,
    color: int,
) -> Seq<char> {
    elem_text("g"@, group_attrs(color), bars_text(places, config))
}

/// The start of the path of a filled line at the left end of the bottom
/// axis line, and the lines to the places, in order.
pub open spec fn fill_steps(places: Seq<(int, int)>, config: ChartConfig) -> Seq<char>
    decreases places.len(),
{
    if places.len() == 0 {
        Seq::empty() + move_text(
            config.padding * 1000,
            (config.height - config.paddingy) * 1000,
        )
    } else {
        fill_steps(places.drop_last(), config) + line_text(places.last().0, places.last().1)
    }
}

/// A filled line: one closed path from the left end of the bottom axis line
/// through all the places to the right end of the bottom axis line.
pub open spec fn fill_shape_text(places: Seq<(int, int)>, config: ChartConfig, color: int) -> Seq<
    char,
> {
    single_text(
        "path"@,
        Seq::empty() + pair_text("class"@, fill_class(color)) + path_attr_text(
            fill_steps(places, config) + line_text(
                (config.width - config.padding) * 1000,
                (config.height - config.paddingy) * 1000,
            ) + seq![' ', 'Z'],
        ),
    )
}

/// The shape of a series of the given kind through the places.
pub open spec fn shape_text(
    plot_type: PlotType,
    places: Seq<(int, int)>,
    config: ChartConfig,
    color: int,
) -> Seq<char> {
    match plot_type {
        PlotType::Line => line_shape_text(places, color),
        PlotType::Scatter => scatter_shape_text(places, config, color),
        PlotType::Histo => histogram_shape_text(places, config, color),
        PlotType::LineFill => fill_shape_text(places, config, color),
    }
}

/// Writes the name of series `index` into the legend.
pub(crate) fn put_legend_label(
    w: &mut tagger::ElemWriter<String>,
    name: &String,
    config: &ChartConfig,
    index: usize,
)
    ensures
        elem_written(*final(w)) == elem_written(*old(w)) + legend_label_text(
            name@,
            *config,
            index as int,
        ),
{
    let width = config.width as i128;
    let padding = config.padding as i128;
    let paddingy = config.paddingy as i128;
    let mut attrs = text_attrs("middle", "start");
    push_pair(&mut attrs, "font-size", "large");
    push_number(&mut attrs, "x", milli(6 * width - 5 * padding, 6));
    assert(0 <= (index as i128) * padding <= 0x1_0000_0000_0000_0000 * 0x1_0000_0000)
        by (nonlinear_arith)
        requires
            0 <= index as i128 <= 0x1_0000_0000_0000_0000,
            0 <= padding <= 0x1_0000_0000,
    ;
    push_number(&mut attrs, "y", milli(3 * paddingy + (index as i128) * padding, 3));
    let body = Body::Text(name.clone());
    let _ = put_elem(w, "text", &attrs, &body);
}

/// Writes the swatch of series `index`.
pub(crate) fn put_swatch(
    w: &mut tagger::ElemWriter<String>,
    plot_type: PlotType,
    config: &ChartConfig,
    index: usize,
    color: usize,
)
    ensures
        elem_written(*final(w)) == elem_written(*old(w)) + swatch_text(
            plot_type,
            *config,
            index as int,
            color as int,
        ),
{
    let width = config.width as i128;
    let padding = config.padding as i128;
    let paddingy = config.paddingy as i128;
    assert(0 <= (index as i128) * padding <= 0x1_0000_0000_0000_0000 * 0x1_0000_0000)
        by (nonlinear_arith)
        requires
            0 <= index as i128 <= 0x1_0000_0000_0000_0000,
            0 <= padding <= 0x1_0000_0000,
    ;
    let slot: i128 = (index as i128) * padding;
    let left = milli(5 * width - 4 * padding, 5);
    let level = milli(24 * paddingy - 3 * padding + 8 * slot, 24);
    let mut attrs: Vec<Attr> = Vec::new();
    match plot_type {
        PlotType::Line => {
            push_owned(&mut attrs, "class", class_name(color, true));
            push_pair(&mut attrs, "stroke", "black");
            push_number(&mut attrs, "x1", left);
            push_number(&mut attrs, "x2", milli(15 * width - 7 * padding, 15));
            push_number(&mut attrs, "y1", level);
            push_number(&mut attrs, "y2", level);
            let _ = put_single(w, "line", &attrs);
        },
        PlotType::Scatter => {
            push_owned(&mut attrs, "class", class_name(color, false));
            push_number(&mut attrs, "cx", milli(30 * width - 23 * padding, 30));
            push_number(&mut attrs, "cy", level);
            push_number(&mut attrs, "r", milli(padding, 30));
            let _ = put_single(w, "circle", &attrs);
        },
        _ => {
            push_owned(&mut attrs, "class", class_name(color, false));
            push_number(&mut attrs, "x", left);
            push_number(&mut attrs, "y", milli(120 * paddingy - 19 * padding + 40 * slot, 120));
            push_number(&mut attrs, "width", milli(padding, 3));
            push_number(&mut attrs, "height", milli(padding, 20));
            push_number(&mut attrs, "rx", milli(padding, 30));
            push_number(&mut attrs, "ry", milli(padding, 30));
            let _ = put_single(w, "rect", &attrs);
        },
    }
}

/// Writes a line through the places.
pub(crate) fn put_line_shape(
    w: &mut tagger::ElemWriter<String>,
    places: &Vec<(i128, i128)>,
    color: usize,
)
    ensures
        elem_written(*final(w)) == elem_written(*old(w)) + line_shape_text(
            as_ints(places@),
            color as int,
        ),
{
    let mut points: Vec<(String, String)> = Vec::new();
    let mut k: usize = 0;
    assert(as_ints(places@).take(0) =~= Seq::empty());
    while k < places.len()
        invariant
            k <= places.len(),
            vertices_text(points@) == polyline_points(as_ints(places@).take(k as int)),
        decreases places.len() - k,
    {
        let ghost before = points@;
        points.push((milli_string(places[k].0), milli_string(places[k].1)));
        proof {
            assert(points@.drop_last() =~= before);
            assert(as_ints(places@).take(k + 1).drop_last() =~= as_ints(places@).take(k as int));
        }
        k = k + 1;
    }
    assert(as_ints(places@).take(k as int) =~= as_ints(places@));
    let mut attrs: Vec<Attr> = Vec::new();
    push_owned(&mut attrs, "class", class_name(color, true));
    push_pair(&mut attrs, "fill", "none");
    push_pair(&mut attrs, "stroke", "black");
    push_points(&mut attrs, points);
    let _ = put_single(w, "polyline", &attrs);
}

/// The class of a group of filled shapes.
fn group_attributes(color: usize) -> (attrs: Vec<Attr>)
    ensures
        attrs_text(attrs@) == group_attrs(color as int),
{
    let mut attrs: Vec<Attr> = Vec::new();
    push_owned(&mut attrs, "class", class_name(color, false));
    attrs
}

/// Writes a circle at each of the places.
pub(crate) fn put_scatter_shape(
    w: &mut tagger::ElemWriter<String>,
    places: &Vec<(i128, i128)>,
    config: &ChartConfig,
    color: usize,
)
    ensures
        elem_written(*final(w)) == elem_written(*old(w)) + scatter_shape_text(
            as_ints(places@),
            *config,
            color as int,
        ),
{
    let radius = milli(config.padding as i128, 30);
    let mut inner = writer_new();
    let mut k: usize = 0;
    assert(as_ints(places@).take(0) =~= Seq::empty());
    while k < places.len()
        invariant
            k <= places.len(),
            elem_written(inner) == circles_text(as_ints(places@).take(k as int), radius as int),
        decreases places.len() - k,
    {
        let mut attrs: Vec<Attr> = Vec::new();
        push_number(&mut attrs, "cx", places[k].0);
        push_number(&mut attrs, "cy", places[k].1);
        push_number(&mut attrs, "r", radius);
        let _ = put_single(&mut inner, "circle", &attrs);
        proof {
            assert(as_ints(places@).take(k + 1).drop_last() =~= as_ints(places@).take(k as int));
        }
        k = k + 1;
    }
    assert(as_ints(places@).take(k as int) =~= as_ints(places@));
    let body = Body::Markup(writer_finish(inner));
    let attrs = group_attributes(color);
    let _ = put_elem(w, "g", &attrs, &body);
}

/// Writes a bar for each of the places but the last.
pub(crate) fn put_histogram_shape(
    w: &mut tagger::ElemWriter<String>,
    places: &Vec<(i128, i128)>,
    config: &ChartConfig,
    color: usize,
)
    requires
        all_within_reach(places@),
    ensures
        elem_written(*final(w)) == elem_written(*old(w)) + histogram_shape_text(
            as_ints(places@),
            *config,
            color as int,
        ),
{
    let gap = milli(config.padding as i128, 50);
    let bottom: i128 = (config.height as i128 - config.paddingy as i128) * 1000;
    let mut inner = writer_new();
    let mut last: Option<(i128, i128)> = None;
    let mut k: usize = 0;
    assert(as_ints(places@).take(0) =~= Seq::empty());
    while k < places.len()
        invariant
            k <= places.len(),
            all_within_reach(places@),
            gap == bar_gap(*config),
            0 <= gap <= 0x1_0000_0000 * 1000,
            bottom == (config.height - config.paddingy) * 1000,
            k == 0 ==> last is None,
            k > 0 ==> last == Some(places@[k - 1]),
            elem_written(inner) == bars_text(as_ints(places@).take(k as int), *config),
        decreases places.len() - k,
    {
        let place = places[k];
        proof {
            assert(as_ints(places@).take(k + 1).drop_last() =~= as_ints(places@).take(k as int));
        }
        match last {
            Some(from) => {
                let across: i128 = place.0 - from.0 - gap;
                let wide: i128 = if across > gap {
                    across
                } else {
                    gap
                };
                let mut attrs: Vec<Attr> = Vec::new();
                push_number(&mut attrs, "x", from.0);
                push_number(&mut attrs, "y", from.1);
                push_number(&mut attrs, "width", wide);
                push_number(&mut attrs, "height", bottom - from.1);
                let _ = put_single(&mut inner, "rect", &attrs);
            },
            None => {},
        }
        last = Some(place);
        k = k + 1;
    }
    assert(as_ints(places@).take(k as int) =~= as_ints(places@));
    let body = Body::Markup(writer_finish(inner));
    let attrs = group_attributes(color);
    let _ = put_elem(w, "g", &attrs, &body);
}

/// Writes the closed path under a line through the places.
pub(crate) fn put_fill_shape(
    w: &mut tagger::ElemWriter<String>,
    places: &Vec<(i128, i128)>,
    config: &ChartConfig,
    color: usize,
)
    ensures
        elem_written(*final(w)) == elem_written(*old(w)) + fill_shape_text(
            as_ints(places@),
            *config,
            color as int,
        ),
{
    let bottom: i128 = (config.height as i128 - config.paddingy as i128) * 1000;
    let mut steps: Vec<PathStep> = Vec::new();
    push_move(&mut steps, (config.padding as i128) * 1000, bottom);
    let mut k: usize = 0;
    assert(as_ints(places@).take(0) =~= Seq::empty());
    while k < places.len()
        invariant
            k <= places.len(),
            crate::markup::steps_text(steps@) == fill_steps(
                as_ints(places@).take(k as int),
                *config,
            ),
        decreases places.len() - k,
    {
        push_line(&mut steps, places[k].0, places[k].1);
        proof {
            assert(as_ints(places@).take(k + 1).drop_last() =~= as_ints(places@).take(k as int));
        }
        k = k + 1;
    }
    assert(as_ints(places@).take(k as int) =~= as_ints(places@));
    push_line(&mut steps, (config.width as i128 - config.padding as i128) * 1000, bottom);
    push_close(&mut steps);
    let mut attrs: Vec<Attr> = Vec::new();
    push_owned(&mut attrs, "class", class_name(color, false));
    push_path(&mut attrs, steps);
    let _ = put_single(w, "path", &attrs);
}

/// Writes the shape of a series of the given kind through the places.
pub(crate) fn put_shape(
    w: &mut tagger::ElemWriter<String>,
    plot_type: PlotType,
    places: &Vec<(i128, i128)>,
    config: &ChartConfig,
    color: usize,
)
    requires
        all_within_reach(places@),
    ensures
        elem_written(*final(w)) == elem_written(*old(w)) + shape_text(
            plot_type,
            as_ints(places@),
            *config,
            color as int,
        ),
{
    match plot_type {
        PlotType::Line => put_line_shape(w, places, color),
        PlotType::Scatter => put_scatter_shape(w, places, config, color),
        PlotType::Histo => put_histogram_shape(w, places, config, color),
        PlotType::LineFill => put_fill_shape(w, places, config, color),
    }
}

} // verus!
