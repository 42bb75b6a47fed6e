//! The document of a chart: the background, the decoration of the axes,
//! each series with its entry in the legend, and the three headings.

use vstd::prelude::*;
use vstd::string::StringExecFns;
use crate::axes::{
    axis_lines_text, axis_text, emit_axis, emit_axis_lines, text_attrs, text_head,
};
use crate::bounds::{
    find_bounds, greatest_x, greatest_y, least_x, least_y, lemma_bounds_determined,
    nothing_retained,
};
use crate::decimal::{milli_string, milli_text};
use crate::layout::{
    axis_range, canvas_points, data_axis, map_series, milli, milli_ratio, Axis, ChartConfig,
};
use crate::legend::has_visible_name;
use crate::markup::{
    attrs_text, elem_text, elem_written, escape, lemma_join, lemma_join_nothing, number_attr,
    pair_text, push_number, push_owned, push_pair, put_elem, put_raw, put_single, single_text,
    writer_finish, writer_new, Attr, Body,
};
use crate::palette::{class_for, color_of};
use crate::series::Plot;
use crate::shapes::{
    legend_label_text, put_legend_label, put_shape, put_swatch, shape_text, swatch_text,
};
use crate::ticks::{tick_set, ticks_of};

verus! {

/// The background: a white rectangle over the whole canvas.
pub open spec fn background_text(config: ChartConfig) -> Seq<char> {
    single_text(
        "rect"@,
        Seq::empty() + pair_text("class"@, "poloto_background"@) + pair_text("fill"@, "white"@)
            + number_attr("x"@, 0) + number_attr("y"@, 0) + number_attr(
            "width"@,
            config.width * 1000,
        ) + number_attr("height"@, config.height * 1000),
    )
}

/// What is drawn for the series at `index`: its name in the legend, its
/// swatch where the name is not empty, and its shape through the places of
/// its retained points, in the colour of its index.
pub open spec fn series_text(
    plot: Plot,
    index: int,
    x_axis: Axis,
    y_axis: Axis,
    config: ChartConfig,
) -> Seq<char> {
    legend_label_text(plot.name@, config, index) + (if plot.name@.len() > 0 {
        swatch_text(plot.plot_type, config, index, color_of(index))
    } else {
        Seq::empty()
    }) + shape_text(
        plot.plot_type,
        canvas_points(plot.points@, x_axis, y_axis, config),
        config,
        color_of(index),
    )
}

/// What is drawn for the first `n` series, in their order.
pub open spec fn all_series_text(
    plots: Seq<Plot>,
    x_axis: Axis,
    y_axis: Axis,
    config: ChartConfig,
    n: nat,
) -> Seq<char>
    decreases n,
{
    if n == 0 {
        Seq::empty()
    } else {
        all_series_text(plots, x_axis, y_axis, config, (n - 1) as nat) + series_text(
            plots[n - 1],
            n - 1,
            x_axis,
            y_axis,
            config,
        )
    }
}

/// The attributes that the three headings start with.
pub open spec fn heading_head() -> Seq<char> {
    text_head("start"@, "middle"@) + pair_text("font-size"@, "x-large"@)
}

/// The title, centred above the chart.
pub open spec fn title_text(title: Seq<char>, config: ChartConfig) -> Seq<char> {
    elem_text(
        "text"@,
        heading_head() + number_attr("x"@, milli_ratio(config.width as int, 2)) + number_attr(
            "y"@,
            milli_ratio(config.padding as int, 4),
        ),
        escape(title),
    )
}

/// The name of the x axis, centred below the chart.
pub open spec fn xname_text(xname: Seq<char>, config: ChartConfig) -> Seq<char> {
    elem_text(
        "text"@,
        heading_head() + number_attr("x"@, milli_ratio(config.width as int, 2)) + number_attr(
            "y"@,
            milli_ratio(8 * config.height - config.padding, 8),
        ),
        escape(xname),
    )
}

/// The quarter turn of the name of the y axis about its own place.
pub open spec fn turn_text(config: ChartConfig) -> Seq<char> {
    "rotate(-90,"@ + milli_text(milli_ratio(config.padding as int, 4)) + ","@ + milli_text(
        milli_ratio(config.height as int, 2),
    ) + ")"@
}

/// The name of the y axis, turned to read upwards, left of the chart.
pub open spec fn yname_text(yname: Seq<char>, config: ChartConfig) -> Seq<char> {
    elem_text(
        "text"@,
        heading_head() + pair_text("transform"@, turn_text(config)) + number_attr(
            "x"@,
            milli_ratio(config.padding as int, 4),
        ) + number_attr("y"@, milli_ratio(config.height as int, 2)),
        escape(yname),
    )
}

/// The range of the x axis of a chart with a retained point.
pub open spec fn x_axis_of(plots: Seq<Plot>) -> Axis {
    data_axis(least_x(plots), greatest_x(plots))
}

/// The range of the y axis of a chart with a retained point.
pub open spec fn y_axis_of(plots: Seq<Plot>) -> Axis {
    data_axis(least_y(plots), greatest_y(plots))
}

/// All that is drawn on the background where a point is retained: the ticks
/// of the x axis, those of the y axis, the axis lines, the series in their
/// order, and title, x name and y name.
pub open spec fn chart_text(
    title: Seq<char>,
    xname: Seq<char>,
    yname: Seq<char>,
    plots: Seq<Plot>,
    config: ChartConfig,
) -> Seq<char> {
    let x_axis = x_axis_of(plots);
    let y_axis = y_axis_of(plots);
    axis_text(ticks_of(config.x_ticks as int, x_axis), x_axis, config, true) + axis_text(
        ticks_of(config.y_ticks as int, y_axis),
        y_axis,
        config,
        false,
    ) + axis_lines_text(config) + all_series_text(plots, x_axis, y_axis, config, plots.len())
        + title_text(title, config) + xname_text(xname, config) + yname_text(yname, config)
}

/// What stands in the root element: the given elements, the background, and
/// the chart on it unless no point of any series is retained.
pub open spec fn content_text(
    title: Seq<char>,
    xname: Seq<char>,
    yname: Seq<char>,
    plots: Seq<Plot>,
    config: ChartConfig,
    elements: Seq<char>,
) -> Seq<char> {
    elements + background_text(config) + (if nothing_retained(plots) {
        Seq::empty()
    } else {
        chart_text(title, xname, yname, plots, config)
    })
}

/// The corners of the canvas as the root element names them.
pub open spec fn view_box_text(config: ChartConfig) -> Seq<char> {
    "0 0 "@ + milli_text(config.width * 1000) + " "@ + milli_text(config.height * 1000)
}

/// The attributes of the root element.
pub open spec fn root_attrs(config: ChartConfig) -> Seq<char> {
    Seq::empty() + pair_text("class"@, "poloto"@) + number_attr("width"@, config.width * 1000)
        + number_attr("height"@, config.height * 1000) + pair_text(
        "viewBox"@,
        view_box_text(config),
    ) + pair_text("xmlns"@, "http://www.w3.org/2000/svg"@)
}

/// The whole document.
pub open spec fn document_text(
    title: Seq<char>,
    xname: Seq<char>,
    yname: Seq<char>,
    plots: Seq<Plot>,
    config: ChartConfig,
    elements: Seq<char>,
) -> Seq<char> {
    elem_text(
        "svg"@,
        root_attrs(config),
        content_text(title, xname, yname, plots, config, elements),
    )
}

fn put_background(w: &mut tagger::ElemWriter<String>, config: &ChartConfig)
    ensures
        elem_written(*final(w)) == elem_written(*old(w)) + background_text(*config),
{
    let mut attrs: Vec<Attr> = Vec::new();
    push_pair(&mut attrs, "class", "poloto_background");
    push_pair(&mut attrs, "fill", "white");
    push_number(&mut attrs, "x", 0);
    push_number(&mut attrs, "y", 0);
    push_number(&mut attrs, "width", (config.width as i128) * 1000);
    push_number(&mut attrs, "height", (config.height as i128) * 1000);
    let _ = put_single(w, "rect", &attrs);
}

/// Writes what is drawn for the series at `index`.
fn emit_series(
    w: &mut tagger::ElemWriter<String>,
    plot: &Plot,
    index: usize,
    x_axis: &Axis,
    y_axis: &Axis,
    config: &ChartConfig,
)
    requires
        x_axis.wf(),
        y_axis.wf(),
    ensures
        elem_written(*final(w)) == elem_written(*old(w)) + series_text(
            *plot,
            index as int,
            *x_axis,
            *y_axis,
            *config,
        ),
{
    let color = class_for(index);
    let ghost start = elem_written(*w);
    let ghost label = legend_label_text(plot.name@, *config, index as int);
    let ghost swatch = if plot.name@.len() > 0 {
        swatch_text(plot.plot_type, *config, index as int, color_of(index as int))
    } else {
        Seq::empty()
    };
    let ghost shape = shape_text(
        plot.plot_type,
        canvas_points(plot.points@, *x_axis, *y_axis, *config),
        *config,
        color_of(index as int),
    );
    put_legend_label(w, &plot.name, config, index);
    if has_visible_name(plot.name.as_str()) {
        put_swatch(w, plot.plot_type, config, index, color);
    } else {
        proof {
            lemma_join_nothing(start + label);
        }
    }
    assert(elem_written(*w) == (start + label) + swatch);
    let places = map_series(&plot.points, x_axis, y_axis, config);
    put_shape(w, plot.plot_type, &places, config, color);
    proof {
        assert(elem_written(*w) == ((start + label) + swatch) + shape);
        lemma_join(start, label, swatch);
        lemma_join(start, label + swatch, shape);
    }
}

/// Writes what is drawn for all series, in their order.
fn emit_all_series(
    w: &mut tagger::ElemWriter<String>,
    plots: &Vec<Plot>,
    x_axis: &Axis,
    y_axis: &Axis,
    config: &ChartConfig,
)
    requires
        x_axis.wf(),
        y_axis.wf(),
    ensures
        elem_written(*final(w)) == elem_written(*old(w)) + all_series_text(
            plots@,
            *x_axis,
            *y_axis,
            *config,
            plots@.len(),
        ),
{
    let mut i: usize = 0;
    proof {
        lemma_join_nothing(elem_written(*w));
    }
    while i < plots.len()
        invariant
            i <= plots.len(),
            x_axis.wf(),
            y_axis.wf(),
            elem_written(*w) == elem_written(*old(w)) + all_series_text(
                plots@,
                *x_axis,
                *y_axis,
                *config,
                i as nat,
            ),
        decreases plots.len() - i,
    {
        emit_series(w, &plots[i], i, x_axis, y_axis, config);
        proof {
            lemma_join(
                elem_written(*old(w)),
                all_series_text(plots@, *x_axis, *y_axis, *config, i as nat),
                series_text(plots@[i as int], i as int, *x_axis, *y_axis, *config),
            );
        }
        i = i + 1;
    }
}

/// The attributes that the three headings start with.
fn heading_attrs() -> (attrs: Vec<Attr>)
    ensures
        attrs_text(attrs@) == heading_head(),
{
    let mut attrs = text_attrs("start", "middle");
    push_pair(&mut attrs, "font-size", "x-large");
    attrs
}

/// Writes title, x name and y name.
fn emit_headings(
    w: &mut tagger::ElemWriter<String>,
    title: &str,
    xname: &str,
    yname: &str,
    config: &ChartConfig,
)
    ensures
        elem_written(*final(w)) == elem_written(*old(w)) + title_text(title@, *config)
            + xname_text(xname@, *config) + yname_text(yname@, *config),
{
    let width = config.width as i128;
    let height = config.height as i128;
    let padding = config.padding as i128;
    let mut attrs = heading_attrs();
    push_number(&mut attrs, "x", milli(width, 2));
    push_number(&mut attrs, "y", milli(padding, 4));
    let body = Body::Text(String::from_str(title));
    let _ = put_elem(w, "text", &attrs, &body);

    let mut attrs = heading_attrs();
    push_number(&mut attrs, "x", milli(width, 2));
    push_number(&mut attrs, "y", milli(8 * height - padding, 8));
    let body = Body::Text(String::from_str(xname));
    let _ = put_elem(w, "text", &attrs, &body);

    let mut attrs = heading_attrs();
    let mut turn = String::from_str("rotate(-90,");
    turn.append(milli_string(milli(padding, 4)).as_str());
    turn.append(",");
    turn.append(milli_string(milli(height, 2)).as_str());
    turn.append(")");
    push_owned(&mut attrs, "transform", turn);
    push_number(&mut attrs, "x", milli(padding, 4));
    push_number(&mut attrs, "y", milli(height, 2));
    let body = Body::Text(String::from_str(yname));
    let _ = put_elem(w, "text", &attrs, &body);
}

/// Writes all that is drawn on the background where a point is retained.
fn emit_chart(
    w: &mut tagger::ElemWriter<String>,
    title: &str,
    xname: &str,
    yname: &str,
    plots: &Vec<Plot>,
    config: &ChartConfig,
    b: [i32; 4],
)
    requires
        config.wf(),
        crate::bounds::bounds_of(plots@, b),
    ensures
        elem_written(*final(w)) == elem_written(*old(w)) + chart_text(
            title@,
            xname@,
            yname@,
            plots@,
            *config,
        ),
{
    proof {
        lemma_bounds_determined(plots@, b);
    }
    let x_axis = axis_range(b[0], b[1]);
    let y_axis = axis_range(b[2], b[3]);
    assert(x_axis == x_axis_of(plots@));
    assert(y_axis == y_axis_of(plots@));
    let x_ticks = tick_set(config.x_ticks, &x_axis);
    let y_ticks = tick_set(config.y_ticks, &y_axis);
    let ghost start = elem_written(*w);
    let ghost x_part = axis_text(x_ticks, x_axis, *config, true);
    let ghost y_part = axis_text(y_ticks, y_axis, *config, false);
    let ghost lines_part = axis_lines_text(*config);
    let ghost series_part = all_series_text(plots@, x_axis, y_axis, *config, plots@.len());
    let ghost title_part = title_text(title@, *config);
    let ghost xname_part = xname_text(xname@, *config);
    let ghost yname_part = yname_text(yname@, *config);
    emit_axis(w, &x_ticks, &x_axis, config, true, Ghost(config.x_ticks as int));
    emit_axis(w, &y_ticks, &y_axis, config, false, Ghost(config.y_ticks as int));
    emit_axis_lines(w, config);
    emit_all_series(w, plots, &x_axis, &y_axis, config);
    emit_headings(w, title, xname, yname, config);
    proof {
        let axes_part = x_part + y_part + lines_part;
        lemma_join(start, x_part, y_part);
        lemma_join(start, x_part + y_part, lines_part);
        lemma_join(start, axes_part, series_part);
        lemma_join(start, axes_part + series_part, title_part);
        lemma_join(start, axes_part + series_part + title_part, xname_part);
        lemma_join(start, axes_part + series_part + title_part + xname_part, yname_part);
    }
}

/// The attributes of the root element.
fn root_attributes(config: &ChartConfig) -> (attrs: Vec<Attr>)
    ensures
        attrs_text(attrs@) == root_attrs(*config),
{
    let width = (config.width as i128) * 1000;
    let height = (config.height as i128) * 1000;
    let mut attrs: Vec<Attr> = Vec::new();
    push_pair(&mut attrs, "class", "poloto");
    push_number(&mut attrs, "width", width);
    push_number(&mut attrs, "height", height);
    let mut view_box = String::from_str("0 0 ");
    view_box.append(milli_string(width).as_str());
    view_box.append(" ");
    view_box.append(milli_string(height).as_str());
    push_owned(&mut attrs, "viewBox", view_box);
    push_pair(&mut attrs, "xmlns", "http://www.w3.org/2000/svg");
    attrs
}

/// Draws the chart of the series `plots` and returns the document. The
/// elements given are placed first in the root element, as they are. Then
/// comes the background, and unless no point of any series is retained, the
/// decoration of the axes, the series in their order, and the headings.
pub fn render(
    title: &str,
    xname: &str,
    yname: &str,
    plots: &Vec<Plot>,
    config: &ChartConfig,
    elements: &str,
) -> (out: String)
    requires
        config.wf(),
    ensures
        out@ == document_text(title@, xname@, yname@, plots@, *config, elements@),
{
    let mut inner = writer_new();
    let _ = put_raw(&mut inner, elements);
    put_background(&mut inner, config);
    match find_bounds(plots) {
        Some(b) => {
            proof {
                lemma_bounds_determined(plots@, b);
            }
            emit_chart(&mut inner, title, xname, yname, plots, config, b);
        },
        None => {},
    }
    let body = Body::Markup(writer_finish(inner));
    let attrs = root_attributes(config);
    let mut outer = writer_new();
    let _ = put_elem(&mut outer, "svg", &attrs, &body);
    let out = writer_finish(outer);
    proof {
        lemma_join_nothing(elements@);
        lemma_join_nothing(elements@ + background_text(*config));
        lemma_join_nothing(
            elem_text(
                "svg"@,
                root_attrs(*config),
                content_text(title@, xname@, yname@, plots@, *config, elements@),
            ),
        );
    }
    out
}

} // verus!
