//! What holds of every chart, whatever its series are.

use vstd::prelude::*;
use vstd::arithmetic::div_mod::{lemma_div_is_ordered, lemma_div_multiples_vanish};
use crate::bounds::{
    greatest_x, greatest_y, is_greatest_x, is_greatest_y, is_least_x, is_least_y, least_x,
    least_y, lemma_bounds_exist, nothing_retained, retained_at, x_at, y_at,
};
use crate::layout::{canvas_points, map_x, map_y, Axis, ChartConfig};
use crate::markup::lemma_join_nothing;
use crate::palette::color_of;
use crate::render::{all_series_text, document_text, series_text, x_axis_of, y_axis_of};
use crate::series::Plot;
use crate::shapes::{legend_label_text, shape_text};

verus! {

/// The two lists have as many series, and series by series the same points.
pub open spec fn same_points(a: Seq<Plot>, b: Seq<Plot>) -> bool {
    &&& a.len() == b.len()
    &&& forall|i: int| 0 <= i < a.len() ==> (#[trigger] a[i]).points@ == b[i].points@
}

/// The two lists hold the same data: series by series the same name, the
/// same kind and the same points.
pub open spec fn same_data(a: Seq<Plot>, b: Seq<Plot>) -> bool {
    &&& same_points(a, b)
    &&& forall|i: int|
        0 <= i < a.len() ==> (#[trigger] a[i]).name@ == b[i].name@ && a[i].plot_type
            == b[i].plot_type
}

/// Series with the same points have the same bounds, whatever their names
/// and kinds are.
pub proof fn lemma_same_points_same_bounds(a: Seq<Plot>, b: Seq<Plot>)
    requires
        same_points(a, b),
    ensures
        nothing_retained(a) == nothing_retained(b),
        !nothing_retained(a) ==> least_x(a) == least_x(b) && greatest_x(a) == greatest_x(b)
            && least_y(a) == least_y(b) && greatest_y(a) == greatest_y(b),
        !nothing_retained(a) ==> x_axis_of(a) == x_axis_of(b) && y_axis_of(a) == y_axis_of(b),
{
    assert forall|i: int, j: int| retained_at(a, i, j) == retained_at(b, i, j) by {
        if 0 <= i < a.len() {
            assert(a[i].points@ == b[i].points@);
        }
    }
    assert forall|i: int, j: int| #[trigger]
        retained_at(a, i, j) implies x_at(a, i, j) == x_at(b, i, j) && y_at(a, i, j) == y_at(
        b,
        i,
        j,
    ) by {
        assert(a[i].points@ == b[i].points@);
    }
    if nothing_retained(a) {
        assert forall|i: int, j: int| !#[trigger] retained_at(b, i, j) by {
            assert(!retained_at(a, i, j));
        }
    } else {
        let (i, j) = choose|i: int, j: int| retained_at(a, i, j);
        assert(retained_at(b, i, j));
        lemma_bounds_exist(a);
        lemma_bounds_exist(b);
        assert(is_least_x(a, least_x(a)) && is_least_x(b, least_x(b)));
        assert(is_greatest_x(a, greatest_x(a)) && is_greatest_x(b, greatest_x(b)));
        assert(is_least_y(a, least_y(a)) && is_least_y(b, least_y(b)));
        assert(is_greatest_y(a, greatest_y(a)) && is_greatest_y(b, greatest_y(b)));
        assert forall|i: int, j: int| #[trigger] retained_at(b, i, j) implies retained_at(
            a,
            i,
            j,
        ) by {}
    }
}

/// Drawing is a function of the data: two lists of series that hold the same
/// data give the same document, character for character, and so does one
/// list drawn twice.
pub proof fn lemma_same_data_same_document(
    title: Seq<char>,
    xname: Seq<char>,
    yname: Seq<char>,
    a: Seq<Plot>,
    b: Seq<Plot>,
    config: ChartConfig,
    elements: Seq<char>,
)
    requires
        same_data(a, b),
    ensures
        document_text(title, xname, yname, a, config, elements) == document_text(
            title,
            xname,
            yname,
            b,
            config,
            elements,
        ),
{
    lemma_same_points_same_bounds(a, b);
    if !nothing_retained(a) {
        lemma_same_series(a, b, x_axis_of(a), y_axis_of(a), config, a.len());
    }
}

/// Series that hold the same data are drawn the same.
proof fn lemma_same_series(
    a: Seq<Plot>,
    b: Seq<Plot>,
    x_axis: Axis,
    y_axis: Axis,
    config: ChartConfig,
    n: nat,
)
    requires
        same_data(a, b),
        n <= a.len(),
    ensures
        all_series_text(a, x_axis, y_axis, config, n) == all_series_text(
            b,
            x_axis,
            y_axis,
            config,
            n,
        ),
    decreases n,
{
    if n > 0 {
        lemma_same_series(a, b, x_axis, y_axis, config, (n - 1) as nat);
        assert(a[n - 1].name@ == b[n - 1].name@);
        assert(a[n - 1].points@ == b[n - 1].points@);
    }
}

/// Where all retained points share one x coordinate, the x axis is of width
/// 2 with that coordinate in its middle; and so for y.
pub proof fn lemma_shared_coordinate_widens(plots: Seq<Plot>, v: int)
    requires
        !nothing_retained(plots),
    ensures
        (forall|i: int, j: int| #[trigger] retained_at(plots, i, j) ==> x_at(plots, i, j) == v)
            ==> x_axis_of(plots).min == v - 1 && x_axis_of(plots).max == v + 1,
        (forall|i: int, j: int| #[trigger] retained_at(plots, i, j) ==> y_at(plots, i, j) == v)
            ==> y_axis_of(plots).min == v - 1 && y_axis_of(plots).max == v + 1,
{
    lemma_bounds_exist(plots);
}

/// The axes of a chart with a retained point are never empty: each is from
/// the least to the greatest coordinate where these differ, and of width 2
/// about the one coordinate where they do not.
pub proof fn lemma_axes_not_empty(plots: Seq<Plot>)
    requires
        !nothing_retained(plots),
    ensures
        x_axis_of(plots).wf(),
        y_axis_of(plots).wf(),
        least_x(plots) < greatest_x(plots) ==> x_axis_of(plots).min == least_x(plots)
            && x_axis_of(plots).max == greatest_x(plots),
        least_x(plots) == greatest_x(plots) ==> x_axis_of(plots).span() == 2,
        least_y(plots) < greatest_y(plots) ==> y_axis_of(plots).min == least_y(plots)
            && y_axis_of(plots).max == greatest_y(plots),
        least_y(plots) == greatest_y(plots) ==> y_axis_of(plots).span() == 2,
{
    lemma_bounds_exist(plots);
}

/// A share of a length, in thousandths and rounded down, lies between
/// nothing and the whole length.
proof fn lemma_share_within(base: int, part: int, whole: int, length: int)
    requires
        0 <= part <= whole,
        whole > 0,
        length >= 0,
    ensures
        base * 1000 <= ((base * whole + part * length) * 1000) / whole <= (base + length) * 1000,
{
    let low = (base * 1000) * whole;
    let mid = (base * whole + part * length) * 1000;
    let high = ((base + length) * 1000) * whole;
    assert(low <= mid <= high) by (nonlinear_arith)
        requires
            low == (base * 1000) * whole,
            mid == (base * whole + part * length) * 1000,
            high == ((base + length) * 1000) * whole,
            0 <= part <= whole,
            length >= 0,
    ;
    lemma_div_is_ordered(low, mid, whole);
    lemma_div_is_ordered(mid, high, whole);
    lemma_div_multiples_vanish(base * 1000, whole);
    lemma_div_multiples_vanish((base + length) * 1000, whole);
    assert(low == whole * (base * 1000)) by (nonlinear_arith)
        requires
            low == (base * 1000) * whole,
    ;
    assert(high == whole * ((base + length) * 1000)) by (nonlinear_arith)
        requires
            high == ((base + length) * 1000) * whole,
    ;
}

/// Every retained point is drawn inside the chart: on a canvas that is at
/// least as wide as its two paddings, between the left and the right
/// padding, and on one at least as high as its two paddings, between the
/// upper and the lower padding.
pub proof fn lemma_points_lie_in_chart(plots: Seq<Plot>, config: ChartConfig, i: int, j: int)
    requires
        retained_at(plots, i, j),
    ensures
        2 * config.padding <= config.width ==> config.padding * 1000 <= map_x(
            x_at(plots, i, j),
            x_axis_of(plots),
            config,
        ) <= (config.width - config.padding) * 1000,
        2 * config.paddingy <= config.height ==> config.paddingy * 1000 <= map_y(
            y_at(plots, i, j),
            y_axis_of(plots),
            config,
        ) <= (config.height - config.paddingy) * 1000,
{
    lemma_bounds_exist(plots);
    let x_axis = x_axis_of(plots);
    let y_axis = y_axis_of(plots);
    if 2 * config.padding <= config.width {
        lemma_share_within(
            config.padding as int,
            x_at(plots, i, j) - x_axis.min,
            x_axis.span(),
            config.width - 2 * config.padding,
        );
    }
    if 2 * config.paddingy <= config.height {
        // counted from the top, the share is what is left of the range above the point
        let above = y_axis.max - y_at(plots, i, j);
        let length = config.height - 2 * config.paddingy;
        lemma_share_within(config.paddingy as int, above, y_axis.span(), length);
        assert((config.height - config.paddingy) * y_axis.span() - (y_at(plots, i, j) - y_axis.min)
            * length == config.paddingy * y_axis.span() + above * length) by (nonlinear_arith)
            requires
                above == y_axis.max - y_at(plots, i, j),
                length == config.height - 2 * config.paddingy,
                y_axis.span() == y_axis.max - y_axis.min,
        ;
    }
}

/// A series without a name has no swatch: its name is written, empty, and
/// its shape is drawn, and nothing else.
pub proof fn lemma_no_swatch_without_name(
    plot: Plot,
    index: int,
    x_axis: Axis,
    y_axis: Axis,
    config: ChartConfig,
)
    requires
        plot.name@.len() == 0,
    ensures
        series_text(plot, index, x_axis, y_axis, config) == legend_label_text(
            plot.name@,
            config,
            index,
        ) + shape_text(
            plot.plot_type,
            canvas_points(plot.points@, x_axis, y_axis, config),
            config,
            color_of(index),
        ),
{
    lemma_join_nothing(legend_label_text(plot.name@, config, index));
}

/// Taking the name of series `j` away changes nothing of what is drawn for
/// any other series: the axes stay, and each other series keeps its entry in
/// the legend at its place, its swatch and its shape.
pub proof fn lemma_other_series_keep_their_place(
    a: Seq<Plot>,
    b: Seq<Plot>,
    j: int,
    config: ChartConfig,
)
    requires
        same_points(a, b),
        0 <= j < a.len(),
        b[j].name@.len() == 0,
        forall|i: int| 0 <= i < a.len() ==> (#[trigger] a[i]).plot_type == b[i].plot_type,
        forall|i: int| 0 <= i < a.len() && i != j ==> (#[trigger] a[i]).name@ == b[i].name@,
        !nothing_retained(a),
    ensures
        x_axis_of(a) == x_axis_of(b),
        y_axis_of(a) == y_axis_of(b),
        forall|i: int|
            0 <= i < a.len() && i != j ==> series_text(
                #[trigger] a[i],
                i,
                x_axis_of(a),
                y_axis_of(a),
                config,
            ) == series_text(b[i], i, x_axis_of(b), y_axis_of(b), config),
{
    lemma_same_points_same_bounds(a, b);
    assert forall|i: int| 0 <= i < a.len() && i != j implies series_text(
        #[trigger] a[i],
        i,
        x_axis_of(a),
        y_axis_of(a),
        config,
    ) == series_text(b[i], i, x_axis_of(b), y_axis_of(b), config) by {
        assert(a[i].points@ == b[i].points@);
        assert(a[i].name@ == b[i].name@);
        assert(a[i].plot_type == b[i].plot_type);
    }
}

} // verus!
