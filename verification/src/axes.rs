//! The decoration of the two axes: a mark and a label for each tick, the
//! label that names the base where tick labels are relative, and the axis
//! lines.

use vstd::prelude::*;
use vstd::string::StringExecFns;
use crate::decimal::{scaled_string, scaled_text};
use crate::arith::lemma_product_bound;
use crate::layout::{milli, milli_ratio, Axis, ChartConfig};
use crate::markup::{
    attrs_text, elem_text, elem_written, escape, line_text, move_text, number_attr, pair_text,
    path_attr_text, push_line, push_move, push_number, push_pair, push_path, put_elem, put_single,
    single_text, Attr, Body, PathStep,
};
use crate::ticks::{lemma_tick_bounds, TickSet};

verus! {

/// The multiplier of the step as labels show it: a step of ten times a
/// power of ten is shown as the next power of ten.
pub open spec fn label_mult(t: TickSet) -> int {
    if t.step.mult == 10 {
        1
    } else {
        t.step.mult as int
    }
}

/// The exponent of the step as labels show it.
pub open spec fn label_exp(t: TickSet) -> int {
    if t.step.mult == 10 {
        t.step.exp + 1
    } else {
        t.step.exp as int
    }
}

/// The label of tick `i`, with coordinates in units of ten to the power
/// `unit`: the value of the tick, or where labels are relative, how far it
/// lies above the first tick.
pub open spec fn tick_label(t: TickSet, i: int, unit: int) -> Seq<char> {
    scaled_text((if t.offset { i } else { t.first + i }) * label_mult(t), label_exp(t) + unit)
}

/// The value of the first tick, to which relative labels refer.
pub open spec fn base_label(t: TickSet, unit: int) -> Seq<char> {
    scaled_text(t.first * label_mult(t), label_exp(t) + unit)
}

/// Where tick `i` of the x axis lies on the canvas, in thousandths.
pub open spec fn tick_x(t: TickSet, axis: Axis, config: ChartConfig, i: int) -> int {
    milli_ratio(
        config.padding * (axis.span() * t.step.den()) + t.offset_of(axis, i) * (config.width - 2
            * config.padding),
        axis.span() * t.step.den(),
    )
}

/// Where tick `i` of the y axis lies on the canvas, in thousandths.
pub open spec fn tick_y(t: TickSet, axis: Axis, config: ChartConfig, i: int) -> int {
    milli_ratio(
        (config.height - config.paddingy) * (axis.span() * t.step.den()) - t.offset_of(axis, i) * (
        config.height - 2 * config.paddingy),
        axis.span() * t.step.den(),
    )
}

/// The text of the mark of a tick, a short line.
pub open spec fn mark_text(x1: int, x2: int, y1: int, y2: int) -> Seq<char> {
    single_text(
        "line"@,
        Seq::empty() + pair_text("class"@, "poloto_axis_lines"@) + pair_text("stroke"@, "black"@)
            + number_attr("x1"@, x1) + number_attr("x2"@, x2) + number_attr("y1"@, y1)
            + number_attr("y2"@, y2),
    )
}

/// The attributes that every text element starts with.
pub open spec fn text_head(baseline: Seq<char>, anchor: Seq<char>) -> Seq<char> {
    Seq::empty() + pair_text("class"@, "poloto_text"@) + pair_text("alignment-baseline"@, baseline)
        + pair_text("text-anchor"@, anchor)
}

/// The text of a label at a place.
pub open spec fn label_text(
    baseline: Seq<char>,
    anchor: Seq<char>,
    x: int,
    y: int,
    content: Seq<char>,
) -> Seq<char> {
    elem_text(
        "text"@,
        text_head(baseline, anchor) + number_attr("x"@, x) + number_attr("y"@, y),
        escape(content),
    )
}

/// What precedes a relative label: the letter of the axis and a plus sign.
pub open spec fn label_prefix(t: TickSet, horizontal: bool) -> Seq<char> {
    if !t.offset {
        Seq::empty()
    } else if horizontal {
        "j+"@
    } else {
        "k+"@
    }
}

/// The mark and the label of tick `i` of the x axis.
pub open spec fn x_tick_text(t: TickSet, axis: Axis, config: ChartConfig, i: int) -> Seq<char> {
    let xx = tick_x(t, axis, config, i);
    mark_text(
        xx,
        xx,
        (config.height - config.paddingy) * 1000,
        milli_ratio(20 * config.height - 19 * config.paddingy, 20),
    ) + label_text(
        "start"@,
        "middle"@,
        xx,
        milli_ratio(10 * config.height - 7 * config.paddingy, 10),
        label_prefix(t, true) + tick_label(t, i, config.x_exponent as int),
    )
}

/// The mark and the label of tick `i` of the y axis.
pub open spec fn y_tick_text(t: TickSet, axis: Axis, config: ChartConfig, i: int) -> Seq<char> {
    let yy = tick_y(t, axis, config, i);
    mark_text(config.padding * 1000, milli_ratio(24 * config.padding, 25), yy, yy) + label_text(
        "middle"@,
        "end"@,
        milli_ratio(9 * config.padding, 10),
        yy,
        label_prefix(t, false) + tick_label(t, i, config.y_exponent as int),
    )
}

/// The mark and the label of tick `i` of one of the axes.
pub open spec fn tick_text(
    t: TickSet,
    axis: Axis,
    config: ChartConfig,
    horizontal: bool,
    i: int,
) -> Seq<char> {
    if horizontal {
        x_tick_text(t, axis, config, i)
    } else {
        y_tick_text(t, axis, config, i)
    }
}

/// The marks and labels of the first `n` ticks of an axis.
pub open spec fn ticks_text(
    t: TickSet,
    axis: Axis,
    config: ChartConfig,
    horizontal: bool,
    n: nat,
) -> Seq<char>
    decreases n,
{
    if n == 0 {
        Seq::empty()
    } else {
        ticks_text(t, axis, config, horizontal, (n - 1) as nat) + tick_text(
            t,
            axis,
            config,
            horizontal,
            n - 1,
        )
    }
}

/// The label that names the base of relative labels, written once for an
/// axis whose labels are relative.
pub open spec fn base_text(t: TickSet, config: ChartConfig, horizontal: bool) -> Seq<char> {
    if !t.offset {
        Seq::empty()
    } else if horizontal {
        label_text(
            "middle"@,
            "start"@,
            milli_ratio(11 * config.width, 20),
            milli_ratio(7 * config.paddingy, 10),
            "Where j = "@ + base_label(t, config.x_exponent as int),
        )
    } else {
        label_text(
            "middle"@,
            "start"@,
            config.padding * 1000,
            milli_ratio(7 * config.paddingy, 10),
            "Where k = "@ + base_label(t, config.y_exponent as int),
        )
    }
}

/// All that is drawn for the ticks of one axis.
pub open spec fn axis_text(t: TickSet, axis: Axis, config: ChartConfig, horizontal: bool) -> Seq<
    char,
> {
    base_text(t, config, horizontal) + ticks_text(t, axis, config, horizontal, t.count as nat)
}

/// The two axis lines: down the left side of the chart and along its bottom.
pub open spec fn axis_lines_text(config: ChartConfig) -> Seq<char> {
    single_text(
        "path"@,
        Seq::empty() + pair_text("stroke"@, "black"@) + pair_text("fill"@, "none"@) + pair_text(
            "class"@,
            "poloto_axis_lines"@,
        ) + path_attr_text(
            Seq::empty() + move_text(config.padding * 1000, config.paddingy * 1000) + line_text(
                config.padding * 1000,
                (config.height - config.paddingy) * 1000,
            ) + line_text(
                (config.width - config.padding) * 1000,
                (config.height - config.paddingy) * 1000,
            ),
        ),
    )
}

/// The first three attributes of a text element.
pub(crate) fn text_attrs(baseline: &str, anchor: &str) -> (attrs: Vec<Attr>)
    ensures
        attrs_text(attrs@) == text_head(baseline@, anchor@),
{
    let mut attrs: Vec<Attr> = Vec::new();
    push_pair(&mut attrs, "class", "poloto_text");
    push_pair(&mut attrs, "alignment-baseline", baseline);
    push_pair(&mut attrs, "text-anchor", anchor);
    attrs
}

/// Writes a label at a place.
pub(crate) fn put_label(
    w: &mut tagger::ElemWriter<String>,
    baseline: &str,
    anchor: &str,
    x: i128,
    y: i128,
    content: String,
)
    ensures
        elem_written(*final(w)) == elem_written(*old(w)) + label_text(
            baseline@,
            anchor@,
            x as int,
            y as int,
            content@,
        ),
{
    let mut attrs = text_attrs(baseline, anchor);
    push_number(&mut attrs, "x", x);
    push_number(&mut attrs, "y", y);
    let body = Body::Text(content);
    let _ = put_elem(w, "text", &attrs, &body);
}

/// Writes the mark of a tick.
pub(crate) fn put_mark(w: &mut tagger::ElemWriter<String>, x1: i128, x2: i128, y1: i128, y2: i128)
    ensures
        elem_written(*final(w)) == elem_written(*old(w)) + mark_text(
            x1 as int,
            x2 as int,
            y1 as int,
            y2 as int,
        ),
{
    let mut attrs: Vec<Attr> = Vec::new();
    push_pair(&mut attrs, "class", "poloto_axis_lines");
    push_pair(&mut attrs, "stroke", "black");
    push_number(&mut attrs, "x1", x1);
    push_number(&mut attrs, "x2", x2);
    push_number(&mut attrs, "y1", y1);
    push_number(&mut attrs, "y2", y2);
    let _ = put_single(w, "line", &attrs);
}

/// The text of `index` steps.
fn steps_string(index: i128, t: &TickSet, unit: i8) -> (s: String)
    requires
        t.step.wf(),
        -0x40_0000_0000_0000_0000 <= index <= 0x40_0000_0000_0000_0000,
    ensures
        s@ == scaled_text(index * label_mult(*t), label_exp(*t) + unit),
{
    if t.step.mult == 10 {
        scaled_string(index, t.step.exp as i16 + 1 + unit as i16)
    } else {
        proof {
            lemma_product_bound(index as int, t.step.mult as int, 0x40_0000_0000_0000_0000, 10);
        }
        scaled_string(index * (t.step.mult as i128), t.step.exp as i16 + unit as i16)
    }
}

/// Where tick `i` of an axis lies on the canvas, in thousandths.
fn tick_place(
    t: &TickSet,
    axis: &Axis,
    config: &ChartConfig,
    horizontal: bool,
    i: usize,
    Ghost(desired): Ghost<int>,
) -> (r: i128)
    requires
        2 <= desired <= 0xFFFF_FFFF,
        axis.wf(),
        t.fits(desired, *axis),
        i < t.count,
    ensures
        horizontal ==> r == tick_x(*t, *axis, *config, i as int),
        !horizontal ==> r == tick_y(*t, *axis, *config, i as int),
{
    proof {
        lemma_tick_bounds(desired, *axis, *t);
    }
    let num: i128 = t.step.numerator() as i128;
    let den: i128 = t.step.denominator() as i128;
    let span: i128 = axis.max as i128 - axis.min as i128;
    let scaled_span: i128 = span * den;
    proof {
        lemma_product_bound(axis.min as int, den as int, 0x8000_0001, 0x10_0000_0000);
        lemma_product_bound(i as int, num as int, 0xFFFF_FFFF, 0x10_0000_0000);
        assert(t.offset_of(*axis, i as int) == t.first * num - axis.min * den + i * num)
            by (nonlinear_arith)
            requires
                t.offset_of(*axis, i as int) == (t.first + i) * num - axis.min * den,
        ;
        assert(-0x10_0000_0000 < t.offset_of(*axis, i as int) < 0x20_0000_0000);
    }
    let above: i128 = t.first * num - (axis.min as i128) * den + (i as i128) * num;
    if horizontal {
        let padding = config.padding as i128;
        let plot: i128 = config.width as i128 - 2 * padding;
        proof {
            lemma_product_bound(padding as int, scaled_span as int, 0x1_0000_0000, 0x10_0000_0000);
            lemma_product_bound(above as int, plot as int, 0x20_0000_0000, 0x2_0000_0000);
        }
        milli(padding * scaled_span + above * plot, scaled_span)
    } else {
        let plot: i128 = config.height as i128 - 2 * (config.paddingy as i128);
        let bottom: i128 = config.height as i128 - config.paddingy as i128;
        proof {
            lemma_product_bound(bottom as int, scaled_span as int, 0x1_0000_0000, 0x10_0000_0000);
            lemma_product_bound(above as int, plot as int, 0x20_0000_0000, 0x2_0000_0000);
        }
        milli(bottom * scaled_span - above * plot, scaled_span)
    }
}

/// The label of tick `i` with what precedes it.
fn tick_content(
    t: &TickSet,
    axis: &Axis,
    horizontal: bool,
    unit: i8,
    i: usize,
    Ghost(desired): Ghost<int>,
) -> (s: String)
    requires
        2 <= desired <= 0xFFFF_FFFF,
        axis.wf(),
        t.fits(desired, *axis),
        i < t.count,
    ensures
        s@ == label_prefix(*t, horizontal) + tick_label(*t, i as int, unit as int),
{
    proof {
        lemma_tick_bounds(desired, *axis, *t);
    }
    if t.offset {
        let label = steps_string(i as i128, t, unit);
        if horizontal {
            String::from_str("j+").concat(label.as_str())
        } else {
            String::from_str("k+").concat(label.as_str())
        }
    } else {
        let label = steps_string(t.first + i as i128, t, unit);
        assert(label@ =~= label_prefix(*t, horizontal) + tick_label(*t, i as int, unit as int));
        label
    }
}

/// Writes the mark and the label of tick `i` of an axis.
fn put_tick(
    w: &mut tagger::ElemWriter<String>,
    t: &TickSet,
    axis: &Axis,
    config: &ChartConfig,
    horizontal: bool,
    i: usize,
    Ghost(desired): Ghost<int>,
)
    requires
        2 <= desired <= 0xFFFF_FFFF,
        axis.wf(),
        t.fits(desired, *axis),
        i < t.count,
    ensures
        elem_written(*final(w)) == elem_written(*old(w)) + tick_text(
            *t,
            *axis,
            *config,
            horizontal,
            i as int,
        ),
{
    let place = tick_place(t, axis, config, horizontal, i, Ghost(desired));
    let height = config.height as i128;
    let padding = config.padding as i128;
    let paddingy = config.paddingy as i128;
    if horizontal {
        let content = tick_content(t, axis, horizontal, config.x_exponent, i, Ghost(desired));
        put_mark(
            w,
            place,
            place,
            (height - paddingy) * 1000,
            milli(20 * height - 19 * paddingy, 20),
        );
        put_label(w, "start", "middle", place, milli(10 * height - 7 * paddingy, 10), content);
        assert(elem_written(*w) =~= elem_written(*old(w)) + x_tick_text(
            *t,
            *axis,
            *config,
            i as int,
        ));
    } else {
        let content = tick_content(t, axis, horizontal, config.y_exponent, i, Ghost(desired));
        put_mark(w, padding * 1000, milli(24 * padding, 25), place, place);
        put_label(w, "middle", "end", milli(9 * padding, 10), place, content);
        assert(elem_written(*w) =~= elem_written(*old(w)) + y_tick_text(
            *t,
            *axis,
            *config,
            i as int,
        ));
    }
}

/// Writes the label that names the base of relative labels, where the
/// labels of the axis are relative.
fn put_base(
    w: &mut tagger::ElemWriter<String>,
    t: &TickSet,
    axis: &Axis,
    config: &ChartConfig,
    horizontal: bool,
    Ghost(desired): Ghost<int>,
)
    requires
        2 <= desired <= 0xFFFF_FFFF,
        axis.wf(),
        t.fits(desired, *axis),
    ensures
        elem_written(*final(w)) == elem_written(*old(w)) + base_text(*t, *config, horizontal),
{
    proof {
        lemma_tick_bounds(desired, *axis, *t);
    }
    let width = config.width as i128;
    let padding = config.padding as i128;
    let paddingy = config.paddingy as i128;
    if t.offset {
        if horizontal {
            let base = steps_string(t.first, t, config.x_exponent);
            let content = String::from_str("Where j = ").concat(base.as_str());
            put_label(w, "middle", "start", milli(11 * width, 20), milli(7 * paddingy, 10), content);
        } else {
            let base = steps_string(t.first, t, config.y_exponent);
            let content = String::from_str("Where k = ").concat(base.as_str());
            put_label(w, "middle", "start", padding * 1000, milli(7 * paddingy, 10), content);
        }
    } else {
        assert(elem_written(*w) =~= elem_written(*old(w)) + base_text(*t, *config, horizontal));
    }
}

/// Writes what is drawn for the ticks of one axis: the label of the base
/// where labels are relative, then mark and label of each tick in order.
pub(crate) fn emit_axis(
    w: &mut tagger::ElemWriter<String>,
    t: &TickSet,
    axis: &Axis,
    config: &ChartConfig,
    horizontal: bool,
    Ghost(desired): Ghost<int>,
)
    requires
        2 <= desired <= 0xFFFF_FFFF,
        axis.wf(),
        t.fits(desired, *axis),
    ensures
        elem_written(*final(w)) == elem_written(*old(w)) + axis_text(*t, *axis, *config, horizontal),
{
    put_base(w, t, axis, config, horizontal, Ghost(desired));
    let ghost start = elem_written(*w);
    let mut i: usize = 0;
    assert(start + ticks_text(*t, *axis, *config, horizontal, 0) =~= start);
    while i < t.count
        invariant
            i <= t.count,
            2 <= desired <= 0xFFFF_FFFF,
            axis.wf(),
            t.fits(desired, *axis),
            elem_written(*w) == start + ticks_text(*t, *axis, *config, horizontal, i as nat),
        decreases t.count - i,
    {
        put_tick(w, t, axis, config, horizontal, i, Ghost(desired));
        assert(elem_written(*w) =~= start + ticks_text(
            *t,
            *axis,
            *config,
            horizontal,
            (i + 1) as nat,
        ));
        i = i + 1;
    }
    assert(elem_written(*w) =~= elem_written(*old(w)) + axis_text(*t, *axis, *config, horizontal));
}

/// Writes the two axis lines.
pub(crate) fn emit_axis_lines(w: &mut tagger::ElemWriter<String>, config: &ChartConfig)
    ensures
        elem_written(*final(w)) == elem_written(*old(w)) + axis_lines_text(*config),
{
    let width = config.width as i128;
    let height = config.height as i128;
    let padding = config.padding as i128;
    let paddingy = config.paddingy as i128;
    let mut steps: Vec<PathStep> = Vec::new();
    push_move(&mut steps, padding * 1000, paddingy * 1000);
    push_line(&mut steps, padding * 1000, (height - paddingy) * 1000);
    push_line(&mut steps, (width - padding) * 1000, (height - paddingy) * 1000);
    let mut attrs: Vec<Attr> = Vec::new();
    push_pair(&mut attrs, "stroke", "black");
    push_pair(&mut attrs, "fill", "none");
    push_pair(&mut attrs, "class", "poloto_axis_lines");
    push_path(&mut attrs, steps);
    let _ = put_single(w, "path", &attrs);
}

} // verus!
