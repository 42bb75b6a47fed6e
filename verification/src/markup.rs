//! Markup written through the `tagger` crate.
//!
//! The writers of `tagger` are opaque here. What has been written through
//! one is a sequence of characters with a name of its own; the contracts of
//! the calls into `tagger` say what each call appends to it, and the
//! functions below build whole elements on top of those calls.

use core::fmt::Write;
use vstd::prelude::*;
use vstd::string::StringExecFns;
use crate::decimal::{milli_string, milli_text};

verus! {

/// The writer of `tagger` that holds the output text and writes elements.
#[verifier::external_type_specification]
#[verifier::external_body]
#[verifier::reject_recursive_types(T)]
pub struct ExElemWriter<T>(tagger::ElemWriter<T>);

/// The writer of `tagger` that writes the attributes of one element.
#[verifier::external_type_specification]
#[verifier::external_body]
#[verifier::reject_recursive_types(T)]
pub struct ExAttrWriter<'a, T>(tagger::AttrWriter<'a, T>);

/// The writer of `tagger` that writes the commands of one path.
#[verifier::external_type_specification]
#[verifier::external_body]
#[verifier::reject_recursive_types(T)]
pub struct ExPathBuilder<'a, T>(tagger::PathBuilder<'a, T>);

/// The writer of `tagger` that writes the points of one polyline.
#[verifier::external_type_specification]
#[verifier::external_body]
#[verifier::reject_recursive_types(T)]
pub struct ExPointsBuilder<'a, T>(tagger::PointsBuilder<'a, T>);

/// The error of `core::fmt`, which the calls into `tagger` return.
#[verifier::external_type_specification]
#[verifier::external_body]
pub struct ExFmtError(core::fmt::Error);

/// The text in the string that an element writer holds.
pub uninterp spec fn elem_written(w: tagger::ElemWriter<String>) -> Seq<char>;

/// The text in the string that an attribute writer writes to.
pub uninterp spec fn attr_written(a: tagger::AttrWriter<String>) -> Seq<char>;

/// The text in the string that a path builder writes to.
pub uninterp spec fn path_written(p: tagger::PathBuilder<String>) -> Seq<char>;

/// The text in the string that a points builder writes to.
pub uninterp spec fn points_written(p: tagger::PointsBuilder<String>) -> Seq<char>;

/// One command of a path, its coordinates already as text.
pub enum PathStep {
    MoveTo(String, String),
    LineTo(String, String),
    Close,
}

/// One attribute of an element.
pub enum Attr {
    /// A key and its value.
    Pair(String, String),
    /// The `d` attribute of a path.
    Path(Vec<PathStep>),
    /// The `points` attribute of a polyline: pairs of coordinates as text.
    Points(Vec<(String, String)>),
}

/// What stands between the start tag and the end tag of an element.
pub enum Body {
    /// Text, written with the markup characters in it replaced.
    Text(String),
    /// Markup that is already complete, written as it is.
    Markup(String),
}

/// What is written in place of one character of a text.
pub open spec fn escape_char(c: char) -> Seq<char> {
    if c == '"' {
        seq!['&', 'q', 'u', 'o', 't', ';']
    } else if c == '\'' {
        seq!['&', 'a', 'p', 'o', 's', ';']
    } else if c == '<' {
        seq!['&', 'l', 't', ';']
    } else if c == '>' {
        seq!['&', 'g', 't', ';']
    } else if c == '&' {
        seq!['&', 'a', 'm', 'p', ';']
    } else {
        seq![c]
    }
}

/// A text with each of the five markup characters replaced by its entity.
pub open spec fn escape(s: Seq<char>) -> Seq<char>
    decreases s.len(),
{
    if s.len() == 0 {
        Seq::empty()
    } else {
        escape(s.drop_last()) + escape_char(s.last())
    }
}

/// The text of an attribute with a key and a value.
pub open spec fn pair_text(key: Seq<char>, value: Seq<char>) -> Seq<char> {
    seq![' '] + escape(key) + seq!['=', '"'] + escape(value) + seq!['"']
}

/// The text of one path command.
pub open spec fn step_text(step: PathStep) -> Seq<char> {
    match step {
        PathStep::MoveTo(x, y) => seq![' ', 'M', ' '] + escape(x@) + seq![' '] + escape(y@),
        PathStep::LineTo(x, y) => seq![' ', 'L', ' '] + escape(x@) + seq![' '] + escape(y@),
        PathStep::Close => seq![' ', 'Z'],
    }
}

/// The text of a run of path commands.
pub open spec fn steps_text(steps: Seq<PathStep>) -> Seq<char>
    decreases steps.len(),
{
    if steps.len() == 0 {
        Seq::empty()
    } else {
        steps_text(steps.drop_last()) + step_text(steps.last())
    }
}

/// The text of one point of a polyline.
pub open spec fn vertex_text(x: Seq<char>, y: Seq<char>) -> Seq<char> {
    escape(x) + seq![','] + escape(y) + seq![' ']
}

/// The text of a run of polyline points.
pub open spec fn vertices_text(points: Seq<(String, String)>) -> Seq<char>
    decreases points.len(),
{
    if points.len() == 0 {
        Seq::empty()
    } else {
        vertices_text(points.drop_last()) + vertex_text(points.last().0@, points.last().1@)
    }
}

/// The text of the `d` attribute with the given commands.
pub open spec fn path_attr_text(steps: Seq<char>) -> Seq<char> {
    seq![' ', 'd', '=', '"'] + steps + seq!['"']
}

/// The text of the `points` attribute with the given points.
pub open spec fn points_attr_text(points: Seq<char>) -> Seq<char> {
    seq![' ', 'p', 'o', 'i', 'n', 't', 's', '=', '"'] + points + seq!['"']
}

/// The text of one attribute.
pub open spec fn attr_text(attr: Attr) -> Seq<char> {
    match attr {
        Attr::Pair(key, value) => pair_text(key@, value@),
        Attr::Path(steps) => path_attr_text(steps_text(steps@)),
        Attr::Points(points) => points_attr_text(vertices_text(points@)),
    }
}

/// The text of a run of attributes.
pub open spec fn attrs_text(attrs: Seq<Attr>) -> Seq<char>
    decreases attrs.len(),
{
    if attrs.len() == 0 {
        Seq::empty()
    } else {
        attrs_text(attrs.drop_last()) + attr_text(attrs.last())
    }
}

/// The text of an element without content, given the text of its attributes.
pub open spec fn single_text(tag: Seq<char>, attrs: Seq<char>) -> Seq<char> {
    seq!['<'] + escape(tag) + seq![' '] + attrs + seq![' ', '/', '>']
}

/// The text of an element, given the text of its attributes and of its content.
pub open spec fn elem_text(tag: Seq<char>, attrs: Seq<char>, content: Seq<char>) -> Seq<char> {
    seq!['<'] + escape(tag) + seq![' '] + attrs + seq![' ', '>'] + content + seq!['<', '/']
        + escape(tag) + seq!['>']
}

/// The text of the content of an element.
pub open spec fn body_text(body: Body) -> Seq<char> {
    match body {
        Body::Text(text) => escape(text@),
        Body::Markup(markup) => markup@,
    }
}

/// Appending to what was appended is appending both.
pub proof fn lemma_join(base: Seq<char>, front: Seq<char>, back: Seq<char>)
    ensures
        (base + front) + back == base + (front + back),
{
    assert((base + front) + back =~= base + (front + back));
}

/// Appending nothing changes nothing.
pub proof fn lemma_join_nothing(base: Seq<char>)
    ensures
        base + Seq::<char>::empty() == base,
        Seq::<char>::empty() + base == base,
{
    assert(base + Seq::<char>::empty() =~= base);
    assert(Seq::<char>::empty() + base =~= base);
}

/// The text of an attribute whose value is a number of thousandths.
pub open spec fn number_attr(key: Seq<char>, milli: int) -> Seq<char> {
    pair_text(key, milli_text(milli))
}

/// Adds an attribute with a key and a value.
pub(crate) fn push_owned(attrs: &mut Vec<Attr>, key: &str, value: String)
    ensures
        attrs_text(final(attrs)@) == attrs_text(old(attrs)@) + pair_text(key@, value@),
{
    let attr = Attr::Pair(String::from_str(key), value);
    attrs.push(attr);
    assert(attrs@.drop_last() =~= old(attrs)@);
}

/// Adds an attribute with a key and a value.
pub(crate) fn push_pair(attrs: &mut Vec<Attr>, key: &str, value: &str)
    ensures
        attrs_text(final(attrs)@) == attrs_text(old(attrs)@) + pair_text(key@, value@),
{
    push_owned(attrs, key, String::from_str(value));
}

/// Adds an attribute whose value is a number of thousandths.
pub(crate) fn push_number(attrs: &mut Vec<Attr>, key: &str, milli: i128)
    ensures
        attrs_text(final(attrs)@) == attrs_text(old(attrs)@) + number_attr(key@, milli as int),
{
    push_owned(attrs, key, milli_string(milli));
}

/// Adds the `d` attribute of a path.
pub(crate) fn push_path(attrs: &mut Vec<Attr>, steps: Vec<PathStep>)
    ensures
        attrs_text(final(attrs)@) == attrs_text(old(attrs)@) + path_attr_text(steps_text(steps@)),
{
    attrs.push(Attr::Path(steps));
    assert(attrs@.drop_last() =~= old(attrs)@);
}

/// Adds the `points` attribute of a polyline.
pub(crate) fn push_points(attrs: &mut Vec<Attr>, points: Vec<(String, String)>)
    ensures
        attrs_text(final(attrs)@) == attrs_text(old(attrs)@) + points_attr_text(
            vertices_text(points@),
        ),
{
    attrs.push(Attr::Points(points));
    assert(attrs@.drop_last() =~= old(attrs)@);
}

/// The text of a move to a place given in thousandths.
pub open spec fn move_text(x: int, y: int) -> Seq<char> {
    seq![' ', 'M', ' '] + escape(milli_text(x)) + seq![' '] + escape(milli_text(y))
}

/// The text of a line to a place given in thousandths.
pub open spec fn line_text(x: int, y: int) -> Seq<char> {
    seq![' ', 'L', ' '] + escape(milli_text(x)) + seq![' '] + escape(milli_text(y))
}

/// Adds a move to a path.
pub(crate) fn push_move(steps: &mut Vec<PathStep>, x: i128, y: i128)
    ensures
        steps_text(final(steps)@) == steps_text(old(steps)@) + move_text(x as int, y as int),
{
    steps.push(PathStep::MoveTo(milli_string(x), milli_string(y)));
    assert(steps@.drop_last() =~= old(steps)@);
}

/// Adds a line to a path.
pub(crate) fn push_line(steps: &mut Vec<PathStep>, x: i128, y: i128)
    ensures
        steps_text(final(steps)@) == steps_text(old(steps)@) + line_text(x as int, y as int),
{
    steps.push(PathStep::LineTo(milli_string(x), milli_string(y)));
    assert(steps@.drop_last() =~= old(steps)@);
}

/// Adds the closing of a path.
pub(crate) fn push_close(steps: &mut Vec<PathStep>)
    ensures
        steps_text(final(steps)@) == steps_text(old(steps)@) + seq![' ', 'Z'],
{
    steps.push(PathStep::Close);
    assert(steps@.drop_last() =~= old(steps)@);
}

/// `tagger::new` on an empty string: a writer through which nothing has been
/// written yet.
#[verifier::external_body]
pub(crate) fn writer_new() -> (w: tagger::ElemWriter<String>)
    ensures
        elem_written(w) == Seq::<char>::empty(),
{
    tagger::new(String::new())
}

/// `ElemWriter::into_writer`: hands out the string, which holds what was
/// written.
#[verifier::external_body]
pub(crate) fn writer_finish(w: tagger::ElemWriter<String>) -> (s: String)
    ensures
        s@ == elem_written(w),
{
    w.into_writer()
}

/// `AttrWriter::attr`: appends a blank, the key, `="`, the value and `"`, key
/// and value with their markup characters replaced. Writing to a string does
/// not fail.
#[verifier::external_body]
pub(crate) fn put_attr(a: &mut tagger::AttrWriter<String>, key: &str, value: &str) -> (r: Result<
    (),
    core::fmt::Error,
>)
    ensures
        r is Ok,
        attr_written(*final(a)) == attr_written(*old(a)) + pair_text(key@, value@),
{
    a.attr(key, value)
}

/// `PathBuilder::put`: appends one command, which is a blank, its letter and,
/// for a move or a line, the two coordinates, each after a blank. Writing to
/// a string does not fail.
#[verifier::external_body]
pub(crate) fn path_put(p: &mut tagger::PathBuilder<String>, step: &PathStep) -> (r: Result<
    (),
    core::fmt::Error,
>)
    ensures
        r is Ok,
        path_written(*final(p)) == path_written(*old(p)) + step_text(*step),
{
    p.put(
        match step {
            PathStep::MoveTo(x, y) => tagger::PathCommand::M(x.as_str(), y.as_str()),
            PathStep::LineTo(x, y) => tagger::PathCommand::L(x.as_str(), y.as_str()),
            PathStep::Close => tagger::PathCommand::Z(""),
        },
    )
}

/// `PointsBuilder::put`: appends the two coordinates with a comma between
/// them and a blank behind them. Writing to a string does not fail.
#[verifier::external_body]
pub(crate) fn points_put(p: &mut tagger::PointsBuilder<String>, x: &str, y: &str) -> (r: Result<
    (),
    core::fmt::Error,
>)
    ensures
        r is Ok,
        points_written(*final(p)) == points_written(*old(p)) + vertex_text(x@, y@),
{
    p.put(x, y)
}

/// Writes the commands of a path one after the other.
pub(crate) fn emit_steps(p: &mut tagger::PathBuilder<String>, steps: &Vec<PathStep>) -> (r: Result<
    (),
    core::fmt::Error,
>)
    ensures
        r is Ok,
        path_written(*final(p)) == path_written(*old(p)) + steps_text(steps@),
{
    let mut i: usize = 0;
    while i < steps.len()
        invariant
            i <= steps.len(),
            path_written(*p) == path_written(*old(p)) + steps_text(steps@.take(i as int)),
        decreases steps.len() - i,
    {
        let _ = path_put(p, &steps[i]);
        proof {
            assert(steps@.take(i + 1).drop_last() =~= steps@.take(i as int));
            assert(path_written(*p) =~= path_written(*old(p)) + steps_text(steps@.take(i + 1)));
        }
        i = i + 1;
    }
    proof {
        assert(steps@.take(i as int) =~= steps@);
    }
    Ok(())
}

/// Writes the points of a polyline one after the other.
pub(crate) fn emit_vertices(
    p: &mut tagger::PointsBuilder<String>,
    points: &Vec<(String, String)>,
) -> (r: Result<(), core::fmt::Error>)
    ensures
        r is Ok,
        points_written(*final(p)) == points_written(*old(p)) + vertices_text(points@),
{
    let mut i: usize = 0;
    while i < points.len()
        invariant
            i <= points.len(),
            points_written(*p) == points_written(*old(p)) + vertices_text(
                points@.take(i as int),
            ),
        decreases points.len() - i,
    {
        let _ = points_put(p, points[i].0.as_str(), points[i].1.as_str());
        proof {
            assert(points@.take(i + 1).drop_last() =~= points@.take(i as int));
            assert(points_written(*p) =~= points_written(*old(p)) + vertices_text(
                points@.take(i + 1),
            ));
        }
        i = i + 1;
    }
    proof {
        assert(points@.take(i as int) =~= points@);
    }
    Ok(())
}

/// `AttrWriter::path`: appends ` d="`, then what the closure writes, which is
/// the commands as `emit_steps` writes them, then `"`.
#[verifier::external_body]
pub(crate) fn put_path(a: &mut tagger::AttrWriter<String>, steps: &Vec<PathStep>) -> (r: Result<
    (),
    core::fmt::Error,
>)
    ensures
        r is Ok,
        attr_written(*final(a)) == attr_written(*old(a)) + path_attr_text(steps_text(steps@)),
{
    a.path(|p| emit_steps(p, steps))
}

/// `AttrWriter::points`: appends ` points="`, then what the closure writes,
/// which is the points as `emit_vertices` writes them, then `"`.
#[verifier::external_body]
pub(crate) fn put_points(
    a: &mut tagger::AttrWriter<String>,
    points: &Vec<(String, String)>,
) -> (r: Result<(), core::fmt::Error>)
    ensures
        r is Ok,
        attr_written(*final(a)) == attr_written(*old(a)) + points_attr_text(
            vertices_text(points@),
        ),
{
    a.points(|p| emit_vertices(p, points))
}

/// Writes the attributes of an element one after the other.
pub(crate) fn emit_attrs(a: &mut tagger::AttrWriter<String>, attrs: &Vec<Attr>) -> (r: Result<
    (),
    core::fmt::Error,
>)
    ensures
        r is Ok,
        attr_written(*final(a)) == attr_written(*old(a)) + attrs_text(attrs@),
{
    let mut i: usize = 0;
    while i < attrs.len()
        invariant
            i <= attrs.len(),
            attr_written(*a) == attr_written(*old(a)) + attrs_text(attrs@.take(i as int)),
        decreases attrs.len() - i,
    {
        match &attrs[i] {
            Attr::Pair(key, value) => {
                let _ = put_attr(a, key.as_str(), value.as_str());
            },
            Attr::Path(steps) => {
                let _ = put_path(a, steps);
            },
            Attr::Points(points) => {
                let _ = put_points(a, points);
            },
        }
        proof {
            assert(attrs@.take(i + 1).drop_last() =~= attrs@.take(i as int));
            assert(attr_written(*a) =~= attr_written(*old(a)) + attrs_text(attrs@.take(i + 1)));
        }
        i = i + 1;
    }
    proof {
        assert(attrs@.take(i as int) =~= attrs@);
    }
    Ok(())
}

/// `ElemWriter::writer_safe` and the `write_str` of the guard it returns:
/// appends the text with its markup characters replaced. Writing to a string
/// does not fail.
#[verifier::external_body]
pub(crate) fn put_text(w: &mut tagger::ElemWriter<String>, text: &str) -> (r: Result<
    (),
    core::fmt::Error,
>)
    ensures
        r is Ok,
        elem_written(*final(w)) == elem_written(*old(w)) + escape(text@),
{
    w.writer_safe().write_str(text)
}

/// `ElemWriter::writer_escapable`, which hands out the string itself, and
/// `write_str` on it: appends the markup unchanged.
#[verifier::external_body]
pub(crate) fn put_raw(w: &mut tagger::ElemWriter<String>, markup: &str) -> (r: Result<
    (),
    core::fmt::Error,
>)
    ensures
        r is Ok,
        elem_written(*final(w)) == elem_written(*old(w)) + markup@,
{
    w.writer_escapable().write_str(markup)
}

/// Writes the content of an element.
pub(crate) fn emit_body(w: &mut tagger::ElemWriter<String>, body: &Body) -> (r: Result<
    (),
    core::fmt::Error,
>)
    ensures
        r is Ok,
        elem_written(*final(w)) == elem_written(*old(w)) + body_text(*body),
{
    match body {
        Body::Text(text) => put_text(w, text.as_str()),
        Body::Markup(markup) => put_raw(w, markup.as_str()),
    }
}

/// `ElemWriter::single`: appends `<`, the tag and a blank, then what the
/// closure writes, which is the attributes as `emit_attrs` writes them, then
/// ` />`.
#[verifier::external_body]
pub(crate) fn put_single(w: &mut tagger::ElemWriter<String>, tag: &str, attrs: &Vec<Attr>) -> (r:
    Result<(), core::fmt::Error>)
    ensures
        r is Ok,
        elem_written(*final(w)) == elem_written(*old(w)) + single_text(tag@, attrs_text(attrs@)),
{
    w.single(tag, |a| emit_attrs(a, attrs))
}

/// `ElemWriter::elem` and `ElementBridge::build`: appends `<`, the tag and a
/// blank, the attributes as `emit_attrs` writes them, ` >`, the content as
/// `emit_body` writes it, and the end tag.
#[verifier::external_body]
pub(crate) fn put_elem(
    w: &mut tagger::ElemWriter<String>,
    tag: &str,
    attrs: &Vec<Attr>,
    body: &Body,
) -> (r: Result<(), core::fmt::Error>)
    ensures
        r is Ok,
        elem_written(*final(w)) == elem_written(*old(w)) + elem_text(
            tag@,
            attrs_text(attrs@),
            body_text(*body),
        ),
{
    w.elem(tag, |a| emit_attrs(a, attrs))?.build(|w| emit_body(w, body))
}

} // verus!
