//! What the widgets made for values are, stated field by field.
//!
//! `FltkForm::view` shares its name with `View::view`, so views of strings and
//! vectors are written `View::view(x)` here.
use vstd::prelude::*;

use crate::data::FltkForm;
use crate::fields::{FlHexaColor, FlImage, FloatText};
use crate::form::{FormView, Parent, fill_bounds, with_widget};
use crate::widget::Rect;
use crate::text::decimal;
use crate::widget::{Layout, SlotView, WidgetKind, WidgetView};

verus! {

/// Whether `w` is a field of kind `kind` holding `text` under no label, with
/// no children.
pub open spec fn is_text_field(w: WidgetView, kind: WidgetKind, text: Seq<char>) -> bool {
    &&& w.kind == kind
    &&& w.slot == SlotView::Text(text)
    &&& w.label == Seq::<char>::empty()
    &&& w.children.len() == 0
}

/// An integer of any width is edited in an integer input and shown in an
/// output, each holding its decimal text.
pub proof fn law_integer_fields(
    a: i8,
    b: u8,
    c: i16,
    d: u16,
    e: i32,
    f: u32,
    g: i64,
    h: u64,
    i: isize,
    j: usize,
)
    ensures
        is_text_field(a.generated(), WidgetKind::IntInput, decimal(a as int)),
        is_text_field(a.viewed(), WidgetKind::Output, decimal(a as int)),
        is_text_field(b.generated(), WidgetKind::IntInput, decimal(b as int)),
        is_text_field(b.viewed(), WidgetKind::Output, decimal(b as int)),
        is_text_field(c.generated(), WidgetKind::IntInput, decimal(c as int)),
        is_text_field(c.viewed(), WidgetKind::Output, decimal(c as int)),
        is_text_field(d.generated(), WidgetKind::IntInput, decimal(d as int)),
        is_text_field(d.viewed(), WidgetKind::Output, decimal(d as int)),
        is_text_field(e.generated(), WidgetKind::IntInput, decimal(e as int)),
        is_text_field(e.viewed(), WidgetKind::Output, decimal(e as int)),
        is_text_field(f.generated(), WidgetKind::IntInput, decimal(f as int)),
        is_text_field(f.viewed(), WidgetKind::Output, decimal(f as int)),
        is_text_field(g.generated(), WidgetKind::IntInput, decimal(g as int)),
        is_text_field(g.viewed(), WidgetKind::Output, decimal(g as int)),
        is_text_field(h.generated(), WidgetKind::IntInput, decimal(h as int)),
        is_text_field(h.viewed(), WidgetKind::Output, decimal(h as int)),
        is_text_field(i.generated(), WidgetKind::IntInput, decimal(i as int)),
        is_text_field(i.viewed(), WidgetKind::Output, decimal(i as int)),
        is_text_field(j.generated(), WidgetKind::IntInput, decimal(j as int)),
        is_text_field(j.viewed(), WidgetKind::Output, decimal(j as int)),
{
}

/// A string is edited in an input and shown in an output; a float's text in a
/// float input and an output; each holds the text.
pub proof fn law_text_fields(s: String, x: FloatText)
    ensures
        is_text_field(s.generated(), WidgetKind::Input, View::view(&s)),
        is_text_field(s.viewed(), WidgetKind::Output, View::view(&s)),
        is_text_field(x.generated(), WidgetKind::FloatInput, View::view(&x.0)),
        is_text_field(x.viewed(), WidgetKind::Output, View::view(&x.0)),
{
}

/// A boolean is edited in a check box holding it and shown in an output
/// holding `true` or `false`; both are aligned left and take no focus.
pub proof fn law_bool_fields(t: bool)
    ensures
        t.generated().kind == WidgetKind::CheckButton,
        t.generated().slot == SlotView::Check(t),
        t.viewed().kind == WidgetKind::Output,
        t.viewed().slot == SlotView::Text(
            if t {
                "true"@
            } else {
                "false"@
            },
        ),
        t.generated().align_left && t.viewed().align_left,
        !t.generated().focusable && !t.viewed().focusable,
        t.generated().label == Seq::<char>::empty() && t.viewed().label == Seq::<char>::empty(),
{
}

/// A `&str` is a frame showing it as its label, holding no value; an image is
/// a frame showing the file of its path (its tooltip), holding no value, both
/// to edit and to show it.
pub proof fn law_frame_fields(l: &str, m: FlImage)
    ensures
        l.generated().kind == WidgetKind::Frame && l.viewed().kind == WidgetKind::Frame,
        l.generated().label == View::view(l) && l.viewed().label == View::view(l),
        l.generated().slot is Empty && l.viewed().slot is Empty,
        m.generated().kind == WidgetKind::ImageFrame && m.viewed().kind == WidgetKind::ImageFrame,
        m.generated().tooltip == Some(View::view(&m.0)),
        m.viewed().tooltip == Some(View::view(&m.0)),
        m.generated().slot is Empty && m.viewed().slot is Empty,
{
}

/// A colour is edited with a colour button of that colour, holding no value,
/// and shown in an output of that colour holding its text.
pub proof fn law_color_fields(c: FlHexaColor)
    ensures
        c.generated().kind == WidgetKind::ColorButton,
        c.generated().hex_color == Some(View::view(&c.0)),
        c.generated().slot is Empty,
        c.viewed().kind == WidgetKind::Output,
        c.viewed().hex_color == Some(View::view(&c.0)),
        c.viewed().slot == SlotView::Text(View::view(&c.0)),
{
}

/// Whether `row` is `w` placed as a row of a pack: aligned left, its natural
/// width and a height of 30, and otherwise the same.
pub open spec fn is_row_of(row: WidgetView, w: WidgetView) -> bool {
    &&& row.align_left
    &&& row.layout == Layout::Row(30)
    &&& row.kind == w.kind
    &&& row.label == w.label
    &&& row.slot == w.slot
    &&& row.focusable == w.focusable
    &&& row.tooltip == w.tooltip
    &&& row.hex_color == w.hex_color
    &&& row.children == w.children
}

/// A vector is a pack with spacing 5 holding, for each element in order, the
/// element's widget as a row.
pub proof fn law_vec_fields<T: FltkForm>(v: Vec<T>)
    ensures
        v.generated().kind == WidgetKind::Pack(5),
        v.viewed().kind == WidgetKind::Pack(5),
        v.generated().children.len() == View::view(&v).len(),
        v.viewed().children.len() == View::view(&v).len(),
        forall|k: int|
            0 <= k < View::view(&v).len() ==> is_row_of(
                #[trigger] v.generated().children[k],
                View::view(&v)[k].generated(),
            ) && is_row_of(v.viewed().children[k], View::view(&v)[k].viewed()),
{
}

/// Adding a widget to a form keeps its place, label and widgets, and puts the
/// widget last, resized to fill the form and otherwise the same.
pub proof fn law_added_widget_fills_form(f: FormView, w: WidgetView)
    ensures
        with_widget(f, w).bounds == f.bounds,
        with_widget(f, w).label == f.label,
        with_widget(f, w).children.len() == f.children.len() + 1,
        forall|k: int| 0 <= k < f.children.len() ==> #[trigger] with_widget(f, w).children[k] == f.children[k],
        with_widget(f, w).children.last().layout == Layout::Fill(f.bounds),
        with_widget(f, w).children.last().kind == w.kind,
        with_widget(f, w).children.last().label == w.label,
        with_widget(f, w).children.last().slot == w.slot,
        with_widget(f, w).children.last().align_left == w.align_left,
        with_widget(f, w).children.last().focusable == w.focusable,
        with_widget(f, w).children.last().tooltip == w.tooltip,
        with_widget(f, w).children.last().hex_color == w.hex_color,
        with_widget(f, w).children.last().children == w.children,
{
}

/// A form made to fill its parent takes the parent's size, and stands at the
/// parent's place, or at the origin when the parent is a window (whose
/// children are placed relative to it); with no parent it is empty, at the
/// origin.
pub proof fn law_fill_takes_parent_size(p: Parent)
    ensures
        fill_bounds(Some(p)).w == p.bounds.w,
        fill_bounds(Some(p)).h == p.bounds.h,
        p.is_window ==> fill_bounds(Some(p)).x == 0 && fill_bounds(Some(p)).y == 0,
        !p.is_window ==> fill_bounds(Some(p)).x == p.bounds.x && fill_bounds(Some(p)).y == p.bounds.y,
        fill_bounds(None) == (Rect { x: 0, y: 0, w: 0, h: 0 }),
{
}

} // verus!
