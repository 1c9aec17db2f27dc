//! The widgets of a form, described by plain values.
use vstd::prelude::*;

verus! {

/// The kind of widget that stands for a value in a form.
#[derive(Clone, Copy, Debug, PartialEq, Eq, Structural)]
pub enum WidgetKind {
    /// A group holding other widgets.
    Group,
    /// A group that stacks its children, with the given spacing between them.
    Pack(i32),
    /// A box that only shows its label.
    Frame,
    /// A box that shows the image of a file, named by its tooltip.
    ImageFrame,
    /// A button showing a colour, which opens a colour chooser.
    ColorButton,
    /// A one-line text input.
    Input,
    /// A text input for integers.
    IntInput,
    /// A text input for floating-point numbers.
    FloatInput,
    /// A read-only text field.
    Output,
    /// A check box.
    CheckButton,
    /// A drop-down choice among items.
    Choice,
    /// Any other widget.
    Other,
}

/// Whether widgets of this kind are groups, whose children are its members.
pub open spec fn is_group_kind(kind: WidgetKind) -> bool {
    kind is Group || kind is Pack
}

impl WidgetKind {
    /// Whether widgets of this kind are groups.
    pub fn is_group(&self) -> (r: bool)
        ensures
            r == is_group_kind(*self),
    {
        match self {
            WidgetKind::Group => true,
            WidgetKind::Pack(_) => true,
            _ => false,
        }
    }
}

/// A rectangle on screen: position and size.
#[derive(Clone, Copy, Debug, PartialEq, Eq, Structural)]
pub struct Rect {
    pub x: i32,
    pub y: i32,
    pub w: i32,
    pub h: i32,
}

/// How a widget is sized within its parent.
#[derive(Clone, Copy, Debug, PartialEq, Eq, Structural)]
pub enum Layout {
    /// The size it was created with.
    Natural,
    /// Its natural width, and the given height (a row of a pack).
    Row(i32),
    /// Exactly the given rectangle.
    Fill(Rect),
}

/// The state of a drop-down choice: its items, and which one is selected.
#[derive(Clone, Debug)]
pub struct ChoiceState {
    pub items: Vec<String>,
    pub selected: Option<usize>,
}

/// What a widget of a form holds as its value, as its tag says.
///
/// A widget without a tag holds no value that the form can read or write.
#[derive(Clone, Debug)]
pub enum Slot {
    /// No tag.
    Empty,
    /// A text field (tag 1): its text.
    Text(String),
    /// A check box (tag 2): whether it is checked.
    Check(bool),
    /// A choice (tag 3): its items and selection.
    Choice(ChoiceState),
    /// Any other tag: the widget's label stands for its value.
    Other,
}

/// A widget of a form.
#[derive(Debug)]
pub struct Widget {
    pub kind: WidgetKind,
    pub label: String,
    pub slot: Slot,
    pub layout: Layout,
    pub align_left: bool,
    pub focusable: bool,
    pub tooltip: Option<String>,
    pub hex_color: Option<String>,
    pub children: Vec<Widget>,
}

/// The value of a slot, as mathematical values.
pub ghost enum SlotView {
    Empty,
    Text(Seq<char>),
    Check(bool),
    Choice { items: Seq<Seq<char>>, selected: Option<int> },
    Other,
}

/// A widget, as mathematical values.
pub ghost struct WidgetView {
    pub kind: WidgetKind,
    pub label: Seq<char>,
    pub slot: SlotView,
    pub layout: Layout,
    pub align_left: bool,
    pub focusable: bool,
    pub tooltip: Option<Seq<char>>,
    pub hex_color: Option<Seq<char>>,
    pub children: Seq<WidgetView>,
}

/// The text of an optional string.
pub open spec fn opt_text(o: Option<String>) -> Option<Seq<char>> {
    match o {
        Some(s) => Some(s@),
        None => None,
    }
}

/// The texts of a sequence of strings.
pub open spec fn texts(s: Seq<String>) -> Seq<Seq<char>> {
    Seq::new(s.len(), |i: int| s[i]@)
}

/// The selection of a choice, as an integer.
pub open spec fn opt_index(o: Option<usize>) -> Option<int> {
    match o {
        Some(i) => Some(i as int),
        None => None,
    }
}

impl View for Slot {
    type V = SlotView;

    open spec fn view(&self) -> SlotView {
        match self {
            Slot::Empty => SlotView::Empty,
            Slot::Text(t) => SlotView::Text(t@),
            Slot::Check(b) => SlotView::Check(*b),
            Slot::Choice(c) => SlotView::Choice {
                items: texts(c.items@),
                selected: opt_index(c.selected),
            },
            Slot::Other => SlotView::Other,
        }
    }
}

/// The mathematical value of a widget and of all widgets under it.
pub open spec fn widget_view(w: Widget) -> WidgetView
    decreases w,
{
    WidgetView {
        kind: w.kind,
        label: w.label@,
        slot: w.slot@,
        layout: w.layout,
        align_left: w.align_left,
        focusable: w.focusable,
        tooltip: opt_text(w.tooltip),
        hex_color: opt_text(w.hex_color),
        children: Seq::new(
            w.children@.len(),
            |i: int|
                if 0 <= i < w.children@.len() {
                    widget_view(w.children@[i])
                } else {
                    plain_view(WidgetKind::Other)
                },
        ),
    }
}

impl View for Widget {
    type V = WidgetView;

    open spec fn view(&self) -> WidgetView {
        widget_view(*self)
    }
}

/// The views of a sequence of widgets.
pub open spec fn views(ws: Seq<Widget>) -> Seq<WidgetView> {
    Seq::new(ws.len(), |i: int| ws[i]@)
}

/// A widget of the given kind as it is created: no label, no value, natural
/// size, default alignment, focusable, no tooltip, colour or children.
pub open spec fn plain_view(kind: WidgetKind) -> WidgetView {
    WidgetView {
        kind,
        label: Seq::empty(),
        slot: SlotView::Empty,
        layout: Layout::Natural,
        align_left: false,
        focusable: true,
        tooltip: None,
        hex_color: None,
        children: Seq::empty(),
    }
}

/// A text field of the given kind that holds `text` under tag 1.
pub open spec fn text_field_view(kind: WidgetKind, text: Seq<char>) -> WidgetView {
    WidgetView { slot: SlotView::Text(text), ..plain_view(kind) }
}

impl Widget {
    /// A widget of the given kind as it is created.
    pub fn new(kind: WidgetKind) -> (w: Widget)
        ensures
            w@ == plain_view(kind),
    {
        let w = Widget {
            kind,
            label: String::new(),
            slot: Slot::Empty,
            layout: Layout::Natural,
            align_left: false,
            focusable: true,
            tooltip: None,
            hex_color: None,
            children: Vec::new(),
        };
        assert(w@.children =~= Seq::<WidgetView>::empty());
        w
    }

    /// A text field of the given kind holding `text`.
    pub fn text_field(kind: WidgetKind, text: String) -> (w: Widget)
        ensures
            w@ == text_field_view(kind, text@),
    {
        let mut w = Widget::new(kind);
        w.slot = Slot::Text(text);
        assert(w@.children =~= Seq::<WidgetView>::empty());
        w
    }

    /// A group holding the given children.
    pub fn group(children: Vec<Widget>) -> (w: Widget)
        ensures
            w@ == (WidgetView { children: views(children@), ..plain_view(WidgetKind::Group) }),
    {
        let w = Widget {
            kind: WidgetKind::Group,
            label: String::new(),
            slot: Slot::Empty,
            layout: Layout::Natural,
            align_left: false,
            focusable: true,
            tooltip: None,
            hex_color: None,
            children,
        };
        assert(w@.children =~= views(children@));
        w
    }

    /// The same widget with the given label.
    pub fn with_label(self, label: &str) -> (w: Widget)
        ensures
            w@ == (WidgetView { label: label@, ..self@ }),
    {
        let mut w = self;
        w.label = label.to_owned();
        assert(w@.children =~= self@.children);
        w
    }
}

} // verus!
