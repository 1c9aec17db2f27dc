//! Values that a form can show, and the widgets that stand for them.
//!
//! The trait's method `view` shares its name with `View::view`; in this file
//! views are therefore written `View::view(x)` rather than `x@`.
use vstd::prelude::*;

use crate::fields::{FlHexaColor, FlImage, FloatText, color_button, color_button_view, image_frame_view, make_image_frame};
use crate::text::{bool_text, bool_text_spec, decimal, signed_text, unsigned_text};
use crate::widget::{Layout, Slot, SlotView, Widget, WidgetKind, WidgetView, plain_view, text_field_view};

verus! {

/// A value that a form can show: `generate` gives a widget that lets the value
/// be edited, `view` one that only shows it.
pub trait FltkForm {
    /// The widget that lets the value be edited. Implementations written
    /// outside Verus leave it unspecified.
    open spec fn generated(&self) -> WidgetView {
        arbitrary()
    }

    /// The widget that only shows the value. Implementations written outside
    /// Verus leave it unspecified.
    open spec fn viewed(&self) -> WidgetView {
        arbitrary()
    }

    fn generate(&self) -> (w: Widget)
        ensures
            w@ == self.generated(),
    ;

    fn view(&self) -> (w: Widget)
        ensures
            w@ == self.viewed(),
    ;
}

impl FltkForm for i8 {
    open spec fn generated(&self) -> WidgetView {
        text_field_view(WidgetKind::IntInput, decimal(*self as int))
    }

    open spec fn viewed(&self) -> WidgetView {
        text_field_view(WidgetKind::Output, decimal(*self as int))
    }

    fn generate(&self) -> (w: Widget) {
        Widget::text_field(WidgetKind::IntInput, signed_text(*self as i64))
    }

    fn view(&self) -> (w: Widget) {
        Widget::text_field(WidgetKind::Output, signed_text(*self as i64))
    }
}

impl FltkForm for u8 {
    open spec fn generated(&self) -> WidgetView {
        text_field_view(WidgetKind::IntInput, decimal(*self as int))
    }

    open spec fn viewed(&self) -> WidgetView {
        text_field_view(WidgetKind::Output, decimal(*self as int))
    }

    fn generate(&self) -> (w: Widget) {
        Widget::text_field(WidgetKind::IntInput, unsigned_text(*self as u64))
    }

    fn view(&self) -> (w: Widget) {
        Widget::text_field(WidgetKind::Output, unsigned_text(*self as u64))
    }
}

impl FltkForm for i16 {
    open spec fn generated(&self) -> WidgetView {
        text_field_view(WidgetKind::IntInput, decimal(*self as int))
    }

    open spec fn viewed(&self) -> WidgetView {
        text_field_view(WidgetKind::Output, decimal(*self as int))
    }

    fn generate(&self) -> (w: Widget) {
        Widget::text_field(WidgetKind::IntInput, signed_text(*self as i64))
    }

    fn view(&self) -> (w: Widget) {
        Widget::text_field(WidgetKind::Output, signed_text(*self as i64))
    }
}

impl FltkForm for u16 {
    open spec fn generated(&self) -> WidgetView {
        text_field_view(WidgetKind::IntInput, decimal(*self as int))
    }

    open spec fn viewed(&self) -> WidgetView {
        text_field_view(WidgetKind::Output, decimal(*self as int))
    }

    fn generate(&self) -> (w: Widget) {
        Widget::text_field(WidgetKind::IntInput, unsigned_text(*self as u64))
    }

    fn view(&self) -> (w: Widget) {
        Widget::text_field(WidgetKind::Output, unsigned_text(*self as u64))
    }
}

impl FltkForm for i32 {
    open spec fn generated(&self) -> WidgetView {
        text_field_view(WidgetKind::IntInput, decimal(*self as int))
    }

    open spec fn viewed(&self) -> WidgetView {
        text_field_view(WidgetKind::Output, decimal(*self as int))
    }

    fn generate(&self) -> (w: Widget) {
        Widget::text_field(WidgetKind::IntInput, signed_text(*self as i64))
    }

    fn view(&self) -> (w: Widget) {
        Widget::text_field(WidgetKind::Output, signed_text(*self as i64))
    }
}

impl FltkForm for u32 {
    open spec fn generated(&self) -> WidgetView {
        text_field_view(WidgetKind::IntInput, decimal(*self as int))
    }

    open spec fn viewed(&self) -> WidgetView {
        text_field_view(WidgetKind::Output, decimal(*self as int))
    }

    fn generate(&self) -> (w: Widget) {
        Widget::text_field(WidgetKind::IntInput, unsigned_text(*self as u64))
    }

    fn view(&self) -> (w: Widget) {
        Widget::text_field(WidgetKind::Output, unsigned_text(*self as u64))
    }
}

impl FltkForm for i64 {
    open spec fn generated(&self) -> WidgetView {
        text_field_view(WidgetKind::IntInput, decimal(*self as int))
    }

    open spec fn viewed(&self) -> WidgetView {
        text_field_view(WidgetKind::Output, decimal(*self as int))
    }

    fn generate(&self) -> (w: Widget) {
        Widget::text_field(WidgetKind::IntInput, signed_text(*self as i64))
    }

    fn view(&self) -> (w: Widget) {
        Widget::text_field(WidgetKind::Output, signed_text(*self as i64))
    }
}

impl FltkForm for u64 {
    open spec fn generated(&self) -> WidgetView {
        text_field_view(WidgetKind::IntInput, decimal(*self as int))
    }

    open spec fn viewed(&self) -> WidgetView {
        text_field_view(WidgetKind::Output, decimal(*self as int))
    }

    fn generate(&self) -> (w: Widget) {
        Widget::text_field(WidgetKind::IntInput, unsigned_text(*self))
    }

    fn view(&self) -> (w: Widget) {
        Widget::text_field(WidgetKind::Output, unsigned_text(*self))
    }
}

impl FltkForm for isize {
    open spec fn generated(&self) -> WidgetView {
        text_field_view(WidgetKind::IntInput, decimal(*self as int))
    }

    open spec fn viewed(&self) -> WidgetView {
        text_field_view(WidgetKind::Output, decimal(*self as int))
    }

    fn generate(&self) -> (w: Widget) {
        Widget::text_field(WidgetKind::IntInput, signed_text(*self as i64))
    }

    fn view(&self) -> (w: Widget) {
        Widget::text_field(WidgetKind::Output, signed_text(*self as i64))
    }
}

impl FltkForm for usize {
    open spec fn generated(&self) -> WidgetView {
        text_field_view(WidgetKind::IntInput, decimal(*self as int))
    }

    open spec fn viewed(&self) -> WidgetView {
        text_field_view(WidgetKind::Output, decimal(*self as int))
    }

    fn generate(&self) -> (w: Widget) {
        Widget::text_field(WidgetKind::IntInput, unsigned_text(*self as u64))
    }

    fn view(&self) -> (w: Widget) {
        Widget::text_field(WidgetKind::Output, unsigned_text(*self as u64))
    }
}

impl FltkForm for bool {
    open spec fn generated(&self) -> WidgetView {
        WidgetView {
            slot: SlotView::Check(*self),
            align_left: true,
            focusable: false,
            ..plain_view(WidgetKind::CheckButton)
        }
    }

    open spec fn viewed(&self) -> WidgetView {
        WidgetView {
            slot: SlotView::Text(bool_text_spec(*self)),
            align_left: true,
            focusable: false,
            ..plain_view(WidgetKind::Output)
        }
    }

    fn generate(&self) -> (w: Widget) {
        let mut w = Widget::new(WidgetKind::CheckButton);
        w.align_left = true;
        w.slot = Slot::Check(*self);
        w.focusable = false;
        assert(View::view(&w).children =~= Seq::<WidgetView>::empty());
        w
    }

    fn view(&self) -> (w: Widget) {
        let mut w = Widget::new(WidgetKind::Output);
        w.align_left = true;
        w.slot = Slot::Text(bool_text(*self));
        w.focusable = false;
        assert(View::view(&w).children =~= Seq::<WidgetView>::empty());
        w
    }
}

impl<'a> FltkForm for &'a str {
    open spec fn generated(&self) -> WidgetView {
        WidgetView { label: View::view(*self), ..plain_view(WidgetKind::Frame) }
    }

    open spec fn viewed(&self) -> WidgetView {
        WidgetView { label: View::view(*self), ..plain_view(WidgetKind::Frame) }
    }

    fn generate(&self) -> (w: Widget) {
        Widget::new(WidgetKind::Frame).with_label(*self)
    }

    fn view(&self) -> (w: Widget) {
        Widget::new(WidgetKind::Frame).with_label(*self)
    }
}

impl FltkForm for FlImage {
    open spec fn generated(&self) -> WidgetView {
        image_frame_view(View::view(&self.0))
    }

    open spec fn viewed(&self) -> WidgetView {
        image_frame_view(View::view(&self.0))
    }

    fn generate(&self) -> (w: Widget) {
        make_image_frame(self.0.as_str())
    }

    fn view(&self) -> (w: Widget) {
        make_image_frame(self.0.as_str())
    }
}

impl FltkForm for FlHexaColor {
    open spec fn generated(&self) -> WidgetView {
        color_button_view(View::view(&self.0))
    }

    open spec fn viewed(&self) -> WidgetView {
        WidgetView {
            slot: SlotView::Text(View::view(&self.0)),
            hex_color: Some(View::view(&self.0)),
            ..plain_view(WidgetKind::Output)
        }
    }

    fn generate(&self) -> (w: Widget) {
        color_button(self.0.as_str())
    }

    fn view(&self) -> (w: Widget) {
        let mut w = Widget::new(WidgetKind::Output);
        w.hex_color = Some(self.0.clone());
        w.slot = Slot::Text(self.0.clone());
        assert(View::view(&w).children =~= Seq::<WidgetView>::empty());
        w
    }
}

impl FltkForm for FloatText {
    open spec fn generated(&self) -> WidgetView {
        text_field_view(WidgetKind::FloatInput, View::view(&self.0))
    }

    open spec fn viewed(&self) -> WidgetView {
        text_field_view(WidgetKind::Output, View::view(&self.0))
    }

    fn generate(&self) -> (w: Widget) {
        Widget::text_field(WidgetKind::FloatInput, self.0.clone())
    }

    fn view(&self) -> (w: Widget) {
        Widget::text_field(WidgetKind::Output, self.0.clone())
    }
}

impl FltkForm for String {
    open spec fn generated(&self) -> WidgetView {
        text_field_view(WidgetKind::Input, View::view(self))
    }

    open spec fn viewed(&self) -> WidgetView {
        text_field_view(WidgetKind::Output, View::view(self))
    }

    fn generate(&self) -> (w: Widget) {
        Widget::text_field(WidgetKind::Input, self.clone())
    }

    fn view(&self) -> (w: Widget) {
        Widget::text_field(WidgetKind::Output, self.clone())
    }
}

/// A row of a pack: aligned left, its natural width and a height of 30.
pub open spec fn as_row(w: WidgetView) -> WidgetView {
    WidgetView { align_left: true, layout: Layout::Row(30), ..w }
}

impl<T: FltkForm> FltkForm for Vec<T> {
    open spec fn generated(&self) -> WidgetView {
        WidgetView {
            children: Seq::new(View::view(self).len(), |i: int| as_row(View::view(self)[i].generated())),
            ..plain_view(WidgetKind::Pack(5))
        }
    }

    open spec fn viewed(&self) -> WidgetView {
        WidgetView {
            children: Seq::new(View::view(self).len(), |i: int| as_row(View::view(self)[i].viewed())),
            ..plain_view(WidgetKind::Pack(5))
        }
    }

    fn generate(&self) -> (w: Widget) {
        let mut children: Vec<Widget> = Vec::new();
        let mut i: usize = 0;
        while i < self.len()
            invariant
                0 <= i <= self.len(),
                children@.len() == i,
                forall|j: int| 0 <= j < i ==> #[trigger] children@[j]@ == as_row(View::view(self)[j].generated()),
            decreases self.len() - i,
        {
            let mut w = self[i].generate();
            w.align_left = true;
            w.layout = Layout::Row(30);
            proof {
                assert(w@.children =~= self[i as int].generated().children);
            }
            children.push(w);
            i += 1;
        }
        let mut g = Widget::new(WidgetKind::Pack(5));
        g.children = children;
        assert forall|j: int| 0 <= j < g@.children.len() implies g@.children[j] == as_row(
            View::view(self)[j].generated(),
        ) by {
            assert(g@.children[j] == g.children@[j]@);
        }
        assert(g@.children =~= Seq::new(View::view(self).len(), |i: int| as_row(View::view(self)[i].generated())));
        g
    }

    fn view(&self) -> (w: Widget) {
        let mut children: Vec<Widget> = Vec::new();
        let mut i: usize = 0;
        while i < self.len()
            invariant
                0 <= i <= self.len(),
                children@.len() == i,
                forall|j: int| 0 <= j < i ==> #[trigger] children@[j]@ == as_row(View::view(self)[j].viewed()),
            decreases self.len() - i,
        {
            let mut w = self[i].view();
            w.align_left = true;
            w.layout = Layout::Row(30);
            proof {
                assert(w@.children =~= self[i as int].viewed().children);
            }
            children.push(w);
            i += 1;
        }
        let mut g = Widget::new(WidgetKind::Pack(5));
        g.children = children;
        assert forall|j: int| 0 <= j < g@.children.len() implies g@.children[j] == as_row(
            View::view(self)[j].viewed(),
        ) by {
            assert(g@.children[j] == g.children@[j]@);
        }
        assert(g@.children =~= Seq::new(View::view(self).len(), |i: int| as_row(View::view(self)[i].viewed())));
        g
    }
}

} // verus!
