//! The widgets that stand for values, and the values that have them.
use vstd::prelude::*;

use crate::widget::{Widget, WidgetKind, WidgetView, plain_view};

verus! {

/// The path of an image file, shown as the image.
#[derive(Debug, Clone)]
pub struct FlImage(pub String);

/// A colour given as `#rrggbb`, shown as a colour chooser.
#[derive(Debug, Clone)]
pub struct FlHexaColor(pub String);

/// A floating-point number, already written as text (as `{:?}` writes it).
#[derive(Debug, Clone)]
pub struct FloatText(pub String);

impl FlImage {
    /// The path, as `{}` writes it.
    pub fn to_string(&self) -> (s: String)
        ensures
            s@ == self.0@,
    {
        self.0.clone()
    }
}

impl FlHexaColor {
    /// The colour text, as `{}` writes it.
    pub fn to_string(&self) -> (s: String)
        ensures
            s@ == self.0@,
    {
        self.0.clone()
    }
}

/// The colour that a colour button takes when its text does not parse.
pub open spec fn fallback_rgb() -> (u8, u8, u8) {
    (102, 51, 153)
}

/// The colour of a colour button: the parsed colour, or the fallback.
pub fn button_rgb(parsed: Option<(u8, u8, u8)>) -> (rgb: (u8, u8, u8))
    ensures
        rgb == match parsed {
            Some(c) => c,
            None => fallback_rgb(),
        },
{
    match parsed {
        Some(c) => c,
        None => (102, 51, 153),
    }
}

/// A frame that shows the image of file `path`, with the path as its tooltip.
pub open spec fn image_frame_view(path: Seq<char>) -> WidgetView {
    WidgetView { tooltip: Some(path), ..plain_view(WidgetKind::ImageFrame) }
}

/// A button that shows colour `color` and lets the user choose another.
pub open spec fn color_button_view(color: Seq<char>) -> WidgetView {
    WidgetView { hex_color: Some(color), ..plain_view(WidgetKind::ColorButton) }
}

/// A frame showing the image of file `filename`.
pub fn make_image_frame(filename: &str) -> (w: Widget)
    ensures
        w@ == image_frame_view(filename@),
{
    let mut w = Widget::new(WidgetKind::ImageFrame);
    w.tooltip = Some(filename.to_owned());
    assert(w@.children =~= Seq::<WidgetView>::empty());
    w
}

/// A button showing colour `color` (`#rrggbb`).
pub fn color_button(color: &str) -> (w: Widget)
    ensures
        w@ == color_button_view(color@),
{
    let mut w = Widget::new(WidgetKind::ColorButton);
    w.hex_color = Some(color.to_owned());
    assert(w@.children =~= Seq::<WidgetView>::empty());
    w
}

} // verus!
