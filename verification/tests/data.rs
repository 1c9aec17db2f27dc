use fltk_form::data::FltkForm;
use fltk_form::fields::{button_rgb, color_button, make_image_frame, FlHexaColor, FlImage};
use fltk_form::props::HasProps;
use fltk_form::widget::{Layout, Slot, Widget, WidgetKind};

fn text(w: &Widget) -> Option<String> {
    match &w.slot {
        Slot::Text(t) => Some(t.clone()),
        _ => None,
    }
}

#[test]
fn integers_become_int_inputs_and_outputs() {
    let w = 42i32.generate();
    assert_eq!(w.kind, WidgetKind::IntInput);
    assert_eq!(text(&w), Some("42".to_string()));
    assert_eq!(w.label, "");
    let w = (-7i8).view();
    assert_eq!(w.kind, WidgetKind::Output);
    assert_eq!(text(&w), Some("-7".to_string()));
    assert_eq!(text(&255u8.generate()), Some("255".to_string()));
    assert_eq!(text(&(-300i16).generate()), Some("-300".to_string()));
    assert_eq!(text(&65535u16.view()), Some("65535".to_string()));
    assert_eq!(text(&u32::MAX.generate()), Some("4294967295".to_string()));
    assert_eq!(text(&i64::MIN.view()), Some("-9223372036854775808".to_string()));
    assert_eq!(text(&u64::MAX.generate()), Some("18446744073709551615".to_string()));
    assert_eq!(text(&(-1isize).generate()), Some("-1".to_string()));
    assert_eq!(text(&0usize.view()), Some("0".to_string()));
}

#[test]
fn booleans_become_check_boxes_and_outputs() {
    let w = true.generate();
    assert_eq!(w.kind, WidgetKind::CheckButton);
    assert!(matches!(w.slot, Slot::Check(true)));
    assert!(w.align_left);
    assert!(!w.focusable);
    let w = false.view();
    assert_eq!(w.kind, WidgetKind::Output);
    assert_eq!(text(&w), Some("false".to_string()));
    assert!(w.align_left);
    assert!(!w.focusable);
}

#[test]
fn strings_become_inputs_and_str_becomes_a_frame() {
    let s = "hello".to_string();
    let w = s.generate();
    assert_eq!(w.kind, WidgetKind::Input);
    assert_eq!(text(&w), Some("hello".to_string()));
    assert_eq!(FltkForm::view(&s).kind, WidgetKind::Output);
    let w = "title".generate();
    assert_eq!(w.kind, WidgetKind::Frame);
    assert_eq!(w.label, "title");
    assert!(matches!(w.slot, Slot::Empty));
    assert_eq!(FltkForm::view(&"title").label, "title");
}

#[test]
fn images_and_colours() {
    let img = FlImage("examples/orange_circle.svg".to_string());
    assert_eq!(img.to_string(), "examples/orange_circle.svg");
    let w = img.generate();
    assert_eq!(w.kind, WidgetKind::ImageFrame);
    assert_eq!(w.tooltip, Some("examples/orange_circle.svg".to_string()));
    assert!(matches!(w.slot, Slot::Empty));
    assert_eq!(FltkForm::view(&img).kind, WidgetKind::ImageFrame);

    let col = FlHexaColor("#663399".to_string());
    assert_eq!(col.to_string(), "#663399");
    let w = col.generate();
    assert_eq!(w.kind, WidgetKind::ColorButton);
    assert_eq!(w.hex_color, Some("#663399".to_string()));
    assert!(matches!(w.slot, Slot::Empty));
    let w = FltkForm::view(&col);
    assert_eq!(w.kind, WidgetKind::Output);
    assert_eq!(text(&w), Some("#663399".to_string()));
    assert_eq!(w.hex_color, Some("#663399".to_string()));

    assert_eq!(make_image_frame("a.png").tooltip, Some("a.png".to_string()));
    assert_eq!(color_button("#000000").hex_color, Some("#000000".to_string()));
    assert_eq!(button_rgb(None), (102, 51, 153));
    assert_eq!(button_rgb(Some((1, 2, 3))), (1, 2, 3));
}

#[test]
fn vectors_become_packs_of_rows() {
    let v = vec![1u8, 2, 3];
    let w = v.generate();
    assert_eq!(w.kind, WidgetKind::Pack(5));
    assert_eq!(w.children.len(), 3);
    for (i, c) in w.children.iter().enumerate() {
        assert_eq!(c.kind, WidgetKind::IntInput);
        assert!(c.align_left);
        assert_eq!(c.layout, Layout::Row(30));
        assert_eq!(text(c), Some((i + 1).to_string()));
    }
    let w = FltkForm::view(&v);
    assert_eq!(w.children[2].kind, WidgetKind::Output);
    let empty: Vec<bool> = Vec::new();
    assert_eq!(empty.generate().children.len(), 0);
}

#[test]
fn generated_widgets_have_no_properties_of_their_own() {
    let w = 5i32.generate();
    assert_eq!(w.get_prop(""), None);
    assert_eq!(w.get_props().len(), 0);
}
