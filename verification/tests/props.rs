use fltk_form::error::{FltkFormError, FltkFormErrorKind};
use fltk_form::props::{find_item, slot_value, slot_with_value, HasProps};
use fltk_form::propmap::Props;
use fltk_form::widget::{ChoiceState, Slot, Widget, WidgetKind};

fn field(kind: WidgetKind, label: &str, slot: Slot) -> Widget {
    let mut w = Widget::new(kind).with_label(label);
    w.slot = slot;
    w
}

fn choice(items: &[&str], selected: Option<usize>) -> Slot {
    Slot::Choice(ChoiceState {
        items: items.iter().map(|s| s.to_string()).collect(),
        selected,
    })
}

/// A group like the one made for a struct with fields a, b, c, d, e, f.
fn sample() -> Widget {
    Widget::group(vec![
        field(WidgetKind::FloatInput, "a", Slot::Text("0.0".to_string())),
        field(WidgetKind::FloatInput, "b", Slot::Text("3.0".to_string())),
        field(WidgetKind::Input, "c", Slot::Text(String::new())),
        field(WidgetKind::Choice, "d", choice(&["A", "B", "C"], Some(0))),
        field(WidgetKind::CheckButton, "e", Slot::Check(true)),
        field(WidgetKind::ImageFrame, "f", Slot::Empty),
        field(WidgetKind::Other, "g", Slot::Other),
    ])
}

fn text_of(w: &Widget, i: usize) -> String {
    match &w.children[i].slot {
        Slot::Text(t) => t.clone(),
        _ => panic!("not a text field"),
    }
}

#[test]
fn get_prop_reads_each_kind_of_field() {
    let w = sample();
    assert_eq!(w.get_prop("a"), Some("0.0".to_string()));
    assert_eq!(w.get_prop("b"), Some("3.0".to_string()));
    assert_eq!(w.get_prop("c"), Some(String::new()));
    assert_eq!(w.get_prop("d"), Some("A".to_string()));
    assert_eq!(w.get_prop("e"), Some("true".to_string()));
    assert_eq!(w.get_prop("f"), None);
    assert_eq!(w.get_prop("g"), Some("g".to_string()));
    assert_eq!(w.get_prop("h"), None);
    assert_eq!(w.get_prop(""), None);
}

#[test]
fn get_prop_goes_by_the_first_child_with_the_label() {
    let w = Widget::group(vec![
        field(WidgetKind::Input, "x", Slot::Text("first".to_string())),
        field(WidgetKind::Input, "x", Slot::Text("second".to_string())),
    ]);
    assert_eq!(w.get_prop("x"), Some("first".to_string()));
    let w = Widget::group(vec![
        field(WidgetKind::Frame, "x", Slot::Empty),
        field(WidgetKind::Input, "x", Slot::Text("second".to_string())),
    ]);
    assert_eq!(w.get_prop("x"), None);
}

#[test]
fn get_prop_of_a_choice_without_selection_is_none() {
    let w = Widget::group(vec![field(WidgetKind::Choice, "d", choice(&["A", "B"], None))]);
    assert_eq!(w.get_prop("d"), None);
    let w = Widget::group(vec![field(WidgetKind::Choice, "d", choice(&["A", "B"], Some(5)))]);
    assert_eq!(w.get_prop("d"), None);
}

#[test]
fn get_prop_of_a_widget_without_children_is_none() {
    let w = Widget::new(WidgetKind::Input);
    assert_eq!(w.get_prop("a"), None);
}

#[test]
fn set_prop_writes_text_fields() {
    let mut w = sample();
    assert!(w.set_prop("c", "hello").is_ok());
    assert_eq!(w.get_prop("c"), Some("hello".to_string()));
    assert_eq!(text_of(&w, 2), "hello");
    assert_eq!(w.get_prop("b"), Some("3.0".to_string()));
}

#[test]
fn set_prop_writes_check_boxes() {
    let mut w = sample();
    assert!(w.set_prop("e", "false").is_ok());
    assert_eq!(w.get_prop("e"), Some("false".to_string()));
    assert!(w.set_prop("e", "true").is_ok());
    assert_eq!(w.get_prop("e"), Some("true".to_string()));
    assert!(w.set_prop("e", "yes").is_ok());
    assert_eq!(w.get_prop("e"), Some("false".to_string()));
}

#[test]
fn set_prop_selects_choice_items() {
    let mut w = sample();
    assert!(w.set_prop("d", "C").is_ok());
    assert_eq!(w.get_prop("d"), Some("C".to_string()));
    assert!(w.set_prop("d", "Z").is_ok());
    assert_eq!(w.get_prop("d"), None);
}

#[test]
fn set_prop_on_other_tags_changes_nothing() {
    let mut w = sample();
    assert!(w.set_prop("g", "anything").is_ok());
    assert_eq!(w.get_prop("g"), Some("g".to_string()));
}

#[test]
fn set_prop_of_a_missing_property_fails() {
    let mut w = sample();
    let r = w.set_prop("zz", "1");
    assert!(matches!(
        r,
        Err(FltkFormError::Internal(FltkFormErrorKind::PropertyInexistent))
    ));
    assert_eq!(w.get_prop("b"), Some("3.0".to_string()));
}

#[test]
fn set_prop_of_a_field_without_value_fails() {
    let mut w = sample();
    let r = w.set_prop("f", "x");
    assert!(matches!(
        r,
        Err(FltkFormError::Internal(FltkFormErrorKind::FailedToChangeData))
    ));
}

#[test]
fn set_prop_writes_every_child_up_to_one_without_value() {
    let mut w = Widget::group(vec![
        field(WidgetKind::Input, "x", Slot::Text("1".to_string())),
        field(WidgetKind::Frame, "x", Slot::Empty),
        field(WidgetKind::Input, "x", Slot::Text("3".to_string())),
    ]);
    let r = w.set_prop("x", "new");
    assert!(matches!(
        r,
        Err(FltkFormError::Internal(FltkFormErrorKind::FailedToChangeData))
    ));
    assert_eq!(text_of(&w, 0), "new");
    assert_eq!(text_of(&w, 2), "3");

    let mut w = Widget::group(vec![
        field(WidgetKind::Input, "x", Slot::Text("1".to_string())),
        field(WidgetKind::Input, "y", Slot::Text("2".to_string())),
        field(WidgetKind::Input, "x", Slot::Text("3".to_string())),
    ]);
    assert!(w.set_prop("x", "new").is_ok());
    assert_eq!(text_of(&w, 0), "new");
    assert_eq!(text_of(&w, 1), "2");
    assert_eq!(text_of(&w, 2), "new");
}

#[test]
fn get_props_holds_every_named_value() {
    let w = sample();
    let p = w.get_props();
    assert_eq!(p.len(), 6);
    assert_eq!(p.get("a"), Some("0.0".to_string()));
    assert_eq!(p.get("b"), Some("3.0".to_string()));
    assert_eq!(p.get("c"), Some(String::new()));
    assert_eq!(p.get("d"), Some("A".to_string()));
    assert_eq!(p.get("e"), Some("true".to_string()));
    assert_eq!(p.get("f"), None);
    assert_eq!(p.get("g"), Some("g".to_string()));
    let keys: Vec<&str> = p.pairs().iter().map(|(k, _)| k.as_str()).collect();
    assert_eq!(keys, vec!["a", "b", "c", "d", "e", "g"]);
}

#[test]
fn get_props_skips_unnamed_fields_and_keeps_names_once() {
    let w = Widget::group(vec![
        field(WidgetKind::Input, "", Slot::Text("no name".to_string())),
        field(WidgetKind::Input, "x", Slot::Text("1".to_string())),
        field(WidgetKind::Input, "x", Slot::Text("2".to_string())),
    ]);
    let p = w.get_props();
    assert_eq!(p.len(), 1);
    assert_eq!(p.get("x"), Some("1".to_string()));
    assert_eq!(p.get(""), None);
}

#[test]
fn rename_prop_renames_every_child_with_the_label() {
    let mut w = Widget::group(vec![
        field(WidgetKind::Input, "x", Slot::Text("1".to_string())),
        field(WidgetKind::Input, "y", Slot::Text("2".to_string())),
        field(WidgetKind::Input, "x", Slot::Text("3".to_string())),
    ]);
    w.rename_prop("x", "z");
    assert_eq!(w.children[0].label, "z");
    assert_eq!(w.children[1].label, "y");
    assert_eq!(w.children[2].label, "z");
    assert_eq!(w.get_prop("z"), Some("1".to_string()));
    assert_eq!(w.get_prop("x"), None);
}

#[test]
fn rename_prop_of_other_tag_reads_the_new_name() {
    let mut w = sample();
    w.rename_prop("g", "h");
    assert_eq!(w.get_prop("h"), Some("h".to_string()));
}

#[test]
fn rename_there_and_back_restores_the_labels() {
    let mut w = sample();
    w.rename_prop("b", "bb");
    w.rename_prop("bb", "b");
    let labels: Vec<&str> = w.children.iter().map(|c| c.label.as_str()).collect();
    assert_eq!(labels, vec!["a", "b", "c", "d", "e", "f", "g"]);
    assert_eq!(w.get_prop("b"), Some("3.0".to_string()));
}

#[test]
fn writing_one_property_keeps_the_others() {
    let mut w = sample();
    let before = w.get_props();
    w.set_prop("a", "9.5").unwrap();
    for key in ["b", "c", "d", "e", "f", "g"] {
        assert_eq!(w.get_prop(key), before.get(key));
    }
    assert_eq!(w.get_prop("a"), Some("9.5".to_string()));
}

#[test]
fn props_agree_with_reads() {
    let w = sample();
    let p = w.get_props();
    for key in ["a", "b", "c", "d", "e", "f", "g", "h", ""] {
        if key.is_empty() {
            assert_eq!(p.get(key), None);
        } else {
            assert_eq!(p.get(key), w.get_prop(key));
        }
    }
}

#[test]
fn slot_helpers_follow_the_tags() {
    let name = "n".to_string();
    assert_eq!(slot_value(&Slot::Empty, &name), None);
    assert_eq!(slot_value(&Slot::Other, &name), Some("n".to_string()));
    assert_eq!(slot_value(&Slot::Check(false), &name), Some("false".to_string()));
    let items = vec!["A".to_string(), "B".to_string(), "B".to_string()];
    assert_eq!(find_item(&items, &"B".to_string()), Some(1));
    assert_eq!(find_item(&items, &"C".to_string()), None);
    match slot_with_value(Slot::Check(false), &"true".to_string()) {
        Slot::Check(b) => assert!(b),
        _ => panic!("expected a check box"),
    }
    match slot_with_value(Slot::Text("a".to_string()), &"b".to_string()) {
        Slot::Text(t) => assert_eq!(t, "b"),
        _ => panic!("expected a text field"),
    }
    assert!(matches!(slot_with_value(Slot::Empty, &"b".to_string()), Slot::Empty));
}

#[test]
fn props_insert_replaces_values() {
    let mut p = Props::new();
    assert_eq!(p.len(), 0);
    p.insert("a".to_string(), "1".to_string());
    p.insert("b".to_string(), "2".to_string());
    p.insert("a".to_string(), "3".to_string());
    assert_eq!(p.len(), 2);
    assert_eq!(p.get("a"), Some("3".to_string()));
    assert_eq!(p.get("b"), Some("2".to_string()));
    assert_eq!(p.get("c"), None);
    assert_eq!(p.pairs()[0], ("a".to_string(), "3".to_string()));
}
