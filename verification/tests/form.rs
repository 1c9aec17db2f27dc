use fltk_form::data::FltkForm;
use fltk_form::error::{FltkFormError, FltkFormErrorKind};
use fltk_form::fields::{FlHexaColor, FlImage};
use fltk_form::form::{Form, Parent};
use fltk_form::props::HasProps;
use fltk_form::widget::{Layout, Rect, Widget, WidgetKind};

#[derive(Copy, Debug, Clone)]
pub enum MyEnum {
    A,
    B,
    C,
}

#[derive(Debug, Clone)]
pub struct MyStruct {
    a: i64,
    b: u32,
    c: String,
    d: MyEnum,
    e: bool,
    f: FlImage,
    g: FlHexaColor,
}

fn choice_of(e: MyEnum) -> Widget {
    let mut w = Widget::new(WidgetKind::Choice);
    w.slot = fltk_form::widget::Slot::Choice(fltk_form::widget::ChoiceState {
        items: vec!["A".to_string(), "B".to_string(), "C".to_string()],
        selected: Some(e as usize),
    });
    w
}

/// What the derive makes of the struct: a group with one labelled child per field.
impl FltkForm for MyStruct {
    fn generate(&self) -> Widget {
        Widget::group(vec![
            self.a.generate().with_label("a"),
            self.b.generate().with_label("b"),
            self.c.generate().with_label("c"),
            choice_of(self.d).with_label("d"),
            self.e.generate().with_label("e"),
            self.f.generate().with_label("f"),
            self.g.generate().with_label("g"),
        ])
    }
    fn view(&self) -> Widget {
        Widget::group(vec![
            FltkForm::view(&self.a).with_label("a"),
            FltkForm::view(&self.b).with_label("b"),
            FltkForm::view(&self.c).with_label("c"),
            choice_of(self.d).with_label("d"),
            FltkForm::view(&self.e).with_label("e"),
            FltkForm::view(&self.f).with_label("f"),
            FltkForm::view(&self.g).with_label("g"),
        ])
    }
}

fn my_struct() -> MyStruct {
    MyStruct {
        a: 0,
        b: 3,
        c: String::new(),
        d: MyEnum::A,
        e: true,
        f: FlImage(String::from("examples/orange_circle.svg")),
        g: FlHexaColor(String::from("#663399")),
    }
}

#[test]
fn a_form_reads_the_fields_of_its_data() {
    let form = Form::default().from_data(my_struct());
    assert_eq!(form.get_prop("b"), Some("3".to_owned()));
    assert_eq!(form.get_prop("a"), Some("0".to_owned()));
    assert_eq!(form.get_prop("c"), Some(String::new()));
    assert_eq!(form.get_prop("d"), Some("A".to_owned()));
    assert_eq!(form.get_prop("e"), Some("true".to_owned()));
    assert_eq!(form.get_prop("f"), None);
    assert_eq!(form.get_prop("g"), None);
    let _ = MyEnum::B;
    let _ = MyEnum::C;
}

#[test]
fn a_viewed_form_reads_the_fields_as_text() {
    let form = Form::default().from_data_view(my_struct());
    assert_eq!(form.get_prop("b"), Some("3".to_owned()));
    assert_eq!(form.get_prop("e"), Some("true".to_owned()));
    assert_eq!(form.get_prop("g"), Some("#663399".to_owned()));
}

#[test]
fn a_form_writes_and_reads_back() {
    let mut form = Form::new(10, 20, 300, 200, Some("form"));
    form.set_data(my_struct());
    assert!(form.set_prop("c", "typed").is_ok());
    assert_eq!(form.get_prop("c"), Some("typed".to_owned()));
    assert!(form.set_prop("e", "false").is_ok());
    assert_eq!(form.get_prop("e"), Some("false".to_owned()));
    assert!(form.set_prop("d", "C").is_ok());
    assert_eq!(form.get_prop("d"), Some("C".to_owned()));
    assert!(matches!(
        form.set_prop("nope", "1"),
        Err(FltkFormError::Internal(FltkFormErrorKind::PropertyInexistent))
    ));
    assert!(matches!(
        form.set_prop("f", "x.png"),
        Err(FltkFormError::Internal(FltkFormErrorKind::FailedToChangeData))
    ));
}

#[test]
fn a_form_lists_and_renames_its_properties() {
    let mut form = Form::default().from_data(my_struct());
    let props = form.get_props();
    assert_eq!(props.len(), 5);
    assert_eq!(props.get("b"), Some("3".to_owned()));
    assert_eq!(props.get("f"), None);
    form.rename_prop("b", "count");
    assert_eq!(form.get_prop("count"), Some("3".to_owned()));
    assert_eq!(form.get_prop("b"), None);
}

#[test]
fn an_empty_form_has_no_properties() {
    let mut form = Form::default();
    assert_eq!(form.get_prop("a"), None);
    assert!(matches!(
        form.set_prop("a", "1"),
        Err(FltkFormError::Internal(FltkFormErrorKind::PropertyInexistent))
    ));
    assert_eq!(form.get_props().len(), 0);
    form.rename_prop("a", "b");
    assert_eq!(form.children().len(), 0);
}

#[test]
fn later_data_does_not_change_the_properties() {
    let mut form = Form::default().from_data(my_struct());
    let mut other = my_struct();
    other.b = 99;
    form.set_data(other);
    assert_eq!(form.children().len(), 2);
    assert_eq!(form.get_prop("b"), Some("3".to_owned()));
}

#[test]
fn the_data_fills_the_form() {
    let form = Form::new(10, 20, 300, 200, None).from_data(5i32);
    assert_eq!(form.bounds(), Rect { x: 10, y: 20, w: 300, h: 200 });
    assert_eq!(
        form.children()[0].layout,
        Layout::Fill(Rect { x: 10, y: 20, w: 300, h: 200 })
    );
}

#[test]
fn default_fill_takes_the_parent_size() {
    let f = Form::default_fill(None);
    assert_eq!(f.bounds(), Rect { x: 0, y: 0, w: 0, h: 0 });
    let parent = Parent { bounds: Rect { x: 5, y: 6, w: 300, h: 200 }, is_window: false };
    assert_eq!(Form::default_fill(Some(parent)).bounds(), Rect { x: 5, y: 6, w: 300, h: 200 });
    let window = Parent { bounds: Rect { x: 5, y: 6, w: 300, h: 200 }, is_window: true };
    assert_eq!(Form::default_fill(Some(window)).bounds(), Rect { x: 0, y: 0, w: 300, h: 200 });
    assert_eq!(Form::default().bounds(), Rect { x: 0, y: 0, w: 0, h: 0 });
}

#[test]
fn a_vector_field_is_a_pack_without_labels() {
    let form = Form::default().from_data(vec![1i32, 2]);
    assert_eq!(form.get_props().len(), 0);
    // Unnamed children are left out of the list, but an empty name still
    // reads the first of them.
    let w: &Widget = &form.children()[0];
    assert_eq!(w.get_prop(""), Some("1".to_owned()));
}
