//! A form: a group whose first child is the widget made from some data.
use vstd::prelude::*;

use crate::error::{FltkFormError, FltkFormErrorKind};
use crate::propmap::Props;
use crate::props::{
    HasProps, members, prop_value, props_map, set_result, widget_after_rename, widget_after_set,
};
use crate::widget::{Layout, Rect, Widget, WidgetView, opt_text};

verus! {

/// The parent that a form is placed in.
#[derive(Clone, Copy, Debug, PartialEq, Eq, Structural)]
pub struct Parent {
    /// Where the parent stands.
    pub bounds: Rect,
    /// Whether the parent is a window (whose children are placed relative to it).
    pub is_window: bool,
}

/// A form, as mathematical values.
pub ghost struct FormView {
    pub bounds: Rect,
    pub label: Option<Seq<char>>,
    pub children: Seq<WidgetView>,
}

/// A form: a group of widgets, of which the first holds the form's properties.
#[derive(Debug)]
pub struct Form {
    bounds: Rect,
    label: Option<String>,
    children: Vec<Widget>,
}

impl View for Form {
    type V = FormView;

    closed spec fn view(&self) -> FormView {
        FormView {
            bounds: self.bounds,
            label: opt_text(self.label),
            children: Seq::new(self.children@.len(), |i: int| self.children@[i]@),
        }
    }
}

/// A widget resized to fill rectangle `r`.
pub open spec fn filled(w: WidgetView, r: Rect) -> WidgetView {
    WidgetView { layout: Layout::Fill(r), ..w }
}

/// A form after widget `w` is added to it, filling it.
pub open spec fn with_widget(f: FormView, w: WidgetView) -> FormView {
    FormView { children: f.children.push(filled(w, f.bounds)), ..f }
}

/// The widgets that hold a form's properties: the members of its first
/// child, when that child is a group.
pub open spec fn form_props_children(f: FormView) -> Seq<WidgetView> {
    if f.children.len() > 0 {
        members(f.children[0])
    } else {
        Seq::empty()
    }
}

/// The value of property `prop` of a form.
pub open spec fn form_prop(f: FormView, prop: Seq<char>) -> Option<Seq<char>> {
    prop_value(form_props_children(f), prop)
}

/// What writing property `prop` of a form answers.
pub open spec fn form_set_result(f: FormView, prop: Seq<char>) -> Result<(), FltkFormError> {
    if f.children.len() > 0 {
        set_result(members(f.children[0]), prop)
    } else {
        Err(FltkFormError::Internal(FltkFormErrorKind::PropertyInexistent))
    }
}

/// A form after `value` is written to property `prop`.
pub open spec fn form_after_set(f: FormView, prop: Seq<char>, value: Seq<char>) -> FormView {
    if f.children.len() > 0 {
        FormView {
            children: f.children.update(0, widget_after_set(f.children[0], prop, value)),
            ..f
        }
    } else {
        f
    }
}

/// A form after property `prop` is renamed `new_name`.
pub open spec fn form_after_rename(f: FormView, prop: Seq<char>, new_name: Seq<char>) -> FormView {
    if f.children.len() > 0 {
        FormView {
            children: f.children.update(0, widget_after_rename(f.children[0], prop, new_name)),
            ..f
        }
    } else {
        f
    }
}

/// Where a form made to fill its parent stands.
pub open spec fn fill_bounds(parent: Option<Parent>) -> Rect {
    match parent {
        Some(p) => Rect {
            x: if p.is_window { 0 } else { p.bounds.x },
            y: if p.is_window { 0 } else { p.bounds.y },
            w: p.bounds.w,
            h: p.bounds.h,
        },
        None => Rect { x: 0, y: 0, w: 0, h: 0 },
    }
}

impl Form {
    /// A form at the given place, with no widgets yet.
    pub fn new(x: i32, y: i32, w: i32, h: i32, label: Option<&str>) -> (f: Form)
        ensures
            f@ == (FormView {
                bounds: Rect { x, y, w, h },
                label: match label {
                    Some(l) => Some(l@),
                    None => None,
                },
                children: Seq::empty(),
            }),
    {
        let label = match label {
            Some(l) => Some(l.to_owned()),
            None => None,
        };
        let f = Form { bounds: Rect { x, y, w, h }, label, children: Vec::new() };
        assert(f@.children =~= Seq::<WidgetView>::empty());
        f
    }

    /// A form that fills its parent, if it has one.
    pub fn default_fill(parent: Option<Parent>) -> (f: Form)
        ensures
            f@ == (FormView { bounds: fill_bounds(parent), label: None, children: Seq::empty() }),
    {
        let mut f = Form::default();
        match parent {
            Some(p) => {
                let x: i32 = if p.is_window {
                    0
                } else {
                    p.bounds.x
                };
                let y: i32 = if p.is_window {
                    0
                } else {
                    p.bounds.y
                };
                f.bounds = Rect { x, y, w: p.bounds.w, h: p.bounds.h };
            },
            None => {},
        }
        assert(f@.children =~= Seq::<WidgetView>::empty());
        f
    }

    /// Adds a widget after the form's last one.
    pub fn add(&mut self, w: Widget)
        ensures
            final(self)@ == (FormView { children: old(self)@.children.push(w@), ..old(self)@ }),
    {
        self.children.push(w);
        assert(self@.children =~= old(self)@.children.push(w@));
    }

    /// Adds the widget that lets `data` be edited, filling the form.
    pub fn set_data<T: crate::data::FltkForm>(&mut self, data: T)
        ensures
            final(self)@ == with_widget(old(self)@, data.generated()),
    {
        let mut w = data.generate();
        w.layout = Layout::Fill(self.bounds);
        assert(View::view(&w).children =~= data.generated().children);
        self.add(w);
    }

    /// The form with the widget that lets `data` be edited.
    pub fn from_data<T: crate::data::FltkForm>(self, data: T) -> (f: Form)
        ensures
            f@ == with_widget(self@, data.generated()),
    {
        let mut f = self;
        f.set_data(data);
        f
    }

    /// Adds the widget that shows `data`, filling the form.
    pub fn set_data_view<T: crate::data::FltkForm>(&mut self, data: T)
        ensures
            final(self)@ == with_widget(old(self)@, data.viewed()),
    {
        let mut w = data.view();
        w.layout = Layout::Fill(self.bounds);
        assert(View::view(&w).children =~= data.viewed().children);
        self.add(w);
    }

    /// The form with the widget that shows `data`.
    pub fn from_data_view<T: crate::data::FltkForm>(self, data: T) -> (f: Form)
        ensures
            f@ == with_widget(self@, data.viewed()),
    {
        let mut f = self;
        f.set_data_view(data);
        f
    }

    /// The value of property `prop`.
    pub fn get_prop(&self, prop: &str) -> (r: Option<String>)
        ensures
            opt_text(r) == form_prop(self@, prop@),
    {
        if self.children.len() > 0 {
            assert(self@.children[0] == self.children@[0]@);
            self.children[0].get_prop(prop)
        } else {
            assert(prop_value(Seq::empty(), prop@) is None);
            None
        }
    }

    /// Writes `value` to property `prop`.
    pub fn set_prop(&mut self, prop: &str, value: &str) -> (r: Result<(), FltkFormError>)
        ensures
            final(self)@ == form_after_set(old(self)@, prop@, value@),
            r == form_set_result(old(self)@, prop@),
    {
        if self.children.len() > 0 {
            assert(old(self)@.children[0] == self.children@[0]@);
            let r = self.children[0].set_prop(prop, value);
            assert(self@.children =~= form_after_set(old(self)@, prop@, value@).children) by {
                assert(self@.children[0] == self.children@[0]@);
            }
            r
        } else {
            Err(FltkFormError::Internal(FltkFormErrorKind::PropertyInexistent))
        }
    }

    /// All properties that have a name and a value.
    pub fn get_props(&self) -> (r: Props)
        ensures
            r@ == props_map(form_props_children(self@)),
    {
        if self.children.len() > 0 {
            assert(self@.children[0] == self.children@[0]@);
            self.children[0].get_props()
        } else {
            let r = Props::new();
            assert(r@ =~= props_map(Seq::empty()));
            r
        }
    }

    /// Gives property `prop` the name `new_name`.
    pub fn rename_prop(&mut self, prop: &str, new_name: &str)
        ensures
            final(self)@ == form_after_rename(old(self)@, prop@, new_name@),
    {
        if self.children.len() > 0 {
            assert(old(self)@.children[0] == self.children@[0]@);
            self.children[0].rename_prop(prop, new_name);
            assert(self@.children =~= form_after_rename(old(self)@, prop@, new_name@).children) by {
                assert(self@.children[0] == self.children@[0]@);
            }
        }
    }

    /// Where the form stands.
    pub fn bounds(&self) -> (r: Rect)
        ensures
            r == self@.bounds,
    {
        self.bounds
    }

    /// The widgets of the form.
    pub fn children(&self) -> (r: &Vec<Widget>)
        ensures
            r@.len() == self@.children.len(),
            forall|i: int| 0 <= i < r@.len() ==> #[trigger] r@[i]@ == self@.children[i],
    {
        &self.children
    }
}

impl Default for Form {
    fn default() -> (f: Form)
        ensures
            f@ == (FormView {
                bounds: Rect { x: 0, y: 0, w: 0, h: 0 },
                label: None,
                children: Seq::empty(),
            }),
    {
        Form::new(0, 0, 0, 0, None)
    }
}

} // verus!
