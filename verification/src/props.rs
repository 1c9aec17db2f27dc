//! Reading, writing and renaming the properties of a form.
//!
//! A property is a child widget of a group, named by its label. Where several
//! children carry the same label, reading goes by the first of them, and
//! writing and renaming go to all of them.
use vstd::prelude::*;

use crate::error::{FltkFormError, FltkFormErrorKind};
use crate::propmap::Props;
use crate::text::{bool_text, bool_text_spec, same_text};
use crate::widget::{
    ChoiceState, Slot, SlotView, Widget, WidgetView, is_group_kind, opt_index, opt_text, texts,
};

verus! {

/// The position of the first element of `s` equal to `x`, if any.
pub open spec fn first_index<A>(s: Seq<A>, x: A) -> Option<int> {
    if exists|i: int| 0 <= i < s.len() && s[i] == x {
        Some(choose|i: int| is_first(s, x, i))
    } else {
        None
    }
}

/// Whether `i` is the position of the first element of `s` equal to `x`.
pub open spec fn is_first<A>(s: Seq<A>, x: A, i: int) -> bool {
    &&& 0 <= i < s.len()
    &&& s[i] == x
    &&& forall|j: int| 0 <= j < i ==> s[j] != x
}

/// The first position of an element equal to `x` is unique.
pub proof fn lemma_first_index_is<A>(s: Seq<A>, x: A, i: int)
    requires
        is_first(s, x, i),
    ensures
        first_index(s, x) == Some(i),
{
    let k: int = choose|k: int| is_first(s, x, k);
    assert(is_first(s, x, k));
    if k < i {
        assert(s[k] != x);
    } else if i < k {
        assert(s[i] != x);
    }
}

/// Where `x` occurs in `s`, `first_index` gives its first occurrence.
pub proof fn lemma_first_index_found<A>(s: Seq<A>, x: A, i: int)
    requires
        0 <= i < s.len(),
        s[i] == x,
    ensures
        first_index(s, x) matches Some(k) && is_first(s, x, k) && k <= i,
    decreases i,
{
    if exists|j: int| 0 <= j < i && s[j] == x {
        let j: int = choose|j: int| 0 <= j < i && s[j] == x;
        lemma_first_index_found(s, x, j);
    } else {
        lemma_first_index_is(s, x, i);
    }
}

/// Whether one of the first `i` children is labelled `k`.
pub open spec fn labelled_before(ch: Seq<WidgetView>, k: Seq<char>, i: int) -> bool {
    exists|j: int| 0 <= j < i && ch[j].label == k
}

/// The labels of a sequence of widgets.
pub open spec fn labels(ch: Seq<WidgetView>) -> Seq<Seq<char>> {
    Seq::new(ch.len(), |i: int| ch[i].label)
}

/// The members of a widget whose properties it has: the children of a group,
/// and none for any other widget.
pub open spec fn members(w: WidgetView) -> Seq<WidgetView> {
    if is_group_kind(w.kind) {
        w.children
    } else {
        Seq::empty()
    }
}

/// A widget after `value` is written to its property `prop`.
pub open spec fn widget_after_set(w: WidgetView, prop: Seq<char>, value: Seq<char>) -> WidgetView {
    if is_group_kind(w.kind) {
        WidgetView { children: children_after_set(w.children, prop, value), ..w }
    } else {
        w
    }
}

/// A widget after its property `prop` is renamed `new_name`.
pub open spec fn widget_after_rename(
    w: WidgetView,
    prop: Seq<char>,
    new_name: Seq<char>,
) -> WidgetView {
    if is_group_kind(w.kind) {
        WidgetView { children: children_after_rename(w.children, prop, new_name), ..w }
    } else {
        w
    }
}

/// The text that a slot gives when read as property `name`: a text field its
/// text, a check box `true` or `false`, a choice its selected item, a widget
/// tagged otherwise the name itself, and a widget without tag nothing.
pub open spec fn slot_text(slot: SlotView, name: Seq<char>) -> Option<Seq<char>> {
    match slot {
        SlotView::Empty => None,
        SlotView::Text(t) => Some(t),
        SlotView::Check(b) => Some(bool_text_spec(b)),
        SlotView::Choice { items, selected } => match selected {
            Some(i) => if 0 <= i < items.len() {
                Some(items[i])
            } else {
                None
            },
            None => None,
        },
        SlotView::Other => Some(name),
    }
}

/// The value of property `prop` among the children `ch`: the text of the first
/// child labelled `prop`, if that child holds one.
pub open spec fn prop_value(ch: Seq<WidgetView>, prop: Seq<char>) -> Option<Seq<char>> {
    match first_index(labels(ch), prop) {
        Some(i) => slot_text(ch[i].slot, prop),
        None => None,
    }
}

/// The value that a slot holds after `value` is written to it.
pub open spec fn slot_after_set(slot: SlotView, value: Seq<char>) -> SlotView {
    match slot {
        SlotView::Text(_) => SlotView::Text(value),
        SlotView::Check(_) => SlotView::Check(value == "true"@),
        SlotView::Choice { items, selected } => SlotView::Choice {
            items,
            selected: first_index(items, value),
        },
        _ => slot,
    }
}

/// A child after `value` is written to property `prop`.
pub open spec fn set_child(w: WidgetView, prop: Seq<char>, value: Seq<char>) -> WidgetView {
    if w.label == prop {
        WidgetView { slot: slot_after_set(w.slot, value), ..w }
    } else {
        w
    }
}

/// For each child, whether it carries the label `prop` and holds no value.
pub open spec fn blocks(ch: Seq<WidgetView>, prop: Seq<char>) -> Seq<bool> {
    Seq::new(ch.len(), |i: int| ch[i].label == prop && ch[i].slot is Empty)
}

/// Where writing property `prop` stops: at the first child labelled `prop`
/// that holds no value, or after the last child.
pub open spec fn set_stop(ch: Seq<WidgetView>, prop: Seq<char>) -> int {
    match first_index(blocks(ch, prop), true) {
        Some(k) => k,
        None => ch.len() as int,
    }
}

/// The children after `value` is written to property `prop`: every child
/// labelled `prop` before the stop takes the value.
pub open spec fn children_after_set(
    ch: Seq<WidgetView>,
    prop: Seq<char>,
    value: Seq<char>,
) -> Seq<WidgetView> {
    Seq::new(
        ch.len(),
        |i: int|
            if i < set_stop(ch, prop) {
                set_child(ch[i], prop, value)
            } else {
                ch[i]
            },
    )
}

/// What writing property `prop` answers.
pub open spec fn set_result(ch: Seq<WidgetView>, prop: Seq<char>) -> Result<(), FltkFormError> {
    if set_stop(ch, prop) < ch.len() {
        Err(FltkFormError::Internal(FltkFormErrorKind::FailedToChangeData))
    } else if first_index(labels(ch), prop) is Some {
        Ok(())
    } else {
        Err(FltkFormError::Internal(FltkFormErrorKind::PropertyInexistent))
    }
}

/// A child after property `prop` is renamed `new_name`.
pub open spec fn rename_child(w: WidgetView, prop: Seq<char>, new_name: Seq<char>) -> WidgetView {
    if w.label == prop {
        WidgetView { label: new_name, ..w }
    } else {
        w
    }
}

/// The children after property `prop` is renamed `new_name`.
pub open spec fn children_after_rename(
    ch: Seq<WidgetView>,
    prop: Seq<char>,
    new_name: Seq<char>,
) -> Seq<WidgetView> {
    Seq::new(ch.len(), |i: int| rename_child(ch[i], prop, new_name))
}

/// All properties of the children `ch` that have a name and a value.
pub open spec fn props_map(ch: Seq<WidgetView>) -> Map<Seq<char>, Seq<char>> {
    Map::new(
        |k: Seq<char>| k.len() > 0 && prop_value(ch, k) is Some,
        |k: Seq<char>| prop_value(ch, k)->0,
    )
}

/// The text that a slot gives for a property named `name`.
pub fn slot_value(slot: &Slot, name: &String) -> (r: Option<String>)
    ensures
        opt_text(r) == slot_text(slot@, name@),
{
    match slot {
        Slot::Empty => None,
        Slot::Text(t) => Some(t.clone()),
        Slot::Check(b) => Some(bool_text(*b)),
        Slot::Choice(c) => match c.selected {
            Some(i) => {
                if i < c.items.len() {
                    Some(c.items[i].clone())
                } else {
                    None
                }
            },
            None => None,
        },
        Slot::Other => Some(name.clone()),
    }
}

/// The position of the first item equal to `value`, as a choice finds it.
pub fn find_item(items: &Vec<String>, value: &String) -> (r: Option<usize>)
    ensures
        opt_index(r) == first_index(texts(items@), value@),
{
    let ghost s = texts(items@);
    let mut i: usize = 0;
    while i < items.len()
        invariant
            0 <= i <= items.len(),
            s == texts(items@),
            forall|j: int| 0 <= j < i ==> s[j] != value@,
        decreases items.len() - i,
    {
        if same_text(&items[i], value) {
            proof {
                lemma_first_index_is(s, value@, i as int);
            }
            return Some(i);
        }
        i += 1;
    }
    None
}

/// Whether a text says `true`.
fn is_true_text(value: &String) -> (r: bool)
    ensures
        r == (value@ == "true"@),
{
    let t = "true".to_owned();
    same_text(value, &t)
}

/// The slot after `value` is written to it.
pub fn slot_with_value(slot: Slot, value: &String) -> (r: Slot)
    ensures
        r@ == slot_after_set(slot@, value@),
{
    match slot {
        Slot::Text(_) => Slot::Text(value.clone()),
        Slot::Check(_) => Slot::Check(is_true_text(value)),
        Slot::Choice(c) => {
            let selected = find_item(&c.items, value);
            Slot::Choice(ChoiceState { items: c.items, selected })
        },
        other => other,
    }
}

/// Reading, writing and renaming the properties of a widget's children.
pub trait HasProps {
    /// The value of property `prop`, if the widget has it and it holds one.
    fn get_prop(&self, prop: &str) -> Option<String>;

    /// Writes `value` to property `prop`.
    fn set_prop(&mut self, prop: &str, value: &str) -> Result<(), FltkFormError>;

    /// All properties that have a name and a value.
    fn get_props(&self) -> Props;

    /// Gives property `prop` the name `new_name`.
    fn rename_prop(&mut self, prop: &str, new_name: &str);
}

impl Widget {
    fn member_prop(&self, prop: &str) -> (r: Option<String>)
        ensures
            opt_text(r) == prop_value(self@.children, prop@),
    {
        let key = prop.to_owned();
        let ghost ch = self@.children;
        let ghost ls = labels(ch);
        let mut i: usize = 0;
        while i < self.children.len()
            invariant
                0 <= i <= self.children@.len(),
                ch == self@.children,
                ls == labels(ch),
                ch.len() == self.children@.len(),
                key@ == prop@,
                forall|j: int| 0 <= j < i ==> ls[j] != prop@,
            decreases self.children@.len() - i,
        {
            assert(ch[i as int] == self.children@[i as int]@);
            if same_text(&self.children[i].label, &key) {
                proof {
                    lemma_first_index_is(ls, prop@, i as int);
                }
                return slot_value(&self.children[i].slot, &key);
            }
            i += 1;
        }
        None
    }

    fn set_member_prop(&mut self, prop: &str, value: &str) -> (r: Result<(), FltkFormError>)
        ensures
            final(self)@ == (WidgetView {
                children: children_after_set(old(self)@.children, prop@, value@),
                ..old(self)@
            }),
            r == set_result(old(self)@.children, prop@),
    {
        let key = prop.to_owned();
        let text = value.to_owned();
        let ghost ch = old(self)@.children;
        let ghost bl = blocks(ch, prop@);
        let n: usize = self.children.len();
        let mut found = false;
        let mut i: usize = 0;
        while i < n
            invariant
                0 <= i <= n,
                n == self.children@.len(),
                n == ch.len(),
                ch == old(self)@.children,
                bl == blocks(ch, prop@),
                key@ == prop@,
                text@ == value@,
                self.kind == old(self).kind,
                self.label == old(self).label,
                self.slot == old(self).slot,
                self.layout == old(self).layout,
                self.align_left == old(self).align_left,
                self.focusable == old(self).focusable,
                self.tooltip == old(self).tooltip,
                self.hex_color == old(self).hex_color,
                forall|j: int|
                    0 <= j < n ==> #[trigger] self.children@[j]@ == if j < i {
                        set_child(ch[j], prop@, value@)
                    } else {
                        ch[j]
                    },
                found == exists|j: int| 0 <= j < i && ch[j].label == prop@,
                forall|j: int| 0 <= j < i ==> !bl[j],
            decreases n - i,
        {
            assert(self.children@[i as int]@ == ch[i as int]);
            if same_text(&self.children[i].label, &key) {
                found = true;
                if let Slot::Empty = self.children[i].slot {
                    proof {
                        lemma_first_index_is(bl, true, i as int);
                        assert(final(self)@.children =~= children_after_set(ch, prop@, value@)) by {
                            assert forall|j: int| 0 <= j < n implies final(self)@.children[j]
                                == children_after_set(ch, prop@, value@)[j] by {
                                assert(final(self)@.children[j] == self.children@[j]@);
                            }
                        }
                    }
                    return Err(FltkFormError::Internal(FltkFormErrorKind::FailedToChangeData));
                }
                let mut slot = Slot::Empty;
                std::mem::swap(&mut slot, &mut self.children[i].slot);
                let new_slot = slot_with_value(slot, &text);
                self.children[i].slot = new_slot;
                proof {
                    let c = self.children@[i as int];
                    assert(c@.children =~= ch[i as int].children);
                    assert(c@ == set_child(ch[i as int], prop@, value@));
                }
            }
            i += 1;
        }
        proof {
            assert forall|j: int| 0 <= j < n implies !(#[trigger] bl[j]) by {}
            if first_index(bl, true) is Some {
                let k: int = choose|k: int| 0 <= k < bl.len() && bl[k] == true;
                assert(bl[k]);
            }
            assert(set_stop(ch, prop@) == n);
            assert(final(self)@.children =~= children_after_set(ch, prop@, value@)) by {
                assert forall|j: int| 0 <= j < n implies final(self)@.children[j]
                    == children_after_set(ch, prop@, value@)[j] by {
                    assert(final(self)@.children[j] == self.children@[j]@);
                }
            }
            let ls = labels(ch);
            if found {
                let j: int = choose|j: int| 0 <= j < n && ch[j].label == prop@;
                assert(ls[j] == prop@);
                lemma_first_index_found(ls, prop@, j);
            } else {
                assert forall|j: int| 0 <= j < ls.len() implies ls[j] != prop@ by {
                    assert(ch[j].label != prop@);
                }
            }
        }
        if !found {
            return Err(FltkFormError::Internal(FltkFormErrorKind::PropertyInexistent));
        }
        Ok(())
    }

    fn member_props(&self) -> (r: Props)
        ensures
            r@ == props_map(self@.children),
    {
        let ghost ch = self@.children;
        let mut props = Props::new();
        let mut i: usize = 0;
        while i < self.children.len()
            invariant
                0 <= i <= self.children@.len(),
                ch == self@.children,
                ch.len() == self.children@.len(),
                props@ == Map::new(
                    |k: Seq<char>| k.len() > 0 && prop_value(ch, k) is Some && labelled_before(ch, k, i as int),
                    |k: Seq<char>| prop_value(ch, k)->0,
                ),
            decreases self.children@.len() - i,
        {
            assert(ch[i as int] == self.children@[i as int]@);
            let ghost before = props@;
            let label = &self.children[i].label;
            if !label.as_str().is_empty() {
                if let Some(value) = self.member_prop(label.as_str()) {
                    let key = label.clone();
                    props.insert(key, value);
                }
            }
            proof {
                let l = ch[i as int].label;
                assert forall|k: Seq<char>|
                    #[trigger] labelled_before(ch, k, i + 1) <==> (labelled_before(ch, k, i as int) || k == l) by {
                    if k == l {
                        assert(ch[i as int].label == k);
                    }
                    if labelled_before(ch, k, i + 1) && k != l {
                        let j: int = choose|j: int| 0 <= j < i + 1 && ch[j].label == k;
                        assert(0 <= j < i);
                    }
                }
                assert(props@ =~= Map::new(
                    |k: Seq<char>| k.len() > 0 && prop_value(ch, k) is Some && labelled_before(ch, k, i + 1),
                    |k: Seq<char>| prop_value(ch, k)->0,
                ));
            }
            i += 1;
        }
        proof {
            assert(props@ =~= props_map(ch)) by {
                assert forall|k: Seq<char>| k.len() > 0 && prop_value(ch, k) is Some implies
                    #[trigger] labelled_before(ch, k, ch.len() as int) by {
                    let ls = labels(ch);
                    let m: int = choose|m: int| 0 <= m < ls.len() && ls[m] == k;
                    assert(ls[m] == k);
                    assert(ch[m].label == k);
                }
            }
        }
        props
    }

    fn rename_members(&mut self, prop: &str, new_name: &str)
        ensures
            final(self)@ == (WidgetView {
                children: children_after_rename(old(self)@.children, prop@, new_name@),
                ..old(self)@
            }),
    {
        let key = prop.to_owned();
        let ghost ch = old(self)@.children;
        let n: usize = self.children.len();
        let mut i: usize = 0;
        while i < n
            invariant
                0 <= i <= n,
                n == self.children@.len(),
                n == ch.len(),
                ch == old(self)@.children,
                key@ == prop@,
                self.kind == old(self).kind,
                self.label == old(self).label,
                self.slot == old(self).slot,
                self.layout == old(self).layout,
                self.align_left == old(self).align_left,
                self.focusable == old(self).focusable,
                self.tooltip == old(self).tooltip,
                self.hex_color == old(self).hex_color,
                forall|j: int|
                    0 <= j < n ==> #[trigger] self.children@[j]@ == if j < i {
                        rename_child(ch[j], prop@, new_name@)
                    } else {
                        ch[j]
                    },
            decreases n - i,
        {
            assert(self.children@[i as int]@ == ch[i as int]);
            if same_text(&self.children[i].label, &key) {
                self.children[i].label = new_name.to_owned();
                proof {
                    let c = self.children@[i as int];
                    assert(c@.children =~= ch[i as int].children);
                }
            }
            i += 1;
        }
        proof {
            assert(final(self)@.children =~= children_after_rename(ch, prop@, new_name@)) by {
                assert forall|j: int| 0 <= j < n implies final(self)@.children[j]
                    == children_after_rename(ch, prop@, new_name@)[j] by {
                    assert(final(self)@.children[j] == self.children@[j]@);
                }
            }
        }
    }
}

impl HasProps for Widget {
    fn get_prop(&self, prop: &str) -> (r: Option<String>)
        ensures
            opt_text(r) == prop_value(members(self@), prop@),
    {
        if self.kind.is_group() {
            self.member_prop(prop)
        } else {
            None
        }
    }

    fn set_prop(&mut self, prop: &str, value: &str) -> (r: Result<(), FltkFormError>)
        ensures
            final(self)@ == widget_after_set(old(self)@, prop@, value@),
            r == set_result(members(old(self)@), prop@),
    {
        if self.kind.is_group() {
            self.set_member_prop(prop, value)
        } else {
            Err(FltkFormError::Internal(FltkFormErrorKind::PropertyInexistent))
        }
    }

    fn get_props(&self) -> (r: Props)
        ensures
            r@ == props_map(members(self@)),
    {
        if self.kind.is_group() {
            self.member_props()
        } else {
            let r = Props::new();
            assert(r@ =~= props_map(Seq::empty()));
            r
        }
    }

    fn rename_prop(&mut self, prop: &str, new_name: &str)
        ensures
            final(self)@ == widget_after_rename(old(self)@, prop@, new_name@),
    {
        if self.kind.is_group() {
            self.rename_members(prop, new_name);
        }
    }
}

} // verus!
