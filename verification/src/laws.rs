//! What holds of the property operations taken together.
//!
//! `FltkForm::view` shares its name with `View::view`, so views of strings and
//! vectors are written `View::view(x)` here.
use vstd::prelude::*;

use crate::error::{FltkFormError, FltkFormErrorKind};
use crate::data::{FltkForm, as_row};
use crate::fields::{FlImage, FloatText};
use crate::form::{
    FormView, filled, form_after_rename, form_after_set, form_prop, form_props_children,
    form_set_result, with_widget,
};
use crate::props::{
    children_after_rename, children_after_set, first_index, is_first, labels,
    lemma_first_index_found, lemma_first_index_is, members, prop_value, props_map, set_result, set_stop,
    slot_after_set, slot_text, blocks, widget_after_rename, widget_after_set,
};
use crate::widget::{SlotView, WidgetView, is_group_kind};

verus! {

/// Writing a property changes no label.
proof fn lemma_set_keeps_labels(ch: Seq<WidgetView>, prop: Seq<char>, value: Seq<char>)
    ensures
        labels(children_after_set(ch, prop, value)) == labels(ch),
{
    assert(labels(children_after_set(ch, prop, value)) =~= labels(ch));
}

/// Where no child carries the label `x`, `first_index` finds none.
proof fn lemma_first_index_none<A>(s: Seq<A>, x: A)
    requires
        forall|j: int| 0 <= j < s.len() ==> s[j] != x,
    ensures
        first_index(s, x) is None,
{
}

/// When a write succeeds, reading the property back gives what its first
/// child holds after the write.
pub proof fn law_read_after_write(ch: Seq<WidgetView>, prop: Seq<char>, value: Seq<char>)
    requires
        set_result(ch, prop) is Ok,
    ensures
        first_index(labels(ch), prop) is Some,
        prop_value(children_after_set(ch, prop, value), prop) == slot_text(
            slot_after_set(ch[first_index(labels(ch), prop)->0].slot, value),
            prop,
        ),
{
    lemma_set_keeps_labels(ch, prop, value);
    let ls = labels(ch);
    let j: int = choose|j: int| 0 <= j < ls.len() && ls[j] == prop;
    lemma_first_index_found(ls, prop, j);
    let bl = blocks(ch, prop);
    if exists|k: int| 0 <= k < bl.len() && bl[k] == true {
        let k: int = choose|k: int| 0 <= k < bl.len() && bl[k] == true;
        lemma_first_index_found(bl, true, k);
    }
    assert(set_stop(ch, prop) == ch.len());
}

/// When a write to a text field succeeds, reading the property back gives the
/// text written.
pub proof fn law_text_read_after_write(ch: Seq<WidgetView>, prop: Seq<char>, value: Seq<char>)
    requires
        set_result(ch, prop) is Ok,
        ch[first_index(labels(ch), prop)->0].slot is Text,
    ensures
        prop_value(children_after_set(ch, prop, value), prop) == Some(value),
{
    law_read_after_write(ch, prop, value);
}

/// Writing a property that no child carries fails with `PropertyInexistent`
/// and changes nothing.
pub proof fn law_write_missing(ch: Seq<WidgetView>, prop: Seq<char>, value: Seq<char>)
    requires
        forall|j: int| 0 <= j < ch.len() ==> ch[j].label != prop,
    ensures
        set_result(ch, prop) == Err::<(), FltkFormError>(
            FltkFormError::Internal(FltkFormErrorKind::PropertyInexistent),
        ),
        children_after_set(ch, prop, value) == ch,
{
    let bl = blocks(ch, prop);
    lemma_first_index_none(bl, true);
    let ls = labels(ch);
    lemma_first_index_none(ls, prop);
    assert(children_after_set(ch, prop, value) =~= ch);
}

/// Writing one property leaves the value of every other property as it was.
pub proof fn law_write_keeps_others(
    ch: Seq<WidgetView>,
    prop: Seq<char>,
    value: Seq<char>,
    other: Seq<char>,
)
    requires
        other != prop,
    ensures
        prop_value(children_after_set(ch, prop, value), other) == prop_value(ch, other),
{
    lemma_set_keeps_labels(ch, prop, value);
    let ls = labels(ch);
    if exists|j: int| 0 <= j < ls.len() && ls[j] == other {
        let j: int = choose|j: int| 0 <= j < ls.len() && ls[j] == other;
        lemma_first_index_found(ls, other, j);
    }
}

/// The map of all properties holds exactly the named properties that have a
/// value, each with the value that reading it gives.
pub proof fn law_props_agree_with_reads(ch: Seq<WidgetView>, k: Seq<char>)
    ensures
        props_map(ch).contains_key(k) == (k.len() > 0 && prop_value(ch, k) is Some),
        props_map(ch).contains_key(k) ==> Some(props_map(ch)[k]) == prop_value(ch, k),
{
}

/// Renaming a property to a name that no child carries moves its value to the
/// new name (a child that stands for its value by its label then gives the new
/// name), and leaves nothing under the old name.
pub proof fn law_rename_moves_value(ch: Seq<WidgetView>, prop: Seq<char>, new_name: Seq<char>)
    requires
        prop != new_name,
        forall|j: int| 0 <= j < ch.len() ==> ch[j].label != new_name,
    ensures
        prop_value(children_after_rename(ch, prop, new_name), new_name) == match first_index(
            labels(ch),
            prop,
        ) {
            Some(i) => slot_text(ch[i].slot, new_name),
            None => None,
        },
        prop_value(children_after_rename(ch, prop, new_name), prop) is None,
{
    let rn = children_after_rename(ch, prop, new_name);
    let ls = labels(ch);
    let lr = labels(rn);
    assert forall|j: int| 0 <= j < lr.len() implies #[trigger] lr[j] != prop by {}
    lemma_first_index_none(lr, prop);
    assert forall|j: int| 0 <= j < ch.len() implies (lr[j] == new_name) == (ls[j] == prop) by {}
    if exists|j: int| 0 <= j < ls.len() && ls[j] == prop {
        let j: int = choose|j: int| 0 <= j < ls.len() && ls[j] == prop;
        lemma_first_index_found(ls, prop, j);
        let i: int = first_index(ls, prop)->0;
        assert(is_first(lr, new_name, i));
        lemma_first_index_is(lr, new_name, i);
    } else {
        assert forall|j: int| 0 <= j < lr.len() implies lr[j] != new_name by {}
        lemma_first_index_none(lr, new_name);
    }
}

/// Renaming a property to a name that no child carries, and back, restores
/// the children.
pub proof fn law_rename_round_trip(ch: Seq<WidgetView>, prop: Seq<char>, new_name: Seq<char>)
    requires
        forall|j: int| 0 <= j < ch.len() ==> ch[j].label != new_name,
    ensures
        children_after_rename(children_after_rename(ch, prop, new_name), new_name, prop) == ch,
{
    let back = children_after_rename(children_after_rename(ch, prop, new_name), new_name, prop);
    assert forall|j: int| 0 <= j < ch.len() implies back[j] == ch[j] by {
        if ch[j].label == prop {
            assert(back[j] =~= ch[j]);
        }
    }
    assert(back =~= ch);
}

/// A form's properties are those of its first widget: adding a widget to a
/// form that has one already leaves every property as it was.
pub proof fn law_first_data_holds_props(f: FormView, w: WidgetView, prop: Seq<char>)
    ensures
        form_prop(FormView { children: f.children.push(w), ..f }, prop) == if f.children.len() == 0 {
            prop_value(members(w), prop)
        } else {
            form_prop(f, prop)
        },
{
    if f.children.len() > 0 {
        assert(f.children.push(w)[0] == f.children[0]);
    } else {
        assert(f.children.push(w)[0] == w);
    }
}

/// Two widgets read alike: the same label, and the same text for any name.
pub open spec fn reads_alike(a: WidgetView, b: WidgetView) -> bool {
    a.label == b.label && forall|n: Seq<char>| #[trigger] slot_text(a.slot, n) == slot_text(b.slot, n)
}

/// Two sequences of widgets read alike, position by position.
pub open spec fn all_read_alike(a: Seq<WidgetView>, b: Seq<WidgetView>) -> bool {
    a.len() == b.len() && forall|i: int| 0 <= i < a.len() ==> #[trigger] reads_alike(a[i], b[i])
}

/// Children that read alike give the same value for every property, and the
/// same map of properties.
pub proof fn lemma_alike_children_read_alike(a: Seq<WidgetView>, b: Seq<WidgetView>)
    requires
        all_read_alike(a, b),
    ensures
        forall|p: Seq<char>| #[trigger] prop_value(a, p) == prop_value(b, p),
        props_map(a) == props_map(b),
{
    assert(labels(a) =~= labels(b)) by {
        assert forall|i: int| 0 <= i < a.len() implies labels(a)[i] == labels(b)[i] by {
            assert(reads_alike(a[i], b[i]));
        }
    }
    assert forall|p: Seq<char>| #[trigger] prop_value(a, p) == prop_value(b, p) by {
        let ls = labels(a);
        if exists|j: int| 0 <= j < ls.len() && ls[j] == p {
            let j: int = choose|j: int| 0 <= j < ls.len() && ls[j] == p;
            lemma_first_index_found(ls, p, j);
            let i: int = first_index(ls, p)->0;
            assert(reads_alike(a[i], b[i]));
            assert(slot_text(a[i].slot, p) == slot_text(b[i].slot, p));
        }
    }
    assert(props_map(a) =~= props_map(b));
}

/// For the base types, the widget that shows a value reads as the widget that
/// lets it be edited: an integer gives its decimal text, a string itself, a
/// boolean `true` or `false`, a float its text; a `&str` and an image give
/// their label and nothing else.
pub proof fn law_base_views_read_as_generated(
    a: i8,
    b: u8,
    c: i16,
    d: u16,
    e: i32,
    f: u32,
    g: i64,
    h: u64,
    i: isize,
    j: usize,
    s: String,
    t: bool,
    x: FloatText,
    l: &str,
    m: FlImage,
)
    ensures
        reads_alike(a.generated(), a.viewed()),
        reads_alike(b.generated(), b.viewed()),
        reads_alike(c.generated(), c.viewed()),
        reads_alike(d.generated(), d.viewed()),
        reads_alike(e.generated(), e.viewed()),
        reads_alike(f.generated(), f.viewed()),
        reads_alike(g.generated(), g.viewed()),
        reads_alike(h.generated(), h.viewed()),
        reads_alike(i.generated(), i.viewed()),
        reads_alike(j.generated(), j.viewed()),
        reads_alike(s.generated(), s.viewed()),
        reads_alike(t.generated(), t.viewed()),
        reads_alike(x.generated(), x.viewed()),
        reads_alike(l.generated(), l.viewed()),
        reads_alike(m.generated(), m.viewed()),
{
}

/// The widget that shows a vector reads as the one that lets it be edited,
/// property by property, when each element's two widgets read alike.
pub proof fn law_vec_view_reads_as_generated<T: FltkForm>(v: Vec<T>)
    requires
        forall|k: int| 0 <= k < View::view(&v).len() ==> reads_alike(
            #[trigger] View::view(&v)[k].generated(),
            View::view(&v)[k].viewed(),
        ),
    ensures
        all_read_alike(members(v.generated()), members(v.viewed())),
        forall|p: Seq<char>| #[trigger] prop_value(members(v.generated()), p) == prop_value(
            members(v.viewed()),
            p,
        ),
        props_map(members(v.generated())) == props_map(members(v.viewed())),
{
    let a = members(v.generated());
    let b = members(v.viewed());
    assert forall|k: int| 0 <= k < a.len() implies #[trigger] reads_alike(a[k], b[k]) by {
        assert(a[k] == as_row(View::view(&v)[k].generated()));
        assert(b[k] == as_row(View::view(&v)[k].viewed()));
        assert(reads_alike(View::view(&v)[k].generated(), View::view(&v)[k].viewed()));
    }
    lemma_alike_children_read_alike(a, b);
}

/// Building a form from data gives the state that adding the data to it
/// gives: one more widget, the data's widget filling the form, and the
/// properties of the form's first data.
pub proof fn law_from_data_as_set_data<T: FltkForm>(f: FormView, d: T, p: Seq<char>)
    ensures
        with_widget(f, d.generated()).children.len() == f.children.len() + 1,
        with_widget(f, d.generated()).children.last() == filled(d.generated(), f.bounds),
        with_widget(f, d.generated()).bounds == f.bounds,
        with_widget(f, d.generated()).label == f.label,
        form_prop(with_widget(f, d.generated()), p) == if f.children.len() == 0 {
            prop_value(members(d.generated()), p)
        } else {
            form_prop(f, p)
        },
{
    law_first_data_holds_props(f, filled(d.generated(), f.bounds), p);
}

/// A form showing data reads as a form editing it, property by property,
/// when the members of the data's two widgets read alike (as they do for a
/// group of fields of the base types).
pub proof fn law_view_form_reads_as_data_form<T: FltkForm>(f: FormView, d: T)
    requires
        all_read_alike(members(d.generated()), members(d.viewed())),
    ensures
        forall|p: Seq<char>| #[trigger] form_prop(with_widget(f, d.viewed()), p) == form_prop(
            with_widget(f, d.generated()),
            p,
        ),
        props_map(form_props_children(with_widget(f, d.viewed()))) == props_map(
            form_props_children(with_widget(f, d.generated())),
        ),
{
    lemma_alike_children_read_alike(members(d.generated()), members(d.viewed()));
    let fg = with_widget(f, d.generated());
    let fv = with_widget(f, d.viewed());
    if f.children.len() == 0 {
        assert(fg.children[0] == filled(d.generated(), f.bounds));
        assert(fv.children[0] == filled(d.viewed(), f.bounds));
        assert(form_props_children(fg) == members(d.generated()));
        assert(form_props_children(fv) == members(d.viewed()));
    } else {
        assert(fg.children[0] == f.children[0]);
        assert(fv.children[0] == f.children[0]);
    }
}

/// Writing a value to a slot and reading it back: a text field gives the
/// value, a check box `true` exactly when the value is `true` (else `false`),
/// a choice the value when it is one of its items (the first such item is
/// selected) and nothing when it is none of them.
pub proof fn law_slot_write_reads_back(slot: SlotView, value: Seq<char>, name: Seq<char>)
    ensures
        slot is Text ==> slot_text(slot_after_set(slot, value), name) == Some(value),
        slot is Check ==> slot_text(slot_after_set(slot, value), name) == Some(
            if value == "true"@ {
                "true"@
            } else {
                "false"@
            },
        ),
        slot is Choice ==> (slot_text(slot_after_set(slot, value), name) == if slot->items.contains(
            value,
        ) {
            Some(value)
        } else {
            None
        }),
{
    if slot is Choice {
        let items = slot->items;
        if items.contains(value) {
            let j: int = choose|j: int| 0 <= j < items.len() && items[j] == value;
            lemma_first_index_found(items, value, j);
        }
    }
}

/// Writing to a choice a value that is one of its items selects the first item
/// equal to it, keeps the items, and nothing else.
pub proof fn law_choice_write_selects_first_item(
    items: Seq<Seq<char>>,
    selected: Option<int>,
    value: Seq<char>,
    i: int,
)
    requires
        0 <= i < items.len(),
        items[i] == value,
        forall|j: int| 0 <= j < i ==> items[j] != value,
    ensures
        slot_after_set(SlotView::Choice { items, selected }, value) == (SlotView::Choice {
            items,
            selected: Some(i),
        }),
{
    lemma_first_index_is(items, value, i);
}

/// Writing to a choice a value that is none of its items leaves it without
/// selection.
pub proof fn law_choice_write_missing_item(
    items: Seq<Seq<char>>,
    selected: Option<int>,
    value: Seq<char>,
)
    requires
        !items.contains(value),
    ensures
        slot_after_set(SlotView::Choice { items, selected }, value) == (SlotView::Choice {
            items,
            selected: None,
        }),
{
}

/// The first member of a form labelled `p`, if any.
pub open spec fn first_member(f: FormView, p: Seq<char>) -> Option<int> {
    first_index(labels(form_props_children(f)), p)
}

/// A successful write to a form's property reads back as the value written to
/// the first field with that name (as `law_slot_write_reads_back` says for
/// each kind of field), and leaves every other property as it was.
pub proof fn law_form_write_reads_back(f: FormView, p: Seq<char>, value: Seq<char>, q: Seq<char>)
    requires
        form_set_result(f, p) is Ok,
    ensures
        first_member(f, p) is Some,
        form_prop(form_after_set(f, p, value), p) == slot_text(
            slot_after_set(form_props_children(f)[first_member(f, p)->0].slot, value),
            p,
        ),
        form_props_children(f)[first_member(f, p)->0].slot is Text ==> form_prop(
            form_after_set(f, p, value),
            p,
        ) == Some(value),
        q != p ==> form_prop(form_after_set(f, p, value), q) == form_prop(f, q),
{
    assert(f.children.len() > 0);
    let w = f.children[0];
    let after = form_after_set(f, p, value);
    assert(after.children[0] == widget_after_set(w, p, value));
    assert(form_props_children(after) == members(widget_after_set(w, p, value)));
    if is_group_kind(w.kind) {
        assert(members(widget_after_set(w, p, value)) == children_after_set(w.children, p, value));
        law_read_after_write(w.children, p, value);
        if q != p {
            law_write_keeps_others(w.children, p, value, q);
        }
    } else {
        assert(set_result(Seq::<WidgetView>::empty(), p) is Err) by {
            assert(blocks(Seq::<WidgetView>::empty(), p) =~= Seq::<bool>::empty());
            assert(labels(Seq::<WidgetView>::empty()) =~= Seq::<Seq<char>>::empty());
        }
    }
}

/// Renaming a form's property `p` to a name `q` that no field carries acts on
/// the fields the form reads: afterwards `p` has no value, and `q` reads what
/// the first field named `p` held (its value; or, for a field that stands for
/// its value by its label, the new name).
pub proof fn law_form_rename_moves_value(f: FormView, p: Seq<char>, q: Seq<char>)
    requires
        p != q,
        forall|j: int|
            0 <= j < form_props_children(f).len() ==> form_props_children(f)[j].label != q,
    ensures
        form_prop(form_after_rename(f, p, q), p) is None,
        form_prop(form_after_rename(f, p, q), q) == match first_member(f, p) {
            Some(i) => slot_text(form_props_children(f)[i].slot, q),
            None => None,
        },
        first_member(f, p) matches Some(i) && !(form_props_children(f)[i].slot is Other)
            ==> form_prop(form_after_rename(f, p, q), q) == form_prop(f, p),
{
    let ch = form_props_children(f);
    let after = form_after_rename(f, p, q);
    if f.children.len() > 0 {
        let w = f.children[0];
        assert(after.children[0] == widget_after_rename(w, p, q));
        if is_group_kind(w.kind) {
            assert(form_props_children(after) == children_after_rename(ch, p, q));
        } else {
            assert(form_props_children(after) == ch);
        }
    } else {
        assert(form_props_children(after) == ch);
    }
    law_rename_moves_value(ch, p, q);
}

/// Reading a slot: a widget without tag gives nothing, one tagged otherwise
/// gives the name it is read by; and writing leaves both as they were.
pub proof fn law_slot_reads(name: Seq<char>, value: Seq<char>, t: Seq<char>, b: bool)
    ensures
        slot_text(SlotView::Empty, name) is None,
        slot_text(SlotView::Other, name) == Some(name),
        slot_text(SlotView::Text(t), name) == Some(t),
        slot_text(SlotView::Check(b), name) == Some(if b { "true"@ } else { "false"@ }),
        slot_after_set(SlotView::Empty, value) == SlotView::Empty,
        slot_after_set(SlotView::Other, value) == SlotView::Other,
{
}

/// A successful write reaches every field with the property's name: each takes
/// the value (as `law_slot_write_reads_back` says for each kind of field),
/// keeps its label and everything else, and every other field is unchanged.
pub proof fn law_write_reaches_every_field(ch: Seq<WidgetView>, prop: Seq<char>, value: Seq<char>)
    requires
        set_result(ch, prop) is Ok,
    ensures
        children_after_set(ch, prop, value).len() == ch.len(),
        forall|j: int|
            0 <= j < ch.len() && ch[j].label == prop ==> #[trigger] children_after_set(ch, prop, value)[j]
                == (WidgetView { slot: slot_after_set(ch[j].slot, value), ..ch[j] }),
        forall|j: int|
            0 <= j < ch.len() && ch[j].label != prop ==> #[trigger] children_after_set(ch, prop, value)[j]
                == ch[j],
{
    let bl = blocks(ch, prop);
    if exists|k: int| 0 <= k < bl.len() && bl[k] == true {
        let k: int = choose|k: int| 0 <= k < bl.len() && bl[k] == true;
        lemma_first_index_found(bl, true, k);
    }
    assert(set_stop(ch, prop) == ch.len());
}

/// A write to a property whose first field without value comes at position
/// `k` fails with `FailedToChangeData`: the fields named so before `k` take
/// the value, and the fields from `k` on are unchanged.
pub proof fn law_write_stops_at_field_without_value(
    ch: Seq<WidgetView>,
    prop: Seq<char>,
    value: Seq<char>,
    k: int,
)
    requires
        0 <= k < ch.len(),
        ch[k].label == prop,
        ch[k].slot is Empty,
        forall|j: int| 0 <= j < k ==> !(ch[j].label == prop && ch[j].slot is Empty),
    ensures
        set_result(ch, prop) == Err::<(), FltkFormError>(
            FltkFormError::Internal(FltkFormErrorKind::FailedToChangeData),
        ),
        forall|j: int|
            0 <= j < k && ch[j].label == prop ==> #[trigger] children_after_set(ch, prop, value)[j]
                == (WidgetView { slot: slot_after_set(ch[j].slot, value), ..ch[j] }),
        forall|j: int| k <= j < ch.len() ==> #[trigger] children_after_set(ch, prop, value)[j] == ch[j],
{
    let bl = blocks(ch, prop);
    assert(is_first(bl, true, k));
    lemma_first_index_is(bl, true, k);
}

} // verus!
