use vstd::prelude::*;
use crate::base::{DeftError, IdSource};
use crate::text::str_eq;
use crate::style::parsed_styles::{ParsedStyles, style_props};
use crate::style::prop::{DeclaredValue, FixedStyleProp, ResolvedStyleProp, to_unresolved_all, unresolved_all};
use crate::style::key::StylePropKey;
use crate::ui::checkbox::{box_path, check_tree, has_check_tree, image_path, label_path, lemma_box_valid, lemma_paths, lemma_tree_kept};
use crate::ui::element::{
    Container, Element, ElementEvent, ElementWeak, changed_at, lemma_changed_at_weaken, marked_dirty,
    props_appended, style_appended, valid_path,
};
use crate::ui::image::Image;
use crate::ui::label::{Label, LabelDelegate, label_text_update};
use crate::style::parsed_styles::style_of;

verus! {

/// The event a radio group dispatches when its choice changes.
pub struct ChangeEvent {}

/// The style that shows (`display:flex`) or hides (`display:none`) the
/// check mark of a radio button.
pub open spec fn check_mark_style(checked: bool) -> Seq<(StylePropKey, DeclaredValue)> {
    if checked {
        style_props("display:flex"@)
    } else {
        style_props("display:none"@)
    }
}

/// The state of one radio button. Its box, check mark image and label
/// stand in the tree of the radio's element (see `image_path`, `box_path`,
/// `label_path`); a radio group keeps a record of the state of each of its
/// radios.
pub struct RadioDelegate {
    pub element: ElementWeak,
    pub checked: bool,
    /// Whether the radio belongs to a radio group.
    pub grouped: bool,
}

/// The identity of a radio: the element it belongs to.
pub open spec fn radio_id(r: RadioDelegate) -> u32 {
    r.element.id
}

/// What setting a radio's own checked state to `c` does to that state: it
/// takes `c`, and nothing else changes.
pub open spec fn self_checked_update(before: RadioDelegate, after: RadioDelegate, c: bool) -> bool {
    after == (RadioDelegate { checked: c, ..before })
}

/// The same radio, with checked state `c`.
pub open spec fn checked_update(before: RadioDelegate, after: RadioDelegate, c: bool) -> bool {
    &&& after.element.id == before.element.id
    &&& after.checked == c
}

/// What a change of a radio's checked state does to the tree of its element:
/// where the state changed, a style that shows (checked `c`) or hides the
/// check mark is appended to its image; else the tree stays as it was.
pub open spec fn check_mark_shown(o: Element, n: Element, changed: bool, c: bool) -> bool {
    if changed {
        changed_at(o, n, image_path(), |a: Element, b: Element| props_appended(a, b, check_mark_style(c)))
    } else {
        n == o
    }
}

/// Whether the group's list holds the radio `id`.
pub open spec fn in_group(list: Seq<RadioDelegate>, id: u32) -> bool {
    exists|k: int| 0 <= k < list.len() && radio_id(#[trigger] list[k]) == id
}

/// What checking (`checked`) or unchecking radio `before` does to it and to
/// the records of the group it belongs to (where `before.grouped`):
/// checking it checks its record, unchecks every other radio of the group and
/// checks the radio itself (which stays as it is where the group keeps no
/// record of it); unchecking it unchecks the radio and its record alone.
/// A radio of no group changes alone.
pub open spec fn radio_set(
    before: RadioDelegate,
    after: RadioDelegate,
    gb: Seq<RadioDelegate>,
    ga: Seq<RadioDelegate>,
    checked: bool,
) -> bool {
    if before.grouped {
        &&& ga.len() == gb.len()
        &&& forall|i: int|
            0 <= i < gb.len() ==> self_checked_update(
                #[trigger] gb[i],
                ga[i],
                group_target(gb[i], radio_id(before), checked),
            )
        &&& if checked && !in_group(gb, radio_id(before)) {
            after == before
        } else {
            self_checked_update(before, after, checked)
        }
    } else {
        &&& self_checked_update(before, after, checked)
        &&& ga == gb
    }
}

/// What `update_checked` does: nothing where the radio already has the
/// state `checked`; else it is set as `radio_set` says and a change event
/// goes to the radio's element.
pub open spec fn checked_set(
    before: RadioDelegate,
    after: RadioDelegate,
    gb: Seq<RadioDelegate>,
    ga: Seq<RadioDelegate>,
    checked: bool,
) -> bool {
    if before.checked == checked {
        after == before && ga == gb
    } else {
        &&& after.element.id == before.element.id
        &&& after.element.emitted@ == before.element.emitted@.push(ElementEvent::Change)
        &&& radio_set(before, (RadioDelegate { element: before.element, ..after }), gb, ga, checked)
    }
}

impl RadioDelegate {
    /// An unchecked radio that belongs to no group.
    pub fn new(element: ElementWeak) -> (r: Self)
        ensures
            !r.checked,
            !r.grouped,
            r.element == element,
    {
        RadioDelegate { element, checked: false, grouped: false }
    }

    /// The record of a radio kept by its group takes the checked state `c`.
    fn mark_checked(&mut self, c: bool)
        ensures
            self_checked_update(*old(self), *final(self), c),
    {
        self.checked = c;
    }

    /// Checks or unchecks the radio, whose element's tree is `el`; `group`
    /// is the group it belongs to where it belongs to one, whose record of the
    /// radio follows. Checking a radio of a group unchecks every other radio
    /// of the group (see `radio_set`).
    pub fn set_checked(&mut self, checked: bool, group: &mut RadioGroupDelegate, el: &mut Element)
        requires
            check_tree(*old(el)),
        ensures
            check_tree(*final(el)),
            radio_set(
                *old(self),
                *final(self),
                old(group).radio_list@,
                final(group).radio_list@,
                checked,
            ),
            check_mark_shown(*old(el), *final(el), old(self).checked != final(self).checked, final(self).checked),
            checked && old(self).grouped ==> at_most_one_checked(final(group).radio_list@),
    {
        if checked && self.grouped {
            let member = group.holds(self.element.id);
            group.set_checked(self.element.id, true);
            if member {
                self.update_self_checked(true, el);
            }
        } else {
            if self.grouped {
                group.set_checked(self.element.id, false);
            }
            self.update_self_checked(checked, el);
        }
    }

    /// Sets the radio's own checked state; where it changed, shows or hides
    /// the check mark in the tree `el` of its element.
    pub fn update_self_checked(&mut self, new_checked: bool, el: &mut Element)
        requires
            check_tree(*old(el)),
        ensures
            check_tree(*final(el)),
            self_checked_update(*old(self), *final(self), new_checked),
            check_mark_shown(*old(el), *final(el), old(self).checked != new_checked, new_checked),
    {
        if self.checked != new_checked {
            self.checked = new_checked;
            self.update_children(el);
        }
    }

    /// Shows the check mark when checked, hides it otherwise: a style
    /// appended to the image of the tree `el` of the radio's element.
    pub fn update_children(&self, el: &mut Element)
        requires
            check_tree(*old(el)),
        ensures
            check_tree(*final(el)),
            changed_at(*old(el), *final(el), image_path(), |o: Element, n: Element|
                props_appended(o, n, check_mark_style(self.checked))),
    {
        let style = display_style(self.checked);
        let path: [usize; 3] = [0, 0, 0];
        proof {
            assert(path@ =~= image_path());
            assert(path@.skip(0) =~= image_path());
        }
        el.append_style_at(&path, 0, style);
        proof {
            let f = |o: Element, n: Element| style_appended(o, n, style);
            let g = |o: Element, n: Element| props_appended(o, n, check_mark_style(self.checked));
            assert forall|o: Element, n: Element| #[trigger] f(o, n) implies g(o, n) by {
                assert(n.appended_styles@.drop_last() =~= o.appended_styles@);
            }
            lemma_changed_at_weaken(*old(el), *el, image_path(), f, g);
            lemma_tree_kept(*old(el), *el, image_path(), f);
        }
    }

    /// Sets the checked state as `set_checked` does and, when it changed,
    /// dispatches a change event.
    pub fn update_checked(&mut self, checked: bool, group: &mut RadioGroupDelegate, el: &mut Element) -> (r: Result<(), DeftError>)
        requires
            check_tree(*old(el)),
        ensures
            r is Ok,
            check_tree(*final(el)),
            checked_set(*old(self), *final(self), old(group).radio_list@, final(group).radio_list@, checked),
            check_mark_shown(*old(el), *final(el), old(self).checked != final(self).checked, final(self).checked),
    {
        if self.checked != checked {
            self.set_checked(checked, group, el);
            self.element.emit(ElementEvent::Change);
        }
        Ok(())
    }

    /// Takes the styles given to the `box` pseudo element, where there are
    /// any, onto the box of the tree `el` of the radio's element.
    pub fn accept_pseudo_element_styles(&self, box_styles: Option<Vec<ResolvedStyleProp>>, el: &mut Element)
        requires
            check_tree(*old(el)),
        ensures
            check_tree(*final(el)),
            box_styles is None ==> *final(el) == *old(el),
            box_styles matches Some(s) ==> changed_at(*old(el), *final(el), box_path(), |o: Element, n: Element|
                props_appended(o, n, unresolved_all(s@).map_values(|p: FixedStyleProp| p@))),
    {
        if let Some(styles) = box_styles {
            let fixed = to_unresolved_all(&styles);
            let style = ParsedStyles::from_fixed(fixed);
            let path: [usize; 2] = [0, 0];
            proof {
                assert(path@ =~= box_path());
                assert(path@.skip(0) =~= box_path());
                lemma_box_valid(*old(el));
            }
            el.append_style_at(&path, 0, style);
            proof {
                let f = |o: Element, n: Element| style_appended(o, n, style);
                let g = |o: Element, n: Element| props_appended(o, n, unresolved_all(styles@).map_values(|p: FixedStyleProp| p@));
                assert forall|o: Element, n: Element| #[trigger] f(o, n) implies g(o, n) by {
                    assert(n.appended_styles@.drop_last() =~= o.appended_styles@);
                }
                lemma_changed_at_weaken(*old(el), *el, box_path(), f, g);
                lemma_tree_kept(*old(el), *el, box_path(), f);
            }
        }
    }

    /// Follows a change of an attribute of the element: the `checked`
    /// attribute checks the radio when present and unchecks it when removed
    /// (as `update_checked` does, `group` being the group it belongs to and
    /// `el` the tree of its element); other attributes change nothing.
    pub fn on_attribute_changed(
        &mut self,
        key: &str,
        value: Option<&str>,
        group: &mut RadioGroupDelegate,
        el: &mut Element,
    )
        requires
            check_tree(*old(el)),
        ensures
            check_tree(*final(el)),
            key@ == "checked"@ ==> checked_set(
                *old(self),
                *final(self),
                old(group).radio_list@,
                final(group).radio_list@,
                value is Some,
            ) && check_mark_shown(*old(el), *final(el), old(self).checked != final(self).checked, final(self).checked),
            key@ != "checked"@ ==> *final(self) == *old(self) && *final(group) == *old(group) && *final(el) == *old(el),
    {
        if str_eq(key, "checked") {
            let _ = self.update_checked(value.is_some(), group, el);
        }
    }
}

/// The style that shows or hides a check mark.
pub(crate) fn display_style(show: bool) -> (r: ParsedStyles)
    ensures
        r@ == check_mark_style(show),
{
    if show {
        style_of("display:flex")
    } else {
        style_of("display:none")
    }
}

/// Whether at most one radio of the list is checked: every checked radio
/// is the same radio.
pub open spec fn at_most_one_checked(list: Seq<RadioDelegate>) -> bool {
    forall|i: int, j: int|
        0 <= i < list.len() && 0 <= j < list.len() && (#[trigger] list[i]).checked
            && (#[trigger] list[j]).checked ==> radio_id(list[i]) == radio_id(list[j])
}

/// Which elements hold radios, and what changed below an element.
#[derive(Clone, Copy, Debug, PartialEq, Eq)]
pub enum DescendantsChangeType {
    Attached,
    Removed,
}

/// The radios of a group, which lets at most one of them be checked.
pub struct RadioGroupDelegate {
    pub radio_list: Vec<RadioDelegate>,
}

/// The radios below an element, in document order; the search stops at an
/// element that holds a radio.
pub open spec fn radios_in(e: Element) -> Seq<RadioDelegate>
    decreases e,
{
    match e.radio {
        Some(r) => seq![*r],
        None => radios_in_list(e.children@),
    }
}

pub open spec fn radios_in_list(cs: Seq<Element>) -> Seq<RadioDelegate>
    decreases cs,
{
    if cs.len() == 0 {
        Seq::empty()
    } else {
        radios_in_list(cs.drop_last()) + radios_in(cs.last())
    }
}

pub open spec fn radio_ids(rs: Seq<RadioDelegate>) -> Seq<u32> {
    rs.map_values(|r: RadioDelegate| radio_id(r))
}

/// What the group's record of a radio that joins it holds: the radio, as
/// belonging to the group, checked only when it was and no radio before it
/// in the group is.
pub open spec fn joined(before: RadioDelegate, after: RadioDelegate, others_checked: bool) -> bool {
    &&& after.grouped
    &&& after.element.id == before.element.id
    &&& after.element.emitted@ == before.element.emitted@
    &&& after.checked == (before.checked && !others_checked)
}

/// A record of a radio's state: the same radio, the same events
/// dispatched to it, the same state.
pub open spec fn same_record(a: RadioDelegate, b: RadioDelegate) -> bool {
    &&& a.element.id == b.element.id
    &&& a.element.emitted@ == b.element.emitted@
    &&& a.checked == b.checked
    &&& a.grouped == b.grouped
}

/// What the element `o` of a radio becomes when the radio joins a group: its
/// state belongs to the group and is unchecked or as it was; where it was
/// unchecked and the tree holds the check mark, the mark is hidden.
pub open spec fn radio_el_joined(o: Element, n: Element) -> bool {
    match (o.radio, n.radio) {
        (Some(r), Some(nr)) => {
            &&& *nr == (RadioDelegate { grouped: true, checked: nr.checked, ..*r })
            &&& nr.checked ==> r.checked
            &&& if check_tree(o) {
                check_mark_shown(without_state(o), without_state(n), r.checked != nr.checked, nr.checked)
            } else {
                without_state(n) == without_state(o)
            }
        },
        _ => false,
    }
}

/// `n` is `o` with every radio below it (the search stops at an element that
/// holds a radio) taken into a group, and nothing else changed.
pub open spec fn tree_joined(o: Element, n: Element) -> bool
    decreases o,
{
    match o.radio {
        Some(_) => radio_el_joined(o, n),
        None => {
            &&& n == (Element { children: n.children, ..o })
            &&& tree_joined_list(o.children@, n.children@)
        },
    }
}

pub open spec fn tree_joined_list(os: Seq<Element>, ns: Seq<Element>) -> bool
    decreases os,
{
    &&& ns.len() == os.len()
    &&& os.len() > 0 ==> tree_joined_list(os.drop_last(), ns.drop_last()) && tree_joined(
        os.last(),
        ns.last(),
    )
}

/// `n` is `o` with every radio below it (the search stops at an element that
/// holds a radio) no longer belonging to a group, and nothing else changed.
pub open spec fn tree_left(o: Element, n: Element) -> bool
    decreases o,
{
    match o.radio {
        Some(r) => n == (Element {
            radio: Some(Box::new(RadioDelegate { grouped: false, ..*r })),
            ..o
        }),
        None => {
            &&& n == (Element { children: n.children, ..o })
            &&& tree_left_list(o.children@, n.children@)
        },
    }
}

pub open spec fn tree_left_list(os: Seq<Element>, ns: Seq<Element>) -> bool
    decreases os,
{
    &&& ns.len() == os.len()
    &&& os.len() > 0 ==> tree_left_list(os.drop_last(), ns.drop_last()) && tree_left(
        os.last(),
        ns.last(),
    )
}

pub open spec fn not_in(ids: Seq<u32>, r: RadioDelegate) -> bool {
    !ids.contains(radio_id(r))
}

/// What setting the checked state of the group's radio `id`, found at
/// position `i`, does: nothing when it already has that state; else the
/// group is set as `set_checked` does, and a change event goes to that radio.
pub open spec fn group_changed_at(o: Seq<RadioDelegate>, f: Seq<RadioDelegate>, i: int, id: u32, checked: bool) -> bool {
    if o[i].checked == checked {
        f == o
    } else {
        &&& f.len() == o.len()
        &&& forall|k: int|
            0 <= k < o.len() ==> checked_update(
                #[trigger] o[k],
                f[k],
                group_target(o[k], id, checked),
            ) && f[k].grouped == o[k].grouped
        &&& forall|k: int| 0 <= k < o.len() && k != i ==> (#[trigger] f[k]).element == o[k].element
        &&& f[i].element.emitted@ == o[i].element.emitted@.push(ElementEvent::Change)
    }
}

/// Makes every radio below `e` (the search stops at an element that holds
/// a radio) belong to no group, and appends their ids to `out`, in document
/// order.
fn leave_all(e: &mut Element, out: &mut Vec<u32>)
    ensures
        final(out)@ == old(out)@ + radio_ids(radios_in(*old(e))),
        tree_left(*old(e), *final(e)),
    decreases *old(e),
{
    if e.radio.is_some() {
        let b = e.radio.take().unwrap();
        let mut st = *b;
        out.push(st.element.id);
        st.grouped = false;
        e.radio = Some(Box::new(st));
        proof {
            assert(radios_in(*old(e)) =~= seq![*old(e).radio.unwrap()]);
            assert(radio_ids(radios_in(*old(e))) =~= seq![radio_id(*old(e).radio.unwrap())]);
        }
    } else {
        let mut cs: Vec<Element> = Vec::new();
        std::mem::swap(&mut cs, &mut e.children);
        let ghost all = cs@;
        let ghost start = out@;
        let mut done: Vec<Element> = Vec::new();
        let mut k: usize = 0;
        proof {
            assert(all.len() == cs.len());
            assert(all.take(0) =~= Seq::<Element>::empty());
            assert(done@ =~= Seq::<Element>::empty());
            assert(radio_ids(radios_in_list(all.take(0))) =~= Seq::<u32>::empty());
            assert(out@ =~= start + radio_ids(radios_in_list(all.take(0))));
        }
        #[verifier::loop_isolation(false)]
        while cs.len() > 0
            invariant
                all == old(e).children@,
                all.len() <= usize::MAX,
                old(e).radio is None,
                *e == (Element { children: e.children, ..*old(e) }),
                k <= all.len(),
                cs@ == all.skip(k as int),
                done@.len() == k,
                tree_left_list(all.take(k as int), done@),
                out@ == start + radio_ids(radios_in_list(all.take(k as int))),
            decreases cs@.len(),
        {
            let mut c = cs.remove(0);
            let ghost c0 = c;
            proof {
                assert(c == all[k as int]);
                assert(decreases_to!(*old(e) => old(e).children));
                assert(decreases_to!(old(e).children => old(e).children@));
                assert(decreases_to!(old(e).children@ => old(e).children@[k as int]));
                assert(decreases_to!(*old(e) => c0));
            }
            let ghost done0 = done@;
            leave_all(&mut c, out);
            done.push(c);
            proof {
                assert(all.take(k + 1).drop_last() =~= all.take(k as int));
                assert(all.take(k + 1).last() == c0);
                assert(done@.drop_last() =~= done0);
                assert(done@.last() == c);
                assert(radio_ids(radios_in_list(all.take(k + 1))) =~= radio_ids(
                    radios_in_list(all.take(k as int)),
                ) + radio_ids(radios_in(c0)));
                assert(out@ =~= start + radio_ids(radios_in_list(all.take(k + 1))));
                assert(cs@ =~= all.skip(k + 1));
            }
            k = k + 1;
        }
        e.children = done;
        proof {
            assert(all.take(k as int) =~= all);
        }
    }
}

/// Radios that joined a group checked only when no radio before them was
/// leave at most one radio of the group checked.
proof fn lemma_join_keeps_one_checked(o: Seq<RadioDelegate>, f: Seq<RadioDelegate>, rs: Seq<RadioDelegate>)
    requires
        f.len() == o.len() + rs.len(),
        f.take(o.len() as int) == o,
        forall|j: int|
            0 <= j < rs.len() ==> joined(
                #[trigger] rs[j],
                f[o.len() + j],
                any_checked(f.take(o.len() + j)),
            ),
    ensures
        at_most_one_checked(o) ==> at_most_one_checked(f),
{
    if at_most_one_checked(o) {
        assert forall|a: int, b: int|
            0 <= a < f.len() && 0 <= b < f.len() && (#[trigger] f[a]).checked && (#[trigger] f[b]).checked
            implies radio_id(f[a]) == radio_id(f[b]) by {
            if a != b {
                let hi = if a < b { b } else { a };
                let lo = if a < b { a } else { b };
                if hi >= o.len() {
                    let j = hi - o.len();
                    assert(joined(rs[j], f[o.len() + j], any_checked(f.take(o.len() + j))));
                    assert(f.take(hi)[lo] == f[lo]);
                    assert(any_checked(f.take(hi)));
                    assert(false);
                } else {
                    assert(f[a] == o[a]);
                    assert(f[b] == o[b]);
                }
            }
        }
    }
}

/// Leaving radios out of a group keeps at most one of them checked.
proof fn lemma_filter_keeps_one_checked(o: Seq<RadioDelegate>, keep: spec_fn(RadioDelegate) -> bool)
    ensures
        at_most_one_checked(o) ==> at_most_one_checked(o.filter(keep)),
{
    let f = o.filter(keep);
    if at_most_one_checked(o) {
        assert forall|a: int, b: int|
            0 <= a < f.len() && 0 <= b < f.len() && (#[trigger] f[a]).checked && (#[trigger] f[b]).checked
            implies radio_id(f[a]) == radio_id(f[b]) by {
            assert(f.contains(f[a]));
            assert(f.contains(f[b]));
            o.lemma_filter_contains_rev(keep, f[a]);
            o.lemma_filter_contains_rev(keep, f[b]);
            let ia = choose|i: int| 0 <= i < o.len() && o[i] == f[a];
            let ib = choose|i: int| 0 <= i < o.len() && o[i] == f[b];
            assert(o[ia].checked && o[ib].checked);
        }
    }
}

/// The position of the first radio of the list with the given id.
pub open spec fn first_with_id(list: Seq<RadioDelegate>, id: u32) -> Option<int> {
    if exists|i: int| 0 <= i < list.len() && radio_id(list[i]) == id && (forall|k: int|
        0 <= k < i ==> radio_id(#[trigger] list[k]) != id) {
        Some(
            choose|i: int|
                0 <= i < list.len() && radio_id(list[i]) == id && (forall|k: int|
                    0 <= k < i ==> radio_id(#[trigger] list[k]) != id),
        )
    } else {
        None
    }
}

proof fn lemma_first_with_id(list: Seq<RadioDelegate>, id: u32, i: int)
    requires
        0 <= i < list.len(),
        radio_id(list[i]) == id,
        forall|k: int| 0 <= k < i ==> radio_id(#[trigger] list[k]) != id,
    ensures
        first_with_id(list, id) == Some(i),
{
    let j = choose|j: int|
        0 <= j < list.len() && radio_id(list[j]) == id && (forall|k: int|
            0 <= k < j ==> radio_id(#[trigger] list[k]) != id);
    if j < i {
        assert(radio_id(list[j]) != id);
    } else if i < j {
        assert(radio_id(list[i]) != id);
    }
}

proof fn lemma_first_with_id_none(list: Seq<RadioDelegate>, id: u32)
    requires
        forall|k: int| 0 <= k < list.len() ==> radio_id(#[trigger] list[k]) != id,
    ensures
        first_with_id(list, id) is None,
{
}

/// What checking `id` (when `checked`) or unchecking it makes of radio `r`:
/// checking a radio unchecks all the others; unchecking touches only it.
pub open spec fn group_target(r: RadioDelegate, id: u32, checked: bool) -> bool {
    if checked {
        radio_id(r) == id
    } else if radio_id(r) == id {
        false
    } else {
        r.checked
    }
}

pub open spec fn any_checked(list: Seq<RadioDelegate>) -> bool {
    exists|i: int| 0 <= i < list.len() && (#[trigger] list[i]).checked
}

impl RadioGroupDelegate {
    /// Whether the group holds the radio `id`.
    fn holds(&self, id: u32) -> (r: bool)
        ensures
            r == in_group(self.radio_list@, id),
    {
        let n = self.radio_list.len();
        let mut i: usize = 0;
        while i < n
            invariant
                n == self.radio_list@.len(),
                i <= n,
                forall|k: int| 0 <= k < i ==> radio_id(#[trigger] self.radio_list@[k]) != id,
            decreases n - i,
        {
            if self.radio_list[i].element.id == id {
                return true;
            }
            i = i + 1;
        }
        false
    }

    /// Whether some radio of the group is checked.
    fn has_checked(&self) -> (r: bool)
        ensures
            r == any_checked(self.radio_list@),
    {
        let n = self.radio_list.len();
        let mut i: usize = 0;
        while i < n
            invariant
                n == self.radio_list@.len(),
                i <= n,
                forall|k: int| 0 <= k < i ==> !(#[trigger] self.radio_list@[k]).checked,
            decreases n - i,
        {
            if self.radio_list[i].checked {
                return true;
            }
            i = i + 1;
        }
        false
    }

    /// Takes the radio of the element `e` into the group: it belongs to the
    /// group, it is unchecked where the group already has a checked radio
    /// (which hides its check mark), and the group keeps a record of it.
    fn join(&mut self, e: &mut Element)
        requires
            old(e).radio is Some,
        ensures
            final(self).radio_list@.len() == old(self).radio_list@.len() + 1,
            final(self).radio_list@.drop_last() == old(self).radio_list@,
            joined(
                *old(e).radio.unwrap(),
                final(self).radio_list@.last(),
                any_checked(old(self).radio_list@),
            ),
            radio_el_joined(*old(e), *final(e)),
            final(e).radio is Some,
            same_record(*final(e).radio.unwrap(), final(self).radio_list@.last()),
    {
        let has_checked = self.has_checked();
        let shaped = has_check_tree(e);
        let b = e.radio.take().unwrap();
        let mut st = *b;
        let ghost bare = *e;
        proof {
            assert(bare == without_state(*old(e)));
            lemma_tree_of_children(*old(e), bare);
        }
        if has_checked && st.checked {
            if shaped {
                st.update_self_checked(false, e);
            } else {
                st.mark_checked(false);
            }
        }
        let ghost updated = *e;
        st.grouped = true;
        let record = RadioDelegate { element: st.element.duplicate(), checked: st.checked, grouped: true };
        self.radio_list.push(record);
        e.radio = Some(Box::new(st));
        proof {
            assert(self.radio_list@.drop_last() =~= old(self).radio_list@);
            assert(without_state(*e) == updated);
        }
    }

    /// Takes into the group, in document order, every radio below `e` (the
    /// search stops at an element that holds a radio), as `join` does.
    fn join_all(&mut self, e: &mut Element)
        ensures
            final(self).radio_list@.len() == old(self).radio_list@.len() + radios_in(*old(e)).len(),
            final(self).radio_list@.take(old(self).radio_list@.len() as int) == old(self).radio_list@,
            forall|j: int|
                0 <= j < radios_in(*old(e)).len() ==> joined(
                    #[trigger] radios_in(*old(e))[j],
                    final(self).radio_list@[old(self).radio_list@.len() + j],
                    any_checked(final(self).radio_list@.take(old(self).radio_list@.len() + j)),
                ),
            radios_in(*final(e)).len() == radios_in(*old(e)).len(),
            forall|j: int|
                0 <= j < radios_in(*final(e)).len() ==> same_record(
                    #[trigger] radios_in(*final(e))[j],
                    final(self).radio_list@[old(self).radio_list@.len() + j],
                ),
            tree_joined(*old(e), *final(e)),
        decreases *old(e),
    {
        if e.radio.is_some() {
            self.join(e);
            proof {
                assert(radios_in(*old(e)) =~= seq![*old(e).radio.unwrap()]);
                assert(radios_in(*e) =~= seq![*e.radio.unwrap()]);
                assert(self.radio_list@.take(old(self).radio_list@.len() as int)
                    =~= self.radio_list@.drop_last());
            }
        } else {
            let mut cs: Vec<Element> = Vec::new();
            std::mem::swap(&mut cs, &mut e.children);
            let ghost all = cs@;
            let ghost start = self.radio_list@.len();
            let mut done: Vec<Element> = Vec::new();
            let mut k: usize = 0;
            proof {
                assert(all.len() == cs.len());
                assert(all.take(0) =~= Seq::<Element>::empty());
                assert(done@ =~= Seq::<Element>::empty());
                assert(self.radio_list@.take(start as int) =~= old(self).radio_list@);
            }
            #[verifier::loop_isolation(false)]
            while cs.len() > 0
                invariant
                    all == old(e).children@,
                    all.len() <= usize::MAX,
                    old(e).radio is None,
                    *e == (Element { children: e.children, ..*old(e) }),
                    k <= all.len(),
                    cs@ == all.skip(k as int),
                    done@.len() == k,
                    tree_joined_list(all.take(k as int), done@),
                    start == old(self).radio_list@.len(),
                    self.radio_list@.len() == start + radios_in_list(all.take(k as int)).len(),
                    self.radio_list@.take(start as int) == old(self).radio_list@,
                    forall|j: int|
                        0 <= j < radios_in_list(all.take(k as int)).len() ==> joined(
                            #[trigger] radios_in_list(all.take(k as int))[j],
                            self.radio_list@[start + j],
                            any_checked(self.radio_list@.take(start + j)),
                        ),
                    radios_in_list(done@).len() == radios_in_list(all.take(k as int)).len(),
                    forall|j: int|
                        0 <= j < radios_in_list(done@).len() ==> same_record(
                            #[trigger] radios_in_list(done@)[j],
                            self.radio_list@[start + j],
                        ),
                decreases cs@.len(),
            {
                let mut c = cs.remove(0);
                let ghost c0 = c;
                proof {
                    assert(c == all[k as int]);
                    assert(decreases_to!(*old(e) => old(e).children));
                    assert(decreases_to!(old(e).children => old(e).children@));
                    assert(decreases_to!(old(e).children@ => old(e).children@[k as int]));
                    assert(decreases_to!(*old(e) => c0));
                }
                let ghost before = self.radio_list@;
                let ghost done_r = radios_in_list(all.take(k as int));
                let ghost done_n = radios_in_list(done@);
                let ghost done0 = done@;
                self.join_all(&mut c);
                done.push(c);
                proof {
                    assert(all.take(k + 1).drop_last() =~= all.take(k as int));
                    assert(all.take(k + 1).last() == c0);
                    assert(done@.drop_last() =~= done0);
                    assert(done@.last() == c);
                    let now_r = radios_in_list(all.take(k + 1));
                    let now_n = radios_in_list(done@);
                    assert(now_r =~= done_r + radios_in(c0));
                    assert(now_n =~= done_n + radios_in(c));
                    assert(self.radio_list@.take(start as int) =~= before.take(start as int));
                    assert forall|j: int| 0 <= j < now_r.len() implies joined(
                        #[trigger] now_r[j],
                        self.radio_list@[start + j],
                        any_checked(self.radio_list@.take(start + j)),
                    ) by {
                        if j < done_r.len() {
                            assert(self.radio_list@[start + j] == before[start + j]);
                            assert(self.radio_list@.take(start + j) =~= before.take(start + j));
                        } else {
                            assert(now_r[j] == radios_in(c0)[j - done_r.len()]);
                        }
                    }
                    assert forall|j: int| 0 <= j < now_n.len() implies same_record(
                        #[trigger] now_n[j],
                        self.radio_list@[start + j],
                    ) by {
                        if j < done_n.len() {
                            assert(self.radio_list@[start + j] == before[start + j]);
                        } else {
                            assert(now_n[j] == radios_in(c)[j - done_n.len()]);
                        }
                    }
                    assert(cs@ =~= all.skip(k + 1));
                }
                k = k + 1;
            }
            e.children = done;
            proof {
                assert(all.take(k as int) =~= all);
                assert(radios_in(*old(e)) == radios_in_list(all));
                assert(radios_in(*e) == radios_in_list(e.children@));
            }
        }
    }

    pub fn new() -> (r: Self)
        ensures
            r.radio_list@.len() == 0,
    {
        RadioGroupDelegate { radio_list: Vec::new() }
    }

    /// Updates the group for a change below one of its elements: radios
    /// attached below `element` join the group (a checked one is unchecked
    /// when the group already has a checked radio), and the group keeps a
    /// record of each; radios removed with `element` leave the group and no
    /// longer belong to one.
    pub fn search_radio_recursively(&mut self, element: &mut Element, ty: DescendantsChangeType)
        ensures
            ty == DescendantsChangeType::Attached ==> {
                &&& final(self).radio_list@.len() == old(self).radio_list@.len() + radios_in(
                    *old(element),
                ).len()
                &&& final(self).radio_list@.take(old(self).radio_list@.len() as int) == old(
                    self,
                ).radio_list@
                &&& forall|j: int|
                    0 <= j < radios_in(*old(element)).len() ==> joined(
                        #[trigger] radios_in(*old(element))[j],
                        final(self).radio_list@[old(self).radio_list@.len() + j],
                        any_checked(final(self).radio_list@.take(old(self).radio_list@.len() + j)),
                    )
                &&& radios_in(*final(element)).len() == radios_in(*old(element)).len()
                &&& forall|j: int|
                    0 <= j < radios_in(*final(element)).len() ==> same_record(
                        #[trigger] radios_in(*final(element))[j],
                        final(self).radio_list@[old(self).radio_list@.len() + j],
                    )
                &&& tree_joined(*old(element), *final(element))
            },
            ty == DescendantsChangeType::Removed ==> {
                &&& final(self).radio_list@ == old(self).radio_list@.filter(
                    |r: RadioDelegate| not_in(radio_ids(radios_in(*old(element))), r),
                )
                &&& forall|k: int|
                    0 <= k < final(self).radio_list@.len() ==> not_in(
                        radio_ids(radios_in(*old(element))),
                        #[trigger] final(self).radio_list@[k],
                    )
                &&& tree_left(*old(element), *final(element))
            },
            at_most_one_checked(old(self).radio_list@) ==> at_most_one_checked(
                final(self).radio_list@,
            ),
    {
        match ty {
            DescendantsChangeType::Attached => {
                let ghost rs = radios_in(*element);
                self.join_all(element);
                proof {
                    lemma_join_keeps_one_checked(old(self).radio_list@, self.radio_list@, rs);
                }
            },
            DescendantsChangeType::Removed => {
                let ghost rs = radios_in(*element);
                let mut ids: Vec<u32> = Vec::new();
                leave_all(element, &mut ids);
                proof {
                    assert(ids@ =~= radio_ids(rs));
                }
                self.leave(&ids);
                proof {
                    let keep = |r: RadioDelegate| not_in(ids@, r);
                    lemma_filter_keeps_one_checked(old(self).radio_list@, keep);
                    let f = self.radio_list@;
                    assert forall|k: int| 0 <= k < f.len() implies not_in(ids@, #[trigger] f[k]) by {
                        assert(f.contains(f[k]));
                        old(self).radio_list@.lemma_filter_contains_rev(keep, f[k]);
                    }
                }
            },
        }
    }

    /// Leaves out of the group every radio whose id is in `ids`.
    fn leave(&mut self, ids: &Vec<u32>)
        ensures
            final(self).radio_list@ == old(self).radio_list@.filter(
                |r: RadioDelegate| not_in(ids@, r),
            ),
    {
        let mut rest: Vec<RadioDelegate> = Vec::new();
        proof {
            assert(old(self).radio_list@.len() == old(self).radio_list.len());
        }
        std::mem::swap(&mut rest, &mut self.radio_list);
        let ghost all = rest@;
        let ghost keep = |r: RadioDelegate| not_in(ids@, r);
        let mut k: usize = 0;
        proof {
            reveal(Seq::filter);
            assert(all.take(0) =~= Seq::<RadioDelegate>::empty());
            assert(rest@ =~= all.skip(0));
        }
        while rest.len() > 0
            invariant
                all == old(self).radio_list@,
                all.len() <= usize::MAX,
                keep == (|r: RadioDelegate| not_in(ids@, r)),
                k <= all.len(),
                rest@ == all.skip(k as int),
                self.radio_list@ == all.take(k as int).filter(keep),
            decreases rest@.len(),
        {
            let r = rest.remove(0);
            proof {
                assert(r == all[k as int]);
                reveal(Seq::filter);
                assert(all.take(k + 1).drop_last() =~= all.take(k as int));
                assert(all.take(k + 1).last() == r);
                assert(rest@ =~= all.skip(k + 1));
            }
            let id = r.element.id;
            let mut found = false;
            let m = ids.len();
            let mut i: usize = 0;
            while i < m
                invariant
                    m == ids@.len(),
                    i <= m,
                    found == (exists|j: int| 0 <= j < i && ids@[j] == id),
                decreases m - i,
            {
                if ids[i] == id {
                    found = true;
                }
                i = i + 1;
            }
            proof {
                if found {
                    let j = choose|j: int| 0 <= j < m && ids@[j] == id;
                    assert(ids@.contains(id));
                } else {
                    assert(!ids@.contains(id));
                }
            }
            if !found {
                self.radio_list.push(r);
            }
            k = k + 1;
        }
        proof {
            assert(all.take(k as int) =~= all);
        }
    }

    /// Sets the checked state of the group's radio `id` and, when it
    /// changed, dispatches a change event to that radio's element.
    pub fn update_checked(&mut self, id: u32, checked: bool) -> (r: Result<(), DeftError>)
        ensures
            r is Ok,
            at_most_one_checked(old(self).radio_list@) ==> at_most_one_checked(
                final(self).radio_list@,
            ),
            final(self).radio_list@.len() == old(self).radio_list@.len(),
            first_with_id(old(self).radio_list@, id) is None ==> final(self).radio_list@ == old(
                self,
            ).radio_list@,
            forall|i: int|
                first_with_id(old(self).radio_list@, id) == Some(i) ==> #[trigger] group_changed_at(
                    old(self).radio_list@,
                    final(self).radio_list@,
                    i,
                    id,
                    checked,
                ),
    {
        let n = self.radio_list.len();
        let mut i: usize = 0;
        while i < n
            invariant
                n == self.radio_list@.len(),
                self.radio_list@ == old(self).radio_list@,
                i <= n,
                forall|k: int| 0 <= k < i ==> radio_id(#[trigger] self.radio_list@[k]) != id,
            decreases n - i,
        {
            if self.radio_list[i].element.id == id {
                proof {
                    assert(first_with_id(self.radio_list@, id) == Some(i as int)) by {
                        lemma_first_with_id(self.radio_list@, id, i as int);
                    }
                }
                if self.radio_list[i].checked != checked {
                    self.set_checked(id, checked);
                    let ghost mid = self.radio_list@;
                    self.radio_list[i].element.emit(ElementEvent::Change);
                    proof {
                        let o = old(self).radio_list@;
                        let f = self.radio_list@;
                        assert(f == mid.update(i as int, f[i as int]));
                        assert forall|k: int| 0 <= k < o.len() implies checked_update(
                            #[trigger] o[k],
                            f[k],
                            group_target(o[k], id, checked),
                        ) && f[k].grouped == o[k].grouped by {
                            assert(self_checked_update(o[k], mid[k], group_target(o[k], id, checked)));
                        }
                        assert(at_most_one_checked(o) ==> at_most_one_checked(f)) by {
                            if at_most_one_checked(o) {
                                assert(at_most_one_checked(mid));
                                assert forall|a: int, b: int|
                                    0 <= a < f.len() && 0 <= b < f.len() && (#[trigger] f[a]).checked
                                        && (#[trigger] f[b]).checked implies radio_id(f[a]) == radio_id(
                                    f[b],
                                ) by {
                                    assert(mid[a].checked && mid[b].checked);
                                }
                            }
                        }
                        assert(group_changed_at(o, f, i as int, id, checked));
                    }
                }
                return Ok(());
            }
            i = i + 1;
        }
        proof {
            lemma_first_with_id_none(self.radio_list@, id);
        }
        Ok(())
    }

    /// Sets the checked state of the group's radio `id`. Checking it
    /// unchecks every other radio of the group.
    pub fn set_checked(&mut self, id: u32, checked: bool)
        ensures
            final(self).radio_list@.len() == old(self).radio_list@.len(),
            forall|i: int|
                0 <= i < old(self).radio_list@.len() ==> self_checked_update(
                    #[trigger] old(self).radio_list@[i],
                    final(self).radio_list@[i],
                    group_target(old(self).radio_list@[i], id, checked),
                ),
            checked ==> at_most_one_checked(final(self).radio_list@),
            at_most_one_checked(old(self).radio_list@) ==> at_most_one_checked(
                final(self).radio_list@,
            ),
    {
        let n = self.radio_list.len();
        let mut i: usize = 0;
        while i < n
            invariant
                n == old(self).radio_list@.len(),
                n == self.radio_list@.len(),
                i <= n,
                forall|k: int|
                    0 <= k < i ==> self_checked_update(
                        #[trigger] old(self).radio_list@[k],
                        self.radio_list@[k],
                        group_target(old(self).radio_list@[k], id, checked),
                    ),
                forall|k: int| i <= k < n ==> #[trigger] self.radio_list@[k] == old(self).radio_list@[k],
            decreases n - i,
        {
            let c = if checked {
                self.radio_list[i].element.id == id
            } else if self.radio_list[i].element.id == id {
                false
            } else {
                self.radio_list[i].checked
            };
            self.radio_list[i].mark_checked(c);
            i = i + 1;
        }
        proof {
            let o = old(self).radio_list@;
            let f = self.radio_list@;
            assert forall|a: int, b: int|
                0 <= a < f.len() && 0 <= b < f.len() && (#[trigger] f[a]).checked
                    && (#[trigger] f[b]).checked && (checked || at_most_one_checked(o)) implies radio_id(
                f[a],
            ) == radio_id(f[b]) by {
                assert(self_checked_update(o[a], f[a], group_target(o[a], id, checked)));
                assert(self_checked_update(o[b], f[b], group_target(o[b], id, checked)));
                if !checked {
                    assert(o[a].checked && o[b].checked);
                }
            }
        }
    }
}

/// A group of radios of which at most one is checked.
pub struct RadioGroup {
    pub el: Element,
    pub base: Container,
    pub delegate: RadioGroupDelegate,
}

impl RadioGroup {
    /// An empty radio group whose element and base take their ids from `ids`.
    pub fn create(ids: &mut IdSource) -> (r: Self)
        requires
            old(ids).next + 2 <= u32::MAX,
        ensures
            final(ids).next == old(ids).next + 2,
            r.el.id == old(ids).next,
            r.el.tag@ == "radio-group"@,
            r.el.js_events@.len() == 1,
            r.el.js_events@[0]@ == "change"@,
            r.base.el.id == old(ids).next + 1,
            r.delegate.radio_list@.len() == 0,
    {
        let mut element = Element::new(ids.take(), "radio-group");
        element.register_js_event("change");
        let base = Container::create(ids.take());
        proof {
            assert(element.js_events@.len() == 1);
        }
        RadioGroup { el: element, base, delegate: RadioGroupDelegate::new() }
    }
}

/// A radio button with a label: its element, holding a wrapper that holds
/// the box (which holds the check mark image) and the label, its base, and
/// the state of its label. The radio's own state is kept in its element.
pub struct Radio {
    pub el: Element,
    pub base: Container,
    pub label: LabelDelegate,
}

/// A radio's element without the state it keeps.
pub open spec fn without_state(e: Element) -> Element {
    Element { radio: None, ..e }
}

impl Radio {
    pub open spec fn wf(&self) -> bool {
        check_tree(self.el)
    }

    /// Sets the label's text; where it changes, the label's element is asked
    /// for a new layout.
    pub fn set_label(&mut self, label: String)
        requires
            old(self).wf(),
        ensures
            final(self).wf(),
            label_text_update(old(self).label, final(self).label, label@),
            old(self).label.text@ != label@ ==> changed_at(
                old(self).el,
                final(self).el,
                label_path(),
                |o: Element, n: Element| marked_dirty(o, n, true),
            ),
            old(self).label.text@ == label@ ==> final(self).el == old(self).el,
    {
        let changed = !str_eq(self.label.text.as_str(), label.as_str());
        self.label.set_text(label.as_str());
        if changed {
            let path: [usize; 2] = [0, 1];
            proof {
                assert(path@ =~= label_path());
                assert(path@.skip(0) =~= label_path());
            }
            let ghost before = self.el;
            self.el.mark_dirty_at(&path, 0, true);
            proof {
                lemma_tree_kept(before, self.el, label_path(), |o: Element, n: Element| marked_dirty(o, n, true));
            }
        }
    }

    pub fn get_label(&self) -> (r: String)
        ensures
            r@ == self.label.text@,
    {
        self.label.text.clone()
    }

    /// Whether the radio is checked; an error where its element holds no
    /// radio state.
    pub fn is_checked(&self) -> (r: Result<bool, DeftError>)
        ensures
            self.el.radio matches Some(state) ==> r == Ok::<bool, DeftError>(state.checked),
            self.el.radio is None ==> r is Err,
    {
        match &self.el.radio {
            Some(state) => Ok(state.checked),
            None => Err(DeftError { message: String::from_str("state not found") }),
        }
    }

    /// Checks or unchecks the radio, as the `checked` attribute does;
    /// `group` is the group it belongs to, where it belongs to one. Where the
    /// state changes, the check mark in the radio's tree shows it.
    pub fn set_checked(&mut self, checked: bool, group: &mut RadioGroupDelegate)
        requires
            old(self).wf(),
        ensures
            final(self).wf(),
            final(self).label == old(self).label,
            old(self).el.radio is None ==> final(self).el == old(self).el && *final(group) == *old(group),
            old(self).el.radio matches Some(state) ==> final(self).el.radio matches Some(after)
                && checked_set(
                *state,
                *after,
                old(group).radio_list@,
                final(group).radio_list@,
                checked,
            ) && check_mark_shown(
                without_state(old(self).el),
                without_state(final(self).el),
                state.checked != after.checked,
                after.checked,
            ),
    {
        let r = self.el.radio.take();
        match r {
            Some(b) => {
                let mut state = *b;
                proof {
                    lemma_tree_of_children(old(self).el, self.el);
                }
                let _ = state.update_checked(checked, group, &mut self.el);
                self.el.radio = Some(Box::new(state));
                proof {
                    assert(without_state(self.el) == (Element { radio: None, ..self.el }));
                    lemma_tree_of_children(self.el, (Element { radio: None, ..self.el }));
                }
            },
            None => {},
        }
    }

    /// A click on the radio: it checks it, as the `checked` attribute does;
    /// `group` is the group it belongs to, where it belongs to one.
    pub fn on_click(&mut self, group: &mut RadioGroupDelegate)
        requires
            old(self).wf(),
        ensures
            final(self).wf(),
            final(self).label == old(self).label,
            old(self).el.radio is None ==> final(self).el == old(self).el && *final(group) == *old(group),
            old(self).el.radio matches Some(state) ==> final(self).el.radio matches Some(after)
                && checked_set(
                *state,
                *after,
                old(group).radio_list@,
                final(group).radio_list@,
                true,
            ) && check_mark_shown(
                without_state(old(self).el),
                without_state(final(self).el),
                state.checked != after.checked,
                after.checked,
            ),
    {
        self.set_checked(true, group);
    }

    /// An unchecked radio. Its element holds one wrapper (a row, items
    /// centred), which holds the box and the label; the box holds the check
    /// mark image, sized to the box, whose appended style hides the mark. The
    /// element, its base, the wrapper, the box, the label and the image take
    /// their ids from `ids`, in that order.
    pub fn create(ids: &mut IdSource) -> (r: Self)
        requires
            old(ids).next + 6 <= u32::MAX,
        ensures
            final(ids).next == old(ids).next + 6,
            r.wf(),
            r.el.id == old(ids).next,
            r.el.tag@ == "radio"@,
            r.el.is_form_element,
            r.base.el.id == old(ids).next + 1,
            r.el.children@.len() == 1,
            r.el.children@[0].id == old(ids).next + 2,
            r.el.children@[0].tag@ == "container"@,
            r.el.children@[0].style matches Some(s) && s@ == style_props(
                "align-items:center; flex-direction:row;"@,
            ),
            r.el.children@[0].children@.len() == 2,
            r.el.children@[0].children@[0].id == old(ids).next + 3,
            r.el.children@[0].children@[0].tag@ == "container"@,
            r.el.children@[0].children@[0].children@.len() == 1,
            r.el.children@[0].children@[1].id == old(ids).next + 4,
            r.el.children@[0].children@[1].tag@ == "label"@,
            r.el.children@[0].children@[1].children@.len() == 0,
            r.el.children@[0].children@[0].children@[0].id == old(ids).next + 5,
            r.el.children@[0].children@[0].children@[0].tag@ == "image"@,
            r.el.children@[0].children@[0].children@[0].children@.len() == 0,
            r.el.children@[0].children@[0].children@[0].style matches Some(s) && s@ == style_props(
                "width:100%; height:100%;"@,
            ),
            r.el.children@[0].children@[0].children@[0].appended_styles@.len() == 1,
            r.el.children@[0].children@[0].children@[0].appended_styles@[0]@ == check_mark_style(false),
            r.el.radio matches Some(state) && !state.checked && !state.grouped
                && state.element.id == r.el.id && state.element.emitted@.len() == 0,
            r.label.text@.len() == 0,
            r.label.element.id == old(ids).next + 4,
    {
        let mut element = Element::new(ids.take(), "radio");
        element.is_form_element = true;
        let base = Container::create(ids.take());
        let mut wrapper = Container::create(ids.take());
        let mut box_element = Container::create(ids.take());
        let Label { el: label_el, delegate: label } = Label::create(ids.take());
        let Image { el: mut img_el, src: _, img: _ } = Image::create(ids.take());
        img_el.set_style(style_of("width:100%; height:100%;"));
        let ghost i_styled = img_el;
        let ghost b_empty = box_element.el;
        box_element.el.add_child(img_el, Some(0));
        let ghost l0 = label_el;
        wrapper.el.add_child(box_element.el, Some(0));
        wrapper.el.add_child(label_el, Some(1));
        wrapper.el.set_style(style_of("align-items:center; flex-direction:row;"));
        let ghost w0 = wrapper.el;
        element.add_child(wrapper.el, Some(0));
        let radio_state = RadioDelegate::new(element.as_weak());
        proof {
            assert(element.children@[0] == w0);
            assert(w0.children@[1] == l0);
            assert(w0.children@[0].children@[0] == i_styled);
            lemma_paths(element);
        }
        let ghost before = element;
        radio_state.update_children(&mut element);
        proof {
            reveal_with_fuel(changed_at, 4);
            assert(seq![0usize, 0usize, 0usize].drop_first() =~= seq![0usize, 0usize]);
            assert(seq![0usize, 0usize].drop_first() =~= seq![0usize]);
            assert(seq![0usize].drop_first() =~= Seq::<usize>::empty());
            assert(element.children@[0].children@[1] == before.children@[0].children@[1]);
            assert(element.children@[0].children@[0].children@[0].appended_styles@.drop_last()
                =~= Seq::<ParsedStyles>::empty());
        }
        element.radio = Some(Box::new(radio_state));
        proof {
            lemma_tree_of_children(element, (Element { radio: None, ..element }));
        }
        Radio { el: element, base, label }
    }
}

/// Elements with the same children have the same parts in place.
proof fn lemma_tree_of_children(a: Element, b: Element)
    requires
        a.children == b.children,
    ensures
        check_tree(a) == check_tree(b),
{
    assert(valid_path(a, image_path()) == valid_path(b, image_path()));
    assert(valid_path(a, label_path()) == valid_path(b, label_path()));
}

} // verus!
