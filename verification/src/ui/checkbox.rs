use vstd::prelude::*;
use crate::base::IdSource;
use crate::text::str_eq;
use crate::style::parsed_styles::{ParsedStyles, style_of, style_props};
use crate::style::prop::{FixedStyleProp, ResolvedStyleProp, to_unresolved_all, unresolved_all};
use crate::ui::element::{
    Container, Element, ElementEvent, ElementWeak, changed_at, lemma_changed_at_weaken, lemma_valid_kept,
    marked_dirty, props_appended, style_appended, valid_path,
};
use crate::ui::image::{Image, ImageObject};
use crate::ui::label::{Label, LabelDelegate, label_text_update};
use crate::ui::radio::{check_mark_style, display_style};

verus! {

/// The event a checkbox dispatches when it is checked or unchecked.
pub struct ChangeEvent {}

/// The path from a checkbox's or radio's element to its check mark image:
/// wrapper, box, image.
pub open spec fn image_path() -> Seq<usize> {
    seq![0usize, 0usize, 0usize]
}

/// The path from a checkbox's or radio's element to its box: wrapper, box.
pub open spec fn box_path() -> Seq<usize> {
    seq![0usize, 0usize]
}

/// The path from a checkbox's or radio's element to its label: wrapper,
/// label.
pub open spec fn label_path() -> Seq<usize> {
    seq![0usize, 1usize]
}

/// Whether the tree of a checkbox's or radio's element has its parts in
/// place: a wrapper that holds the box (which holds the check mark image)
/// and the label.
pub open spec fn check_tree(el: Element) -> bool {
    &&& valid_path(el, image_path())
    &&& valid_path(el, label_path())
}

pub(crate) proof fn lemma_paths(el: Element)
    requires
        el.children@.len() >= 1,
        el.children@[0].children@.len() >= 2,
        el.children@[0].children@[0].children@.len() >= 1,
    ensures
        check_tree(el),
        valid_path(el, box_path()),
{
    let w = el.children@[0];
    let b = w.children@[0];
    assert(valid_path(b.children@[0], Seq::<usize>::empty()));
    assert(seq![0usize].drop_first() =~= Seq::<usize>::empty());
    assert(seq![1usize].drop_first() =~= Seq::<usize>::empty());
    assert(seq![0usize, 0usize].drop_first() =~= seq![0usize]);
    assert(seq![0usize, 1usize].drop_first() =~= seq![1usize]);
    assert(seq![0usize, 0usize, 0usize].drop_first() =~= seq![0usize, 0usize]);
    assert(valid_path(b, seq![0usize]));
    assert(valid_path(w, seq![0usize, 0usize]));
    assert(valid_path(el, image_path()));
    assert(valid_path(w.children@[1], Seq::<usize>::empty()));
    assert(valid_path(w, seq![1usize]));
    assert(valid_path(el, label_path()));
    assert(valid_path(w.children@[0], Seq::<usize>::empty()));
    assert(valid_path(w, seq![0usize]));
    assert(valid_path(el, box_path()));
}

/// Whether the tree of `el` has the parts of a checkbox or radio in place.
pub(crate) fn has_check_tree(el: &Element) -> (r: bool)
    ensures
        r == check_tree(*el),
{
    proof {
        reveal_with_fuel(valid_path, 4);
        assert(image_path().drop_first() =~= seq![0usize, 0usize]);
        assert(seq![0usize, 0usize].drop_first() =~= seq![0usize]);
        assert(seq![0usize].drop_first() =~= Seq::<usize>::empty());
        assert(label_path().drop_first() =~= seq![1usize]);
        assert(seq![1usize].drop_first() =~= Seq::<usize>::empty());
    }
    if el.children.len() >= 1 && el.children[0].children.len() >= 2
        && el.children[0].children[0].children.len() >= 1 {
        proof {
            lemma_paths(*el);
        }
        true
    } else {
        false
    }
}

/// A change at a node that keeps its children keeps the parts of a
/// checkbox's or radio's tree in place.
pub(crate) proof fn lemma_tree_kept(old: Element, new: Element, path: Seq<usize>, f: spec_fn(Element, Element) -> bool)
    requires
        check_tree(old),
        changed_at(old, new, path, f),
        forall|o: Element, n: Element| #[trigger] f(o, n) ==> n.children == o.children,
    ensures
        check_tree(new),
{
    lemma_valid_kept(old, new, path, f, image_path());
    lemma_valid_kept(old, new, path, f, label_path());
}

/// A checkbox's or radio's tree has its box in place too.
pub(crate) proof fn lemma_box_valid(el: Element)
    requires
        check_tree(el),
    ensures
        valid_path(el, box_path()),
{
    assert(seq![0usize, 0usize, 0usize].drop_first() =~= seq![0usize, 0usize]);
    assert(seq![0usize, 0usize].drop_first() =~= seq![0usize]);
    assert(seq![0usize].drop_first() =~= Seq::<usize>::empty());
    let w = el.children@[0];
    assert(valid_path(w, seq![0usize, 0usize]));
    assert(valid_path(w.children@[0], Seq::<usize>::empty()));
    assert(valid_path(w, seq![0usize]));
}

/// The state behind a checkbox: whether it is checked, its image and the
/// state of its label. Its box, image and label elements stand in the
/// checkbox element's tree (see `image_path`, `box_path`, `label_path`).
pub struct CheckboxDelegate {
    pub element: ElementWeak,
    pub checked: bool,
    pub img: ImageObject,
    pub label: LabelDelegate,
}

impl CheckboxDelegate {
    /// Sets the checked state; where it changed, shows or hides the check
    /// mark (a style appended to the image of the tree of `el`) and
    /// dispatches a change event.
    pub fn update_checked(&mut self, checked: bool, el: &mut Element)
        requires
            check_tree(*old(el)),
        ensures
            check_tree(*final(el)),
            final(self).checked == checked,
            final(self).element.id == old(self).element.id,
            final(self).label == old(self).label,
            final(self).img == old(self).img,
            old(self).checked == checked ==> *final(self) == *old(self) && *final(el) == *old(el),
            old(self).checked != checked ==> {
                &&& final(self).element.emitted@ == old(self).element.emitted@.push(
                    ElementEvent::Change,
                )
                &&& changed_at(*old(el), *final(el), image_path(), |o: Element, n: Element|
                    props_appended(o, n, check_mark_style(checked)))
            },
    {
        if self.checked != checked {
            self.checked = checked;
            self.update_children(el);
            self.element.emit(ElementEvent::Change);
        }
    }

    /// Shows the check mark when checked, hides it otherwise: a style
    /// appended to the image of the tree of `el`.
    pub fn update_children(&self, el: &mut Element)
        requires
            check_tree(*old(el)),
        ensures
            check_tree(*final(el)),
            changed_at(*old(el), *final(el), image_path(), |o: Element, n: Element|
                props_appended(o, n, check_mark_style(self.checked))),
    {
        let style = display_style(self.checked);
        let path: [usize; 3] = [0, 0, 0];
        proof {
            assert(path@ =~= image_path());
            assert(path@.skip(0) =~= image_path());
        }
        el.append_style_at(&path, 0, style);
        proof {
            let f = |o: Element, n: Element| style_appended(o, n, style);
            let g = |o: Element, n: Element| props_appended(o, n, check_mark_style(self.checked));
            assert forall|o: Element, n: Element| #[trigger] f(o, n) implies g(o, n) by {
                assert(n.appended_styles@.drop_last() =~= o.appended_styles@);
            }
            lemma_changed_at_weaken(*old(el), *el, image_path(), f, g);
            lemma_tree_kept(*old(el), *el, image_path(), f);
        }
    }

    /// Follows a change of an attribute of the element: the `checked`
    /// attribute checks the checkbox when present and unchecks it when
    /// removed; other attributes change nothing.
    pub fn on_attribute_changed(&mut self, key: &str, value: Option<&str>, el: &mut Element)
        requires
            check_tree(*old(el)),
        ensures
            check_tree(*final(el)),
            key@ == "checked"@ ==> final(self).checked == value is Some
                && final(self).element.emitted@ == if old(self).checked != value is Some {
                old(self).element.emitted@.push(ElementEvent::Change)
            } else {
                old(self).element.emitted@
            },
            key@ != "checked"@ ==> *final(self) == *old(self) && *final(el) == *old(el),
    {
        if str_eq(key, "checked") {
            self.update_checked(value.is_some(), el);
        }
    }

    /// Takes the styles given to the `box` pseudo element, where there are
    /// any, onto the box of the tree of `el`.
    pub fn accept_pseudo_element_styles(&self, box_styles: Option<Vec<ResolvedStyleProp>>, el: &mut Element)
        requires
            check_tree(*old(el)),
        ensures
            check_tree(*final(el)),
            box_styles is None ==> *final(el) == *old(el),
            box_styles matches Some(s) ==> changed_at(*old(el), *final(el), box_path(), |o: Element, n: Element|
                props_appended(o, n, unresolved_all(s@).map_values(|p: FixedStyleProp| p@))),
    {
        if let Some(styles) = box_styles {
            let fixed = to_unresolved_all(&styles);
            let style = ParsedStyles::from_fixed(fixed);
            let path: [usize; 2] = [0, 0];
            proof {
                assert(path@ =~= box_path());
                assert(path@.skip(0) =~= box_path());
                lemma_box_valid(*old(el));
            }
            el.append_style_at(&path, 0, style);
            proof {
                let f = |o: Element, n: Element| style_appended(o, n, style);
                let g = |o: Element, n: Element| props_appended(o, n, unresolved_all(styles@).map_values(|p: FixedStyleProp| p@));
                assert forall|o: Element, n: Element| #[trigger] f(o, n) implies g(o, n) by {
                    assert(n.appended_styles@.drop_last() =~= o.appended_styles@);
                }
                lemma_changed_at_weaken(*old(el), *el, box_path(), f, g);
                lemma_tree_kept(*old(el), *el, box_path(), f);
            }
        }
    }
}

/// A checkbox with a label: its element, holding a wrapper that holds the
/// box (which holds the check mark image) and the label, and its state.
pub struct Checkbox {
    pub el: Element,
    pub state: CheckboxDelegate,
}

impl Checkbox {
    pub open spec fn wf(&self) -> bool {
        check_tree(self.el)
    }

    /// Sets the label's text; where it changes, the label's element is asked
    /// for a new layout.
    pub fn set_label(&mut self, label: String)
        requires
            old(self).wf(),
        ensures
            final(self).wf(),
            label_text_update(old(self).state.label, final(self).state.label, label@),
            final(self).state.checked == old(self).state.checked,
            old(self).state.label.text@ != label@ ==> changed_at(
                old(self).el,
                final(self).el,
                label_path(),
                |o: Element, n: Element| marked_dirty(o, n, true),
            ),
            old(self).state.label.text@ == label@ ==> final(self).el == old(self).el,
    {
        let changed = !str_eq(self.state.label.text.as_str(), label.as_str());
        self.state.label.set_text(label.as_str());
        if changed {
            let path: [usize; 2] = [0, 1];
            proof {
                assert(path@ =~= label_path());
                assert(path@.skip(0) =~= label_path());
            }
            let ghost before = self.el;
            self.el.mark_dirty_at(&path, 0, true);
            proof {
                lemma_tree_kept(before, self.el, label_path(), |o: Element, n: Element| marked_dirty(o, n, true));
            }
        }
    }

    pub fn get_label(&self) -> (r: String)
        ensures
            r@ == self.state.label.text@,
    {
        self.state.label.text.clone()
    }

    pub fn is_checked(&self) -> (r: bool)
        ensures
            r == self.state.checked,
    {
        self.state.checked
    }

    /// Checks or unchecks the checkbox, as the `checked` attribute does.
    pub fn set_checked(&mut self, checked: bool)
        requires
            old(self).wf(),
        ensures
            final(self).wf(),
            final(self).state.checked == checked,
            final(self).state.element.emitted@ == if old(self).state.checked != checked {
                old(self).state.element.emitted@.push(ElementEvent::Change)
            } else {
                old(self).state.element.emitted@
            },
            old(self).state.checked != checked ==> changed_at(old(self).el, final(self).el, image_path(), |o: Element, n: Element|
                props_appended(o, n, check_mark_style(checked))),
            old(self).state.checked == checked ==> final(self).el == old(self).el,
    {
        self.state.update_checked(checked, &mut self.el);
    }

    /// A click on the checkbox: it toggles.
    pub fn on_click(&mut self)
        requires
            old(self).wf(),
        ensures
            final(self).wf(),
            final(self).state.checked == !old(self).state.checked,
            final(self).state.element.emitted@ == old(self).state.element.emitted@.push(
                ElementEvent::Change,
            ),
            changed_at(old(self).el, final(self).el, image_path(), |o: Element, n: Element|
                props_appended(o, n, check_mark_style(!old(self).state.checked))),
    {
        let checked = !self.state.checked;
        self.set_checked(checked);
    }

    /// An unchecked checkbox. Its element holds one wrapper (a row, items
    /// centred), which holds the box and the label; the box holds the check
    /// mark image, sized to the box, whose appended style hides the mark.
    /// The element, wrapper, box, label and image take their ids from `ids`,
    /// in that order.
    pub fn create(ids: &mut IdSource) -> (r: Self)
        requires
            old(ids).next + 5 <= u32::MAX,
        ensures
            final(ids).next == old(ids).next + 5,
            r.wf(),
            r.el.id == old(ids).next,
            r.el.tag@ == "checkbox"@,
            r.el.is_form_element,
            r.el.js_events@.len() == 1,
            r.el.js_events@[0]@ == "change"@,
            r.el.children@.len() == 1,
            r.el.children@[0].id == old(ids).next + 1,
            r.el.children@[0].tag@ == "container"@,
            r.el.children@[0].style matches Some(s) && s@ == style_props(
                "align-items:center; flex-direction:row;"@,
            ),
            r.el.children@[0].children@.len() == 2,
            r.el.children@[0].children@[0].id == old(ids).next + 2,
            r.el.children@[0].children@[0].tag@ == "container"@,
            r.el.children@[0].children@[0].children@.len() == 1,
            r.el.children@[0].children@[1].id == old(ids).next + 3,
            r.el.children@[0].children@[1].tag@ == "label"@,
            r.el.children@[0].children@[1].children@.len() == 0,
            r.el.children@[0].children@[0].children@[0].id == old(ids).next + 4,
            r.el.children@[0].children@[0].children@[0].tag@ == "image"@,
            r.el.children@[0].children@[0].children@[0].children@.len() == 0,
            r.el.children@[0].children@[0].children@[0].style matches Some(s) && s@ == style_props(
                "width:100%; height: 100%"@,
            ),
            r.el.children@[0].children@[0].children@[0].appended_styles@.len() == 1,
            r.el.children@[0].children@[0].children@[0].appended_styles@[0]@ == check_mark_style(false),
            r.state.element.id == r.el.id,
            r.state.element.emitted@.len() == 0,
            !r.state.checked,
            r.state.label.text@.len() == 0,
            r.state.label.element.id == old(ids).next + 3,
    {
        let mut element = Element::new(ids.take(), "checkbox");
        element.is_form_element = true;
        element.register_js_event("change");
        let mut wrapper = Container::create(ids.take());
        let mut box_container = Container::create(ids.take());
        let Label { el: label_el, delegate: label } = Label::create(ids.take());
        let Image { el: mut img_el, src: _, img } = Image::create(ids.take());
        img_el.set_style(style_of("width:100%; height: 100%"));
        img_el.append_style(display_style(false));
        let ghost i0 = img_el;
        box_container.el.add_child(img_el, Some(0));
        let ghost b0 = box_container.el;
        wrapper.el.add_child(box_container.el, Some(0));
        let ghost l0 = label_el;
        wrapper.el.add_child(label_el, Some(1));
        wrapper.el.set_style(style_of("align-items:center; flex-direction:row;"));
        let ghost w0 = wrapper.el;
        element.add_child(wrapper.el, Some(0));
        let state = CheckboxDelegate { img, checked: false, element: element.as_weak(), label };
        proof {
            assert(element.js_events@.len() == 1);
            assert(element.children@[0] == w0);
            assert(w0.children@[0] == b0);
            assert(w0.children@[1] == l0);
            assert(b0.children@[0] == i0);
            lemma_paths(element);
        }
        Checkbox { el: element, state }
    }
}

} // verus!
