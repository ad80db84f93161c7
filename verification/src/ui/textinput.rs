use vstd::prelude::*;
use crate::base::IdSource;
use crate::style::parsed_styles::{style_of, style_props};
use crate::ui::editable::{Editable, InputType};
use crate::ui::element::{Element, changed_at, marked_dirty, valid_path};

verus! {

/// A single-line text field: its element, whose one child is a scrolling
/// wrapper whose one child is the element of its editable, and the
/// editable's state.
pub struct TextInput {
    pub el: Element,
    pub editable: Editable,
}

/// `new` is `old` with the editable's element (the first child of the first
/// child) asked for a repaint, and for a new layout when `layout_dirty`.
pub open spec fn editable_marked(old: Element, new: Element, layout_dirty: bool) -> bool {
    changed_at(old, new, seq![0usize, 0usize], |o: Element, n: Element| marked_dirty(o, n, layout_dirty))
}

impl TextInput {
    /// The element holds the wrapper, which holds the editable's element.
    pub open spec fn wf(&self) -> bool {
        &&& self.el.children@.len() == 1
        &&& self.el.children@[0].children@.len() == 1
    }

    fn mark_editable_dirty(&mut self, layout_dirty: bool)
        requires
            old(self).wf(),
        ensures
            editable_marked(old(self).el, final(self).el, layout_dirty),
            final(self).editable == old(self).editable,
    {
        let path: [usize; 2] = [0, 0];
        proof {
            assert(path@ =~= seq![0usize, 0usize]);
            assert(path@.skip(0) =~= seq![0usize, 0usize]);
            assert(seq![0usize, 0usize].drop_first() =~= seq![0usize]);
            assert(seq![0usize].drop_first() =~= Seq::<usize>::empty());
            let c = self.el.children@[0];
            assert(valid_path(c.children@[0], Seq::<usize>::empty()));
            assert(valid_path(c, seq![0usize]));
            assert(valid_path(self.el, seq![0usize, 0usize]));
        }
        self.el.mark_dirty_at(&path, 0, layout_dirty);
    }

    pub fn get_text(&self) -> (r: String)
        ensures
            r@ == self.editable.text(),
    {
        self.editable.get_text()
    }

    /// Replaces the text, which `get_text` then gives back, and asks the
    /// editable's element for a new layout.
    pub fn set_text(&mut self, text: String)
        requires
            old(self).wf(),
        ensures
            final(self).editable.text() == text@,
            final(self).editable.placeholder == old(self).editable.placeholder,
            final(self).editable.input_type == old(self).editable.input_type,
            editable_marked(old(self).el, final(self).el, true),
    {
        self.editable.set_text(text);
        self.mark_editable_dirty(true);
    }

    pub fn set_placeholder(&mut self, placeholder: String)
        requires
            old(self).wf(),
        ensures
            final(self).editable.placeholder == placeholder,
            final(self).editable.text_box == old(self).editable.text_box,
            editable_marked(old(self).el, final(self).el, true),
    {
        self.editable.set_placeholder(placeholder);
        self.mark_editable_dirty(true);
    }

    pub fn get_placeholder(&self) -> (r: String)
        ensures
            r@ == self.editable.placeholder@,
    {
        self.editable.get_placeholder()
    }

    /// Sets how the text is shown; input methods are allowed for plain text
    /// and not for a password.
    pub fn set_type(&mut self, input_type: InputType)
        requires
            old(self).wf(),
        ensures
            final(self).editable.input_type == input_type,
            final(self).editable.text_box == old(self).editable.text_box,
            exists|marked: Element|
                editable_marked(old(self).el, marked, true) && final(self).el == (Element {
                    allow_ime: input_type == InputType::Text,
                    ..marked
                }),
    {
        self.editable.set_type(input_type);
        self.mark_editable_dirty(true);
        let ghost marked = self.el;
        self.el.allow_ime = match input_type {
            InputType::Text => true,
            InputType::Password => false,
        };
        proof {
            assert(self.el == (Element { allow_ime: input_type == InputType::Text, ..marked }));
        }
    }

    pub fn get_type(&self) -> (r: InputType)
        ensures
            r == self.editable.input_type,
    {
        self.editable.get_type()
    }

    /// An empty text field that takes input methods and focus. Its element
    /// has one child, a container styled to scroll its content in a row,
    /// whose one child is the editable's element styled `min-width:100%`;
    /// the three elements take their ids from `ids`.
    pub fn create(ids: &mut IdSource) -> (r: Self)
        requires
            old(ids).next + 3 <= u32::MAX,
        ensures
            final(ids).next == old(ids).next + 3,
            r.wf(),
            r.el.id == old(ids).next,
            r.el.tag@ == "text-input"@,
            r.el.allow_ime,
            r.el.focusable,
            r.el.is_form_element,
            r.el.children@[0].id == old(ids).next + 1,
            r.el.children@[0].tag@ == "container"@,
            r.el.children@[0].style matches Some(s) && s@ == style_props(
                "flex-direction:row; width:100%; height:100%; overflow: auto;"@,
            ),
            r.el.children@[0].children@[0].id == old(ids).next + 2,
            r.el.children@[0].children@[0].tag@ == "editable"@,
            r.el.children@[0].children@[0].children@.len() == 0,
            r.el.children@[0].children@[0].style matches Some(s) && s@ == style_props(
                "min-width:100%"@,
            ),
            !r.editable.multiple_line,
            r.editable.text() == Seq::<char>::empty(),
            r.editable.input_type == InputType::Text,
    {
        let mut element = Element::new(ids.take(), "text-input");
        element.allow_ime = true;
        let mut wrapper = Element::new(ids.take(), "container");
        let mut editable_el = Element::new(ids.take(), "editable");
        editable_el.set_style(style_of("min-width:100%"));
        wrapper.set_style(style_of("flex-direction:row; width:100%; height:100%; overflow: auto;"));
        wrapper.add_child(editable_el, Some(0));
        let ghost w = wrapper;
        element.add_child(wrapper, Some(0));
        element.is_form_element = true;
        element.focusable = true;
        proof {
            assert(element.children@[0] == w);
            assert(w.children@[0] == editable_el);
        }
        TextInput { el: element, editable: Editable::new() }
    }
}

} // verus!
