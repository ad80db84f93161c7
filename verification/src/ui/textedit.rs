use vstd::prelude::*;
use crate::base::IdSource;
use crate::style::parsed_styles::{style_of, style_props};
use crate::ui::editable::{Editable, InputType};
use crate::ui::element::{Element, changed_at, marked_dirty, valid_path};

verus! {

/// A multi-line text editor: its element, whose one child is the element of
/// its editable, and the editable's state.
pub struct TextEdit {
    pub el: Element,
    pub editable: Editable,
}

/// `new` is `old` with the element of its first child asked for a repaint,
/// and for a new layout when `layout_dirty`.
pub open spec fn first_child_marked(old: Element, new: Element, layout_dirty: bool) -> bool {
    changed_at(old, new, seq![0usize], |o: Element, n: Element| marked_dirty(o, n, layout_dirty))
}

/// Asks the element of the first child of `el` for a repaint, and for a new
/// layout when `layout_dirty`.
pub(crate) fn mark_first_child_dirty(el: &mut Element, layout_dirty: bool)
    requires
        old(el).children@.len() >= 1,
    ensures
        first_child_marked(*old(el), *final(el), layout_dirty),
{
    let path: [usize; 1] = [0];
    proof {
        assert(path@ =~= seq![0usize]);
        assert(path@.skip(0) =~= seq![0usize]);
        assert(seq![0usize].drop_first() =~= Seq::<usize>::empty());
        assert(valid_path(el.children@[0], Seq::<usize>::empty()));
        assert(valid_path(*el, seq![0usize]));
    }
    el.mark_dirty_at(&path, 0, layout_dirty);
}

impl TextEdit {
    /// The element holds the editable's element as its one child.
    pub open spec fn wf(&self) -> bool {
        self.el.children@.len() == 1
    }

    pub fn get_text(&self) -> (r: String)
        ensures
            r@ == self.editable.text(),
    {
        self.editable.get_text()
    }

    /// Replaces the text, which `get_text` then gives back, and asks the
    /// editable's element for a new layout.
    pub fn set_text(&mut self, text: String)
        requires
            old(self).wf(),
        ensures
            final(self).editable.text() == text@,
            final(self).editable.placeholder == old(self).editable.placeholder,
            final(self).editable.max_history == old(self).editable.max_history,
            first_child_marked(old(self).el, final(self).el, true),
    {
        self.editable.set_text(text);
        mark_first_child_dirty(&mut self.el, true);
    }

    pub fn set_placeholder(&mut self, placeholder: String)
        requires
            old(self).wf(),
        ensures
            final(self).editable.placeholder == placeholder,
            final(self).editable.text_box == old(self).editable.text_box,
            first_child_marked(old(self).el, final(self).el, true),
    {
        self.editable.set_placeholder(placeholder);
        mark_first_child_dirty(&mut self.el, true);
    }

    pub fn set_max_history(&mut self, max_history: usize)
        ensures
            final(self).editable.max_history == max_history,
            final(self).editable.text_box == old(self).editable.text_box,
            final(self).el == old(self).el,
    {
        self.editable.set_max_history(max_history);
    }

    pub fn get_max_history(&self) -> (r: usize)
        ensures
            r == self.editable.max_history,
    {
        self.editable.get_max_history()
    }

    pub fn get_placeholder(&self) -> (r: String)
        ensures
            r@ == self.editable.placeholder@,
    {
        self.editable.get_placeholder()
    }

    pub fn set_selection_by_char_offset(&mut self, start: usize, end: usize)
        requires
            old(self).wf(),
        ensures
            final(self).editable.text_box.selection == Some((start, end)),
            final(self).editable.text_box.lines == old(self).editable.text_box.lines,
            first_child_marked(old(self).el, final(self).el, false),
    {
        self.editable.set_selection_by_char_offset(start, end);
        mark_first_child_dirty(&mut self.el, false);
    }

    pub fn set_caret_by_char_offset(&mut self, char_offset: usize)
        requires
            old(self).wf(),
        ensures
            final(self).editable.caret == char_offset,
            final(self).editable.text_box.selection is None,
            final(self).editable.text_box.lines == old(self).editable.text_box.lines,
            first_child_marked(old(self).el, final(self).el, false),
    {
        self.editable.set_caret_by_char_offset(char_offset);
        mark_first_child_dirty(&mut self.el, false);
    }

    /// An empty editor that takes input methods and focus, whose element has
    /// one child, the editable's element styled `min-height:2em`; the two
    /// elements take their ids from `ids`.
    pub fn create(ids: &mut IdSource) -> (r: Self)
        requires
            old(ids).next + 2 <= u32::MAX,
        ensures
            final(ids).next == old(ids).next + 2,
            r.wf(),
            r.el.id == old(ids).next,
            r.el.tag@ == "text-edit"@,
            r.el.allow_ime,
            r.el.focusable,
            r.el.is_form_element,
            r.el.children@[0].id == old(ids).next + 1,
            r.el.children@[0].tag@ == "editable"@,
            r.el.children@[0].children@.len() == 0,
            r.el.children@[0].style matches Some(s) && s@ == style_props("min-height:2em"@),
            r.editable.multiple_line,
            r.editable.text() == Seq::<char>::empty(),
            r.editable.input_type == InputType::Text,
    {
        let mut element = Element::new(ids.take(), "text-edit");
        element.allow_ime = true;
        element.focusable = true;
        element.is_form_element = true;
        let mut editable_el = Element::new(ids.take(), "editable");
        editable_el.set_style(style_of("min-height:2em"));
        element.add_child(editable_el, Some(0));
        let mut editable = Editable::new();
        editable.set_multiple_line(true);
        proof {
            assert(element.children@[0] == editable_el);
        }
        TextEdit { el: element, editable }
    }
}

} // verus!
