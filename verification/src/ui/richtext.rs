use vstd::prelude::*;
use crate::base::Color;
use crate::ui::element::{Element, ElementWeak, marked_dirty};
use crate::ui::textbox::{
    FontStyle, TextBox, TextCoord, TextElement, box_text, coord_from, coord_view, line_lens, selected_text,
};

verus! {

/// The state behind a rich text element: its lines of styled text.
pub struct RichTextDelegate {
    pub element: ElementWeak,
    pub text_box: TextBox,
}

impl RichTextDelegate {
    /// Takes the text colour and font that the element's style resolved
    /// to. Font size and line height are lengths, which the text box does
    /// not hold.
    pub fn after_style_resolved(&mut self, color: Color, font_family: String, font_weight: u16, font_style: FontStyle)
        ensures
            final(self).text_box == (TextBox {
                color,
                font_family,
                font_weight,
                font_style,
                ..old(self).text_box
            }),
            final(self).element == old(self).element,
    {
        self.text_box.set_color(color);
        self.text_box.set_font_families(font_family);
        self.text_box.set_font_weight(font_weight);
        self.text_box.set_font_style(font_style);
    }
}

/// An element that shows lines of styled text. A change of its lines asks
/// the element for a new layout, as its text box does in laying them out.
pub struct RichText {
    pub el: Element,
    pub delegate: RichTextDelegate,
}

impl RichText {
    pub open spec fn lines(&self) -> Seq<Vec<TextElement>> {
        self.delegate.text_box.lines@
    }

    /// Appends a line.
    pub fn add_line(&mut self, units: Vec<TextElement>)
        ensures
            final(self).lines() == old(self).lines().push(units),
            final(self).delegate.text_box.selection == old(self).delegate.text_box.selection,
            marked_dirty(old(self).el, final(self).el, true),
    {
        self.el.mark_dirty(true);
        self.delegate.text_box.add_line(units);
    }

    /// Inserts a line before line `index`, or at the end where `index` is the
    /// number of lines.
    pub fn insert_line(&mut self, index: usize, units: Vec<TextElement>)
        requires
            index <= old(self).lines().len(),
        ensures
            final(self).lines() == old(self).lines().insert(index as int, units),
            final(self).delegate.text_box.selection == old(self).delegate.text_box.selection,
            marked_dirty(old(self).el, final(self).el, true),
    {
        self.el.mark_dirty(true);
        self.delegate.text_box.insert_line(index, units);
    }

    /// Removes line `line`.
    pub fn delete_line(&mut self, line: usize)
        requires
            line < old(self).lines().len(),
        ensures
            final(self).lines() == old(self).lines().remove(line as int),
            final(self).delegate.text_box.selection == old(self).delegate.text_box.selection,
            marked_dirty(old(self).el, final(self).el, true),
    {
        self.el.mark_dirty(true);
        self.delegate.text_box.delete_line(line);
    }

    /// Replaces line `index`.
    pub fn update_line(&mut self, index: usize, units: Vec<TextElement>)
        requires
            index < old(self).lines().len(),
        ensures
            final(self).lines() == old(self).lines().update(index as int, units),
            final(self).delegate.text_box.selection == old(self).delegate.text_box.selection,
            marked_dirty(old(self).el, final(self).el, true),
    {
        self.el.mark_dirty(true);
        self.delegate.text_box.update_line(index, units);
    }

    /// Removes every line.
    pub fn clear(&mut self)
        ensures
            final(self).lines().len() == 0,
            final(self).delegate.text_box.selection is None,
            marked_dirty(old(self).el, final(self).el, true),
    {
        self.el.mark_dirty(true);
        self.delegate.text_box.clear();
    }

    /// The line and the offset in it of character `caret` of the text.
    pub fn get_text_coord_by_char_offset(&self, caret: usize) -> (r: Option<TextCoord>)
        ensures
            coord_view(r) == coord_from(line_lens(self.lines()), 0, caret as int),
    {
        self.delegate.text_box.get_text_coord_by_char_offset(caret)
    }

    /// The selected text, where there is a selection.
    pub fn get_selection_text(&self) -> (r: Option<String>)
        ensures
            self.delegate.text_box.selection is None ==> r is None,
            self.delegate.text_box.selection matches Some(sel) ==> r matches Some(t) && t@
                == selected_text(box_text(self.lines()), sel),
    {
        self.delegate.text_box.get_selection_text()
    }

    /// A rich text element with no lines, for the element `id`.
    pub fn create(id: u32) -> (r: Self)
        ensures
            r.el.id == id,
            r.el.tag@ == "rich-text"@,
            r.delegate.element.id == id,
            r.lines().len() == 0,
            r.delegate.text_box.selection is None,
    {
        let element = Element::new(id, "rich-text");
        let delegate = RichTextDelegate { element: element.as_weak(), text_box: TextBox::new() };
        RichText { el: element, delegate }
    }
}

} // verus!
