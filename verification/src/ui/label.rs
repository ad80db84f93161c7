use vstd::prelude::*;
use crate::style::key::StylePropKey;
use crate::text::str_eq;
use crate::ui::element::{Element, ElementEvent, ElementWeak};
use crate::ui::textbox::{TextBox, box_text, build_line};

verus! {

/// The state behind a label: its text and the text box that lays it out.
pub struct LabelDelegate {
    pub element: ElementWeak,
    pub text_box: TextBox,
    pub text: String,
    /// Whether layout asked for a measure since it last began.
    pub measure_called: bool,
    /// Whether the laid out text is out of date.
    pub layout_invalid: bool,
}

/// What setting a label's text to `t` does to its state: where the text
/// differs it takes `t`, its text box holds `t` as its one line, its layout
/// is out of date and a text update event goes to the element; else nothing
/// changes.
pub open spec fn label_text_update(before: LabelDelegate, after: LabelDelegate, t: Seq<char>) -> bool {
    &&& after.element.id == before.element.id
    &&& if before.text@ == t {
        after == before
    } else {
        &&& after.text@ == t
        &&& after.text_box.lines@.len() == 1
        &&& box_text(after.text_box.lines@) == t
        &&& after.text_box.selection is None
        &&& after.layout_invalid
        &&& after.measure_called == before.measure_called
        &&& after.element.emitted@.len() == before.element.emitted@.len() + 1
        &&& after.element.emitted@.drop_last() == before.element.emitted@
        &&& after.element.emitted@.last() matches ElementEvent::TextUpdate(v) && v@ == t
    }
}

/// Setting a label's text to the text it already took changes nothing and
/// dispatches no second event.
pub proof fn law_same_text_twice_is_no_op(a: LabelDelegate, b: LabelDelegate, c: LabelDelegate, t: Seq<char>)
    requires
        label_text_update(a, b, t),
        label_text_update(b, c, t),
    ensures
        c == b,
        c.element.emitted@.len() <= a.element.emitted@.len() + 1,
{
}

impl LabelDelegate {
    /// An empty label for the element `ew`.
    pub fn new(ew: ElementWeak) -> (r: Self)
        ensures
            r.element == ew,
            r.text@.len() == 0,
            r.text_box.lines@.len() == 0,
            !r.measure_called,
            !r.layout_invalid,
    {
        LabelDelegate {
            element: ew,
            text_box: TextBox::new(),
            text: String::new(),
            measure_called: false,
            layout_invalid: false,
        }
    }

    /// Sets the text; see `label_text_update`.
    pub fn set_text(&mut self, text: &str)
        ensures
            label_text_update(*old(self), *final(self), text@),
    {
        if !str_eq(self.text.as_str(), text) {
            self.text = String::from_str(text);
            self.text_box.clear();
            let line = build_line(String::from_str(text));
            self.text_box.add_line(line);
            proof {
                assert(self.text_box.lines@ =~= seq![line]);
                crate::ui::textbox::lemma_box_text_single(self.text_box.lines@);
            }
            self.layout_invalid = true;
            let ghost before = self.element.emitted@;
            self.element.emit(ElementEvent::TextUpdate(String::from_str(text)));
            proof {
                assert(self.element.emitted@.drop_last() =~= before);
            }
        }
    }
}

impl LabelDelegate {
    /// Follows a change of the element's style: a new text colour, font
    /// family, weight or style goes to the text box; a change of colour or of
    /// any font property leaves the laid out text out of date and asks the
    /// element for a new layout. Font size and line height are lengths, which
    /// the text box does not hold.
    pub fn handle_style_changed(&mut self, key: StylePropKey, el: &mut Element)
        ensures
            final(self).text == old(self).text,
            final(self).text_box.lines == old(self).text_box.lines,
            final(self).text_box.selection == old(self).text_box.selection,
            final(self).element == old(self).element,
            final(self).measure_called == old(self).measure_called,
            final(self).text_box.color == if key == StylePropKey::Color {
                old(el).color
            } else {
                old(self).text_box.color
            },
            final(self).text_box.font_family == if key == StylePropKey::FontFamily {
                old(el).font_family
            } else {
                old(self).text_box.font_family
            },
            final(self).text_box.font_weight == if key == StylePropKey::FontWeight {
                old(el).font_weight
            } else {
                old(self).text_box.font_weight
            },
            final(self).text_box.font_style == if key == StylePropKey::FontStyle {
                old(el).font_style
            } else {
                old(self).text_box.font_style
            },
            final(self).layout_invalid == (old(self).layout_invalid || is_text_style_key(key)),
            is_text_style_key(key) ==> *final(el) == (Element {
                layout_dirty: true,
                paint_dirty: true,
                ..*old(el)
            }),
            !is_text_style_key(key) ==> *final(el) == *old(el),
    {
        let relayout = match key {
            StylePropKey::Color => {
                self.text_box.set_color(el.color);
                true
            },
            StylePropKey::FontFamily => {
                self.text_box.set_font_families(el.font_family.clone());
                true
            },
            StylePropKey::FontWeight => {
                self.text_box.set_font_weight(el.font_weight);
                true
            },
            StylePropKey::FontStyle => {
                self.text_box.set_font_style(el.font_style);
                true
            },
            StylePropKey::FontSize | StylePropKey::LineHeight => true,
            _ => false,
        };
        if relayout {
            self.layout_invalid = true;
            el.mark_dirty(true);
        }
    }
}

/// The style properties whose change alters how a label's text is laid out.
pub open spec fn is_text_style_key(key: StylePropKey) -> bool {
    ||| key == StylePropKey::Color
    ||| key == StylePropKey::FontSize
    ||| key == StylePropKey::FontFamily
    ||| key == StylePropKey::FontWeight
    ||| key == StylePropKey::FontStyle
    ||| key == StylePropKey::LineHeight
}

/// A text element.
pub struct Label {
    pub el: Element,
    pub delegate: LabelDelegate,
}

impl Label {
    /// Sets the text; see `label_text_update`. A change also asks the element
    /// for a new layout.
    pub fn set_text(&mut self, text: String)
        ensures
            label_text_update(old(self).delegate, final(self).delegate, text@),
            old(self).delegate.text@ != text@ ==> final(self).el.layout_dirty
                && final(self).el.paint_dirty,
            final(self).el.id == old(self).el.id,
            final(self).el.tag == old(self).el.tag,
            final(self).el.children == old(self).el.children,
            final(self).el.appended_styles == old(self).el.appended_styles,
            final(self).el.style == old(self).el.style,
            final(self).el.hover_style == old(self).el.hover_style,
    {
        let changed = !str_eq(self.delegate.text.as_str(), text.as_str());
        self.delegate.set_text(text.as_str());
        if changed {
            self.el.mark_dirty(true);
        }
    }

    /// The text.
    pub fn get_text(&self) -> (r: String)
        ensures
            r@ == self.delegate.text@,
    {
        self.delegate.text.clone()
    }

    /// An empty label, for the element `id`.
    pub fn create(id: u32) -> (r: Self)
        ensures
            r.el.id == id,
            r.el.tag@ == "label"@,
            r.el.appended_styles@.len() == 0,
            r.el.children@.len() == 0,
            r.delegate.element.id == id,
            r.delegate.element.emitted@.len() == 0,
            r.delegate.text@.len() == 0,
            r.delegate.text_box.lines@.len() == 0,
    {
        let el = Element::new(id, "label");
        let delegate = LabelDelegate::new(el.as_weak());
        Label { el, delegate }
    }
}

} // verus!
