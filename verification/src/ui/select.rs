use vstd::prelude::*;
use crate::base::IdSource;
use crate::style::key::StylePropKey;
use crate::style::prop::{FixedStyleProp, ResolvedStyleProp, to_unresolved_all, unresolved_all};
use crate::text::str_eq;
use crate::style::parsed_styles::ParsedStyles;
use crate::ui::element::{Container, Element, ElementEvent, ElementWeak};
use crate::ui::image::ImageObject;
use crate::ui::label::{Label, LabelDelegate, label_text_update};
use crate::ui::textedit::{first_child_marked, mark_first_child_dirty};
use crate::ui::textbox::{TextBox, box_text, build_line, lemma_box_text_single};

verus! {

/// One choice of a select: the value it stands for and the text shown.
pub struct SelectOption {
    pub value: String,
    pub label: String,
}

impl SelectOption {
    pub fn new(value: String, label: String) -> (r: Self)
        ensures
            r.value == value,
            r.label == label,
    {
        SelectOption { value, label }
    }

    /// A copy of this option.
    pub fn duplicate(&self) -> (r: Self)
        ensures
            r == *self,
    {
        SelectOption { value: self.value.clone(), label: self.label.clone() }
    }
}

/// The event a select dispatches when its value changes.
pub struct ChangeEvent {}

pub open spec fn option_view(o: SelectOption) -> (Seq<char>, Seq<char>) {
    (o.value@, o.label@)
}

/// The text shown for value `v`: the label of the first option, from
/// position `i` on, whose value is `v`; the value itself where none is.
pub open spec fn shown_label(opts: Seq<(Seq<char>, Seq<char>)>, v: Seq<char>, i: int) -> Seq<char>
    decreases opts.len() - i,
{
    if i < 0 || i >= opts.len() {
        v
    } else if opts[i].0 == v {
        opts[i].1
    } else {
        shown_label(opts, v, i + 1)
    }
}

/// The value of the last `Color` property among resolved properties.
pub open spec fn last_color(s: Seq<ResolvedStyleProp>) -> Option<String>
    decreases s.len(),
{
    if s.len() == 0 {
        None
    } else if s.last().key == StylePropKey::Color {
        Some(s.last().value)
    } else {
        last_color(s.drop_last())
    }
}

/// The state behind a select.
pub struct SelectDelegate {
    pub element_weak: ElementWeak,
    pub placeholder: TextBox,
    pub select_img: ImageObject,
    pub options_style: Vec<FixedStyleProp>,
    pub option_style: Vec<FixedStyleProp>,
    pub option_hover_style: Vec<FixedStyleProp>,
    /// The state of the label that shows the chosen option; its element is
    /// the select element's child.
    pub label: LabelDelegate,
    /// The colour that the `placeholder` pseudo element gives the
    /// placeholder text, as resolved style text, where one was given.
    pub placeholder_color: Option<String>,
    pub value: String,
    pub options: Vec<SelectOption>,
}

impl SelectDelegate {
    pub open spec fn options_view(&self) -> Seq<(Seq<char>, Seq<char>)> {
        self.options@.map_values(|o: SelectOption| option_view(o))
    }

    /// The label shown for `value` among the options.
    fn find_label(&self, value: &str) -> (r: String)
        ensures
            r@ == shown_label(self.options_view(), value@, 0),
    {
        let n = self.options.len();
        let mut i: usize = 0;
        while i < n
            invariant
                n == self.options@.len(),
                i <= n,
                shown_label(self.options_view(), value@, i as int) == shown_label(
                    self.options_view(),
                    value@,
                    0,
                ),
            decreases n - i,
        {
            let o = &self.options[i];
            if str_eq(o.value.as_str(), value) {
                return o.label.clone();
            }
            i = i + 1;
        }
        String::from_str(value)
    }

    /// Selects `value`. Where it differs from the current value, the label
    /// shows the text of the first option with that value (the value itself
    /// where no option has it), and a change event is dispatched.
    pub fn set_value(&mut self, value: String)
        ensures
            final(self).value@ == value@,
            final(self).options == old(self).options,
            final(self).placeholder == old(self).placeholder,
            final(self).element_weak.id == old(self).element_weak.id,
            old(self).value@ == value@ ==> *final(self) == *old(self),
            old(self).value@ != value@ ==> {
                &&& label_text_update(
                    old(self).label,
                    final(self).label,
                    shown_label(old(self).options_view(), value@, 0),
                )
                &&& final(self).element_weak.emitted@ == old(self).element_weak.emitted@.push(
                    ElementEvent::Change,
                )
            },
    {
        if !str_eq(self.value.as_str(), value.as_str()) {
            let label = self.find_label(value.as_str());
            self.label.set_text(label.as_str());
            self.value = value;
            self.element_weak.emit(ElementEvent::Change);
        }
    }

    /// Takes the styles given to the `options`, `option` and `option-hover`
    /// pseudo elements, where there are any.
    pub fn accept_pseudo_element_styles(
        &mut self,
        options: Option<Vec<ResolvedStyleProp>>,
        option: Option<Vec<ResolvedStyleProp>>,
        option_hover: Option<Vec<ResolvedStyleProp>>,
        placeholder: Option<Vec<ResolvedStyleProp>>,
    )
        ensures
            final(self).placeholder_color == match placeholder {
                Some(s) => match last_color(s@) {
                    Some(c) => Some(c),
                    None => old(self).placeholder_color,
                },
                None => old(self).placeholder_color,
            },
            final(self).options_style@ == match options {
                Some(s) => unresolved_all(s@),
                None => old(self).options_style@,
            },
            final(self).option_style@ == match option {
                Some(s) => unresolved_all(s@),
                None => old(self).option_style@,
            },
            final(self).option_hover_style@ == match option_hover {
                Some(s) => unresolved_all(s@),
                None => old(self).option_hover_style@,
            },
            final(self).value == old(self).value,
            final(self).options == old(self).options,
            final(self).label == old(self).label,
    {
        if let Some(s) = options {
            self.options_style = to_unresolved_all(&s);
        }
        if let Some(s) = option {
            self.option_style = to_unresolved_all(&s);
        }
        if let Some(s) = option_hover {
            self.option_hover_style = to_unresolved_all(&s);
        }
        if let Some(s) = placeholder {
            let n = s.len();
            let mut i: usize = 0;
            let ghost start = self.placeholder_color;
            while i < n
                invariant
                    n == s@.len(),
                    i <= n,
                    self.placeholder_color == match last_color(s@.take(i as int)) {
                        Some(c) => Some(c),
                        None => start,
                    },
                    self.value == old(self).value,
                    self.options == old(self).options,
                    self.label == old(self).label,
                    self.options_style@ == match options {
                        Some(o) => unresolved_all(o@),
                        None => old(self).options_style@,
                    },
                    self.option_style@ == match option {
                        Some(o) => unresolved_all(o@),
                        None => old(self).option_style@,
                    },
                    self.option_hover_style@ == match option_hover {
                        Some(o) => unresolved_all(o@),
                        None => old(self).option_hover_style@,
                    },
                decreases n - i,
            {
                proof {
                    assert(s@.take(i + 1).drop_last() =~= s@.take(i as int));
                    assert(s@.take(i + 1).last() == s@[i as int]);
                }
                if s[i].key == StylePropKey::Color {
                    self.placeholder_color = Some(s[i].value.clone());
                }
                i = i + 1;
            }
            proof {
                assert(s@.take(n as int) =~= s@);
            }
        }
    }

    /// Tints the arrow with the element's text colour when that colour
    /// changes, and asks for a repaint where the tint changed.
    pub fn handle_style_changed(&mut self, key: StylePropKey, el: &mut Element)
        ensures
            key == StylePropKey::Color ==> final(self).select_img.color == old(el).color,
            key != StylePropKey::Color ==> final(self).select_img == old(self).select_img,
            final(self).select_img.source == old(self).select_img.source,
            final(el).paint_dirty == (old(el).paint_dirty || (key == StylePropKey::Color
                && old(self).select_img.color != old(el).color)),
            final(el).layout_dirty == old(el).layout_dirty,
            final(el).id == old(el).id,
            final(el).color == old(el).color,
            final(self).value == old(self).value,
    {
        if key == StylePropKey::Color {
            if self.select_img.set_color(el.color) {
                el.mark_dirty(false);
            }
        }
    }
}

/// The popup list of a select's options: a wrapper whose children are the
/// label elements of the options, the state of each label (the text it
/// shows), and the value that choosing each option selects.
pub struct OptionsPopup {
    pub wrapper: Container,
    pub labels: Vec<LabelDelegate>,
    pub values: Vec<String>,
}

/// A copy of each property, in order.
fn duplicate_all(v: &Vec<FixedStyleProp>) -> (r: Vec<FixedStyleProp>)
    ensures
        r@ == v@,
{
    let mut out: Vec<FixedStyleProp> = Vec::new();
    let n = v.len();
    let mut i: usize = 0;
    while i < n
        invariant
            n == v@.len(),
            i <= n,
            out@ == v@.take(i as int),
        decreases n - i,
    {
        out.push(v[i].duplicate());
        proof {
            assert(out@ =~= v@.take(i + 1));
        }
        i = i + 1;
    }
    proof {
        assert(v@.take(n as int) =~= v@);
    }
    out
}

impl SelectDelegate {
    /// Builds the popup list: a wrapper styled with the `options` styles
    /// whose children are, for each option in order, a label element styled
    /// with the `option` styles, with the `option-hover` styles as its hover
    /// style, whose label shows the option's text. Elements take their ids
    /// from `ids`.
    pub fn build_options_element(&self, ids: &mut IdSource) -> (r: OptionsPopup)
        requires
            old(ids).next + self.options@.len() + 1 <= u32::MAX,
        ensures
            final(ids).next == old(ids).next + self.options@.len() + 1,
            r.wrapper.el.id == old(ids).next,
            r.wrapper.el.tag@ == "container"@,
            r.wrapper.el.style matches Some(st) && st@ == self.options_style@.map_values(
                |p: FixedStyleProp| p@,
            ),
            r.wrapper.el.children@.len() == self.options@.len(),
            r.labels@.len() == self.options@.len(),
            r.values@.len() == self.options@.len(),
            forall|i: int|
                0 <= i < self.options@.len() ==> {
                    &&& (#[trigger] r.labels@[i]).text@ == self.options@[i].label@
                    &&& r.labels@[i].element.id == old(ids).next + 1 + i
                    &&& r.wrapper.el.children@[i].id == old(ids).next + 1 + i
                    &&& r.wrapper.el.children@[i].tag@ == "label"@
                    &&& r.wrapper.el.children@[i].children@.len() == 0
                    &&& r.wrapper.el.children@[i].style matches Some(st) && st@
                        == self.option_style@.map_values(|p: FixedStyleProp| p@)
                    &&& r.wrapper.el.children@[i].hover_style matches Some(st) && st@
                        == self.option_hover_style@.map_values(|p: FixedStyleProp| p@)
                    &&& r.values@[i]@ == self.options@[i].value@
                },
    {
        let mut wrapper = Container::create(ids.take());
        wrapper.el.set_style(ParsedStyles::from_fixed(duplicate_all(&self.options_style)));
        let mut labels: Vec<LabelDelegate> = Vec::new();
        let mut values: Vec<String> = Vec::new();
        let n = self.options.len();
        let ghost first = old(ids).next;
        let ghost wid = wrapper.el.id;
        let mut i: usize = 0;
        while i < n
            invariant
                n == self.options@.len(),
                i <= n,
                first + n + 1 <= u32::MAX,
                ids.next == first + 1 + i,
                wrapper.el.id == first,
                wrapper.el.tag@ == "container"@,
                wrapper.el.style matches Some(st) && st@ == self.options_style@.map_values(
                    |p: FixedStyleProp| p@,
                ),
                wrapper.el.children@.len() == i,
                labels@.len() == i,
                values@.len() == i,
                forall|j: int|
                    0 <= j < i ==> {
                        &&& (#[trigger] labels@[j]).text@ == self.options@[j].label@
                        &&& labels@[j].element.id == first + 1 + j
                        &&& wrapper.el.children@[j].id == first + 1 + j
                        &&& wrapper.el.children@[j].tag@ == "label"@
                        &&& wrapper.el.children@[j].children@.len() == 0
                        &&& wrapper.el.children@[j].style matches Some(st) && st@
                            == self.option_style@.map_values(|p: FixedStyleProp| p@)
                        &&& wrapper.el.children@[j].hover_style matches Some(st) && st@
                            == self.option_hover_style@.map_values(|p: FixedStyleProp| p@)
                        &&& values@[j]@ == self.options@[j].value@
                    },
            decreases n - i,
        {
            let mut label = Label::create(ids.take());
            label.el.set_style(ParsedStyles::from_fixed(duplicate_all(&self.option_style)));
            label.el.set_hover_style(ParsedStyles::from_fixed(duplicate_all(&self.option_hover_style)));
            let option = &self.options[i];
            label.set_text(option.label.clone());
            let Label { el, delegate } = label;
            wrapper.el.add_child(el, None);
            labels.push(delegate);
            values.push(option.value.clone());
            i = i + 1;
        }
        OptionsPopup { wrapper, labels, values }
    }
}

/// A drop-down choice among options.
pub struct Select {
    pub el: Element,
    pub state: SelectDelegate,
}

impl Select {
    /// The placeholder text, shown while nothing is chosen.
    pub open spec fn placeholder_text(&self) -> Seq<char> {
        box_text(self.state.placeholder.lines@)
    }

    /// The element holds the label's element as its first child.
    pub open spec fn wf(&self) -> bool {
        self.el.children@.len() >= 1
    }

    /// Selects `value`; see `SelectDelegate::set_value`. Where the label's
    /// text changes, its element is asked for a new layout.
    pub fn set_value(&mut self, value: String)
        requires
            old(self).wf(),
        ensures
            final(self).state.value@ == value@,
            final(self).state.options == old(self).state.options,
            old(self).state.value@ == value@ ==> final(self).state == old(self).state,
            old(self).state.value@ != value@ ==> {
                &&& label_text_update(
                    old(self).state.label,
                    final(self).state.label,
                    shown_label(old(self).state.options_view(), value@, 0),
                )
                &&& final(self).state.element_weak.emitted@
                    == old(self).state.element_weak.emitted@.push(ElementEvent::Change)
            },
            final(self).state.label.text@ != old(self).state.label.text@ ==> first_child_marked(
                old(self).el,
                final(self).el,
                true,
            ),
            final(self).state.label.text@ == old(self).state.label.text@ ==> final(self).el == old(
                self,
            ).el,
    {
        let before = self.state.label.text.clone();
        self.state.set_value(value);
        if !str_eq(before.as_str(), self.state.label.text.as_str()) {
            mark_first_child_dirty(&mut self.el, true);
        }
    }

    /// Chooses the option at `index` of the popup: selects its value.
    pub fn choose_option(&mut self, popup: &OptionsPopup, index: usize)
        requires
            old(self).wf(),
            index < popup.values@.len(),
        ensures
            final(self).state.value@ == popup.values@[index as int]@,
            final(self).state.options == old(self).state.options,
            final(self).wf(),
    {
        self.set_value(popup.values[index].clone());
    }

    pub fn get_value(&self) -> (r: String)
        ensures
            r@ == self.state.value@,
    {
        self.state.value.clone()
    }

    pub fn set_options(&mut self, options: Vec<SelectOption>)
        ensures
            final(self).state.options == options,
            final(self).state.value == old(self).state.value,
            final(self).state.label == old(self).state.label,
            final(self).el == old(self).el,
    {
        self.state.options = options;
    }

    pub fn get_options(&self) -> (r: Vec<SelectOption>)
        ensures
            r@ == self.state.options@,
    {
        let n = self.state.options.len();
        let mut out: Vec<SelectOption> = Vec::new();
        let mut i: usize = 0;
        while i < n
            invariant
                n == self.state.options@.len(),
                i <= n,
                out@ == self.state.options@.take(i as int),
            decreases n - i,
        {
            out.push(self.state.options[i].duplicate());
            proof {
                assert(out@ =~= self.state.options@.take(i + 1));
            }
            i = i + 1;
        }
        proof {
            assert(self.state.options@.take(n as int) =~= self.state.options@);
        }
        out
    }

    /// Sets the placeholder text; `get_placeholder` then gives it back.
    pub fn set_placeholder(&mut self, value: String)
        ensures
            final(self).placeholder_text() == value@,
            final(self).state.value == old(self).state.value,
            final(self).state.options == old(self).state.options,
            final(self).state.label == old(self).state.label,
            final(self).el.layout_dirty,
            final(self).el.id == old(self).el.id,
    {
        self.state.placeholder.clear();
        let line = build_line(value);
        self.state.placeholder.add_line(line);
        proof {
            lemma_box_text_single(self.state.placeholder.lines@);
        }
        self.el.mark_dirty(true);
    }

    pub fn get_placeholder(&self) -> (r: String)
        ensures
            r@ == self.placeholder_text(),
    {
        self.state.placeholder.get_text()
    }

    /// A select with no options and no value, whose element has one child,
    /// the element of its label; the two take their ids from `ids`.
    pub fn create(ids: &mut IdSource) -> (r: Self)
        requires
            old(ids).next + 2 <= u32::MAX,
        ensures
            final(ids).next == old(ids).next + 2,
            r.el.id == old(ids).next,
            r.el.tag@ == "select"@,
            r.el.is_form_element,
            r.el.js_events@.len() == 1,
            r.el.js_events@[0]@ == "change"@,
            r.state.element_weak.id == r.el.id,
            r.state.element_weak.emitted@.len() == 0,
            r.state.value@.len() == 0,
            r.state.options@.len() == 0,
            r.state.placeholder.lines@.len() == 0,
            r.state.label.text@.len() == 0,
            r.state.label.element.id == old(ids).next + 1,
            r.state.placeholder_color is None,
            r.wf(),
            r.el.children@.len() == 1,
            r.el.children@[0].id == old(ids).next + 1,
            r.el.children@[0].tag@ == "label"@,
            r.el.children@[0].children@.len() == 0,
    {
        let mut element = Element::new(ids.take(), "select");
        element.is_form_element = true;
        element.register_js_event("change");
        let Label { el: label_el, delegate: label } = Label::create(ids.take());
        let ghost lel = label_el;
        element.add_child(label_el, Some(0));
        let state = SelectDelegate {
            placeholder: TextBox::new(),
            select_img: ImageObject::none(),
            element_weak: element.as_weak(),
            options_style: Vec::new(),
            option_style: Vec::new(),
            option_hover_style: Vec::new(),
            label,
            placeholder_color: None,
            value: String::new(),
            options: Vec::new(),
        };
        proof {
            assert(element.js_events@.len() == 1);
            assert(element.children@[0] == lel);
        }
        Select { el: element, state }
    }
}

} // verus!
