use deft::base::{Color, IdSource};
use deft::style::key::StylePropKey;
use deft::style::parsed_styles::{ParsedStyleProp, ParsedStyles};
use deft::style::prop::{ResolvedStyleProp, StylePropVal};
use deft::ui::checkbox::Checkbox;
use deft::ui::editable::{split_lines, Editable, InputType};
use deft::ui::element::{Container, Element, ElementEvent};
use deft::ui::image::{Image, ImageSource};
use deft::ui::label::{Label, LabelDelegate};
use deft::ui::radio::{DescendantsChangeType, Radio, RadioGroup, RadioGroupDelegate};
use deft::ui::richtext::RichText;
use deft::ui::select::{Select, SelectOption};
use deft::ui::textbox::{build_line, FontStyle, TextBox, TextElement, TextUnit};
use deft::ui::textedit::TextEdit;
use deft::ui::textinput::TextInput;

fn unit(s: &str) -> TextElement {
    TextElement::Text(TextUnit { text: s.to_string(), color: None, background_color: None })
}

fn display_of(s: &ParsedStyles) -> Vec<(StylePropKey, StylePropVal<String>)> {
    s.0.iter().map(|p| match p { ParsedStyleProp::Fixed(f) => (f.key, f.value.clone()) }).collect()
}

#[test]
fn textbox_get_text_joins_lines() {
    let mut b = TextBox::new();
    assert_eq!(b.get_text(), "");
    b.add_line(vec![unit("ab")]);
    b.add_line(vec![unit("c"), unit("de")]);
    assert_eq!(b.get_text(), "ab\ncde");
    b.insert_line(0, build_line("z".to_string()));
    assert_eq!(b.get_text(), "z\nab\ncde");
    b.delete_line(1);
    assert_eq!(b.get_text(), "z\ncde");
    b.update_line(0, vec![]);
    assert_eq!(b.get_text(), "\ncde");
    b.clear();
    assert_eq!(b.get_text(), "");
    assert!(b.lines.is_empty());
}

#[test]
fn textbox_coord_by_char_offset() {
    let mut b = TextBox::new();
    assert_eq!(b.get_text_coord_by_char_offset(0), None);
    b.add_line(vec![unit("ab")]);
    b.add_line(vec![unit("c"), unit("de")]);
    assert_eq!(b.get_text_coord_by_char_offset(0), Some((0, 0)));
    assert_eq!(b.get_text_coord_by_char_offset(2), Some((0, 2)));
    assert_eq!(b.get_text_coord_by_char_offset(3), Some((1, 0)));
    assert_eq!(b.get_text_coord_by_char_offset(6), Some((1, 3)));
    assert_eq!(b.get_text_coord_by_char_offset(7), None);
}

#[test]
fn textbox_selection_text() {
    let mut b = TextBox::new();
    b.add_line(vec![unit("ab")]);
    b.add_line(vec![unit("cde")]);
    assert_eq!(b.get_selection_text(), None);
    b.select(1, 4);
    assert_eq!(b.get_selection_text(), Some("b\nc".to_string()));
    b.select(4, 1);
    assert_eq!(b.get_selection_text(), Some("b\nc".to_string()));
    b.select(2, 100);
    assert_eq!(b.get_selection_text(), Some("\ncde".to_string()));
    b.set_color(Color(7));
    assert_eq!(b.color, Color(7));
}

#[test]
fn richtext_forwards_to_text_box() {
    let mut r = RichText::create(3);
    assert_eq!(r.el.tag, "rich-text");
    r.add_line(vec![unit("hello")]);
    r.insert_line(0, vec![unit("x")]);
    r.update_line(1, vec![unit("world")]);
    assert_eq!(r.delegate.text_box.get_text(), "x\nworld");
    assert_eq!(r.get_text_coord_by_char_offset(4), Some((1, 2)));
    assert_eq!(r.get_selection_text(), None);
    r.delegate.text_box.select(0, 3);
    assert_eq!(r.get_selection_text(), Some("x\nw".to_string()));
    r.delete_line(0);
    assert_eq!(r.delegate.text_box.get_text(), "world");
    r.delegate.after_style_resolved(Color(9), "serif".to_string(), 700, FontStyle::Italic);
    assert_eq!(r.delegate.text_box.font_weight, 700);
    assert_eq!(r.delegate.text_box.color, Color(9));
    r.clear();
    assert_eq!(r.delegate.text_box.lines.len(), 0);
    assert_eq!(r.delegate.text_box.selection, None);
}

#[test]
fn label_set_text_emits_once_per_change() {
    let mut l = Label::create(5);
    l.set_text("hi".to_string());
    assert_eq!(l.get_text(), "hi");
    assert_eq!(l.delegate.text_box.get_text(), "hi");
    assert!(l.el.layout_dirty);
    assert_eq!(l.delegate.element.emitted, vec![ElementEvent::TextUpdate("hi".to_string())]);
    l.set_text("hi".to_string());
    assert_eq!(l.delegate.element.emitted.len(), 1);
    l.set_text("yo".to_string());
    assert_eq!(l.delegate.element.emitted.len(), 2);
    assert_eq!(l.delegate.element.emitted[1], ElementEvent::TextUpdate("yo".to_string()));
}

#[test]
fn label_delegate_style_changes() {
    let mut d = LabelDelegate::new(Element::new(1, "label").as_weak());
    let mut el = Element::new(1, "label");
    el.color = Color(42);
    d.handle_style_changed(StylePropKey::Width, &mut el);
    assert!(!d.layout_invalid);
    assert!(!el.layout_dirty);
    el.font_family = "mono".to_string();
    d.handle_style_changed(StylePropKey::FontFamily, &mut el);
    assert_eq!(d.text_box.font_family, "mono");
    d.handle_style_changed(StylePropKey::Color, &mut el);
    assert_eq!(d.text_box.color, Color(42));
    assert!(d.layout_invalid);
    assert!(el.layout_dirty);
    d.set_text("abc");
    assert_eq!(d.text, "abc");
}

#[test]
fn editable_set_text_round_trips() {
    let mut e = Editable::new();
    e.set_text("a\nbc\n".to_string());
    assert_eq!(e.get_text(), "a\nbc\n");
    assert_eq!(e.text_box.lines.len(), 3);
    e.set_text(String::new());
    assert_eq!(e.get_text(), "");
    assert_eq!(e.text_box.lines.len(), 1);
    assert_eq!(split_lines("x\n\ny"), vec!["x".to_string(), "".to_string(), "y".to_string()]);
}

#[test]
fn textedit_accessors() {
    let mut ids = IdSource::new();
    let mut t = TextEdit::create(&mut ids);
    assert_eq!(ids.next, 3);
    assert!(t.el.allow_ime && t.el.focusable && t.el.is_form_element);
    assert!(t.editable.multiple_line);
    assert_eq!(t.el.children.len(), 1);
    assert_eq!(t.el.children[0].id, 2);
    assert_eq!(t.el.children[0].tag, "editable");
    assert_eq!(display_of(t.el.children[0].style.as_ref().unwrap()), vec![(StylePropKey::MinHeight, StylePropVal::Custom("2em".to_string()))]);
    t.el.children[0].layout_dirty = false;
    t.set_text("one\ntwo".to_string());
    assert!(t.el.children[0].layout_dirty);
    assert_eq!(t.get_text(), "one\ntwo");
    t.set_placeholder("type here".to_string());
    assert_eq!(t.get_placeholder(), "type here");
    t.set_max_history(20);
    assert_eq!(t.get_max_history(), 20);
    t.set_selection_by_char_offset(1, 5);
    assert_eq!(t.editable.text_box.get_selection_text(), Some("ne\nt".to_string()));
    t.set_caret_by_char_offset(2);
    assert_eq!(t.editable.caret, 2);
    assert_eq!(t.editable.text_box.selection, None);
}

#[test]
fn textinput_type_controls_ime() {
    let mut ids = IdSource::new();
    let mut t = TextInput::create(&mut ids);
    assert_eq!(ids.next, 4);
    assert!(t.el.allow_ime);
    assert!(!t.editable.multiple_line);
    assert_eq!(t.el.children.len(), 1);
    assert_eq!(t.el.children[0].tag, "container");
    assert_eq!(t.el.children[0].children.len(), 1);
    assert_eq!(t.el.children[0].children[0].id, 3);
    assert_eq!(t.el.children[0].children[0].tag, "editable");
    assert_eq!(
        display_of(t.el.children[0].children[0].style.as_ref().unwrap()),
        vec![(StylePropKey::MinWidth, StylePropVal::Custom("100%".to_string()))]
    );
    t.set_type(InputType::Password);
    assert_eq!(t.get_type(), InputType::Password);
    assert!(!t.el.allow_ime);
    t.set_type(InputType::Text);
    assert!(t.el.allow_ime);
    t.set_text("secret".to_string());
    assert_eq!(t.get_text(), "secret");
    t.set_placeholder("pw".to_string());
    assert_eq!(t.get_placeholder(), "pw");
}

#[test]
fn select_value_and_label() {
    let mut ids = IdSource::new();
    let mut s = Select::create(&mut ids);
    s.set_options(vec![
        SelectOption::new("a".to_string(), "Apple".to_string()),
        SelectOption::new("b".to_string(), "Banana".to_string()),
        SelectOption::new("b".to_string(), "Second b".to_string()),
    ]);
    assert_eq!(s.get_options().len(), 3);
    s.set_value("b".to_string());
    assert_eq!(s.get_value(), "b");
    assert_eq!(s.state.label.text, "Banana");
    assert_eq!(s.state.element_weak.emitted, vec![ElementEvent::Change]);
    s.set_value("b".to_string());
    assert_eq!(s.state.element_weak.emitted.len(), 1);
    s.set_value("zz".to_string());
    assert_eq!(s.state.label.text, "zz");
    assert_eq!(s.state.element_weak.emitted.len(), 2);
}

#[test]
fn select_placeholder_round_trips() {
    let mut ids = IdSource::new();
    let mut s = Select::create(&mut ids);
    assert_eq!(s.get_placeholder(), "");
    s.set_placeholder("Pick one".to_string());
    assert_eq!(s.get_placeholder(), "Pick one");
    s.set_placeholder("again".to_string());
    assert_eq!(s.get_placeholder(), "again");
}

#[test]
fn select_pseudo_styles_and_colour() {
    let mut ids = IdSource::new();
    let mut s = Select::create(&mut ids);
    let r = ResolvedStyleProp { key: StylePropKey::Color, value: "red".to_string() };
    let blue = ResolvedStyleProp { key: StylePropKey::Color, value: "blue".to_string() };
    let w = ResolvedStyleProp { key: StylePropKey::Width, value: "3px".to_string() };
    s.state.accept_pseudo_element_styles(Some(vec![r]), None, Some(vec![]), Some(vec![blue, w]));
    assert_eq!(s.state.placeholder_color, Some("blue".to_string()));
    s.state.accept_pseudo_element_styles(None, None, None, Some(vec![]));
    assert_eq!(s.state.placeholder_color, Some("blue".to_string()));
    assert_eq!(s.state.options_style.len(), 1);
    assert_eq!(s.state.options_style[0].value, StylePropVal::Custom("red".to_string()));
    assert!(s.state.option_style.is_empty());
    let mut el = Element::new(9, "select");
    el.color = Color(3);
    s.state.handle_style_changed(StylePropKey::Color, &mut el);
    assert_eq!(s.state.select_img.color, Color(3));
    assert!(el.paint_dirty);
}

fn image(c: &Checkbox) -> &Element {
    &c.el.children[0].children[0].children[0]
}

#[test]
fn checkbox_toggles_and_shows_mark() {
    let mut ids = IdSource::new();
    let mut c = Checkbox::create(&mut ids);
    assert_eq!(ids.next, 6);
    assert!(!c.is_checked());
    assert_eq!(c.el.children.len(), 1);
    let wrapper = &c.el.children[0];
    assert_eq!(wrapper.id, 2);
    assert_eq!(wrapper.children.len(), 2);
    assert_eq!(wrapper.children[0].id, 3);
    assert_eq!(wrapper.children[1].id, 4);
    assert_eq!(wrapper.children[1].tag, "label");
    assert_eq!(wrapper.children[0].children[0].id, 5);
    assert_eq!(wrapper.children[0].children[0].tag, "image");
    assert_eq!(display_of(&image(&c).appended_styles[0]), vec![(StylePropKey::Display, StylePropVal::Custom("none".to_string()))]);
    c.set_checked(true);
    assert!(c.is_checked());
    assert_eq!(c.state.element.emitted, vec![ElementEvent::Change]);
    assert_eq!(display_of(image(&c).appended_styles.last().unwrap()), vec![(StylePropKey::Display, StylePropVal::Custom("flex".to_string()))]);
    c.set_checked(true);
    assert_eq!(c.state.element.emitted.len(), 1);
    c.set_label("Agree".to_string());
    assert_eq!(c.get_label(), "Agree");
    assert!(c.el.children[0].children[1].layout_dirty);
    c.state.accept_pseudo_element_styles(
        Some(vec![ResolvedStyleProp { key: StylePropKey::Width, value: "9px".to_string() }]),
        &mut c.el,
    );
    assert_eq!(c.el.children[0].children[0].appended_styles.len(), 1);
    c.on_click();
    assert!(!c.is_checked());
    assert_eq!(c.state.element.emitted.len(), 2);
    assert_eq!(display_of(image(&c).appended_styles.last().unwrap()), vec![(StylePropKey::Display, StylePropVal::Custom("none".to_string()))]);
}

#[test]
fn radio_group_keeps_one_checked() {
    let mut ids = IdSource::new();
    let mut group = RadioGroup::create(&mut ids);
    assert_eq!(group.el.js_events, vec!["change".to_string()]);
    let r1 = Radio::create(&mut ids);
    let r2 = Radio::create(&mut ids);
    let id1 = r1.el.id;
    let id2 = r2.el.id;
    let mut holder = Container::create(ids.take());
    holder.el.add_child(r1.el, None);
    holder.el.add_child(r2.el, None);
    group.delegate.search_radio_recursively(&mut holder.el, DescendantsChangeType::Attached);
    assert_eq!(group.delegate.radio_list.len(), 2);
    assert!(holder.el.children[0].radio.as_ref().unwrap().grouped);
    assert!(holder.el.children[1].radio.as_ref().unwrap().grouped);
    group.delegate.set_checked(id1, true);
    let checked: Vec<bool> = group.delegate.radio_list.iter().map(|r| r.checked).collect();
    assert_eq!(checked, vec![true, false]);
    group.delegate.set_checked(id2, true);
    let checked: Vec<bool> = group.delegate.radio_list.iter().map(|r| r.checked).collect();
    assert_eq!(checked, vec![false, true]);
    assert!(group.delegate.update_checked(id1, true).is_ok());
    let checked: Vec<bool> = group.delegate.radio_list.iter().map(|r| r.checked).collect();
    assert_eq!(checked, vec![true, false]);
}

#[test]
fn attaching_a_checked_radio_to_a_checked_group_unchecks_it() {
    let mut ids = IdSource::new();
    let mut group = RadioGroup::create(&mut ids);
    let mut no_group = RadioGroupDelegate::new();
    let mut r1 = Radio::create(&mut ids);
    let mut r2 = Radio::create(&mut ids);
    r1.set_checked(true, &mut no_group);
    r2.set_checked(true, &mut no_group);
    let mut holder = Container::create(ids.take());
    holder.el.add_child(r1.el, None);
    holder.el.add_child(r2.el, None);
    group.delegate.search_radio_recursively(&mut holder.el, DescendantsChangeType::Attached);
    let checked: Vec<bool> = group.delegate.radio_list.iter().map(|r| r.checked).collect();
    assert_eq!(checked, vec![true, false]);
    let second = &holder.el.children[1];
    assert!(!second.radio.as_ref().unwrap().checked);
    assert_eq!(
        display_of(second.children[0].children[0].children[0].appended_styles.last().unwrap()),
        vec![(StylePropKey::Display, StylePropVal::Custom("none".to_string()))]
    );
}

#[test]
fn radio_group_drops_removed_radios() {
    let mut ids = IdSource::new();
    let mut group = RadioGroup::create(&mut ids);
    let r1 = Radio::create(&mut ids);
    let r2 = Radio::create(&mut ids);
    let id2 = r2.el.id;
    let mut holder = Container::create(ids.take());
    holder.el.add_child(r1.el, None);
    holder.el.add_child(r2.el, None);
    group.delegate.search_radio_recursively(&mut holder.el, DescendantsChangeType::Attached);
    assert_eq!(group.delegate.radio_list.len(), 2);
    let mut gone = holder.el.children.remove(0);
    group.delegate.search_radio_recursively(&mut gone, DescendantsChangeType::Removed);
    let left: Vec<u32> = group.delegate.radio_list.iter().map(|r| r.element.id).collect();
    assert_eq!(left, vec![id2]);
    assert!(!gone.radio.as_ref().unwrap().grouped);
    assert!(holder.el.children[0].radio.as_ref().unwrap().grouped);
}

#[test]
fn checking_a_grouped_radio_unchecks_the_others() {
    let mut ids = IdSource::new();
    let mut group = RadioGroup::create(&mut ids);
    let r1 = Radio::create(&mut ids);
    let r2 = Radio::create(&mut ids);
    let id1 = r1.el.id;
    let mut holder = Container::create(ids.take());
    holder.el.add_child(r1.el, None);
    holder.el.add_child(r2.el, None);
    group.delegate.search_radio_recursively(&mut holder.el, DescendantsChangeType::Attached);
    group.delegate.set_checked(id1, true);
    let mut second = Radio { el: holder.el.children.remove(1), base: r2.base, label: r2.label };
    second.set_checked(true, &mut group.delegate);
    assert_eq!(second.is_checked().unwrap(), true);
    assert_eq!(second.el.radio.as_ref().unwrap().element.emitted, vec![ElementEvent::Change]);
    let checked: Vec<bool> = group.delegate.radio_list.iter().map(|r| r.checked).collect();
    assert_eq!(checked, vec![false, true]);
    second.set_checked(false, &mut group.delegate);
    assert_eq!(second.is_checked().unwrap(), false);
    let checked: Vec<bool> = group.delegate.radio_list.iter().map(|r| r.checked).collect();
    assert_eq!(checked, vec![false, false]);
}

#[test]
fn radio_widget_state() {
    let mut ids = IdSource::new();
    let mut r = Radio::create(&mut ids);
    let mut no_group = RadioGroupDelegate::new();
    assert_eq!(r.is_checked().unwrap(), false);
    r.set_checked(true, &mut no_group);
    assert_eq!(r.is_checked().unwrap(), true);
    assert!(no_group.radio_list.is_empty());
    r.set_label("A".to_string());
    assert_eq!(r.get_label(), "A");
    r.el.radio = None;
    assert!(r.is_checked().is_err());
}

#[test]
fn radio_tree_and_click() {
    let mut ids = IdSource::new();
    let mut r = Radio::create(&mut ids);
    assert_eq!(ids.next, 7);
    assert_eq!(r.el.children.len(), 1);
    assert_eq!(r.el.children[0].id, 3);
    assert_eq!(
        display_of(r.el.children[0].style.as_ref().unwrap()),
        vec![
            (StylePropKey::AlignItems, StylePropVal::Custom("center".to_string())),
            (StylePropKey::FlexDirection, StylePropVal::Custom("row".to_string())),
        ]
    );
    assert_eq!(r.el.children[0].children.len(), 2);
    assert_eq!(r.el.children[0].children[0].id, 4);
    assert_eq!(r.el.children[0].children[1].id, 5);
    assert_eq!(r.el.children[0].children[1].tag, "label");
    assert_eq!(r.label.element.id, 5);
    assert_eq!(r.el.children[0].children[0].children[0].id, 6);
    assert_eq!(r.el.children[0].children[0].children[0].tag, "image");
    assert_eq!(
        display_of(&r.el.children[0].children[0].children[0].appended_styles[0]),
        vec![(StylePropKey::Display, StylePropVal::Custom("none".to_string()))]
    );
    let mut no_group = RadioGroupDelegate::new();
    r.on_click(&mut no_group);
    assert_eq!(r.is_checked().unwrap(), true);
    assert_eq!(
        display_of(r.el.children[0].children[0].children[0].appended_styles.last().unwrap()),
        vec![(StylePropKey::Display, StylePropVal::Custom("flex".to_string()))]
    );
    assert_eq!(r.el.radio.as_ref().unwrap().element.emitted, vec![ElementEvent::Change]);
    r.on_click(&mut no_group);
    assert_eq!(r.el.radio.as_ref().unwrap().element.emitted.len(), 1);
}

#[test]
fn image_sources() {
    let mut img = Image::create(2);
    assert_eq!(img.img.source, ImageSource::Empty);
    img.el.color = Color(5);
    img.set_src("a.png".to_string());
    assert_eq!(img.img.source, ImageSource::Path("a.png".to_string()));
    assert_eq!(img.img.color, Color(5));
    img.set_src_svg_raw(&[1, 2, 3]);
    assert_eq!(img.img.source, ImageSource::Svg(vec![1, 2, 3]));
    assert!(img.el.layout_dirty);
}

#[test]
fn select_options_popup_and_choice() {
    let mut ids = IdSource::new();
    let mut s = Select::create(&mut ids);
    s.set_options(vec![
        SelectOption::new("r".to_string(), "Red".to_string()),
        SelectOption::new("g".to_string(), "Green".to_string()),
    ]);
    s.state.accept_pseudo_element_styles(
        None,
        Some(vec![ResolvedStyleProp { key: StylePropKey::PaddingTop, value: "2px".to_string() }]),
        None,
        None,
    );
    let popup = s.state.build_options_element(&mut ids);
    assert_eq!(ids.next, 3 + 3);
    assert_eq!(popup.labels.len(), 2);
    assert_eq!(popup.labels[1].text, "Green");
    assert_eq!(popup.wrapper.el.children.len(), 2);
    assert_eq!(popup.wrapper.el.children[1].tag, "label");
    assert_eq!(popup.wrapper.el.children[1].id, popup.labels[1].element.id);
    assert_eq!(popup.values, vec!["r".to_string(), "g".to_string()]);
    assert_eq!(
        display_of(popup.wrapper.el.children[0].style.as_ref().unwrap()),
        vec![(StylePropKey::PaddingTop, StylePropVal::Custom("2px".to_string()))]
    );
    s.choose_option(&popup, 1);
    assert_eq!(s.get_value(), "g");
    assert_eq!(s.state.label.text, "Green");
}

#[test]
fn checked_attribute_drives_checkbox_and_radio() {
    let mut ids = IdSource::new();
    let mut c = Checkbox::create(&mut ids);
    c.state.on_attribute_changed("checked", Some(""), &mut c.el);
    assert!(c.is_checked());
    c.state.on_attribute_changed("disabled", None, &mut c.el);
    assert!(c.is_checked());
    c.state.on_attribute_changed("checked", None, &mut c.el);
    assert!(!c.is_checked());
    assert_eq!(c.state.element.emitted.len(), 2);

    let mut r = Radio::create(&mut ids);
    let mut state = *r.el.radio.take().unwrap();
    let mut no_group = RadioGroupDelegate::new();
    state.on_attribute_changed("checked", Some("yes"), &mut no_group, &mut r.el);
    assert!(state.checked);
    assert_eq!(r.el.children[0].children[0].children[0].appended_styles.len(), 2);
    state.accept_pseudo_element_styles(
        Some(vec![ResolvedStyleProp { key: StylePropKey::Width, value: "1px".to_string() }]),
        &mut r.el,
    );
    assert_eq!(r.el.children[0].children[0].appended_styles.len(), 1);
    state.accept_pseudo_element_styles(None, &mut r.el);
    assert_eq!(r.el.children[0].children[0].appended_styles.len(), 1);
}
