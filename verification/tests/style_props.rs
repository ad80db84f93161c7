use deft::style::box_prop::parse_box_prop;
use deft::style::key::StylePropKey;
use deft::style::parsed_styles::{ParsedStyleProp, ParsedStyles, StyleList};
use deft::style::prop::{FixedStyleProp, PropValueParse, ResolvedStyleProp, StylePropVal};
use deft::text::{remove_hyphens, str_eq, trim};

fn box_of(s: &str, d: &str) -> (String, String, String, String) {
    parse_box_prop(s, d)
}

fn t(a: &str, b: &str, c: &str, d: &str) -> (String, String, String, String) {
    (a.to_string(), b.to_string(), c.to_string(), d.to_string())
}

#[test]
fn box_prop_one_value_applies_to_all_sides() {
    assert_eq!(box_of("5px", "0"), t("5px", "5px", "5px", "5px"));
}

#[test]
fn box_prop_two_values_pair_up() {
    assert_eq!(box_of("1px 2px", "0"), t("1px", "2px", "1px", "2px"));
}

#[test]
fn box_prop_three_values_left_takes_right() {
    assert_eq!(box_of("1 2 3", "0"), t("1", "2", "3", "2"));
}

#[test]
fn box_prop_four_values_in_order() {
    assert_eq!(box_of("1 2 3 4", "0"), t("1", "2", "3", "4"));
}

#[test]
fn box_prop_empty_takes_default() {
    assert_eq!(box_of("", "none"), t("none", "none", "none", "none"));
}

#[test]
fn box_prop_extra_spaces_are_skipped() {
    assert_eq!(box_of("  1px   2px ", "0"), t("1px", "2px", "1px", "2px"));
}

#[test]
fn box_prop_tokens_join_law_on_values() {
    // The words of "a b" are the words of "a" then those of "b".
    assert_eq!(box_of("a b", "0"), t("a", "b", "a", "b"));
    assert_eq!(box_of("a", "0").0, "a");
}

#[test]
fn key_parse_any_case() {
    assert_eq!(StylePropKey::parse("Color"), Some(StylePropKey::Color));
    assert_eq!(StylePropKey::parse("COLOR"), Some(StylePropKey::Color));
    assert_eq!(StylePropKey::parse("flexdirection"), Some(StylePropKey::FlexDirection));
    assert_eq!(StylePropKey::parse("BorderTopWidth"), Some(StylePropKey::BorderTopWidth));
}

#[test]
fn key_parse_unknown() {
    assert_eq!(StylePropKey::parse("flex-direction"), None);
    assert_eq!(StylePropKey::parse("nothing"), None);
    assert_eq!(StylePropKey::parse(""), None);
}

#[test]
fn key_name_round_trips() {
    assert_eq!(StylePropKey::FlexDirection.name(), "FlexDirection");
    assert_eq!(StylePropKey::parse(StylePropKey::MinHeight.name()), Some(StylePropKey::MinHeight));
}

#[test]
fn fixed_prop_keywords() {
    let p = FixedStyleProp::parse("color", "INHERIT").unwrap();
    assert_eq!(p.key, StylePropKey::Color);
    assert_eq!(p.value, StylePropVal::Inherit);
    assert!(p.is_inherited());
    let u = FixedStyleProp::parse("Width", "unset").unwrap();
    assert_eq!(u.value, StylePropVal::Unset);
    assert_eq!(u.to_style_string(), "unset");
}

#[test]
fn fixed_prop_custom_value_kept() {
    let p = FixedStyleProp::parse("width", "10px").unwrap();
    assert_eq!(p.key, StylePropKey::Width);
    assert_eq!(p.value, StylePropVal::Custom("10px".to_string()));
    assert_eq!(p.to_style_string(), "10px");
    assert_eq!(p.name(), "Width");
    assert_eq!(p.unset().value, StylePropVal::Unset);
}

#[test]
fn fixed_prop_unknown_key() {
    assert!(FixedStyleProp::parse("nope", "1").is_none());
}

#[test]
fn fixed_prop_parse_value() {
    let p = FixedStyleProp::parse_value(StylePropKey::Height, "3em").unwrap();
    assert_eq!(p.key(), StylePropKey::Height);
    assert_eq!(p.value, StylePropVal::Custom("3em".to_string()));
}

#[test]
fn prop_val_to_style_string() {
    assert_eq!(StylePropVal::Custom("red".to_string()).to_style_string(), "red");
    assert_eq!(StylePropVal::<String>::Inherit.to_style_string(), "inherit");
    assert_eq!(StylePropVal::<String>::Unset.to_style_string(), "unset");
    assert_eq!(String::parse_prop_value("abc"), Some("abc".to_string()));
}

fn res(key: StylePropKey, v: &str) -> ResolvedStyleProp {
    ResolvedStyleProp { key, value: v.to_string() }
}

#[test]
fn resolve_value_keywords_and_custom() {
    let d = |k: StylePropKey| res(k, "default");
    let p = |k: StylePropKey| res(k, "parent");
    let unset = FixedStyleProp { key: StylePropKey::Color, value: StylePropVal::Unset };
    assert_eq!(unset.resolve_value(d, p).value, "default");
    let inherit = FixedStyleProp { key: StylePropKey::Color, value: StylePropVal::Inherit };
    assert_eq!(inherit.resolve_value(d, p).value, "parent");
    let own = FixedStyleProp { key: StylePropKey::Color, value: StylePropVal::Custom("blue".to_string()) };
    assert_eq!(own.resolve_value(d, p).value, "blue");
}

#[test]
fn resolve_unresolved_gives_back_value() {
    let r = res(StylePropKey::Top, "4px");
    let f = r.to_unresolved();
    assert_eq!(f.value, StylePropVal::Custom("4px".to_string()));
    let back = f.resolve_value(|k| res(k, "x"), |k| res(k, "y"));
    assert_eq!(back.key, StylePropKey::Top);
    assert_eq!(back.value, "4px");
    assert_eq!(r.duplicate().value, "4px");
}

fn key_and_text(p: &ParsedStyleProp) -> (StylePropKey, StylePropVal<String>) {
    match p {
        ParsedStyleProp::Fixed(f) => (f.key, f.value.clone()),
    }
}

#[test]
fn parsed_styles_from_string() {
    let s = ParsedStyles::from_string("flex-direction:row;").unwrap();
    assert_eq!(s.0.len(), 1);
    assert_eq!(key_and_text(&s.0[0]), (StylePropKey::FlexDirection, StylePropVal::Custom("row".to_string())));
}

#[test]
fn parsed_styles_several_declarations_trimmed() {
    let s = ParsedStyles::from_string("width:100%; height: 100% ; bogus: 1; color:inherit").unwrap();
    let got: Vec<(StylePropKey, StylePropVal<String>)> = s.0.iter().map(key_and_text).collect();
    assert_eq!(
        got,
        vec![
            (StylePropKey::Width, StylePropVal::Custom("100%".to_string())),
            (StylePropKey::Height, StylePropVal::Custom("100%".to_string())),
            (StylePropKey::Color, StylePropVal::Inherit),
        ]
    );
}

#[test]
fn parsed_styles_join_law_on_values() {
    let a = ParsedStyles::from_string("width:1px").unwrap();
    let b = ParsedStyles::from_string("height:2px").unwrap();
    let ab = ParsedStyles::from_string("width:1px;height:2px").unwrap();
    let mut joined: Vec<(StylePropKey, StylePropVal<String>)> = a.0.iter().map(key_and_text).collect();
    joined.extend(b.0.iter().map(key_and_text));
    let got: Vec<(StylePropKey, StylePropVal<String>)> = ab.0.iter().map(key_and_text).collect();
    assert_eq!(got, joined);
}

#[test]
fn parsed_styles_set_style_str_and_from_fixed() {
    let mut s = ParsedStyles::from_fixed(vec![FixedStyleProp { key: StylePropKey::Left, value: StylePropVal::Unset }]);
    s.set_style_str("align-items", "center");
    s.set_style_str("unknown", "x");
    let got: Vec<(StylePropKey, StylePropVal<String>)> = s.0.iter().map(key_and_text).collect();
    assert_eq!(
        got,
        vec![
            (StylePropKey::Left, StylePropVal::Unset),
            (StylePropKey::AlignItems, StylePropVal::Custom("center".to_string())),
        ]
    );
}

#[test]
fn style_list_parsing() {
    assert_eq!(StyleList::parse_declaration(" a : b "), Some(("a".to_string(), "b".to_string())));
    assert_eq!(StyleList::parse_declaration("a:b:c"), Some(("a".to_string(), "b:c".to_string())));
    assert_eq!(StyleList::parse_declaration("nocolon"), None);
    assert_eq!(
        StyleList::parse_style_list("a:1;;b:2"),
        vec![("a".to_string(), "1".to_string()), ("b".to_string(), "2".to_string())]
    );
}

#[test]
fn parsed_style_prop_removes_hyphens() {
    let v = ParsedStyleProp::parse("justify-content", "center");
    assert_eq!(v.len(), 1);
    assert_eq!(key_and_text(&v[0]).0, StylePropKey::JustifyContent);
    assert!(ParsedStyleProp::parse("no-such-key", "1").is_empty());
}

#[test]
fn text_helpers() {
    assert_eq!(remove_hyphens("flex-direction"), "flexdirection");
    assert_eq!(remove_hyphens("--a-b-"), "ab");
    assert!(str_eq("abc", "abc"));
    assert!(!str_eq("abc", "abd"));
    // Case folding and trimming, through the readers that use them.
    assert_eq!(FixedStyleProp::parse("COLOR", "UnSet").unwrap().value, StylePropVal::Unset);
    assert_eq!(StyleList::parse_declaration("\t x y : a b \n"), Some(("x y".to_string(), "a b".to_string())));
}

use deft::style::parsed_styles::JsStyleValue;

#[test]
fn parsed_styles_from_js_value() {
    let s = ParsedStyles::from_js_value(JsStyleValue::Text("color:red".to_string())).unwrap();
    assert_eq!(s.0.iter().map(key_and_text).collect::<Vec<_>>(), vec![(StylePropKey::Color, StylePropVal::Custom("red".to_string()))]);
    let o = ParsedStyles::from_js_value(JsStyleValue::Object(vec![
        ("width".to_string(), "10".to_string()),
        ("bad".to_string(), "1".to_string()),
        ("flex-grow".to_string(), "1".to_string()),
    ]))
    .unwrap();
    assert_eq!(
        o.0.iter().map(key_and_text).collect::<Vec<_>>(),
        vec![
            (StylePropKey::Width, StylePropVal::Custom("10".to_string())),
            (StylePropKey::FlexGrow, StylePropVal::Custom("1".to_string())),
        ]
    );
    assert!(ParsedStyles::from_js_value(JsStyleValue::Other).unwrap().0.is_empty());
}

use deft::style::node::StyleNode;

fn flags(n: &StyleNode) -> (bool, bool) {
    (n.self_dirty, n.children_dirty)
}

#[test]
fn style_tree_dirty_flags_and_update() {
    let mut root = StyleNode::new(1);
    let mut a = StyleNode::new(2);
    a.insert_child(StyleNode::new(3), 0);
    root.insert_child(a, 0);
    root.insert_child(StyleNode::new(4), 1);
    assert_eq!(root.child_count(), 2);
    assert_eq!(flags(&root), (false, true));
    assert_eq!(flags(&root.children[0]), (true, true));
    root.apply_style_update(None, false);
    assert_eq!(flags(&root), (false, false));
    assert_eq!(flags(&root.children[0]), (false, false));
    assert_eq!(flags(&root.children[0].children[0]), (false, false));

    // The grandchild inherits the colour that the root declares.
    root.set_style(ParsedStyles::from_string("color:red").unwrap());
    root.children[0].children[0].set_style(ParsedStyles::from_string("color:inherit; width:3px").unwrap());
    root.children[1].set_style(ParsedStyles::from_string("height:1px").unwrap());
    root.mark_dirty_at(&[0, 0], 0);
    assert_eq!(flags(&root), (true, true));
    assert_eq!(flags(&root.children[0]), (false, true));
    assert_eq!(flags(&root.children[0].children[0]), (true, false));
    root.apply_style_update(None, false);
    assert_eq!(root.get_resolved_value(StylePropKey::Color).value, "red");
    // The middle node declares nothing and inherits nothing.
    assert_eq!(root.children[0].get_resolved_value(StylePropKey::Color).value, "black");
    let g = &root.children[0].children[0];
    assert_eq!(g.get_resolved_value(StylePropKey::Width).value, "3px");
    // The grandchild inherits from the middle node, which resolved no colour
    // of its own, so it takes the default.
    assert_eq!(g.get_resolved_value(StylePropKey::Color).value, "black");
    // The sibling is below a changed root, so it restyled too.
    assert_eq!(root.children[1].get_resolved_value(StylePropKey::Height).value, "1px");
    assert_eq!(flags(&root.children[0].children[0]), (false, false));

    let removed = root.remove_child(1);
    assert!(removed.self_dirty);
    assert_eq!(root.child_count(), 1);
}

#[test]
fn style_node_hover() {
    let mut n = StyleNode::new(1);
    n.set_hover(true);
    assert!(n.get_hover());
    assert!(!n.self_dirty);
    n.has_hover_style = true;
    n.set_hover(false);
    assert!(n.self_dirty);
    n.mark_dirty_at(&[5], 0);
    assert!(!n.children_dirty);
}

use deft::style::computed::{compute_changed_style, default_value, ScrollBarStrategy};

fn rp(key: StylePropKey, v: &str) -> ResolvedStyleProp {
    ResolvedStyleProp { key, value: v.to_string() }
}

fn kv(v: &[ResolvedStyleProp]) -> Vec<(StylePropKey, String)> {
    v.iter().map(|p| (p.key, p.value.clone())).collect()
}

#[test]
fn default_values_table() {
    assert_eq!(default_value(StylePropKey::Color).value, "black");
    assert_eq!(default_value(StylePropKey::FlexDirection).value, "column");
    assert_eq!(default_value(StylePropKey::Overflow).value, "hidden");
    assert_eq!(default_value(StylePropKey::FontSize).value, "12px");
    assert_eq!(default_value(StylePropKey::AnimationIterationCount).value, "1");
    assert_eq!(default_value(StylePropKey::Display).key, StylePropKey::Display);
}

#[test]
fn changed_style_lists_new_values_then_dropped_defaults() {
    let old = vec![rp(StylePropKey::Width, "1px"), rp(StylePropKey::Color, "red")];
    let new = vec![rp(StylePropKey::Width, "1px"), rp(StylePropKey::Height, "2px")];
    assert_eq!(
        kv(&compute_changed_style(&new, &old)),
        vec![(StylePropKey::Height, "2px".to_string()), (StylePropKey::Color, "black".to_string())]
    );
    assert!(compute_changed_style(&new, &new).is_empty());
}

#[test]
fn set_resolved_style_prop_stores_once() {
    let mut n = StyleNode::new(1);
    assert_eq!(n.set_resolved_style_prop(rp(StylePropKey::Color, "red")), (true, false));
    assert_eq!(n.set_resolved_style_prop(rp(StylePropKey::Color, "red")), (false, false));
    assert_eq!(n.set_resolved_style_prop(rp(StylePropKey::Width, "3px")), (true, true));
    assert_eq!(n.set_resolved_style_prop(rp(StylePropKey::FontSize, "14px")), (true, true));
    assert_eq!(n.style.notified, vec![StylePropKey::Color, StylePropKey::Width]);
    assert_eq!(n.get_resolved_value(StylePropKey::Color).value, "red");
    assert_eq!(n.get_resolved_value(StylePropKey::Height).value, "auto");
    assert_eq!(n.style.scroll_strategy, ScrollBarStrategy::Never);
    n.set_resolved_style_prop(rp(StylePropKey::Overflow, "auto"));
    assert!(n.style.need_snapshot);
    assert_eq!(n.style.scroll_strategy, ScrollBarStrategy::Auto);
    n.set_resolved_style_prop(rp(StylePropKey::Overflow, "scroll"));
    assert!(n.style.need_snapshot);
    assert_eq!(n.style.scroll_strategy, ScrollBarStrategy::Always);
    n.set_resolved_style_prop(rp(StylePropKey::Overflow, "hidden"));
    assert!(!n.style.need_snapshot);
    assert_eq!(n.style.scroll_strategy, ScrollBarStrategy::Never);
}

#[test]
fn animation_params_restart_animation() {
    let mut n = StyleNode::new(1);
    assert_eq!(n.set_resolved_style_prop(rp(StylePropKey::AnimationName, "spin")), (true, false));
    assert_eq!(n.set_resolved_style_prop(rp(StylePropKey::AnimationDuration, "2s")), (true, false));
    assert_eq!(n.set_resolved_style_prop(rp(StylePropKey::AnimationDuration, "2s")), (false, false));
    n.set_resolved_style_prop(rp(StylePropKey::Width, "1px"));
    assert_eq!(n.style.animation_restarts, vec![StylePropKey::AnimationName, StylePropKey::AnimationDuration]);
    n.set_resolved_style_prop(rp(StylePropKey::AnimationIterationCount, "3"));
    assert_eq!(n.style.animation_restarts.len(), 3);
}

#[test]
fn clear_applied_hands_everything_on_again() {
    let mut n = StyleNode::new(1);
    let (changed, _) = n.apply(vec![rp(StylePropKey::Color, "red")], vec![]);
    assert!(changed);
    let (changed, _) = n.apply(vec![rp(StylePropKey::Color, "red")], vec![]);
    assert!(!changed);
    n.clear_applied();
    assert!(n.style.applied.is_empty());
    let (changed, _) = n.apply(vec![rp(StylePropKey::Color, "red")], vec![]);
    assert!(changed);
}

#[test]
fn apply_reports_changes_and_pseudo_elements() {
    let mut n = StyleNode::new(1);
    let (changed, pe) = n.apply(
        vec![rp(StylePropKey::Color, "red"), rp(StylePropKey::Width, "1px")],
        vec![("box".to_string(), vec![rp(StylePropKey::Height, "4px")])],
    );
    assert!(changed);
    assert_eq!(pe.len(), 1);
    assert_eq!(pe[0].0, "box");
    assert_eq!(n.style.dirty_requests, vec![false, true]);
    let (changed, pe) = n.apply(
        vec![rp(StylePropKey::Color, "red"), rp(StylePropKey::Width, "1px")],
        vec![("box".to_string(), vec![rp(StylePropKey::Height, "4px")])],
    );
    assert!(!changed);
    assert!(pe.is_empty());
    let (changed, pe) = n.apply(vec![rp(StylePropKey::Color, "red")], vec![]);
    assert!(changed);
    assert_eq!(n.get_resolved_value(StylePropKey::Width).value, "auto");
    assert_eq!(pe.len(), 1);
    assert_eq!(kv(&pe[0].1), vec![(StylePropKey::Height, "auto".to_string())]);
}

#[test]
fn resolve_and_compute_owned_style() {
    let mut parent = StyleNode::new(1);
    parent.set_resolved_style_prop(rp(StylePropKey::Color, "blue"));
    let child = StyleNode::new(2);
    let props = vec![
        FixedStyleProp { key: StylePropKey::Color, value: StylePropVal::Inherit },
        FixedStyleProp { key: StylePropKey::Width, value: StylePropVal::Unset },
        FixedStyleProp { key: StylePropKey::Height, value: StylePropVal::Custom("5px".to_string()) },
    ];
    assert_eq!(
        kv(&child.resolve_style_props(&props, Some(&parent))),
        vec![
            (StylePropKey::Color, "blue".to_string()),
            (StylePropKey::Width, "auto".to_string()),
            (StylePropKey::Height, "5px".to_string()),
        ]
    );
    assert_eq!(kv(&child.resolve_style_props(&props, None))[0].1, "black");
    let anim = vec![FixedStyleProp { key: StylePropKey::Height, value: StylePropVal::Custom("9px".to_string()) }];
    let pe = vec![("box".to_string(), vec![FixedStyleProp { key: StylePropKey::Color, value: StylePropVal::Inherit }])];
    let (styles, pes) = child.compute_owned_style(&props, &anim, &pe, Some(&parent));
    assert_eq!(styles.len(), 4);
    assert_eq!(styles[3].value, "9px");
    assert_eq!(pes[0].1[0].value, "blue");
    let mut c2 = StyleNode::new(3);
    let changed = c2.apply_owned_style(&props, &anim, &pe, Some(&parent));
    assert!(changed);
    assert_eq!(c2.style.accepted_pe.len(), 1);
    assert_eq!(c2.get_resolved_value(StylePropKey::Height).value, "9px");
}

use deft::style::number::is_f32_text;

#[test]
fn number_properties_take_only_float_text() {
    for ok in ["1", "-2.5", "+.5", "3.", "1e5", "2.5E-3", "inf", "-Infinity", "NaN"] {
        assert!(is_f32_text(ok), "{}", ok);
        assert!(ok.parse::<f32>().is_ok(), "{}", ok);
    }
    for bad in ["", ".", "e5", "1e", "1.2.3", " 1", "abc", "--1", "1e+"] {
        assert!(!is_f32_text(bad), "{}", bad);
        assert!(bad.parse::<f32>().is_err(), "{}", bad);
    }
    assert!(FixedStyleProp::parse("flex", "abc").is_none());
    assert_eq!(FixedStyleProp::parse("flexgrow", "2").unwrap().value, StylePropVal::Custom("2".to_string()));
    assert_eq!(FixedStyleProp::parse("flex", "inherit").unwrap().value, StylePropVal::Inherit);
    assert!(FixedStyleProp::parse_value(StylePropKey::AnimationDuration, "1s").is_none());
    assert!(FixedStyleProp::parse_value(StylePropKey::Width, "1s").is_some());
}

#[test]
fn trim_drops_white_space_at_both_ends() {
    assert_eq!(trim("  a b\t\n"), "a b");
    assert_eq!(trim("\u{3000}x\u{85}"), "x");
    assert_eq!(trim(" \t "), "");
    assert_eq!(trim(""), "");
    assert_eq!(trim("q"), "q");
}
