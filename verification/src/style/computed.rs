use vstd::prelude::*;
use crate::style::key::StylePropKey;
use crate::style::prop::{FixedStyleProp, ResolvedStyleProp, StylePropVal};
use crate::text::str_eq;

verus! {

/// The value, as style text, that each property takes where nothing
/// declares it.
pub open spec fn default_text(key: StylePropKey) -> Seq<char> {
    match key {
        StylePropKey::Color => "black"@,
        StylePropKey::BackgroundColor => "transparent"@,
        StylePropKey::FontSize => "12px"@,
        StylePropKey::FontFamily => ""@,
        StylePropKey::FontWeight => "normal"@,
        StylePropKey::FontStyle => "normal"@,
        StylePropKey::LineHeight => "normal"@,
        StylePropKey::BorderTopWidth => "0px"@,
        StylePropKey::BorderRightWidth => "0px"@,
        StylePropKey::BorderBottomWidth => "0px"@,
        StylePropKey::BorderLeftWidth => "0px"@,
        StylePropKey::BorderTopColor => "transparent"@,
        StylePropKey::BorderRightColor => "transparent"@,
        StylePropKey::BorderBottomColor => "transparent"@,
        StylePropKey::BorderLeftColor => "transparent"@,
        StylePropKey::Display => "flex"@,
        StylePropKey::Width => "auto"@,
        StylePropKey::Height => "auto"@,
        StylePropKey::MaxWidth => "auto"@,
        StylePropKey::MaxHeight => "auto"@,
        StylePropKey::MinWidth => "auto"@,
        StylePropKey::MinHeight => "auto"@,
        StylePropKey::MarginTop => "auto"@,
        StylePropKey::MarginRight => "auto"@,
        StylePropKey::MarginBottom => "auto"@,
        StylePropKey::MarginLeft => "auto"@,
        StylePropKey::PaddingTop => "auto"@,
        StylePropKey::PaddingRight => "auto"@,
        StylePropKey::PaddingBottom => "auto"@,
        StylePropKey::PaddingLeft => "auto"@,
        StylePropKey::Flex => "0"@,
        StylePropKey::FlexBasis => "auto"@,
        StylePropKey::FlexGrow => "0"@,
        StylePropKey::FlexShrink => "0"@,
        StylePropKey::AlignSelf => "flex-start"@,
        StylePropKey::Direction => "ltr"@,
        StylePropKey::Position => "static"@,
        StylePropKey::Overflow => "hidden"@,
        StylePropKey::BorderTopLeftRadius => "0px"@,
        StylePropKey::BorderTopRightRadius => "0px"@,
        StylePropKey::BorderBottomRightRadius => "0px"@,
        StylePropKey::BorderBottomLeftRadius => "0px"@,
        StylePropKey::JustifyContent => "flex-start"@,
        StylePropKey::FlexDirection => "column"@,
        StylePropKey::AlignContent => "flex-start"@,
        StylePropKey::AlignItems => "flex-start"@,
        StylePropKey::FlexWrap => "nowrap"@,
        StylePropKey::ColumnGap => "0px"@,
        StylePropKey::RowGap => "0px"@,
        StylePropKey::Top => "auto"@,
        StylePropKey::Right => "auto"@,
        StylePropKey::Bottom => "auto"@,
        StylePropKey::Left => "auto"@,
        StylePropKey::Transform => "none"@,
        StylePropKey::AnimationName => ""@,
        StylePropKey::AnimationDuration => "0"@,
        StylePropKey::AnimationIterationCount => "1"@,
    }
}

/// The text of the default value of `key`.
fn default_str(key: StylePropKey) -> (r: &'static str)
    ensures
        r@ == default_text(key),
{
    match key {
        StylePropKey::Color => "black",
        StylePropKey::BackgroundColor => "transparent",
        StylePropKey::FontSize => "12px",
        StylePropKey::FontFamily => "",
        StylePropKey::FontWeight => "normal",
        StylePropKey::FontStyle => "normal",
        StylePropKey::LineHeight => "normal",
        StylePropKey::BorderTopWidth => "0px",
        StylePropKey::BorderRightWidth => "0px",
        StylePropKey::BorderBottomWidth => "0px",
        StylePropKey::BorderLeftWidth => "0px",
        StylePropKey::BorderTopColor => "transparent",
        StylePropKey::BorderRightColor => "transparent",
        StylePropKey::BorderBottomColor => "transparent",
        StylePropKey::BorderLeftColor => "transparent",
        StylePropKey::Display => "flex",
        StylePropKey::Width => "auto",
        StylePropKey::Height => "auto",
        StylePropKey::MaxWidth => "auto",
        StylePropKey::MaxHeight => "auto",
        StylePropKey::MinWidth => "auto",
        StylePropKey::MinHeight => "auto",
        StylePropKey::MarginTop => "auto",
        StylePropKey::MarginRight => "auto",
        StylePropKey::MarginBottom => "auto",
        StylePropKey::MarginLeft => "auto",
        StylePropKey::PaddingTop => "auto",
        StylePropKey::PaddingRight => "auto",
        StylePropKey::PaddingBottom => "auto",
        StylePropKey::PaddingLeft => "auto",
        StylePropKey::Flex => "0",
        StylePropKey::FlexBasis => "auto",
        StylePropKey::FlexGrow => "0",
        StylePropKey::FlexShrink => "0",
        StylePropKey::AlignSelf => "flex-start",
        StylePropKey::Direction => "ltr",
        StylePropKey::Position => "static",
        StylePropKey::Overflow => "hidden",
        StylePropKey::BorderTopLeftRadius => "0px",
        StylePropKey::BorderTopRightRadius => "0px",
        StylePropKey::BorderBottomRightRadius => "0px",
        StylePropKey::BorderBottomLeftRadius => "0px",
        StylePropKey::JustifyContent => "flex-start",
        StylePropKey::FlexDirection => "column",
        StylePropKey::AlignContent => "flex-start",
        StylePropKey::AlignItems => "flex-start",
        StylePropKey::FlexWrap => "nowrap",
        StylePropKey::ColumnGap => "0px",
        StylePropKey::RowGap => "0px",
        StylePropKey::Top => "auto",
        StylePropKey::Right => "auto",
        StylePropKey::Bottom => "auto",
        StylePropKey::Left => "auto",
        StylePropKey::Transform => "none",
        StylePropKey::AnimationName => "",
        StylePropKey::AnimationDuration => "0",
        StylePropKey::AnimationIterationCount => "1",
    }
}

/// The value that `key` takes where nothing declares it.
pub fn default_value(key: StylePropKey) -> (r: ResolvedStyleProp)
    ensures
        r.key == key,
        r.value@ == default_text(key),
{
    ResolvedStyleProp { key, value: String::from_str(default_str(key)) }
}

/// The properties whose change needs a repaint but no new layout.
pub open spec fn paint_only(key: StylePropKey) -> bool {
    ||| key == StylePropKey::Color
    ||| key == StylePropKey::BackgroundColor
    ||| key == StylePropKey::BorderTopColor
    ||| key == StylePropKey::BorderRightColor
    ||| key == StylePropKey::BorderBottomColor
    ||| key == StylePropKey::BorderLeftColor
    ||| key == StylePropKey::Transform
    ||| key == StylePropKey::AnimationName
    ||| key == StylePropKey::AnimationDuration
    ||| key == StylePropKey::AnimationIterationCount
}

pub fn is_paint_only(key: StylePropKey) -> (r: bool)
    ensures
        r == paint_only(key),
{
    match key {
        StylePropKey::Color | StylePropKey::BackgroundColor | StylePropKey::BorderTopColor
        | StylePropKey::BorderRightColor | StylePropKey::BorderBottomColor
        | StylePropKey::BorderLeftColor | StylePropKey::Transform | StylePropKey::AnimationName
        | StylePropKey::AnimationDuration | StylePropKey::AnimationIterationCount => true,
        _ => false,
    }
}

/// Resolved properties read as a map: a later entry for a key wins.
pub open spec fn style_map(s: Seq<ResolvedStyleProp>) -> Map<StylePropKey, Seq<char>>
    decreases s.len(),
{
    if s.len() == 0 {
        Map::empty()
    } else {
        style_map(s.drop_last()).insert(s.last().key, s.last().value@)
    }
}

/// Resolved properties as (key, text) pairs, in order.
pub open spec fn pairs_of(s: Seq<ResolvedStyleProp>) -> Seq<(StylePropKey, Seq<char>)> {
    s.map_values(|p: ResolvedStyleProp| (p.key, p.value@))
}

/// Whether `m` holds `v` for `k`.
pub open spec fn holds(m: Map<StylePropKey, Seq<char>>, k: StylePropKey, v: Seq<char>) -> bool {
    m.contains_key(k) && m[k] == v
}

/// The position of the last entry for `key`, which is the one the map reads.
pub fn find_last(v: &Vec<ResolvedStyleProp>, key: StylePropKey) -> (r: Option<usize>)
    ensures
        r is None ==> !style_map(v@).contains_key(key),
        r matches Some(j) ==> j < v@.len() && v@[j as int].key == key && style_map(
            v@,
        ).contains_key(key) && style_map(v@)[key] == v@[j as int].value@ && forall|k: int|
            j < k < v@.len() ==> (#[trigger] v@[k]).key != key,
{
    let n = v.len();
    let mut found: Option<usize> = None;
    let mut i: usize = 0;
    while i < n
        invariant
            n == v@.len(),
            i <= n,
            found is None ==> !style_map(v@.take(i as int)).contains_key(key),
            found matches Some(j) ==> j < i && v@[j as int].key == key && style_map(
                v@.take(i as int),
            ).contains_key(key) && style_map(v@.take(i as int))[key] == v@[j as int].value@
                && forall|k: int| j < k < i ==> (#[trigger] v@[k]).key != key,
        decreases n - i,
    {
        proof {
            assert(v@.take(i + 1).drop_last() =~= v@.take(i as int));
            assert(v@.take(i + 1).last() == v@[i as int]);
        }
        if v[i].key == key {
            found = Some(i);
        }
        i = i + 1;
    }
    proof {
        assert(v@.take(n as int) =~= v@);
    }
    found
}

/// Replacing the entry that the map reads for a key changes the map at that
/// key only.
pub proof fn lemma_update_last(s: Seq<ResolvedStyleProp>, j: int, p: ResolvedStyleProp)
    requires
        0 <= j < s.len(),
        s[j].key == p.key,
        forall|k: int| j < k < s.len() ==> (#[trigger] s[k]).key != p.key,
    ensures
        style_map(s.update(j, p)) == style_map(s).insert(p.key, p.value@),
    decreases s.len(),
{
    let t = s.update(j, p);
    if j == s.len() - 1 {
        assert(t.drop_last() =~= s.drop_last());
        assert(style_map(t) =~= style_map(s).insert(p.key, p.value@));
    } else {
        lemma_update_last(s.drop_last(), j, p);
        assert(t.drop_last() =~= s.drop_last().update(j, p));
        assert(t.last() == s.last());
        assert(style_map(t) =~= style_map(s).insert(p.key, p.value@));
    }
}

/// The entries of `s` whose value `m` does not already hold, in order.
pub open spec fn changed_from(s: Seq<ResolvedStyleProp>, m: Map<StylePropKey, Seq<char>>) -> Seq<
    (StylePropKey, Seq<char>),
>
    decreases s.len(),
{
    if s.len() == 0 {
        Seq::empty()
    } else if holds(m, s.last().key, s.last().value@) {
        changed_from(s.drop_last(), m)
    } else {
        changed_from(s.drop_last(), m).push((s.last().key, s.last().value@))
    }
}

/// The defaults of the keys of entries of `old` that `m` no longer holds.
pub open spec fn removed_defaults(old: Seq<ResolvedStyleProp>, m: Map<StylePropKey, Seq<char>>) -> Seq<
    (StylePropKey, Seq<char>),
>
    decreases old.len(),
{
    if old.len() == 0 {
        Seq::empty()
    } else if m.contains_key(old.last().key) {
        removed_defaults(old.drop_last(), m)
    } else {
        removed_defaults(old.drop_last(), m).push((old.last().key, default_text(old.last().key)))
    }
}

/// What changes from the applied style `old` to the style `new`: the new
/// values that differ, then the defaults of the properties `new` drops.
pub open spec fn changed_style(new: Seq<ResolvedStyleProp>, old: Seq<ResolvedStyleProp>) -> Seq<
    (StylePropKey, Seq<char>),
> {
    changed_from(new, style_map(old)) + removed_defaults(old, style_map(new))
}

/// The change list from the applied style `old` to the style `new`.
pub fn compute_changed_style(new: &Vec<ResolvedStyleProp>, old: &Vec<ResolvedStyleProp>) -> (r: Vec<
    ResolvedStyleProp,
>)
    ensures
        pairs_of(r@) == changed_style(new@, old@),
{
    let mut out: Vec<ResolvedStyleProp> = Vec::new();
    let n = new.len();
    let mut i: usize = 0;
    while i < n
        invariant
            n == new@.len(),
            i <= n,
            pairs_of(out@) == changed_from(new@.take(i as int), style_map(old@)),
        decreases n - i,
    {
        proof {
            assert(new@.take(i + 1).drop_last() =~= new@.take(i as int));
            assert(new@.take(i + 1).last() == new@[i as int]);
        }
        let p = &new[i];
        let same = match find_last(old, p.key) {
            Some(j) => str_eq(old[j].value.as_str(), p.value.as_str()),
            None => false,
        };
        if !same {
            out.push(p.duplicate());
            proof {
                assert(pairs_of(out@) =~= pairs_of(out@.drop_last()).push((p.key, p.value@)));
            }
        }
        i = i + 1;
    }
    proof {
        assert(new@.take(n as int) =~= new@);
    }
    let ghost first = pairs_of(out@);
    let m = old.len();
    let mut k: usize = 0;
    proof {
        assert(old@.take(0) =~= Seq::<ResolvedStyleProp>::empty());
        assert(first + removed_defaults(old@.take(0), style_map(new@)) =~= first);
    }
    while k < m
        invariant
            m == old@.len(),
            k <= m,
            pairs_of(out@) == first + removed_defaults(old@.take(k as int), style_map(new@)),
        decreases m - k,
    {
        proof {
            assert(old@.take(k + 1).drop_last() =~= old@.take(k as int));
            assert(old@.take(k + 1).last() == old@[k as int]);
        }
        let key = old[k].key;
        if find_last(new, key).is_none() {
            let ghost before = pairs_of(out@);
            out.push(default_value(key));
            proof {
                assert(pairs_of(out@) =~= before.push((key, default_text(key))));
            }
        }
        k = k + 1;
    }
    proof {
        assert(old@.take(m as int) =~= old@);
    }
    out
}

/// When a node shows its scroll bars.
#[derive(Clone, Copy, Debug, PartialEq, Eq, Structural)]
pub enum ScrollBarStrategy {
    Never,
    Auto,
    Always,
}

/// The scroll-bar strategy that an `overflow` value gives: `scroll` always
/// shows the bars, `auto` shows them where the content overflows, and
/// `visible` and `hidden` never do.
pub open spec fn scroll_strategy_of(v: Seq<char>) -> ScrollBarStrategy {
    if v == "scroll"@ {
        ScrollBarStrategy::Always
    } else if v == "auto"@ {
        ScrollBarStrategy::Auto
    } else {
        ScrollBarStrategy::Never
    }
}

/// Whether an `overflow` value lets the content scroll, so that a node needs
/// a snapshot of its content.
pub open spec fn overflow_scrolls(v: Seq<char>) -> bool {
    scroll_strategy_of(v) != ScrollBarStrategy::Never
}

/// The keys whose change restarts the node's animation.
pub open spec fn animation_key(k: StylePropKey) -> bool {
    k == StylePropKey::AnimationName || k == StylePropKey::AnimationDuration
        || k == StylePropKey::AnimationIterationCount
}

/// What applying resolved properties has done to a node: the value it holds
/// for each property, the properties its change listener was told of, whether
/// it needs a snapshot and how its two scroll bars show, the animation
/// restarts asked for (the key that caused each, oldest first), and what its
/// style listener was asked (a new layout or a repaint only), oldest first.
#[verifier::ext_equal]
pub struct StyleEffects {
    pub values: Map<StylePropKey, Seq<char>>,
    pub notified: Seq<StylePropKey>,
    pub need_snapshot: bool,
    pub scroll_strategy: ScrollBarStrategy,
    pub animation_restarts: Seq<StylePropKey>,
    pub dirty_requests: Seq<bool>,
}

/// Setting one resolved value `v` for `k`: a value already held changes
/// nothing; another is stored, the change listener is told of every key but
/// `FontSize`, `Overflow` sets the scroll-bar strategy of both bars and
/// whether a snapshot is needed, and a new animation name, duration or
/// iteration count restarts the animation.
pub open spec fn set_step(e: StyleEffects, k: StylePropKey, v: Seq<char>) -> StyleEffects {
    if holds(e.values, k, v) {
        e
    } else {
        StyleEffects {
            values: e.values.insert(k, v),
            notified: if k == StylePropKey::FontSize {
                e.notified
            } else {
                e.notified.push(k)
            },
            need_snapshot: if k == StylePropKey::Overflow {
                overflow_scrolls(v)
            } else {
                e.need_snapshot
            },
            scroll_strategy: if k == StylePropKey::Overflow {
                scroll_strategy_of(v)
            } else {
                e.scroll_strategy
            },
            animation_restarts: if animation_key(k) {
                e.animation_restarts.push(k)
            } else {
                e.animation_restarts
            },
            dirty_requests: e.dirty_requests,
        }
    }
}

/// Applying one changed value: as `set_step`, and where it was stored the
/// style listener is asked for a new layout, or a repaint only for
/// `paint_only` keys.
pub open spec fn apply_step(e: StyleEffects, k: StylePropKey, v: Seq<char>) -> StyleEffects {
    StyleEffects {
        dirty_requests: if holds(e.values, k, v) {
            e.dirty_requests
        } else {
            e.dirty_requests.push(!paint_only(k))
        },
        ..set_step(e, k, v)
    }
}

/// Applying a change list, first to last.
pub open spec fn apply_all(e: StyleEffects, cs: Seq<(StylePropKey, Seq<char>)>) -> StyleEffects
    decreases cs.len(),
{
    if cs.len() == 0 {
        e
    } else {
        apply_step(apply_all(e, cs.drop_last()), cs.last().0, cs.last().1)
    }
}

/// The computed style of a node: what is resolved and applied to it.
pub struct StyleState {
    pub resolved: Vec<ResolvedStyleProp>,
    /// The keys its change listener was told of, oldest first.
    pub notified: Vec<StylePropKey>,
    pub need_snapshot: bool,
    /// How its vertical and horizontal scroll bars show.
    pub scroll_strategy: ScrollBarStrategy,
    /// The keys whose change restarted its animation, oldest first.
    pub animation_restarts: Vec<StylePropKey>,
    /// What its style listener was asked: `true` for a new layout, `false`
    /// for a repaint only.
    pub dirty_requests: Vec<bool>,
    /// The style last applied, and that of each pseudo element.
    pub applied: Vec<ResolvedStyleProp>,
    pub applied_pe: Vec<(String, Vec<ResolvedStyleProp>)>,
    /// The pseudo-element change lists handed to its style listener, oldest
    /// first.
    pub accepted_pe: Vec<(String, Vec<ResolvedStyleProp>)>,
}

pub open spec fn effects(st: StyleState) -> StyleEffects {
    StyleEffects {
        values: style_map(st.resolved@),
        notified: st.notified@,
        need_snapshot: st.need_snapshot,
        scroll_strategy: st.scroll_strategy,
        animation_restarts: st.animation_restarts@,
        dirty_requests: st.dirty_requests@,
    }
}

/// The text that property `k` has on a node: its resolved value, else its
/// default.
pub open spec fn resolved_text(st: StyleState, k: StylePropKey) -> Seq<char> {
    if style_map(st.resolved@).contains_key(k) {
        style_map(st.resolved@)[k]
    } else {
        default_text(k)
    }
}

/// What a declared property resolves to on a node whose parent's style is
/// `parent`: its own value, its default for `unset`, and for `inherit` the
/// parent's value (the default where there is no parent).
pub open spec fn resolve_spec(p: FixedStyleProp, parent: Option<StyleState>) -> (StylePropKey, Seq<char>) {
    match p.value {
        StylePropVal::Custom(v) => (p.key, v@),
        StylePropVal::Unset => (p.key, default_text(p.key)),
        StylePropVal::Inherit => (p.key, match parent {
            Some(st) => resolved_text(st, p.key),
            None => default_text(p.key),
        }),
    }
}

pub open spec fn resolve_all(props: Seq<FixedStyleProp>, parent: Option<StyleState>) -> Seq<(StylePropKey, Seq<char>)> {
    props.map_values(|p: FixedStyleProp| resolve_spec(p, parent))
}

/// Pseudo-element styles as (name, style) pairs.
pub open spec fn pe_view(pe: Seq<(String, Vec<ResolvedStyleProp>)>) -> Seq<(Seq<char>, Seq<ResolvedStyleProp>)> {
    pe.map_values(|e: (String, Vec<ResolvedStyleProp>)| (e.0@, e.1@))
}

/// The style given to the pseudo element `name` (the last entry for it), or
/// none.
pub open spec fn pe_lookup(pe: Seq<(Seq<char>, Seq<ResolvedStyleProp>)>, name: Seq<char>) -> Seq<ResolvedStyleProp>
    decreases pe.len(),
{
    if pe.len() == 0 {
        Seq::empty()
    } else if pe.last().0 == name {
        pe.last().1
    } else {
        pe_lookup(pe.drop_last(), name)
    }
}

pub open spec fn pe_has(pe: Seq<(Seq<char>, Seq<ResolvedStyleProp>)>, name: Seq<char>) -> bool {
    exists|i: int| 0 <= i < pe.len() && (#[trigger] pe[i]).0 == name
}

/// The change lists of the pseudo elements of `new`, against what `old`
/// applied to them, where non-empty.
pub open spec fn pe_new_changes(new: Seq<(Seq<char>, Seq<ResolvedStyleProp>)>, old: Seq<(Seq<char>, Seq<ResolvedStyleProp>)>) -> Seq<
    (Seq<char>, Seq<(StylePropKey, Seq<char>)>),
>
    decreases new.len(),
{
    if new.len() == 0 {
        Seq::empty()
    } else {
        let c = changed_style(new.last().1, pe_lookup(old, new.last().0));
        if c.len() > 0 {
            pe_new_changes(new.drop_last(), old).push((new.last().0, c))
        } else {
            pe_new_changes(new.drop_last(), old)
        }
    }
}

/// The change lists of the pseudo elements that `old` styled and `new` no
/// longer does, where non-empty.
pub open spec fn pe_dropped_changes(old: Seq<(Seq<char>, Seq<ResolvedStyleProp>)>, new: Seq<(Seq<char>, Seq<ResolvedStyleProp>)>) -> Seq<
    (Seq<char>, Seq<(StylePropKey, Seq<char>)>),
>
    decreases old.len(),
{
    if old.len() == 0 {
        Seq::empty()
    } else if pe_has(new, old.last().0) {
        pe_dropped_changes(old.drop_last(), new)
    } else {
        let c = changed_style(Seq::empty(), old.last().1);
        if c.len() > 0 {
            pe_dropped_changes(old.drop_last(), new).push((old.last().0, c))
        } else {
            pe_dropped_changes(old.drop_last(), new)
        }
    }
}

pub open spec fn pe_changes_view(r: Seq<(String, Vec<ResolvedStyleProp>)>) -> Seq<(Seq<char>, Seq<(StylePropKey, Seq<char>)>)> {
    r.map_values(|e: (String, Vec<ResolvedStyleProp>)| (e.0@, pairs_of(e.1@)))
}

/// The position of the last entry for the pseudo element `name`.
fn pe_find(pe: &Vec<(String, Vec<ResolvedStyleProp>)>, name: &str) -> (r: Option<usize>)
    ensures
        r is None ==> pe_lookup(pe_view(pe@), name@) == Seq::<ResolvedStyleProp>::empty()
            && !pe_has(pe_view(pe@), name@),
        r matches Some(j) ==> j < pe@.len() && pe_lookup(pe_view(pe@), name@) == pe@[j as int].1@
            && pe_has(pe_view(pe@), name@),
{
    let n = pe.len();
    let mut i: usize = n;
    proof {
        assert(pe_view(pe@).take(n as int) =~= pe_view(pe@));
    }
    while i > 0
        invariant
            n == pe@.len(),
            i <= n,
            pe_lookup(pe_view(pe@), name@) == pe_lookup(pe_view(pe@).take(i as int), name@),
            forall|k: int| i <= k < n ==> (#[trigger] pe@[k]).0@ != name@,
        decreases i,
    {
        proof {
            let t = pe_view(pe@).take(i as int);
            assert(t.drop_last() =~= pe_view(pe@).take(i - 1));
            assert(t.last() == (pe@[i - 1].0@, pe@[i - 1].1@));
        }
        if str_eq(pe[i - 1].0.as_str(), name) {
            proof {
                assert(pe_view(pe@)[i - 1].0 == name@);
            }
            return Some(i - 1);
        }
        i = i - 1;
    }
    proof {
        assert(pe_view(pe@).take(0) =~= Seq::<(Seq<char>, Seq<ResolvedStyleProp>)>::empty());
        assert forall|k: int| 0 <= k < pe_view(pe@).len() implies (#[trigger] pe_view(pe@)[k]).0 != name@ by {
            assert(pe_view(pe@)[k].0 == pe@[k].0@);
        }
    }
    None
}

/// The change lists of the pseudo-element styles, from those applied
/// (`old`) to the new ones, where non-empty: first the pseudo elements of
/// `new` in order, then those that only `old` styled.
pub fn compute_changed_pe_styles(
    new: &Vec<(String, Vec<ResolvedStyleProp>)>,
    old: &Vec<(String, Vec<ResolvedStyleProp>)>,
) -> (r: Vec<(String, Vec<ResolvedStyleProp>)>)
    ensures
        pe_changes_view(r@) == pe_new_changes(pe_view(new@), pe_view(old@)) + pe_dropped_changes(
            pe_view(old@),
            pe_view(new@),
        ),
{
    let mut out: Vec<(String, Vec<ResolvedStyleProp>)> = Vec::new();
    let empty: Vec<ResolvedStyleProp> = Vec::new();
    let n = new.len();
    let mut i: usize = 0;
    while i < n
        invariant
            n == new@.len(),
            empty@.len() == 0,
            i <= n,
            pe_changes_view(out@) == pe_new_changes(pe_view(new@).take(i as int), pe_view(old@)),
        decreases n - i,
    {
        proof {
            let t = pe_view(new@).take(i + 1);
            assert(t.drop_last() =~= pe_view(new@).take(i as int));
            assert(t.last() == (new@[i as int].0@, new@[i as int].1@));
        }
        let name = new[i].0.as_str();
        let c = match pe_find(old, name) {
            Some(j) => compute_changed_style(&new[i].1, &old[j].1),
            None => {
                proof {
                    assert(empty@ =~= Seq::<ResolvedStyleProp>::empty());
                }
                compute_changed_style(&new[i].1, &empty)
            },
        };
        if c.len() > 0 {
            let ghost before = pe_changes_view(out@);
            out.push((new[i].0.clone(), c));
            proof {
                assert(pe_changes_view(out@) =~= before.push((name@, pairs_of(c@))));
            }
        }
        i = i + 1;
    }
    proof {
        assert(pe_view(new@).take(n as int) =~= pe_view(new@));
    }
    let ghost first = pe_changes_view(out@);
    let m = old.len();
    let mut k: usize = 0;
    proof {
        assert(pe_view(old@).take(0) =~= Seq::<(Seq<char>, Seq<ResolvedStyleProp>)>::empty());
        assert(first + pe_dropped_changes(pe_view(old@).take(0), pe_view(new@)) =~= first);
    }
    while k < m
        invariant
            m == old@.len(),
            empty@.len() == 0,
            k <= m,
            pe_changes_view(out@) == first + pe_dropped_changes(pe_view(old@).take(k as int), pe_view(new@)),
        decreases m - k,
    {
        proof {
            let t = pe_view(old@).take(k + 1);
            assert(t.drop_last() =~= pe_view(old@).take(k as int));
            assert(t.last() == (old@[k as int].0@, old@[k as int].1@));
        }
        let name = old[k].0.as_str();
        if pe_find(new, name).is_none() {
            proof {
                assert(empty@ =~= Seq::<ResolvedStyleProp>::empty());
            }
            let c = compute_changed_style(&empty, &old[k].1);
            if c.len() > 0 {
                let ghost before = pe_changes_view(out@);
                out.push((old[k].0.clone(), c));
                proof {
                    assert(pe_changes_view(out@) =~= before.push((name@, pairs_of(c@))));
                }
            }
        }
        k = k + 1;
    }
    proof {
        assert(pe_view(old@).take(m as int) =~= pe_view(old@));
    }
    out
}

/// No two entries name the same property.
pub open spec fn distinct_keys(s: Seq<ResolvedStyleProp>) -> bool {
    forall|i: int, j: int| 0 <= i < j < s.len() ==> (#[trigger] s[i]).key != (#[trigger] s[j]).key
}

proof fn lemma_map_holds_entries(s: Seq<ResolvedStyleProp>)
    requires
        distinct_keys(s),
    ensures
        forall|i: int| 0 <= i < s.len() ==> holds(style_map(s), (#[trigger] s[i]).key, s[i].value@),
    decreases s.len(),
{
    if s.len() > 0 {
        let t = s.drop_last();
        assert(distinct_keys(t));
        lemma_map_holds_entries(t);
        assert forall|i: int| 0 <= i < s.len() implies holds(style_map(s), (#[trigger] s[i]).key, s[i].value@) by {
            if i < s.len() - 1 {
                assert(t[i] == s[i]);
                assert(s[i].key != s[s.len() - 1].key);
            }
        }
    }
}

proof fn lemma_changed_from_none(s: Seq<ResolvedStyleProp>, m: Map<StylePropKey, Seq<char>>)
    requires
        forall|i: int| 0 <= i < s.len() ==> holds(m, (#[trigger] s[i]).key, s[i].value@),
    ensures
        changed_from(s, m).len() == 0,
    decreases s.len(),
{
    if s.len() > 0 {
        let t = s.drop_last();
        assert forall|i: int| 0 <= i < t.len() implies holds(m, (#[trigger] t[i]).key, t[i].value@) by {
            assert(t[i] == s[i]);
        }
        lemma_changed_from_none(t, m);
        assert(holds(m, s[s.len() - 1].key, s[s.len() - 1].value@));
    }
}

proof fn lemma_removed_none(old: Seq<ResolvedStyleProp>, m: Map<StylePropKey, Seq<char>>)
    requires
        forall|i: int| 0 <= i < old.len() ==> m.contains_key((#[trigger] old[i]).key),
    ensures
        removed_defaults(old, m).len() == 0,
    decreases old.len(),
{
    if old.len() > 0 {
        let t = old.drop_last();
        assert forall|i: int| 0 <= i < t.len() implies m.contains_key((#[trigger] t[i]).key) by {
            assert(t[i] == old[i]);
        }
        lemma_removed_none(t, m);
        assert(m.contains_key(old[old.len() - 1].key));
    }
}

/// Only a change of the text or background colour, of a border colour, of
/// the transform or of an animation property spares the node a new layout:
/// a change of any other property asks for one, among them display, sizes,
/// margins, paddings, border widths, flex and position properties and
/// overflow.
pub proof fn law_what_needs_layout(k: StylePropKey)
    ensures
        paint_only(k) <==> (k == StylePropKey::Color
            || k == StylePropKey::BackgroundColor
            || k == StylePropKey::BorderTopColor
            || k == StylePropKey::BorderRightColor
            || k == StylePropKey::BorderBottomColor
            || k == StylePropKey::BorderLeftColor
            || k == StylePropKey::Transform
            || k == StylePropKey::AnimationName
            || k == StylePropKey::AnimationDuration
            || k == StylePropKey::AnimationIterationCount),
        k == StylePropKey::Display
            || k == StylePropKey::Width
            || k == StylePropKey::Height
            || k == StylePropKey::MaxWidth
            || k == StylePropKey::MaxHeight
            || k == StylePropKey::MinWidth
            || k == StylePropKey::MinHeight
            || k == StylePropKey::MarginTop
            || k == StylePropKey::MarginRight
            || k == StylePropKey::MarginBottom
            || k == StylePropKey::MarginLeft
            || k == StylePropKey::PaddingTop
            || k == StylePropKey::PaddingRight
            || k == StylePropKey::PaddingBottom
            || k == StylePropKey::PaddingLeft
            || k == StylePropKey::BorderTopWidth
            || k == StylePropKey::BorderRightWidth
            || k == StylePropKey::BorderBottomWidth
            || k == StylePropKey::BorderLeftWidth
            || k == StylePropKey::Flex
            || k == StylePropKey::FlexBasis
            || k == StylePropKey::FlexGrow
            || k == StylePropKey::FlexShrink
            || k == StylePropKey::FlexDirection
            || k == StylePropKey::FlexWrap
            || k == StylePropKey::AlignSelf
            || k == StylePropKey::AlignItems
            || k == StylePropKey::AlignContent
            || k == StylePropKey::JustifyContent
            || k == StylePropKey::Position
            || k == StylePropKey::Top
            || k == StylePropKey::Right
            || k == StylePropKey::Bottom
            || k == StylePropKey::Left
            || k == StylePropKey::Overflow ==> !paint_only(k),
{
}

/// The default of every property: black text in a 12px font of normal
/// weight, style and line height from the default families, on a
/// transparent background; borders 0px wide, transparent and with square
/// corners; a flex display laid out in a column from the start, without
/// wrapping, left to right, statically placed, with hidden overflow and no
/// growth, shrinking or gaps; sizes, margins, paddings, the flex basis and
/// the offsets left to layout (`auto`); no transform; and no animation
/// (no name, a duration of 0, one iteration).
pub proof fn law_default_values(k: StylePropKey)
    ensures
        k == StylePropKey::BorderTopWidth
            || k == StylePropKey::BorderRightWidth
            || k == StylePropKey::BorderBottomWidth
            || k == StylePropKey::BorderLeftWidth
            || k == StylePropKey::BorderTopLeftRadius
            || k == StylePropKey::BorderTopRightRadius
            || k == StylePropKey::BorderBottomRightRadius
            || k == StylePropKey::BorderBottomLeftRadius
            || k == StylePropKey::ColumnGap
            || k == StylePropKey::RowGap ==> default_text(k) == "0px"@,
        k == StylePropKey::Width
            || k == StylePropKey::Height
            || k == StylePropKey::MaxWidth
            || k == StylePropKey::MaxHeight
            || k == StylePropKey::MinWidth
            || k == StylePropKey::MinHeight
            || k == StylePropKey::MarginTop
            || k == StylePropKey::MarginRight
            || k == StylePropKey::MarginBottom
            || k == StylePropKey::MarginLeft
            || k == StylePropKey::PaddingTop
            || k == StylePropKey::PaddingRight
            || k == StylePropKey::PaddingBottom
            || k == StylePropKey::PaddingLeft
            || k == StylePropKey::FlexBasis
            || k == StylePropKey::Top
            || k == StylePropKey::Right
            || k == StylePropKey::Bottom
            || k == StylePropKey::Left ==> default_text(k) == "auto"@,
        k == StylePropKey::BackgroundColor
            || k == StylePropKey::BorderTopColor
            || k == StylePropKey::BorderRightColor
            || k == StylePropKey::BorderBottomColor
            || k == StylePropKey::BorderLeftColor ==> default_text(k) == "transparent"@,
        k == StylePropKey::AlignSelf
            || k == StylePropKey::JustifyContent
            || k == StylePropKey::AlignContent
            || k == StylePropKey::AlignItems ==> default_text(k) == "flex-start"@,
        k == StylePropKey::FontWeight
            || k == StylePropKey::FontStyle
            || k == StylePropKey::LineHeight ==> default_text(k) == "normal"@,
        k == StylePropKey::Flex
            || k == StylePropKey::FlexGrow
            || k == StylePropKey::FlexShrink
            || k == StylePropKey::AnimationDuration ==> default_text(k) == "0"@,
        k == StylePropKey::FontFamily
            || k == StylePropKey::AnimationName ==> default_text(k) == ""@,
        k == StylePropKey::Color ==> default_text(k) == "black"@,
        k == StylePropKey::FontSize ==> default_text(k) == "12px"@,
        k == StylePropKey::Display ==> default_text(k) == "flex"@,
        k == StylePropKey::Direction ==> default_text(k) == "ltr"@,
        k == StylePropKey::Position ==> default_text(k) == "static"@,
        k == StylePropKey::Overflow ==> default_text(k) == "hidden"@,
        k == StylePropKey::FlexDirection ==> default_text(k) == "column"@,
        k == StylePropKey::FlexWrap ==> default_text(k) == "nowrap"@,
        k == StylePropKey::Transform ==> default_text(k) == "none"@,
        k == StylePropKey::AnimationIterationCount ==> default_text(k) == "1"@,
{
}

/// Applying a style (with each property once) over the same style changes
/// nothing: its change list is empty.
pub proof fn law_reapplied_style_changes_nothing(s: Seq<ResolvedStyleProp>)
    requires
        distinct_keys(s),
    ensures
        changed_style(s, s).len() == 0,
{
    lemma_map_holds_entries(s);
    lemma_changed_from_none(s, style_map(s));
    lemma_removed_none(s, style_map(s));
}

} // verus!
