use vstd::prelude::*;
use crate::style::computed::{
    StyleEffects, StyleState, apply_all, changed_style, compute_changed_pe_styles,
    compute_changed_style, ScrollBarStrategy, default_text, default_value, effects, find_last, holds, is_paint_only,
    lemma_update_last, pairs_of, paint_only, pe_changes_view, pe_dropped_changes, pe_new_changes,
    pe_view, resolve_all, resolve_spec, resolved_text, set_step, style_map,
};
use crate::style::key::StylePropKey;
use crate::style::prop::{DeclaredValue, FixedStyleProp, ResolvedStyleProp, duplicate_props};
use crate::style::parsed_styles::{ParsedStyleProp, ParsedStyles};
use crate::text::str_eq;

verus! {

/// A node of the style tree, as far as keeping computed styles up to date
/// goes: which nodes must compute their own style again, and which have
/// such nodes below them.
pub struct StyleNode {
    pub id: u32,
    /// Its own style must be computed again.
    pub self_dirty: bool,
    /// Some node below it must compute its style again.
    pub children_dirty: bool,
    pub hover: bool,
    /// Whether a hover style is declared for it.
    pub has_hover_style: bool,
    /// The properties declared for it, those declared for it while hovered,
    /// those its running animation sets, and those declared for each of its
    /// pseudo elements.
    pub declared: Vec<FixedStyleProp>,
    pub hover_declared: Vec<FixedStyleProp>,
    pub animation_props: Vec<FixedStyleProp>,
    pub pe_declared: Vec<(String, Vec<FixedStyleProp>)>,
    /// Whether its listener has been asked for a repaint.
    pub repaint_requested: bool,
    /// What is resolved and applied to it.
    pub style: StyleState,
    pub children: Vec<StyleNode>,
}

/// Every node with a flag set is below a node that knows it: a child with
/// either flag set has a parent whose `children_dirty` is set.
pub open spec fn flags_ok(n: StyleNode) -> bool
    decreases n,
{
    &&& forall|i: int|
        0 <= i < n.children@.len() ==> (#[trigger] n.children@[i]).self_dirty
            || n.children@[i].children_dirty ==> n.children_dirty
    &&& forall|i: int| 0 <= i < n.children@.len() ==> flags_ok(#[trigger] n.children@[i])
}

/// No node of the tree has a flag set.
pub open spec fn clean(n: StyleNode) -> bool
    decreases n,
{
    &&& !n.self_dirty
    &&& !n.children_dirty
    &&& forall|i: int| 0 <= i < n.children@.len() ==> clean(#[trigger] n.children@[i])
}

/// Whether updating `n` computes its own style again: it is dirty, or its
/// parent's style changed.
pub open spec fn restyles(n: StyleNode, parent_changed: bool) -> bool {
    n.self_dirty || parent_changed
}

/// The properties that apply to a node: those declared for it, those
/// declared for it while hovered when it is, and those of its running
/// animation, later ones winning.
pub open spec fn own_props(n: StyleNode) -> Seq<FixedStyleProp> {
    n.declared@ + (if n.hover {
        n.hover_declared@
    } else {
        Seq::empty()
    }) + n.animation_props@
}

/// (key, value) pairs read as a map: a later pair for a key wins.
pub open spec fn last_values(ps: Seq<(StylePropKey, Seq<char>)>) -> Map<StylePropKey, Seq<char>>
    decreases ps.len(),
{
    if ps.len() == 0 {
        Map::empty()
    } else {
        last_values(ps.drop_last()).insert(ps.last().0, ps.last().1)
    }
}

/// Whether some property of `ps` is for `k`.
pub open spec fn sets_key(ps: Seq<FixedStyleProp>, k: StylePropKey) -> bool {
    exists|i: int| 0 <= i < ps.len() && (#[trigger] ps[i]).key == k
}

proof fn lemma_style_map_pairs(s: Seq<ResolvedStyleProp>)
    ensures
        style_map(s) == last_values(pairs_of(s)),
    decreases s.len(),
{
    if s.len() > 0 {
        lemma_style_map_pairs(s.drop_last());
        assert(pairs_of(s.drop_last()) =~= pairs_of(s).drop_last());
    } else {
        assert(style_map(s) =~= last_values(pairs_of(s)));
    }
}

proof fn lemma_last_values_append(x: Seq<(StylePropKey, Seq<char>)>, y: Seq<(StylePropKey, Seq<char>)>, k: StylePropKey)
    ensures
        last_values(y).contains_key(k) ==> last_values(x + y).contains_key(k) && last_values(
            x + y,
        )[k] == last_values(y)[k],
        !last_values(y).contains_key(k) ==> last_values(x + y).contains_key(k)
            == last_values(x).contains_key(k) && (last_values(x).contains_key(k) ==> last_values(
            x + y,
        )[k] == last_values(x)[k]),
    decreases y.len(),
{
    if y.len() == 0 {
        assert(x + y =~= x);
    } else {
        lemma_last_values_append(x, y.drop_last(), k);
        assert((x + y).drop_last() =~= x + y.drop_last());
        assert((x + y).last() == y.last());
    }
}

proof fn lemma_resolved_keys(ps: Seq<FixedStyleProp>, parent: Option<StyleState>, k: StylePropKey)
    ensures
        last_values(resolve_all(ps, parent)).contains_key(k) == sets_key(ps, k),
    decreases ps.len(),
{
    if ps.len() > 0 {
        let q = ps.drop_last();
        lemma_resolved_keys(q, parent, k);
        assert(resolve_all(q, parent) =~= resolve_all(ps, parent).drop_last());
        if sets_key(q, k) {
            let i = choose|i: int| 0 <= i < q.len() && (#[trigger] q[i]).key == k;
            assert(ps[i].key == k);
        }
        if sets_key(ps, k) && ps.last().key != k {
            let i = choose|i: int| 0 <= i < ps.len() && (#[trigger] ps[i]).key == k;
            assert(q[i].key == k);
        }
        if ps.last().key == k {
            assert(ps[ps.len() - 1].key == k);
        }
    } else {
        assert(last_values(resolve_all(ps, parent)) =~= Map::empty());
    }
}

/// Restyling a node lets its running animation win: for every property the
/// animation sets, the node's style takes the animation's value (its last
/// one for that property), whatever the node declares; for every other
/// property, a value declared for the hovered node wins over a plainly
/// declared one while the node is hovered, and the node's style holds
/// exactly the properties declared for it or set by the animation.
pub proof fn law_animation_wins(
    n: StyleNode,
    before: StyleState,
    after: StyleState,
    parent: Option<StyleState>,
    k: StylePropKey,
)
    requires
        owned_update(n, before, after, parent),
    ensures
        sets_key(n.animation_props@, k) ==> style_map(after.applied@).contains_key(k)
            && style_map(after.applied@)[k] == last_values(resolve_all(n.animation_props@, parent))[k],
        !sets_key(n.animation_props@, k) && n.hover && sets_key(n.hover_declared@, k)
            ==> style_map(after.applied@).contains_key(k) && style_map(after.applied@)[k]
            == last_values(resolve_all(n.hover_declared@, parent))[k],
        !sets_key(n.animation_props@, k) && !(n.hover && sets_key(n.hover_declared@, k))
            ==> style_map(after.applied@) .contains_key(k) == sets_key(n.declared@, k)
            && (sets_key(n.declared@, k) ==> style_map(after.applied@)[k] == last_values(
            resolve_all(n.declared@, parent),
        )[k]),
{
    let d = resolve_all(n.declared@, parent);
    let h = resolve_all(
        if n.hover {
            n.hover_declared@
        } else {
            Seq::empty()
        },
        parent,
    );
    let a = resolve_all(n.animation_props@, parent);
    let hv = if n.hover {
        n.hover_declared@
    } else {
        Seq::<FixedStyleProp>::empty()
    };
    assert(resolve_all(own_props(n), parent) =~= d + h + a);
    lemma_style_map_pairs(after.applied@);
    lemma_last_values_append(d + h, a, k);
    lemma_last_values_append(d, h, k);
    lemma_resolved_keys(n.animation_props@, parent, k);
    lemma_resolved_keys(hv, parent, k);
    lemma_resolved_keys(n.declared@, parent, k);
    if !n.hover {
        assert(!sets_key(hv, k));
    }
}

/// What computing and applying a node's own style does to its computed
/// style `before`, on a node whose parent's style is `parent`: the applied
/// style becomes its properties resolved, each pseudo element's likewise,
/// the change list against the old applied style is applied, and the
/// non-empty pseudo-element change lists are handed to its style listener.
pub open spec fn owned_update(n: StyleNode, before: StyleState, after: StyleState, parent: Option<StyleState>) -> bool {
    &&& pairs_of(after.applied@) == resolve_all(own_props(n), parent)
    &&& after.applied_pe@.len() == n.pe_declared@.len()
    &&& forall|i: int|
        0 <= i < n.pe_declared@.len() ==> (#[trigger] after.applied_pe@[i]).0@
            == n.pe_declared@[i].0@ && pairs_of(after.applied_pe@[i].1@) == resolve_all(
            n.pe_declared@[i].1@,
            parent,
        )
    &&& effects(after) == apply_all(effects(before), changed_style(after.applied@, before.applied@))
    &&& after.accepted_pe@.len() >= before.accepted_pe@.len()
    &&& after.accepted_pe@.take(before.accepted_pe@.len() as int) == before.accepted_pe@
    &&& pe_changes_view(after.accepted_pe@.skip(before.accepted_pe@.len() as int)) == pe_changes(
        before,
        after,
    )
}

/// The non-empty change lists of the pseudo elements between two applied
/// states.
pub open spec fn pe_changes(before: StyleState, after: StyleState) -> Seq<(Seq<char>, Seq<(StylePropKey, Seq<char>)>)> {
    pe_new_changes(pe_view(after.applied_pe@), pe_view(before.applied_pe@)) + pe_dropped_changes(
        pe_view(before.applied_pe@),
        pe_view(after.applied_pe@),
    )
}

/// Whether applying changed anything: the own style or a pseudo element's.
pub open spec fn own_changed(before: StyleState, after: StyleState) -> bool {
    changed_style(after.applied@, before.applied@).len() > 0 || pe_changes(before, after).len() > 0
}

/// A node as `StyleNode::apply_style_update` leaves it, under a parent whose
/// style is `parent` and whose style changed when `parent_changed`: its own
/// style computed and applied again where `restyles` says so (see
/// `owned_update`), its children updated where some are dirty or its own
/// style changed, and both flags cleared.
pub open spec fn updated(n: StyleNode, parent: Option<StyleState>, parent_changed: bool, after: StyleNode) -> bool
    decreases n,
{
    &&& after.id == n.id
    &&& after.hover == n.hover
    &&& after.has_hover_style == n.has_hover_style
    &&& after.repaint_requested == n.repaint_requested
    &&& after.declared == n.declared
    &&& after.hover_declared == n.hover_declared
    &&& after.animation_props == n.animation_props
    &&& after.pe_declared == n.pe_declared
    &&& !after.self_dirty
    &&& !after.children_dirty
    &&& if restyles(n, parent_changed) {
        owned_update(n, n.style, after.style, parent)
    } else {
        after.style == n.style
    }
    &&& after.children@.len() == n.children@.len()
    &&& {
        let changed = restyles(n, parent_changed) && own_changed(n.style, after.style);
        if n.children_dirty || changed {
            forall|i: int|
                0 <= i < n.children@.len() ==> updated(
                    #[trigger] n.children@[i],
                    Some(after.style),
                    changed,
                    after.children@[i],
                )
        } else {
            after.children == n.children
        }
    }
}

/// A node whose flags are clear, in a tree whose flags are in order, has a
/// clean subtree.
pub proof fn lemma_unflagged_is_clean(n: StyleNode)
    requires
        flags_ok(n),
        !n.self_dirty,
        !n.children_dirty,
    ensures
        clean(n),
    decreases n,
{
    assert forall|i: int| 0 <= i < n.children@.len() implies clean(#[trigger] n.children@[i]) by {
        let c = n.children@[i];
        assert(decreases_to!(n => n.children));
        assert(decreases_to!(n.children => n.children@));
        assert(decreases_to!(n.children@ => n.children@[i]));
        lemma_unflagged_is_clean(c);
    }
}

/// Updating a tree whose flags are in order leaves every node of it clean,
/// whatever the parent did.
pub proof fn law_update_leaves_tree_clean(n: StyleNode, parent: Option<StyleState>, parent_changed: bool, after: StyleNode)
    requires
        flags_ok(n),
        updated(n, parent, parent_changed, after),
    ensures
        clean(after),
    decreases n,
{
    let changed = restyles(n, parent_changed) && own_changed(n.style, after.style);
    if n.children_dirty || changed {
        assert forall|i: int| 0 <= i < after.children@.len() implies clean(
            #[trigger] after.children@[i],
        ) by {
            assert(decreases_to!(n => n.children));
            assert(decreases_to!(n.children => n.children@));
            assert(decreases_to!(n.children@ => n.children@[i]));
            assert(updated(n.children@[i], Some(after.style), changed, after.children@[i]));
            law_update_leaves_tree_clean(
                n.children@[i],
                Some(after.style),
                changed,
                after.children@[i],
            );
        }
    } else {
        assert forall|i: int| 0 <= i < after.children@.len() implies clean(
            #[trigger] after.children@[i],
        ) by {
            assert(after.children@[i] == n.children@[i]);
            assert(decreases_to!(n => n.children));
            assert(decreases_to!(n.children => n.children@));
            assert(decreases_to!(n.children@ => n.children@[i]));
            lemma_unflagged_is_clean(n.children@[i]);
        }
    }
}

impl StyleNode {
    /// A node with no children and nothing to recompute.
    pub fn new(id: u32) -> (r: Self)
        ensures
            r.id == id,
            r.children@.len() == 0,
            !r.self_dirty,
            !r.children_dirty,
            !r.hover,
            !r.has_hover_style,
            r.declared@.len() == 0,
            r.hover_declared@.len() == 0,
            r.animation_props@.len() == 0,
            r.pe_declared@.len() == 0,
            !r.repaint_requested,
            r.style.resolved@.len() == 0,
            r.style.notified@.len() == 0,
            !r.style.need_snapshot,
            r.style.scroll_strategy == ScrollBarStrategy::Never,
            r.style.animation_restarts@.len() == 0,
            r.style.dirty_requests@.len() == 0,
            r.style.applied@.len() == 0,
            r.style.applied_pe@.len() == 0,
            r.style.accepted_pe@.len() == 0,
            clean(r),
            flags_ok(r),
    {
        StyleNode {
            id,
            self_dirty: false,
            children_dirty: false,
            hover: false,
            has_hover_style: false,
            declared: Vec::new(),
            hover_declared: Vec::new(),
            animation_props: Vec::new(),
            pe_declared: Vec::new(),
            repaint_requested: false,
            style: StyleState {
                resolved: Vec::new(),
                notified: Vec::new(),
                need_snapshot: false,
                scroll_strategy: ScrollBarStrategy::Never,
                animation_restarts: Vec::new(),
                dirty_requests: Vec::new(),
                applied: Vec::new(),
                applied_pe: Vec::new(),
                accepted_pe: Vec::new(),
            },
            children: Vec::new(),
        }
    }

    /// Marks the node's own style for computing again, and asks its listener
    /// for a repaint. The nodes above learn of it through `mark_dirty_at`,
    /// called on the root.
    pub fn mark_dirty(&mut self)
        ensures
            *final(self) == (StyleNode {
                self_dirty: true,
                repaint_requested: true,
                ..*old(self)
            }),
    {
        self.self_dirty = true;
        self.repaint_requested = true;
    }

    /// Sets whether the pointer is over the node; a node with a hover style
    /// must then compute its style again.
    pub fn set_hover(&mut self, value: bool)
        ensures
            final(self).hover == value,
            final(self).self_dirty == (old(self).self_dirty || old(self).has_hover_style),
            final(self).repaint_requested == (old(self).repaint_requested
                || old(self).has_hover_style),
            final(self).children == old(self).children,
            final(self).children_dirty == old(self).children_dirty,
            final(self).style == old(self).style,
            final(self).id == old(self).id,
    {
        self.hover = value;
        if self.has_hover_style {
            self.mark_dirty();
        }
    }

    pub fn get_hover(&self) -> (r: bool)
        ensures
            r == self.hover,
    {
        self.hover
    }

    /// Marks the node at `path` below this one (a child index at each level)
    /// as dirty, and every node on the way as having a dirty node below it.
    /// A path that leaves the tree stops where it leaves it.
    pub fn mark_dirty_at(&mut self, path: &[usize], start: usize)
        requires
            start <= path@.len(),
            flags_ok(*old(self)),
        ensures
            flags_ok(*final(self)),
            final(self).id == old(self).id,
            final(self).children@.len() == old(self).children@.len(),
            start == path@.len() ==> final(self).self_dirty,
            start < path@.len() && path@[start as int] < old(self).children@.len()
                ==> final(self).children_dirty,
            old(self).self_dirty ==> final(self).self_dirty,
            old(self).children_dirty ==> final(self).children_dirty,
        decreases path@.len() - start,
    {
        if start == path.len() {
            self.mark_dirty();
            return;
        }
        let i = path[start];
        if i >= self.children.len() {
            return;
        }
        let mut cs: Vec<StyleNode> = Vec::new();
        std::mem::swap(&mut cs, &mut self.children);
        let ghost before = cs@;
        let mut c = cs.remove(i);
        c.mark_dirty_at(path, start + 1);
        cs.insert(i, c);
        self.children = cs;
        self.children_dirty = true;
        proof {
            assert forall|k: int| 0 <= k < self.children@.len() implies flags_ok(
                #[trigger] self.children@[k],
            ) by {
                if k != i {
                    assert(self.children@[k] == before[k]);
                }
            }
        }
    }

    /// Computes the style of every node that needs it: this node where it is
    /// dirty or its parent's style changed, and then its children, under
    /// this node's new style, where some of them are dirty or its own style
    /// changed. `parent` is the node's parent, where it has one. See
    /// `updated`.
    pub fn apply_style_update(&mut self, parent: Option<&StyleNode>, parent_changed: bool)
        ensures
            updated(*old(self), parent_style(parent), parent_changed, *final(self)),
        decreases *old(self),
    {
        let ghost n = *self;
        let changed = if self.self_dirty || parent_changed {
            self.restyle(parent)
        } else {
            false
        };
        proof {
            assert(changed == (restyles(n, parent_changed) && own_changed(n.style, self.style)));
        }
        if self.children_dirty || changed {
            let mut cs: Vec<StyleNode> = Vec::new();
            std::mem::swap(&mut cs, &mut self.children);
            let ghost all = cs@;
            let mut out: Vec<StyleNode> = Vec::new();
            let mut k: usize = 0;
            proof {
                assert(all == n.children@);
                assert(all.len() == cs.len());
                assert(all.skip(0) =~= all);
            }
            #[verifier::loop_isolation(false)]
            while cs.len() > 0
                invariant
                    all == n.children@,
                    all.len() <= usize::MAX,
                    cs@ == all.skip(k as int),
                    k <= all.len(),
                    out@.len() == k,
                    forall|j: int|
                        0 <= j < k ==> updated(#[trigger] all[j], Some(self.style), changed, out@[j]),
                decreases cs@.len(),
            {
                let mut c = cs.remove(0);
                proof {
                    assert(c == all[k as int]);
                    assert(decreases_to!(n => n.children));
                    assert(decreases_to!(n.children => n.children@));
                    assert(decreases_to!(n.children@ => n.children@[k as int]));
                }
                c.apply_style_update(Some(&*self), changed);
                out.push(c);
                k = k + 1;
                proof {
                    assert(cs@ =~= all.skip(k as int));
                }
            }
            self.children = out;
        }
        self.children_dirty = false;
        self.self_dirty = false;
    }

    /// Inserts `child` at `index`; the child must compute its style, which
    /// this node records as a dirty node below it.
    pub fn insert_child(&mut self, child: StyleNode, index: usize)
        requires
            index <= old(self).children@.len(),
            flags_ok(child),
            flags_ok(*old(self)),
        ensures
            flags_ok(*final(self)),
            final(self).children_dirty,
            final(self).children@ == old(self).children@.insert(
                index as int,
                StyleNode { self_dirty: true, repaint_requested: true, ..child },
            ),
            final(self).self_dirty == old(self).self_dirty,
            final(self).id == old(self).id,
    {
        let mut child = child;
        child.mark_dirty();
        let ghost before = self.children@;
        self.children.insert(index, child);
        self.children_dirty = true;
        proof {
            assert forall|k: int| 0 <= k < self.children@.len() implies flags_ok(
                #[trigger] self.children@[k],
            ) by {
                if k < index {
                    assert(self.children@[k] == before[k]);
                } else if k > index {
                    assert(self.children@[k] == before[k - 1]);
                }
            }
        }
    }

    /// Removes the child at `index` and gives it back, marked for computing
    /// its style again; this node's flags stay as they were.
    pub fn remove_child(&mut self, index: usize) -> (r: StyleNode)
        requires
            index < old(self).children@.len(),
            flags_ok(*old(self)),
        ensures
            flags_ok(*final(self)),
            r == (StyleNode {
                self_dirty: true,
                repaint_requested: true,
                ..old(self).children@[index as int]
            }),
            final(self).children@ == old(self).children@.remove(index as int),
            final(self).children_dirty == old(self).children_dirty,
            final(self).self_dirty == old(self).self_dirty,
            final(self).id == old(self).id,
    {
        let ghost before = self.children@;
        let mut child = self.children.remove(index);
        child.mark_dirty();
        proof {
            assert forall|k: int| 0 <= k < self.children@.len() implies flags_ok(
                #[trigger] self.children@[k],
            ) by {
                if k < index {
                    assert(self.children@[k] == before[k]);
                } else {
                    assert(self.children@[k] == before[k + 1]);
                }
            }
        }
        child
    }

    pub fn child_count(&self) -> (r: usize)
        ensures
            r == self.children@.len(),
    {
        self.children.len()
    }

    /// Forgets the style last applied, so that the next `apply` hands on
    /// every property as changed; the styles of the pseudo elements are kept.
    pub fn clear_applied(&mut self)
        ensures
            final(self).style.applied@.len() == 0,
            *final(self) == (StyleNode {
                style: StyleState { applied: final(self).style.applied, ..old(self).style },
                ..*old(self)
            }),
    {
        self.style.applied = Vec::new();
    }
}

/// The style of a node's parent, where it has one.
pub open spec fn parent_style(parent: Option<&StyleNode>) -> Option<StyleState> {
    match parent {
        Some(p) => Some(p.style),
        None => None,
    }
}

impl StyleNode {
    /// The value that property `key` takes where nothing declares it.
    pub fn get_default_value(&self, key: StylePropKey) -> (r: ResolvedStyleProp)
        ensures
            r.key == key,
            r.value@ == default_text(key),
    {
        default_value(key)
    }

    /// The value of property `key` on this node: its resolved value, else
    /// its default.
    pub fn get_resolved_value(&self, key: StylePropKey) -> (r: ResolvedStyleProp)
        ensures
            r.key == key,
            r.value@ == resolved_text(self.style, key),
    {
        match find_last(&self.style.resolved, key) {
            Some(j) => self.style.resolved[j].duplicate(),
            None => default_value(key),
        }
    }

    /// Stores a resolved value. A value the node already holds changes
    /// nothing and gives `(false, false)`. Otherwise it is stored, the change
    /// listener is told of the key (not of `FontSize`), `Overflow` sets the
    /// strategy of both scroll bars and whether a snapshot is needed, a new
    /// animation name, duration or iteration count restarts the animation,
    /// and the result is a repaint and, unless the key is `paint_only`, a new
    /// layout.
    pub fn set_resolved_style_prop(&mut self, p: ResolvedStyleProp) -> (r: (bool, bool))
        ensures
            holds(style_map(old(self).style.resolved@), p.key, p.value@) ==> r == (false, false)
                && *final(self) == *old(self),
            !holds(style_map(old(self).style.resolved@), p.key, p.value@) ==> r == (
                true,
                !paint_only(p.key),
            ),
            effects(final(self).style) == set_step(effects(old(self).style), p.key, p.value@),
            final(self).style.applied == old(self).style.applied,
            final(self).style.applied_pe == old(self).style.applied_pe,
            final(self).style.accepted_pe == old(self).style.accepted_pe,
            *final(self) == (StyleNode { style: final(self).style, ..*old(self) }),
    {
        let key = p.key;
        let strategy = if str_eq(p.value.as_str(), "scroll") {
            ScrollBarStrategy::Always
        } else if str_eq(p.value.as_str(), "auto") {
            ScrollBarStrategy::Auto
        } else {
            ScrollBarStrategy::Never
        };
        let ghost before = self.style.resolved@;
        match find_last(&self.style.resolved, key) {
            Some(j) => {
                if str_eq(self.style.resolved[j].value.as_str(), p.value.as_str()) {
                    return (false, false);
                }
                proof {
                    lemma_update_last(before, j as int, p);
                }
                self.style.resolved.set(j, p);
            },
            None => {
                self.style.resolved.push(p);
                proof {
                    assert(self.style.resolved@.drop_last() =~= before);
                }
            },
        }
        if key != StylePropKey::FontSize {
            self.style.notified.push(key);
        }
        if key == StylePropKey::Overflow {
            self.style.need_snapshot = match strategy {
                ScrollBarStrategy::Never => false,
                ScrollBarStrategy::Auto | ScrollBarStrategy::Always => true,
            };
            self.style.scroll_strategy = strategy;
        }
        if key == StylePropKey::AnimationName || key == StylePropKey::AnimationDuration
            || key == StylePropKey::AnimationIterationCount {
            self.style.animation_restarts.push(key);
        }
        proof {
            assert(effects(self.style) =~= set_step(effects(old(self).style), key, p.value@));
        }
        (true, !is_paint_only(key))
    }

    /// Applies a newly computed style and the styles of its pseudo elements:
    /// the change list against the applied style is applied value by value
    /// (see `apply_all`), the new styles become the applied ones, and the
    /// result says whether the change list was non-empty and gives the
    /// non-empty change lists of the pseudo elements.
    pub fn apply(
        &mut self,
        styles: Vec<ResolvedStyleProp>,
        pe: Vec<(String, Vec<ResolvedStyleProp>)>,
    ) -> (r: (bool, Vec<(String, Vec<ResolvedStyleProp>)>))
        ensures
            r.0 == (changed_style(styles@, old(self).style.applied@).len() > 0),
            effects(final(self).style) == apply_all(
                effects(old(self).style),
                changed_style(styles@, old(self).style.applied@),
            ),
            final(self).style.applied == styles,
            final(self).style.applied_pe == pe,
            final(self).style.accepted_pe == old(self).style.accepted_pe,
            pe_changes_view(r.1@) == pe_new_changes(pe_view(pe@), pe_view(old(self).style.applied_pe@))
                + pe_dropped_changes(pe_view(old(self).style.applied_pe@), pe_view(pe@)),
            *final(self) == (StyleNode { style: final(self).style, ..*old(self) }),
    {
        let changed = compute_changed_style(&styles, &self.style.applied);
        let n = changed.len();
        let mut i: usize = 0;
        while i < n
            invariant
                n == changed@.len(),
                i <= n,
                pairs_of(changed@) == changed_style(styles@, old(self).style.applied@),
                effects(self.style) == apply_all(effects(old(self).style), pairs_of(changed@).take(i as int)),
                self.style.applied == old(self).style.applied,
                self.style.applied_pe == old(self).style.applied_pe,
                self.style.accepted_pe == old(self).style.accepted_pe,
                *self == (StyleNode { style: self.style, ..*old(self) }),
            decreases n - i,
        {
            proof {
                let t = pairs_of(changed@).take(i + 1);
                assert(t.drop_last() =~= pairs_of(changed@).take(i as int));
                assert(t.last() == (changed@[i as int].key, changed@[i as int].value@));
            }
            let ghost e0 = effects(self.style);
            let (repaint, need_layout) = self.set_resolved_style_prop(changed[i].duplicate());
            if repaint || need_layout {
                self.style.dirty_requests.push(need_layout);
            }
            proof {
                assert(effects(self.style) =~= apply_all(effects(old(self).style), pairs_of(changed@).take(i + 1)));
            }
            i = i + 1;
        }
        proof {
            assert(pairs_of(changed@).take(n as int) =~= pairs_of(changed@));
        }
        let pe_changed = compute_changed_pe_styles(&pe, &self.style.applied_pe);
        self.style.applied = styles;
        self.style.applied_pe = pe;
        (n > 0, pe_changed)
    }

    /// Resolves declared properties on this node, in order: see
    /// `resolve_spec`.
    pub fn resolve_style_props(&self, props: &Vec<FixedStyleProp>, parent: Option<&StyleNode>) -> (r: Vec<
        ResolvedStyleProp,
    >)
        ensures
            pairs_of(r@) == resolve_all(props@, parent_style(parent)),
    {
        let mut out: Vec<ResolvedStyleProp> = Vec::new();
        let n = props.len();
        let mut i: usize = 0;
        while i < n
            invariant
                n == props@.len(),
                i <= n,
                pairs_of(out@) == resolve_all(props@.take(i as int), parent_style(parent)),
            decreases n - i,
        {
            let d = |k: StylePropKey| -> (r: ResolvedStyleProp)
                ensures
                    r.key == k && r.value@ == default_text(k),
                { default_value(k) };
            let pv = |k: StylePropKey| -> (r: ResolvedStyleProp)
                ensures
                    r.key == k && r.value@ == match parent_style(parent) {
                        Some(st) => resolved_text(st, k),
                        None => default_text(k),
                    },
                {
                    match parent {
                        Some(pn) => pn.get_resolved_value(k),
                        None => default_value(k),
                    }
                };
            let v = props[i].resolve_value(d, pv);
            let ghost before = pairs_of(out@);
            out.push(v);
            proof {
                assert(pairs_of(out@) =~= before.push((v.key, v.value@)));
                assert(props@.take(i + 1) =~= props@.take(i as int).push(props@[i as int]));
                assert((v.key, v.value@) == resolve_spec(props@[i as int], parent_style(parent)));
                assert(resolve_all(props@.take(i + 1), parent_style(parent)) =~= resolve_all(
                    props@.take(i as int),
                    parent_style(parent),
                ).push(resolve_spec(props@[i as int], parent_style(parent))));
            }
            i = i + 1;
        }
        proof {
            assert(props@.take(n as int) =~= props@);
        }
        out
    }

    /// Computes the node's own style: its declared properties followed by
    /// those of its running animation (which win), resolved on this node,
    /// and the style of each pseudo element, resolved the same way.
    pub fn compute_owned_style(
        &self,
        props: &Vec<FixedStyleProp>,
        animation: &Vec<FixedStyleProp>,
        pe_props: &Vec<(String, Vec<FixedStyleProp>)>,
        parent: Option<&StyleNode>,
    ) -> (r: (Vec<ResolvedStyleProp>, Vec<(String, Vec<ResolvedStyleProp>)>))
        ensures
            pairs_of(r.0@) == resolve_all(props@ + animation@, parent_style(parent)),
            r.1@.len() == pe_props@.len(),
            forall|i: int|
                0 <= i < pe_props@.len() ==> (#[trigger] r.1@[i]).0@ == pe_props@[i].0@
                    && pairs_of(r.1@[i].1@) == resolve_all(pe_props@[i].1@, parent_style(parent)),
    {
        let mut styles = self.resolve_style_props(props, parent);
        let mut anim = self.resolve_style_props(animation, parent);
        let ghost a = pairs_of(styles@);
        let ghost b = pairs_of(anim@);
        styles.append(&mut anim);
        proof {
            assert(pairs_of(styles@) =~= a + b);
            assert(resolve_all(props@ + animation@, parent_style(parent)) =~= resolve_all(
                props@,
                parent_style(parent),
            ) + resolve_all(animation@, parent_style(parent)));
        }
        let mut pe: Vec<(String, Vec<ResolvedStyleProp>)> = Vec::new();
        let n = pe_props.len();
        let mut i: usize = 0;
        while i < n
            invariant
                n == pe_props@.len(),
                i <= n,
                pe@.len() == i,
                forall|j: int|
                    0 <= j < i ==> (#[trigger] pe@[j]).0@ == pe_props@[j].0@ && pairs_of(pe@[j].1@)
                        == resolve_all(pe_props@[j].1@, parent_style(parent)),
            decreases n - i,
        {
            let resolved = self.resolve_style_props(&pe_props[i].1, parent);
            pe.push((pe_props[i].0.clone(), resolved));
            i = i + 1;
        }
        (styles, pe)
    }

    /// Computes the node's own style (see `compute_owned_style`) and applies
    /// it (see `apply`); the non-empty pseudo-element change lists are handed
    /// to its style listener. The result says whether anything changed, the
    /// own style or a pseudo element's.
    pub fn apply_owned_style(
        &mut self,
        props: &Vec<FixedStyleProp>,
        animation: &Vec<FixedStyleProp>,
        pe_props: &Vec<(String, Vec<FixedStyleProp>)>,
        parent: Option<&StyleNode>,
    ) -> (r: bool)
        ensures
            pairs_of(final(self).style.applied@) == resolve_all(
                props@ + animation@,
                parent_style(parent),
            ),
            final(self).style.applied_pe@.len() == pe_props@.len(),
            forall|i: int|
                0 <= i < pe_props@.len() ==> (#[trigger] final(self).style.applied_pe@[i]).0@
                    == pe_props@[i].0@ && pairs_of(final(self).style.applied_pe@[i].1@)
                    == resolve_all(pe_props@[i].1@, parent_style(parent)),
            effects(final(self).style) == apply_all(
                effects(old(self).style),
                changed_style(final(self).style.applied@, old(self).style.applied@),
            ),
            final(self).style.accepted_pe@.len() >= old(self).style.accepted_pe@.len(),
            final(self).style.accepted_pe@.take(old(self).style.accepted_pe@.len() as int)
                == old(self).style.accepted_pe@,
            pe_changes_view(
                final(self).style.accepted_pe@.skip(old(self).style.accepted_pe@.len() as int),
            ) == pe_changes(old(self).style, final(self).style),
            r == own_changed(old(self).style, final(self).style),
            *final(self) == (StyleNode { style: final(self).style, ..*old(self) }),
    {
        let (styles, pe) = self.compute_owned_style(props, animation, pe_props, parent);
        let ghost before = self.style.accepted_pe@;
        let (changed, mut pe_changed) = self.apply(styles, pe);
        let ghost handed = pe_changed@;
        let any_pe = pe_changed.len() > 0;
        self.style.accepted_pe.append(&mut pe_changed);
        proof {
            assert(self.style.accepted_pe@.take(before.len() as int) =~= before);
            assert(self.style.accepted_pe@.skip(before.len() as int) =~= handed);
        }
        changed || any_pe
    }

    /// Computes and applies the node's own style from what is declared for
    /// it (see `own_props`) and for its pseudo elements, under `parent`.
    pub fn restyle(&mut self, parent: Option<&StyleNode>) -> (r: bool)
        ensures
            owned_update(*old(self), old(self).style, final(self).style, parent_style(parent)),
            r == own_changed(old(self).style, final(self).style),
            *final(self) == (StyleNode { style: final(self).style, ..*old(self) }),
    {
        let mut props = duplicate_props(&self.declared);
        if self.hover {
            let mut h = duplicate_props(&self.hover_declared);
            props.append(&mut h);
        }
        let anim = duplicate_props(&self.animation_props);
        let pe = duplicate_pe(&self.pe_declared);
        proof {
            assert(props@ + anim@ =~= own_props(*old(self)));
        }
        self.apply_owned_style(&props, &anim, &pe, parent)
    }
}

/// The declared properties of a parsed style, as (key, value) views.
pub open spec fn fixed_view(v: Seq<FixedStyleProp>) -> Seq<(StylePropKey, DeclaredValue)> {
    v.map_values(|p: FixedStyleProp| p@)
}

/// The declared properties of a parsed style, in order.
pub fn fixed_props(style: &ParsedStyles) -> (r: Vec<FixedStyleProp>)
    ensures
        fixed_view(r@) == style@,
{
    let mut out: Vec<FixedStyleProp> = Vec::new();
    let n = style.0.len();
    let mut i: usize = 0;
    while i < n
        invariant
            n == style.0@.len(),
            i <= n,
            fixed_view(out@) == style@.take(i as int),
        decreases n - i,
    {
        let p = match &style.0[i] {
            ParsedStyleProp::Fixed(f) => f.duplicate(),
        };
        proof {
            assert(p@ == style.0@[i as int]@);
            assert(style@[i as int] == style.0@[i as int]@);
        }
        let ghost before = out@;
        out.push(p);
        proof {
            assert(fixed_view(out@) =~= fixed_view(before).push(p@));
            assert(style@.take(i + 1) =~= style@.take(i as int).push(style@[i as int]));
        }
        i = i + 1;
    }
    proof {
        assert(style@.take(n as int) =~= style@);
    }
    out
}

impl StyleNode {
    /// Sets the style declared for the node, in place of the one it had; the
    /// node must compute its style again.
    pub fn set_style(&mut self, style: ParsedStyles)
        ensures
            fixed_view(final(self).declared@) == style@,
            *final(self) == (StyleNode {
                declared: final(self).declared,
                self_dirty: true,
                repaint_requested: true,
                ..*old(self)
            }),
    {
        self.declared = fixed_props(&style);
        self.mark_dirty();
    }

    /// Appends a style, which overrides what was declared before it; the
    /// node must compute its style again.
    pub fn append_style(&mut self, style: ParsedStyles)
        ensures
            fixed_view(final(self).declared@) == fixed_view(old(self).declared@) + style@,
            *final(self) == (StyleNode {
                declared: final(self).declared,
                self_dirty: true,
                repaint_requested: true,
                ..*old(self)
            }),
    {
        let mut more = fixed_props(&style);
        let ghost before = self.declared@;
        self.declared.append(&mut more);
        proof {
            assert(fixed_view(self.declared@) =~= fixed_view(before) + style@);
        }
        self.mark_dirty();
    }

    /// Sets the style declared for the node while hovered; a hovered node
    /// must compute its style again.
    pub fn set_hover_style(&mut self, style: ParsedStyles)
        ensures
            fixed_view(final(self).hover_declared@) == style@,
            final(self).has_hover_style == (style@.len() > 0),
            final(self).self_dirty == (old(self).self_dirty || old(self).hover),
            final(self).repaint_requested == (old(self).repaint_requested || old(self).hover),
            final(self).declared == old(self).declared,
            final(self).style == old(self).style,
            final(self).children == old(self).children,
            final(self).children_dirty == old(self).children_dirty,
            final(self).hover == old(self).hover,
    {
        self.hover_declared = fixed_props(&style);
        self.has_hover_style = self.hover_declared.len() > 0;
        if self.hover {
            self.mark_dirty();
        }
    }

    /// The properties that apply to the node, without those of its
    /// animation.
    pub fn get_styles(&self, hover: bool) -> (r: Vec<FixedStyleProp>)
        ensures
            r@ == self.declared@ + (if hover {
                self.hover_declared@
            } else {
                Seq::empty()
            }),
    {
        let mut props = duplicate_props(&self.declared);
        if hover {
            let mut h = duplicate_props(&self.hover_declared);
            props.append(&mut h);
        } else {
            proof {
                assert(props@ + Seq::<FixedStyleProp>::empty() =~= props@);
            }
        }
        props
    }

    /// Sets the properties that the node's running animation sets; the node
    /// must compute its style again.
    pub fn update_animation_styles(&mut self, props: Vec<FixedStyleProp>)
        ensures
            *final(self) == (StyleNode {
                animation_props: props,
                self_dirty: true,
                repaint_requested: true,
                ..*old(self)
            }),
    {
        self.animation_props = props;
        self.mark_dirty();
    }
}

/// A copy of each pseudo element's declared properties, in order.
fn duplicate_pe(v: &Vec<(String, Vec<FixedStyleProp>)>) -> (r: Vec<(String, Vec<FixedStyleProp>)>)
    ensures
        r@.len() == v@.len(),
        forall|i: int|
            0 <= i < v@.len() ==> (#[trigger] r@[i]).0@ == v@[i].0@ && r@[i].1@ == v@[i].1@,
{
    let mut out: Vec<(String, Vec<FixedStyleProp>)> = Vec::new();
    let n = v.len();
    let mut i: usize = 0;
    while i < n
        invariant
            n == v@.len(),
            i <= n,
            out@.len() == i,
            forall|j: int|
                0 <= j < i ==> (#[trigger] out@[j]).0@ == v@[j].0@ && out@[j].1@ == v@[j].1@,
        decreases n - i,
    {
        out.push((v[i].0.clone(), duplicate_props(&v[i].1)));
        i = i + 1;
    }
    out
}

} // verus!
