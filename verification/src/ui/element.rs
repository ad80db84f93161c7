use vstd::prelude::*;
use crate::base::Color;
use crate::style::parsed_styles::ParsedStyles;
use crate::style::key::StylePropKey;
use crate::style::prop::DeclaredValue;
use crate::ui::radio::RadioDelegate;
use crate::ui::textbox::FontStyle;

verus! {

/// An event that an element dispatches to its listeners.
#[derive(Clone, Debug, PartialEq, Eq)]
pub enum ElementEvent {
    /// The value of a form element changed.
    Change,
    /// The text of a text element changed to the given text.
    TextUpdate(String),
}

/// A weak handle to an element, through which events are dispatched to it.
pub struct ElementWeak {
    pub id: u32,
    /// The events dispatched through this handle, oldest first.
    pub emitted: Vec<ElementEvent>,
}

impl ElementWeak {
    pub fn new(id: u32) -> (r: Self)
        ensures
            r.id == id,
            r.emitted@.len() == 0,
    {
        ElementWeak { id, emitted: Vec::new() }
    }

    /// Dispatches `event` to the element.
    pub fn emit(&mut self, event: ElementEvent)
        ensures
            final(self).id == old(self).id,
            final(self).emitted@ == old(self).emitted@.push(event),
    {
        self.emitted.push(event);
    }
}

impl ElementEvent {
    /// A copy of this event.
    pub fn duplicate(&self) -> (r: Self)
        ensures
            r == *self,
    {
        match self {
            ElementEvent::Change => ElementEvent::Change,
            ElementEvent::TextUpdate(t) => ElementEvent::TextUpdate(t.clone()),
        }
    }
}

impl ElementWeak {
    /// Another handle to the same element, with the same events recorded.
    pub fn duplicate(&self) -> (r: Self)
        ensures
            r.id == self.id,
            r.emitted@ == self.emitted@,
    {
        let mut emitted: Vec<ElementEvent> = Vec::new();
        let n = self.emitted.len();
        let mut i: usize = 0;
        while i < n
            invariant
                n == self.emitted@.len(),
                i <= n,
                emitted@ == self.emitted@.take(i as int),
            decreases n - i,
        {
            emitted.push(self.emitted[i].duplicate());
            proof {
                assert(self.emitted@.take(i + 1) =~= self.emitted@.take(i as int).push(self.emitted@[i as int]));
            }
            i = i + 1;
        }
        proof {
            assert(self.emitted@.take(n as int) =~= self.emitted@);
        }
        ElementWeak { id: self.id, emitted }
    }
}

/// A node of the element tree, with the state that widgets read and set.
pub struct Element {
    pub id: u32,
    pub tag: String,
    /// The text colour that the element's style resolved to.
    pub color: Color,
    /// The font families, weight and style that its style resolved to.
    pub font_family: String,
    pub font_weight: u16,
    pub font_style: FontStyle,
    /// The style set on the element, if any.
    pub style: Option<ParsedStyles>,
    /// The style that applies while the pointer is over it, if any.
    pub hover_style: Option<ParsedStyles>,
    /// The styles appended to the element, oldest first.
    pub appended_styles: Vec<ParsedStyles>,
    pub layout_dirty: bool,
    pub paint_dirty: bool,
    pub allow_ime: bool,
    pub focusable: bool,
    pub is_form_element: bool,
    /// The event types that scripts may listen to on this element.
    pub js_events: Vec<String>,
    pub children: Vec<Element>,
    /// The radio state kept in the element's resource table, if any.
    pub radio: Option<Box<RadioDelegate>>,
}

impl Element {
    /// A fresh element with the given tag.
    pub fn new(id: u32, tag: &str) -> (r: Self)
        ensures
            r.id == id,
            r.tag@ == tag@,
            r.color == Color(0),
            r.font_family@.len() == 0,
            r.font_weight == 400,
            r.font_style == FontStyle::Normal,
            r.style is None,
            r.hover_style is None,
            r.appended_styles@.len() == 0,
            !r.layout_dirty,
            !r.paint_dirty,
            !r.allow_ime,
            !r.focusable,
            !r.is_form_element,
            r.js_events@.len() == 0,
            r.children@.len() == 0,
            r.radio is None,
    {
        Element {
            id,
            tag: String::from_str(tag),
            color: Color(0),
            font_family: String::new(),
            font_weight: 400,
            font_style: FontStyle::Normal,
            style: None,
            hover_style: None,
            appended_styles: Vec::new(),
            layout_dirty: false,
            paint_dirty: false,
            allow_ime: false,
            focusable: false,
            is_form_element: false,
            js_events: Vec::new(),
            children: Vec::new(),
            radio: None,
        }
    }

    /// A handle to this element.
    pub fn as_weak(&self) -> (r: ElementWeak)
        ensures
            r.id == self.id,
            r.emitted@.len() == 0,
    {
        ElementWeak::new(self.id)
    }

    /// Asks for a repaint, and for a new layout when `layout_dirty`.
    pub fn mark_dirty(&mut self, layout_dirty: bool)
        ensures
            final(self).paint_dirty,
            final(self).layout_dirty == (old(self).layout_dirty || layout_dirty),
            final(self).id == old(self).id,
            final(self).tag == old(self).tag,
            final(self).color == old(self).color,
            final(self).font_family == old(self).font_family,
            final(self).font_weight == old(self).font_weight,
            final(self).font_style == old(self).font_style,
            final(self).style == old(self).style,
            final(self).hover_style == old(self).hover_style,
            final(self).appended_styles == old(self).appended_styles,
            final(self).allow_ime == old(self).allow_ime,
            final(self).focusable == old(self).focusable,
            final(self).is_form_element == old(self).is_form_element,
            final(self).js_events == old(self).js_events,
            final(self).children == old(self).children,
            final(self).radio == old(self).radio,
    {
        self.paint_dirty = true;
        if layout_dirty {
            self.layout_dirty = true;
        }
    }

    /// Sets the element's style, in place of the one it had.
    pub fn set_style(&mut self, style: ParsedStyles)
        ensures
            final(self).style == Some(style),
            final(self).layout_dirty,
            final(self).paint_dirty,
            final(self).appended_styles == old(self).appended_styles,
            final(self).id == old(self).id,
            final(self).tag == old(self).tag,
            final(self).children == old(self).children,
    {
        self.style = Some(style);
        self.mark_dirty(true);
    }

    /// Sets the style that applies while the pointer is over the element.
    pub fn set_hover_style(&mut self, style: ParsedStyles)
        ensures
            *final(self) == (Element { hover_style: Some(style), ..*old(self) }),
    {
        self.hover_style = Some(style);
    }

    /// Appends a style, which overrides what was declared before it.
    pub fn append_style(&mut self, style: ParsedStyles)
        ensures
            final(self).appended_styles@ == old(self).appended_styles@.push(style),
            final(self).style == old(self).style,
            final(self).layout_dirty,
            final(self).paint_dirty,
            final(self).id == old(self).id,
            final(self).tag == old(self).tag,
            final(self).children == old(self).children,
            style_appended(*old(self), *final(self), style),
    {
        self.appended_styles.push(style);
        self.mark_dirty(true);
    }

    /// Lets scripts listen to events of type `name` on this element.
    pub fn register_js_event(&mut self, name: &str)
        ensures
            final(self).js_events@.len() == old(self).js_events@.len() + 1,
            final(self).js_events@.last()@ == name@,
            final(self).js_events@.drop_last() == old(self).js_events@,
            final(self).id == old(self).id,
            final(self).tag == old(self).tag,
            final(self).color == old(self).color,
            final(self).style == old(self).style,
            final(self).hover_style == old(self).hover_style,
            final(self).appended_styles == old(self).appended_styles,
            final(self).layout_dirty == old(self).layout_dirty,
            final(self).paint_dirty == old(self).paint_dirty,
            final(self).allow_ime == old(self).allow_ime,
            final(self).focusable == old(self).focusable,
            final(self).is_form_element == old(self).is_form_element,
            final(self).children == old(self).children,
            final(self).radio == old(self).radio,
    {
        self.js_events.push(String::from_str(name));
    }

    /// Inserts `child` at `index`, or at the end where no index is given.
    pub fn add_child(&mut self, child: Element, index: Option<usize>)
        requires
            index matches Some(i) ==> i <= old(self).children@.len(),
        ensures
            final(self).children@ == match index {
                Some(i) => old(self).children@.insert(i as int, child),
                None => old(self).children@.push(child),
            },
            final(self).id == old(self).id,
            final(self).tag == old(self).tag,
            final(self).color == old(self).color,
            final(self).style == old(self).style,
            final(self).hover_style == old(self).hover_style,
            final(self).appended_styles == old(self).appended_styles,
            final(self).layout_dirty == old(self).layout_dirty,
            final(self).paint_dirty == old(self).paint_dirty,
            final(self).allow_ime == old(self).allow_ime,
            final(self).focusable == old(self).focusable,
            final(self).is_form_element == old(self).is_form_element,
            final(self).js_events == old(self).js_events,
            final(self).radio == old(self).radio,
    {
        match index {
            Some(i) => self.children.insert(i, child),
            None => self.children.push(child),
        }
    }
}

/// Whether `path` (a child index at each level) leads to a node of `e`.
pub open spec fn valid_path(e: Element, path: Seq<usize>) -> bool
    decreases path.len(),
{
    path.len() == 0 || (path[0] < e.children@.len() && valid_path(
        e.children@[path[0] as int],
        path.drop_first(),
    ))
}

/// The node of `e` that `path` leads to.
pub open spec fn at(e: Element, path: Seq<usize>) -> Element
    decreases path.len(),
{
    if path.len() == 0 {
        e
    } else {
        at(e.children@[path[0] as int], path.drop_first())
    }
}

/// `new` is `old` with the node at `path` changed as `f` relates them, and
/// every other node as it was.
pub open spec fn changed_at(old: Element, new: Element, path: Seq<usize>, f: spec_fn(Element, Element) -> bool) -> bool
    decreases path.len(),
{
    if path.len() == 0 {
        f(old, new)
    } else {
        &&& new == (Element { children: new.children, ..old })
        &&& new.children@.len() == old.children@.len()
        &&& forall|j: int|
            0 <= j < old.children@.len() && j != path[0] ==> #[trigger] new.children@[j]
                == old.children@[j]
        &&& changed_at(old.children@[path[0] as int], new.children@[path[0] as int], path.drop_first(), f)
    }
}

/// What `mark_dirty` does to an element.
pub open spec fn marked_dirty(o: Element, n: Element, layout_dirty: bool) -> bool {
    n == (Element { paint_dirty: true, layout_dirty: o.layout_dirty || layout_dirty, ..o })
}

/// What `append_style` does to an element.
pub open spec fn style_appended(o: Element, n: Element, style: ParsedStyles) -> bool {
    &&& n == (Element {
        appended_styles: n.appended_styles,
        layout_dirty: true,
        paint_dirty: true,
        ..o
    })
    &&& n.appended_styles@ == o.appended_styles@.push(style)
}

/// What holds of the node a change reaches holds of it however the change
/// is described, where the first description implies the second.
pub proof fn lemma_changed_at_weaken(
    old: Element,
    new: Element,
    path: Seq<usize>,
    f: spec_fn(Element, Element) -> bool,
    g: spec_fn(Element, Element) -> bool,
)
    requires
        changed_at(old, new, path, f),
        forall|o: Element, n: Element| #[trigger] f(o, n) ==> g(o, n),
    ensures
        changed_at(old, new, path, g),
    decreases path.len(),
{
    if path.len() > 0 {
        lemma_changed_at_weaken(
            old.children@[path[0] as int],
            new.children@[path[0] as int],
            path.drop_first(),
            f,
            g,
        );
    }
}

/// A change that keeps the children of the node it reaches keeps every
/// path of the tree valid.
pub proof fn lemma_valid_kept(
    old: Element,
    new: Element,
    path: Seq<usize>,
    f: spec_fn(Element, Element) -> bool,
    q: Seq<usize>,
)
    requires
        changed_at(old, new, path, f),
        forall|o: Element, n: Element| #[trigger] f(o, n) ==> n.children == o.children,
        valid_path(old, q),
    ensures
        valid_path(new, q),
    decreases q.len(),
{
    if q.len() > 0 {
        if path.len() == 0 {
            assert(f(old, new));
            assert(new.children == old.children);
        } else if q[0] == path[0] {
            lemma_valid_kept(
                old.children@[path[0] as int],
                new.children@[path[0] as int],
                path.drop_first(),
                f,
                q.drop_first(),
            );
        } else {
            assert(new.children@[q[0] as int] == old.children@[q[0] as int]);
        }
    }
}

/// An appended style whose properties are `props`, with the element asked
/// for a new layout.
pub open spec fn props_appended(o: Element, n: Element, props: Seq<(StylePropKey, DeclaredValue)>) -> bool {
    &&& n == (Element {
        appended_styles: n.appended_styles,
        layout_dirty: true,
        paint_dirty: true,
        ..o
    })
    &&& n.appended_styles@.len() == o.appended_styles@.len() + 1
    &&& n.appended_styles@.drop_last() == o.appended_styles@
    &&& n.appended_styles@.last()@ == props
}

impl Element {
    /// Asks the node at `path` below this element (from `path[start]` on)
    /// for a repaint, and for a new layout when `layout_dirty`.
    pub fn mark_dirty_at(&mut self, path: &[usize], start: usize, layout_dirty: bool)
        requires
            start <= path@.len(),
            valid_path(*old(self), path@.skip(start as int)),
        ensures
            changed_at(*old(self), *final(self), path@.skip(start as int), |o: Element, n: Element|
                marked_dirty(o, n, layout_dirty)),
        decreases path@.len() - start,
    {
        if start == path.len() {
            self.mark_dirty(layout_dirty);
            return;
        }
        let ghost p = path@.skip(start as int);
        proof {
            assert(p.drop_first() =~= path@.skip(start + 1));
        }
        let i = path[start];
        let ghost before = self.children@;
        let mut c = self.children.remove(i);
        c.mark_dirty_at(path, start + 1, layout_dirty);
        self.children.insert(i, c);
        proof {
            assert forall|j: int| 0 <= j < before.len() && j != i implies #[trigger] self.children@[j]
                == before[j] by {
                if j < i {
                } else {
                }
            }
        }
    }

    /// Appends a style to the node at `path` below this element (from
    /// `path[start]` on).
    pub fn append_style_at(&mut self, path: &[usize], start: usize, style: ParsedStyles)
        requires
            start <= path@.len(),
            valid_path(*old(self), path@.skip(start as int)),
        ensures
            changed_at(*old(self), *final(self), path@.skip(start as int), |o: Element, n: Element|
                style_appended(o, n, style)),
        decreases path@.len() - start,
    {
        if start == path.len() {
            self.append_style(style);
            return;
        }
        let ghost p = path@.skip(start as int);
        proof {
            assert(p.drop_first() =~= path@.skip(start + 1));
        }
        let i = path[start];
        let ghost before = self.children@;
        let mut c = self.children.remove(i);
        c.append_style_at(path, start + 1, style);
        self.children.insert(i, c);
        proof {
            assert forall|j: int| 0 <= j < before.len() && j != i implies #[trigger] self.children@[j]
                == before[j] by {
                if j < i {
                } else {
                }
            }
        }
    }
}

/// A plain container element.
pub struct Container {
    pub el: Element,
}

impl Container {
    pub fn create(id: u32) -> (r: Self)
        ensures
            r.el.id == id,
            r.el.tag@ == "container"@,
            r.el.children@.len() == 0,
            r.el.style is None,
            r.el.hover_style is None,
            r.el.appended_styles@.len() == 0,
            !r.el.layout_dirty,
            !r.el.paint_dirty,
            r.el.radio is None,
    {
        Container { el: Element::new(id, "container") }
    }
}

} // verus!
