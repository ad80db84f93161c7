use vstd::prelude::*;
use std::collections::HashMap;
use crate::base::Callback;
use crate::style::key::StylePropKey;
use crate::style::prop::{FixedStyleProp, ResolvedStyleProp};

verus! {

/// Receives what a style node asks of the element that owns it. What each
/// request does to the listener is a function of the listener and the
/// request, named by the `after_*` spec functions.
pub trait StyleListener: Sized {
    spec fn after_next_frame_request(&self, callback: Callback) -> Self;

    spec fn after_animation_styles(&self, styles: HashMap<StylePropKey, FixedStyleProp>) -> Self;

    spec fn after_dirty(&self, layout_dirty: bool) -> Self;

    spec fn after_pseudo_element_styles(&self, styles: HashMap<String, Vec<ResolvedStyleProp>>) -> Self;

    fn request_next_frame_callback(&mut self, callback: Callback)
        ensures
            *final(self) == old(self).after_next_frame_request(callback),
    ;

    fn update_animation_styles(&mut self, styles: HashMap<StylePropKey, FixedStyleProp>)
        ensures
            *final(self) == old(self).after_animation_styles(styles),
    ;

    fn on_dirty(&mut self, layout_dirty: bool)
        ensures
            *final(self) == old(self).after_dirty(layout_dirty),
    ;

    fn accept_pseudo_element_styles(&mut self, styles: HashMap<String, Vec<ResolvedStyleProp>>)
        ensures
            *final(self) == old(self).after_pseudo_element_styles(styles),
    ;
}

/// A listener that ignores every request.
pub struct NoopStyleListener {}

impl StyleListener for NoopStyleListener {
    open spec fn after_next_frame_request(&self, callback: Callback) -> Self {
        *self
    }

    open spec fn after_animation_styles(&self, styles: HashMap<StylePropKey, FixedStyleProp>) -> Self {
        *self
    }

    open spec fn after_dirty(&self, layout_dirty: bool) -> Self {
        *self
    }

    open spec fn after_pseudo_element_styles(&self, styles: HashMap<String, Vec<ResolvedStyleProp>>) -> Self {
        *self
    }

    fn request_next_frame_callback(&mut self, _callback: Callback) {
    }

    fn update_animation_styles(&mut self, _styles: HashMap<StylePropKey, FixedStyleProp>) {
    }

    fn on_dirty(&mut self, _layout_dirty: bool) {
    }

    fn accept_pseudo_element_styles(&mut self, _styles: HashMap<String, Vec<ResolvedStyleProp>>) {
    }
}

/// The listener of a style node, which passes each request on to the
/// listener it holds.
pub struct BoxedStyleListener<L: StyleListener> {
    pub listener: L,
}

impl<L: StyleListener> BoxedStyleListener<L> {
    pub fn new(listener: L) -> (r: Self)
        ensures
            r.listener == listener,
    {
        BoxedStyleListener { listener }
    }

    pub fn request_next_frame_callback(&mut self, callback: Callback)
        ensures
            final(self).listener == old(self).listener.after_next_frame_request(callback),
    {
        self.listener.request_next_frame_callback(callback)
    }

    pub fn update_animation_styles(&mut self, styles: HashMap<StylePropKey, FixedStyleProp>)
        ensures
            final(self).listener == old(self).listener.after_animation_styles(styles),
    {
        self.listener.update_animation_styles(styles)
    }

    /// Tells the listener that the node needs a repaint, and a new layout
    /// when `layout_dirty`.
    pub fn mark_dirty(&mut self, layout_dirty: bool)
        ensures
            final(self).listener == old(self).listener.after_dirty(layout_dirty),
    {
        self.listener.on_dirty(layout_dirty)
    }

    pub fn accept_pseudo_element_styles(&mut self, styles: HashMap<String, Vec<ResolvedStyleProp>>)
        ensures
            final(self).listener == old(self).listener.after_pseudo_element_styles(styles),
    {
        self.listener.accept_pseudo_element_styles(styles);
    }
}

impl BoxedStyleListener<NoopStyleListener> {
    /// A listener that ignores every request.
    pub fn new_noop() -> (r: Self)
        ensures
            r.listener == (NoopStyleListener {}),
    {
        Self::new(NoopStyleListener {})
    }
}

} // verus!
