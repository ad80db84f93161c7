use vstd::prelude::*;
use std::collections::HashMap;
use crate::style::key::StylePropKey;
use crate::style::prop::FixedStyleProp;
use crate::style::style_listener::{BoxedStyleListener, StyleListener};

verus! {

/// A named CSS animation.
pub struct Animation {
    pub name: String,
}

/// A weak handle to a style node: it may be gone, and it can be marked as
/// needing its style computed again.
pub struct StyleNodeWeak {
    pub id: u32,
    pub alive: bool,
    pub style_dirty: bool,
}

/// Plays a CSS animation on a style node through the node's listener.
pub struct CssAnimationActor<L: StyleListener> {
    pub animation: Animation,
    pub listener: BoxedStyleListener<L>,
    pub style_node: StyleNodeWeak,
}

impl<L: StyleListener> CssAnimationActor<L> {
    pub fn new(style_node: StyleNodeWeak, animation: Animation, listener: BoxedStyleListener<L>) -> (r: Self)
        ensures
            r.style_node == style_node,
            r.animation == animation,
            r.listener == listener,
    {
        CssAnimationActor { style_node, animation, listener }
    }

    /// Ends the animation: the node's animated styles are cleared and, when
    /// the node is still there, its style is computed again.
    pub fn stop(&mut self)
        ensures
            exists|empty: HashMap<StylePropKey, FixedStyleProp>|
                empty@ == Map::<StylePropKey, FixedStyleProp>::empty() && final(self).listener.listener
                    == old(self).listener.listener.after_animation_styles(empty),
            final(self).animation == old(self).animation,
            final(self).style_node.id == old(self).style_node.id,
            final(self).style_node.alive == old(self).style_node.alive,
            final(self).style_node.style_dirty == (old(self).style_node.style_dirty || old(
                self,
            ).style_node.alive),
    {
        broadcast use vstd::std_specs::hash::group_hash_axioms;

        let empty: HashMap<StylePropKey, FixedStyleProp> = HashMap::new();
        let ghost e = empty;
        self.listener.update_animation_styles(empty);
        if self.style_node.alive {
            self.style_node.style_dirty = true;
        }
        proof {
            assert(e@ == Map::<StylePropKey, FixedStyleProp>::empty());
        }
    }
}

} // verus!
