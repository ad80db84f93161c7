use vstd::prelude::*;

verus! {

/// An error of the toolkit, with a message for the user.
#[derive(Debug)]
pub struct DeftError {
    pub message: String,
}

/// A 32-bit ARGB colour.
#[derive(Clone, Copy, Debug, PartialEq, Eq, Structural)]
pub struct Color(pub u32);

/// A callback that the toolkit runs later, known by its id.
#[derive(Clone, Copy, Debug, PartialEq, Eq, Structural)]
pub struct Callback {
    pub id: u64,
}

/// Hands out element ids, one after another.
pub struct IdSource {
    pub next: u32,
}

impl IdSource {
    pub fn new() -> (r: Self)
        ensures
            r.next == 1,
    {
        IdSource { next: 1 }
    }

    /// Takes the next id. Ids never repeat.
    pub fn take(&mut self) -> (id: u32)
        requires
            old(self).next < u32::MAX,
        ensures
            id == old(self).next,
            final(self).next == old(self).next + 1,
    {
        let id = self.next;
        self.next = self.next + 1;
        id
    }
}

pub open spec fn listener_view(l: (u32, String)) -> (u32, Seq<char>) {
    (l.0, l.1@)
}

/// The listeners that get events of type `t`, in registration order.
pub open spec fn listeners_for(ls: Seq<(u32, Seq<char>)>, t: Seq<char>) -> Seq<u32>
    decreases ls.len(),
{
    if ls.len() == 0 {
        Seq::empty()
    } else if ls.last().1 == t {
        listeners_for(ls.drop_last(), t).push(ls.last().0)
    } else {
        listeners_for(ls.drop_last(), t)
    }
}

/// The listeners registered on an object, each with the event type it
/// listens to.
pub struct EventRegistration {
    pub next_id: u32,
    pub listeners: Vec<(u32, String)>,
}

impl View for EventRegistration {
    type V = Seq<(u32, Seq<char>)>;

    open spec fn view(&self) -> Seq<(u32, Seq<char>)> {
        self.listeners@.map_values(|l: (u32, String)| listener_view(l))
    }
}

impl EventRegistration {
    /// Every listener id is below the next one to hand out.
    pub open spec fn wf(&self) -> bool {
        &&& 1 <= self.next_id
        &&& forall|i: int| 0 <= i < self@.len() ==> (#[trigger] self@[i]).0 < self.next_id
    }

    pub fn new() -> (r: Self)
        ensures
            r.wf(),
            r@.len() == 0,
    {
        EventRegistration { next_id: 1, listeners: Vec::new() }
    }

    /// Adds a listener for events of type `event_type`; returns its id.
    pub fn register_event_listener(&mut self, event_type: &str) -> (id: u32)
        requires
            old(self).wf(),
            old(self).next_id < u32::MAX,
        ensures
            final(self).wf(),
            id == old(self).next_id,
            final(self).next_id == old(self).next_id + 1,
            final(self)@ == old(self)@.push((id, event_type@)),
    {
        let id = self.next_id;
        self.next_id = self.next_id + 1;
        self.listeners.push((id, String::from_str(event_type)));
        proof {
            assert(self@ =~= old(self)@.push((id, event_type@)));
        }
        id
    }

    fn keep_where<F: Fn(&(u32, String)) -> bool>(&mut self, keep: F, Ghost(p): Ghost<spec_fn((u32, Seq<char>)) -> bool>)
        requires
            forall|l: (u32, String)| #[trigger] keep.requires((&l,)),
            forall|l: (u32, String), b: bool| keep.ensures((&l,), b) ==> b == p(listener_view(l)),
        ensures
            final(self).next_id == old(self).next_id,
            final(self)@ == old(self)@.filter(p),
    {
        let mut rest: Vec<(u32, String)> = Vec::new();
        proof {
            assert(old(self).listeners@.len() == old(self).listeners.len());
        }
        std::mem::swap(&mut rest, &mut self.listeners);
        let ghost all = rest@;
        let mut k: usize = 0;
        proof {
            reveal(Seq::filter);
            assert(all.map_values(|l: (u32, String)| listener_view(l)).take(0) =~= Seq::<(u32, Seq<char>)>::empty());
            assert(rest@ =~= all.skip(0));
            assert(self@ =~= Seq::<(u32, Seq<char>)>::empty());
        }
        while rest.len() > 0
            invariant
                all == old(self).listeners@,
                all.len() <= usize::MAX,
                forall|l: (u32, String)| #[trigger] keep.requires((&l,)),
                forall|l: (u32, String), b: bool| keep.ensures((&l,), b) ==> b == p(listener_view(l)),
                k <= all.len(),
                rest@ == all.skip(k as int),
                self.next_id == old(self).next_id,
                self@ == all.map_values(|l: (u32, String)| listener_view(l)).take(k as int).filter(p),
            decreases rest@.len(),
        {
            let l = rest.remove(0);
            let ghost mv = all.map_values(|l: (u32, String)| listener_view(l));
            proof {
                assert(l == all[k as int]);
                reveal(Seq::filter);
                assert(mv.take(k + 1).drop_last() =~= mv.take(k as int));
                assert(mv.take(k + 1).last() == listener_view(l));
                assert(rest@ =~= all.skip(k + 1));
            }
            let ghost before = self@;
            if keep(&l) {
                self.listeners.push(l);
                proof {
                    assert(self@ =~= before.push(listener_view(l)));
                }
            }
            k = k + 1;
        }
        proof {
            assert(all.map_values(|l: (u32, String)| listener_view(l)).take(k as int) =~= old(self)@);
        }
    }

    /// Removes the listener `id` when it listens to events of type `event_type`.
    pub fn remove_event_listener(&mut self, event_type: &str, id: u32)
        requires
            old(self).wf(),
        ensures
            final(self).wf(),
            final(self).next_id == old(self).next_id,
            final(self)@ == old(self)@.filter(
                |l: (u32, Seq<char>)| !(l.0 == id && l.1 == event_type@),
            ),
    {
        let t = String::from_str(event_type);
        let ghost p = |l: (u32, Seq<char>)| !(l.0 == id && l.1 == event_type@);
        self.keep_where(|l: &(u32, String)| -> (b: bool)
            ensures b == !(l.0 == id && l.1@ == event_type@)
            { !(l.0 == id && l.1 == t) }, Ghost(p));
        proof {
            lemma_filter_keeps_wf(old(self)@, p, self.next_id);
        }
    }

    /// Removes the listener `id`, whatever event type it listens to.
    pub fn unregister_event_listener(&mut self, id: u32)
        requires
            old(self).wf(),
        ensures
            final(self).wf(),
            final(self).next_id == old(self).next_id,
            final(self)@ == old(self)@.filter(|l: (u32, Seq<char>)| l.0 != id),
    {
        let ghost p = |l: (u32, Seq<char>)| l.0 != id;
        self.keep_where(|l: &(u32, String)| -> (b: bool)
            ensures b == (l.0 != id)
            { l.0 != id }, Ghost(p));
        proof {
            lemma_filter_keeps_wf(old(self)@, p, self.next_id);
        }
    }

    /// The listeners that an event of type `event_type` goes to, in
    /// registration order.
    pub fn emit(&self, event_type: &str) -> (ids: Vec<u32>)
        ensures
            ids@ == listeners_for(self@, event_type@),
    {
        let t = String::from_str(event_type);
        let mut ids: Vec<u32> = Vec::new();
        let n = self.listeners.len();
        let mut i: usize = 0;
        while i < n
            invariant
                n == self.listeners@.len(),
                t@ == event_type@,
                i <= n,
                ids@ == listeners_for(self@.take(i as int), event_type@),
            decreases n - i,
        {
            proof {
                assert(self@.take(i + 1).drop_last() =~= self@.take(i as int));
                assert(self@.take(i + 1).last() == listener_view(self.listeners@[i as int]));
            }
            if self.listeners[i].1 == t {
                ids.push(self.listeners[i].0);
            }
            i = i + 1;
        }
        proof {
            assert(self@.take(n as int) =~= self@);
        }
        ids
    }
}

proof fn lemma_filter_keeps_wf(ls: Seq<(u32, Seq<char>)>, p: spec_fn((u32, Seq<char>)) -> bool, next: u32)
    requires
        forall|i: int| 0 <= i < ls.len() ==> (#[trigger] ls[i]).0 < next,
    ensures
        forall|i: int| 0 <= i < ls.filter(p).len() ==> (#[trigger] ls.filter(p)[i]).0 < next,
{
    assert forall|i: int| 0 <= i < ls.filter(p).len() implies (#[trigger] ls.filter(p)[i]).0 < next by {
        let x = ls.filter(p)[i];
        assert(ls.filter(p).contains(x));
        ls.lemma_filter_contains_rev(p, x);
    }
}

/// Registering a listener and then unregistering it leaves the listeners as
/// they were.
pub proof fn law_register_then_unregister(before: Seq<(u32, Seq<char>)>, next: u32, t: Seq<char>)
    requires
        forall|i: int| 0 <= i < before.len() ==> (#[trigger] before[i]).0 < next,
    ensures
        before.push((next, t)).filter(|l: (u32, Seq<char>)| l.0 != next) == before,
    decreases before.len(),
{
    reveal(Seq::filter);
    let p = |l: (u32, Seq<char>)| l.0 != next;
    assert(before.push((next, t)).drop_last() =~= before);
    lemma_filter_all(before, p);
}

proof fn lemma_filter_all(s: Seq<(u32, Seq<char>)>, p: spec_fn((u32, Seq<char>)) -> bool)
    requires
        forall|i: int| 0 <= i < s.len() ==> p(#[trigger] s[i]),
    ensures
        s.filter(p) == s,
    decreases s.len(),
{
    reveal(Seq::filter);
    if s.len() > 0 {
        lemma_filter_all(s.drop_last(), p);
        assert(s.drop_last().push(s.last()) =~= s);
    }
}

/// Once listener `id` is unregistered, an event of any type reaches the
/// same listeners as before but `id`, in the same order.
pub proof fn law_unregistered_listener_gets_nothing(ls: Seq<(u32, Seq<char>)>, id: u32, t: Seq<char>)
    ensures
        listeners_for(ls.filter(|l: (u32, Seq<char>)| l.0 != id), t) == listeners_for(ls, t).filter(
            |x: u32| x != id,
        ),
    decreases ls.len(),
{
    reveal(Seq::filter);
    let p = |l: (u32, Seq<char>)| l.0 != id;
    let q = |x: u32| x != id;
    if ls.len() > 0 {
        law_unregistered_listener_gets_nothing(ls.drop_last(), id, t);
        let last = ls.last();
        if p(last) {
            assert(ls.filter(p).drop_last() =~= ls.drop_last().filter(p));
            assert(ls.filter(p).last() == last);
        } else {
            assert(ls.filter(p) =~= ls.drop_last().filter(p));
        }
        if last.1 == t {
            let before = listeners_for(ls.drop_last(), t);
            assert(before.push(last.0).drop_last() =~= before);
        }
    }
}

} // verus!
