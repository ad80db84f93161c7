use vstd::prelude::*;
use crate::base::{Callback, DeftError};

verus! {

/// A task that the script event loop runs later: a callback with the
/// parameter it is called with.
pub struct MacroTask<P> {
    pub callback: Callback,
    pub param: P,
}

/// The queue of tasks of the script event loop, which refuses tasks once the
/// loop is closed.
pub struct MacroTaskQueue<P> {
    pub closed: bool,
    pub tasks: Vec<MacroTask<P>>,
}

impl<P> MacroTaskQueue<P> {
    pub fn new() -> (r: Self)
        ensures
            !r.closed,
            r.tasks@.len() == 0,
    {
        MacroTaskQueue { closed: false, tasks: Vec::new() }
    }
}

/// A handle through which tasks are handed to the script event loop.
#[derive(Clone, Copy, Debug, PartialEq, Eq, Structural)]
pub struct JsEventLoopProxy {}

impl JsEventLoopProxy {
    /// Hands a task to the event loop; fails once the loop is closed.
    pub fn schedule_macro_task<P>(&self, queue: &mut MacroTaskQueue<P>, task: MacroTask<P>) -> (r: Result<(), DeftError>)
        ensures
            r is Ok <==> !old(queue).closed,
            final(queue).closed == old(queue).closed,
            final(queue).tasks@ == if old(queue).closed {
                old(queue).tasks@
            } else {
                old(queue).tasks@.push(task)
            },
    {
        if queue.closed {
            Err(DeftError { message: String::from_str("event loop closed") })
        } else {
            queue.tasks.push(task);
            Ok(())
        }
    }
}

/// A callback to run once on the event loop.
pub struct EventLoopCallback {
    pub event_loop_proxy: JsEventLoopProxy,
    pub callback: Option<Callback>,
}

impl EventLoopCallback {
    /// Hands the callback to the event loop, to run once there.
    pub fn call(self, queue: &mut MacroTaskQueue<()>)
        requires
            self.callback is Some,
            !old(queue).closed,
        ensures
            !final(queue).closed,
            final(queue).tasks@ == old(queue).tasks@.push(
                MacroTask { callback: self.callback.unwrap(), param: () },
            ),
    {
        let mut this = self;
        let callback = this.callback.take().unwrap();
        let r = this.event_loop_proxy.schedule_macro_task(queue, MacroTask { callback, param: () });
        r.unwrap();
    }
}

/// A callback that takes a parameter, to run once on the event loop.
pub struct EventLoopFnOnce<P> {
    pub event_loop_proxy: JsEventLoopProxy,
    pub callback: Option<Callback>,
    pub marker: std::marker::PhantomData<P>,
}

impl<P> EventLoopFnOnce<P> {
    /// Hands the callback, with `p`, to the event loop, to run once there.
    pub fn call(self, p: P, queue: &mut MacroTaskQueue<P>)
        requires
            self.callback is Some,
            !old(queue).closed,
        ensures
            !final(queue).closed,
            final(queue).tasks@ == old(queue).tasks@.push(
                MacroTask { callback: self.callback.unwrap(), param: p },
            ),
    {
        let mut this = self;
        let callback = this.callback.take().unwrap();
        let r = this.event_loop_proxy.schedule_macro_task(queue, MacroTask { callback, param: p });
        r.unwrap();
    }
}

/// A callback that takes a parameter and may run many times on the event loop.
pub struct EventLoopFnMutCallback<P> {
    pub event_loop_proxy: JsEventLoopProxy,
    pub callback: Callback,
    pub marker: std::marker::PhantomData<P>,
}

impl<P> EventLoopFnMutCallback<P> {
    /// Another handle to the same callback.
    pub fn duplicate(&self) -> (r: Self)
        ensures
            r.callback == self.callback,
            r.event_loop_proxy == self.event_loop_proxy,
    {
        EventLoopFnMutCallback {
            event_loop_proxy: self.event_loop_proxy,
            callback: self.callback,
            marker: std::marker::PhantomData,
        }
    }

    /// Hands the callback, with `param`, to the event loop; once the loop
    /// is closed the call is dropped.
    pub fn call(&mut self, param: P, queue: &mut MacroTaskQueue<P>)
        ensures
            final(self).callback == old(self).callback,
            final(queue).closed == old(queue).closed,
            final(queue).tasks@ == if old(queue).closed {
                old(queue).tasks@
            } else {
                old(queue).tasks@.push(MacroTask { callback: old(self).callback, param })
            },
    {
        let cb = self.callback;
        let _ = self.event_loop_proxy.schedule_macro_task(queue, MacroTask { callback: cb, param });
    }
}

pub fn create_event_loop_callback(callback: Callback) -> (r: EventLoopCallback)
    ensures
        r.callback == Some(callback),
{
    let event_loop_proxy = create_event_loop_proxy();
    EventLoopCallback { event_loop_proxy, callback: Some(callback) }
}

pub fn create_event_loop_fn_once<P>(callback: Callback) -> (r: EventLoopFnOnce<P>)
    ensures
        r.callback == Some(callback),
{
    let event_loop_proxy = create_event_loop_proxy();
    EventLoopFnOnce { event_loop_proxy, callback: Some(callback), marker: std::marker::PhantomData }
}

pub fn create_event_loop_fn_mut<P>(callback: Callback) -> (r: EventLoopFnMutCallback<P>)
    ensures
        r.callback == callback,
{
    let event_loop_proxy = create_event_loop_proxy();
    EventLoopFnMutCallback { event_loop_proxy, callback, marker: std::marker::PhantomData }
}

/// A handle to the script event loop of the current thread.
pub fn create_event_loop_proxy() -> (r: JsEventLoopProxy)
    ensures
        r == (JsEventLoopProxy {}),
{
    JsEventLoopProxy {}
}

} // verus!
