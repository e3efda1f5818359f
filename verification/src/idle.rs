//! The idle queue of a window: pending actions enqueued by any thread and
//! drained by the UI thread once per loop iteration, in FIFO order.
//!
//! An action is either an application callback (carried here by the opaque
//! identifier under which the embedding program registered it), an opaque
//! token for the UI thread to interpret, or a redraw marker.  Draining takes
//! the whole pending batch at once, so an action that enqueues further
//! actions never re-enters its own batch.

use crate::application::Application;
use crate::handler::{SurfaceBackend, WinHandler};
use vstd::prelude::*;

verus! {

/// An opaque marker for the UI thread to interpret.
#[derive(Clone, Copy, Debug, PartialEq, Eq, Structural)]
pub struct IdleToken(pub usize);

/// One pending idle action.
#[derive(Clone, Copy, Debug, PartialEq, Eq, Structural)]
pub enum IdleKind {
    /// Run the single-use application callback registered under this
    /// identifier.
    Callback(u64),
    /// Deliver this token to the window's handler.
    Token(IdleToken),
    /// Repaint the window.
    Redraw,
}

/// The pending idle actions of one window, oldest first.
#[derive(Debug)]
pub struct IdleQueue {
    items: Vec<IdleKind>,
}

impl View for IdleQueue {
    type V = Seq<IdleKind>;

    closed spec fn view(&self) -> Seq<IdleKind> {
        self.items@
    }
}

impl IdleQueue {
    pub fn new() -> (r: IdleQueue)
        ensures
            r@ == Seq::<IdleKind>::empty(),
    {
        IdleQueue { items: Vec::new() }
    }

    pub fn len(&self) -> (r: usize)
        ensures
            r == self@.len(),
    {
        self.items.len()
    }

    /// Append one action at the back of the queue.
    pub fn push(&mut self, kind: IdleKind)
        ensures
            final(self)@ == old(self)@.push(kind),
    {
        self.items.push(kind);
    }

    /// Take the whole pending batch, oldest first, leaving the queue empty.
    pub fn drain(&mut self) -> (out: Vec<IdleKind>)
        ensures
            out@ == old(self)@,
            final(self)@ == Seq::<IdleKind>::empty(),
    {
        let mut out: Vec<IdleKind> = Vec::new();
        core::mem::swap(&mut out, &mut self.items);
        out
    }
}

/// A handle onto one window's idle queue, for enqueuing work from any
/// thread; the embedding program serialises access with its application
/// lock.  Like a window handle it names its window by id: once the window
/// is gone, every operation is a no-op.
#[derive(Clone, Copy, Debug, PartialEq, Eq, Structural)]
pub struct IdleHandle {
    /// The id of the window whose queue this handle feeds.
    pub window_id: u32,
}

impl IdleHandle {
    /// Wake the event loop so it drains the queue soon.  A placeholder on
    /// this backend: a full implementation must interrupt the blocking
    /// dispatch wait, for example through a self-pipe or an event fd.
    pub fn wake(&self) {
    }

    /// Enqueue a redraw marker; gone-window fallback: no-op.
    pub fn schedule_redraw<S: SurfaceBackend, H: WinHandler<S>>(&self, app: &mut Application<S, H>)
        requires
            old(app).wf(),
        ensures
            final(app).wf(),
            !old(app).spec_has_window(self.window_id) ==> *final(app) == *old(app),
            old(app).spec_has_window(self.window_id) ==> exists|i: int|
                0 <= i < old(app).windows@.len() && (#[trigger] old(app).windows@[i]).id
                    == self.window_id && final(app).windows@ == old(app).windows@.update(
                    i,
                    final(app).windows@[i],
                ) && old(app).windows@[i].spec_only_idle_changed(final(app).windows@[i]) && final(app).windows@[i].idle@ == old(app).windows@[i].idle@.push(IdleKind::Redraw),
            final(app).window_counter == old(app).window_counter,
            final(app).globals == old(app).globals,
            final(app).quitting == old(app).quitting,
    {
        self.push(app, IdleKind::Redraw);
    }

    /// Enqueue an opaque token for the UI thread; gone-window fallback:
    /// no-op.
    pub fn add_idle_token<S: SurfaceBackend, H: WinHandler<S>>(
        &self,
        app: &mut Application<S, H>,
        token: IdleToken,
    )
        requires
            old(app).wf(),
        ensures
            final(app).wf(),
            !old(app).spec_has_window(self.window_id) ==> *final(app) == *old(app),
            old(app).spec_has_window(self.window_id) ==> exists|i: int|
                0 <= i < old(app).windows@.len() && (#[trigger] old(app).windows@[i]).id
                    == self.window_id && final(app).windows@ == old(app).windows@.update(
                    i,
                    final(app).windows@[i],
                ) && old(app).windows@[i].spec_only_idle_changed(final(app).windows@[i]) && final(app).windows@[i].idle@ == old(app).windows@[i].idle@.push(IdleKind::Token(token)),
            final(app).window_counter == old(app).window_counter,
            final(app).globals == old(app).globals,
            final(app).quitting == old(app).quitting,
    {
        self.push(app, IdleKind::Token(token));
    }

    /// Enqueue a single-use application callback, named by the identifier
    /// the embedding program registered it under; gone-window fallback:
    /// no-op.
    pub fn add_idle_callback<S: SurfaceBackend, H: WinHandler<S>>(
        &self,
        app: &mut Application<S, H>,
        callback: u64,
    )
        requires
            old(app).wf(),
        ensures
            final(app).wf(),
            !old(app).spec_has_window(self.window_id) ==> *final(app) == *old(app),
            old(app).spec_has_window(self.window_id) ==> exists|i: int|
                0 <= i < old(app).windows@.len() && (#[trigger] old(app).windows@[i]).id
                    == self.window_id && final(app).windows@ == old(app).windows@.update(
                    i,
                    final(app).windows@[i],
                ) && old(app).windows@[i].spec_only_idle_changed(final(app).windows@[i]) && final(app).windows@[i].idle@ == old(app).windows@[i].idle@.push(
                    IdleKind::Callback(callback),
                ),
            final(app).window_counter == old(app).window_counter,
            final(app).globals == old(app).globals,
            final(app).quitting == old(app).quitting,
    {
        self.push(app, IdleKind::Callback(callback));
    }

    /// Enqueue one action on the window's queue and wake the loop.
    fn push<S: SurfaceBackend, H: WinHandler<S>>(&self, app: &mut Application<S, H>, kind: IdleKind)
        requires
            old(app).wf(),
        ensures
            final(app).wf(),
            !old(app).spec_has_window(self.window_id) ==> *final(app) == *old(app),
            old(app).spec_has_window(self.window_id) ==> exists|i: int|
                0 <= i < old(app).windows@.len() && (#[trigger] old(app).windows@[i]).id
                    == self.window_id && final(app).windows@ == old(app).windows@.update(
                    i,
                    final(app).windows@[i],
                ) && old(app).windows@[i].spec_only_idle_changed(final(app).windows@[i]) && final(app).windows@[i].idle@ == old(app).windows@[i].idle@.push(kind),
            final(app).window_counter == old(app).window_counter,
            final(app).globals == old(app).globals,
            final(app).quitting == old(app).quitting,
    {
        match app.find_window(self.window_id) {
            Some(i) => {
                let ghost pre = *app;
                let ghost gi = i as int;
                let w = &mut app.windows[i];
                w.push_idle(kind);
                proof {
                    Application::<S, H>::lemma_update_keeps_wf(pre, *app, gi);
                }
                self.wake();
            },
            None => {},
        }
    }
}

/// Law: enqueuing three actions and draining yields exactly those three, in
/// enqueue order, exactly once — afterwards the queue is empty.
pub proof fn lemma_idle_fifo(a: IdleKind, b: IdleKind, c: IdleKind)
    ensures
        Seq::<IdleKind>::empty().push(a).push(b).push(c) =~= seq![a, b, c],
{
}

} // verus!
