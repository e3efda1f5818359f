//! One on-screen window: its configure state machine, pixel-backing
//! bookkeeping, pending damage, timers, idle queue, and the render
//! pipeline.
//!
//! The window owns its platform surface (a [`SurfaceBackend`]) and its
//! paint/event capability (a [`WinHandler`]).  All decisions — when to
//! reallocate the backing store, what to clip, when damage is cleared or
//! retained, when the handler is first connected — are made here and
//! verified; the backend only carries them out.  Two ghost histories make
//! the outward traffic part of the contracts: `calls` records every
//! handler notification with its payload, and `requests` records every
//! backend request with its payload, each entry adjacent to the one call
//! it stands for.

use crate::error::Error;
use crate::geometry::{Rect, Scale, Size};
use crate::handle::WindowHandle;
use crate::handler::{
    count_connects, lemma_count_connects_push, BackendRequest, HandlerCall, MouseEvent,
    SurfaceBackend, WinHandler,
};
use crate::idle::{IdleKind, IdleQueue};
use crate::menu::Menu;
use crate::region::Region;
use crate::timer::{insertion_point, TimerEntry, TimerQueue, TimerToken};
use vstd::prelude::*;

verus! {

/// A custom cursor; never produced on this backend.
#[derive(Clone, Debug)]
pub struct CustomCursor();

/// A pointer cursor; cursor theming is not implemented on this backend.
#[derive(Clone, Debug)]
pub enum Cursor {
    Arrow,
    IBeam,
    Crosshair,
    OpenHand,
    NotAllowed,
    ResizeLeftRight,
    ResizeUpDown,
    Custom(CustomCursor),
}

/// A description from which a custom cursor would be made.
#[derive(Clone, Copy, Debug)]
pub struct CursorDesc {
    /// The hot spot within the cursor image.
    pub hot: crate::geometry::Point,
}

/// The stacking level of a window; advisory on this backend.
#[derive(Clone, Copy, Debug, PartialEq, Eq, Structural)]
pub enum WindowLevel {
    AppWindow,
    Tooltip,
    DropDown,
    Modal,
}

/// The shown state of a window; this backend always reports restored.
#[derive(Clone, Copy, Debug, PartialEq, Eq, Structural)]
pub enum WindowState {
    Maximized,
    Minimized,
    Restored,
}

/// What one `render` pass did.
#[derive(Clone, Copy, Debug, PartialEq, Eq, Structural)]
pub enum RenderOutcome {
    /// The window is not configured yet; nothing was done.  This is a
    /// success: painting before the compositor has assigned geometry must
    /// not happen.
    Skipped,
    /// A fresh backing surface was needed but could not be allocated; the
    /// damage — now the full bounds — is retained for retry.
    AllocFailed,
    /// The handler's paint failed; the frame is dropped, the damage is
    /// retained for retry, and prior committed content stays on screen.
    PaintFailed,
    /// The rasterizer's final flush failed; treated like a paint failure.
    FinishFailed,
    /// The frame was painted, attached and committed; the damage is
    /// cleared.
    Presented,
}

/// What handling a surface configure event did.
#[derive(Clone, Copy, Debug)]
pub struct ConfigureResponse {
    /// The serial that was acknowledged: always exactly the one received.
    pub acked_serial: u32,
    /// Whether this was the first configure — the one transition from
    /// `Unconfigured` to `Configured`.
    pub first: bool,
    /// The outcome of the initial render attempt; `None` on every
    /// configure but the first.
    pub render: Option<RenderOutcome>,
}

/// The request that asks for a fresh `size` backing store of the exact
/// ARGB byte length, and what the allocation answered.
pub open spec fn spec_alloc_request(size: Size, ok: bool) -> BackendRequest {
    BackendRequest::Allocate {
        width: size.width,
        height: size.height,
        len: size.spec_buffer_len() as u64,
        ok,
    }
}

/// A reallocation generation bumped by one, saturating at the top.
pub open spec fn spec_next_generation(generation: u64) -> u64 {
    if generation < u64::MAX {
        (generation + 1) as u64
    } else {
        u64::MAX
    }
}

/// One on-screen window.
pub struct Window<S, H> {
    /// Process-local id, unique for the process lifetime, never reused.
    pub id: u32,
    /// Identity of the protocol surface, used to route pointer events.
    pub surface: u64,
    /// Current logical size.
    pub size: Size,
    /// Advisory minimum size; not enforced against the shell.
    pub min_size: Size,
    /// Damage accumulated since the last successful render.
    pub invalid: Region,
    /// False until the first configure acknowledgment; no paint may happen
    /// before that.
    pub configured: bool,
    /// Size the backing surface was allocated at; `None` before the first
    /// allocation.
    pub backing: Option<Size>,
    /// Which pool/buffer pair is current; grows by one at each
    /// reallocation.
    pub generation: u64,
    /// Pending timers, earliest deadline first.
    pub timers: TimerQueue,
    /// Pending idle actions, oldest first.
    pub idle: IdleQueue,
    /// The platform surface.
    pub backend: S,
    /// The embedding application's paint/event capability.
    pub handler: H,
    /// The history of notifications issued to the handler.
    pub calls: Ghost<Seq<HandlerCall>>,
    /// The history of requests issued to the platform surface.
    pub requests: Ghost<Seq<BackendRequest>>,
}

impl<S: SurfaceBackend, H: WinHandler<S>> Window<S, H> {
    /// Internal consistency: sizes and damage well-formed, timers sorted,
    /// and the handler was connected exactly once iff the window is
    /// configured.
    pub open spec fn wf(self) -> bool {
        &&& self.size.wf()
        &&& self.min_size.wf()
        &&& self.invalid.wf()
        &&& self.timers.wf()
        &&& match self.backing {
            Option::Some(b) => b.wf(),
            Option::None => true,
        }
        &&& count_connects(self.calls@) == if self.configured {
            1int
        } else {
            0int
        }
    }

    /// Whether the next render must replace the backing surface: the
    /// logical size differs from what the backing was allocated at.
    pub open spec fn spec_needs_realloc(self) -> bool {
        self.backing != Option::Some(self.size)
    }

    /// The parts of the window the render pipeline never touches.
    pub open spec fn same_shell(self, other: Self) -> bool {
        &&& self.id == other.id
        &&& self.surface == other.surface
        &&& self.size == other.size
        &&& self.min_size == other.min_size
        &&& self.timers == other.timers
        &&& self.idle == other.idle
    }

    /// Everything of the window unchanged but (possibly) the physical
    /// backend object and its request record: no handler call, no state
    /// change.
    pub open spec fn spec_core_unchanged(self, post: Self) -> bool {
        &&& post.id == self.id
        &&& post.surface == self.surface
        &&& post.size == self.size
        &&& post.min_size == self.min_size
        &&& post.invalid@ == self.invalid@
        &&& post.configured == self.configured
        &&& post.backing == self.backing
        &&& post.generation == self.generation
        &&& post.timers == self.timers
        &&& post.idle == self.idle
        &&& post.handler == self.handler
        &&& post.calls@ == self.calls@
    }

    /// `post` is this window after exactly one frame request: a one-shot
    /// frame callback was registered (and a commit issued), nothing else.
    pub open spec fn spec_frame_requested(self, post: Self) -> bool {
        &&& self.spec_core_unchanged(post)
        &&& post.requests@ == self.requests@.push(BackendRequest::RequestFrame)
    }

    /// `post` is this window after exactly one handler notification:
    /// everything except the handler itself is unchanged, no backend
    /// request was issued, and the call history grew by `call`.
    pub open spec fn spec_notified(self, post: Self, call: HandlerCall) -> bool {
        &&& post.id == self.id
        &&& post.surface == self.surface
        &&& post.size == self.size
        &&& post.min_size == self.min_size
        &&& post.invalid@ == self.invalid@
        &&& post.configured == self.configured
        &&& post.backing == self.backing
        &&& post.generation == self.generation
        &&& post.timers == self.timers
        &&& post.idle == self.idle
        &&& post.backend == self.backend
        &&& post.calls@ == self.calls@.push(call)
        &&& post.requests@ == self.requests@
    }

    /// `post` is this window with at most its idle queue changed.
    pub open spec fn spec_only_idle_changed(self, post: Self) -> bool {
        &&& post.id == self.id
        &&& post.surface == self.surface
        &&& post.size == self.size
        &&& post.min_size == self.min_size
        &&& post.invalid@ == self.invalid@
        &&& post.configured == self.configured
        &&& post.backing == self.backing
        &&& post.generation == self.generation
        &&& post.timers == self.timers
        &&& post.backend == self.backend
        &&& post.handler == self.handler
        &&& post.calls@ == self.calls@
        &&& post.requests@ == self.requests@
    }

    /// `post` is this window after one invalidation: the damage grew by
    /// `rect`, one frame callback was requested of the backend so the
    /// repaint is deferred to its firing, and nothing else changed.
    pub open spec fn spec_invalidated(self, post: Self, rect: Rect) -> bool {
        &&& post.id == self.id
        &&& post.surface == self.surface
        &&& post.size == self.size
        &&& post.min_size == self.min_size
        &&& post.invalid@ == self.invalid@.push(rect)
        &&& post.configured == self.configured
        &&& post.backing == self.backing
        &&& post.generation == self.generation
        &&& post.timers == self.timers
        &&& post.idle == self.idle
        &&& post.handler == self.handler
        &&& post.calls@ == self.calls@
        &&& post.requests@ == self.requests@.push(BackendRequest::RequestFrame)
    }

    /// `post` is this window after the damage grew by `rect` and nothing
    /// else at all happened — no handler call, no backend request.
    pub open spec fn spec_damage_added(self, post: Self, rect: Rect) -> bool {
        &&& post.id == self.id
        &&& post.surface == self.surface
        &&& post.size == self.size
        &&& post.min_size == self.min_size
        &&& post.invalid@ == self.invalid@.push(rect)
        &&& post.configured == self.configured
        &&& post.backing == self.backing
        &&& post.generation == self.generation
        &&& post.timers == self.timers
        &&& post.idle == self.idle
        &&& post.backend == self.backend
        &&& post.handler == self.handler
        &&& post.calls@ == self.calls@
        &&& post.requests@ == self.requests@
    }

    /// `post` is this window after one timer request for `deadline` that
    /// returned `token`: the timer was queued at its deadline-sorted
    /// position and nothing else changed.
    pub open spec fn spec_timer_added(self, post: Self, deadline: u64, token: TimerToken) -> bool {
        &&& token == (TimerToken(self.timers.spec_next_token()))
        &&& token != (TimerToken(0u64))
        &&& post.timers@ == self.timers@.insert(
            insertion_point(self.timers@, deadline),
            (TimerEntry { deadline, token }),
        )
        &&& post.id == self.id
        &&& post.surface == self.surface
        &&& post.size == self.size
        &&& post.min_size == self.min_size
        &&& post.invalid@ == self.invalid@
        &&& post.configured == self.configured
        &&& post.backing == self.backing
        &&& post.generation == self.generation
        &&& post.idle == self.idle
        &&& post.backend == self.backend
        &&& post.handler == self.handler
        &&& post.calls@ == self.calls@
        &&& post.requests@ == self.requests@
    }

    /// The damage one render pass from this state paints: the full bounds
    /// when the backing is replaced, the accumulated damage otherwise.
    pub open spec fn spec_render_damage(self) -> Seq<Rect> {
        if self.spec_needs_realloc() {
            seq![self.size.spec_to_rect()]
        } else {
            self.invalid@
        }
    }

    /// The backend requests a render pass from this state has issued once
    /// it reaches the paint: a successful allocation where the backing had
    /// to be replaced, then the clip to the pass's damage.
    pub open spec fn spec_paint_trail(self) -> Seq<BackendRequest> {
        if self.spec_needs_realloc() {
            self.requests@ + seq![
                spec_alloc_request(self.size, true),
                BackendRequest::SetClip(self.spec_render_damage()),
            ]
        } else {
            self.requests@ + seq![BackendRequest::SetClip(self.spec_render_damage())]
        }
    }

    /// What one render pass from `pre` to `post` with outcome `r` means —
    /// the full postcondition of [`Window::render`], reused by everything
    /// that runs a pass.
    ///
    /// Skipped iff unconfigured, with nothing issued; otherwise the
    /// backing is replaced exactly when the size changed (generation +1,
    /// full bounds as damage); the handler painted exactly the pass's
    /// damage and `ok` records its answer; the flush is attempted
    /// unconditionally, and a paint failure takes priority over a flush
    /// failure in the outcome; attach/damage/commit (`Present`) happen
    /// exactly on full success, which alone clears the damage.
    pub open spec fn spec_render_post(pre: Self, post: Self, r: RenderOutcome) -> bool {
        &&& post.same_shell(pre)
        &&& post.configured == pre.configured
        &&& (r == RenderOutcome::Skipped <==> !pre.configured)
        &&& (r == RenderOutcome::Skipped ==> {
            &&& post.invalid@ == pre.invalid@
            &&& post.backing == pre.backing
            &&& post.generation == pre.generation
            &&& post.backend == pre.backend
            &&& post.calls@ == pre.calls@
            &&& post.requests@ == pre.requests@
        })
        &&& (r == RenderOutcome::AllocFailed ==> {
            &&& pre.spec_needs_realloc()
            &&& post.backing == pre.backing
            &&& post.generation == pre.generation
            &&& post.invalid@ == seq![pre.size.spec_to_rect()]
            &&& post.calls@ == pre.calls@.push(HandlerCall::PreparePaint)
            &&& post.requests@ == pre.requests@.push(spec_alloc_request(pre.size, false))
        })
        &&& ((r == RenderOutcome::PaintFailed || r == RenderOutcome::FinishFailed || r
            == RenderOutcome::Presented) ==> {
            &&& (pre.spec_needs_realloc() ==> post.backing == Option::Some(pre.size)
                && post.generation == spec_next_generation(pre.generation))
            &&& (!pre.spec_needs_realloc() ==> post.backing == pre.backing && post.generation
                == pre.generation)
            &&& post.calls@ == pre.calls@.push(HandlerCall::PreparePaint).push(
                (HandlerCall::Paint {
                    damage: pre.spec_render_damage(),
                    ok: r != RenderOutcome::PaintFailed,
                }),
            )
            &&& (r == RenderOutcome::PaintFailed ==> {
                &&& post.invalid@ == pre.spec_render_damage()
                &&& post.requests@.len() == pre.spec_paint_trail().len() + 1
                &&& post.requests@.drop_last() == pre.spec_paint_trail()
                &&& post.requests@.last() is Finish
            })
            &&& (r == RenderOutcome::FinishFailed ==> {
                &&& post.invalid@ == pre.spec_render_damage()
                &&& post.requests@ == pre.spec_paint_trail().push(BackendRequest::Finish(false))
            })
            &&& (r == RenderOutcome::Presented ==> {
                &&& post.invalid@ == Seq::<Rect>::empty()
                &&& post.requests@ == pre.spec_paint_trail().push(BackendRequest::Finish(true)).push(
                    (BackendRequest::Present { size: pre.size, damage: pre.spec_render_damage() }),
                )
            })
        })
    }

    /// The state after the bookkeeping of a first configure acknowledgment
    /// and before its render pass: configured, the acknowledgment
    /// recorded, the handler connected and sized.  (The handler and
    /// backend objects themselves have taken calls, so only the recorded
    /// fields are meaningful here.)
    pub open spec fn spec_configure_mid(self, serial: u32) -> Self {
        Window {
            configured: true,
            calls: Ghost(
                self.calls@.push(HandlerCall::Connect).push(HandlerCall::Resized(self.size)),
            ),
            requests: Ghost(self.requests@.push(BackendRequest::AckConfigure(serial))),
            ..self
        }
    }

    /// The state after the bookkeeping of an accepted toplevel size
    /// proposal and before its render pass: the size stored and the
    /// handler notified of it.
    pub open spec fn spec_resized_mid(self, proposed: Size) -> Self {
        Window {
            size: proposed,
            calls: Ghost(self.calls@.push(HandlerCall::Resized(proposed))),
            ..self
        }
    }

    /// Enqueue one idle action; any thread may do this through an
    /// [`crate::idle::IdleHandle`], under the application lock.
    pub fn push_idle(&mut self, kind: IdleKind)
        requires
            old(self).wf(),
        ensures
            final(self).wf(),
            old(self).spec_only_idle_changed(*final(self)),
            final(self).idle@ == old(self).idle@.push(kind),
    {
        self.idle.push(kind);
    }

    /// Forward a pointer move to the handler, with exactly `event`.
    pub fn mouse_move(&mut self, event: &MouseEvent)
        requires
            old(self).wf(),
        ensures
            final(self).wf(),
            old(self).spec_notified(*final(self), HandlerCall::MouseMove(*event)),
    {
        self.handler.mouse_move(event);
        self.calls = Ghost(self.calls@.push(HandlerCall::MouseMove(*event)));
        proof {
            lemma_count_connects_push(old(self).calls@, HandlerCall::MouseMove(*event));
        }
    }

    /// Forward a button press to the handler, with exactly `event`.
    pub fn mouse_down(&mut self, event: &MouseEvent)
        requires
            old(self).wf(),
        ensures
            final(self).wf(),
            old(self).spec_notified(*final(self), HandlerCall::MouseDown(*event)),
    {
        self.handler.mouse_down(event);
        self.calls = Ghost(self.calls@.push(HandlerCall::MouseDown(*event)));
        proof {
            lemma_count_connects_push(old(self).calls@, HandlerCall::MouseDown(*event));
        }
    }

    /// Forward a button release to the handler, with exactly `event`.
    pub fn mouse_up(&mut self, event: &MouseEvent)
        requires
            old(self).wf(),
        ensures
            final(self).wf(),
            old(self).spec_notified(*final(self), HandlerCall::MouseUp(*event)),
    {
        self.handler.mouse_up(event);
        self.calls = Ghost(self.calls@.push(HandlerCall::MouseUp(*event)));
        proof {
            lemma_count_connects_push(old(self).calls@, HandlerCall::MouseUp(*event));
        }
    }

    /// A fresh, unconfigured window around its platform surface and
    /// handler.
    pub fn new(id: u32, surface: u64, size: Size, min_size: Size, backend: S, handler: H) -> (w:
        Window<S, H>)
        requires
            size.wf(),
            min_size.wf(),
        ensures
            w.wf(),
            w.id == id,
            w.surface == surface,
            w.size == size,
            w.min_size == min_size,
            !w.configured,
            w.backing is None,
            w.generation == 0,
            w.invalid@ == Seq::<Rect>::empty(),
            w.timers@ == Seq::<TimerEntry>::empty(),
            w.timers.spec_next_token() == 1,
            w.idle@ == Seq::<crate::idle::IdleKind>::empty(),
            w.backend == backend,
            w.handler == handler,
            w.calls@ == Seq::<HandlerCall>::empty(),
            w.requests@ == Seq::<BackendRequest>::empty(),
    {
        Window {
            id,
            surface,
            size,
            min_size,
            invalid: Region::empty(),
            configured: false,
            backing: None,
            generation: 0,
            timers: TimerQueue::new(),
            idle: IdleQueue::new(),
            backend,
            handler,
            calls: Ghost(Seq::empty()),
            requests: Ghost(Seq::empty()),
        }
    }

    /// One pass of the render pipeline.  A no-op before the first
    /// configure; otherwise: prepare, reallocate the backing if the size
    /// changed (marking the full bounds invalid), clip to the damage,
    /// paint, flush, and present.  Damage is cleared only after a fully
    /// successful pass; any mid-pipeline failure retains it so the next
    /// pass retries the same area.  Exclusive access to the window makes
    /// re-entrant invocation impossible by construction.  The full
    /// meaning of the pass is [`Window::spec_render_post`].
    pub fn render(&mut self) -> (r: RenderOutcome)
        requires
            old(self).wf(),
        ensures
            final(self).wf(),
            Self::spec_render_post(*old(self), *final(self), r),
            // while unconfigured nothing at all happens, and render succeeds
            !old(self).configured ==> *final(self) == *old(self),
    {
        if !self.configured {
            return RenderOutcome::Skipped;
        }
        self.handler.prepare_paint();
        self.calls = Ghost(self.calls@.push(HandlerCall::PreparePaint));
        proof {
            lemma_count_connects_push(old(self).calls@, HandlerCall::PreparePaint);
        }
        let needs_realloc = match self.backing {
            Some(b) => !(b == self.size),
            None => true,
        };
        if needs_realloc {
            // the old partial damage is meaningless against new memory:
            // replace it with the full bounds
            self.invalid.clear();
            self.invalid.add_rect(self.size.to_rect());
            let len = self.size.buffer_len();
            let allocated = self.backend.allocate(self.size.width, self.size.height, len);
            self.requests = Ghost(
                self.requests@.push(spec_alloc_request(old(self).size, allocated)),
            );
            if !allocated {
                return RenderOutcome::AllocFailed;
            }
            self.backing = Some(self.size);
            if self.generation < u64::MAX {
                self.generation = self.generation + 1;
            }
        }
        let ghost damage = self.invalid@;
        proof {
            assert(damage =~= old(self).spec_render_damage());
        }
        self.backend.set_clip(&self.invalid);
        self.requests = Ghost(self.requests@.push(BackendRequest::SetClip(damage)));
        proof {
            assert(self.requests@ =~= old(self).spec_paint_trail());
        }
        let painted = self.handler.paint(&mut self.backend, &self.invalid);
        self.calls = Ghost(self.calls@.push((HandlerCall::Paint { damage, ok: painted })));
        proof {
            lemma_count_connects_push(
                old(self).calls@.push(HandlerCall::PreparePaint),
                (HandlerCall::Paint { damage, ok: painted }),
            );
        }
        // the flush is attempted unconditionally, so no drawing state is
        // left dangling; a paint failure still takes priority below
        let finished = self.backend.finish();
        self.requests = Ghost(self.requests@.push(BackendRequest::Finish(finished)));
        proof {
            assert(self.requests@.drop_last() =~= old(self).spec_paint_trail());
        }
        if !painted {
            return RenderOutcome::PaintFailed;
        }
        if !finished {
            return RenderOutcome::FinishFailed;
        }
        self.backend.present(self.size, &self.invalid);
        self.requests = Ghost(
            self.requests@.push((BackendRequest::Present { size: old(self).size, damage })),
        );
        self.invalid.clear();
        RenderOutcome::Presented
    }

    /// Acknowledge a configure event.  Every configure is acknowledged
    /// with its exact serial; only the first one connects the handler,
    /// notifies it of the window's size, and attempts the first paint —
    /// the connect/size handshake is deferred to this acknowledgment
    /// because geometry is not authoritative before the server's first
    /// configure.  Later configures acknowledge and do nothing else.
    pub fn handle_surface_configure(&mut self, serial: u32) -> (r: ConfigureResponse)
        requires
            old(self).wf(),
        ensures
            final(self).wf(),
            r.acked_serial == serial,
            r.first == !old(self).configured,
            final(self).configured,
            final(self).same_shell(*old(self)),
            // subsequent configures are acknowledgments only: no handler
            // call, no state change, exactly the one acknowledgment sent
            old(self).configured ==> {
                &&& old(self).spec_core_unchanged(*final(self))
                &&& final(self).requests@ == old(self).requests@.push(
                    BackendRequest::AckConfigure(serial),
                )
                &&& r.render is None
            },
            // the first acknowledgment records the ack, connects and sizes
            // the handler exactly once, then runs one full render pass
            !old(self).configured ==> match r.render {
                Option::Some(o) => Self::spec_render_post(
                    old(self).spec_configure_mid(serial),
                    *final(self),
                    o,
                ),
                Option::None => false,
            },
    {
        self.backend.ack_configure(serial);
        self.requests = Ghost(self.requests@.push(BackendRequest::AckConfigure(serial)));
        if self.configured {
            return ConfigureResponse { acked_serial: serial, first: false, render: None };
        }
        self.configured = true;
        let handle = WindowHandle::new(self.id);
        self.handler.connect(&handle);
        self.calls = Ghost(self.calls@.push(HandlerCall::Connect));
        proof {
            lemma_count_connects_push(old(self).calls@, HandlerCall::Connect);
        }
        self.handler.size(self.size);
        self.calls = Ghost(self.calls@.push(HandlerCall::Resized(self.size)));
        proof {
            lemma_count_connects_push(
                old(self).calls@.push(HandlerCall::Connect),
                HandlerCall::Resized(old(self).size),
            );
        }
        let ghost mid = *self;
        let outcome = self.render();
        proof {
            let m = old(self).spec_configure_mid(serial);
            assert(mid.calls@ == m.calls@);
            assert(mid.requests@ == m.requests@);
            assert(Self::spec_render_post(m, *self, outcome));
        }
        ConfigureResponse { acked_serial: serial, first: true, render: Some(outcome) }
    }

    /// Handle a proposed toplevel size.  Both dimensions strictly positive
    /// means a real proposal: store it, notify the handler of exactly that
    /// size, and run one render pass (which replaces the backing, since
    /// the size changed).  A non-positive dimension means "no suggestion":
    /// keep everything as it is and notify nothing.
    pub fn handle_toplevel_configure(&mut self, width: i32, height: i32) -> (r: Option<
        RenderOutcome,
    >)
        requires
            old(self).wf(),
        ensures
            final(self).wf(),
            final(self).configured == old(self).configured,
            (width <= 0 || height <= 0) ==> *final(self) == *old(self) && r is None,
            (width > 0 && height > 0) ==> {
                let proposed = Size { width: width as u32, height: height as u32 };
                &&& final(self).size == proposed
                &&& match r {
                    Option::Some(o) => Self::spec_render_post(
                        old(self).spec_resized_mid(proposed),
                        *final(self),
                        o,
                    ),
                    Option::None => false,
                }
            },
    {
        if width <= 0 || height <= 0 {
            return None;
        }
        let size = Size::new(width as u32, height as u32);
        self.size = size;
        self.handler.size(size);
        self.calls = Ghost(self.calls@.push(HandlerCall::Resized(size)));
        proof {
            lemma_count_connects_push(old(self).calls@, HandlerCall::Resized(size));
        }
        let ghost mid = *self;
        let outcome = self.render();
        proof {
            let m = old(self).spec_resized_mid((Size { width: width as u32, height: height as u32 }));
            assert(mid.calls@ == m.calls@);
            assert(mid.requests@ == m.requests@);
            assert(Self::spec_render_post(m, *self, outcome));
        }
        Some(outcome)
    }

    /// Attempt a presentation: one full render pass, whose outcome is
    /// returned.  A failed pass retains the damage, so the next frame
    /// retries.
    pub fn show(&mut self) -> (r: RenderOutcome)
        requires
            old(self).wf(),
        ensures
            final(self).wf(),
            Self::spec_render_post(*old(self), *final(self), r),
            !old(self).configured ==> *final(self) == *old(self),
    {
        self.render()
    }

    /// Closing is not implemented on this backend; the window stays until
    /// the application drops it.
    pub fn close(&self) {
    }

    /// Inert on this backend.
    pub fn resizable(&self, _resizable: bool) {
    }

    /// Inert on this backend.
    pub fn show_titlebar(&self, _show_titlebar: bool) {
    }

    /// Inert on this backend.
    pub fn bring_to_front_and_focus(&self) {
    }

    /// Register exactly one one-shot frame callback with the compositor
    /// (with its commit); when it fires, the embedding loop calls `render`
    /// again.  This is the sole pacing mechanism: repaint is always
    /// deferred to the next frame callback, never immediate, and nothing
    /// is rendered synchronously here.
    pub fn request_anim_frame(&mut self)
        requires
            old(self).wf(),
        ensures
            final(self).wf(),
            old(self).spec_frame_requested(*final(self)),
    {
        self.backend.request_frame();
        self.requests = Ghost(self.requests@.push(BackendRequest::RequestFrame));
    }

    /// Accumulate damage for the whole window, then schedule a repaint.
    pub fn invalidate(&mut self)
        requires
            old(self).wf(),
        ensures
            final(self).wf(),
            old(self).spec_invalidated(
                *final(self),
                old(self).size.spec_to_rect().spec_expand(),
            ),
    {
        let rect = self.size.to_rect();
        self.invalidate_rect(rect);
    }

    /// Accumulate `rect` — grown by the damage margin on each side — and
    /// request one frame callback, deferring the repaint to its firing.
    pub fn invalidate_rect(&mut self, rect: Rect)
        requires
            old(self).wf(),
            rect.wf(),
        ensures
            final(self).wf(),
            old(self).spec_invalidated(*final(self), rect.spec_expand()),
    {
        self.add_invalid_rect(rect);
        self.request_anim_frame();
    }

    /// Accumulate `rect`, grown by the damage margin, without requesting
    /// or notifying anything.
    pub fn add_invalid_rect(&mut self, rect: Rect)
        requires
            old(self).wf(),
            rect.wf(),
        ensures
            final(self).wf(),
            old(self).spec_damage_added(*final(self), rect.spec_expand()),
    {
        let expanded = rect.expand();
        self.invalid.add_rect(expanded);
    }

    /// Titles are fixed at build time on this backend.
    pub fn set_title(&self, _title: &str) {
    }

    /// Menus are not implemented on this backend.
    pub fn set_menu(&self, _menu: Menu) {
    }

    /// This backend always reports the identity scale.
    pub fn get_scale(&self) -> (r: Result<Scale, Error>)
        ensures
            match r {
                Result::Ok(s) => s == (Scale { x: 1, y: 1 }),
                Result::Err(_) => false,
            },
    {
        Ok(Scale::new(1, 1))
    }

    /// Allocate a token and queue a timer; firing is cooperative, by the
    /// event loop polling the earliest deadline.
    pub fn request_timer(&mut self, deadline: u64) -> (t: TimerToken)
        requires
            old(self).wf(),
        ensures
            final(self).wf(),
            old(self).spec_timer_added(*final(self), deadline, t),
    {
        self.timers.schedule(deadline)
    }
}

/// Law: in every consistent window the handler has been connected exactly
/// once if the window is configured, and never before that.  Together with
/// the configure contract — only the first acknowledgment appends a
/// connect and the initial size notification, later ones append nothing —
/// this pins the connect/first-size handshake to exactly one firing.
pub proof fn lemma_connect_exactly_once<S: SurfaceBackend, H: WinHandler<S>>(w: Window<S, H>)
    requires
        w.wf(),
    ensures
        w.configured ==> count_connects(w.calls@) == 1,
        !w.configured ==> count_connects(w.calls@) == 0,
{
}

} // verus!
