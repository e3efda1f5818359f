//! The process-wide application: the bound globals, the live-window set,
//! and the routing of low-level input to the focused window.
//!
//! The application owns every window by value; handles name windows by id
//! and resolve them here on each operation.  Protocol transport (the
//! display connection, its event queue, roundtrips and dispatch) lives in
//! the embedding program, which turns incoming protocol events into the
//! plain event values handled here.

use crate::error::{Error, ErrorKind};
use crate::geometry::Point;
use crate::handler::{
    HandlerCall, MouseButton, MouseButtons, MouseEvent, SurfaceBackend, WinHandler,
};
use crate::idle::IdleKind;
use crate::window::Window;
use vstd::prelude::*;

verus! {

/// Version of the shared-memory allocator global that startup binds.
pub const SHM_VERSION: u32 = 1;

/// Version of the surface compositor global that startup binds.
pub const COMPOSITOR_VERSION: u32 = 4;

/// Version of the input-seat global that startup binds.
pub const SEAT_VERSION: u32 = 1;

/// Version of the shell-base global that startup binds.
pub const WM_BASE_VERSION: u32 = 1;

/// The protocol singletons this backend requires.
#[derive(Clone, Copy, Debug, PartialEq, Eq, Structural)]
pub enum GlobalKind {
    /// The shared-memory allocator.
    Shm,
    /// The surface factory.
    Compositor,
    /// The input seat.
    Seat,
    /// The shell base.
    WmBase,
}

/// One announcement from the server's registry: a singleton and the
/// highest interface version it offers.
#[derive(Clone, Copy, Debug, PartialEq, Eq, Structural)]
pub struct GlobalAnnounce {
    pub kind: GlobalKind,
    pub version: u32,
}

/// The bound protocol singletons, populated exactly once at startup from
/// the announcements gathered by the handshake roundtrip; immutable
/// afterwards.
#[derive(Clone, Copy, Debug, PartialEq, Eq, Structural)]
pub struct Globals {
    /// Bound version of the shared-memory allocator.
    pub shm: u32,
    /// Bound version of the surface compositor.
    pub compositor: u32,
    /// Bound version of the input seat.
    pub seat: u32,
    /// Bound version of the shell base.
    pub wm_base: u32,
}

/// Whether `announced` advertises `kind` at interface version `version`
/// or higher.
pub open spec fn spec_advertised(
    announced: Seq<GlobalAnnounce>,
    kind: GlobalKind,
    version: u32,
) -> bool {
    exists|i: int|
        0 <= i < announced.len() && (#[trigger] announced[i]).kind == kind && announced[i].version
            >= version
}

/// Whether `announced` is enough to bind every required global.
pub open spec fn spec_all_required(announced: Seq<GlobalAnnounce>) -> bool {
    &&& spec_advertised(announced, GlobalKind::Shm, SHM_VERSION)
    &&& spec_advertised(announced, GlobalKind::Compositor, COMPOSITOR_VERSION)
    &&& spec_advertised(announced, GlobalKind::Seat, SEAT_VERSION)
    &&& spec_advertised(announced, GlobalKind::WmBase, WM_BASE_VERSION)
}

/// Whether `announced` advertises `kind` at version `version` or higher.
fn advertised(announced: &Vec<GlobalAnnounce>, kind: GlobalKind, version: u32) -> (r: bool)
    ensures
        r == spec_advertised(announced@, kind, version),
{
    let mut i: usize = 0;
    while i < announced.len()
        invariant
            0 <= i <= announced@.len(),
            forall|k: int|
                0 <= k < i ==> !((#[trigger] announced@[k]).kind == kind && announced@[k].version
                    >= version),
        decreases announced@.len() - i,
    {
        if announced[i].kind == kind && announced[i].version >= version {
            return true;
        }
        i = i + 1;
    }
    false
}

impl Globals {
    /// Bind the required globals from what the registry announced.  Fails
    /// with the first missing global, checked in the order shared-memory
    /// allocator, compositor, seat, shell base; binding order itself is
    /// insignificant, and absence of any one is a fatal startup error.
    pub fn new(announced: &Vec<GlobalAnnounce>) -> (r: Result<Globals, Error>)
        ensures
            r is Ok <==> spec_all_required(announced@),
            match r {
                Result::Ok(g) => g == (Globals {
                    shm: SHM_VERSION,
                    compositor: COMPOSITOR_VERSION,
                    seat: SEAT_VERSION,
                    wm_base: WM_BASE_VERSION,
                }),
                Result::Err(e) => match e.0 {
                    ErrorKind::MissingGlobal(k) => !spec_advertised(
                        announced@,
                        k,
                        match k {
                            GlobalKind::Shm => SHM_VERSION,
                            GlobalKind::Compositor => COMPOSITOR_VERSION,
                            GlobalKind::Seat => SEAT_VERSION,
                            GlobalKind::WmBase => WM_BASE_VERSION,
                        },
                    ),
                    _ => false,
                },
            },
    {
        if !advertised(announced, GlobalKind::Shm, SHM_VERSION) {
            return Err(Error(ErrorKind::MissingGlobal(GlobalKind::Shm)));
        }
        if !advertised(announced, GlobalKind::Compositor, COMPOSITOR_VERSION) {
            return Err(Error(ErrorKind::MissingGlobal(GlobalKind::Compositor)));
        }
        if !advertised(announced, GlobalKind::Seat, SEAT_VERSION) {
            return Err(Error(ErrorKind::MissingGlobal(GlobalKind::Seat)));
        }
        if !advertised(announced, GlobalKind::WmBase, WM_BASE_VERSION) {
            return Err(Error(ErrorKind::MissingGlobal(GlobalKind::WmBase)));
        }
        Ok(
            Globals {
                shm: SHM_VERSION,
                compositor: COMPOSITOR_VERSION,
                seat: SEAT_VERSION,
                wm_base: WM_BASE_VERSION,
            },
        )
    }
}

/// The process-wide application state: one per process, owned by the UI
/// thread.
pub struct Application<S, H> {
    /// The bound globals; immutable after startup.
    pub globals: Globals,
    /// Whether quitting was requested.  The event loop does not read it
    /// yet; quitting support is a known gap of this backend.
    pub quitting: bool,
    /// Every live window, in creation order.
    pub windows: Vec<Window<S, H>>,
    /// Source of window ids: strictly increasing, never reseeded, so ids
    /// are never reused even across destroyed windows.
    pub window_counter: u32,
}

impl<S: SurfaceBackend, H: WinHandler<S>> Application<S, H> {
    /// Internal consistency: every window is consistent, ids grow with
    /// creation order and stay below the counter, and no two windows share
    /// a protocol surface.
    pub open spec fn wf(self) -> bool {
        &&& forall|i: int|
            0 <= i < self.windows@.len() ==> (#[trigger] self.windows@[i]).wf()
                && self.windows@[i].id < self.window_counter
        &&& forall|i: int, j: int|
            0 <= i < j < self.windows@.len() ==> (#[trigger] self.windows@[i].id) < (
            #[trigger] self.windows@[j].id)
        &&& forall|i: int, j: int|
            0 <= i < j < self.windows@.len() ==> (#[trigger] self.windows@[i].surface) != (
            #[trigger] self.windows@[j].surface)
    }

    /// Whether a live window carries this id.
    pub open spec fn spec_has_window(self, id: u32) -> bool {
        exists|i: int| 0 <= i < self.windows@.len() && (#[trigger] self.windows@[i]).id == id
    }

    /// Whether a live window draws on this protocol surface.
    pub open spec fn spec_has_surface(self, surface: u64) -> bool {
        exists|i: int|
            0 <= i < self.windows@.len() && (#[trigger] self.windows@[i]).surface == surface
    }

    /// A fresh application around the globals the handshake bound: no
    /// windows, not quitting, ids starting at 0 and never reused.
    pub fn new(globals: Globals) -> (r: Application<S, H>)
        ensures
            r.wf(),
            r.globals == globals,
            !r.quitting,
            r.windows@.len() == 0,
            r.window_counter == 0,
    {
        Application { globals, quitting: false, windows: Vec::new(), window_counter: 0 }
    }

    /// Quitting is a known gap in this backend: the request is dropped.
    pub fn quit(&self) {
    }

    /// The pasteboard; a stub collaborator on this backend.
    pub fn clipboard(&self) -> (r: crate::clipboard::Clipboard) {
        crate::clipboard::Clipboard {}
    }

    /// The locale reported to the toolkit.
    pub fn get_locale() -> (r: String)
        ensures
            r@ == "en-US"@,
    {
        "en-US".to_owned()
    }

    /// Reply to the shell's liveness ping: the reply must carry back the
    /// very serial received, or the server may deem the client
    /// unresponsive and drop the connection.
    pub fn handle_ping(&self, serial: u32) -> (pong: u32)
        ensures
            pong == serial,
    {
        serial
    }

    /// Find the index of the window with this id.
    pub fn find_window(&self, id: u32) -> (r: Option<usize>)
        ensures
            match r {
                Option::Some(i) => i < self.windows@.len() && self.windows@[i as int].id == id,
                Option::None => !self.spec_has_window(id),
            },
    {
        let mut i: usize = 0;
        while i < self.windows.len()
            invariant
                0 <= i <= self.windows@.len(),
                forall|k: int| 0 <= k < i ==> (#[trigger] self.windows@[k]).id != id,
            decreases self.windows@.len() - i,
        {
            if self.windows[i].id == id {
                return Some(i);
            }
            i = i + 1;
        }
        None
    }

    /// Find the index of the window drawing on this protocol surface —
    /// an O(n) scan: there is no reverse index from surface to window.
    pub fn find_window_by_surface(&self, surface: u64) -> (r: Option<usize>)
        ensures
            match r {
                Option::Some(i) => i < self.windows@.len() && self.windows@[i as int].surface
                    == surface,
                Option::None => !self.spec_has_surface(surface),
            },
    {
        let mut i: usize = 0;
        while i < self.windows.len()
            invariant
                0 <= i <= self.windows@.len(),
                forall|k: int| 0 <= k < i ==> (#[trigger] self.windows@[k]).surface != surface,
            decreases self.windows@.len() - i,
        {
            if self.windows[i].surface == surface {
                return Some(i);
            }
            i = i + 1;
        }
        None
    }

    /// Replacing one window with one that keeps its id and surface, and is
    /// itself consistent, keeps the application consistent.
    pub proof fn lemma_update_keeps_wf(pre: Self, post: Self, i: int)
        requires
            pre.wf(),
            0 <= i < pre.windows@.len(),
            post.windows@ == pre.windows@.update(i, post.windows@[i]),
            post.windows@[i].wf(),
            post.windows@[i].id == pre.windows@[i].id,
            post.windows@[i].surface == pre.windows@[i].surface,
            post.window_counter == pre.window_counter,
        ensures
            post.wf(),
    {
        assert(post.windows@.len() == pre.windows@.len());
        assert forall|k: int| 0 <= k < post.windows@.len() implies (
        #[trigger] post.windows@[k]).wf() && post.windows@[k].id < post.window_counter by {
            if k != i {
                assert(post.windows@[k] == pre.windows@[k]);
            }
            assert(pre.windows@[k].wf());
        }
        assert forall|p: int, q: int| 0 <= p < q < post.windows@.len() implies (
        #[trigger] post.windows@[p].id) < (#[trigger] post.windows@[q].id) by {
            assert(post.windows@[p].id == pre.windows@[p].id);
            assert(post.windows@[q].id == pre.windows@[q].id);
        }
        assert forall|p: int, q: int| 0 <= p < q < post.windows@.len() implies (
        #[trigger] post.windows@[p].surface) != (#[trigger] post.windows@[q].surface) by {
            assert(post.windows@[p].surface == pre.windows@[p].surface);
            assert(post.windows@[q].surface == pre.windows@[q].surface);
        }
    }

    /// Drop the application's strong reference to a window: the arena
    /// analogue of the last strong reference going away.  Handles are not
    /// strong references, so from here on every outstanding handle
    /// operation on this id degrades to its documented fallback.  Ids are
    /// never reused afterwards.
    pub fn drop_window(&mut self, id: u32) -> (r: bool)
        requires
            old(self).wf(),
        ensures
            final(self).wf(),
            r == old(self).spec_has_window(id),
            !final(self).spec_has_window(id),
            final(self).globals == old(self).globals,
            final(self).quitting == old(self).quitting,
            final(self).window_counter == old(self).window_counter,
            !r ==> *final(self) == *old(self),
            r ==> exists|i: int|
                0 <= i < old(self).windows@.len() && (#[trigger] old(self).windows@[i]).id == id
                    && final(self).windows@ == old(self).windows@.remove(i),
    {
        match self.find_window(id) {
            Some(i) => {
                let ghost pre = *self;
                let ghost gi = i as int;
                self.windows.remove(i);
                proof {
                    pre.windows@.remove_ensures(gi);
                    assert(self.windows@ == pre.windows@.remove(gi));
                    assert forall|k: int| 0 <= k < self.windows@.len() implies (
                    #[trigger] self.windows@[k]).wf() && self.windows@[k].id
                        < self.window_counter by {
                        if k < gi {
                            assert(self.windows@[k] == pre.windows@[k]);
                        } else {
                            assert(self.windows@[k] == pre.windows@[k + 1]);
                        }
                    }
                    assert forall|p: int, q: int| 0 <= p < q < self.windows@.len() implies (
                    #[trigger] self.windows@[p].id) < (#[trigger] self.windows@[q].id) by {
                        if q < gi {
                        } else if p < gi {
                            assert(self.windows@[q] == pre.windows@[q + 1]);
                        } else {
                            assert(self.windows@[p] == pre.windows@[p + 1]);
                            assert(self.windows@[q] == pre.windows@[q + 1]);
                        }
                    }
                    assert forall|p: int, q: int| 0 <= p < q < self.windows@.len() implies (
                    #[trigger] self.windows@[p].surface) != (
                    #[trigger] self.windows@[q].surface) by {
                        if q < gi {
                        } else if p < gi {
                            assert(self.windows@[q] == pre.windows@[q + 1]);
                        } else {
                            assert(self.windows@[p] == pre.windows@[p + 1]);
                            assert(self.windows@[q] == pre.windows@[q + 1]);
                        }
                    }
                    assert(!self.spec_has_window(id)) by {
                        if self.spec_has_window(id) {
                            let k = choose|k: int|
                                0 <= k < self.windows@.len() && (#[trigger] self.windows@[k]).id
                                    == id;
                            if k < gi {
                                assert(pre.windows@[k].id == pre.windows@[gi].id);
                            } else {
                                assert(pre.windows@[k + 1].id == pre.windows@[gi].id);
                            }
                        }
                    }
                    assert(pre.spec_has_window(id)) by {
                        assert(pre.windows@[gi].id == id);
                    }
                }
                true
            },
            None => false,
        }
    }

    /// Take the whole pending idle batch of the window with this id,
    /// oldest first, leaving its queue empty; the UI thread runs the batch
    /// after this returns.  Without such a window the batch is empty.
    pub fn drain_idle(&mut self, id: u32) -> (out: Vec<IdleKind>)
        requires
            old(self).wf(),
        ensures
            final(self).wf(),
            !old(self).spec_has_window(id) ==> *final(self) == *old(self) && out@.len() == 0,
            old(self).spec_has_window(id) ==> exists|i: int|
                0 <= i < old(self).windows@.len() && (#[trigger] old(self).windows@[i]).id == id
                    && out@ == old(self).windows@[i].idle@ && final(self).windows@ == old(self).windows@.update(i, final(self).windows@[i]) && old(self).windows@[i].spec_only_idle_changed(final(self).windows@[i]) && final(self).windows@[i].idle@.len() == 0,
            final(self).globals == old(self).globals,
            final(self).quitting == old(self).quitting,
            final(self).window_counter == old(self).window_counter,
    {
        match self.find_window(id) {
            Some(i) => {
                let ghost pre = *self;
                let ghost gi = i as int;
                let w = &mut self.windows[i];
                let out = w.idle.drain();
                proof {
                    assert(pre.windows@[gi].spec_only_idle_changed(self.windows@[gi]));
                    Self::lemma_update_keeps_wf(pre, *self, gi);
                    assert(pre.windows@[gi].id == id);
                }
                out
            },
            None => Vec::new(),
        }
    }
}

/// Which input devices have been created from the seat.  The seat
/// announces its capabilities; the pointer and keyboard objects are
/// created lazily on the first announcement of the corresponding bit and
/// never re-created, even if the capability is later withdrawn and
/// announced again (a known gap of this backend).
#[derive(Clone, Copy, Debug, PartialEq, Eq, Structural)]
pub struct SeatState {
    pub pointer_created: bool,
    pub keyboard_created: bool,
}

/// What one capability announcement asks the embedding program to create.
#[derive(Clone, Copy, Debug, PartialEq, Eq, Structural)]
pub struct SeatDevices {
    pub create_pointer: bool,
    pub create_keyboard: bool,
}

impl SeatState {
    pub fn new() -> (r: SeatState)
        ensures
            r == (SeatState { pointer_created: false, keyboard_created: false }),
    {
        SeatState { pointer_created: false, keyboard_created: false }
    }

    /// Decide what one capability announcement creates: each device is
    /// created exactly on the first announcement that offers it, never
    /// again.
    pub fn handle_capabilities(&mut self, pointer: bool, keyboard: bool) -> (r: SeatDevices)
        ensures
            r.create_pointer == (pointer && !old(self).pointer_created),
            r.create_keyboard == (keyboard && !old(self).keyboard_created),
            final(self).pointer_created == (old(self).pointer_created || pointer),
            final(self).keyboard_created == (old(self).keyboard_created || keyboard),
    {
        let create_pointer = pointer && !self.pointer_created;
        let create_keyboard = keyboard && !self.keyboard_created;
        if pointer {
            self.pointer_created = true;
        }
        if keyboard {
            self.keyboard_created = true;
        }
        SeatDevices { create_pointer, create_keyboard }
    }
}

/// Events of the pointer device, already reduced to plain values by the
/// embedding program.
#[derive(Clone, Copy, Debug)]
pub enum PointerEvent {
    /// The pointer entered a surface at this position.
    Enter { surface: u64, x: i64, y: i64 },
    /// The pointer left the focused surface.
    Leave,
    /// The pointer moved.
    Motion { x: i64, y: i64 },
    /// A button was pressed or released.
    Button { pressed: bool },
}

/// Events of the keyboard.  This backend only observes them; no key event
/// is forwarded to a window handler (a known gap).
#[derive(Clone, Copy, Debug)]
pub enum KeyboardEvent {
    Enter,
    Leave,
    Key { key: u32, pressed: bool },
}

/// A low-level input event.
#[derive(Clone, Copy, Debug)]
pub enum InputEvent {
    Pointer(PointerEvent),
    Keyboard(KeyboardEvent),
}

/// Motion or a click arrived while a surface no live window draws on had
/// the focus.
#[derive(Clone, Copy, Debug, PartialEq, Eq, Structural)]
pub struct RoutingError {
    pub surface: u64,
}

/// Routes low-level input to the window under focus.  Focus and cursor
/// position are process-wide, not per-window: one pointer, one focus.
#[derive(Clone, Copy, Debug)]
pub struct EventHandler {
    /// The surface under the pointer, if any.
    pub focused: Option<u64>,
    /// The last observed pointer position; stale after a leave.
    pub cursor: Point,
}

impl EventHandler {
    pub fn new() -> (r: EventHandler)
        ensures
            r.focused is None,
            r.cursor == (Point { x: 0, y: 0 }),
    {
        EventHandler { focused: None, cursor: Point::new(0, 0) }
    }

    /// Route one input event.
    ///
    /// Enter sets focus and position; leave clears focus (the position
    /// goes stale); motion updates the position and forwards a move event
    /// to the focused window only; a button press or release forwards a
    /// click, always reported as a single left-button interaction.  No
    /// event is broadcast to unfocused windows.  Keyboard events are
    /// observed and dropped.  The only error: a focused surface that no
    /// live window draws on.
    pub fn handle<S: SurfaceBackend, H: WinHandler<S>>(
        &mut self,
        event: &InputEvent,
        app: &mut Application<S, H>,
    ) -> (r: Result<(), RoutingError>)
        requires
            old(app).wf(),
        ensures
            final(app).wf(),
            final(app).globals == old(app).globals,
            final(app).quitting == old(app).quitting,
            final(app).window_counter == old(app).window_counter,
            match *event {
                InputEvent::Pointer(pe) => match pe {
                    PointerEvent::Enter { surface, x, y } => {
                        &&& final(self).focused == Option::Some(surface)
                        &&& final(self).cursor == (Point { x, y })
                        &&& *final(app) == *old(app)
                        &&& r is Ok
                    },
                    PointerEvent::Leave => {
                        &&& final(self).focused is None
                        &&& final(self).cursor == old(self).cursor
                        &&& *final(app) == *old(app)
                        &&& r is Ok
                    },
                    PointerEvent::Motion { x, y } => {
                        &&& final(self).cursor == (Point { x, y })
                        &&& final(self).focused == old(self).focused
                        &&& match old(self).focused {
                            Option::None => *final(app) == *old(app) && r is Ok,
                            Option::Some(s) => {
                                &&& (old(app).spec_has_surface(s) ==> r is Ok && exists|i: int|
                                    0 <= i < old(app).windows@.len() && (
                                    #[trigger] old(app).windows@[i]).surface == s && final(app).windows@ == old(app).windows@.update(
                                        i,
                                        final(app).windows@[i],
                                    ) && old(app).windows@[i].spec_notified(
                                        final(app).windows@[i],
                                        HandlerCall::MouseMove(
                                            (MouseEvent {
                                                pos: Point { x, y },
                                                buttons: (MouseButtons(0u32)),
                                                mods: 0u32,
                                                count: 0u8,
                                                focus: true,
                                                button: Option::None,
                                                wheel_delta: (Point { x: 0, y: 0 }),
                                            }),
                                        ),
                                    ))
                                &&& (!old(app).spec_has_surface(s) ==> *final(app) == *old(app)
                                    && r == Result::<(), RoutingError>::Err(
                                    RoutingError { surface: s },
                                ))
                            },
                        }
                    },
                    PointerEvent::Button { pressed } => {
                        &&& *final(self) == *old(self)
                        &&& match old(self).focused {
                            Option::None => *final(app) == *old(app) && r is Ok,
                            Option::Some(s) => {
                                &&& (old(app).spec_has_surface(s) ==> r is Ok && exists|i: int|
                                    0 <= i < old(app).windows@.len() && (
                                    #[trigger] old(app).windows@[i]).surface == s && final(app).windows@ == old(app).windows@.update(
                                        i,
                                        final(app).windows@[i],
                                    ) && {
                                        let click = MouseEvent {
                                            pos: old(self).cursor,
                                            buttons: (MouseButtons(1u32)),
                                            mods: 0u32,
                                            count: 1u8,
                                            focus: true,
                                            button: Option::Some(MouseButton::Left),
                                            wheel_delta: (Point { x: 0, y: 0 }),
                                        };
                                        old(app).windows@[i].spec_notified(
                                            final(app).windows@[i],
                                            if pressed {
                                                HandlerCall::MouseDown(click)
                                            } else {
                                                HandlerCall::MouseUp(click)
                                            },
                                        )
                                    })
                                &&& (!old(app).spec_has_surface(s) ==> *final(app) == *old(app)
                                    && r == Result::<(), RoutingError>::Err(
                                    RoutingError { surface: s },
                                ))
                            },
                        }
                    },
                },
                InputEvent::Keyboard(_) => *final(self) == *old(self) && *final(app) == *old(app)
                    && r is Ok,
            },
    {
        match event {
            InputEvent::Pointer(pe) => match pe {
                PointerEvent::Enter { surface, x, y } => {
                    self.focused = Some(*surface);
                    self.cursor = Point::new(*x, *y);
                    Ok(())
                },
                PointerEvent::Leave => {
                    self.focused = None;
                    Ok(())
                },
                PointerEvent::Motion { x, y } => {
                    self.cursor = Point::new(*x, *y);
                    match self.focused {
                        None => Ok(()),
                        Some(s) => match app.find_window_by_surface(s) {
                            Some(i) => {
                                let ghost pre = *app;
                                let ghost gi = i as int;
                                let ev = MouseEvent {
                                    pos: self.cursor,
                                    buttons: MouseButtons::none(),
                                    mods: 0,
                                    count: 0,
                                    focus: true,
                                    button: None,
                                    wheel_delta: Point::new(0, 0),
                                };
                                let w = &mut app.windows[i];
                                w.mouse_move(&ev);
                                proof {
                                    Application::<S, H>::lemma_update_keeps_wf(pre, *app, gi);
                                }
                                Ok(())
                            },
                            None => Err(RoutingError { surface: s }),
                        },
                    }
                },
                PointerEvent::Button { pressed } => {
                    match self.focused {
                        None => Ok(()),
                        Some(s) => match app.find_window_by_surface(s) {
                            Some(i) => {
                                let ghost pre = *app;
                                let ghost gi = i as int;
                                let ev = MouseEvent {
                                    pos: self.cursor,
                                    buttons: MouseButtons::left_only(),
                                    mods: 0,
                                    count: 1,
                                    focus: true,
                                    button: Some(MouseButton::Left),
                                    wheel_delta: Point::new(0, 0),
                                };
                                let w = &mut app.windows[i];
                                if *pressed {
                                    w.mouse_down(&ev);
                                } else {
                                    w.mouse_up(&ev);
                                }
                                proof {
                                    Application::<S, H>::lemma_update_keeps_wf(pre, *app, gi);
                                }
                                Ok(())
                            },
                            None => Err(RoutingError { surface: s }),
                        },
                    }
                },
            },
            InputEvent::Keyboard(_) => Ok(()),
        }
    }
}

} // verus!
