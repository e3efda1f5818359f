//! The capabilities the embedding application injects, and the record of
//! notifications the core sends through them.
//!
//! [`WinHandler`] is the paint/event capability of one window: the external
//! widget tree executes only through it.  [`SurfaceBackend`] is the
//! per-window platform surface — protocol object, shared-memory backing and
//! rasterizer — which only the embedding program can operate.  Both are
//! opaque to the core: contracts state what holds of the core's own state
//! whatever an implementation does, and the ghost [`HandlerCall`] history
//! records exactly which notifications were issued, in order.

use crate::geometry::{Point, Rect, Size};
use crate::handle::WindowHandle;
use crate::region::Region;
use vstd::prelude::*;

verus! {

/// A mouse button reported to a handler.
#[derive(Clone, Copy, Debug, PartialEq, Eq, Structural)]
pub enum MouseButton {
    Left,
    Right,
    Middle,
}

/// The set of buttons held down, as a bit set (bit 0 is left).
#[derive(Clone, Copy, Debug, PartialEq, Eq, Structural)]
pub struct MouseButtons(pub u32);

impl MouseButtons {
    /// No button held.
    pub fn none() -> (r: MouseButtons)
        ensures
            r == (MouseButtons(0)),
    {
        MouseButtons(0)
    }

    /// Only the left button held.
    pub fn left_only() -> (r: MouseButtons)
        ensures
            r == (MouseButtons(1)),
    {
        MouseButtons(1)
    }
}

/// A pointer event forwarded to the focused window's handler.
#[derive(Clone, Copy, Debug)]
pub struct MouseEvent {
    /// Position in logical units.
    pub pos: Point,
    /// Buttons held down.
    pub buttons: MouseButtons,
    /// Modifier keys held down, as a bit set; always empty on this backend.
    pub mods: u32,
    /// Click count; zero for plain movement.
    pub count: u8,
    /// Whether the target window has pointer focus.
    pub focus: bool,
    /// The button this event is about, if any.
    pub button: Option<MouseButton>,
    /// Scroll delta; zero for non-wheel events.
    pub wheel_delta: Point,
}

/// One notification issued to a window's handler, with what it carried,
/// for the ghost history.
pub enum HandlerCall {
    /// The handler was connected (once, at the first configure).
    Connect,
    /// The handler was told this logical size.
    Resized(Size),
    /// Pre-paint bookkeeping ran.
    PreparePaint,
    /// The handler painted this damage; `ok` is what it returned.
    Paint { damage: Seq<Rect>, ok: bool },
    /// A pointer move was forwarded, with exactly this event.
    MouseMove(MouseEvent),
    /// A button press was forwarded, with exactly this event.
    MouseDown(MouseEvent),
    /// A button release was forwarded, with exactly this event.
    MouseUp(MouseEvent),
}

/// One request issued to a window's platform surface, with what it
/// carried, for the ghost history.  Each entry stands for exactly one
/// [`SurfaceBackend`] call, in order.
pub enum BackendRequest {
    /// A fresh backing store of `len` bytes for `width` × `height` was
    /// requested; `ok` is whether allocation succeeded.
    Allocate { width: u32, height: u32, len: u64, ok: bool },
    /// Drawing was clipped to this damage.
    SetClip(Seq<Rect>),
    /// The rasterizer flush ran; `ok` is what it returned.
    Finish(bool),
    /// The buffer was attached at the origin, this damage marked, and a
    /// commit issued.
    Present { size: Size, damage: Seq<Rect> },
    /// A one-shot frame callback was registered and a commit issued.
    RequestFrame,
    /// A bare commit (no new contents).
    Commit,
    /// A configure event was acknowledged with exactly this serial.
    AckConfigure(u32),
    /// The toplevel title was set to exactly this text.
    SetTitle(Seq<char>),
    /// The application identifier was set to exactly this text.
    SetAppId(Seq<char>),
}

/// How many `connect` notifications a history holds.
pub open spec fn count_connects(s: Seq<HandlerCall>) -> int
    decreases s.len(),
{
    if s.len() == 0 {
        0
    } else {
        count_connects(s.drop_last()) + if s.last() is Connect {
            1int
        } else {
            0int
        }
    }
}

/// Appending one call raises the connect count exactly when it is a
/// `connect`.
pub proof fn lemma_count_connects_push(s: Seq<HandlerCall>, c: HandlerCall)
    ensures
        count_connects(s.push(c)) == count_connects(s) + if c is Connect {
            1int
        } else {
            0int
        },
{
    assert(s.push(c).drop_last() =~= s);
    assert(s.push(c).last() == c);
}

/// The paint/event capability of one window, implemented by the embedding
/// application.  `S` is the drawing surface type handed to `paint`.
pub trait WinHandler<S>: Sized {
    /// Called once, when the shell has acknowledged the first configure.
    fn connect(&mut self, handle: &WindowHandle);

    /// Called when the logical size is set or changes.
    fn size(&mut self, size: Size);

    /// Called before each paint, for pre-layout bookkeeping.
    fn prepare_paint(&mut self);

    /// Paint into the backing surface, restricted to the invalid region.
    /// Returns false when painting failed; the frame is then dropped and
    /// the damage retained.
    fn paint(&mut self, surface: &mut S, invalid: &Region) -> bool;

    fn mouse_move(&mut self, event: &MouseEvent);

    fn mouse_down(&mut self, event: &MouseEvent);

    fn mouse_up(&mut self, event: &MouseEvent);
}

/// The platform side of one window: its protocol surface, shared-memory
/// backing store and rasterizer.  Implemented by the embedding program;
/// opaque to the core.
pub trait SurfaceBackend: Sized {
    /// Replace the backing store with a fresh zero-filled, memory-mapped
    /// region of `len` bytes for a `width` × `height` 32-bit ARGB surface,
    /// and bind a new shared-memory pool and buffer pair to it; the
    /// previous pair is retired together, never independently.  Returns
    /// false when allocation fails.
    fn allocate(&mut self, width: u32, height: u32, len: u64) -> bool;

    /// Restrict subsequent drawing to the union of the damaged rectangles.
    fn set_clip(&mut self, invalid: &Region);

    /// Flush buffered drawing operations into the backing memory.  Returns
    /// false when the flush fails.
    fn finish(&mut self) -> bool;

    /// Attach the current buffer at the origin, mark `damage` as damaged,
    /// and commit — required for every visible update, even when the same
    /// buffer object was reused.
    fn present(&mut self, size: Size, damage: &Region);

    /// Register a one-shot frame-done callback with the compositor and
    /// commit; the embedding loop reports its firing by calling the
    /// window's `render` again.
    fn request_frame(&mut self);

    /// Commit the surface without new contents (establishes the role).
    fn commit(&mut self);

    /// Acknowledge a configure event by its exact serial.
    fn ack_configure(&mut self, serial: u32);

    /// Set the toplevel's title.
    fn set_title(&mut self, title: &str);

    /// Set the stable application identifier of the toplevel.
    fn set_app_id(&mut self, app_id: &str);
}

} // verus!
