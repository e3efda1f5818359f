//! Non-owning window handles.
//!
//! A [`WindowHandle`] names a window by its process-local id and resolves
//! it in the application's window set on every operation.  When the window
//! is gone the operation degrades to its documented fallback — a no-op or
//! a default value — and never panics or reports an error: the handle's
//! contract is total.  That degradation is stated as an `ensures` on every
//! method here: without a live window for the id, the application is left
//! exactly as it was.

use crate::application::Application;
use crate::dialog::{FileDialogOptions, FileDialogToken, FileInfo};
use crate::error::Error;
use crate::geometry::{Point, Rect, Scale, Size};
use crate::handler::{SurfaceBackend, WinHandler};
use crate::idle::IdleHandle;
use crate::menu::Menu;
use crate::timer::TimerToken;
use crate::window::{RenderOutcome, Window, WindowState};
use vstd::prelude::*;

verus! {

/// A non-owning reference to a window, usable after the window itself is
/// gone.
#[derive(Clone, Copy, Debug, PartialEq, Eq, Structural)]
pub struct WindowHandle {
    /// The id of the window this handle names.
    pub id: u32,
}

impl WindowHandle {
    pub fn new(id: u32) -> (r: WindowHandle)
        ensures
            r == (WindowHandle { id }),
    {
        WindowHandle { id }
    }

    /// Attempt a presentation: one full render pass on the window, whose
    /// outcome is returned; gone-window fallback: no-op, and no outcome.
    pub fn show<S: SurfaceBackend, H: WinHandler<S>>(&self, app: &mut Application<S, H>) -> (r:
        Option<RenderOutcome>)
        requires
            old(app).wf(),
        ensures
            final(app).wf(),
            r is Some <==> old(app).spec_has_window(self.id),
            !old(app).spec_has_window(self.id) ==> *final(app) == *old(app),
            match r {
                Option::Some(o) => exists|i: int|
                    0 <= i < old(app).windows@.len() && (#[trigger] old(app).windows@[i]).id
                        == self.id && final(app).windows@ == old(app).windows@.update(
                        i,
                        final(app).windows@[i],
                    ) && Window::<S, H>::spec_render_post(
                        old(app).windows@[i],
                        final(app).windows@[i],
                        o,
                    ) && (!old(app).windows@[i].configured ==> final(app).windows@[i] == old(
                        app,
                    ).windows@[i]),
                Option::None => true,
            },
            final(app).window_counter == old(app).window_counter,
            final(app).globals == old(app).globals,
            final(app).quitting == old(app).quitting,
            final(app).windows@.len() == old(app).windows@.len(),
    {
        match app.find_window(self.id) {
            Some(i) => {
                let ghost pre = *app;
                let ghost gi = i as int;
                let w = &mut app.windows[i];
                let outcome = w.show();
                proof {
                    Application::<S, H>::lemma_update_keeps_wf(pre, *app, gi);
                }
                Some(outcome)
            },
            None => None,
        }
    }

    /// Closing is not implemented on this backend; gone-window fallback:
    /// no-op either way.
    pub fn close<S: SurfaceBackend, H: WinHandler<S>>(&self, app: &Application<S, H>) {
        match app.find_window(self.id) {
            Some(i) => {
                app.windows[i].close();
            },
            None => {},
        }
    }

    /// Inert on this backend; gone-window fallback: no-op.
    pub fn resizable<S: SurfaceBackend, H: WinHandler<S>>(
        &self,
        app: &Application<S, H>,
        resizable: bool,
    ) {
        match app.find_window(self.id) {
            Some(i) => {
                app.windows[i].resizable(resizable);
            },
            None => {},
        }
    }

    /// Inert on this backend; gone-window fallback: no-op.
    pub fn show_titlebar<S: SurfaceBackend, H: WinHandler<S>>(
        &self,
        app: &Application<S, H>,
        show_titlebar: bool,
    ) {
        match app.find_window(self.id) {
            Some(i) => {
                app.windows[i].show_titlebar(show_titlebar);
            },
            None => {},
        }
    }

    /// Inert on this backend.
    pub fn set_position(&self, _position: Point) {
    }

    /// This backend cannot place windows: always the origin.
    pub fn get_position(&self) -> (r: Point)
        ensures
            r == (Point { x: 0, y: 0 }),
    {
        Point::new(0, 0)
    }

    /// Inert on this backend.
    pub fn set_level(&self, _level: crate::window::WindowLevel) {
    }

    /// Inert on this backend.
    pub fn set_size(&self, _size: Size) {
    }

    /// This backend does not track its own size here: always zero.
    pub fn get_size(&self) -> (r: Size)
        ensures
            r == (Size { width: 0, height: 0 }),
    {
        Size::new(0, 0)
    }

    /// Inert on this backend.
    pub fn set_window_state(&self, _state: WindowState) {
    }

    /// This backend always reports a restored window.
    pub fn get_window_state(&self) -> (r: WindowState)
        ensures
            r == WindowState::Restored,
    {
        WindowState::Restored
    }

    /// Inert on this backend.
    pub fn handle_titlebar(&self, _val: bool) {
    }

    /// Inert on this backend; gone-window fallback: no-op.
    pub fn bring_to_front_and_focus<S: SurfaceBackend, H: WinHandler<S>>(
        &self,
        app: &Application<S, H>,
    ) {
        match app.find_window(self.id) {
            Some(i) => {
                app.windows[i].bring_to_front_and_focus();
            },
            None => {},
        }
    }

    /// Register exactly one one-shot frame callback on the window, with
    /// its commit, rendering nothing synchronously; gone-window fallback:
    /// no-op.
    pub fn request_anim_frame<S: SurfaceBackend, H: WinHandler<S>>(
        &self,
        app: &mut Application<S, H>,
    )
        requires
            old(app).wf(),
        ensures
            final(app).wf(),
            !old(app).spec_has_window(self.id) ==> *final(app) == *old(app),
            old(app).spec_has_window(self.id) ==> exists|i: int|
                0 <= i < old(app).windows@.len() && (#[trigger] old(app).windows@[i]).id
                    == self.id && final(app).windows@ == old(app).windows@.update(
                    i,
                    final(app).windows@[i],
                ) && old(app).windows@[i].spec_frame_requested(final(app).windows@[i]),
            final(app).window_counter == old(app).window_counter,
            final(app).globals == old(app).globals,
            final(app).quitting == old(app).quitting,
    {
        match app.find_window(self.id) {
            Some(i) => {
                let ghost pre = *app;
                let ghost gi = i as int;
                let w = &mut app.windows[i];
                w.request_anim_frame();
                proof {
                    Application::<S, H>::lemma_update_keeps_wf(pre, *app, gi);
                }
            },
            None => {},
        }
    }

    /// Mark the whole window damaged and schedule a repaint; gone-window
    /// fallback: no-op.
    pub fn invalidate<S: SurfaceBackend, H: WinHandler<S>>(&self, app: &mut Application<S, H>)
        requires
            old(app).wf(),
        ensures
            final(app).wf(),
            !old(app).spec_has_window(self.id) ==> *final(app) == *old(app),
            old(app).spec_has_window(self.id) ==> exists|i: int|
                0 <= i < old(app).windows@.len() && (#[trigger] old(app).windows@[i]).id
                    == self.id && final(app).windows@ == old(app).windows@.update(
                    i,
                    final(app).windows@[i],
                ) && old(app).windows@[i].spec_invalidated(
                    final(app).windows@[i],
                    old(app).windows@[i].size.spec_to_rect().spec_expand(),
                ),
            final(app).window_counter == old(app).window_counter,
            final(app).globals == old(app).globals,
            final(app).quitting == old(app).quitting,
    {
        match app.find_window(self.id) {
            Some(i) => {
                let ghost pre = *app;
                let ghost gi = i as int;
                let w = &mut app.windows[i];
                w.invalidate();
                proof {
                    Application::<S, H>::lemma_update_keeps_wf(pre, *app, gi);
                }
            },
            None => {},
        }
    }

    /// Mark `rect` damaged (grown by the damage margin) and schedule a
    /// repaint; gone-window fallback: no-op.
    pub fn invalidate_rect<S: SurfaceBackend, H: WinHandler<S>>(
        &self,
        app: &mut Application<S, H>,
        rect: Rect,
    )
        requires
            old(app).wf(),
            rect.wf(),
        ensures
            final(app).wf(),
            !old(app).spec_has_window(self.id) ==> *final(app) == *old(app),
            old(app).spec_has_window(self.id) ==> exists|i: int|
                0 <= i < old(app).windows@.len() && (#[trigger] old(app).windows@[i]).id
                    == self.id && final(app).windows@ == old(app).windows@.update(
                    i,
                    final(app).windows@[i],
                ) && old(app).windows@[i].spec_invalidated(
                    final(app).windows@[i],
                    rect.spec_expand(),
                ),
            final(app).window_counter == old(app).window_counter,
            final(app).globals == old(app).globals,
            final(app).quitting == old(app).quitting,
    {
        match app.find_window(self.id) {
            Some(i) => {
                let ghost pre = *app;
                let ghost gi = i as int;
                let w = &mut app.windows[i];
                w.invalidate_rect(rect);
                proof {
                    Application::<S, H>::lemma_update_keeps_wf(pre, *app, gi);
                }
            },
            None => {},
        }
    }

    /// Titles are fixed at build time on this backend; gone-window
    /// fallback: no-op either way.
    pub fn set_title<S: SurfaceBackend, H: WinHandler<S>>(
        &self,
        app: &Application<S, H>,
        title: &str,
    ) {
        match app.find_window(self.id) {
            Some(i) => {
                app.windows[i].set_title(title);
            },
            None => {},
        }
    }

    /// Menus are not implemented on this backend; gone-window fallback:
    /// no-op either way.
    pub fn set_menu<S: SurfaceBackend, H: WinHandler<S>>(&self, app: &Application<S, H>, menu: Menu) {
        match app.find_window(self.id) {
            Some(i) => {
                app.windows[i].set_menu(menu);
            },
            None => {},
        }
    }

    /// Queue a timer on the window; gone-window fallback: the invalid
    /// token, and nothing changes.
    pub fn request_timer<S: SurfaceBackend, H: WinHandler<S>>(
        &self,
        app: &mut Application<S, H>,
        deadline: u64,
    ) -> (t: TimerToken)
        requires
            old(app).wf(),
        ensures
            final(app).wf(),
            !old(app).spec_has_window(self.id) ==> *final(app) == *old(app) && t == (TimerToken(
                0u64,
            )),
            old(app).spec_has_window(self.id) ==> t != (TimerToken(0u64)) && exists|i: int|
                0 <= i < old(app).windows@.len() && (#[trigger] old(app).windows@[i]).id
                    == self.id && final(app).windows@ == old(app).windows@.update(
                    i,
                    final(app).windows@[i],
                ) && old(app).windows@[i].spec_timer_added(final(app).windows@[i], deadline, t),
            final(app).window_counter == old(app).window_counter,
            final(app).globals == old(app).globals,
            final(app).quitting == old(app).quitting,
    {
        match app.find_window(self.id) {
            Some(i) => {
                let ghost pre = *app;
                let ghost gi = i as int;
                let w = &mut app.windows[i];
                let t = w.request_timer(deadline);
                proof {
                    Application::<S, H>::lemma_update_keeps_wf(pre, *app, gi);
                }
                t
            },
            None => TimerToken::invalid(),
        }
    }

    /// Cursor theming is not implemented on this backend.
    pub fn set_cursor(&mut self, _cursor: &crate::window::Cursor) {
    }

    /// Custom cursors are not implemented on this backend.
    pub fn make_cursor(&self, _cursor_desc: &crate::window::CursorDesc) -> (r: Option<
        crate::window::CustomCursor,
    >)
        ensures
            r is None,
    {
        None
    }

    /// File dialogs are not implemented on this backend.
    pub fn open_file(&mut self, _options: FileDialogOptions) -> (r: Option<FileDialogToken>)
        ensures
            r is None,
    {
        None
    }

    /// File dialogs are not implemented on this backend.
    pub fn open_file_sync(&mut self, _options: FileDialogOptions) -> (r: Option<FileInfo>)
        ensures
            r is None,
    {
        None
    }

    /// File dialogs are not implemented on this backend.
    pub fn save_as_sync(&mut self, _options: FileDialogOptions) -> (r: Option<FileInfo>)
        ensures
            r is None,
    {
        None
    }

    /// File dialogs are not implemented on this backend.
    pub fn save_as(&mut self, _options: FileDialogOptions) -> (r: Option<FileDialogToken>)
        ensures
            r is None,
    {
        None
    }

    /// Context menus are not implemented on this backend.
    pub fn show_context_menu(&self, _menu: Menu, _pos: Point) {
    }

    /// A thread-safe handle onto the window's idle queue; gone-window
    /// fallback: none.
    pub fn get_idle_handle<S: SurfaceBackend, H: WinHandler<S>>(&self, app: &Application<S, H>) -> (r:
        Option<IdleHandle>)
        ensures
            app.spec_has_window(self.id) ==> r == Option::Some((IdleHandle { window_id: self.id })),
            !app.spec_has_window(self.id) ==> r is None,
    {
        match app.find_window(self.id) {
            Some(_) => Some(IdleHandle { window_id: self.id }),
            None => None,
        }
    }

    /// The window's scale; this backend is fixed at the identity scale,
    /// which is also the gone-window fallback.
    pub fn get_scale<S: SurfaceBackend, H: WinHandler<S>>(&self, app: &Application<S, H>) -> (r:
        Result<Scale, Error>)
        ensures
            match r {
                Result::Ok(s) => s == (Scale { x: 1, y: 1 }),
                Result::Err(_) => false,
            },
    {
        match app.find_window(self.id) {
            Some(i) => app.windows[i].get_scale(),
            None => Ok(Scale::new(1, 1)),
        }
    }
}

impl Default for WindowHandle {
    /// A handle that resolves no window: ids are allocated strictly below
    /// the counter, which never reaches the sentinel.
    fn default() -> (r: Self)
        ensures
            r == (WindowHandle { id: u32::MAX }),
    {
        WindowHandle { id: u32::MAX }
    }
}

} // verus!
