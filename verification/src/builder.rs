//! Window construction.
//!
//! The builder gathers the initial logical size (500 × 400 by default), an
//! advisory minimum size, a title and the handler, then `build` registers
//! a fresh window in the application: it takes the next id from the
//! strictly increasing counter, fixes the title and application identifier
//! on the toplevel, commits the surface once without contents to establish
//! its role, and hands back a [`WindowHandle`].  The embedding program
//! creates the protocol objects, wires the ping responder before calling
//! `build` (so it is live before the first commit), and later feeds the
//! configure events into the new window.

use crate::application::Application;
use crate::error::{Error, ErrorKind};
use crate::geometry::{Point, Size};
use crate::handle::WindowHandle;
use crate::handler::{BackendRequest, SurfaceBackend, WinHandler};
use crate::menu::Menu;
use crate::window::{Window, WindowLevel, WindowState};
use vstd::prelude::*;

verus! {

/// Collects what a new window needs before it is built.
pub struct WindowBuilder<H> {
    /// The paint/event handler; building fails without one.
    pub handler: Option<H>,
    /// The toplevel title.
    pub title: String,
    /// Initial logical size.
    pub size: Size,
    /// Advisory minimum size; not enforced against the shell.
    pub min_size: Size,
}

impl<H> WindowBuilder<H> {
    /// A builder with the default 500 × 400 logical size, no minimum, an
    /// empty title and no handler.
    pub fn new() -> (r: WindowBuilder<H>)
        ensures
            r.handler is None,
            r.title@ == Seq::<char>::empty(),
            r.size == (Size { width: 500, height: 400 }),
            r.min_size == (Size { width: 0, height: 0 }),
            r.size.wf(),
            r.min_size.wf(),
    {
        WindowBuilder {
            handler: None,
            title: String::new(),
            size: Size::new(500, 400),
            min_size: Size::new(0, 0),
        }
    }

    pub fn set_handler(&mut self, handler: H)
        ensures
            final(self).handler == Option::Some(handler),
            final(self).title == old(self).title,
            final(self).size == old(self).size,
            final(self).min_size == old(self).min_size,
    {
        self.handler = Some(handler);
    }

    pub fn set_size(&mut self, size: Size)
        requires
            size.wf(),
        ensures
            final(self).size == size,
            final(self).handler == old(self).handler,
            final(self).title == old(self).title,
            final(self).min_size == old(self).min_size,
    {
        self.size = size;
    }

    pub fn set_min_size(&mut self, min_size: Size)
        requires
            min_size.wf(),
        ensures
            final(self).min_size == min_size,
            final(self).handler == old(self).handler,
            final(self).title == old(self).title,
            final(self).size == old(self).size,
    {
        self.min_size = min_size;
    }

    /// Inert on this backend.
    pub fn resizable(&mut self, _resizable: bool) {
    }

    /// Inert on this backend.
    pub fn show_titlebar(&mut self, _show_titlebar: bool) {
    }

    /// Inert on this backend.
    pub fn set_position(&mut self, _position: Point) {
    }

    /// Inert on this backend.
    pub fn set_level(&mut self, _level: WindowLevel) {
    }

    /// Inert on this backend.
    pub fn set_window_state(&self, _state: WindowState) {
    }

    pub fn set_title(&mut self, title: &str)
        ensures
            final(self).title@ == title@,
            final(self).handler == old(self).handler,
            final(self).size == old(self).size,
            final(self).min_size == old(self).min_size,
    {
        self.title = title.to_owned();
    }

    /// Inert on this backend.
    pub fn set_menu(&mut self, _menu: Menu) {
    }

    /// Register the window.  Fails — changing nothing — exactly when no
    /// handler was supplied.  Otherwise the window takes the next id, the
    /// toplevel gets the title and application identifier, the surface is
    /// committed once without contents, and the unconfigured window is
    /// appended to the application's window set.
    ///
    /// `surface` is the identity of the protocol surface the embedding
    /// program created for this window; it must not already belong to a
    /// live window.  `backend` wraps that surface's protocol objects; the
    /// ping responder must be wired before this call, so it is live before
    /// the first commit.
    pub fn build<S: SurfaceBackend>(
        self,
        app: &mut Application<S, H>,
        surface: u64,
        backend: S,
    ) -> (r: Result<WindowHandle, Error>) where H: WinHandler<S>
        requires
            old(app).wf(),
            old(app).window_counter < u32::MAX,
            !old(app).spec_has_surface(surface),
            self.size.wf(),
            self.min_size.wf(),
        ensures
            final(app).wf(),
            r is Ok <==> self.handler is Some,
            self.handler is None ==> *final(app) == *old(app) && r == Result::<
                WindowHandle,
                Error,
            >::Err((Error(ErrorKind::NoHandler))),
            match r {
                Result::Ok(h) => {
                    &&& h == (WindowHandle { id: old(app).window_counter })
                    &&& final(app).window_counter == old(app).window_counter + 1
                    &&& final(app).globals == old(app).globals
                    &&& final(app).quitting == old(app).quitting
                    &&& final(app).windows@.len() == old(app).windows@.len() + 1
                    &&& forall|j: int|
                        0 <= j < old(app).windows@.len() ==> final(app).windows@[j] == old(
                            app,
                        ).windows@[j]
                    &&& {
                        let w = final(app).windows@.last();
                        &&& w.id == old(app).window_counter
                        &&& w.surface == surface
                        &&& w.size == self.size
                        &&& w.min_size == self.min_size
                        &&& !w.configured
                        &&& w.backing is None
                        &&& w.generation == 0
                        &&& w.invalid@.len() == 0
                        &&& w.timers@.len() == 0
                        &&& w.idle@.len() == 0
                        &&& Option::Some(w.handler) == self.handler
                        &&& w.calls@.len() == 0
                        &&& w.requests@ == seq![
                            BackendRequest::SetTitle(self.title@),
                            BackendRequest::SetAppId("wayshell"@),
                            BackendRequest::Commit,
                        ]
                    }
                },
                Result::Err(e) => e == (Error(ErrorKind::NoHandler)),
            },
    {
        let WindowBuilder { handler, title, size, min_size } = self;
        let handler = match handler {
            Some(h) => h,
            None => {
                return Err(Error(ErrorKind::NoHandler));
            },
        };
        let id = app.window_counter;
        app.window_counter = app.window_counter + 1;
        let mut w = Window::new(id, surface, size, min_size, backend, handler);
        w.backend.set_title(title.as_str());
        w.requests = Ghost(w.requests@.push(BackendRequest::SetTitle(title@)));
        w.backend.set_app_id("wayshell");
        w.requests = Ghost(w.requests@.push(BackendRequest::SetAppId("wayshell"@)));
        w.backend.commit();
        w.requests = Ghost(w.requests@.push(BackendRequest::Commit));
        proof {
            assert(w.requests@ =~= seq![
                BackendRequest::SetTitle(title@),
                BackendRequest::SetAppId("wayshell"@),
                BackendRequest::Commit,
            ]);
        }
        let ghost pre = *app;
        app.windows.push(w);
        proof {
            assert forall|k: int| 0 <= k < app.windows@.len() implies (
            #[trigger] app.windows@[k]).wf() && app.windows@[k].id < app.window_counter by {
                if k < app.windows@.len() - 1 {
                    assert(app.windows@[k] == pre.windows@[k]);
                    assert(pre.windows@[k].wf());
                }
            }
            assert forall|p: int, q: int| 0 <= p < q < app.windows@.len() implies (
            #[trigger] app.windows@[p].id) < (#[trigger] app.windows@[q].id) by {
                assert(app.windows@[p] == pre.windows@[p]);
                if q < app.windows@.len() - 1 {
                    assert(app.windows@[q] == pre.windows@[q]);
                }
            }
            assert forall|p: int, q: int| 0 <= p < q < app.windows@.len() implies (
            #[trigger] app.windows@[p].surface) != (#[trigger] app.windows@[q].surface) by {
                assert(app.windows@[p] == pre.windows@[p]);
                if q < app.windows@.len() - 1 {
                    assert(app.windows@[q] == pre.windows@[q]);
                } else {
                    assert(!pre.spec_has_surface(surface));
                    assert(pre.windows@[p].surface != surface);
                }
            }
        }
        Ok(WindowHandle::new(id))
    }
}

} // verus!
