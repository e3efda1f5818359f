//! A modal overlay: a wrapper widget that shows its content only while a
//! predicate over the application data holds.
//!
//! The widget tree itself is the toolkit's, not this crate's; the modal
//! needs only the narrow [`Widget`] capability below.  Its layout pass
//! works in the toolkit's floating-point geometry and stays outside the
//! verified core, in the embedding program.

use crate::geometry::{Point, Size};
use crate::handler::MouseEvent;
use vstd::prelude::*;

verus! {

/// How the modal content is positioned.
#[derive(Clone, Copy, Debug, PartialEq, Eq, Structural)]
pub enum ModalPosition {
    /// Relative to the widget's own origin.
    Relative,
    /// Against the whole window.
    Window,
    /// At the cursor; needs cursor events.
    Cursor,
}

/// The events a modal observes.
#[derive(Clone, Copy, Debug)]
pub enum Event {
    /// The window was resized.
    WindowSize(Size),
    /// The pointer moved.
    MouseMove(MouseEvent),
    /// Any other toolkit event.
    Other,
}

/// One call the modal made into its content, for the ghost history.
pub enum ModalCall {
    /// The event was forwarded to the content.
    Forwarded(Event),
    /// The content was refreshed after a data change.
    Refreshed,
}

/// The slice of the toolkit's widget capability the modal needs from its
/// content; the embedding toolkit implements it.
pub trait Widget<T>: Sized {
    /// Handle one event against the data.
    fn event(&mut self, event: &Event, data: &mut T);

    /// Refresh after a data change.
    fn update(&mut self, data: &T);
}

/// A wrapper widget showing its content only while `visibility` holds of
/// the data.
pub struct Modal<W, F> {
    /// The wrapped content.
    pub content: W,
    /// Decides from the data whether the modal is visible.
    pub visibility: F,
    /// Where the content is placed.
    pub position: ModalPosition,
    /// The window size observed last.
    pub window_size: Size,
    /// The cursor position observed last.
    pub cursor_position: Point,
    /// The history of calls made into the content.
    pub forwarded: Ghost<Seq<ModalCall>>,
}

impl<W, F> Modal<W, F> {
    /// A hidden-state modal around `content`, with zero observed window
    /// size and cursor.
    pub fn new(position: ModalPosition, visibility: F, content: W) -> (r: Modal<W, F>)
        ensures
            r.position == position,
            r.visibility == visibility,
            r.content == content,
            r.window_size == (Size { width: 0, height: 0 }),
            r.cursor_position == (Point { x: 0, y: 0 }),
            r.forwarded@ == Seq::<ModalCall>::empty(),
    {
        Modal {
            content,
            visibility,
            position,
            window_size: Size::new(0, 0),
            cursor_position: Point::new(0, 0),
            forwarded: Ghost(Seq::empty()),
        }
    }

    /// Track the window size and cursor position, then forward the event
    /// to the content — exactly when the visibility predicate holds of
    /// the data.
    pub fn event<T>(&mut self, event: &Event, data: &mut T) where
        W: Widget<T>,
        F: Fn(&T) -> bool,

        requires
            forall|t: &T| old(self).visibility.requires((t,)),
        ensures
            final(self).position == old(self).position,
            final(self).visibility == old(self).visibility,
            match *event {
                Event::WindowSize(size) => final(self).window_size == size && final(self).cursor_position == old(self).cursor_position,
                Event::MouseMove(me) => final(self).cursor_position == me.pos && final(self).window_size == old(self).window_size,
                Event::Other => final(self).window_size == old(self).window_size && final(self).cursor_position == old(self).cursor_position,
            },
            // the event reaches the content exactly when the visibility
            // predicate admitted the data
            exists|visible: bool|
                {
                    &&& #[trigger] call_ensures(old(self).visibility, (&*old(data),), visible)
                    &&& final(self).forwarded@ == if visible {
                        old(self).forwarded@.push(ModalCall::Forwarded(*event))
                    } else {
                        old(self).forwarded@
                    }
                },
    {
        match event {
            Event::WindowSize(size) => {
                self.window_size = *size;
            },
            Event::MouseMove(me) => {
                self.cursor_position = me.pos;
            },
            Event::Other => {},
        }
        let visible = (self.visibility)(&*data);
        if visible {
            self.forwarded = Ghost(self.forwarded@.push(ModalCall::Forwarded(*event)));
            self.content.event(event, data);
        }
    }

    /// Refresh the content after a data change — exactly when the
    /// visibility predicate holds of the data.
    pub fn update<T>(&mut self, data: &T) where W: Widget<T>, F: Fn(&T) -> bool
        requires
            forall|t: &T| old(self).visibility.requires((t,)),
        ensures
            final(self).position == old(self).position,
            final(self).visibility == old(self).visibility,
            final(self).window_size == old(self).window_size,
            final(self).cursor_position == old(self).cursor_position,
            exists|visible: bool|
                {
                    &&& #[trigger] call_ensures(old(self).visibility, (data,), visible)
                    &&& final(self).forwarded@ == if visible {
                        old(self).forwarded@.push(ModalCall::Refreshed)
                    } else {
                        old(self).forwarded@
                    }
                },
    {
        let visible = (self.visibility)(data);
        if visible {
            self.forwarded = Ghost(self.forwarded@.push(ModalCall::Refreshed));
            self.content.update(data);
        }
    }
}

} // verus!
