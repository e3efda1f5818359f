//! Custom commands: the typed messages of the event bus the toolkit runs
//! over this shell.
//!
//! A [`Selector`] is a string identifier carrying the payload type as a
//! phantom parameter; a [`Command`] pairs a selector's symbol with an
//! actual payload.  Here a command is typed by its payload, so a lookup
//! can mismatch only in the symbol, never in the payload type.

use core::marker::PhantomData;
use vstd::prelude::*;

verus! {

/// Relies on `str`'s `PartialEq`: two string slices compare equal exactly
/// when their character sequences are equal.
#[verifier::external_body]
fn str_eq(a: &str, b: &str) -> (r: bool)
    ensures
        r == (a@ == b@),
{
    a == b
}

/// An identifier for a particular command, carrying the payload type.
///
/// This should be a unique string identifier: two selectors are the same
/// command exactly when their symbols are equal.
#[derive(Debug)]
pub struct Selector<T>(&'static str, PhantomData<T>);

/// An arbitrary command: a selector symbol together with the payload the
/// selector promises.
#[derive(Debug, Clone)]
pub struct Command<T> {
    selector: &'static str,
    object: T,
}

/// A wrapper for command payloads that should only be used once: taking
/// the value leaves nothing in its place.
#[derive(Debug)]
pub struct SingleUse<T>(Option<T>);

/// The id of a toolkit window.
#[derive(Clone, Copy, Debug, PartialEq, Eq, Hash, Structural)]
pub struct WindowId(pub u64);

/// The id of a widget.
#[derive(Clone, Copy, Debug, PartialEq, Eq, Hash, Structural)]
pub struct WidgetId(pub u64);

/// The target of a command.
#[derive(Clone, Copy, Debug, PartialEq, Eq, Structural)]
pub enum Target {
    /// The top-level application.
    Global,
    /// One window; the event reaches all widgets in it.
    Window(WindowId),
    /// One specific widget.
    Widget(WidgetId),
}

impl<T> Selector<T> {
    /// The symbol, as the character sequence contracts speak of.
    pub closed spec fn spec_symbol(self) -> Seq<char> {
        self.0@
    }

    /// Create a new selector with the given string.
    pub fn new(s: &'static str) -> (r: Selector<T>)
        ensures
            r.spec_symbol() == s@,
    {
        Selector(s, PhantomData)
    }

    /// The underlying string symbol.
    pub fn symbol(&self) -> (r: &'static str)
        ensures
            r@ == self.spec_symbol(),
    {
        self.0
    }

    /// Turn the selector into a command carrying `object`.
    pub fn carry(self, object: T) -> (c: Command<T>)
        ensures
            c.spec_selector() == self.spec_symbol(),
            c.spec_object() == object,
    {
        Command::new(self, object)
    }
}

impl<T> Clone for Selector<T> {
    fn clone(&self) -> (r: Self)
        ensures
            r == *self,
    {
        *self
    }
}

impl<T> Copy for Selector<T> {

}

impl<T> Command<T> {
    /// The symbol this command was created under.
    pub closed spec fn spec_selector(self) -> Seq<char> {
        self.selector@
    }

    /// The payload.
    pub closed spec fn spec_object(self) -> T {
        self.object
    }

    /// Create a new command with a payload.
    pub fn new(selector: Selector<T>, object: T) -> (c: Command<T>)
        ensures
            c.spec_selector() == selector.spec_symbol(),
            c.spec_object() == object,
    {
        Command { selector: selector.symbol(), object }
    }

    /// Create a command from the parts an external event sink carries:
    /// the raw symbol and the payload.
    pub fn from_ext(selector: &'static str, object: T) -> (c: Command<T>)
        ensures
            c.spec_selector() == selector@,
            c.spec_object() == object,
    {
        Command { selector, object }
    }

    /// Whether this command was created under `selector` — symbols equal,
    /// whatever payload type `selector` promises.
    pub fn is<U>(&self, selector: Selector<U>) -> (r: bool)
        ensures
            r == (self.spec_selector() == selector.spec_symbol()),
    {
        str_eq(self.selector, selector.symbol())
    }

    /// The payload, if the selector matches: `Some` exactly when
    /// `self.is(selector)`.  Payloads are typed here, so a matching
    /// symbol always carries the promised type.
    pub fn get(&self, selector: Selector<T>) -> (r: Option<&T>)
        ensures
            r is Some <==> self.spec_selector() == selector.spec_symbol(),
            match r {
                Option::Some(o) => *o == self.spec_object(),
                Option::None => true,
            },
    {
        if str_eq(self.selector, selector.symbol()) {
            Some(&self.object)
        } else {
            None
        }
    }

    /// The payload of a command already known to match `selector`; where
    /// the symbols might differ, use [`Command::get`] or check with
    /// [`Command::is`] first.
    pub fn get_unchecked(&self, selector: Selector<T>) -> (r: &T)
        requires
            self.spec_selector() == selector.spec_symbol(),
        ensures
            *r == self.spec_object(),
    {
        &self.object
    }
}

impl<T> SingleUse<T> {
    /// What is still inside.
    pub closed spec fn spec_value(self) -> Option<T> {
        self.0
    }

    pub fn new(data: T) -> (r: SingleUse<T>)
        ensures
            r.spec_value() == Option::Some(data),
    {
        SingleUse(Some(data))
    }

    /// Takes the value, leaving nothing in its place: a second take
    /// returns `None`.
    pub fn take(&mut self) -> (r: Option<T>)
        ensures
            r == old(self).spec_value(),
            final(self).spec_value() is None,
    {
        self.0.take()
    }
}

impl From<Selector<()>> for Command<()> {
    /// A selector without a payload is itself a command.
    fn from(selector: Selector<()>) -> (r: Command<()>)
        ensures
            r.spec_selector() == selector.spec_symbol(),
    {
        Command { selector: selector.0, object: () }
    }
}

impl vstd::std_specs::convert::FromSpecImpl<Selector<()>> for Command<()> {
    open spec fn obeys_from_spec() -> bool {
        true
    }

    closed spec fn from_spec(selector: Selector<()>) -> Command<()> {
        Command { selector: selector.0, object: () }
    }
}

impl From<WindowId> for Target {
    fn from(id: WindowId) -> (r: Target)
        ensures
            r == Target::Window(id),
    {
        Target::Window(id)
    }
}

impl vstd::std_specs::convert::FromSpecImpl<WindowId> for Target {
    open spec fn obeys_from_spec() -> bool {
        true
    }

    open spec fn from_spec(id: WindowId) -> Target {
        Target::Window(id)
    }
}

impl From<WidgetId> for Target {
    fn from(id: WidgetId) -> (r: Target)
        ensures
            r == Target::Widget(id),
    {
        Target::Widget(id)
    }
}

impl vstd::std_specs::convert::FromSpecImpl<WidgetId> for Target {
    open spec fn obeys_from_spec() -> bool {
        true
    }

    open spec fn from_spec(id: WidgetId) -> Target {
        Target::Widget(id)
    }
}

} // verus!
