//! Menus are stub collaborators on this backend: construction is accepted
//! and every mutation is inert.

use vstd::prelude::*;

verus! {

/// A key combination attached to a menu entry; not interpreted by this
/// backend.
#[derive(Clone, Copy, Debug)]
pub struct HotKey {
    /// Raw key code.
    pub key: u32,
    /// Modifier bit set.
    pub mods: u32,
}

/// An application or context menu; inert on this backend.
#[derive(Clone, Debug)]
pub struct Menu;

impl Menu {
    pub fn new() -> (r: Menu)
        ensures
            r == (Menu {}),
    {
        Menu {}
    }

    pub fn new_for_popup() -> (r: Menu)
        ensures
            r == (Menu {}),
    {
        Menu {}
    }

    /// Inert on this backend.
    pub fn add_dropdown(&mut self, _menu: Menu, _text: &str, _enabled: bool) {
    }

    /// Inert on this backend.
    pub fn add_item(
        &mut self,
        _id: u32,
        _text: &str,
        _key: Option<&HotKey>,
        _enabled: bool,
        _selected: bool,
    ) {
    }

    /// Inert on this backend.
    pub fn add_separator(&mut self) {
    }
}

} // verus!
