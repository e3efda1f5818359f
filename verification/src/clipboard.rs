//! Interactions with the system pasteboard: a stub collaborator on this
//! backend.  Writes are dropped and reads always come back empty, and the
//! contracts say so.

use vstd::prelude::*;

verus! {

/// A clipboard format identifier, such as a MIME type.
pub type FormatId = &'static str;

/// Data offered to the pasteboard under one format.
#[derive(Clone, Debug)]
pub struct ClipboardFormat {
    pub identifier: FormatId,
    pub data: Vec<u8>,
}

/// The system pasteboard; inert on this backend.
#[derive(Clone, Debug)]
pub struct Clipboard;

impl Clipboard {
    /// Dropped on this backend.
    pub fn put_string(&mut self, _s: &str) {
    }

    /// Dropped on this backend.
    pub fn put_formats(&mut self, _formats: &[ClipboardFormat]) {
    }

    pub fn get_string(&self) -> (r: Option<String>)
        ensures
            r is None,
    {
        None
    }

    pub fn preferred_format(&self, _formats: &[FormatId]) -> (r: Option<FormatId>)
        ensures
            r is None,
    {
        None
    }

    pub fn get_format(&self, _format: FormatId) -> (r: Option<Vec<u8>>)
        ensures
            r is None,
    {
        None
    }

    pub fn available_type_names(&self) -> (r: Vec<String>)
        ensures
            r@.len() == 0,
    {
        Vec::new()
    }
}

} // verus!
