//! File dialog types.  Dialogs are stub collaborators on this backend:
//! every request reports that no dialog could be shown.

use vstd::prelude::*;

verus! {

/// Options for a file open/save dialog; carried through untouched.
#[derive(Clone, Debug)]
pub struct FileDialogOptions {
    /// Whether directories may be selected.
    pub select_directories: bool,
    /// Whether multiple files may be selected.
    pub multi_selection: bool,
}

/// The file a completed dialog chose.
#[derive(Clone, Debug)]
pub struct FileInfo {
    /// The chosen path, as the dialog reported it.
    pub path: String,
}

/// Identifies one outstanding dialog request.
#[derive(Clone, Copy, Debug, PartialEq, Eq, Structural)]
pub struct FileDialogToken(pub u64);

} // verus!
