//! The error taxonomy of an edit session.
//!
//! Every failure of a session is terminal and reported once, as one of the
//! kinds below. Each kind carries a human-readable message.

use vstd::prelude::*;

verus! {

/// An editing operation that didn't change the input text.
///
/// This may optionally be considered an error by the invoking program.
#[derive(Debug)]
pub struct UnchangedError;

impl UnchangedError {
    /// The human-readable description of an unchanged edit.
    pub fn message(&self) -> (r: String)
        ensures
            r@ == "editing operation did not change the contents"@,
    {
        "editing operation did not change the contents".to_owned()
    }
}

/// Why an edit session failed. Every kind is terminal: the session never
/// retries. Kinds other than `Unchanged` carry the underlying message.
#[derive(Debug)]
pub enum HotEditError {
    /// A custom editor resolver reported failure.
    EditorResolutionFailed(String),
    /// The resolved editor command string could not be tokenized, or held
    /// no tokens at all.
    InvalidEditorCommand(String),
    /// The scratch file could not be created or seeded.
    BufferCreationFailed(String),
    /// The editor process could not be spawned.
    LaunchFailed(String),
    /// The scratch file could not be reread or decoded, or its disposal
    /// failed.
    HarvestFailed(String),
    /// Unchanged-validation was requested and the edit was a no-op.
    Unchanged(UnchangedError),
}

impl HotEditError {
    /// The human-readable message carried by this error.
    pub fn message(&self) -> (r: String)
        ensures
            self matches HotEditError::EditorResolutionFailed(m) ==> r@ == m@,
            self matches HotEditError::InvalidEditorCommand(m) ==> r@ == m@,
            self matches HotEditError::BufferCreationFailed(m) ==> r@ == m@,
            self matches HotEditError::LaunchFailed(m) ==> r@ == m@,
            self matches HotEditError::HarvestFailed(m) ==> r@ == m@,
            self matches HotEditError::Unchanged(_)
                ==> r@ == "editing operation did not change the contents"@,
    {
        match self {
            HotEditError::EditorResolutionFailed(m) => m.clone(),
            HotEditError::InvalidEditorCommand(m) => m.clone(),
            HotEditError::BufferCreationFailed(m) => m.clone(),
            HotEditError::LaunchFailed(m) => m.clone(),
            HotEditError::HarvestFailed(m) => m.clone(),
            HotEditError::Unchanged(u) => u.message(),
        }
    }
}

} // verus!
