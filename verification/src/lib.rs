//! Hand a string to an interactively chosen text editor and retrieve the
//! edited result.
//!
//! The library holds the decision side of the classic "hot edit" pattern:
//! editor discovery by priority, shell-style tokenization of the editor
//! command, the linear session state machine, and no-op-edit detection.
//! A caller drives one edit session through the transition functions of
//! [`session`], performing the file and process work between the steps and
//! handing each outcome back as plain values.

use vstd::prelude::*;

mod errors;
mod resolver;
mod command;
mod session;

pub use errors::HotEditError;
pub use errors::UnchangedError;
pub use resolver::resolve_editor;
pub use resolver::resolve_editor_spec;
pub use command::shell_split;
pub use command::EditorCommand;
pub use command::parse_command;
pub use session::on_editor_resolved;
pub use session::on_buffer_seeded;
pub use session::on_editor_exited;
pub use session::conclude_spec;
pub use session::lemma_noop_edit_round_trip;
pub use session::lemma_mutation_visible;
pub use session::lemma_unchanged_detected;

verus! {

/// The configuration of one edit session.
///
/// A value of this type holds no mutable state: it is created per edit
/// request and only read during the session.
pub struct HotEdit {
    /// Whether an edit that leaves the text unchanged is an error.
    pub validate_unchanged: bool,
    /// Whether to discard the scratch file on completion rather than keep
    /// it on disk.
    pub delete_temp: bool,
}

impl HotEdit {
    /// A session with the default configuration: a no-op edit is accepted,
    /// and the scratch file is discarded.
    pub fn new() -> (r: HotEdit)
        ensures
            !r.validate_unchanged,
            r.delete_temp,
    {
        HotEdit { validate_unchanged: false, delete_temp: true }
    }

    /// A session with explicit configuration flags.
    pub fn with_options(validate_unchanged: bool, delete_temp: bool) -> (r: HotEdit)
        ensures
            r.validate_unchanged == validate_unchanged,
            r.delete_temp == delete_temp,
    {
        HotEdit { validate_unchanged, delete_temp }
    }

    /// Whether the scratch file is to be kept on disk when the session ends.
    pub fn keep_scratch(&self) -> (r: bool)
        ensures
            r == !self.delete_temp,
    {
        !self.delete_temp
    }
}

impl Default for HotEdit {
    fn default() -> (r: Self)
        ensures
            !r.validate_unchanged,
            r.delete_temp,
    {
        Self::new()
    }
}

} // verus!
