//! The edit-session state machine.
//!
//! A session moves through the linear states resolving the editor, seeding
//! the scratch buffer, launching the editor, harvesting the buffer, and
//! validating the result, with every failure terminal. The caller performs
//! the file and process work of each step and hands its outcome to the
//! matching transition function below, which decides how the session goes
//! on; the types of the outcomes tie each transition to its state.

use vstd::prelude::*;
use crate::HotEdit;
use crate::command::EditorCommand;
use crate::command::parse_command;
use crate::command::shell_split;
use crate::errors::HotEditError;
use crate::errors::UnchangedError;

verus! {

/// Move past the resolving state: a resolver failure is terminal as
/// `EditorResolutionFailed`, and a resolved string is tokenized, with a
/// tokenization failure terminal as `InvalidEditorCommand`.
pub fn on_editor_resolved(resolved: Result<String, String>) -> (r: Result<
    EditorCommand,
    HotEditError,
>)
    ensures
        resolved matches Err(m) ==> r == Err::<EditorCommand, HotEditError>(
            HotEditError::EditorResolutionFailed(m),
        ),
        resolved matches Ok(s) ==> {
            &&& r is Ok <==> (shell_split(s@) matches Some(t) && t.len() > 0)
            &&& (r matches Ok(cmd) ==> cmd@ == shell_split(s@)->0)
            &&& (shell_split(s@) is None ==> (r matches Err(e)
                && e matches HotEditError::InvalidEditorCommand(m)
                && m@ == "couldn't split editor args"@))
            &&& ((shell_split(s@) matches Some(t) && t.len() == 0) ==> (r matches Err(e)
                && e matches HotEditError::InvalidEditorCommand(m)
                && m@ == "empty command string"@))
        },
{
    match resolved {
        Ok(s) => parse_command(s.as_str()),
        Err(m) => Err(HotEditError::EditorResolutionFailed(m)),
    }
}

/// Move past the seeding state: a failure to create or seed the scratch
/// buffer is terminal as `BufferCreationFailed`; on success the session
/// carries the buffer's path on to the launch.
pub fn on_buffer_seeded(seeded: Result<String, String>) -> (r: Result<String, HotEditError>)
    ensures
        seeded matches Ok(path) ==> r == Ok::<String, HotEditError>(path),
        seeded matches Err(m) ==> r == Err::<String, HotEditError>(
            HotEditError::BufferCreationFailed(m),
        ),
{
    match seeded {
        Ok(path) => Ok(path),
        Err(m) => Err(HotEditError::BufferCreationFailed(m)),
    }
}

/// Move past the launching state: only a failure to spawn the editor is
/// terminal, as `LaunchFailed`. An editor that ran and exited never fails
/// the session here, whatever its exit status: the status is handed back as
/// metadata (`None` where the platform reported no code), and the buffer is
/// still harvested.
pub fn on_editor_exited(outcome: Result<Option<i32>, String>) -> (r: Result<
    Option<i32>,
    HotEditError,
>)
    ensures
        outcome matches Ok(status) ==> r == Ok::<Option<i32>, HotEditError>(status),
        outcome matches Err(m) ==> r == Err::<Option<i32>, HotEditError>(
            HotEditError::LaunchFailed(m),
        ),
{
    match outcome {
        Ok(status) => Ok(status),
        Err(m) => Err(HotEditError::LaunchFailed(m)),
    }
}

/// What validation makes of a harvested text: `None` where the session must
/// fail because unchanged-validation is on and the edit was a no-op, and
/// otherwise the text that the session returns.
pub open spec fn conclude_spec(
    initial: Seq<char>,
    harvested: Seq<char>,
    validate_unchanged: bool,
) -> Option<Seq<char>> {
    if validate_unchanged && harvested == initial {
        None
    } else {
        Some(harvested)
    }
}

impl HotEdit {
    /// Move past the harvesting and validating states: a failure to reread,
    /// decode or dispose of the scratch buffer is terminal as
    /// `HarvestFailed`; a harvested text byte-identical to the initial one
    /// is terminal as `Unchanged` when `validate_unchanged` is set; any
    /// other harvested text is the session's successful result.
    pub fn on_buffer_harvested(&self, initial: &String, harvested: Result<String, String>) -> (r:
        Result<String, HotEditError>)
        ensures
            harvested matches Err(m) ==> r == Err::<String, HotEditError>(
                HotEditError::HarvestFailed(m),
            ),
            harvested matches Ok(t) ==> match conclude_spec(
                initial@,
                t@,
                self.validate_unchanged,
            ) {
                Some(out) => r == Ok::<String, HotEditError>(t) && out == t@,
                None => r == Err::<String, HotEditError>(
                    HotEditError::Unchanged(UnchangedError),
                ),
            },
    {
        match harvested {
            Ok(t) => {
                if self.validate_unchanged && *initial == t {
                    Err(HotEditError::Unchanged(UnchangedError))
                } else {
                    Ok(t)
                }
            },
            Err(m) => Err(HotEditError::HarvestFailed(m)),
        }
    }
}

/// A no-op edit is returned exactly: with unchanged-validation off, a
/// harvested text equal to the initial text is the session's result,
/// unaltered.
pub proof fn lemma_noop_edit_round_trip(t: Seq<char>)
    ensures
        conclude_spec(t, t, false) == Some(t),
{
}

/// An editor's change is visible: a harvested text that differs from the
/// initial one (here, the initial text with one character appended) is
/// returned exactly as harvested, whether or not unchanged-validation is
/// on.
pub proof fn lemma_mutation_visible(t: Seq<char>, c: char, validate_unchanged: bool)
    ensures
        conclude_spec(t, t.push(c), validate_unchanged) == Some(t.push(c)),
{
    assert(t.push(c).len() == t.len() + 1);
}

/// A no-op edit is detected exactly when asked for: with
/// unchanged-validation on, an unchanged text fails the session, and with
/// it off the same text is returned as the result.
pub proof fn lemma_unchanged_detected(t: Seq<char>)
    ensures
        conclude_spec(t, t, true) is None,
        conclude_spec(t, t, false) == Some(t),
{
}

} // verus!
