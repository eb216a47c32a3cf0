//! Editor discovery.
//!
//! The default resolution chain tries, in strict priority order: the
//! `core.editor` value of the caller's git configuration, the `EDITOR`
//! environment variable, the `VISUAL` environment variable, and finally the
//! fixed fallback command `vi`. Reading the configuration and the
//! environment is the caller's work; the decision among the readings is
//! made here.

use vstd::prelude::*;

verus! {

/// Which command [`resolve_editor`] picks from the three readings.
///
/// The git configuration value wins when it is present and non-empty; the
/// environment variables win on mere presence, `EDITOR` before `VISUAL`;
/// with no signal at all the fallback `vi` is chosen. Resolution never
/// fails.
pub open spec fn resolve_editor_spec(
    git_editor: Option<Seq<char>>,
    editor_var: Option<Seq<char>>,
    visual_var: Option<Seq<char>>,
) -> Seq<char> {
    if git_editor is Some && git_editor->0.len() > 0 {
        git_editor->0
    } else if editor_var is Some {
        editor_var->0
    } else if visual_var is Some {
        visual_var->0
    } else {
        "vi"@
    }
}

/// Decide which editor command to use, given the `core.editor` git
/// configuration value and the `EDITOR` and `VISUAL` environment variables,
/// each `None` where absent.
pub fn resolve_editor(
    git_editor: Option<String>,
    editor_var: Option<String>,
    visual_var: Option<String>,
) -> (r: String)
    ensures
        r@ == resolve_editor_spec(
            git_editor.deep_view(),
            editor_var.deep_view(),
            visual_var.deep_view(),
        ),
{
    match git_editor {
        Some(g) => {
            if !g.as_str().is_empty() {
                return g;
            }
        },
        None => {},
    }
    match editor_var {
        Some(e) => e,
        None => match visual_var {
            Some(v) => v,
            None => "vi".to_owned(),
        },
    }
}

} // verus!
