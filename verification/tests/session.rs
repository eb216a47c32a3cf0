//! The session transition functions and the configuration type.

use hotedit::HotEdit;
use hotedit::HotEditError;
use hotedit::on_buffer_seeded;
use hotedit::on_editor_exited;
use hotedit::on_editor_resolved;

#[test]
fn new_has_default_flags() {
    let he = HotEdit::new();
    assert!(!he.validate_unchanged);
    assert!(he.delete_temp);
}

#[test]
fn default_matches_new() {
    let he = HotEdit::default();
    assert!(!he.validate_unchanged);
    assert!(he.delete_temp);
}

#[test]
fn scratch_is_kept_exactly_when_deletion_is_off() {
    assert!(!HotEdit::with_options(false, true).keep_scratch());
    assert!(HotEdit::with_options(false, false).keep_scratch());
}

#[test]
fn resolver_failure_is_terminal() {
    let e = on_editor_resolved(Err("no editor today".to_string())).unwrap_err();
    assert!(matches!(e, HotEditError::EditorResolutionFailed(_)));
    assert_eq!(e.message(), "no editor today");
}

#[test]
fn resolved_command_is_tokenized() {
    let cmd = on_editor_resolved(Ok("vim -c \"set ft=txt\"".to_string())).unwrap();
    let tokens: Vec<String> = cmd.tokens().clone();
    assert_eq!(tokens, vec!["vim".to_string(), "-c".to_string(), "set ft=txt".to_string()]);
}

#[test]
fn resolved_garbage_is_invalid_command() {
    let e = on_editor_resolved(Ok("\"unbalanced".to_string())).unwrap_err();
    assert!(matches!(e, HotEditError::InvalidEditorCommand(_)));
}

#[test]
fn seeding_failure_is_terminal() {
    let e = on_buffer_seeded(Err("disk full".to_string())).unwrap_err();
    assert!(matches!(e, HotEditError::BufferCreationFailed(_)));
    assert_eq!(e.message(), "disk full");
}

#[test]
fn seeded_path_is_carried_on() {
    let p = on_buffer_seeded(Ok("/tmp/x.hotedit".to_string())).unwrap();
    assert_eq!(p, "/tmp/x.hotedit");
}

#[test]
fn spawn_failure_is_terminal() {
    let e = on_editor_exited(Err("no such program".to_string())).unwrap_err();
    assert!(matches!(e, HotEditError::LaunchFailed(_)));
    assert_eq!(e.message(), "no such program");
}

#[test]
fn nonzero_exit_status_is_tolerated() {
    assert_eq!(on_editor_exited(Ok(Some(1))).unwrap(), Some(1));
    assert_eq!(on_editor_exited(Ok(Some(0))).unwrap(), Some(0));
    assert_eq!(on_editor_exited(Ok(None)).unwrap(), None);
}

#[test]
fn noop_edit_round_trips() {
    let he = HotEdit::new();
    let initial = "line one\nline two\n".to_string();
    let out = he.on_buffer_harvested(&initial, Ok(initial.clone())).unwrap();
    assert_eq!(out, initial);
}

#[test]
fn mutation_is_visible() {
    let he = HotEdit::new();
    let initial = "text".to_string();
    let edited = format!("{}!", initial);
    let out = he.on_buffer_harvested(&initial, Ok(edited.clone())).unwrap();
    assert_eq!(out, "text!");
}

#[test]
fn unchanged_edit_fails_when_validated() {
    let he = HotEdit::with_options(true, true);
    let initial = "same".to_string();
    let e = he.on_buffer_harvested(&initial, Ok(initial.clone())).unwrap_err();
    assert!(matches!(e, HotEditError::Unchanged(_)));
    assert_eq!(e.message(), "editing operation did not change the contents");
}

#[test]
fn unchanged_edit_succeeds_without_validation() {
    let he = HotEdit::with_options(false, true);
    let initial = "same".to_string();
    let out = he.on_buffer_harvested(&initial, Ok(initial.clone())).unwrap();
    assert_eq!(out, initial);
}

#[test]
fn changed_edit_passes_validation() {
    let he = HotEdit::with_options(true, true);
    let initial = "before".to_string();
    let out = he.on_buffer_harvested(&initial, Ok("after".to_string())).unwrap();
    assert_eq!(out, "after");
}

#[test]
fn harvest_failure_is_terminal() {
    let he = HotEdit::new();
    let e = he
        .on_buffer_harvested(&"x".to_string(), Err("stream did not contain valid UTF-8".to_string()))
        .unwrap_err();
    assert!(matches!(e, HotEditError::HarvestFailed(_)));
    assert_eq!(e.message(), "stream did not contain valid UTF-8");
}

#[test]
fn empty_initial_text_round_trips() {
    let he = HotEdit::new();
    let out = he.on_buffer_harvested(&String::new(), Ok(String::new())).unwrap();
    assert_eq!(out, "");
}
