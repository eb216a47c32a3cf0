//! Editor-resolution priority.

use hotedit::resolve_editor;

#[test]
fn git_config_wins_over_both_variables() {
    let r = resolve_editor(
        Some("nano -w".to_string()),
        Some("code --wait".to_string()),
        Some("emacs".to_string()),
    );
    assert_eq!(r, "nano -w");
}

#[test]
fn editor_variable_wins_without_git_config() {
    let r = resolve_editor(None, Some("code --wait".to_string()), Some("emacs".to_string()));
    assert_eq!(r, "code --wait");
}

#[test]
fn visual_variable_wins_without_editor() {
    let r = resolve_editor(None, None, Some("emacs".to_string()));
    assert_eq!(r, "emacs");
}

#[test]
fn fallback_is_vi() {
    let r = resolve_editor(None, None, None);
    assert_eq!(r, "vi");
}

#[test]
fn empty_git_value_is_skipped() {
    let r = resolve_editor(Some(String::new()), Some("code".to_string()), None);
    assert_eq!(r, "code");
}

#[test]
fn empty_editor_variable_still_counts_as_present() {
    let r = resolve_editor(None, Some(String::new()), Some("emacs".to_string()));
    assert_eq!(r, "");
}
