use handy::bindings::{find_action, is_post_process_binding, is_transcribe_binding, ShortcutKind};

#[test]
fn transcribe_bindings_are_recognised() {
    assert!(is_transcribe_binding("transcribe"));
    assert!(is_transcribe_binding("transcribe_with_post_process"));
    assert!(!is_transcribe_binding("cancel"));
    assert!(!is_transcribe_binding("test"));
    assert!(!is_transcribe_binding(""));
    assert!(!is_transcribe_binding("Transcribe"));
    assert!(!is_transcribe_binding("transcribe "));
}

#[test]
fn only_one_binding_post_processes() {
    assert!(is_post_process_binding("transcribe_with_post_process"));
    assert!(!is_post_process_binding("transcribe"));
    assert!(!is_post_process_binding("cancel"));
}

#[test]
fn actions_are_found_by_binding() {
    assert_eq!(find_action("cancel"), Some(ShortcutKind::Cancel));
    assert_eq!(find_action("test"), Some(ShortcutKind::Test));
    assert_eq!(find_action("other"), None);
    assert_eq!(find_action(""), None);
}

#[test]
fn pipeline_bindings_have_no_action() {
    assert_eq!(find_action("transcribe"), None);
    assert_eq!(find_action("transcribe_with_post_process"), None);
}
