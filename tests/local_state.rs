use repo_sync::probe::{probe_local_state, ConflictReason, LocalState, PathKind};

#[test]
fn missing_path_is_absent() {
    assert!(matches!(probe_local_state(PathKind::Missing), LocalState::Absent));
}

#[test]
fn regular_file_is_a_conflict() {
    assert!(matches!(
        probe_local_state(PathKind::NotDirectory),
        LocalState::Conflict(ConflictReason::NotADirectory)
    ));
}

#[test]
fn directory_is_present() {
    assert!(matches!(probe_local_state(PathKind::Directory), LocalState::PresentAsDirectory));
}

#[test]
fn stat_error_is_a_conflict_with_its_message() {
    match probe_local_state(PathKind::Unreadable("permission denied".to_string())) {
        LocalState::Conflict(ConflictReason::StatFailed(msg)) => assert_eq!(msg, "permission denied"),
        _ => panic!("expected a conflict"),
    }
}
