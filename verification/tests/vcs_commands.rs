use zps::vcs::{jj_commit_changes, jj_init_repository};

#[test]
fn init_runs_init_then_initial_commit() {
    let cmds = jj_init_repository(false, false);
    assert_eq!(cmds.len(), 2);
    assert_eq!(cmds[0], vec!["git".to_string(), "init".to_string()]);
    assert_eq!(
        cmds[1],
        vec![
            "commit".to_string(),
            "-m".to_string(),
            "Initial commit: Initialize password store".to_string()
        ]
    );
}

#[test]
fn init_skips_existing_repository() {
    assert!(jj_init_repository(true, false).is_empty());
    assert!(jj_init_repository(false, true).is_empty());
    assert!(jj_init_repository(true, true).is_empty());
}

#[test]
fn commit_builds_argument_vector() {
    let cmd = jj_commit_changes(true, "Add entry work/email").unwrap();
    assert_eq!(
        cmd,
        vec!["commit".to_string(), "-m".to_string(), "Add entry work/email".to_string()]
    );
}

#[test]
fn commit_refused_outside_repository() {
    assert!(jj_commit_changes(false, "whatever").is_none());
}
