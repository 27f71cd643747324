use agent_sessions::gitinfo::{
    branch_name, dirty_status, get_status, is_worktree_dir, last_commit, parse_log_commits,
    GitCommitInfo,
};

#[test]
fn branch_name_plain() {
    assert_eq!(branch_name("main\n", None), "main");
}

#[test]
fn branch_name_detached_with_tag() {
    assert_eq!(branch_name("HEAD\n", Some("v1.2.3\n")), "detached:v1.2.3");
}

#[test]
fn branch_name_detached_without_tag() {
    assert_eq!(branch_name("HEAD\n", Some("  \n")), "HEAD (detached)");
    assert_eq!(branch_name("HEAD\n", None), "HEAD (detached)");
}

#[test]
fn dirty_status_counts_nonempty_lines() {
    assert_eq!(dirty_status(" M a.rs\n?? b.rs\n"), (2, true));
    assert_eq!(dirty_status(""), (0, false));
    assert_eq!(dirty_status("\n\n"), (0, false));
}

#[test]
fn last_commit_splits_hash_and_subject() {
    assert_eq!(
        last_commit("deadbeef\nfix the thing\n"),
        ("deadbeef".to_string(), "fix the thing".to_string())
    );
    assert_eq!(last_commit(""), ("".to_string(), "".to_string()));
}

#[test]
fn worktree_detection() {
    // a linked worktree: git dir differs from the common dir
    assert!(is_worktree_dir(Some("/repo/.git\n"), Some("/repo/.git/worktrees/w1\n")));
    // the main checkout
    assert!(!is_worktree_dir(Some(".git\n"), Some(".git\n")));
    // probe failed entirely
    assert!(!is_worktree_dir(None, Some(".git")));
}

#[test]
fn get_status_assembles_all_fields() {
    let st = get_status(
        "main\n",
        None,
        " M src/lib.rs\n",
        "cafebabe\ninitial import\n",
        Some(".git\n"),
        Some(".git\n"),
    );
    assert_eq!(st.branch, "main");
    assert!(st.is_dirty);
    assert_eq!(st.dirty_file_count, 1);
    assert_eq!(st.last_commit_hash, "cafebabe");
    assert_eq!(st.last_commit_message, "initial import");
    assert!(!st.is_worktree);
}

#[test]
fn parse_log_commits_chunks_of_five() {
    let out = "h1\ns1\nm1\na1\nd1\nh2\ns2\nm2\na2\nd2\n";
    let commits = parse_log_commits(out);
    assert_eq!(
        commits,
        vec![
            GitCommitInfo {
                hash: "h1".to_string(),
                short_hash: "s1".to_string(),
                message: "m1".to_string(),
                author: "a1".to_string(),
                date: "d1".to_string(),
            },
            GitCommitInfo {
                hash: "h2".to_string(),
                short_hash: "s2".to_string(),
                message: "m2".to_string(),
                author: "a2".to_string(),
                date: "d2".to_string(),
            },
        ]
    );
}

#[test]
fn parse_log_commits_drops_partial_group() {
    assert_eq!(parse_log_commits("h1\ns1\nm1\n"), vec![]);
}
