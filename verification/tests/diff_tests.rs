use agent_sessions::diff::{
    detect_language, get_diff, get_file_diff_content, get_worktree_diff, DiffFile,
};
use agent_sessions::worktree::list_worktrees;

#[test]
fn get_diff_builds_files_and_totals() {
    let numstat = "3\t1\tsrc/a.rs\n10\t0\tREADME.md\n";
    let name_status = "M\tsrc/a.rs\nA\tREADME.md\n";
    let d = get_diff("RAW".to_string(), numstat, name_status);
    assert_eq!(
        d.files,
        vec![
            DiffFile {
                path: "src/a.rs".to_string(),
                status: "modified".to_string(),
                additions: 3,
                deletions: 1,
            },
            DiffFile {
                path: "README.md".to_string(),
                status: "added".to_string(),
                additions: 10,
                deletions: 0,
            },
        ]
    );
    assert_eq!(d.total_additions, 13);
    assert_eq!(d.total_deletions, 1);
    assert_eq!(d.raw_diff, "RAW");
}

#[test]
fn get_diff_binary_file_counts_as_zero() {
    let d = get_diff(String::new(), "-\t-\timg.png\n", "A\timg.png\n");
    assert_eq!(d.files.len(), 1);
    assert_eq!(d.files[0].additions, 0);
    assert_eq!(d.files[0].deletions, 0);
    assert_eq!(d.files[0].status, "added");
}

#[test]
fn get_diff_statuses_deleted_and_renamed() {
    let numstat = "0\t4\tgone.rs\n1\t1\tnew_name.rs\n2\t2\tmystery.rs\n";
    let name_status = "D\tgone.rs\nR100\tnew_name.rs\n";
    let d = get_diff(String::new(), numstat, name_status);
    assert_eq!(d.files[0].status, "deleted");
    assert_eq!(d.files[1].status, "renamed");
    // a path missing from the name-status map falls back to modified
    assert_eq!(d.files[2].status, "modified");
}

#[test]
fn get_diff_skips_short_lines() {
    let d = get_diff(String::new(), "notabs\n", "");
    assert_eq!(d.files, vec![]);
    assert_eq!(d.total_additions, 0);
}

#[test]
fn get_worktree_diff_matches_get_diff() {
    let a = get_worktree_diff("R".to_string(), "1\t2\tf\n", "M\tf\n");
    let b = get_diff("R".to_string(), "1\t2\tf\n", "M\tf\n");
    assert_eq!(a, b);
}

#[test]
fn detect_language_cases() {
    assert_eq!(detect_language("src/main.rs"), "rust");
    assert_eq!(detect_language("a/b/app.tsx"), "typescript");
    assert_eq!(detect_language("x.tar.gz"), "plaintext");
    assert_eq!(detect_language("Makefile"), "plaintext");
    assert_eq!(detect_language("notes.md"), "markdown");
    assert_eq!(detect_language("run.sh"), "shell");
    assert_eq!(detect_language("main.cc"), "cpp");
}

#[test]
fn file_diff_content_pairs_sides() {
    let c = get_file_diff_content("src/x.py", "old".to_string(), "new".to_string());
    assert_eq!(c.file_path, "src/x.py");
    assert_eq!(c.original, "old");
    assert_eq!(c.modified, "new");
    assert_eq!(c.language, "python");
}

#[test]
fn list_worktrees_reads_porcelain() {
    let out = "worktree /repo\nHEAD deadbeef\nbranch refs/heads/main\n\nworktree /wt/s1\nHEAD cafebabe\ndetached\n";
    assert_eq!(list_worktrees(out), vec!["/repo".to_string(), "/wt/s1".to_string()]);
    assert_eq!(list_worktrees(""), Vec::<String>::new());
}
