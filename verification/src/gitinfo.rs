//! Git status for a directory, computed from the output text of the four
//! porcelain probes.  Running `git` is process I/O and stays with the
//! caller; everything decided from what the probes printed is here.

use vstd::prelude::*;

use crate::text::{lines, spec_lines, spec_trim, str_eq, trim};

verus! {

/// Git status of a project or worktree directory.
#[derive(Debug, Clone, PartialEq)]
pub struct GitStatus {
    pub branch: String,
    pub is_dirty: bool,
    pub dirty_file_count: usize,
    pub last_commit_message: String,
    pub last_commit_hash: String,
    pub is_worktree: bool,
}

/// Mathematical image of a [`GitStatus`].
pub struct GitStatusV {
    pub branch: Seq<char>,
    pub is_dirty: bool,
    pub dirty_file_count: usize,
    pub last_commit_message: Seq<char>,
    pub last_commit_hash: Seq<char>,
    pub is_worktree: bool,
}

impl View for GitStatus {
    type V = GitStatusV;

    open spec fn view(&self) -> GitStatusV {
        GitStatusV {
            branch: self.branch@,
            is_dirty: self.is_dirty,
            dirty_file_count: self.dirty_file_count,
            last_commit_message: self.last_commit_message@,
            last_commit_hash: self.last_commit_hash@,
            is_worktree: self.is_worktree,
        }
    }
}

/// The branch name derived from `git rev-parse --abbrev-ref HEAD` and, for
/// a detached head, from `git describe --tags --always` when that ran.
pub open spec fn spec_branch_name(rev_parse_out: Seq<char>, describe_out: Option<Seq<char>>) -> Seq<
    char,
> {
    let b = spec_trim(rev_parse_out);
    if b == "HEAD"@ {
        match describe_out {
            Some(d) => {
                let tag = spec_trim(d);
                if tag.len() > 0 {
                    "detached:"@ + tag
                } else {
                    "HEAD (detached)"@
                }
            },
            None => "HEAD (detached)"@,
        }
    } else {
        b
    }
}

/// Derive the branch name; `describe_out` is the output of the fallback
/// probe, absent when that command could not be run.
pub fn branch_name(rev_parse_out: &str, describe_out: Option<&str>) -> (r: String)
    ensures
        r@ == spec_branch_name(rev_parse_out@, match describe_out {
            Some(d) => Some(d@),
            None => None,
        }),
{
    let b = trim(rev_parse_out);
    if str_eq(b, "HEAD") {
        match describe_out {
            Some(d) => {
                let tag = trim(d);
                if !tag.is_empty() {
                    let mut r = String::from_str("detached:");
                    r.append(tag);
                    r
                } else {
                    String::from_str("HEAD (detached)")
                }
            },
            None => String::from_str("HEAD (detached)"),
        }
    } else {
        b.to_owned()
    }
}

/// How many of a sequence of lines are non-empty.
pub open spec fn count_nonempty(s: Seq<Seq<char>>) -> int
    decreases s.len(),
{
    if s.len() == 0 {
        0
    } else {
        count_nonempty(s.drop_last()) + if s.last().len() > 0 {
            1int
        } else {
            0int
        }
    }
}

proof fn lemma_count_nonempty_bound(s: Seq<Seq<char>>)
    ensures
        0 <= count_nonempty(s) <= s.len(),
    decreases s.len(),
{
    if s.len() > 0 {
        lemma_count_nonempty_bound(s.drop_last());
    }
}

/// The dirty-file count and flag from `git status --porcelain`: one line
/// per dirty file.
pub fn dirty_status(porcelain_out: &str) -> (r: (usize, bool))
    ensures
        r.0 == count_nonempty(spec_lines(porcelain_out@)),
        r.1 == (count_nonempty(spec_lines(porcelain_out@)) > 0),
{
    let ls = lines(porcelain_out);
    let ghost full = ls.deep_view();
    let mut count: usize = 0;
    let mut k: usize = 0;
    while k < ls.len()
        invariant
            0 <= k <= ls.len(),
            ls.deep_view() == full,
            count == count_nonempty(full.subrange(0, k as int)),
            count <= k,
        decreases ls.len() - k,
    {
        proof {
            assert(full.subrange(0, k + 1).drop_last() =~= full.subrange(0, k as int));
            assert(full[k as int] == ls@[k as int]@);
        }
        if !ls[k].as_str().is_empty() {
            count = count + 1;
        }
        k = k + 1;
    }
    proof {
        assert(full.subrange(0, full.len() as int) =~= full);
    }
    (count, count > 0)
}

/// The hash and subject of the last commit, from
/// `git log -1 --format=%H%n%s`: its first two output lines, empty when
/// missing.
pub open spec fn spec_last_commit(log_out: Seq<char>) -> (Seq<char>, Seq<char>) {
    let ls = spec_lines(log_out);
    (
        if ls.len() > 0 {
            ls[0]
        } else {
            Seq::empty()
        },
        if ls.len() > 1 {
            ls[1]
        } else {
            Seq::empty()
        },
    )
}

/// The last commit's hash and subject line.
pub fn last_commit(log_out: &str) -> (r: (String, String))
    ensures
        r.0@ == spec_last_commit(log_out@).0,
        r.1@ == spec_last_commit(log_out@).1,
{
    let ls = lines(log_out);
    let hash = if ls.len() > 0 {
        ls[0].clone()
    } else {
        String::new()
    };
    let message = if ls.len() > 1 {
        ls[1].clone()
    } else {
        String::new()
    };
    proof {
        if ls.deep_view().len() > 0 {
            assert(ls@[0]@ == ls.deep_view()[0]);
        }
        if ls.deep_view().len() > 1 {
            assert(ls@[1]@ == ls.deep_view()[1]);
        }
    }
    (hash, message)
}

/// Whether the directory is a linked worktree: its git dir differs from the
/// common git dir and is not plain `.git`.  `common_dir_out` absent (the
/// probe could not run) counts as not a worktree; `git_dir_out` absent
/// counts as an empty answer, as the original probes treat a failure.
pub open spec fn spec_is_worktree(
    common_dir_out: Option<Seq<char>>,
    git_dir_out: Option<Seq<char>>,
) -> bool {
    match common_dir_out {
        None => false,
        Some(c) => {
            let common = spec_trim(c);
            let gd = match git_dir_out {
                Some(g) => spec_trim(g),
                None => Seq::empty(),
            };
            common != gd && gd != ".git"@
        },
    }
}

/// Decide the worktree question from the two `git rev-parse` outputs.
pub fn is_worktree_dir(common_dir_out: Option<&str>, git_dir_out: Option<&str>) -> (r: bool)
    ensures
        r == spec_is_worktree(
            match common_dir_out {
                Some(c) => Some(c@),
                None => None,
            },
            match git_dir_out {
                Some(g) => Some(g@),
                None => None,
            },
        ),
{
    match common_dir_out {
        None => false,
        Some(c) => {
            let common = trim(c);
            let gd = match git_dir_out {
                Some(g) => trim(g),
                None => "",
            };
            proof {
                reveal_strlit("");
                assert(""@ =~= Seq::<char>::empty());
            }
            !str_eq(common, gd) && !str_eq(gd, ".git")
        },
    }
}

/// One commit entry for the restore dialog.
#[derive(Debug, Clone, PartialEq)]
pub struct GitCommitInfo {
    pub hash: String,
    pub short_hash: String,
    pub message: String,
    pub author: String,
    pub date: String,
}

/// Mathematical image of a [`GitCommitInfo`].
pub struct GitCommitInfoV {
    pub hash: Seq<char>,
    pub short_hash: Seq<char>,
    pub message: Seq<char>,
    pub author: Seq<char>,
    pub date: Seq<char>,
}

impl View for GitCommitInfo {
    type V = GitCommitInfoV;

    open spec fn view(&self) -> GitCommitInfoV {
        GitCommitInfoV {
            hash: self.hash@,
            short_hash: self.short_hash@,
            message: self.message@,
            author: self.author@,
            date: self.date@,
        }
    }
}

impl DeepView for GitCommitInfo {
    type V = GitCommitInfoV;

    open spec fn deep_view(&self) -> GitCommitInfoV {
        self.view()
    }
}

/// The commits of a log printed five lines apiece (hash, short hash,
/// subject, author, date); a trailing partial group is dropped.
pub open spec fn spec_log_commits(ls: Seq<Seq<char>>) -> Seq<GitCommitInfoV>
    decreases ls.len(),
{
    if ls.len() < 5 {
        Seq::empty()
    } else {
        seq![
            GitCommitInfoV {
                hash: ls[0],
                short_hash: ls[1],
                message: ls[2],
                author: ls[3],
                date: ls[4],
            },
        ] + spec_log_commits(ls.skip(5))
    }
}

/// Parse the output of a log run with the five-line commit format.
pub fn parse_log_commits(log_out: &str) -> (r: Vec<GitCommitInfo>)
    ensures
        r.deep_view() == spec_log_commits(spec_lines(log_out@)),
{
    let ls = lines(log_out);
    let ghost full = ls.deep_view();
    let mut out: Vec<GitCommitInfo> = Vec::new();
    proof {
        assert(full.skip(0) =~= full);
        assert(out.deep_view() =~~= Seq::<GitCommitInfoV>::empty());
    }
    let mut i: usize = 0;
    while ls.len() - i >= 5
        invariant
            0 <= i <= ls.len(),
            ls.deep_view() == full,
            spec_log_commits(full) == out.deep_view() + spec_log_commits(full.skip(i as int)),
        decreases ls.len() - i,
    {
        let c = GitCommitInfo {
            hash: ls[i].clone(),
            short_hash: ls[i + 1].clone(),
            message: ls[i + 2].clone(),
            author: ls[i + 3].clone(),
            date: ls[i + 4].clone(),
        };
        let ghost out0 = out.deep_view();
        out.push(c);
        proof {
            assert(forall|j: int| 0 <= j < 5 ==> full.skip(i as int)[j] == full[i + j]);
            assert(forall|j: int| i <= j < i + 5 ==> full[j] == ls@[j]@);
            assert(full.skip(i as int).skip(5) =~= full.skip(i + 5));
            assert(out.deep_view() =~~= out0.push(c@));
            assert(out.deep_view() + spec_log_commits(full.skip(i + 5)) =~~= out0
                + spec_log_commits(full.skip(i as int)));
        }
        i = i + 5;
    }
    proof {
        assert(spec_log_commits(full.skip(i as int)) =~~= Seq::<GitCommitInfoV>::empty());
        assert(out.deep_view() =~~= spec_log_commits(full));
    }
    out
}

/// Assemble the status of a directory from the outputs of the four probes:
/// branch (with its describe fallback), porcelain status, last-commit log,
/// and the two rev-parse answers for the worktree question.
pub fn get_status(
    branch_out: &str,
    describe_out: Option<&str>,
    porcelain_out: &str,
    log_out: &str,
    common_dir_out: Option<&str>,
    git_dir_out: Option<&str>,
) -> (r: GitStatus)
    ensures
        r@.branch == spec_branch_name(branch_out@, match describe_out {
            Some(d) => Some(d@),
            None => None,
        }),
        r@.dirty_file_count == count_nonempty(spec_lines(porcelain_out@)),
        r@.is_dirty == (count_nonempty(spec_lines(porcelain_out@)) > 0),
        r@.last_commit_hash == spec_last_commit(log_out@).0,
        r@.last_commit_message == spec_last_commit(log_out@).1,
        r@.is_worktree == spec_is_worktree(
            match common_dir_out {
                Some(c) => Some(c@),
                None => None,
            },
            match git_dir_out {
                Some(g) => Some(g@),
                None => None,
            },
        ),
{
    let branch = branch_name(branch_out, describe_out);
    let (dirty_count, is_dirty) = dirty_status(porcelain_out);
    let (hash, message) = last_commit(log_out);
    let is_worktree = is_worktree_dir(common_dir_out, git_dir_out);
    GitStatus {
        branch,
        is_dirty,
        dirty_file_count: dirty_count,
        last_commit_message: message,
        last_commit_hash: hash,
        is_worktree,
    }
}

} // verus!
