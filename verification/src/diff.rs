//! Diff summaries computed from the output text of the `git diff` probes,
//! and the language detection for the diff viewer.  Running `git` and
//! reading files is the caller's; every decision made from the probe
//! output is here.

use vstd::prelude::*;

use crate::registry::Registry;
use crate::text::{
    all_digits, digits_value, lines, lemma_split_nonempty, parse_usize_or_zero, spec_lines,
    spec_split, split_char, str_eq,
};

verus! {

/// One file's part in a diff.
#[derive(Debug, Clone, PartialEq)]
pub struct DiffFile {
    pub path: String,
    /// `added`, `deleted`, `renamed` or `modified`.
    pub status: String,
    pub additions: usize,
    pub deletions: usize,
}

/// Mathematical image of a [`DiffFile`].
pub struct DiffFileV {
    pub path: Seq<char>,
    pub status: Seq<char>,
    pub additions: usize,
    pub deletions: usize,
}

impl View for DiffFile {
    type V = DiffFileV;

    open spec fn view(&self) -> DiffFileV {
        DiffFileV {
            path: self.path@,
            status: self.status@,
            additions: self.additions,
            deletions: self.deletions,
        }
    }
}

impl DeepView for DiffFile {
    type V = DiffFileV;

    open spec fn deep_view(&self) -> DiffFileV {
        self.view()
    }
}

/// Changes in a directory against a base reference.
#[derive(Debug, Clone, PartialEq)]
pub struct DiffSummary {
    pub files: Vec<DiffFile>,
    pub total_additions: usize,
    pub total_deletions: usize,
    pub raw_diff: String,
}

/// Mathematical image of a [`DiffSummary`].
pub struct DiffSummaryV {
    pub files: Seq<DiffFileV>,
    pub total_additions: usize,
    pub total_deletions: usize,
    pub raw_diff: Seq<char>,
}

impl View for DiffSummary {
    type V = DiffSummaryV;

    open spec fn view(&self) -> DiffSummaryV {
        DiffSummaryV {
            files: self.files.deep_view(),
            total_additions: self.total_additions,
            total_deletions: self.total_deletions,
            raw_diff: self.raw_diff@,
        }
    }
}

/// The status word for the first field of a `--name-status` line.
pub open spec fn spec_status_word(field: Seq<char>) -> Seq<char> {
    if field.len() > 0 && field[0] == 'A' {
        "added"@
    } else if field.len() > 0 && field[0] == 'D' {
        "deleted"@
    } else if field.len() > 0 && field[0] == 'R' {
        "renamed"@
    } else {
        "modified"@
    }
}

fn status_word(field: &str) -> (r: String)
    ensures
        r@ == spec_status_word(field@),
{
    if field.is_empty() {
        return String::from_str("modified");
    }
    let c = field.get_char(0);
    if c == 'A' {
        String::from_str("added")
    } else if c == 'D' {
        String::from_str("deleted")
    } else if c == 'R' {
        String::from_str("renamed")
    } else {
        String::from_str("modified")
    }
}

/// The path-to-status map described by the `--name-status` lines; a later
/// line for the same path wins.
pub open spec fn spec_status_map(ls: Seq<Seq<char>>) -> Map<Seq<char>, Seq<char>>
    decreases ls.len(),
{
    if ls.len() == 0 {
        Map::empty()
    } else {
        let m = spec_status_map(ls.drop_last());
        let parts = spec_split(ls.last(), '\t');
        if parts.len() >= 2 {
            m.insert(parts[1], spec_status_word(parts[0]))
        } else {
            m
        }
    }
}

fn build_status_map(name_status_out: &str) -> (r: Registry<String>)
    ensures
        r.wf(),
        r@ == spec_status_map(spec_lines(name_status_out@)),
{
    let ls = lines(name_status_out);
    let ghost full = ls.deep_view();
    let mut r: Registry<String> = Registry::new();
    proof {
        assert(full.subrange(0, 0) =~= Seq::<Seq<char>>::empty());
    }
    let mut k: usize = 0;
    while k < ls.len()
        invariant
            0 <= k <= ls.len(),
            ls.deep_view() == full,
            r.wf(),
            r@ == spec_status_map(full.subrange(0, k as int)),
        decreases ls.len() - k,
    {
        proof {
            assert(full.subrange(0, k + 1).drop_last() =~= full.subrange(0, k as int));
            assert(full[k as int] == ls@[k as int]@);
        }
        let parts = split_char(ls[k].as_str(), '\t');
        proof {
            lemma_split_nonempty(full[k as int], '\t');
        }
        if parts.len() >= 2 {
            proof {
                assert(parts@[0]@ == parts.deep_view()[0]);
                assert(parts@[1]@ == parts.deep_view()[1]);
            }
            let word = status_word(parts[0].as_str());
            r.insert(parts[1].clone(), word);
        }
        k = k + 1;
    }
    proof {
        assert(full.subrange(0, full.len() as int) =~= full);
    }
    r
}

/// The number a numstat field stands for: zero for a malformed field (a
/// binary file prints `-`) or one beyond the machine's range.
pub open spec fn spec_count_field(s: Seq<char>) -> usize {
    if s.len() > 0 && all_digits(s) && digits_value(s) <= usize::MAX {
        digits_value(s) as usize
    } else {
        0
    }
}

/// The diff entry one `--numstat` line describes, if it has its three
/// tab-separated fields; the status comes from the name-status map, with
/// `modified` for a path missing there.
pub open spec fn spec_diff_file(line: Seq<char>, smap: Map<Seq<char>, Seq<char>>) -> Option<
    DiffFileV,
> {
    let parts = spec_split(line, '\t');
    if parts.len() >= 3 {
        Some(
            DiffFileV {
                path: parts[2],
                status: if smap.contains_key(parts[2]) {
                    smap[parts[2]]
                } else {
                    "modified"@
                },
                additions: spec_count_field(parts[0]),
                deletions: spec_count_field(parts[1]),
            },
        )
    } else {
        None
    }
}

/// The diff entries of all numstat lines, in order.
pub open spec fn spec_diff_files(ls: Seq<Seq<char>>, smap: Map<Seq<char>, Seq<char>>) -> Seq<
    DiffFileV,
>
    decreases ls.len(),
{
    if ls.len() == 0 {
        Seq::empty()
    } else {
        spec_diff_files(ls.drop_last(), smap) + (match spec_diff_file(ls.last(), smap) {
            Some(f) => seq![f],
            None => Seq::<DiffFileV>::empty(),
        })
    }
}

/// Addition that stops at the top of `usize` instead of wrapping.
pub open spec fn sat_add(a: int, b: int) -> int {
    if a + b > usize::MAX as int {
        usize::MAX as int
    } else {
        a + b
    }
}

/// The total of the files' addition counts, saturating.
pub open spec fn spec_total_additions(fs: Seq<DiffFileV>) -> int
    decreases fs.len(),
{
    if fs.len() == 0 {
        0
    } else {
        sat_add(spec_total_additions(fs.drop_last()), fs.last().additions as int)
    }
}

/// The total of the files' deletion counts, saturating.
pub open spec fn spec_total_deletions(fs: Seq<DiffFileV>) -> int
    decreases fs.len(),
{
    if fs.len() == 0 {
        0
    } else {
        sat_add(spec_total_deletions(fs.drop_last()), fs.last().deletions as int)
    }
}

/// Assemble a diff summary from the raw unified diff and the `--numstat`
/// and `--name-status` outputs for the same base.
pub fn get_diff(raw_diff: String, numstat_out: &str, name_status_out: &str) -> (r: DiffSummary)
    ensures
        r@.files == spec_diff_files(
            spec_lines(numstat_out@),
            spec_status_map(spec_lines(name_status_out@)),
        ),
        r@.total_additions == spec_total_additions(r@.files),
        r@.total_deletions == spec_total_deletions(r@.files),
        r@.raw_diff == raw_diff@,
{
    let smap = build_status_map(name_status_out);
    let ghost smapv = smap@;
    let ls = lines(numstat_out);
    let ghost full = ls.deep_view();
    let mut files: Vec<DiffFile> = Vec::new();
    let mut total_additions: usize = 0;
    let mut total_deletions: usize = 0;
    proof {
        assert(full.subrange(0, 0) =~= Seq::<Seq<char>>::empty());
        assert(files.deep_view() =~~= spec_diff_files(full.subrange(0, 0), smapv));
    }
    let mut k: usize = 0;
    while k < ls.len()
        invariant
            0 <= k <= ls.len(),
            ls.deep_view() == full,
            smap.wf(),
            smap@ == smapv,
            files.deep_view() == spec_diff_files(full.subrange(0, k as int), smapv),
            total_additions == spec_total_additions(files.deep_view()),
            total_deletions == spec_total_deletions(files.deep_view()),
        decreases ls.len() - k,
    {
        proof {
            assert(full.subrange(0, k + 1).drop_last() =~= full.subrange(0, k as int));
            assert(full[k as int] == ls@[k as int]@);
        }
        let parts = split_char(ls[k].as_str(), '\t');
        if parts.len() >= 3 {
            proof {
                assert(parts@[0]@ == parts.deep_view()[0]);
                assert(parts@[1]@ == parts.deep_view()[1]);
                assert(parts@[2]@ == parts.deep_view()[2]);
            }
            let additions = parse_usize_or_zero(parts[0].as_str());
            let deletions = parse_usize_or_zero(parts[1].as_str());
            let status = match smap.get(parts[2].as_str()) {
                Some(w) => w.clone(),
                None => String::from_str("modified"),
            };
            let f = DiffFile { path: parts[2].clone(), status, additions, deletions };
            let ghost files0 = files.deep_view();
            files.push(f);
            total_additions = match total_additions.checked_add(additions) {
                Some(t) => t,
                None => usize::MAX,
            };
            total_deletions = match total_deletions.checked_add(deletions) {
                Some(t) => t,
                None => usize::MAX,
            };
            proof {
                assert(files.deep_view() =~~= files0.push(f@));
                assert(files.deep_view().drop_last() =~~= files0);
                assert(files.deep_view() =~~= spec_diff_files(
                    full.subrange(0, k + 1),
                    smapv,
                ));
            }
        } else {
            proof {
                assert(files.deep_view() =~~= spec_diff_files(
                    full.subrange(0, k + 1),
                    smapv,
                ));
            }
        }
        k = k + 1;
    }
    proof {
        assert(full.subrange(0, full.len() as int) =~= full);
    }
    DiffSummary { files, total_additions, total_deletions, raw_diff }
}

/// The diff a worktree preview shows: the worktree's changes against its
/// own `HEAD`, from the same three probe outputs run there.
pub fn get_worktree_diff(raw_diff: String, numstat_out: &str, name_status_out: &str) -> (r:
    DiffSummary)
    ensures
        r@.files == spec_diff_files(
            spec_lines(numstat_out@),
            spec_status_map(spec_lines(name_status_out@)),
        ),
        r@.total_additions == spec_total_additions(r@.files),
        r@.total_deletions == spec_total_deletions(r@.files),
        r@.raw_diff == raw_diff@,
{
    get_diff(raw_diff, numstat_out, name_status_out)
}

/// The extension a path's language is judged by: what follows the last dot,
/// or the whole path without one.
pub open spec fn spec_extension(path: Seq<char>) -> Seq<char> {
    spec_split(path, '.').last()
}

/// The editor language for an extension; `plaintext` for an unknown one.
pub open spec fn spec_language_of(ext: Seq<char>) -> Seq<char> {
    if ext == "rs"@ {
        "rust"@
    } else if ext == "ts"@ || ext == "tsx"@ {
        "typescript"@
    } else if ext == "js"@ || ext == "jsx"@ {
        "javascript"@
    } else if ext == "py"@ {
        "python"@
    } else if ext == "json"@ {
        "json"@
    } else if ext == "toml"@ {
        "toml"@
    } else if ext == "yaml"@ || ext == "yml"@ {
        "yaml"@
    } else if ext == "html"@ {
        "html"@
    } else if ext == "css"@ {
        "css"@
    } else if ext == "scss"@ {
        "scss"@
    } else if ext == "md"@ {
        "markdown"@
    } else if ext == "sql"@ {
        "sql"@
    } else if ext == "sh"@ || ext == "bash"@ || ext == "zsh"@ {
        "shell"@
    } else if ext == "go"@ {
        "go"@
    } else if ext == "java"@ {
        "java"@
    } else if ext == "c"@ || ext == "h"@ {
        "c"@
    } else if ext == "cpp"@ || ext == "hpp"@ || ext == "cc"@ {
        "cpp"@
    } else if ext == "rb"@ {
        "ruby"@
    } else if ext == "swift"@ {
        "swift"@
    } else if ext == "kt"@ {
        "kotlin"@
    } else {
        "plaintext"@
    }
}

/// Detect the diff viewer's language from a file path's extension.
pub fn detect_language(path: &str) -> (r: String)
    ensures
        r@ == spec_language_of(spec_extension(path@)),
{
    let parts = split_char(path, '.');
    proof {
        lemma_split_nonempty(path@, '.');
        assert(parts@[parts@.len() - 1]@ == parts.deep_view().last());
    }
    let ext = parts[parts.len() - 1].as_str();
    let r = if str_eq(ext, "rs") {
        "rust"
    } else if str_eq(ext, "ts") || str_eq(ext, "tsx") {
        "typescript"
    } else if str_eq(ext, "js") || str_eq(ext, "jsx") {
        "javascript"
    } else if str_eq(ext, "py") {
        "python"
    } else if str_eq(ext, "json") {
        "json"
    } else if str_eq(ext, "toml") {
        "toml"
    } else if str_eq(ext, "yaml") || str_eq(ext, "yml") {
        "yaml"
    } else if str_eq(ext, "html") {
        "html"
    } else if str_eq(ext, "css") {
        "css"
    } else if str_eq(ext, "scss") {
        "scss"
    } else if str_eq(ext, "md") {
        "markdown"
    } else if str_eq(ext, "sql") {
        "sql"
    } else if str_eq(ext, "sh") || str_eq(ext, "bash") || str_eq(ext, "zsh") {
        "shell"
    } else if str_eq(ext, "go") {
        "go"
    } else if str_eq(ext, "java") {
        "java"
    } else if str_eq(ext, "c") || str_eq(ext, "h") {
        "c"
    } else if str_eq(ext, "cpp") || str_eq(ext, "hpp") || str_eq(ext, "cc") {
        "cpp"
    } else if str_eq(ext, "rb") {
        "ruby"
    } else if str_eq(ext, "swift") {
        "swift"
    } else if str_eq(ext, "kt") {
        "kotlin"
    } else {
        "plaintext"
    };
    r.to_owned()
}

/// The two sides of one file for the side-by-side diff view.
#[derive(Debug, Clone, PartialEq)]
pub struct FileDiffContent {
    pub file_path: String,
    /// The base revision's content; empty for a file new in the working tree.
    pub original: String,
    /// The working tree's content; empty for a deleted file.
    pub modified: String,
    pub language: String,
}

/// Mathematical image of a [`FileDiffContent`].
pub struct FileDiffContentV {
    pub file_path: Seq<char>,
    pub original: Seq<char>,
    pub modified: Seq<char>,
    pub language: Seq<char>,
}

impl View for FileDiffContent {
    type V = FileDiffContentV;

    open spec fn view(&self) -> FileDiffContentV {
        FileDiffContentV {
            file_path: self.file_path@,
            original: self.original@,
            modified: self.modified@,
            language: self.language@,
        }
    }
}

/// Pair the two sides of a file for the diff view, judging the language
/// from the path.  The caller read `original` from the base revision and
/// `modified` from the working tree, with an empty string where a side
/// does not exist.
pub fn get_file_diff_content(file_path: &str, original: String, modified: String) -> (r:
    FileDiffContent)
    ensures
        r@.file_path == file_path@,
        r@.original == original@,
        r@.modified == modified@,
        r@.language == spec_language_of(spec_extension(file_path@)),
{
    let language = detect_language(file_path);
    FileDiffContent { file_path: file_path.to_owned(), original, modified, language }
}

} // verus!
