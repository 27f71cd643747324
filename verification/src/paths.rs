//! Path-name codecs used by the on-disk session store, and shell-style
//! path expansion.

use vstd::prelude::*;

use crate::text::{spec_starts_with, starts_with, str_eq};

verus! {

/// Shell-style expansion: `~` stands for the home directory and `.` for
/// the current one, each `None` when the caller could not determine it;
/// any other path is already explicit.  `None` out means the needed base
/// was unavailable.
pub open spec fn spec_expand_path(
    path: Seq<char>,
    home: Option<Seq<char>>,
    cwd: Option<Seq<char>>,
) -> Option<Seq<char>> {
    if path == "~"@ {
        home
    } else if spec_starts_with(path, "~/"@) {
        match home {
            Some(h) => Some(h + "/"@ + path.skip("~/"@.len() as int)),
            None => None,
        }
    } else if path == "."@ {
        cwd
    } else if spec_starts_with(path, "./"@) {
        match cwd {
            Some(c) => Some(c + "/"@ + path.skip("./"@.len() as int)),
            None => None,
        }
    } else {
        Some(path)
    }
}

/// Expand a user-typed project path against the home and current
/// directories the caller resolved.
pub fn expand_path(path: &str, home: Option<&str>, cwd: Option<&str>) -> (r: Option<String>)
    ensures
        match r {
            Some(s) => spec_expand_path(path@, match home {
                Some(h) => Some(h@),
                None => None,
            }, match cwd {
                Some(c) => Some(c@),
                None => None,
            }) == Some(s@),
            None => spec_expand_path(path@, match home {
                Some(h) => Some(h@),
                None => None,
            }, match cwd {
                Some(c) => Some(c@),
                None => None,
            }) is None,
        },
{
    let n = path.unicode_len();
    if str_eq(path, "~") {
        match home {
            Some(h) => Some(h.to_owned()),
            None => None,
        }
    } else if starts_with(path, "~/") {
        match home {
            Some(h) => {
                let mut s = h.to_owned();
                s.append("/");
                s.append(path.substring_char("~/".unicode_len(), n));
                Some(s)
            },
            None => None,
        }
    } else if str_eq(path, ".") {
        match cwd {
            Some(c) => Some(c.to_owned()),
            None => None,
        }
    } else if starts_with(path, "./") {
        match cwd {
            Some(c) => {
                let mut s = c.to_owned();
                s.append("/");
                s.append(path.substring_char("./".unicode_len(), n));
                Some(s)
            },
            None => None,
        }
    } else {
        Some(path.to_owned())
    }
}

/// Every dash becomes a path separator; the leading dash of an encoded
/// absolute path thereby becomes the root slash.
pub open spec fn spec_decode_project_path(s: Seq<char>) -> Seq<char> {
    s.map_values(
        |c: char|
            if c == '-' {
                '/'
            } else {
                c
            },
    )
}

/// Decode a path-encoded directory name back to the project path it names:
/// the store writes `/a/b/c` as `-a-b-c`.
pub fn decode_project_path(encoded: &str) -> (r: String)
    ensures
        r@ == spec_decode_project_path(encoded@),
{
    let n = encoded.unicode_len();
    let mut out = String::new();
    let mut i: usize = 0;
    while i < n
        invariant
            n == encoded@.len(),
            0 <= i <= n,
            out@.len() == i,
            forall|k: int| 0 <= k < i ==> out@[k] == (if encoded@[k] == '-' {
                '/'
            } else {
                encoded@[k]
            }),
        decreases n - i,
    {
        let c = encoded.get_char(i);
        if c == '-' {
            out.append("/");
            proof {
                reveal_strlit("/");
            }
        } else {
            out.append(encoded.substring_char(i, i + 1));
        }
        i = i + 1;
    }
    proof {
        assert(out@ =~= spec_decode_project_path(encoded@));
    }
    out
}

} // verus!
