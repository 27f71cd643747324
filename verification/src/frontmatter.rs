//! Name and description of a markdown skill file, read from its YAML-style
//! frontmatter block, with the fallbacks the skills scan relies on.

use vstd::prelude::*;

use crate::text::{
    find_str, lines, spec_find, spec_lines, spec_starts_with, spec_trim, spec_trim_char,
    starts_with, trim, trim_char,
};

verus! {

/// A skill or command discovered on disk.
#[derive(Debug, Clone, PartialEq)]
pub struct CustomSkill {
    pub name: String,
    pub description: String,
    /// `personal` or `project`.
    pub source: String,
    pub file_path: String,
}

/// Mathematical image of a [`CustomSkill`].
pub struct CustomSkillV {
    pub name: Seq<char>,
    pub description: Seq<char>,
    pub source: Seq<char>,
    pub file_path: Seq<char>,
}

impl View for CustomSkill {
    type V = CustomSkillV;

    open spec fn view(&self) -> CustomSkillV {
        CustomSkillV {
            name: self.name@,
            description: self.description@,
            source: self.source@,
            file_path: self.file_path@,
        }
    }
}

/// A frontmatter value: trimmed, with surrounding double then single
/// quotes removed.
pub open spec fn spec_clean_value(v: Seq<char>) -> Seq<char> {
    spec_trim_char(spec_trim_char(spec_trim(v), '"'), '\'')
}

fn clean_value(v: &str) -> (r: String)
    ensures
        r@ == spec_clean_value(v@),
{
    trim_char(trim_char(trim(v), '"'), '\'').to_owned()
}

/// Fold the frontmatter lines front to back: each `name:` or
/// `description:` line with a non-empty cleaned value replaces the value
/// collected so far.
pub open spec fn spec_scan_fm(ls: Seq<Seq<char>>, name: Seq<char>, desc: Seq<char>) -> (
    Seq<char>,
    Seq<char>,
)
    decreases ls.len(),
{
    if ls.len() == 0 {
        (name, desc)
    } else {
        let line = spec_trim(ls[0]);
        let nd = if spec_starts_with(line, "name:"@) {
            let v = spec_clean_value(line.skip("name:"@.len() as int));
            if v.len() > 0 {
                (v, desc)
            } else {
                (name, desc)
            }
        } else if spec_starts_with(line, "description:"@) {
            let v = spec_clean_value(line.skip("description:"@.len() as int));
            if v.len() > 0 {
                (name, v)
            } else {
                (name, desc)
            }
        } else {
            (name, desc)
        };
        spec_scan_fm(ls.drop_first(), nd.0, nd.1)
    }
}

/// The first line, trimmed, that is neither empty nor a heading.
pub open spec fn spec_first_content_line(ls: Seq<Seq<char>>) -> Seq<char>
    decreases ls.len(),
{
    if ls.len() == 0 {
        Seq::empty()
    } else {
        let t = spec_trim(ls[0]);
        if t.len() > 0 && t[0] != '#' {
            t
        } else {
            spec_first_content_line(ls.drop_first())
        }
    }
}

fn first_content_line(s: &str) -> (r: String)
    ensures
        r@ == spec_first_content_line(spec_lines(s@)),
{
    let ls = lines(s);
    let ghost full = ls.deep_view();
    proof {
        assert(full.skip(0) =~= full);
    }
    let mut k: usize = 0;
    while k < ls.len()
        invariant
            0 <= k <= ls.len(),
            ls.deep_view() == full,
            full == spec_lines(s@),
            spec_first_content_line(full) == spec_first_content_line(full.skip(k as int)),
        decreases ls.len() - k,
    {
        proof {
            assert(full.skip(k as int)[0] == full[k as int]);
            assert(full[k as int] == ls@[k as int]@);
            assert(full.skip(k as int).drop_first() =~= full.skip(k + 1));
        }
        let t = trim(ls[k].as_str());
        if !t.is_empty() && t.get_char(0) != '#' {
            proof {
                assert(spec_first_content_line(full.skip(k as int)) == t@);
            }
            return t.to_owned();
        }
        k = k + 1;
    }
    proof {
        assert(full.skip(k as int) =~= Seq::<Seq<char>>::empty());
    }
    String::new()
}

/// The name and description a skill file yields.
///
/// A file that opens with `---` is scanned up to the closing `---` for
/// `name:` and `description:` entries; a missing description falls back to
/// the first content line after the block.  A file without frontmatter
/// keeps the default name and takes its first content line as the
/// description.  A still-empty description becomes `Custom skill: ` and
/// the name.
pub open spec fn spec_parse_frontmatter(content: Seq<char>, default_name: Seq<char>) -> (
    Seq<char>,
    Seq<char>,
) {
    let dlen = "---"@.len() as int;
    let nd = if spec_starts_with(content, "---"@) {
        match spec_find(content.skip(dlen), "---"@) {
            Some(e) => {
                let fm = content.subrange(dlen, dlen + e);
                let scanned = spec_scan_fm(spec_lines(fm), default_name, Seq::empty());
                let desc = if scanned.1.len() == 0 {
                    spec_first_content_line(spec_lines(content.skip(dlen + e + dlen)))
                } else {
                    scanned.1
                };
                (scanned.0, desc)
            },
            None => (default_name, Seq::<char>::empty()),
        }
    } else {
        (default_name, spec_first_content_line(spec_lines(content)))
    };
    if nd.1.len() == 0 {
        (nd.0, "Custom skill: "@ + nd.0)
    } else {
        nd
    }
}

/// Read a skill file's name and description.
pub fn parse_frontmatter(content: &str, default_name: &str) -> (r: (String, String))
    ensures
        r.0@ == spec_parse_frontmatter(content@, default_name@).0,
        r.1@ == spec_parse_frontmatter(content@, default_name@).1,
{
    let mut name = default_name.to_owned();
    let mut description = String::new();
    let n = content.unicode_len();
    let dlen = "---".unicode_len();
    if starts_with(content, "---") {
        let rest = content.substring_char(dlen, n);
        match find_str(rest, "---") {
            Some(e) => {
                let fm = content.substring_char(dlen, dlen + e);
                let ls = lines(fm);
                let ghost full = ls.deep_view();
                let ghost dn0 = default_name@;
                proof {
                    assert(full.skip(0) =~= full);
                }
                let mut k: usize = 0;
                while k < ls.len()
                    invariant
                        0 <= k <= ls.len(),
                        ls.deep_view() == full,
                        spec_scan_fm(full, dn0, Seq::empty()) == spec_scan_fm(
                            full.skip(k as int),
                            name@,
                            description@,
                        ),
                    decreases ls.len() - k,
                {
                    proof {
                        assert(full.skip(k as int)[0] == full[k as int]);
                        assert(full[k as int] == ls@[k as int]@);
                        assert(full.skip(k as int).drop_first() =~= full.skip(k + 1));
                    }
                    let line = trim(ls[k].as_str());
                    let llen = line.unicode_len();
                    if starts_with(line, "name:") {
                        let plen = "name:".unicode_len();
                        let v = clean_value(line.substring_char(plen, llen));
                        if !v.as_str().is_empty() {
                            name = v;
                        }
                    } else if starts_with(line, "description:") {
                        let plen = "description:".unicode_len();
                        let v = clean_value(line.substring_char(plen, llen));
                        if !v.as_str().is_empty() {
                            description = v;
                        }
                    }
                    k = k + 1;
                }
                proof {
                    assert(full.skip(k as int) =~= Seq::<Seq<char>>::empty());
                }
                if description.as_str().is_empty() {
                    let after = content.substring_char(dlen + e + dlen, n);
                    description = first_content_line(after);
                }
            },
            None => {},
        }
    } else {
        description = first_content_line(content);
    }
    if description.as_str().is_empty() {
        let mut d = String::from_str("Custom skill: ");
        d.append(name.as_str());
        description = d;
    }
    (name, description)
}

/// The skill entry for one markdown file found by a skills scan.
pub fn skill_from_markdown(
    content: &str,
    default_name: &str,
    source: String,
    file_path: String,
) -> (r: CustomSkill)
    ensures
        r@.name == spec_parse_frontmatter(content@, default_name@).0,
        r@.description == spec_parse_frontmatter(content@, default_name@).1,
        r@.source == source@,
        r@.file_path == file_path@,
{
    let (name, description) = parse_frontmatter(content, default_name);
    CustomSkill { name, description, source, file_path }
}

} // verus!
