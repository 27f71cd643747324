//! Plain-text todo files: one item per content line, with markdown
//! checkbox prefixes deciding the status.  Walking the todo directories and
//! reading the files is the caller's; this module turns one file's text
//! into items.

use vstd::prelude::*;

use crate::text::{
    lines, spec_decimal, spec_lines, spec_starts_with, spec_trim, starts_with, trim,
    usize_to_string,
};

verus! {

/// One todo entry read from disk.
#[derive(Debug, Clone, PartialEq)]
pub struct TodoItem {
    /// The file's name and the line's index, joined by a colon.
    pub id: String,
    pub content: String,
    /// `pending` or `done`.
    pub status: String,
    pub source_file: String,
}

/// Mathematical image of a [`TodoItem`].
pub struct TodoItemV {
    pub id: Seq<char>,
    pub content: Seq<char>,
    pub status: Seq<char>,
    pub source_file: Seq<char>,
}

impl View for TodoItem {
    type V = TodoItemV;

    open spec fn view(&self) -> TodoItemV {
        TodoItemV {
            id: self.id@,
            content: self.content@,
            status: self.status@,
            source_file: self.source_file@,
        }
    }
}

impl DeepView for TodoItem {
    type V = TodoItemV;

    open spec fn deep_view(&self) -> TodoItemV {
        self.view()
    }
}

/// The status and text a trimmed line stands for: nothing for blank lines
/// and headings; a checked box is `done`; everything else is `pending`,
/// with list markers stripped.
pub open spec fn spec_todo_line(t: Seq<char>) -> Option<(Seq<char>, Seq<char>)> {
    if t.len() == 0 || t[0] == '#' {
        None
    } else if spec_starts_with(t, "- [x]"@) {
        Some(("done"@, spec_trim(t.skip("- [x]"@.len() as int))))
    } else if spec_starts_with(t, "- [X]"@) {
        Some(("done"@, spec_trim(t.skip("- [X]"@.len() as int))))
    } else if spec_starts_with(t, "- [ ]"@) {
        Some(("pending"@, spec_trim(t.skip("- [ ]"@.len() as int))))
    } else if spec_starts_with(t, "- "@) {
        Some(("pending"@, t.skip("- "@.len() as int)))
    } else {
        Some(("pending"@, t))
    }
}

/// The identifier of the item on line `i` of `file_name`.
pub open spec fn spec_todo_id(file_name: Seq<char>, i: int) -> Seq<char> {
    file_name + ":"@ + spec_decimal(i)
}

/// The items of a file's lines, counting every line for the identifiers.
pub open spec fn spec_todo_items(
    ls: Seq<Seq<char>>,
    i: int,
    file_name: Seq<char>,
    source_file: Seq<char>,
) -> Seq<TodoItemV>
    decreases ls.len(),
{
    if ls.len() == 0 {
        Seq::empty()
    } else {
        let head = match spec_todo_line(spec_trim(ls[0])) {
            Some(st) => seq![
                TodoItemV {
                    id: spec_todo_id(file_name, i),
                    content: st.1,
                    status: st.0,
                    source_file,
                },
            ],
            None => Seq::<TodoItemV>::empty(),
        };
        head + spec_todo_items(ls.drop_first(), i + 1, file_name, source_file)
    }
}

fn todo_id(file_name: &str, i: usize) -> (r: String)
    ensures
        r@ == spec_todo_id(file_name@, i as int),
{
    let mut id = file_name.to_owned();
    id.append(":");
    id.append(usize_to_string(i).as_str());
    id
}

/// Read the items out of one plain-text todo file.
pub fn parse_todo_text(content: &str, file_name: &str, source_file: &str) -> (r: Vec<TodoItem>)
    ensures
        r.deep_view() == spec_todo_items(spec_lines(content@), 0, file_name@, source_file@),
{
    let ls = lines(content);
    let ghost full = ls.deep_view();
    let mut out: Vec<TodoItem> = Vec::new();
    proof {
        assert(full.skip(0) =~= full);
        assert(out.deep_view() =~~= Seq::<TodoItemV>::empty());
    }
    let mut k: usize = 0;
    while k < ls.len()
        invariant
            0 <= k <= ls.len(),
            ls.deep_view() == full,
            spec_todo_items(full, 0, file_name@, source_file@) == out.deep_view()
                + spec_todo_items(full.skip(k as int), k as int, file_name@, source_file@),
        decreases ls.len() - k,
    {
        proof {
            assert(full.skip(k as int)[0] == full[k as int]);
            assert(full[k as int] == ls@[k as int]@);
            assert(full.skip(k as int).drop_first() =~= full.skip(k + 1));
        }
        let t = trim(ls[k].as_str());
        let tn = t.unicode_len();
        let ghost out0 = out.deep_view();
        if tn == 0 || t.get_char(0) == '#' {
            // blank or heading: no item
        } else {
            let (status, text) = if starts_with(t, "- [x]") {
                let plen = "- [x]".unicode_len();
                (String::from_str("done"), trim(t.substring_char(plen, tn)).to_owned())
            } else if starts_with(t, "- [X]") {
                let plen = "- [X]".unicode_len();
                (String::from_str("done"), trim(t.substring_char(plen, tn)).to_owned())
            } else if starts_with(t, "- [ ]") {
                let plen = "- [ ]".unicode_len();
                (String::from_str("pending"), trim(t.substring_char(plen, tn)).to_owned())
            } else if starts_with(t, "- ") {
                let plen = "- ".unicode_len();
                (String::from_str("pending"), t.substring_char(plen, tn).to_owned())
            } else {
                (String::from_str("pending"), t.to_owned())
            };
            let item = TodoItem {
                id: todo_id(file_name, k),
                content: text,
                status,
                source_file: source_file.to_owned(),
            };
            out.push(item);
            proof {
                assert(out.deep_view() =~~= out0.push(
                    spec_todo_items(full.skip(k as int), k as int, file_name@, source_file@)[0],
                ));
            }
        }
        k = k + 1;
        proof {
            assert(out.deep_view() + spec_todo_items(
                full.skip(k as int),
                k as int,
                file_name@,
                source_file@,
            ) =~~= out0 + spec_todo_items(
                full.skip(k - 1),
                k - 1,
                file_name@,
                source_file@,
            ));
        }
    }
    proof {
        assert(full.skip(k as int) =~= Seq::<Seq<char>>::empty());
        assert(out.deep_view() =~~= out.deep_view() + Seq::<TodoItemV>::empty());
    }
    out
}

} // verus!
