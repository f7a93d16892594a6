//! Patches as text: the lines of a diff put together, for all files or for
//! one, and the content of an untracked file shown as a patch that adds it.

use vstd::prelude::*;
use vstd::string::*;
use crate::model::{text_option_view, texts_view};
use crate::text::{decimal, decimal_digits, lines_of, split_lines};

verus! {

/// One line of a diff: the file it belongs to, by the path of the new side
/// and that of the old side as far as each exists; the character that marks
/// where the line comes from; and its content, `None` where that is no valid
/// UTF-8.
#[derive(Debug, Clone, PartialEq, Eq)]
pub struct DiffLine {
    pub new_path: Option<String>,
    pub old_path: Option<String>,
    pub origin: char,
    pub content: Option<String>,
}

pub struct DiffLineView {
    pub new_path: Option<Seq<char>>,
    pub old_path: Option<Seq<char>>,
    pub origin: char,
    pub content: Option<Seq<char>>,
}

impl View for DiffLine {
    type V = DiffLineView;

    open spec fn view(&self) -> DiffLineView {
        DiffLineView {
            new_path: text_option_view(self.new_path),
            old_path: text_option_view(self.old_path),
            origin: self.origin,
            content: text_option_view(self.content),
        }
    }
}

/// How the lines of a patch are written.
#[derive(Clone, Copy, Debug, PartialEq, Eq, Structural)]
pub enum PatchStyle {
    /// The content alone; unreadable content as an empty line.
    Plain,
    /// The content after the mark of an added, removed or unchanged line;
    /// unreadable content as a notice.
    Marked,
}

/// The views of a sequence of diff lines.
pub open spec fn lines_view(lines: Seq<DiffLine>) -> Seq<DiffLineView> {
    lines.map_values(|l: DiffLine| l@)
}

/// The file that a line belongs to: the path of the new side, else that of
/// the old side, else the empty path.
pub open spec fn line_file(l: DiffLineView) -> Seq<char> {
    match l.new_path {
        Some(p) => p,
        None => match l.old_path {
            Some(p) => p,
            None => Seq::empty(),
        },
    }
}

/// The mark written before a line: that of an added, a removed or an
/// unchanged line, and nothing for any other origin.
pub open spec fn origin_mark(origin: char) -> Seq<char> {
    if origin == '+' {
        "+"@
    } else if origin == '-' {
        "-"@
    } else if origin == ' ' {
        " "@
    } else {
        Seq::empty()
    }
}

/// One line as it is written, with the line feed that ends it.
pub open spec fn line_written(l: DiffLineView, style: PatchStyle) -> Seq<char> {
    match style {
        PatchStyle::Plain => (match l.content {
            Some(c) => c,
            None => Seq::empty(),
        }) + "\n"@,
        PatchStyle::Marked => origin_mark(l.origin) + (match l.content {
            Some(c) => c,
            None => "[INVALID UTF-8]"@,
        }) + "\n"@,
    }
}

/// Whether a line is part of the patch: every line where no file is asked
/// for, else the lines of that file.
pub open spec fn line_selected(l: DiffLineView, only: Option<Seq<char>>) -> bool {
    match only {
        Some(file) => line_file(l) == file,
        None => true,
    }
}

/// The patch: the selected lines as written, one after the other.
pub open spec fn patch_text(
    lines: Seq<DiffLineView>,
    only: Option<Seq<char>>,
    style: PatchStyle,
) -> Seq<char>
    decreases lines.len(),
{
    if lines.len() == 0 {
        Seq::empty()
    } else {
        let before = patch_text(lines.drop_last(), only, style);
        if line_selected(lines.last(), only) {
            before + line_written(lines.last(), style)
        } else {
            before
        }
    }
}

/// The head of the patch that adds the file at `path`.
pub open spec fn new_file_head(path: Seq<char>) -> Seq<char> {
    "diff --git a/"@ + path + " b/"@ + path + "\n"@ + "new file mode 100644\n"@
        + "index 0000000..0000000\n"@ + "--- /dev/null\n"@ + "+++ b/"@ + path + "\n"@
}

/// The hunk that adds `line` as line number `number`.
pub open spec fn added_line_hunk(number: nat, line: Seq<char>) -> Seq<char> {
    "@@ -0,0 +"@ + decimal_digits(number) + ",1 @@\n"@ + "+"@ + line + "\n"@
}

/// The hunks that add `lines`, each as the line of its position, counted
/// from one.
pub open spec fn added_lines_hunks(lines: Seq<Seq<char>>) -> Seq<char>
    decreases lines.len(),
{
    if lines.len() == 0 {
        Seq::empty()
    } else {
        added_lines_hunks(lines.drop_last()) + added_line_hunk(lines.len(), lines.last())
    }
}

/// The content of an untracked file as the patch that adds the file, line by
/// line.
pub open spec fn untracked_patch(path: Seq<char>, content: Seq<char>) -> Seq<char> {
    new_file_head(path) + added_lines_hunks(lines_of(content))
}

fn file_of(line: &DiffLine) -> (r: String)
    ensures
        r@ == line_file(line@),
{
    match &line.new_path {
        Some(p) => p.clone(),
        None => match &line.old_path {
            Some(p) => p.clone(),
            None => String::new(),
        },
    }
}

fn write_line(out: &mut String, line: &DiffLine, style: PatchStyle)
    ensures
        final(out)@ == old(out)@ + line_written(line@, style),
{
    match style {
        PatchStyle::Plain => {
            match &line.content {
                Some(c) => {
                    out.append(c.as_str());
                },
                None => {},
            }
            out.append("\n");
            proof {
                assert(out@ =~= old(out)@ + line_written(line@, style));
            }
        },
        PatchStyle::Marked => {
            if line.origin == '+' {
                out.append("+");
            } else if line.origin == '-' {
                out.append("-");
            } else if line.origin == ' ' {
                out.append(" ");
            }
            match &line.content {
                Some(c) => {
                    out.append(c.as_str());
                },
                None => {
                    out.append("[INVALID UTF-8]");
                },
            }
            out.append("\n");
            proof {
                assert(out@ =~= old(out)@ + line_written(line@, style));
            }
        },
    }
}

/// The patch made of `lines`: of all of them where `only` is `None`, else of
/// those that belong to the file `only`.
pub fn render_patch(lines: &Vec<DiffLine>, only: Option<&str>, style: PatchStyle) -> (r: String)
    ensures
        r@ == patch_text(
            lines_view(lines@),
            match only {
                Some(file) => Some(file@),
                None => None,
            },
            style,
        ),
{
    let ghost lv = lines_view(lines@);
    let ghost wanted: Option<Seq<char>> = match only {
        Some(file) => Some(file@),
        None => None,
    };
    let only_owned: Option<String> = match only {
        Some(file) => Some(file.to_owned()),
        None => None,
    };
    let mut out = String::new();
    let mut i: usize = 0;
    proof {
        assert(out@ =~= patch_text(lv.take(0), wanted, style));
    }
    while i < lines.len()
        invariant
            i <= lines.len(),
            lv == lines_view(lines@),
            text_option_view(only_owned) == wanted,
            out@ == patch_text(lv.take(i as int), wanted, style),
        decreases lines.len() - i,
    {
        let line = &lines[i];
        proof {
            assert(lv.take(i + 1).drop_last() =~= lv.take(i as int));
            assert(lv.take(i + 1).last() == line@);
        }
        let selected = match &only_owned {
            Some(file) => file_of(line) == *file,
            None => true,
        };
        if selected {
            write_line(&mut out, line, style);
        }
        i += 1;
    }
    proof {
        assert(lv.take(lines@.len() as int) =~= lv);
    }
    out
}

/// The content of the untracked file at `path` as the patch that adds it.
pub fn render_untracked(path: &str, content: &str) -> (r: String)
    ensures
        r@ == untracked_patch(path@, content@),
{
    let lines = split_lines(content);
    let ghost all = texts_view(lines@);
    let mut out = "diff --git a/".to_owned();
    out.append(path);
    out.append(" b/");
    out.append(path);
    out.append("\n");
    out.append("new file mode 100644\n");
    out.append("index 0000000..0000000\n");
    out.append("--- /dev/null\n");
    out.append("+++ b/");
    out.append(path);
    out.append("\n");
    proof {
        assert(out@ =~= new_file_head(path@) + added_lines_hunks(all.take(0)));
    }
    let mut i: usize = 0;
    while i < lines.len()
        invariant
            i <= lines.len(),
            all == texts_view(lines@),
            out@ == new_file_head(path@) + added_lines_hunks(all.take(i as int)),
        decreases lines.len() - i,
    {
        proof {
            assert(all.take(i + 1).drop_last() =~= all.take(i as int));
            assert(all.take(i + 1).last() == lines@[i as int]@);
        }
        let ghost before = out@;
        let number = decimal((i + 1) as u64);
        out.append("@@ -0,0 +");
        out.append(number.as_str());
        out.append(",1 @@\n");
        out.append("+");
        out.append(lines[i].as_str());
        out.append("\n");
        proof {
            assert(out@ =~= before + added_line_hunk((i + 1) as nat, lines@[i as int]@));
            assert(out@ =~= new_file_head(path@) + added_lines_hunks(all.take(i + 1)));
        }
        i += 1;
    }
    proof {
        assert(all.take(lines@.len() as int) =~= all);
    }
    out
}

} // verus!
