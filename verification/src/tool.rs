//! Tool output shown in the transcript: task lists, unified diffs, bash output.

use vstd::prelude::*;
use vstd::string::StringExecFns;
use crate::text::{lines_of, lines, join_with, join_prefix};
use crate::strs::{chars_of, string_from_chars, to_owned, usize_to_string, decimal};

verus! {

/// Bash output longer than this many lines is cut.
pub const MAX_BASH_VISIBLE_LINES: usize = 50;

/// A task in a progress list
#[derive(Debug, Clone)]
pub struct TaskItem {
    pub label: String,
    pub state: TaskState,
}

#[derive(Debug, Clone, Copy, PartialEq, Eq)]
pub enum TaskState {
    Pending,
    Running,
    Done,
}

impl TaskItem {
    pub fn new(label: String) -> (t: Self)
        ensures
            t.label == label,
            t.state == TaskState::Pending,
    {
        TaskItem { label, state: TaskState::Pending }
    }

    pub fn running(self) -> (t: Self)
        ensures
            t.label == self.label,
            t.state == TaskState::Running,
    {
        let mut t = self;
        t.state = TaskState::Running;
        t
    }

    pub fn done(self) -> (t: Self)
        ensures
            t.label == self.label,
            t.state == TaskState::Done,
    {
        let mut t = self;
        t.state = TaskState::Done;
        t
    }
}

#[derive(Debug, Clone, Copy, PartialEq, Eq)]
pub enum DiffLineKind {
    Context,
    Added,
    Removed,
    Header,
}

/// A line in a diff display
#[derive(Debug, Clone)]
pub struct DiffLine {
    pub content: String,
    pub line_kind: DiffLineKind,
    pub line_number: Option<u32>,
}

/// How one line of a unified diff is shown: `@@` starts a hunk header, and a
/// leading `+`, `-` or space marks an added, removed or context line (the mark
/// is dropped); anything else is context shown as is.
pub open spec fn classify_diff_line(l: Seq<char>) -> (Seq<char>, DiffLineKind) {
    if l.len() >= 2 && l[0] == '@' && l[1] == '@' {
        (l, DiffLineKind::Header)
    } else if l.len() >= 1 && l[0] == '+' {
        (l.drop_first(), DiffLineKind::Added)
    } else if l.len() >= 1 && l[0] == '-' {
        (l.drop_first(), DiffLineKind::Removed)
    } else if l.len() >= 1 && l[0] == ' ' {
        (l.drop_first(), DiffLineKind::Context)
    } else {
        (l, DiffLineKind::Context)
    }
}

pub open spec fn diff_line_view(d: DiffLine) -> (Seq<char>, DiffLineKind) {
    (d.content@, d.line_kind)
}

fn classify_line(l: &Vec<char>) -> (d: DiffLine)
    ensures
        diff_line_view(d) == classify_diff_line(l@),
        d.line_number.is_none(),
{
    let n = l.len();
    if n >= 2 && l[0] == '@' && l[1] == '@' {
        DiffLine { content: string_from_chars(l.as_slice()), line_kind: DiffLineKind::Header, line_number: None }
    } else if n >= 1 && (l[0] == '+' || l[0] == '-' || l[0] == ' ') {
        let kind = if l[0] == '+' {
            DiffLineKind::Added
        } else if l[0] == '-' {
            DiffLineKind::Removed
        } else {
            DiffLineKind::Context
        };
        let rest = crate::text::subvec(l, 1, n);
        assert(rest@ =~= l@.drop_first());
        DiffLine { content: string_from_chars(rest.as_slice()), line_kind: kind, line_number: None }
    } else {
        DiffLine { content: string_from_chars(l.as_slice()), line_kind: DiffLineKind::Context, line_number: None }
    }
}

/// Parse a unified diff string into displayable lines, one per text line.
pub fn parse_diff(diff_text: &str) -> (ds: Vec<DiffLine>)
    ensures
        ds@.len() == lines_of(diff_text@).len(),
        forall|k: int| 0 <= k < ds@.len() ==> diff_line_view(#[trigger] ds@[k]) == classify_diff_line(lines_of(diff_text@)[k])
            && ds@[k].line_number.is_none(),
{
    let chars = chars_of(diff_text);
    let ls = lines(&chars);
    let ghost lv = ls@.map_values(|p: Vec<char>| p@);
    let mut out: Vec<DiffLine> = Vec::new();
    let mut i: usize = 0;
    while i < ls.len()
        invariant
            lv == ls@.map_values(|p: Vec<char>| p@),
            lv == lines_of(diff_text@),
            i <= ls@.len(),
            out@.len() == i,
            forall|k: int| 0 <= k < i ==> diff_line_view(#[trigger] out@[k]) == classify_diff_line(lv[k])
                && out@[k].line_number.is_none(),
        decreases ls@.len() - i,
    {
        let d = classify_line(&ls[i]);
        out.push(d);
        i = i + 1;
    }
    out
}

/// Bash output as shown: at most `max_visible_lines` lines, then a note of how
/// many were hidden.
pub open spec fn truncated_output(output: Seq<char>, max_visible_lines: nat) -> Seq<char> {
    let ls = lines_of(output);
    if max_visible_lines == 0 {
        Seq::empty()
    } else if ls.len() <= max_visible_lines {
        output
    } else {
        let visible = join_with(ls.take(max_visible_lines as int), seq!['\n']);
        let shown = if visible.len() > 0 { visible.push('\n') } else { visible };
        shown + "["@ + decimal((ls.len() - max_visible_lines) as nat) + " lines hidden]"@
    }
}

pub fn truncate_bash_output(output: &str, max_visible_lines: usize) -> (r: String)
    ensures
        r@ == truncated_output(output@, max_visible_lines as nat),
{
    if max_visible_lines == 0 {
        return String::new();
    }
    let chars = chars_of(output);
    let ls = lines(&chars);
    if ls.len() <= max_visible_lines {
        return to_owned(output);
    }
    let hidden = ls.len() - max_visible_lines;
    let mut visible = join_prefix(&ls, max_visible_lines, '\n');
    if visible.len() > 0 {
        visible.push('\n');
    }
    let mut s = string_from_chars(visible.as_slice());
    let count = usize_to_string(hidden);
    s.append("[");
    s.append(count.as_str());
    s.append(" lines hidden]");
    s
}

/// Layout constraint for one row of a list.
#[derive(Debug, Clone, Copy, PartialEq, Eq)]
pub enum Constraint {
    Length(u16),
    Min(u16),
}

/// One single-row constraint per list row, then a spacer taking the rest.
pub fn list_row_constraints(row_count: usize) -> (cs: Vec<Constraint>)
    requires
        row_count < usize::MAX,
    ensures
        cs@.len() == row_count + 1,
        forall|k: int| 0 <= k < row_count ==> cs@[k] == Constraint::Length(1),
        cs@[row_count as int] == Constraint::Min(0),
{
    let mut cs: Vec<Constraint> = Vec::new();
    let mut i: usize = 0;
    while i < row_count
        invariant
            i <= row_count,
            cs@.len() == i,
            forall|k: int| 0 <= k < i ==> cs@[k] == Constraint::Length(1),
        decreases row_count - i,
    {
        cs.push(Constraint::Length(1));
        i = i + 1;
    }
    cs.push(Constraint::Min(0));
    cs
}

} // verus!
