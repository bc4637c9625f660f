//! The listing: the tasks of the store, each behind its number.

use vstd::prelude::*;

use crate::line::{Line, LineModel, Notice};
use crate::text::{lines, parse_lines};

verus! {

/// The numbered lines that show `tasks`: each task with its place in the
/// list, counted from one.
pub open spec fn numbered(tasks: Seq<Seq<char>>) -> Seq<LineModel> {
    Seq::new(tasks.len(), |i: int| LineModel::Entry { index: (i + 1) as nat, task: tasks[i] })
}

/// What listing `tasks` prints: the tasks with their numbers, or one notice
/// where there is none.
pub open spec fn listing(tasks: Seq<Seq<char>>) -> Seq<LineModel> {
    if tasks.len() == 0 {
        seq![LineModel::Notice(Notice::Empty)]
    } else {
        numbered(tasks)
    }
}

/// The lines that show `tasks`.
pub fn list_tasks(tasks: &Vec<String>) -> (out: Vec<Line>)
    ensures
        out.deep_view() == listing(tasks.deep_view()),
{
    let mut out: Vec<Line> = Vec::new();
    if tasks.len() == 0 {
        out.push(Line::Notice(Notice::Empty));
        return out;
    }
    let mut i: usize = 0;
    while i < tasks.len()
        invariant
            i <= tasks.len(),
            out.len() == i,
            forall|j: int|
                0 <= j < i ==> (#[trigger] out[j])@ == (LineModel::Entry {
                    index: (j + 1) as nat,
                    task: tasks[j]@,
                }),
        decreases tasks.len() - i,
    {
        out.push(Line::Entry { index: i + 1, task: tasks[i].clone() });
        i += 1;
    }
    out
}

/// The lines that listing a store with the text `content` prints.
pub fn list_content(content: &str) -> (out: Vec<Line>)
    ensures
        out.deep_view() == listing(lines(content@)),
{
    let tasks = parse_lines(content);
    list_tasks(&tasks)
}

/// The one line that shows `notice`.
pub fn notice_line(notice: Notice) -> (out: Vec<Line>)
    ensures
        out.deep_view() == seq![LineModel::Notice(notice)],
{
    let mut out: Vec<Line> = Vec::new();
    out.push(Line::Notice(notice));
    out
}

} // verus!
