//! What the task list prints: notices and numbered tasks.

use vstd::prelude::*;

use crate::decimal::{decimal, decimal_string, lemma_decimal_digits};
use crate::error::Error;
use crate::outside::paint;
use crate::text::single_line;

verus! {

/// The colours in which output is printed, always in bold.
#[derive(Clone, Copy, Debug, PartialEq, Eq, Structural)]
pub enum Tint {
    Red,
    Green,
    Yellow,
    Blue,
}

/// The parameter by which a terminal selects the colour of `tint`.
pub open spec fn colour_code(tint: Tint) -> Seq<char> {
    match tint {
        Tint::Red => "31"@,
        Tint::Green => "32"@,
        Tint::Yellow => "33"@,
        Tint::Blue => "34"@,
    }
}

/// `text` between the escape sequence that selects bold and the colour of
/// `tint` and the sequence that resets both.
pub open spec fn styled(text: Seq<char>, tint: Tint) -> Seq<char> {
    "\u{1b}[1;"@ + colour_code(tint) + "m"@ + text + "\u{1b}[0m"@
}

/// `out` may be what printing `text` in `tint` writes: the text itself where
/// colours are off, the styled text where they are on. A text that holds an
/// escape character of its own may come out in any form.
pub open spec fn may_paint(text: Seq<char>, tint: Tint, out: Seq<char>) -> bool {
    ||| text.contains('\u{1b}')
    ||| out == text
    ||| out == styled(text, tint)
}

/// A message of the task list.
#[derive(Clone, Copy, Debug, PartialEq, Eq, Structural)]
pub enum Notice {
    /// A task was added.
    Added,
    /// The tasks were cleared.
    Cleared,
    /// There is no task to list.
    Empty,
    /// A request was turned down.
    Rejected(Error),
}

impl Notice {
    /// The words of the notice.
    pub open spec fn text(self) -> Seq<char> {
        match self {
            Notice::Added => "Task added!"@,
            Notice::Cleared => "Cleared tasks."@,
            Notice::Empty => "No tasks to print."@,
            Notice::Rejected(error) => error.text(),
        }
    }

    /// The colour of the notice: green for what was done, yellow for nothing
    /// to show, red for what was turned down.
    pub open spec fn tint(self) -> Tint {
        match self {
            Notice::Added => Tint::Green,
            Notice::Cleared => Tint::Green,
            Notice::Empty => Tint::Yellow,
            Notice::Rejected(_) => Tint::Red,
        }
    }

    /// The words of the notice.
    pub fn message(&self) -> (out: &'static str)
        ensures
            out@ == self.text(),
    {
        match self {
            Notice::Added => "Task added!",
            Notice::Cleared => "Cleared tasks.",
            Notice::Empty => "No tasks to print.",
            Notice::Rejected(error) => error.message(),
        }
    }

    /// The colour of the notice.
    pub fn colour(&self) -> (out: Tint)
        ensures
            out == self.tint(),
    {
        match self {
            Notice::Added => Tint::Green,
            Notice::Cleared => Tint::Green,
            Notice::Empty => Tint::Yellow,
            Notice::Rejected(_) => Tint::Red,
        }
    }
}

/// One line of output.
#[derive(Debug, PartialEq, Eq)]
pub enum Line {
    /// A notice on a line of its own.
    Notice(Notice),
    /// A task with its number in the list, counted from one.
    Entry { index: usize, task: String },
}

/// A line of output as a mathematical value.
pub enum LineModel {
    Notice(Notice),
    Entry { index: nat, task: Seq<char> },
}

impl View for Line {
    type V = LineModel;

    open spec fn view(&self) -> LineModel {
        match *self {
            Line::Notice(notice) => LineModel::Notice(notice),
            Line::Entry { index, task } => LineModel::Entry { index: index as nat, task: task@ },
        }
    }
}

impl DeepView for Line {
    type V = LineModel;

    open spec fn deep_view(&self) -> LineModel {
        self@
    }
}

/// A numbered task as text: the number, a full stop, a blank, the task.
pub open spec fn entry_text(number: Seq<char>, task: Seq<char>) -> Seq<char> {
    number + ". "@ + task
}

impl LineModel {
    /// The line as plain text, without colours.
    pub open spec fn plain(self) -> Seq<char> {
        match self {
            LineModel::Notice(notice) => notice.text(),
            LineModel::Entry { index, task } => entry_text(decimal(index), task),
        }
    }

    /// `out` may be what printing the line writes: a notice in its colour, a
    /// task in blue behind its number in green.
    pub open spec fn may_render(self, out: Seq<char>) -> bool {
        match self {
            LineModel::Notice(notice) => may_paint(notice.text(), notice.tint(), out),
            LineModel::Entry { index, task } => exists|number: Seq<char>, body: Seq<char>|
                #![trigger entry_text(number, body)]
                {
                    &&& may_paint(decimal(index), Tint::Green, number)
                    &&& may_paint(task, Tint::Blue, body)
                    &&& out == entry_text(number, body)
                },
        }
    }
}

/// A notice is one line of output, and holds no escape character: it is
/// printed as it reads or in its colour, and in no other form.
pub proof fn lemma_notice_is_plain_text(notice: Notice)
    ensures
        single_line(notice.text()),
        !notice.text().contains('\u{1b}'),
        forall|out: Seq<char>|
            may_paint(notice.text(), notice.tint(), out) <==> out == notice.text() || out
                == styled(notice.text(), notice.tint()),
{
    reveal_strlit("Task added!");
    reveal_strlit("Cleared tasks.");
    reveal_strlit("No tasks to print.");
    reveal_strlit("Data directory is not available or OS is unknown.");
    reveal_strlit("task body should be single-line.");
    reveal_strlit("Cannot clear and print tasks simultaneously.");
    let text = notice.text();
    assert forall|i: int| 0 <= i < text.len() implies text[i] != '\n' && text[i] != '\u{1b}' by {
    }
}

/// A numbered task is one line of output where the task is a single line:
/// the listing prints one line for each task.
pub proof fn lemma_entry_single_line(index: nat, task: Seq<char>)
    requires
        single_line(task),
    ensures
        single_line(LineModel::Entry { index, task }.plain()),
{
    lemma_decimal_digits(index);
    reveal_strlit(". ");
    let number = decimal(index);
    let text = entry_text(number, task);
    assert forall|i: int| 0 <= i < text.len() implies text[i] != '\n' by {
        if i < number.len() {
            assert(text[i] == number[i]);
        } else if i < number.len() + 2 {
            assert(text[i] == ". "@[i - number.len()]);
        } else {
            assert(text[i] == task[i - number.len() - 2]);
        }
    }
}

/// Puts a number, as it is to be shown, in front of a task, as it is to be
/// shown.
pub fn join_entry(number: &str, task: &str) -> (out: String)
    ensures
        out@ == entry_text(number@, task@),
{
    let mut out = number.to_owned();
    out.append(". ");
    out.append(task);
    out
}

impl Line {
    /// The line as plain text, without colours.
    pub fn to_plain(&self) -> (out: String)
        ensures
            out@ == self@.plain(),
    {
        match self {
            Line::Notice(notice) => notice.message().to_owned(),
            Line::Entry { index, task } => {
                let number = decimal_string(*index);
                join_entry(number.as_str(), task.as_str())
            },
        }
    }

    /// The line as it is printed: in colour where the terminal takes colours.
    pub fn render(&self) -> (out: String)
        ensures
            self@.may_render(out@),
    {
        match self {
            Line::Notice(notice) => paint(notice.message(), notice.colour()),
            Line::Entry { index, task } => {
                let number = paint(decimal_string(*index).as_str(), Tint::Green);
                let body = paint(task.as_str(), Tint::Blue);
                join_entry(number.as_str(), body.as_str())
            },
        }
    }
}

} // verus!
