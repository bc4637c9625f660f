//! The operations on the store, and what each does to the file that holds
//! it.

use vstd::prelude::*;

use crate::error::Error;
use crate::line::{Line, LineModel, Notice};
use crate::listing::{list_content, listing, notice_line};
use crate::text::{is_single_line, lines, record, record_of, single_line};

verus! {

/// The record that adding `task` writes at the end of the store, or the
/// reason why the task is turned down.
pub fn task_record(task: &str) -> (out: Result<String, Error>)
    ensures
        single_line(task@) ==> out is Ok && out->Ok_0@ == record(task@),
        !single_line(task@) ==> out == Err::<String, Error>(Error::Validation),
{
    if is_single_line(task) {
        Ok(record_of(task))
    } else {
        Err(Error::Validation)
    }
}

/// What is done to the store to serve a request.
#[derive(Debug, PartialEq, Eq)]
pub enum Operation {
    /// The record is written at the end of the store.
    Append(String),
    /// The store is read and its tasks are listed.
    Read,
    /// The store is removed.
    Remove,
}

/// An operation as a mathematical value.
pub enum OperationModel {
    Append(Seq<char>),
    Read,
    Remove,
}

impl View for Operation {
    type V = OperationModel;

    open spec fn view(&self) -> OperationModel {
        match *self {
            Operation::Append(record) => OperationModel::Append(record@),
            Operation::Read => OperationModel::Read,
            Operation::Remove => OperationModel::Remove,
        }
    }
}

/// What an operation does to the file that holds the store.
#[derive(Clone, Copy, Debug, PartialEq, Eq, Structural)]
pub enum Access {
    /// The file is neither opened nor made nor removed.
    Untouched,
    /// The file is opened for reading only.
    Read,
    /// The file is opened for appending, and made first where it is absent.
    Append,
    /// The file is removed.
    Remove,
}

/// What `operation` does to the store's file, given whether the file
/// exists. Appending makes the file where it is absent. Reading and
/// removing leave an absent file absent: a store without a file is an
/// empty store, and neither of them is an error on it.
pub open spec fn access_for(operation: OperationModel, exists: bool) -> Access {
    match operation {
        OperationModel::Append(_) => Access::Append,
        OperationModel::Read => if exists {
            Access::Read
        } else {
            Access::Untouched
        },
        OperationModel::Remove => if exists {
            Access::Remove
        } else {
            Access::Untouched
        },
    }
}

/// What is printed once `operation` is done, where `text` is the text that
/// was read from the store (empty where none was read).
pub open spec fn reported(operation: OperationModel, text: Seq<char>) -> Seq<LineModel> {
    match operation {
        OperationModel::Append(_) => seq![LineModel::Notice(Notice::Added)],
        OperationModel::Read => listing(lines(text)),
        OperationModel::Remove => seq![LineModel::Notice(Notice::Cleared)],
    }
}

impl Operation {
    /// Tells what the operation does to the store's file, given whether the
    /// file exists.
    pub fn access(&self, exists: bool) -> (out: Access)
        ensures
            out == access_for(self@, exists),
    {
        match self {
            Operation::Append(_) => Access::Append,
            Operation::Read => if exists {
                Access::Read
            } else {
                Access::Untouched
            },
            Operation::Remove => if exists {
                Access::Remove
            } else {
                Access::Untouched
            },
        }
    }

    /// The lines to print once the operation is done. `content` is the text
    /// that was read from the store, empty where none was read.
    pub fn report(&self, content: &str) -> (out: Vec<Line>)
        ensures
            out.deep_view() == reported(self@, content@),
    {
        match self {
            Operation::Append(_) => notice_line(Notice::Added),
            Operation::Read => list_content(content),
            Operation::Remove => notice_line(Notice::Cleared),
        }
    }
}

} // verus!
