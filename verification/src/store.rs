//! The task store: an ordered list of tasks, kept as text, one task per line.

use vstd::prelude::*;

use crate::decimal::decimal;
use crate::error::Error;
use crate::line::{entry_text, Line, LineModel, Notice};
use crate::listing::{list_content, listing, numbered};
use crate::operation::{access_for, reported, task_record, Access, Operation, OperationModel};
use crate::text::{
    all_single_line, lemma_lines_append, lines, parse_lines, record, single_line, terminated,
};

verus! {

/// A task store as a mathematical value: the text it holds, or nothing
/// where it was never written to or was removed.
pub struct StoreModel {
    pub content: Option<Seq<char>>,
}

impl StoreModel {
    /// The store that does not exist.
    pub open spec fn absent() -> StoreModel {
        StoreModel { content: None }
    }

    /// Whether the store exists.
    pub open spec fn present(self) -> bool {
        self.content is Some
    }

    /// The text of the store; that of an absent store is empty.
    pub open spec fn text(self) -> Seq<char> {
        match self.content {
            Some(text) => text,
            None => Seq::empty(),
        }
    }

    /// The tasks of the store, in the order in which they were added.
    pub open spec fn tasks(self) -> Seq<Seq<char>> {
        lines(self.text())
    }

    /// Every line of the store is closed: each line is one whole task.
    pub open spec fn well_formed(self) -> bool {
        terminated(self.text())
    }

    /// The store after `operation` was done on it.
    pub open spec fn perform(self, operation: OperationModel) -> StoreModel {
        match operation {
            OperationModel::Append(record) => StoreModel { content: Some(self.text() + record) },
            OperationModel::Read => self,
            OperationModel::Remove => StoreModel::absent(),
        }
    }

    /// The store after `task` was appended: the record of a single-line task
    /// is written at its end, and a store that was absent comes to exist.
    /// Any other task leaves the store as it is.
    pub open spec fn append(self, task: Seq<char>) -> StoreModel {
        if single_line(task) {
            self.perform(OperationModel::Append(record(task)))
        } else {
            self
        }
    }

    /// The store after `tasks` were appended one after the other.
    pub open spec fn append_all(self, tasks: Seq<Seq<char>>) -> StoreModel
        decreases tasks.len(),
    {
        if tasks.len() == 0 {
            self
        } else {
            self.append_all(tasks.drop_last()).append(tasks.last())
        }
    }

    /// The store after it was cleared: it is gone, with all its tasks.
    pub open spec fn clear(self) -> StoreModel {
        self.perform(OperationModel::Remove)
    }

    /// What listing the store prints.
    pub open spec fn listing(self) -> Seq<LineModel> {
        listing(self.tasks())
    }
}

/// An operation that does not touch the store's file, or only reads it,
/// leaves the store as it is. Appending leaves a store that exists;
/// removing leaves none.
pub proof fn lemma_access_and_store(store: StoreModel, operation: OperationModel)
    ensures
        access_for(operation, store.present()) == Access::Untouched ==> store.perform(operation)
            == store,
        access_for(operation, store.present()) == Access::Read ==> store.perform(operation)
            == store,
        access_for(operation, store.present()) == Access::Append ==> store.perform(
            operation,
        ).present(),
        access_for(operation, store.present()) == Access::Remove ==> !store.perform(
            operation,
        ).present(),
{
}

/// Appending single-line tasks to a well-formed store keeps the tasks it
/// held, in their order, and puts the new ones behind them, in theirs. The
/// store stays well-formed.
pub proof fn lemma_append_all(start: StoreModel, tasks: Seq<Seq<char>>)
    requires
        start.well_formed(),
        all_single_line(tasks),
    ensures
        start.append_all(tasks).tasks() == start.tasks() + tasks,
        start.append_all(tasks).well_formed(),
    decreases tasks.len(),
{
    if tasks.len() > 0 {
        let before = tasks.drop_last();
        assert(all_single_line(before));
        lemma_append_all(start, before);
        lemma_lines_append(start.append_all(before).text(), tasks.last());
    }
}

/// Appending the tasks `tasks`, in order, to a store without text and then
/// listing it shows exactly these tasks, in that order, each behind its
/// number: the first line reads `1. ` and the first task, the second `2. `
/// and the second task, and so on. Where `tasks` is empty the listing is
/// the one notice that there is nothing to show.
pub proof fn lemma_round_trip(start: StoreModel, tasks: Seq<Seq<char>>)
    requires
        start.text().len() == 0,
        all_single_line(tasks),
    ensures
        start.append_all(tasks).tasks() == tasks,
        tasks.len() > 0 ==> start.append_all(tasks).listing() == numbered(tasks),
        tasks.len() == 0 ==> start.append_all(tasks).listing() == seq![
            LineModel::Notice(Notice::Empty),
        ],
        numbered(tasks).len() == tasks.len(),
        forall|i: int|
            0 <= i < tasks.len() ==> (#[trigger] numbered(tasks)[i]).plain() == entry_text(
                decimal((i + 1) as nat),
                tasks[i],
            ),
{
    lemma_append_all(start, tasks);
}

/// Clearing twice leaves what clearing once leaves: a store that is gone
/// and holds no task. A store that was already gone stays so, and removing
/// it touches no file, so that nothing can fail.
pub proof fn lemma_clear_idempotent(store: StoreModel)
    ensures
        store.clear().clear() == store.clear(),
        store.clear() == StoreModel::absent(),
        store.clear().tasks().len() == 0,
        store.clear().well_formed(),
        access_for(OperationModel::Remove, store.clear().present()) == Access::Untouched,
{
}

/// Listing a store without text (one that nothing was appended to, or one
/// that was cleared) prints the notice that there is nothing to show, once,
/// and no numbered line.
pub proof fn lemma_listing_of_empty(store: StoreModel)
    ensures
        store.text().len() == 0 ==> store.listing() == seq![LineModel::Notice(Notice::Empty)],
        store.clear().listing() == seq![LineModel::Notice(Notice::Empty)],
        StoreModel::absent().listing() == seq![LineModel::Notice(Notice::Empty)],
{
}

/// A task store held in memory.
pub struct TaskStore {
    content: Option<String>,
}

impl View for TaskStore {
    type V = StoreModel;

    closed spec fn view(&self) -> StoreModel {
        StoreModel { content: self.content.deep_view() }
    }
}

impl TaskStore {
    /// The store that does not exist yet.
    pub fn new() -> (out: TaskStore)
        ensures
            out@ == StoreModel::absent(),
    {
        TaskStore { content: None }
    }

    /// The store with the given content: the text of the file that holds
    /// it, or nothing where there is no such file.
    pub fn from_content(content: Option<String>) -> (out: TaskStore)
        ensures
            out@.content == content.deep_view(),
    {
        TaskStore { content }
    }

    /// Tells whether the store exists.
    pub fn is_present(&self) -> (out: bool)
        ensures
            out == self@.present(),
    {
        self.content.is_some()
    }

    /// The text of the store.
    pub fn text(&self) -> (out: &str)
        ensures
            out@ == self@.text(),
    {
        proof {
            reveal_strlit("");
        }
        match &self.content {
            Some(text) => text.as_str(),
            None => "",
        }
    }

    /// The tasks of the store, in the order in which they were added.
    pub fn tasks(&self) -> (out: Vec<String>)
        ensures
            out.deep_view() == self@.tasks(),
    {
        parse_lines(self.text())
    }

    /// Does `operation` on the store and returns what is to be printed. The
    /// store is touched as [`Operation::access`] says.
    pub fn perform(&mut self, operation: &Operation) -> (out: Vec<Line>)
        ensures
            final(self)@ == old(self)@.perform(operation@),
            out.deep_view() == reported(operation@, old(self)@.text()),
    {
        let out = operation.report(self.text());
        match (operation.access(self.is_present()), operation) {
            (Access::Append, Operation::Append(record)) => {
                let mut text = match self.content.take() {
                    Some(text) => text,
                    None => String::new(),
                };
                text.append(record.as_str());
                self.content = Some(text);
            },
            (Access::Remove, _) => {
                self.content = None;
            },
            _ => {},
        }
        out
    }

    /// Appends `task` to the store. A task that is not a single line is
    /// turned down and the store stays as it was.
    pub fn append(&mut self, task: &str) -> (out: Result<(), Error>)
        ensures
            final(self)@ == old(self)@.append(task@),
            single_line(task@) ==> out is Ok,
            !single_line(task@) ==> out == Err::<(), Error>(Error::Validation),
    {
        match task_record(task) {
            Ok(record) => {
                self.perform(&Operation::Append(record));
                Ok(())
            },
            Err(error) => Err(error),
        }
    }

    /// What listing the store prints. The store stays as it was.
    pub fn list(&self) -> (out: Vec<Line>)
        ensures
            out.deep_view() == self@.listing(),
    {
        list_content(self.text())
    }

    /// Clears the store, whether it holds tasks or not.
    pub fn clear(&mut self)
        ensures
            final(self)@ == old(self)@.clear(),
    {
        self.content = None;
    }
}

} // verus!
