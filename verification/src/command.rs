//! From a request to what is done: one request adds a task, lists the
//! tasks or clears them.

use vstd::prelude::*;

use crate::error::{outcome, Error};
use crate::line::{
    lemma_entry_single_line, lemma_notice_is_plain_text, Line, LineModel, Notice,
};
use crate::listing::notice_line;
use crate::operation::{reported, task_record, Operation, OperationModel};
use crate::store::{StoreModel, TaskStore};
use crate::text::{lemma_joined_lines, record, single_line};

verus! {

/// What one request asks for.
#[derive(Debug, PartialEq, Eq)]
pub enum Command {
    /// Add the task.
    Add(String),
    /// List the tasks.
    List,
    /// Clear the tasks.
    Clear,
}

/// A command as a mathematical value.
pub enum CommandModel {
    Add(Seq<char>),
    List,
    Clear,
}

impl View for Command {
    type V = CommandModel;

    open spec fn view(&self) -> CommandModel {
        match *self {
            Command::Add(task) => CommandModel::Add(task@),
            Command::List => CommandModel::List,
            Command::Clear => CommandModel::Clear,
        }
    }
}

/// The command that a request stands for: a task alone adds it, the clear
/// flag alone clears, neither lists. Both together are a usage error.
pub open spec fn dispatched(task: Option<Seq<char>>, clear: bool) -> Result<CommandModel, Error> {
    match (task, clear) {
        (Some(task), false) => Ok(CommandModel::Add(task)),
        (None, false) => Ok(CommandModel::List),
        (None, true) => Ok(CommandModel::Clear),
        (Some(_), true) => Err(Error::Usage),
    }
}

/// The operation on the store that serves `command`. Only a task that is a
/// single line can be added.
pub open spec fn prepared(command: CommandModel) -> Result<OperationModel, Error> {
    match command {
        CommandModel::Add(task) => if single_line(task) {
            Ok(OperationModel::Append(record(task)))
        } else {
            Err(Error::Validation)
        },
        CommandModel::List => Ok(OperationModel::Read),
        CommandModel::Clear => Ok(OperationModel::Remove),
    }
}

/// The operation on the store that serves a request, or the reason why the
/// request is turned down.
pub open spec fn planned(task: Option<Seq<char>>, clear: bool) -> Result<OperationModel, Error> {
    match dispatched(task, clear) {
        Ok(command) => prepared(command),
        Err(error) => Err(error),
    }
}

/// The store after `command` was carried out on `store`: the operation
/// that serves the command was done on it, or nothing was, where the
/// command is turned down.
pub open spec fn effect(store: StoreModel, command: CommandModel) -> StoreModel {
    match prepared(command) {
        Ok(operation) => store.perform(operation),
        Err(_) => store,
    }
}

/// What carrying out `command` on `store` prints: the report of the
/// operation, or the reason why the command is turned down.
pub open spec fn report(store: StoreModel, command: CommandModel) -> Seq<LineModel> {
    match prepared(command) {
        Ok(operation) => reported(operation, store.text()),
        Err(error) => seq![LineModel::Notice(Notice::Rejected(error))],
    }
}

/// The store after the request was served.
pub open spec fn store_after(store: StoreModel, task: Option<Seq<char>>, clear: bool) -> StoreModel {
    match planned(task, clear) {
        Ok(operation) => store.perform(operation),
        Err(_) => store,
    }
}

/// What serving the request prints.
pub open spec fn output_of(store: StoreModel, task: Option<Seq<char>>, clear: bool) -> Seq<
    LineModel,
> {
    match planned(task, clear) {
        Ok(operation) => reported(operation, store.text()),
        Err(error) => seq![LineModel::Notice(Notice::Rejected(error))],
    }
}

/// Tells what a request asks for.
pub fn dispatch(task: Option<String>, clear: bool) -> (out: Result<Command, Error>)
    ensures
        outcome(out) == dispatched(task.deep_view(), clear),
{
    match (task, clear) {
        (Some(task), false) => Ok(Command::Add(task)),
        (None, false) => Ok(Command::List),
        (None, true) => Ok(Command::Clear),
        (Some(_), true) => Err(Error::Usage),
    }
}

impl Command {
    /// The operation on the store that serves the command, or the reason
    /// why the command is turned down.
    pub fn prepare(&self) -> (out: Result<Operation, Error>)
        ensures
            outcome(out) == prepared(self@),
    {
        match self {
            Command::Add(task) => match task_record(task.as_str()) {
                Ok(record) => Ok(Operation::Append(record)),
                Err(error) => Err(error),
            },
            Command::List => Ok(Operation::Read),
            Command::Clear => Ok(Operation::Remove),
        }
    }
}

/// The operation on the store that serves a request, or the reason why the
/// request is turned down. Such a reason is always a soft error: it is
/// reported, and the run ends well.
pub fn plan(task: Option<String>, clear: bool) -> (out: Result<Operation, Error>)
    ensures
        outcome(out) == planned(task.deep_view(), clear),
        out is Err ==> out->Err_0.soft(),
{
    match dispatch(task, clear) {
        Ok(command) => command.prepare(),
        Err(error) => Err(error),
    }
}

/// Carries out `command` on `store` and returns what is to be printed. A
/// command that is turned down prints its reason and changes nothing.
pub fn execute(store: &mut TaskStore, command: &Command) -> (out: Vec<Line>)
    ensures
        final(store)@ == effect(old(store)@, command@),
        out.deep_view() == report(old(store)@, command@),
{
    match command.prepare() {
        Ok(operation) => store.perform(&operation),
        Err(error) => notice_line(Notice::Rejected(error)),
    }
}

/// Serves one request on `store` and returns what is to be printed. A
/// request that is turned down prints its reason and changes nothing.
pub fn run(store: &mut TaskStore, task: Option<String>, clear: bool) -> (out: Vec<Line>)
    ensures
        final(store)@ == store_after(old(store)@, task.deep_view(), clear),
        out.deep_view() == output_of(old(store)@, task.deep_view(), clear),
{
    match plan(task, clear) {
        Ok(operation) => store.perform(&operation),
        Err(error) => notice_line(Notice::Rejected(error)),
    }
}

/// What each command does: adding appends the task, listing shows the
/// tasks and leaves the store alone, clearing removes the store.
pub proof fn lemma_commands(store: StoreModel, task: Seq<char>)
    ensures
        effect(store, CommandModel::Add(task)) == store.append(task),
        effect(store, CommandModel::List) == store,
        effect(store, CommandModel::Clear) == store.clear(),
        single_line(task) ==> report(store, CommandModel::Add(task)) == seq![
            LineModel::Notice(Notice::Added),
        ],
        !single_line(task) ==> report(store, CommandModel::Add(task)) == seq![
            LineModel::Notice(Notice::Rejected(Error::Validation)),
        ],
        report(store, CommandModel::List) == store.listing(),
        report(store, CommandModel::Clear) == seq![LineModel::Notice(Notice::Cleared)],
{
}

/// Serving a request is carrying out the command that it stands for; a
/// request that stands for none changes nothing and prints why.
pub proof fn lemma_requests(store: StoreModel, task: Option<Seq<char>>, clear: bool)
    ensures
        dispatched(task, clear) is Ok ==> store_after(store, task, clear) == effect(
            store,
            dispatched(task, clear)->Ok_0,
        ),
        dispatched(task, clear) is Ok ==> output_of(store, task, clear) == report(
            store,
            dispatched(task, clear)->Ok_0,
        ),
        dispatched(task, clear) is Err ==> store_after(store, task, clear) == store,
        dispatched(task, clear) is Err ==> output_of(store, task, clear) == seq![
            LineModel::Notice(Notice::Rejected(dispatched(task, clear)->Err_0)),
        ],
{
}

/// Whatever the request and the store, each line that is printed is one
/// line of text: a listing has as many lines as the store has tasks.
pub proof fn lemma_output_line_by_line(store: StoreModel, task: Option<Seq<char>>, clear: bool)
    ensures
        forall|i: int|
            0 <= i < output_of(store, task, clear).len() ==> single_line(
                (#[trigger] output_of(store, task, clear)[i]).plain(),
            ),
        task is None && !clear && store.tasks().len() > 0 ==> output_of(store, task, clear).len()
            == store.tasks().len(),
{
    let out = output_of(store, task, clear);
    lemma_joined_lines(store.text());
    assert forall|i: int| 0 <= i < out.len() implies single_line((#[trigger] out[i]).plain()) by {
        match out[i] {
            LineModel::Notice(notice) => {
                lemma_notice_is_plain_text(notice);
            },
            LineModel::Entry { index, task } => {
                assert(task == store.tasks()[i]);
                lemma_entry_single_line(index, task);
            },
        }
    }
}

/// A request to clear is never turned down, whatever the store holds and
/// whether it exists; after it the store is gone, and a second such request
/// changes nothing more.
pub proof fn lemma_clear_request(store: StoreModel)
    ensures
        store_after(store, None, true) == StoreModel::absent(),
        store_after(store_after(store, None, true), None, true) == store_after(store, None, true),
        output_of(store, None, true) == seq![LineModel::Notice(Notice::Cleared)],
{
}

/// A request to list leaves the store as it is, and on a store without
/// text it prints the notice that there is nothing to show, and no task.
pub proof fn lemma_list_request(store: StoreModel)
    ensures
        store_after(store, None, false) == store,
        output_of(store, None, false) == store.listing(),
        store.text().len() == 0 ==> output_of(store, None, false) == seq![
            LineModel::Notice(Notice::Empty),
        ],
{
}

/// A request with a task that is a single line appends the task and says
/// so.
pub proof fn lemma_add_request(store: StoreModel, task: Seq<char>)
    requires
        single_line(task),
    ensures
        store_after(store, Some(task), false) == store.append(task),
        store_after(store, Some(task), false).text() == store.text() + record(task),
        store_after(store, Some(task), false).present(),
        output_of(store, Some(task), false) == seq![LineModel::Notice(Notice::Added)],
{
}

/// A request with a task that is not a single line changes nothing in the
/// store; it prints why, and the error is a soft one.
pub proof fn lemma_invalid_task_changes_nothing(store: StoreModel, task: Seq<char>)
    requires
        !single_line(task),
    ensures
        store.append(task) == store,
        store_after(store, Some(task), false) == store,
        output_of(store, Some(task), false) == seq![
            LineModel::Notice(Notice::Rejected(Error::Validation)),
        ],
        Error::Validation.soft(),
{
}

/// A request with both a task and the clear flag neither appends nor
/// clears: the store stays as it is; it prints why, and the error is a soft
/// one.
pub proof fn lemma_conflict_changes_nothing(store: StoreModel, task: Seq<char>)
    ensures
        store_after(store, Some(task), true) == store,
        output_of(store, Some(task), true) == seq![
            LineModel::Notice(Notice::Rejected(Error::Usage)),
        ],
        Error::Usage.soft(),
{
}

} // verus!
