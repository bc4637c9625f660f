//! The text format of the task store: one task per line, each line closed by
//! a newline character.

use vstd::prelude::*;
use vstd::std_specs::iter::IteratorSpec;

verus! {

/// A task is a single line: it holds no newline character.
pub open spec fn single_line(text: Seq<char>) -> bool {
    forall|i: int| 0 <= i < text.len() ==> text[i] != '\n'
}

/// Every task of the sequence is a single line.
pub open spec fn all_single_line(tasks: Seq<Seq<char>>) -> bool {
    forall|i: int| 0 <= i < tasks.len() ==> single_line(#[trigger] tasks[i])
}

/// What one task adds to the store: its text and the newline that closes it.
pub open spec fn record(task: Seq<char>) -> Seq<char> {
    task.push('\n')
}

/// The store text that holds exactly `tasks`, in order.
pub open spec fn join_records(tasks: Seq<Seq<char>>) -> Seq<char>
    decreases tasks.len(),
{
    if tasks.len() == 0 {
        Seq::empty()
    } else {
        join_records(tasks.drop_last()) + record(tasks.last())
    }
}

/// The store text is empty or its last line is closed by a newline.
pub open spec fn terminated(text: Seq<char>) -> bool {
    text.len() == 0 || text.last() == '\n'
}

/// The text with its last line closed: itself where it is terminated, else
/// with the missing newline added.
pub open spec fn closed(text: Seq<char>) -> Seq<char> {
    if terminated(text) {
        text
    } else {
        text.push('\n')
    }
}

/// Where the first line of `text` ends: the position of the first newline,
/// or the length of `text` where it holds none.
pub open spec fn first_break(text: Seq<char>) -> nat
    decreases text.len(),
{
    if text.len() == 0 || text[0] == '\n' {
        0
    } else {
        1 + first_break(text.drop_first())
    }
}

/// The lines of a store text. A newline closes a line and is not part of it;
/// text after the last newline is a line of its own; an empty text has no
/// lines.
pub open spec fn lines(text: Seq<char>) -> Seq<Seq<char>>
    decreases text.len(),
{
    let k = first_break(text) as int;
    if text.len() == 0 {
        Seq::empty()
    } else if k >= text.len() {
        seq![text]
    } else {
        seq![text.take(k)] + lines(text.skip(k + 1))
    }
}

/// Tells whether `text` is a single line.
pub fn is_single_line(text: &str) -> (ok: bool)
    ensures
        ok == single_line(text@),
{
    broadcast use vstd::string::group_string_axioms;

    let mut ok = true;
    for ch in it: text.chars()
        invariant
            it.seq() == text@,
            ok == single_line(text@.take(it.index() as int)),
    {
        proof {
            let i = it.index() as int;
            assert(text@.take(i + 1)[i] == ch);
        }
        if ch == '\n' {
            ok = false;
        }
    }
    assert(text@.take(text@.len() as int) == text@);
    ok
}

/// The record that appending `task` writes to the store.
pub fn record_of(task: &str) -> (out: String)
    ensures
        out@ == record(task@),
{
    let mut out = task.to_owned();
    out.push('\n');
    out
}

/// Splits a store text into its lines.
pub fn parse_lines(content: &str) -> (out: Vec<String>)
    ensures
        out.deep_view() == lines(content@),
{
    broadcast use vstd::string::group_string_axioms;

    let mut out: Vec<String> = Vec::new();
    let mut current = String::new();
    let ghost mut start: int = 0;
    assert(content@.skip(0) == content@);
    for ch in it: content.chars()
        invariant
            it.seq() == content@,
            0 <= start <= it.index(),
            current@ == content@.subrange(start, it.index() as int),
            single_line(current@),
            out.deep_view() + lines(content@.skip(start)) == lines(content@),
    {
        let ghost i = it.index() as int;
        if ch == '\n' {
            proof {
                let rest = content@.skip(start);
                assert(rest.take(i - start) == current@);
                assert(rest.skip(i - start + 1) == content@.skip(i + 1));
                lemma_lines_step(rest, i - start);
            }
            out.push(current);
            current = String::new();
            proof {
                start = i + 1;
            }
        } else {
            current.push(ch);
        }
    }
    if !current.as_str().is_empty() {
        proof {
            lemma_lines_single(content@.skip(start));
        }
        out.push(current);
    }
    out
}

/// The first line ends inside the text or at its end; it holds no newline,
/// and where it ends inside the text, a newline stands there.
pub proof fn lemma_first_break(text: Seq<char>)
    ensures
        first_break(text) <= text.len(),
        single_line(text.take(first_break(text) as int)),
        first_break(text) < text.len() ==> text[first_break(text) as int] == '\n',
    decreases text.len(),
{
    if text.len() == 0 || text[0] == '\n' {
    } else {
        let rest = text.drop_first();
        lemma_first_break(rest);
        let k = first_break(text) as int;
        let head = text.take(k);
        assert forall|i: int| 0 <= i < head.len() implies head[i] != '\n' by {
            if i > 0 {
                assert(head[i] == rest.take(k - 1)[i - 1]);
            }
        }
    }
}

/// `first_break` is the one position up to which `text` holds no newline and
/// at which it either ends or holds one.
pub proof fn lemma_first_break_is(text: Seq<char>, k: int)
    requires
        0 <= k <= text.len(),
        single_line(text.take(k)),
        k < text.len() ==> text[k] == '\n',
    ensures
        first_break(text) == k,
    decreases text.len(),
{
    if k == 0 {
    } else {
        assert(text.take(k)[0] == text[0]);
        let rest = text.drop_first();
        let head = rest.take(k - 1);
        assert forall|i: int| 0 <= i < head.len() implies head[i] != '\n' by {
            assert(head[i] == text.take(k)[i + 1]);
        }
        lemma_first_break_is(rest, k - 1);
    }
}

/// A text whose first newline stands at `k` has the text before `k` as its
/// first line, and the lines of the text after `k` as the others.
pub proof fn lemma_lines_step(text: Seq<char>, k: int)
    requires
        0 <= k < text.len(),
        single_line(text.take(k)),
        text[k] == '\n',
    ensures
        lines(text) == seq![text.take(k)] + lines(text.skip(k + 1)),
{
    lemma_first_break_is(text, k);
}

/// A text that is not empty and holds no newline is one line.
pub proof fn lemma_lines_single(text: Seq<char>)
    requires
        text.len() > 0,
        single_line(text),
    ensures
        lines(text) == seq![text],
{
    lemma_first_break_is(text, text.len() as int);
}

/// Appending the record of a single-line task to a terminated text adds that
/// task as the last line and leaves the lines before it as they were.
pub proof fn lemma_lines_append(text: Seq<char>, task: Seq<char>)
    requires
        terminated(text),
        single_line(task),
    ensures
        lines(text + record(task)) == lines(text).push(task),
        terminated(text + record(task)),
    decreases text.len(),
{
    let grown = text + record(task);
    if text.len() == 0 {
        let n = task.len() as int;
        assert(grown.take(n) == task);
        lemma_lines_step(grown, n);
    } else {
        let k = first_break(text) as int;
        lemma_first_break(text);
        assert(k < text.len()) by {
            if k >= text.len() {
                assert(text.take(k) == text);
            }
        }
        let rest = text.skip(k + 1);
        assert(terminated(rest));
        assert(grown.take(k) == text.take(k));
        assert(grown.skip(k + 1) == rest + record(task));
        lemma_lines_step(grown, k);
        lemma_lines_append(rest, task);
    }
}

/// Reading back the text that holds `tasks` gives `tasks`: no task is lost,
/// added, split or reordered.
pub proof fn lemma_lines_of_joined(tasks: Seq<Seq<char>>)
    requires
        all_single_line(tasks),
    ensures
        lines(join_records(tasks)) == tasks,
        terminated(join_records(tasks)),
    decreases tasks.len(),
{
    if tasks.len() > 0 {
        let before = tasks.drop_last();
        assert(all_single_line(before));
        lemma_lines_of_joined(before);
        lemma_lines_append(join_records(before), tasks.last());
    }
}

/// The text that holds one task is that task's record.
pub proof fn lemma_join_single(task: Seq<char>)
    ensures
        join_records(seq![task]) == record(task),
{
    let one = seq![task];
    assert(one.drop_last() == Seq::<Seq<char>>::empty());
    assert(join_records(Seq::<Seq<char>>::empty()) == Seq::<char>::empty());
}

/// The text that holds a first task and then others is the first task's
/// record followed by the text that holds the others.
pub proof fn lemma_join_prepend(first: Seq<char>, others: Seq<Seq<char>>)
    ensures
        join_records(seq![first] + others) == record(first) + join_records(others),
    decreases others.len(),
{
    let all = seq![first] + others;
    if others.len() == 0 {
        lemma_join_single(first);
    } else {
        assert(all.drop_last() == seq![first] + others.drop_last());
        lemma_join_prepend(first, others.drop_last());
    }
}

/// The lines of any text are single lines, and writing them back gives the
/// text again, with its last line closed: `lines` drops nothing but the
/// newlines that close the lines.
pub proof fn lemma_joined_lines(text: Seq<char>)
    ensures
        all_single_line(lines(text)),
        join_records(lines(text)) == closed(text),
    decreases text.len(),
{
    if text.len() > 0 {
        let k = first_break(text) as int;
        lemma_first_break(text);
        if k >= text.len() {
            assert(text.take(k) == text);
            lemma_join_single(text);
        } else {
            let rest = text.skip(k + 1);
            lemma_joined_lines(rest);
            lemma_join_prepend(text.take(k), lines(rest));
        }
    }
}

} // verus!
