use later::error::Error;
use later::line::{Line, Notice};
use later::listing::{list_content, list_tasks, notice_line};
use later::operation::{task_record, Access, Operation};
use later::store::TaskStore;

fn entry(index: usize, task: &str) -> Line {
    Line::Entry { index, task: task.to_string() }
}

fn plain(lines: &[Line]) -> Vec<String> {
    lines.iter().map(|line| line.to_plain()).collect()
}

#[test]
fn new_store_is_absent() {
    let store = TaskStore::new();
    assert!(!store.is_present());
    assert_eq!(store.text(), "");
    assert_eq!(store.tasks(), Vec::<String>::new());
}

#[test]
fn store_from_no_content_is_absent() {
    let store = TaskStore::from_content(None);
    assert!(!store.is_present());
    assert_eq!(store.text(), "");
}

#[test]
fn store_from_content_holds_it() {
    let store = TaskStore::from_content(Some(String::from("a\nb\n")));
    assert!(store.is_present());
    assert_eq!(store.text(), "a\nb\n");
    assert_eq!(store.tasks(), vec![String::from("a"), String::from("b")]);
}

#[test]
fn store_from_empty_content_is_present_and_empty() {
    let store = TaskStore::from_content(Some(String::new()));
    assert!(store.is_present());
    assert_eq!(store.tasks(), Vec::<String>::new());
    assert_eq!(store.list(), vec![Line::Notice(Notice::Empty)]);
}

#[test]
fn record_of_valid_task() {
    assert_eq!(task_record("buy milk"), Ok(String::from("buy milk\n")));
    assert_eq!(task_record(""), Ok(String::from("\n")));
}

#[test]
fn no_record_of_multi_line_task() {
    assert_eq!(task_record("buy\nmilk"), Err(Error::Validation));
}

#[test]
fn append_creates_the_store() {
    let mut store = TaskStore::new();
    assert_eq!(store.append("buy milk"), Ok(()));
    assert!(store.is_present());
    assert_eq!(store.text(), "buy milk\n");
}

#[test]
fn append_writes_at_the_end() {
    let mut store = TaskStore::from_content(Some(String::from("a\n")));
    assert_eq!(store.append("b"), Ok(()));
    assert_eq!(store.text(), "a\nb\n");
}

#[test]
fn append_after_open_line_runs_on() {
    let mut store = TaskStore::from_content(Some(String::from("a\nb")));
    assert_eq!(store.append("c"), Ok(()));
    assert_eq!(store.text(), "a\nbc\n");
    assert_eq!(store.tasks(), vec![String::from("a"), String::from("bc")]);
}

#[test]
fn multi_line_task_leaves_store_unchanged() {
    let mut store = TaskStore::from_content(Some(String::from("a\n")));
    assert_eq!(store.append("b\nc"), Err(Error::Validation));
    assert!(store.is_present());
    assert_eq!(store.text(), "a\n");
}

#[test]
fn multi_line_task_does_not_create_the_store() {
    let mut store = TaskStore::new();
    assert_eq!(store.append("b\n"), Err(Error::Validation));
    assert!(!store.is_present());
    assert_eq!(store.text(), "");
}

#[test]
fn listing_after_appends_numbers_the_tasks_in_order() {
    let tasks = ["buy milk", "call bob", "", "buy milk", "z\r", "köp mjölk"];
    let mut store = TaskStore::new();
    for task in tasks {
        assert_eq!(store.append(task), Ok(()));
    }
    let lines = store.list();
    assert_eq!(
        lines,
        vec![
            entry(1, "buy milk"),
            entry(2, "call bob"),
            entry(3, ""),
            entry(4, "buy milk"),
            entry(5, "z\r"),
            entry(6, "köp mjölk"),
        ]
    );
    assert_eq!(
        plain(&lines),
        vec!["1. buy milk", "2. call bob", "3. ", "4. buy milk", "5. z\r", "6. köp mjölk"]
    );
}

#[test]
fn listing_after_no_append_is_the_notice() {
    let store = TaskStore::new();
    let lines = store.list();
    assert_eq!(lines, vec![Line::Notice(Notice::Empty)]);
    assert_eq!(plain(&lines), vec!["No tasks to print."]);
}

#[test]
fn listing_numbers_past_nine() {
    let mut store = TaskStore::new();
    let mut n: usize = 1;
    while n <= 12 {
        assert_eq!(store.append(&format!("task {}", n)), Ok(()));
        n += 1;
    }
    let lines = plain(&store.list());
    assert_eq!(lines.len(), 12);
    assert_eq!(lines[8], "9. task 9");
    assert_eq!(lines[9], "10. task 10");
    assert_eq!(lines[11], "12. task 12");
}

#[test]
fn listing_leaves_the_store_alone() {
    let store = TaskStore::from_content(Some(String::from("a\n")));
    let _ = store.list();
    assert!(store.is_present());
    assert_eq!(store.text(), "a\n");
    let absent = TaskStore::new();
    let _ = absent.list();
    assert!(!absent.is_present());
}

#[test]
fn clear_removes_all_tasks() {
    let mut store = TaskStore::from_content(Some(String::from("a\nb\n")));
    store.clear();
    assert!(!store.is_present());
    assert_eq!(store.tasks(), Vec::<String>::new());
    assert_eq!(store.list(), vec![Line::Notice(Notice::Empty)]);
}

#[test]
fn clear_of_absent_store_does_nothing() {
    let mut store = TaskStore::new();
    store.clear();
    assert!(!store.is_present());
    assert_eq!(store.text(), "");
}

#[test]
fn clear_twice_is_clear_once() {
    let mut once = TaskStore::from_content(Some(String::from("a\n")));
    once.clear();
    let mut twice = TaskStore::from_content(Some(String::from("a\n")));
    twice.clear();
    twice.clear();
    assert_eq!(once.is_present(), twice.is_present());
    assert_eq!(once.text(), twice.text());
    assert_eq!(once.list(), twice.list());
}

#[test]
fn append_after_clear_starts_at_one() {
    let mut store = TaskStore::from_content(Some(String::from("a\nb\n")));
    store.clear();
    assert_eq!(store.append("c"), Ok(()));
    assert_eq!(store.list(), vec![entry(1, "c")]);
}

#[test]
fn list_of_no_tasks_is_the_notice() {
    assert_eq!(list_tasks(&Vec::new()), vec![Line::Notice(Notice::Empty)]);
}

#[test]
fn list_of_tasks_numbers_them() {
    let tasks = vec![String::from("a"), String::from("b")];
    assert_eq!(list_tasks(&tasks), vec![entry(1, "a"), entry(2, "b")]);
}

#[test]
fn list_of_content() {
    assert_eq!(list_content(""), vec![Line::Notice(Notice::Empty)]);
    assert_eq!(list_content("a\nb\n"), vec![entry(1, "a"), entry(2, "b")]);
    assert_eq!(list_content("a\nb"), vec![entry(1, "a"), entry(2, "b")]);
    assert_eq!(list_content("\n"), vec![entry(1, "")]);
}

#[test]
fn one_notice_line() {
    assert_eq!(notice_line(Notice::Added), vec![Line::Notice(Notice::Added)]);
}

#[test]
fn append_opens_for_appending_whether_the_file_exists_or_not() {
    let operation = Operation::Append(String::from("a\n"));
    assert_eq!(operation.access(true), Access::Append);
    assert_eq!(operation.access(false), Access::Append);
}

#[test]
fn read_opens_only_what_exists() {
    assert_eq!(Operation::Read.access(true), Access::Read);
    assert_eq!(Operation::Read.access(false), Access::Untouched);
}

#[test]
fn remove_removes_only_what_exists() {
    assert_eq!(Operation::Remove.access(true), Access::Remove);
    assert_eq!(Operation::Remove.access(false), Access::Untouched);
}

#[test]
fn reports_of_operations() {
    let append = Operation::Append(String::from("a\n"));
    assert_eq!(append.report(""), vec![Line::Notice(Notice::Added)]);
    assert_eq!(append.report("x\n"), vec![Line::Notice(Notice::Added)]);
    assert_eq!(Operation::Remove.report(""), vec![Line::Notice(Notice::Cleared)]);
    assert_eq!(Operation::Read.report(""), vec![Line::Notice(Notice::Empty)]);
    assert_eq!(Operation::Read.report("x\n"), vec![entry(1, "x")]);
}

#[test]
fn perform_append() {
    let mut store = TaskStore::new();
    let out = store.perform(&Operation::Append(String::from("a\n")));
    assert_eq!(out, vec![Line::Notice(Notice::Added)]);
    assert_eq!(store.text(), "a\n");
    assert!(store.is_present());
}

#[test]
fn perform_read() {
    let mut store = TaskStore::from_content(Some(String::from("a\n")));
    let out = store.perform(&Operation::Read);
    assert_eq!(out, vec![entry(1, "a")]);
    assert_eq!(store.text(), "a\n");
    let mut absent = TaskStore::new();
    assert_eq!(absent.perform(&Operation::Read), vec![Line::Notice(Notice::Empty)]);
    assert!(!absent.is_present());
}

#[test]
fn perform_remove() {
    let mut store = TaskStore::from_content(Some(String::from("a\n")));
    let out = store.perform(&Operation::Remove);
    assert_eq!(out, vec![Line::Notice(Notice::Cleared)]);
    assert!(!store.is_present());
    assert_eq!(store.perform(&Operation::Remove), vec![Line::Notice(Notice::Cleared)]);
    assert!(!store.is_present());
}

#[test]
fn two_hundred_tasks_are_numbered_to_two_hundred() {
    let mut store = TaskStore::new();
    let mut n: usize = 1;
    while n <= 200 {
        assert_eq!(store.append(&format!("t{}", n)), Ok(()));
        n += 1;
    }
    let lines = store.list();
    assert_eq!(lines.len(), 200);
    let mut i: usize = 0;
    while i < 200 {
        assert_eq!(lines[i].to_plain(), format!("{}. t{}", i + 1, i + 1));
        i += 1;
    }
}

#[test]
fn listing_has_one_line_for_each_task() {
    let store = TaskStore::from_content(Some(String::from("a\n\nb\r\nc")));
    let lines = store.list();
    assert_eq!(lines.len(), store.tasks().len());
    assert_eq!(lines.len(), 4);
    for line in &lines {
        assert!(!line.to_plain().contains('\n'));
    }
}
