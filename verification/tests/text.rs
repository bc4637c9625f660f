use later::text::{is_single_line, parse_lines, record_of};

fn owned(lines: &[&str]) -> Vec<String> {
    lines.iter().map(|line| line.to_string()).collect()
}

#[test]
fn plain_text_is_a_single_line() {
    assert!(is_single_line("buy milk"));
}

#[test]
fn empty_text_is_a_single_line() {
    assert!(is_single_line(""));
}

#[test]
fn text_with_newline_is_not_a_single_line() {
    assert!(!is_single_line("buy\nmilk"));
    assert!(!is_single_line("\n"));
    assert!(!is_single_line("buy milk\n"));
    assert!(!is_single_line("\nbuy milk"));
}

#[test]
fn carriage_return_is_no_newline() {
    assert!(is_single_line("buy milk\r"));
}

#[test]
fn non_ascii_text_is_a_single_line() {
    assert!(is_single_line("köp mjölk – 牛乳"));
}

#[test]
fn record_is_task_and_newline() {
    assert_eq!(record_of("buy milk"), "buy milk\n");
}

#[test]
fn record_of_empty_task_is_newline() {
    assert_eq!(record_of(""), "\n");
}

#[test]
fn record_keeps_non_ascii_text() {
    assert_eq!(record_of("köp mjölk"), "köp mjölk\n");
}

#[test]
fn empty_content_has_no_lines() {
    assert_eq!(parse_lines(""), Vec::<String>::new());
}

#[test]
fn one_closed_line() {
    assert_eq!(parse_lines("buy milk\n"), owned(&["buy milk"]));
}

#[test]
fn several_closed_lines_keep_their_order() {
    assert_eq!(parse_lines("b\na\nc\n"), owned(&["b", "a", "c"]));
}

#[test]
fn equal_lines_are_all_kept() {
    assert_eq!(parse_lines("a\na\n"), owned(&["a", "a"]));
}

#[test]
fn open_last_line_is_a_line() {
    assert_eq!(parse_lines("a\nb"), owned(&["a", "b"]));
    assert_eq!(parse_lines("a"), owned(&["a"]));
}

#[test]
fn lone_newline_is_one_empty_line() {
    assert_eq!(parse_lines("\n"), owned(&[""]));
}

#[test]
fn empty_lines_are_kept() {
    assert_eq!(parse_lines("a\n\nb\n"), owned(&["a", "", "b"]));
    assert_eq!(parse_lines("\n\n"), owned(&["", ""]));
}

#[test]
fn carriage_return_stays_in_its_line() {
    assert_eq!(parse_lines("a\r\nb\r\n"), owned(&["a\r", "b\r"]));
}

#[test]
fn non_ascii_lines_are_kept() {
    assert_eq!(parse_lines("köp mjölk\n牛乳\n"), owned(&["köp mjölk", "牛乳"]));
}

#[test]
fn records_read_back_as_their_tasks() {
    let tasks = ["buy milk", "", "call bob\r", "  spaced  ", "köp mjölk"];
    let mut content = String::new();
    for task in tasks {
        content.push_str(&record_of(task));
    }
    assert_eq!(parse_lines(&content), owned(&tasks));
}

#[test]
fn lines_are_the_pieces_between_newlines() {
    let samples = [
        "",
        "\n",
        "a",
        "a\n",
        "\na",
        "a\n\n",
        "\n\na",
        "a\nb\nc",
        "a\nb\nc\n",
        " \n\t\n",
        "one\r\ntwo\r\n",
        "tab\there\nand there\n",
        "é\nü\n\nß",
    ];
    for sample in samples {
        let mut pieces: Vec<String> = sample.split('\n').map(|piece| piece.to_string()).collect();
        if pieces.last().map(|piece| piece.is_empty()) == Some(true) {
            pieces.pop();
        }
        assert_eq!(parse_lines(sample), pieces);
    }
}

#[test]
fn long_content_is_split() {
    let mut content = String::new();
    let mut n: usize = 0;
    while n < 5000 {
        content.push_str(&record_of(&format!("task number {}", n)));
        n += 1;
    }
    let lines = parse_lines(&content);
    assert_eq!(lines.len(), 5000);
    assert_eq!(lines[0], "task number 0");
    assert_eq!(lines[4999], "task number 4999");
}
