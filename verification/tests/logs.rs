use bot_supervisor::logs::read_logs;
use bot_supervisor::logs::LOG_TAIL_LINES;

#[test]
fn no_log_file_shows_nothing() {
    assert_eq!(read_logs(None), "");
}

#[test]
fn empty_log_shows_nothing() {
    assert_eq!(read_logs(Some("")), "");
}

#[test]
fn short_log_is_shown_whole() {
    assert_eq!(read_logs(Some("first\nsecond\n")), "first\nsecond");
}

#[test]
fn long_log_is_cut_to_the_last_two_hundred_lines() {
    assert_eq!(LOG_TAIL_LINES, 200);
    let mut content = String::new();
    for i in 0..450 {
        content.push_str(&format!("line {}\n", i));
    }
    let shown = read_logs(Some(&content));
    let lines: Vec<&str> = shown.split('\n').collect();
    assert_eq!(lines.len(), 200);
    assert_eq!(lines[0], "line 250");
    assert_eq!(lines[199], "line 449");
}

#[test]
fn log_of_exactly_two_hundred_lines_is_shown_whole() {
    let mut content = String::new();
    for i in 0..200 {
        content.push_str(&format!("{}\r\n", i));
    }
    let shown = read_logs(Some(&content));
    let lines: Vec<&str> = shown.split('\n').collect();
    assert_eq!(lines.len(), 200);
    assert_eq!(lines[0], "0");
    assert_eq!(lines[199], "199");
}

#[test]
fn log_of_two_hundred_and_one_lines_loses_the_first() {
    let mut content = String::new();
    for i in 0..201 {
        content.push_str(&format!("{}\n", i));
    }
    let shown = read_logs(Some(&content));
    assert!(shown.starts_with("1\n2\n"));
    assert!(shown.ends_with("\n200"));
}
