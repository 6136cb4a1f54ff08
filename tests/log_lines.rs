use golem_worker::log::{
    drain_step, events_to_lines, holds_end_marker, lines, log_event_to_string, output_of,
    stderr_event, stdout_event, stdout_event_starting_with, LogEvent, LogLevel,
};

fn strings(v: &[&str]) -> Vec<String> {
    v.iter().map(|s| s.to_string()).collect()
}

#[test]
fn stdout_and_stderr_events_carry_their_text() {
    let out = stdout_event("hello");
    let err = stderr_event("oops");
    assert!(matches!(&out, LogEvent::Stdout { message } if message == "hello"));
    assert!(matches!(&err, LogEvent::Stderr { message } if message == "oops"));
    assert_eq!(log_event_to_string(&out), "hello");
    assert_eq!(log_event_to_string(&err), "oops");
}

#[test]
fn log_event_text_of_a_log_line() {
    let e = LogEvent::Log {
        level: LogLevel::Info,
        context: "ctx".to_string(),
        message: "started".to_string(),
    };
    assert_eq!(log_event_to_string(&e), "started");
}

#[test]
fn starting_with_looks_at_stdout_only() {
    assert!(stdout_event_starting_with(&stdout_event("Hello world"), "Hello"));
    assert!(stdout_event_starting_with(&stdout_event("Hello"), ""));
    assert!(!stdout_event_starting_with(&stdout_event("Hi"), "Hello"));
    assert!(!stdout_event_starting_with(&stderr_event("Hello world"), "Hello"));
}

#[test]
fn captured_lines_of_three_prints() {
    let events = vec![stdout_event("a\n"), stdout_event("b\n"), stdout_event("c\n")];
    assert_eq!(events_to_lines(&events), strings(&["a", "b", "c"]));
}

#[test]
fn lines_split_across_events() {
    let events = vec![stdout_event("hel"), stderr_event("lo\nwor"), stdout_event("ld")];
    assert_eq!(output_of(&events), "hello\nworld");
    assert_eq!(events_to_lines(&events), strings(&["hello", "world"]));
}

#[test]
fn lines_follow_std_lines() {
    let cases = ["", "\n", "a", "a\n", "a\n\n", "a\r\nb", "a\r", "a\rb\n", "\r\n", "x\n\ny"];
    for case in cases {
        let want: Vec<String> = case.lines().map(|s| s.to_string()).collect();
        assert_eq!(lines(case), want, "case {case:?}");
    }
}

#[test]
fn end_marker_is_found_in_a_batch() {
    assert!(!holds_end_marker(&vec![Some(stdout_event("a"))]));
    assert!(holds_end_marker(&vec![Some(stdout_event("a")), None]));
    assert!(!holds_end_marker(&vec![]));
}

#[test]
fn draining_keeps_events_until_the_end() {
    let mut events = vec![Some(stdout_event("a"))];
    assert!(drain_step(&mut events, Some(Some(stdout_event("b")))));
    assert_eq!(events.len(), 2);
    assert!(!drain_step(&mut events, Some(None)));
    assert_eq!(events.len(), 2);
    assert!(!drain_step(&mut events, None));
    assert_eq!(events.len(), 2);
}
