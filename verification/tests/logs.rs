use procdash::command::CommandLine;
use procdash::output::OutputLog;

fn strings(items: &[&str]) -> Vec<String> {
    items.iter().map(|item| item.to_string()).collect()
}

#[test]
fn new_log_is_empty() {
    let log = OutputLog::new();
    assert_eq!(log.len(), 0);
    assert!(log.is_empty());
    assert_eq!(log.line(0), None);
    assert_eq!(log.text(), "");
}

#[test]
fn log_keeps_lines_in_order() {
    let mut log = OutputLog::new();
    log.append("first".to_string());
    log.append("".to_string());
    log.append("third".to_string());
    assert_eq!(log.len(), 3);
    assert!(!log.is_empty());
    assert_eq!(log.line(0), Some("first"));
    assert_eq!(log.line(1), Some(""));
    assert_eq!(log.line(2), Some("third"));
    assert_eq!(log.line(3), None);
}

#[test]
fn log_text_closes_every_line() {
    let mut log = OutputLog::new();
    log.append("a".to_string());
    assert_eq!(log.text(), "a\n");
    log.append("b".to_string());
    assert_eq!(log.text(), "a\nb\n");
    log.append("".to_string());
    assert_eq!(log.text(), "a\nb\n\n");
}

#[test]
fn log_keeps_text_that_is_not_ascii() {
    let mut log = OutputLog::new();
    log.append("héllo wörld ✓".to_string());
    assert_eq!(log.line(0), Some("héllo wörld ✓"));
    assert_eq!(log.text(), "héllo wörld ✓\n");
}

#[test]
fn log_snapshot_is_untouched_by_later_appends() {
    let mut log = OutputLog::new();
    log.append("a".to_string());
    let copy = log.snapshot();
    log.append("b".to_string());
    assert_eq!(copy.len(), 1);
    assert_eq!(copy.text(), "a\n");
    assert_eq!(log.len(), 2);
}

#[test]
fn no_tokens_give_no_command() {
    assert!(CommandLine::from_tokens(Vec::new()).is_none());
}

#[test]
fn first_token_is_the_program() {
    let command = CommandLine::from_tokens(strings(&["ls"])).unwrap();
    assert_eq!(command.program(), "ls");
    assert_eq!(command.arg_count(), 0);
    assert_eq!(command.arg(0), None);
}

#[test]
fn other_tokens_are_the_arguments_verbatim() {
    let command = CommandLine::from_tokens(strings(&["sh", "-c", "echo a b", ""])).unwrap();
    assert_eq!(command.program(), "sh");
    assert_eq!(command.arg_count(), 3);
    assert_eq!(command.arg(0), Some("-c"));
    assert_eq!(command.arg(1), Some("echo a b"));
    assert_eq!(command.arg(2), Some(""));
    assert_eq!(command.arg(3), None);
}

#[test]
fn command_snapshot_is_equal() {
    let command = CommandLine::from_tokens(strings(&["sh", "-c", "true"])).unwrap();
    let copy = command.snapshot();
    assert_eq!(copy.program(), "sh");
    assert_eq!(copy.arg_count(), 2);
    assert_eq!(copy.arg(0), Some("-c"));
    assert_eq!(copy.arg(1), Some("true"));
}
