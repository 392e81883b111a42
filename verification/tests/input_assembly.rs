use vapor_cli::repl::{handle_multi_line_input, is_complete_command};

#[test]
fn terminated_line_is_a_command_at_once() {
    let mut buffer = String::new();
    let command = handle_multi_line_input(&mut buffer, "SELECT 1;");
    assert_eq!(command, Some("SELECT 1;".to_string()));
    assert_eq!(buffer, "");
}

#[test]
fn statement_over_two_lines_is_joined_by_a_space() {
    let mut buffer = String::new();
    assert_eq!(handle_multi_line_input(&mut buffer, "SELECT"), None);
    assert_eq!(buffer, "SELECT");
    let command = handle_multi_line_input(&mut buffer, "1;");
    assert_eq!(command, Some("SELECT 1;".to_string()));
    assert_eq!(buffer, "");
}

#[test]
fn bare_keyword_needs_no_semicolon() {
    let mut buffer = String::new();
    let command = handle_multi_line_input(&mut buffer, "tables");
    assert_eq!(command, Some("tables".to_string()));
    assert_eq!(buffer, "");
    assert!(is_complete_command("TABLES"));
    assert!(is_complete_command("Begin transaction"));
    assert!(is_complete_command(".format json"));
    assert!(!is_complete_command("select 1"));
}

#[test]
fn empty_line_with_nothing_pending_is_passed_over() {
    let mut buffer = String::new();
    assert_eq!(handle_multi_line_input(&mut buffer, ""), None);
    assert_eq!(buffer, "");
}
