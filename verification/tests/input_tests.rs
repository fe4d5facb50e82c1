use queue_demo::input::{first_quit_index, input_step, is_quit, InputAction, ReadOutcome};
use queue_demo::text::{eq_ignore_case_str, trim_line};

#[test]
fn quit_exact() {
    assert!(is_quit("quit"));
}

#[test]
fn quit_any_letter_case() {
    assert!(is_quit("Quit"));
    assert!(is_quit("QUIT"));
    assert!(is_quit("quiT"));
    assert!(is_quit("qUiT"));
}

#[test]
fn quit_with_surrounding_whitespace() {
    assert!(is_quit("quit "));
    assert!(is_quit("  quit"));
    assert!(is_quit("\tquit\r\n"));
    assert!(is_quit(" Quit \n"));
}

#[test]
fn quit_with_unicode_whitespace() {
    assert!(is_quit("quit\u{00A0}"));
    assert!(is_quit("\u{2003}QUIT\u{3000}"));
}

#[test]
fn non_quit_lines_do_not_stop() {
    assert!(!is_quit("quitter"));
    assert!(!is_quit("qui"));
    assert!(!is_quit(""));
    assert!(!is_quit("   "));
    assert!(!is_quit("quit now"));
    assert!(!is_quit("bum"));
}

#[test]
fn line_step_continues_or_stops() {
    assert_eq!(
        input_step(&ReadOutcome::Line(String::from("hello"))),
        InputAction::Continue
    );
    assert_eq!(
        input_step(&ReadOutcome::Line(String::from("Quit"))),
        InputAction::Stop
    );
    assert_eq!(
        input_step(&ReadOutcome::Line(String::from("quit \n"))),
        InputAction::Stop
    );
}

#[test]
fn read_failure_aborts() {
    assert_eq!(input_step(&ReadOutcome::Failed), InputAction::Abort);
}

#[test]
fn script_stops_at_first_quit() {
    let lines = vec![
        String::from("bum"),
        String::from("hello"),
        String::from(" QUIT "),
        String::from("after"),
    ];
    assert_eq!(first_quit_index(&lines), 2);
}

#[test]
fn script_without_quit_runs_through() {
    let lines = vec![String::from("a"), String::from("quitter"), String::from("b")];
    assert_eq!(first_quit_index(&lines), 3);
}

#[test]
fn trim_strips_both_ends() {
    assert_eq!(trim_line("  hello world \t"), "hello world");
    assert_eq!(trim_line("no-space"), "no-space");
    assert_eq!(trim_line("   "), "");
    assert_eq!(trim_line(""), "");
    assert_eq!(trim_line("\u{00A0}mid dle\u{2028}"), "mid dle");
}

#[test]
fn case_insensitive_comparison() {
    assert!(eq_ignore_case_str("AbC", "aBc"));
    assert!(eq_ignore_case_str("", ""));
    assert!(!eq_ignore_case_str("abc", "abd"));
    assert!(!eq_ignore_case_str("abc", "ab"));
    assert!(!eq_ignore_case_str("a{", "A["));
}
