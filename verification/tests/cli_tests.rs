use germina::cli::{classify_repl_line, ReplInput};
use germina::ui::{prompt, render_line};
use germina::web::WebManager;
use germina::node::{Endpoint, HostAddr};

#[test]
fn end_of_input_exits() {
    assert_eq!(classify_repl_line(None), ReplInput::Exit);
}

#[test]
fn exit_in_any_case_exits() {
    assert_eq!(classify_repl_line(Some("  EXIT \n")), ReplInput::Exit);
    assert_eq!(classify_repl_line(Some("exit")), ReplInput::Exit);
}

#[test]
fn blank_lines_are_skipped() {
    assert_eq!(classify_repl_line(Some("   \n")), ReplInput::Skip);
    assert_eq!(classify_repl_line(Some("")), ReplInput::Skip);
}

#[test]
fn commands_become_argument_lists() {
    assert_eq!(
        classify_repl_line(Some("node  start -n client\n")),
        ReplInput::Command(vec!["germina".into(), "node".into(), "start".into(), "-n".into(), "client".into()])
    );
    assert_eq!(
        classify_repl_line(Some("exit now")),
        ReplInput::Command(vec!["germina".into(), "exit".into(), "now".into()])
    );
}

#[test]
fn lines_are_printed_around_the_prompt() {
    assert_eq!(prompt(), "germina> ");
    assert_eq!(render_line("hello", false), "hello\n");
    assert_eq!(render_line("hello", true), "\rhello\ngermina> ");
}

#[test]
fn web_manager_keeps_its_address() {
    let a = Endpoint { host: HostAddr::V4(0, 0, 0, 0), port: 18080 };
    assert_eq!(WebManager::new(a).web_addr, a);
}
