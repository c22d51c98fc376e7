use germina::ui::{prompt, render_line, Console};

#[test]
fn lines_redraw_a_visible_prompt() {
    assert_eq!(prompt(), "germina> ");
    assert_eq!(render_line("hello", false), "hello\n");
    assert_eq!(render_line("hello", true), "\rhello\ngermina> ");
}

#[test]
fn console_tracks_the_prompt() {
    let mut c = Console::new();
    assert!(!c.prompt_visible());
    assert_eq!(c.print_line("a"), "a\n");
    assert_eq!(c.print_prompt(), "germina> ");
    assert!(c.prompt_visible());
    assert_eq!(c.print_line("b"), "\rb\ngermina> ");
    assert!(c.prompt_visible());
    c.set_prompt_visible(false);
    assert_eq!(c.print_line("c"), "c\n");
}
