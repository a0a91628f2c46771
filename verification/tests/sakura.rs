use mascot_nanai::sakura::{execute_sakura_script, SakuraCommand};

fn run(script: &str) -> Vec<SakuraCommand> {
    execute_sakura_script(script)
}

fn is_text(cmd: &SakuraCommand, expected: &str) -> bool {
    match cmd {
        SakuraCommand::Text(t) => t == expected,
        _ => false,
    }
}

#[test]
fn example_script_parses_in_order() {
    let cmds = run("\\0\\s[0]\u{3053}\u{3093}\u{306B}\u{3061}\u{306F}\\e");
    assert_eq!(cmds.len(), 4);
    assert!(matches!(cmds[0], SakuraCommand::Target(0)));
    assert!(matches!(cmds[1], SakuraCommand::Surface(0)));
    assert!(is_text(&cmds[2], "\u{3053}\u{3093}\u{306B}\u{3061}\u{306F}"));
    assert!(matches!(cmds[3], SakuraCommand::End));
}

#[test]
fn plain_text_is_one_run() {
    let cmds = run("hello");
    assert_eq!(cmds.len(), 1);
    assert!(is_text(&cmds[0], "hello"));
}

#[test]
fn empty_script_has_no_commands() {
    assert!(run("").is_empty());
}

#[test]
fn second_target_and_multidigit_surface() {
    let cmds = run("\\1\\s[12]x");
    assert_eq!(cmds.len(), 3);
    assert!(matches!(cmds[0], SakuraCommand::Target(1)));
    assert!(matches!(cmds[1], SakuraCommand::Surface(12)));
    assert!(is_text(&cmds[2], "x"));
}

#[test]
fn text_flushes_around_commands() {
    let cmds = run("a\\eb");
    assert_eq!(cmds.len(), 3);
    assert!(is_text(&cmds[0], "a"));
    assert!(matches!(cmds[1], SakuraCommand::End));
    assert!(is_text(&cmds[2], "b"));
}

#[test]
fn overflowing_surface_number_is_dropped() {
    let cmds = run("\\s[99999999999]x");
    assert_eq!(cmds.len(), 1);
    assert!(is_text(&cmds[0], "x"));
}

#[test]
fn non_numeric_surface_is_dropped() {
    let cmds = run("\\s[abc]x");
    assert_eq!(cmds.len(), 1);
    assert!(is_text(&cmds[0], "x"));
}

#[test]
fn empty_surface_brackets_are_dropped() {
    assert!(run("\\s[]").is_empty());
}

#[test]
fn plus_signed_surface_number_parses() {
    let cmds = run("\\s[+5]");
    assert_eq!(cmds.len(), 1);
    assert!(matches!(cmds[0], SakuraCommand::Surface(5)));
}

#[test]
fn unclosed_bracket_still_parses_digits() {
    let cmds = run("\\s[7");
    assert_eq!(cmds.len(), 1);
    assert!(matches!(cmds[0], SakuraCommand::Surface(7)));
}

#[test]
fn surface_without_bracket_consumes_one_character() {
    // The character right after `s` is consumed even when it is not `[`.
    assert!(run("\\sx").is_empty());
    let cmds = run("\\sxy");
    assert_eq!(cmds.len(), 1);
    assert!(is_text(&cmds[0], "y"));
}

#[test]
fn unknown_command_characters_are_skipped() {
    let cmds = run("\\qab");
    assert_eq!(cmds.len(), 1);
    assert!(is_text(&cmds[0], "ab"));
}

#[test]
fn trailing_backslash_only_flushes_text() {
    let cmds = run("ab\\");
    assert_eq!(cmds.len(), 1);
    assert!(is_text(&cmds[0], "ab"));
}
