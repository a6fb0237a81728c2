use batcave::complete::{autocomplete, classify_line, InputLine};
use batcave::help::{command_specific_help, general_help, GENERAL_HELP};
use batcave::shell::Shell;
use batcave::text::extract_word;

#[test]
fn completion_candidates_in_order() {
    let mut shell = Shell::new();
    shell.add_alias("ec".to_string(), "echo".to_string());
    shell.set_env("EDITOR".to_string(), "vim".to_string());
    shell.set_env("ehome".to_string(), "x".to_string());
    let entries = vec!["exports.txt".to_string(), "notes".to_string()];
    assert_eq!(
        autocomplete("e", &shell, &entries),
        vec!["echo", "export", "env", "ec", "$ehome", "exports.txt"]
    );
    assert_eq!(autocomplete("E", &shell, &entries), vec!["$EDITOR"]);
    assert_eq!(autocomplete("zz", &shell, &entries), Vec::<String>::new());
}

#[test]
fn input_lines_are_classified() {
    assert!(matches!(classify_line("   "), InputLine::Blank));
    assert!(matches!(classify_line("  exit "), InputLine::Exit));
    match classify_line("  ls -la  ") {
        InputLine::Command(c) => assert_eq!(c, "ls -la"),
        _ => panic!("expected a command"),
    }
}

#[test]
fn general_help_lists_commands() {
    let text = general_help();
    assert_eq!(text, GENERAL_HELP);
    assert!(text.contains("  pushd    - Push directory to stack\n"));
    assert!(text.ends_with("Usage: help <command> for specific command details\n"));
}

#[test]
fn specific_help_pages() {
    assert_eq!(
        command_specific_help("cd"),
        "cd [directory]\nChange current directory\n\nExamples:\n  cd /home/user\n  cd ..\n  cd ~"
    );
    assert_eq!(
        command_specific_help("alias"),
        "alias [name=value]\nCreate command aliases or show existing ones\n\nExamples:\n  alias ll='ls -la'\n  alias"
    );
}

#[test]
fn completion_offers_every_builtin() {
    let shell = Shell::new();
    let none: Vec<String> = Vec::new();
    assert_eq!(autocomplete("pushd", &shell, &none), vec!["pushd"]);
    assert_eq!(autocomplete("p", &shell, &none), vec!["pwd", "pushd", "popd"]);
    assert_eq!(autocomplete("s", &shell, &none), vec!["systeminfo", "set-default"]);
    assert_eq!(autocomplete("h", &shell, &none), vec!["history", "help"]);
    assert_eq!(autocomplete("r", &shell, &none), vec!["rm", "remove-default"]);
    assert_eq!(autocomplete("i", &shell, &none), vec!["info"]);
    assert_eq!(autocomplete("j", &shell, &none), vec!["jobs"]);
}

#[test]
fn word_before_cursor() {
    assert_eq!(extract_word("ls sr"), "sr");
    assert_eq!(extract_word("echo "), "");
    assert_eq!(extract_word("pwd"), "pwd");
    assert_eq!(extract_word(""), "");
    assert_eq!(extract_word("a\tb\u{3000}cd"), "cd");
}
