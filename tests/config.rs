use batcave::config::{config_with_preference, default_config, parse_config_line, split_lines};
use batcave::shell::Shell;

#[test]
fn config_lines_follow_str_lines() {
    assert_eq!(split_lines("a\r\nb\n\nc\n"), vec!["a", "b", "", "c"]);
    assert_eq!(split_lines(""), Vec::<String>::new());
    assert_eq!(split_lines("x\r"), vec!["x\r"]);
}

#[test]
fn config_directives_are_loaded() {
    let mut shell = Shell::new();
    shell.load_config(
        "# comment\n\nalias ll=\"ls -la\"\n  export EDITOR = \"vim\"  \nnonsense line\nexport BROKEN\nalias ll=\"ls -l\"\n",
    );
    assert_eq!(shell.get_alias("ll").unwrap(), "ls -l");
    assert_eq!(shell.get_env("EDITOR").unwrap(), "vim");
    assert!(shell.get_env("BROKEN").is_none());
    assert_eq!(shell.aliases().len(), 1);
    assert_eq!(shell.env_vars().len(), 1);
}

#[test]
fn default_config_loads_its_aliases() {
    let mut shell = Shell::new();
    shell.load_config(&default_config());
    assert_eq!(shell.get_alias("gst").unwrap(), "git status");
    assert_eq!(shell.get_env("TERM").unwrap(), "xterm-256color");
    assert_eq!(shell.get_env("PATH").unwrap(), "$HOME/.cargo/bin:$PATH");
}

#[test]
fn config_line_parts() {
    let d = parse_config_line("export  NAME=va=lue").unwrap();
    assert!(!d.alias);
    assert_eq!(d.name, "NAME");
    assert_eq!(d.value, "va=lue");
    assert!(parse_config_line("#alias a=b").is_none());
    assert!(parse_config_line("aliasx=y").is_none());
}

#[test]
fn preference_line_is_replaced() {
    let out = config_with_preference("alias a=b\n  export SHOW_SYSTEM_INFO=\"true\"\nexport X=1\n", false);
    assert_eq!(out, "alias a=b\nexport SHOW_SYSTEM_INFO=\"false\"\nexport X=1");
}

#[test]
fn preference_line_is_added() {
    let out = config_with_preference("alias a=b\n", true);
    assert_eq!(out, "alias a=b\nexport SHOW_SYSTEM_INFO=\"true\"");
}

#[test]
fn config_export_needs_a_name() {
    assert!(parse_config_line("export =x").is_none());
    assert!(parse_config_line("export   =x").is_none());
    let mut shell = Shell::new();
    shell.load_config("export =x\nexport B=2\n");
    assert!(shell.get_env("").is_none());
    assert_eq!(shell.env_vars().len(), 1);
}
