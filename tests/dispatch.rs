use batcave::action::Action;
use batcave::commands::handle_alias;
use batcave::dispatch::{builtin_of, execute_command_internal, Builtin};
use batcave::shell::Shell;

fn shown(a: &Action) -> String {
    match a {
        Action::Show(s) => s.clone(),
        _ => panic!("expected a text to show"),
    }
}

#[test]
fn alias_is_resolved_only_once() {
    let mut shell = Shell::new();
    shell.add_alias("a".to_string(), "b".to_string());
    shell.add_alias("b".to_string(), "ls".to_string());
    match execute_command_internal("a", &mut shell) {
        Action::Run(words) => assert_eq!(words, vec!["b".to_string()]),
        _ => panic!("the alias must run `b` as a program"),
    }
}

#[test]
fn alias_replaces_all_words() {
    let mut shell = Shell::new();
    shell.add_alias("ll".to_string(), "ls -la".to_string());
    match execute_command_internal("ll ignored", &mut shell) {
        Action::ListDir(p) => assert_eq!(p, "-la"),
        _ => panic!("expected a listing"),
    }
}

#[test]
fn alias_round_trip_listing() {
    let mut shell = Shell::new();
    let added = execute_command_internal("alias foo='ls -la'", &mut shell);
    assert_eq!(shown(&added), "Added alias: foo='ls -la'");
    let listed = execute_command_internal("alias", &mut shell);
    assert_eq!(shown(&listed), "foo='ls -la'");
}

#[test]
fn alias_with_double_quotes() {
    let mut shell = Shell::new();
    execute_command_internal("alias g=\"git status\"", &mut shell);
    assert_eq!(shell.get_alias("g").unwrap(), "git status");
}

#[test]
fn alias_without_equals_is_usage() {
    let mut shell = Shell::new();
    let r = execute_command_internal("alias foo", &mut shell);
    assert_eq!(shown(&r), "Usage: alias name=command");
    assert!(shell.get_alias("foo").is_none());
}

#[test]
fn alias_redefinition_keeps_one_entry() {
    let mut shell = Shell::new();
    execute_command_internal("alias x=one", &mut shell);
    execute_command_internal("alias y=two", &mut shell);
    execute_command_internal("alias x=three", &mut shell);
    let listed = execute_command_internal("alias", &mut shell);
    assert_eq!(shown(&listed), "x='three'\ny='two'");
}

#[test]
fn empty_line_is_no_command() {
    let mut shell = Shell::new();
    let r = execute_command_internal("   ", &mut shell);
    assert_eq!(shown(&r), "No command entered");
}

#[test]
fn unknown_verb_runs_a_program() {
    let mut shell = Shell::new();
    shell.set_env("WHO".to_string(), "world".to_string());
    match execute_command_internal("greet \"big $WHO\" now", &mut shell) {
        Action::Run(words) => assert_eq!(
            words,
            vec!["greet".to_string(), "big world".to_string(), "now".to_string()]
        ),
        _ => panic!("expected a program run"),
    }
}

#[test]
fn verbs_are_case_sensitive() {
    let mut shell = Shell::new();
    assert!(matches!(execute_command_internal("ECHO hi", &mut shell), Action::Run(_)));
    assert!(builtin_of("Echo").is_none());
    assert_eq!(builtin_of("echo"), Some(Builtin::Echo));
    assert_eq!(builtin_of("remove-default"), Some(Builtin::RemoveDefault));
}

#[test]
fn echo_joins_expanded_words() {
    let mut shell = Shell::new();
    shell.set_env("USER".to_string(), "bruce".to_string());
    let r = execute_command_internal("echo hello   $USER \"a  b\"", &mut shell);
    assert_eq!(shown(&r), "hello bruce a  b");
}

#[test]
fn export_sets_variables_and_skips_others() {
    let mut shell = Shell::new();
    let r = execute_command_internal("export A=1 junk B=x=y", &mut shell);
    assert_eq!(shown(&r), "");
    assert_eq!(shell.get_env("A").unwrap(), "1");
    assert_eq!(shell.get_env("B").unwrap(), "x=y");
    assert!(shell.get_env("junk").is_none());
}

#[test]
fn export_without_words_is_usage() {
    let mut shell = Shell::new();
    let r = execute_command_internal("export", &mut shell);
    assert_eq!(shown(&r), "Usage: export NAME=value");
}

#[test]
fn env_lists_variables_in_order() {
    let mut shell = Shell::new();
    execute_command_internal("export Z=26 A=1", &mut shell);
    let r = execute_command_internal("env", &mut shell);
    assert_eq!(shown(&r), "Z=26\nA=1");
}

#[test]
fn cd_without_path_fails() {
    let mut shell = Shell::new();
    match execute_command_internal("cd", &mut shell) {
        Action::Fail(s) => assert_eq!(s, "[cd: missing argument]"),
        _ => panic!("expected a failure"),
    }
}

#[test]
fn file_commands_without_path_fail() {
    let mut shell = Shell::new();
    match execute_command_internal("mkdir", &mut shell) {
        Action::Fail(s) => assert_eq!(s, "[mkdir: missing argument]"),
        _ => panic!("expected a failure"),
    }
    match execute_command_internal("rm", &mut shell) {
        Action::Fail(s) => assert_eq!(s, "[rm: missing argument]"),
        _ => panic!("expected a failure"),
    }
    match execute_command_internal("touch", &mut shell) {
        Action::Fail(s) => assert_eq!(s, "touch: missing argument"),
        _ => panic!("expected a failure"),
    }
}

#[test]
fn file_commands_name_their_path() {
    let mut shell = Shell::new();
    assert!(matches!(execute_command_internal("mkdir x", &mut shell), Action::MakeDir(p) if p == "x"));
    assert!(matches!(execute_command_internal("rm x", &mut shell), Action::Remove(p) if p == "x"));
    assert!(matches!(execute_command_internal("touch f", &mut shell), Action::Touch(p) if p == "f"));
    assert!(matches!(execute_command_internal("cd /tmp", &mut shell), Action::ChangeDir(p) if p == "/tmp"));
    assert!(matches!(execute_command_internal("ls", &mut shell), Action::ListDir(p) if p == "."));
    assert!(matches!(execute_command_internal("pwd", &mut shell), Action::ShowCurrentDir));
    assert!(matches!(execute_command_internal("info", &mut shell), Action::ShowSystemInfo));
    assert!(matches!(execute_command_internal("jobs", &mut shell), Action::ListProcesses));
    assert!(matches!(execute_command_internal("set-default", &mut shell), Action::SetDefaultShell));
    assert!(matches!(execute_command_internal("remove-default", &mut shell), Action::RemoveDefaultShell));
}

#[test]
fn pushd_then_popd_returns() {
    let mut shell = Shell::new();
    let r = execute_command_internal("pushd /tmp", &mut shell);
    assert!(matches!(r, Action::PushDir(ref p) if p == "/tmp"));
    shell.push_dir("/home/bruce".to_string());
    match execute_command_internal("popd", &mut shell) {
        Action::ChangeDir(p) => assert_eq!(p, "/home/bruce"),
        _ => panic!("expected a change of directory"),
    }
    let again = execute_command_internal("popd", &mut shell);
    assert_eq!(shown(&again), "popd: directory stack empty");
}

#[test]
fn pushd_without_directory_is_usage() {
    let mut shell = Shell::new();
    let r = execute_command_internal("pushd", &mut shell);
    assert_eq!(shown(&r), "pushd: missing directory argument");
}

#[test]
fn systeminfo_switches_preference() {
    let mut shell = Shell::new();
    let st = execute_command_internal("systeminfo status", &mut shell);
    assert_eq!(shown(&st), "System info display is enabled");
    match execute_command_internal("systeminfo off", &mut shell) {
        Action::SavePreference(show, text) => {
            assert!(!show);
            assert_eq!(text, "[System info display disabled]");
        }
        _ => panic!("expected the preference to be saved"),
    }
    assert_eq!(shell.get_env("SHOW_SYSTEM_INFO").unwrap(), "false");
    let st = execute_command_internal("systeminfo status", &mut shell);
    assert_eq!(shown(&st), "System info display is disabled");
    match execute_command_internal("systeminfo on", &mut shell) {
        Action::SavePreference(show, text) => {
            assert!(show);
            assert_eq!(text, "[System info display enabled]");
        }
        _ => panic!("expected the preference to be saved"),
    }
    assert!(shell.get_show_system_info());
}

#[test]
fn systeminfo_without_word_is_usage() {
    let mut shell = Shell::new();
    let r = execute_command_internal("systeminfo", &mut shell);
    assert_eq!(
        shown(&r),
        "Usage: systeminfo [on|off|status] - Configure system information display"
    );
}

#[test]
fn history_is_numbered() {
    let mut shell = Shell::new();
    shell.add_to_history("ls".to_string());
    shell.add_to_history("pwd".to_string());
    let r = execute_command_internal("history", &mut shell);
    assert_eq!(shown(&r), "    1 ls\n    2 pwd");
}

#[test]
fn help_topic_and_unknown() {
    let mut shell = Shell::new();
    let r = execute_command_internal("help popd", &mut shell);
    assert_eq!(
        shown(&r),
        "popd\nPop directory from stack and change to it\n\nExample:\n  popd"
    );
    let r = execute_command_internal("help nothing", &mut shell);
    assert_eq!(
        shown(&r),
        "No help available for 'nothing'\nType 'help' for a list of commands."
    );
}

#[test]
fn alias_strips_one_layer_of_quotes() {
    let mut shell = Shell::new();
    execute_command_internal("alias x=''a''", &mut shell);
    assert_eq!(shell.get_alias("x").unwrap(), "'a'");
    execute_command_internal("alias y=\"'b'\"", &mut shell);
    assert_eq!(shell.get_alias("y").unwrap(), "b");
    let r = handle_alias(&vec!["w=\"'b'\"".to_string()], &mut shell);
    assert_eq!(r, "Added alias: w='\'b\''");
    assert_eq!(shell.get_alias("w").unwrap(), "'b'");
    execute_command_internal("alias z='c\"", &mut shell);
    assert_eq!(shell.get_alias("z").unwrap(), "'c");
    execute_command_internal("alias q='", &mut shell);
    assert_eq!(shell.get_alias("q").unwrap(), "'");
}

#[test]
fn export_skips_empty_names() {
    let mut shell = Shell::new();
    let r = execute_command_internal("export =x A=1", &mut shell);
    assert_eq!(shown(&r), "");
    assert!(shell.get_env("").is_none());
    assert_eq!(shell.env_vars().len(), 1);
    assert_eq!(shell.get_env("A").unwrap(), "1");
}

#[test]
fn pushd_step_saves_current_directory() {
    let mut shell = Shell::new();
    let pushed = execute_command_internal("pushd /tmp", &mut shell);
    let dir = match pushed {
        Action::PushDir(p) => p,
        _ => panic!("expected a push"),
    };
    match shell.pushd("/home/bruce".to_string(), dir) {
        Action::ChangeDir(p) => assert_eq!(p, "/tmp"),
        _ => panic!("expected a change of directory"),
    }
    match execute_command_internal("popd", &mut shell) {
        Action::ChangeDir(p) => assert_eq!(p, "/home/bruce"),
        _ => panic!("expected a change of directory"),
    }
    assert!(shell.pop_dir().is_none());
}
