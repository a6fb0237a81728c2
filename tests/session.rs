use batcave::shell::Shell;

#[test]
fn history_keeps_the_latest_thousand() {
    let mut shell = Shell::new();
    for i in 0..1001 {
        shell.add_to_history(format!("cmd{}", i));
    }
    let h = shell.history();
    assert_eq!(h.len(), 1000);
    assert_eq!(h[0], "cmd1");
    assert_eq!(h[999], "cmd1000");
    assert!(!h.iter().any(|c| c == "cmd0"));
}

#[test]
fn history_below_bound_keeps_all() {
    let mut shell = Shell::new();
    shell.add_to_history("a".to_string());
    shell.add_to_history("b".to_string());
    assert_eq!(shell.history().len(), 2);
    assert_eq!(shell.history()[0], "a");
}

#[test]
fn directory_stack_is_last_in_first_out() {
    let mut shell = Shell::new();
    assert!(shell.pop_dir().is_none());
    shell.push_dir("/a".to_string());
    shell.push_dir("/b".to_string());
    assert_eq!(shell.pop_dir().unwrap(), "/b");
    assert_eq!(shell.pop_dir().unwrap(), "/a");
    assert!(shell.pop_dir().is_none());
}

#[test]
fn setting_a_variable_twice_overwrites() {
    let mut shell = Shell::new();
    shell.set_env("K".to_string(), "1".to_string());
    shell.set_env("K".to_string(), "2".to_string());
    assert_eq!(shell.get_env("K").unwrap(), "2");
    assert_eq!(shell.env_vars().len(), 1);
}

#[test]
fn show_system_info_reads_case_insensitively() {
    let mut shell = Shell::new();
    assert!(shell.get_show_system_info());
    shell.set_env("SHOW_SYSTEM_INFO".to_string(), "TRUE".to_string());
    assert!(shell.get_show_system_info());
    shell.set_env("SHOW_SYSTEM_INFO".to_string(), "no".to_string());
    assert!(!shell.get_show_system_info());
    shell.set_show_system_info(true);
    assert_eq!(shell.get_env("SHOW_SYSTEM_INFO").unwrap(), "true");
}
