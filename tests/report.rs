use batcave::report::{
    change_directory, create_directory, create_file, current_directory, execute_external_command,
    handle_jobs, list_directory, needs_shells_entry, remove_default_shell,
    remove_file_or_directory, set_as_default_shell, shells_entry_command, shells_entry_failed,
    timing_notice, DirEntry, ProgramOutput,
};

#[test]
fn mkdir_then_rm_reports_success() {
    let made = create_directory("x", &Ok(()));
    assert_eq!(made.text, "[Directory created: x]");
    assert!(made.log.is_none());
    let removed = remove_file_or_directory("x", true, &Ok(()));
    assert_eq!(removed.text, "[Directory removed: x]");
    assert!(removed.log.is_none());
}

#[test]
fn rm_missing_path_reports_os_error() {
    let err = "No such file or directory (os error 2)".to_string();
    let r = remove_file_or_directory("nonexistent", false, &Err(err));
    assert_eq!(r.text, "[Failed to remove file: No such file or directory (os error 2)]");
    assert_eq!(
        r.log.unwrap(),
        "Failed to remove file: No such file or directory (os error 2)"
    );
}

#[test]
fn rm_directory_failure_and_file_success() {
    let r = remove_file_or_directory("d", true, &Err("Permission denied".to_string()));
    assert_eq!(r.text, "[Failed to remove directory: Permission denied]");
    let r = remove_file_or_directory("f", false, &Ok(()));
    assert_eq!(r.text, "[File removed: f]");
}

#[test]
fn cd_reports() {
    assert_eq!(change_directory("/tmp", &Ok(())).text, "[Changed to directory: /tmp]");
    let r = change_directory("/nope", &Err("not found".to_string()));
    assert_eq!(r.text, "[Failed to change directory: not found]");
    assert_eq!(r.log.unwrap(), "Failed to change directory: not found");
}

#[test]
fn mkdir_failure_report() {
    let r = create_directory("x", &Err("File exists (os error 17)".to_string()));
    assert_eq!(r.text, "[Failed to create directory: File exists (os error 17)]");
}

#[test]
fn touch_reports() {
    assert_eq!(create_file("f", &Ok(())).text, "File created: f");
    let r = create_file("a/b", &Err("No such file or directory".to_string()));
    assert_eq!(r.text, "Failed to create file: No such file or directory");
    assert_eq!(r.log.unwrap(), "Failed to create file: No such file or directory");
}

#[test]
fn ls_marks_directories() {
    let entries = vec![
        DirEntry { name: "src".to_string(), is_dir: true },
        DirEntry { name: "a.txt".to_string(), is_dir: false },
    ];
    assert_eq!(list_directory(&Ok(entries)).text, "src/  a.txt");
    assert_eq!(list_directory(&Ok(Vec::new())).text, "");
    let r = list_directory(&Err("denied".to_string()));
    assert_eq!(r.text, "[Failed to list directory: denied]");
}

#[test]
fn pwd_and_jobs_reports() {
    assert_eq!(current_directory(&Some("/home".to_string())), "/home");
    assert_eq!(current_directory(&None), "Failed to get current directory");
    assert_eq!(handle_jobs(&Some("PID".to_string())), "PID");
    assert_eq!(handle_jobs(&None), "Failed to get process list");
}

#[test]
fn program_output_choice() {
    let ok = ProgramOutput { success: true, stdout: "out".to_string(), stderr: "err".to_string() };
    assert_eq!(execute_external_command(&Ok(ok)), "out");
    let bad = ProgramOutput { success: false, stdout: "out".to_string(), stderr: "err".to_string() };
    assert_eq!(execute_external_command(&Ok(bad)), "err");
    assert_eq!(
        execute_external_command(&Err("No such file or directory (os error 2)".to_string())),
        "Failed to execute command: No such file or directory (os error 2)"
    );
}

#[test]
fn login_shell_reports() {
    assert!(!needs_shells_entry("/bin/sh\n/usr/bin/batcave\n", "/usr/bin/batcave"));
    assert!(needs_shells_entry("/bin/sh\n", "/usr/bin/batcave"));
    assert!(needs_shells_entry("", "/x"));
    assert_eq!(shells_entry_command("/b"), "echo '/b' >> /etc/shells");
    assert_eq!(shells_entry_failed(), "[Failed to add Batcave to /etc/shells]");
    assert_eq!(
        set_as_default_shell(&Ok(())),
        "[Batcave set as default shell. Please log out and back in for changes to take effect]"
    );
    assert_eq!(
        set_as_default_shell(&Err("boom".to_string())),
        "[Failed to set Batcave as default shell: boom]"
    );
    assert_eq!(
        remove_default_shell(&Ok(())),
        "[Default shell reset to bash. Please log out and back in for changes to take effect]"
    );
    assert_eq!(
        remove_default_shell(&Err("boom".to_string())),
        "[Failed to reset default shell: boom]"
    );
}

#[test]
fn timing_notice_rounds_to_hundredths() {
    assert!(timing_notice(999).is_none());
    assert!(timing_notice(1000).is_none());
    assert_eq!(timing_notice(1234).unwrap(), "Command took 1.23s");
    assert_eq!(timing_notice(1005).unwrap(), "Command took 1.01s");
    assert_eq!(timing_notice(12999).unwrap(), "Command took 13.00s");
    assert_eq!(timing_notice(61070).unwrap(), "Command took 61.07s");
}
