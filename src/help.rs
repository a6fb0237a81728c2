//! The help texts: a summary of the commands, and a page for each.
use vstd::prelude::*;

use crate::text::{append_str, copy_of, same_text, views};

verus! {

/// The summary of all commands.
pub const GENERAL_HELP: &'static str = "\n\
\x20  \u{1f987} Batcave Shell \u{1f987}\n\
\x20     ___      _    \n\
\x20    | _ )__ _| |_  \n\
\x20    | _ / _` |  _| \n\
\x20    |___\\__,_|\\__| \n\
\x20                   \n\
\n\
Available Commands\n\
==================\n\
\n\
\n\
Directory Navigation:\n\
\x20 pushd    - Push directory to stack\n\
\x20 popd     - Pop directory from stack\n\
\n\
Process Management:\n\
\x20 jobs     - List active jobs\n\
\n\
History Management:\n\
\x20 history  - Show command history\n\
File Operations:\n\
\x20 ls      - List directory contents\n\
\x20 pwd      - Print working directory\n\
\x20 cd      - Change directory\n\
\x20 mkdir    - Create directory\n\
\x20 rm      - Remove file/directory\n\
\x20 touch    - Create empty file\n\
\n\
Shell Management:\n\
\x20 init    - Create .batcaverc config\n\
\x20 set-default    - Set as default shell\n\
\x20 remove-default - Remove as default shell\n\
\x20 exit    - Exit the shell\n\
\n\
Environment & Aliases:\n\
\x20 alias    - Define/display aliases\n\
\x20 export   - Set environment variables\n\
\x20 env      - Show environment variables\n\
\n\
System & Help:\n\
\x20 info     - Show system information\n\
\x20 help     - Display this help message\n\
\x20 echo     - Show command echo output\n\
\n\
Shell Features:\n\
\x20\u{2022} Command history (\u{2191}/\u{2193} arrows)\n\
\x20\u{2022} Tab completion for commands & files\n\
\x20\u{2022} Environment variable expansion ($VAR)\n\
\x20\u{2022} Custom aliases and configurations\n\
\n\
Usage: help <command> for specific command details\n";

/// The help page of a command, if it has one: its usage line, what it does,
/// and examples.
pub open spec fn topic_help(t: Seq<char>) -> Option<Seq<char>> {
    if t == "pushd"@ {
        Some("pushd <directory>\nPush current directory to stack and change to new directory\n\nExample:\n  pushd /path/to/dir"@)
    } else if t == "popd"@ {
        Some("popd\nPop directory from stack and change to it\n\nExample:\n  popd"@)
    } else if t == "jobs"@ {
        Some("jobs\nList currently running background jobs\n\nExample:\n  jobs"@)
    } else if t == "history"@ {
        Some("history\nDisplay command history\n\nExample:\n  history"@)
    } else if t == "systeminfo"@ {
        Some("systeminfo [on|off|status]\nConfigure system information display on startup\n\nExamples:\n  systeminfo on\n  systeminfo off\n  systeminfo status"@)
    } else if t == "echo"@ {
        Some("echo [text...]\nDisplay text or variable content\n\nExamples:\n  echo Hello, World!\n  echo $USER is using Batcave"@)
    } else if t == "pwd"@ {
        Some("pwd\nPrint current working directory path\n\nExample:\n  pwd"@)
    } else if t == "cd"@ {
        Some("cd [directory]\nChange current directory\n\nExamples:\n  cd /home/user\n  cd ..\n  cd ~"@)
    } else if t == "ls"@ {
        Some("ls [directory]\nList directory contents\n\nExamples:\n  ls\n  ls /home\n  ls -la"@)
    } else if t == "mkdir"@ {
        Some("mkdir <directory>\nCreate new directory\n\nExamples:\n  mkdir new_folder\n  mkdir -p parent/child"@)
    } else if t == "rm"@ {
        Some("rm <path>\nRemove file or directory\n\nExamples:\n  rm file.txt\n  rm -r directory"@)
    } else if t == "touch"@ {
        Some("touch <filename>\nCreate empty file or update timestamp\n\nExamples:\n  touch newfile.txt\n  touch file1.txt file2.txt"@)
    } else if t == "alias"@ {
        Some("alias [name=value]\nCreate command aliases or show existing ones\n\nExamples:\n  alias ll='ls -la'\n  alias"@)
    } else if t == "export"@ {
        Some("export NAME=value\nSet environment variables\n\nExamples:\n  export PATH=$PATH:/new/path\n  export EDITOR=vim"@)
    } else if t == "env"@ {
        Some("env\nDisplay all environment variables\n\nExample:\n  env"@)
    } else if t == "init"@ {
        Some("init\nCreate default .batcaverc configuration file\n\nExample:\n  init"@)
    } else if t == "set-default"@ {
        Some("set-default\nSet Batcave as your default shell\n\nExample:\n  set-default"@)
    } else if t == "remove-default"@ {
        Some("remove-default\nRemove Batcave as default shell (revert to bash)\n\nExample:\n  remove-default"@)
    } else if t == "info"@ {
        Some("info\nDisplay system information and resources\n\nExample:\n  info"@)
    } else if t == "help"@ {
        Some("help [command]\nDisplay help information\n\nExamples:\n  help\n  help cd"@)
    } else if t == "exit"@ {
        Some("exit\nExit the Batcave shell\n\nExample:\n  exit"@)
    } else {
        None
    }
}

/// The page shown for a word that names no command.
pub open spec fn unknown_topic(t: Seq<char>) -> Seq<char> {
    "No help available for '"@ + t + "'\nType 'help' for a list of commands."@
}

/// What `help` shows: the summary without a word, else the page of the
/// first word.
pub open spec fn help_text(args: Seq<Seq<char>>) -> Seq<char> {
    if args.len() == 0 {
        GENERAL_HELP@
    } else {
        match topic_help(args[0]) {
            Some(p) => p,
            None => unknown_topic(args[0]),
        }
    }
}

/// The summary of all commands.
pub fn general_help() -> (r: String)
    ensures
        r@ == GENERAL_HELP@,
{
    copy_of(GENERAL_HELP)
}

/// The help page of `command` (see `topic_help` and `unknown_topic`).
pub fn command_specific_help(command: &str) -> (r: String)
    ensures
        r@ == match topic_help(command@) {
            Some(p) => p,
            None => unknown_topic(command@),
        },
{
    if same_text(command, "pushd") {
        copy_of("pushd <directory>\nPush current directory to stack and change to new directory\n\nExample:\n  pushd /path/to/dir")
    } else if same_text(command, "popd") {
        copy_of("popd\nPop directory from stack and change to it\n\nExample:\n  popd")
    } else if same_text(command, "jobs") {
        copy_of("jobs\nList currently running background jobs\n\nExample:\n  jobs")
    } else if same_text(command, "history") {
        copy_of("history\nDisplay command history\n\nExample:\n  history")
    } else if same_text(command, "systeminfo") {
        copy_of("systeminfo [on|off|status]\nConfigure system information display on startup\n\nExamples:\n  systeminfo on\n  systeminfo off\n  systeminfo status")
    } else if same_text(command, "echo") {
        copy_of("echo [text...]\nDisplay text or variable content\n\nExamples:\n  echo Hello, World!\n  echo $USER is using Batcave")
    } else if same_text(command, "pwd") {
        copy_of("pwd\nPrint current working directory path\n\nExample:\n  pwd")
    } else if same_text(command, "cd") {
        copy_of("cd [directory]\nChange current directory\n\nExamples:\n  cd /home/user\n  cd ..\n  cd ~")
    } else if same_text(command, "ls") {
        copy_of("ls [directory]\nList directory contents\n\nExamples:\n  ls\n  ls /home\n  ls -la")
    } else if same_text(command, "mkdir") {
        copy_of("mkdir <directory>\nCreate new directory\n\nExamples:\n  mkdir new_folder\n  mkdir -p parent/child")
    } else if same_text(command, "rm") {
        copy_of("rm <path>\nRemove file or directory\n\nExamples:\n  rm file.txt\n  rm -r directory")
    } else if same_text(command, "touch") {
        copy_of("touch <filename>\nCreate empty file or update timestamp\n\nExamples:\n  touch newfile.txt\n  touch file1.txt file2.txt")
    } else if same_text(command, "alias") {
        copy_of("alias [name=value]\nCreate command aliases or show existing ones\n\nExamples:\n  alias ll='ls -la'\n  alias")
    } else if same_text(command, "export") {
        copy_of("export NAME=value\nSet environment variables\n\nExamples:\n  export PATH=$PATH:/new/path\n  export EDITOR=vim")
    } else if same_text(command, "env") {
        copy_of("env\nDisplay all environment variables\n\nExample:\n  env")
    } else if same_text(command, "init") {
        copy_of("init\nCreate default .batcaverc configuration file\n\nExample:\n  init")
    } else if same_text(command, "set-default") {
        copy_of("set-default\nSet Batcave as your default shell\n\nExample:\n  set-default")
    } else if same_text(command, "remove-default") {
        copy_of("remove-default\nRemove Batcave as default shell (revert to bash)\n\nExample:\n  remove-default")
    } else if same_text(command, "info") {
        copy_of("info\nDisplay system information and resources\n\nExample:\n  info")
    } else if same_text(command, "help") {
        copy_of("help [command]\nDisplay help information\n\nExamples:\n  help\n  help cd")
    } else if same_text(command, "exit") {
        copy_of("exit\nExit the Batcave shell\n\nExample:\n  exit")
    } else {
        let mut r = copy_of("No help available for '");
        append_str(&mut r, command);
        append_str(&mut r, "'\nType 'help' for a list of commands.");
        r
    }
}

/// `help [command]` (see `help_text`).
pub fn handle_help(args: &Vec<String>) -> (r: String)
    ensures
        r@ == help_text(views(args@)),
{
    if args.len() == 0 {
        general_help()
    } else {
        proof {
            assert(views(args@)[0] == args@[0]@);
        }
        command_specific_help(args[0].as_str())
    }
}

} // verus!
