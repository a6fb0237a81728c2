//! What the interpretation of a line asks its caller to do: show a text, or
//! do work outside the session (the file system, other programs, the
//! machine) and report on it.
use vstd::prelude::*;

use crate::text::views;

verus! {

/// The next step after a line has been interpreted.
pub enum Action {
    /// Show this text.
    Show(String),
    /// Record this failure in the log, then show it.
    Fail(String),
    /// Show the current working directory.
    ShowCurrentDir,
    /// Change the working directory.
    ChangeDir(String),
    /// Save the current working directory on the stack, then change to this
    /// one.
    PushDir(String),
    /// List the entries of a directory.
    ListDir(String),
    /// Create one directory.
    MakeDir(String),
    /// Remove a file, or a directory with all it holds.
    Remove(String),
    /// Create an empty file.
    Touch(String),
    /// Record the system-information preference in the configuration file,
    /// then show the text.
    SavePreference(bool, String),
    /// Show the system information.
    ShowSystemInfo,
    /// Show the running processes.
    ListProcesses,
    /// Make this shell the login shell.
    SetDefaultShell,
    /// Make the login shell bash again.
    RemoveDefaultShell,
    /// Run the program named by the first word, with the other words as its
    /// arguments.
    Run(Vec<String>),
}

/// An `Action` with its texts as character sequences.
pub enum ActionModel {
    Show(Seq<char>),
    Fail(Seq<char>),
    ShowCurrentDir,
    ChangeDir(Seq<char>),
    PushDir(Seq<char>),
    ListDir(Seq<char>),
    MakeDir(Seq<char>),
    Remove(Seq<char>),
    Touch(Seq<char>),
    SavePreference(bool, Seq<char>),
    ShowSystemInfo,
    ListProcesses,
    SetDefaultShell,
    RemoveDefaultShell,
    Run(Seq<Seq<char>>),
}

impl View for Action {
    type V = ActionModel;

    open spec fn view(&self) -> ActionModel {
        match self {
            Action::Show(s) => ActionModel::Show(s@),
            Action::Fail(s) => ActionModel::Fail(s@),
            Action::ShowCurrentDir => ActionModel::ShowCurrentDir,
            Action::ChangeDir(s) => ActionModel::ChangeDir(s@),
            Action::PushDir(s) => ActionModel::PushDir(s@),
            Action::ListDir(s) => ActionModel::ListDir(s@),
            Action::MakeDir(s) => ActionModel::MakeDir(s@),
            Action::Remove(s) => ActionModel::Remove(s@),
            Action::Touch(s) => ActionModel::Touch(s@),
            Action::SavePreference(b, s) => ActionModel::SavePreference(*b, s@),
            Action::ShowSystemInfo => ActionModel::ShowSystemInfo,
            Action::ListProcesses => ActionModel::ListProcesses,
            Action::SetDefaultShell => ActionModel::SetDefaultShell,
            Action::RemoveDefaultShell => ActionModel::RemoveDefaultShell,
            Action::Run(v) => ActionModel::Run(views(v@)),
        }
    }
}

} // verus!
