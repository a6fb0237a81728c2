//! The interpretation pipeline and session state of an interactive command
//! shell: `$NAME` expansion, splitting into words, alias resolution and the
//! dispatch of built-in commands, with the environment, aliases, history and
//! directory stack that they read and change.
pub mod action;
pub mod commands;
pub mod complete;
pub mod config;
pub mod dispatch;
pub mod expand;
pub mod help;
pub mod laws;
pub mod report;
pub mod shell;
pub mod table;
pub mod text;
pub mod tokenize;
