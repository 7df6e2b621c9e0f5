//! The interactive shell that walks Confluence as a file system.
//!
//! The shell decides; its host does the outside work. A line is parsed and run stage
//! by stage; a stage that needs the host (loading another profile, handing a command
//! line to the one-shot command runner, or pausing) stops the run with a request, and
//! the host resumes the pipeline after it.
use vstd::prelude::*;

pub mod parser;
pub mod state;
pub mod format;
pub mod commands;
pub mod builtins;
pub mod forward;
pub mod pipeline;

verus! {

/// The shell's overview, printed by `help`.
pub const SHELL_HELP: &'static str = "Confluence shell commands:\n  help [topic]         Show shell or command help\n  pwd                  Print the current shell path\n  ls [target]          List spaces or child pages in the current directory\n  cd <target>          Enter a space or child page\n  cd ..                Go to the parent directory\n  cd /                 Go to the root space listing\n  clear | cls          Clear the visible terminal buffer\n  cat [--raw|--text|--markdown|--html] [target]  Read page content (default: markdown)\n  grep <pattern> [target]  Search shell text input or recursively search a subtree\n  find [target] [--name <pattern>]  Walk a subtree recursively\n  use profile <name>   Switch profile and reset the shell to /\n  exit | quit          Leave the shell\n\nPipelines:\n  ls SPACE | grep Guide\n  cat 12345 | grep keyword\n\nInside shell, keep using the same one-liner commands without the binary name:\n  page info\n  page read\n  page create --title \"Draft\" --body \"# Hello\"\n  page create-child --title \"Child\" --body \"# Hello\"\n  attachment list\n  property list\n  comment list";

/// Whether the shell goes on after a line.
#[derive(Debug, Clone, Copy, PartialEq, Eq, Structural)]
pub enum ShellControl {
    Continue,
    Exit,
}

/// What a stage prints.
#[derive(Debug, Clone, PartialEq, Eq)]
pub enum CommandOutput {
    Empty,
    Text(String),
}

/// A pause of a given length.
#[derive(Debug, Clone, Copy, PartialEq, Eq, Structural)]
pub enum SleepDuration {
    Millis(u64),
    Secs(u64),
}

/// Outside work a stage asks of the host.
#[derive(Debug, Clone, PartialEq, Eq)]
pub enum ShellRequest {
    /// Load the runtime and file system of the named profile and switch to it.
    LoadProfile(String),
    /// Run this command line with the one-shot command runner; print its error, if any.
    Forward(Vec<String>),
    /// Pause.
    Sleep(SleepDuration),
    /// Print a numeric sequence (computed with floating point) for these words, with the
    /// piped input; its text feeds the next stage.
    NumberSequence(Vec<String>, Option<String>),
}

/// How a stage ends: done, with what it prints, or waiting for the host.
#[derive(Debug, Clone, PartialEq, Eq)]
pub enum StageResult {
    Done(ShellControl, CommandOutput),
    Request(ShellRequest),
}

} // verus!
