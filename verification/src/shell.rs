//! Running a command line in the platform shell: how the shell is invoked,
//! and what is made of the outcome.

use vstd::prelude::*;
use vstd::string::StringExecFns;
use crate::datagram::{decode_lossy, utf8_lossy};
use crate::text::{split_lines, split_on, views_of};

verus! {

/// The kind of host, as far as the choice of shell goes.
#[derive(Debug, Clone, Copy, PartialEq, Eq, Structural)]
pub enum Platform {
    Windows,
    Other,
}

/// A program and the arguments to start it with.
#[derive(Debug, PartialEq, Eq)]
pub struct Invocation {
    pub program: String,
    pub arguments: Vec<String>,
}

/// How running a command line ended.
#[derive(Debug, PartialEq, Eq)]
pub enum ShellOutcome {
    /// The shell could not be started; the text says why.
    NotStarted { reason: String },
    /// The shell ran and exited, successfully or not, with what it wrote.
    Exited { success: bool, stdout: Vec<u8>, stderr: Vec<u8> },
}

pub enum ShellOutcomeModel {
    NotStarted { reason: Seq<char> },
    Exited { success: bool, stdout: Seq<u8>, stderr: Seq<u8> },
}

impl View for ShellOutcome {
    type V = ShellOutcomeModel;

    open spec fn view(&self) -> ShellOutcomeModel {
        match self {
            ShellOutcome::NotStarted { reason } => ShellOutcomeModel::NotStarted {
                reason: reason@,
            },
            ShellOutcome::Exited { success, stdout, stderr } => ShellOutcomeModel::Exited {
                success: *success,
                stdout: stdout@,
                stderr: stderr@,
            },
        }
    }
}

/// The shell of a platform.
pub open spec fn shell_program(platform: Platform) -> Seq<char> {
    match platform {
        Platform::Windows => "cmd"@,
        Platform::Other => "sh"@,
    }
}

/// The flag that makes the shell run the argument after it.
pub open spec fn shell_flag(platform: Platform) -> Seq<char> {
    match platform {
        Platform::Windows => "/c"@,
        Platform::Other => "-c"@,
    }
}

/// The text a command produced: what it wrote to standard output if it
/// succeeded, and else, as an error, what it wrote to standard error or why
/// it could not be started.
pub open spec fn output_text(outcome: ShellOutcomeModel) -> Result<Seq<char>, Seq<char>> {
    match outcome {
        ShellOutcomeModel::NotStarted { reason } => Err(reason),
        ShellOutcomeModel::Exited { success, stdout, stderr } => if success {
            Ok(utf8_lossy(stdout))
        } else {
            Err(utf8_lossy(stderr))
        },
    }
}

/// The lines that answer a shell command: the text it produced, error or not,
/// cut at line feeds.
pub open spec fn shell_lines(outcome: ShellOutcomeModel) -> Seq<Seq<char>> {
    match output_text(outcome) {
        Ok(text) => split_on(text, '\n'),
        Err(text) => split_on(text, '\n'),
    }
}

/// The view of a text that is either a result or an error.
pub open spec fn result_view(text: Result<String, String>) -> Result<Seq<char>, Seq<char>> {
    match text {
        Ok(t) => Ok(t@),
        Err(t) => Err(t@),
    }
}

/// How to run `command_line` on `platform`: `cmd /c` on Windows, `sh -c`
/// elsewhere, with the whole command line as the one argument after the flag.
pub fn shell_invocation(platform: Platform, command_line: &str) -> (invocation: Invocation)
    ensures
        invocation.program@ == shell_program(platform),
        views_of(invocation.arguments@) == seq![shell_flag(platform), command_line@],
{
    let (program, flag) = match platform {
        Platform::Windows => (String::from_str("cmd"), String::from_str("/c")),
        Platform::Other => (String::from_str("sh"), String::from_str("-c")),
    };
    let mut arguments: Vec<String> = Vec::new();
    arguments.push(flag);
    arguments.push(String::from_str(command_line));
    assert(views_of(arguments@) =~= seq![shell_flag(platform), command_line@]);
    Invocation { program, arguments }
}

impl ShellOutcome {
    /// The text the command produced, as a result if it succeeded and as an
    /// error if it failed or never started. Bytes that are not UTF-8 are
    /// replaced.
    pub fn output(&self) -> (text: Result<String, String>)
        ensures
            result_view(text) == output_text(self@),
    {
        match self {
            ShellOutcome::NotStarted { reason } => Err(reason.clone()),
            ShellOutcome::Exited { success, stdout, stderr } => {
                if *success {
                    Ok(decode_lossy(stdout.as_slice()))
                } else {
                    Err(decode_lossy(stderr.as_slice()))
                }
            },
        }
    }

    /// The lines that report this outcome.
    pub fn lines(&self) -> (lines: Vec<String>)
        ensures
            views_of(lines@) == shell_lines(self@),
    {
        match self.output() {
            Ok(text) => split_lines(text.as_str()),
            Err(text) => split_lines(text.as_str()),
        }
    }
}

} // verus!
