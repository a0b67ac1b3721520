use vstd::prelude::*;

use crate::value::Types;

verus! {

/// A program to run and the arguments to hand it.
#[derive(Debug)]
pub struct CommandLine {
    pub program: String,
    pub args: Vec<String>,
}

/// What a command line is: the program's name and the arguments, as text.
pub struct CommandView {
    pub program: Seq<char>,
    pub args: Seq<Seq<char>>,
}

impl View for CommandLine {
    type V = CommandView;

    open spec fn view(&self) -> CommandView {
        CommandView { program: self.program@, args: self.args.deep_view() }
    }
}

/// Builds a command line from a program name and its arguments.
pub fn command_line(program: &str, args: Vec<String>) -> (c: CommandLine)
    ensures
        c@.program == program@,
        c@.args == args.deep_view(),
{
    CommandLine { program: program.to_owned(), args }
}

/// Appends one argument to a list of arguments.
pub fn push_arg(args: &mut Vec<String>, arg: &str)
    ensures
        final(args).deep_view() == old(args).deep_view().push(arg@),
{
    let ghost before = args.deep_view();
    args.push(arg.to_owned());
    assert(args.deep_view() =~= before.push(arg@));
}

/// Which kind of command was run; it decides how the outcome is read.
#[derive(Clone, Copy, Debug, PartialEq, Eq, Structural)]
pub enum CommandKind {
    /// A user's command line run by a shell.
    Shell,
    /// Loading or unloading a kernel module.
    Modprobe,
    /// Starting a system service.
    ServiceStart,
    /// Stopping a system service.
    ServiceStop,
}

/// What running a command came to.
#[derive(Clone, Copy, Debug, PartialEq, Eq, Structural)]
pub enum CommandOutcome {
    /// The process could not be started.
    SpawnFailed,
    /// The process ran and exited, successfully or not.
    Exited { success: bool },
}

/// The error text that each kind of command reports.
pub open spec fn command_result(kind: CommandKind, outcome: CommandOutcome) -> Result<(), Seq<char>> {
    match kind {
        CommandKind::Shell => match outcome {
            CommandOutcome::Exited { success: true } => Ok(()),
            _ => Err("Command failed"@),
        },
        CommandKind::Modprobe => match outcome {
            CommandOutcome::Exited { .. } => Ok(()),
            CommandOutcome::SpawnFailed => Err("Failed to run modprobe"@),
        },
        CommandKind::ServiceStart => match outcome {
            CommandOutcome::Exited { success: true } => Ok(()),
            CommandOutcome::Exited { success: false } => Err("Failed to enable service"@),
            CommandOutcome::SpawnFailed => Err("Failed to run systemctl"@),
        },
        CommandKind::ServiceStop => match outcome {
            CommandOutcome::Exited { success: true } => Ok(()),
            CommandOutcome::Exited { success: false } => Err("Failed to disable service"@),
            CommandOutcome::SpawnFailed => Err("Failed to run systemctl"@),
        },
    }
}

/// A result whose error is a static message, taken by the message's text.
pub open spec fn result_view(r: Result<(), &'static str>) -> Result<(), Seq<char>> {
    match r {
        Ok(()) => Ok(()),
        Err(e) => Err(e@),
    }
}

impl CommandKind {
    /// Whether applying a setting succeeded, given how its command ended.
    pub fn result(self, outcome: CommandOutcome) -> (r: Result<(), &'static str>)
        ensures
            result_view(r) == command_result(self, outcome),
    {
        match self {
            CommandKind::Shell => match outcome {
                CommandOutcome::Exited { success: true } => Ok(()),
                _ => Err("Command failed"),
            },
            CommandKind::Modprobe => match outcome {
                CommandOutcome::Exited { .. } => Ok(()),
                CommandOutcome::SpawnFailed => Err("Failed to run modprobe"),
            },
            CommandKind::ServiceStart => match outcome {
                CommandOutcome::Exited { success: true } => Ok(()),
                CommandOutcome::Exited { success: false } => Err("Failed to enable service"),
                CommandOutcome::SpawnFailed => Err("Failed to run systemctl"),
            },
            CommandKind::ServiceStop => match outcome {
                CommandOutcome::Exited { success: true } => Ok(()),
                CommandOutcome::Exited { success: false } => Err("Failed to disable service"),
                CommandOutcome::SpawnFailed => Err("Failed to run systemctl"),
            },
        }
    }
}

/// Whether writing a key of the desktop settings succeeded, given whether the
/// settings store took the value.
pub fn gio_write_result(written: bool) -> (r: Result<(), &'static str>)
    ensures
        written ==> r is Ok,
        !written ==> result_view(r) == Err::<(), Seq<char>>("Settings couldn't be applied."@),
{
    if written {
        Ok(())
    } else {
        Err("Settings couldn't be applied.")
    }
}

/// What applying a setting asks of the system.
#[derive(Debug)]
pub enum ApplyRequest {
    /// Run a command and read its outcome as `kind` says.
    RunCommand { command: CommandLine, kind: CommandKind },
    /// Write `value` under `key` in the desktop settings schema `schema`.
    WriteGio { schema: String, key: String, value: Types },
}

/// The next step in reading a setting's current value from the system:
/// either the answer (`None` when the setting is not there to report), or a
/// command whose output the setting reads next.
#[derive(Debug)]
pub enum ProbeStep {
    Answer(Option<Types>),
    Run(CommandLine),
}

/// A [`ProbeStep`] as plain values.
pub enum ProbeStepView {
    Answer(Option<Types>),
    Run(CommandView),
}

impl View for ProbeStep {
    type V = ProbeStepView;

    open spec fn view(&self) -> ProbeStepView {
        match self {
            ProbeStep::Answer(a) => ProbeStepView::Answer(*a),
            ProbeStep::Run(c) => ProbeStepView::Run(c@),
        }
    }
}

/// What an [`ApplyRequest`] asks, as plain text and values.
pub enum RequestView {
    RunCommand { program: Seq<char>, args: Seq<Seq<char>>, kind: CommandKind },
    WriteGio { schema: Seq<char>, key: Seq<char>, value: Types },
}

impl View for ApplyRequest {
    type V = RequestView;

    open spec fn view(&self) -> RequestView {
        match self {
            ApplyRequest::RunCommand { command, kind } => RequestView::RunCommand {
                program: command.program@,
                args: command.args.deep_view(),
                kind: *kind,
            },
            ApplyRequest::WriteGio { schema, key, value } => RequestView::WriteGio {
                schema: schema@,
                key: key@,
                value: *value,
            },
        }
    }
}

/// A planned request or the message of the error that stops it.
pub open spec fn plan_view(r: Result<ApplyRequest, &'static str>) -> Result<RequestView, Seq<char>> {
    match r {
        Ok(q) => Ok(q@),
        Err(e) => Err(e@),
    }
}

} // verus!
