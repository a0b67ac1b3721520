use vstd::prelude::*;

use crate::command::{command_line, push_arg, ApplyRequest, CommandKind, RequestView};
use crate::settings::ApplySettings;
use crate::value::Types;

verus! {

/// The shell that runs a command-line setting.
#[derive(Clone, Copy, Debug, PartialEq, Eq, Structural)]
pub enum RunnerProgram {
    Bash,
    ShellScript,
}

impl RunnerProgram {
    /// The absolute path of the shell's executable.
    pub open spec fn path_view(self) -> Seq<char> {
        match self {
            RunnerProgram::Bash => "/usr/bin/bash"@,
            RunnerProgram::ShellScript => "/usr/bin/sh"@,
        }
    }

    /// The absolute path of the shell's executable.
    pub fn into(self) -> (path: &'static str)
        ensures
            path@ == self.path_view(),
    {
        match self {
            RunnerProgram::Bash => "/usr/bin/bash",
            RunnerProgram::ShellScript => "/usr/bin/sh",
        }
    }
}

/// A setting that is a command line, run by a shell when it is applied.
#[derive(Debug)]
pub struct CliSetting {
    pub terminal: RunnerProgram,
    pub command: String,
}

impl Clone for CliSetting {
    fn clone(&self) -> (r: Self)
        ensures
            r == *self,
    {
        CliSetting { terminal: self.terminal, command: self.command.clone() }
    }
}

impl ApplySettings for CliSetting {
    /// Only a string can be a command line.
    open spec fn accepts(&self, value: Types) -> bool {
        value is String
    }

    /// A string replaces the command line; the shell stays.
    open spec fn with_value(&self, value: Types) -> Self {
        match value {
            Types::String(s) => CliSetting { terminal: self.terminal, command: s },
            _ => *self,
        }
    }

    /// The shell runs the command line given with `-c`.
    open spec fn planned(&self) -> Result<RequestView, Seq<char>> {
        Ok(
            RequestView::RunCommand {
                program: self.terminal.path_view(),
                args: seq!["-c"@, self.command@],
                kind: CommandKind::Shell,
            },
        )
    }

    fn accepts_value(&self, value: &Types) -> (b: bool) {
        match value {
            Types::String(_) => true,
            _ => false,
        }
    }

    fn apply(self) -> (r: Result<ApplyRequest, &'static str>) {
        let mut args: Vec<String> = Vec::new();
        push_arg(&mut args, "-c");
        let ghost flag = args.deep_view();
        args.push(self.command);
        assert(args.deep_view() =~= flag.push(self.command@));
        assert(args.deep_view() =~= seq!["-c"@, self.command@]);
        let command = command_line(self.terminal.into(), args);
        Ok(ApplyRequest::RunCommand { command, kind: CommandKind::Shell })
    }

    fn set_value(&mut self, value: Types) {
        match value {
            Types::String(s) => {
                self.command = s;
            },
            _ => {},
        }
    }
}

} // verus!
