use vstd::prelude::*;

use crate::command::{
    command_line, push_arg, ApplyRequest, CommandKind, CommandLine, CommandOutcome, CommandView, ProbeStep,
    ProbeStepView, RequestView,
};
use crate::text::{contains_seq, opt_str_view, str_contains};
use crate::settings::ApplySettings;
use crate::value::Types;

verus! {

/// A setting that loads (`enable` true) or unloads (`enable` false) a kernel
/// module.
#[derive(Debug)]
pub struct Modprobe {
    pub driver: String,
    pub enable: Option<bool>,
}

impl Clone for Modprobe {
    fn clone(&self) -> (r: Self)
        ensures
            r == *self,
    {
        Modprobe { driver: self.driver.clone(), enable: self.enable }
    }
}

impl Modprobe {
    /// The command that tells whether the driver is installed:
    /// `modinfo <driver>`, which succeeds exactly when it is.
    pub fn existence_command(&self) -> (c: CommandLine)
        ensures
            c@.program == "modinfo"@,
            c@.args == seq![self.driver@],
    {
        let mut args: Vec<String> = Vec::new();
        push_arg(&mut args, self.driver.as_str());
        assert(args.deep_view() =~= seq![self.driver@]);
        command_line("modinfo", args)
    }

    /// The command whose output lists the loaded modules, one per line, each
    /// line starting with the module's name and a space: `lsmod`.
    pub fn loaded_command() -> (c: CommandLine)
        ensures
            c@.program == "lsmod"@,
            c@.args == Seq::<Seq<char>>::empty(),
    {
        let args: Vec<String> = Vec::new();
        assert(args.deep_view() =~= Seq::<Seq<char>>::empty());
        command_line("lsmod", args)
    }

    /// Whether the driver exists, given how the existence command ended.
    pub fn driver_exists(outcome: CommandOutcome) -> (r: bool)
        ensures
            r == (outcome == CommandOutcome::Exited { success: true }),
    {
        match outcome {
            CommandOutcome::Exited { success } => success,
            CommandOutcome::SpawnFailed => false,
        }
    }

    /// Whether a line of the listing of loaded modules starts with the
    /// driver's name followed by a space.
    pub fn module_loaded(&self, listing: &str) -> (r: bool)
        ensures
            r == contains_seq("\n"@ + listing@, "\n"@ + self.driver@ + " "@),
    {
        let mut hay = "\n".to_owned();
        hay.append(listing);
        let mut needle = "\n".to_owned();
        needle.append(self.driver.as_str());
        needle.append(" ");
        str_contains(hay.as_str(), needle.as_str())
    }

    /// The setting's current value, read from the listing of loaded
    /// modules: whether the module is loaded; `false` when the listing could
    /// not be had (`None`).
    pub fn current_value(&self, listing: Option<&str>) -> (r: Types)
        ensures
            r == Types::Bool(
                match listing {
                    Some(l) => contains_seq("\n"@ + l@, "\n"@ + self.driver@ + " "@),
                    None => false,
                },
            ),
    {
        match listing {
            Some(l) => Types::Bool(self.module_loaded(l)),
            None => Types::Bool(false),
        }
    }

    /// The value reported for the module, given how the existence command
    /// ended and the output of the listing of loaded modules (`None` when it
    /// could not run or was not run): nothing when the driver does not exist,
    /// otherwise whether the module is loaded.
    pub open spec fn answer_spec(&self, existence: CommandOutcome, listing: Option<Seq<char>>) -> Option<Types> {
        if existence == (CommandOutcome::Exited { success: true }) {
            Some(
                Types::Bool(
                    match listing {
                        Some(l) => contains_seq("\n"@ + l, "\n"@ + self.driver@ + " "@),
                        None => false,
                    },
                ),
            )
        } else {
            None
        }
    }

    /// The value reported for the module, as [`Self::answer_spec`] says.
    pub fn answer(&self, existence: CommandOutcome, listing: Option<&str>) -> (r: Option<Types>)
        ensures
            r == self.answer_spec(existence, opt_str_view(listing)),
    {
        if Modprobe::driver_exists(existence) {
            Some(self.current_value(listing))
        } else {
            None
        }
    }

    /// After the existence command: a driver that does not exist has nothing
    /// to report; one that does is read next with the listing of loaded
    /// modules.
    pub fn after_existence(&self, outcome: CommandOutcome) -> (r: ProbeStep)
        ensures
            outcome == (CommandOutcome::Exited { success: true }) ==> r@ == ProbeStepView::Run(
                CommandView { program: "lsmod"@, args: Seq::empty() },
            ),
            outcome != (CommandOutcome::Exited { success: true }) ==> r@ == ProbeStepView::Answer(None),
    {
        if Modprobe::driver_exists(outcome) {
            let c = Modprobe::loaded_command();
            assert(c@ == CommandView { program: "lsmod"@, args: Seq::<Seq<char>>::empty() });
            ProbeStep::Run(c)
        } else {
            ProbeStep::Answer(None)
        }
    }
}

impl ApplySettings for Modprobe {
    /// Only a boolean says whether the module is wanted.
    open spec fn accepts(&self, value: Types) -> bool {
        value is Bool
    }

    /// A boolean becomes the wanted state; the driver stays.
    open spec fn with_value(&self, value: Types) -> Self {
        match value {
            Types::Bool(b) => Modprobe { driver: self.driver, enable: Some(b) },
            _ => *self,
        }
    }

    /// `sudo modprobe <driver>` loads the module, `sudo modprobe -r <driver>`
    /// unloads it; with no wanted state there is nothing to do.
    open spec fn planned(&self) -> Result<RequestView, Seq<char>> {
        match self.enable {
            None => Err("enabled is not set"@),
            Some(enabled) => Ok(
                RequestView::RunCommand {
                    program: "sudo"@,
                    args: if enabled {
                        seq!["modprobe"@, self.driver@]
                    } else {
                        seq!["modprobe"@, "-r"@, self.driver@]
                    },
                    kind: CommandKind::Modprobe,
                },
            ),
        }
    }

    fn accepts_value(&self, value: &Types) -> (b: bool) {
        match value {
            Types::Bool(_) => true,
            _ => false,
        }
    }

    fn apply(self) -> (r: Result<ApplyRequest, &'static str>) {
        let enabled = match self.enable {
            None => {
                return Err("enabled is not set");
            },
            Some(e) => e,
        };
        let mut args: Vec<String> = Vec::new();
        push_arg(&mut args, "modprobe");
        if !enabled {
            push_arg(&mut args, "-r");
        }
        let ghost before = args.deep_view();
        args.push(self.driver);
        assert(args.deep_view() =~= before.push(self.driver@));
        if enabled {
            assert(args.deep_view() =~= seq!["modprobe"@, self.driver@]);
        } else {
            assert(args.deep_view() =~= seq!["modprobe"@, "-r"@, self.driver@]);
        }
        let command = command_line("sudo", args);
        Ok(ApplyRequest::RunCommand { command, kind: CommandKind::Modprobe })
    }

    fn set_value(&mut self, value: Types) {
        match value {
            Types::Bool(b) => {
                self.enable = Some(b);
            },
            _ => {},
        }
    }
}

} // verus!
