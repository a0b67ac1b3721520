use vstd::prelude::*;

use crate::command::{
    command_line, push_arg, ApplyRequest, CommandKind, CommandLine, CommandView, ProbeStep, ProbeStepView,
    RequestView,
};
use crate::settings::ApplySettings;
use crate::text::{contains_seq, opt_str_view, str_contains, str_eq};
use crate::value::Types;

verus! {

/// A setting that starts (`enable` true) or stops (`enable` false) a system
/// service.
#[derive(Debug)]
pub struct Systemctl {
    pub service_name: String,
    pub enable: Option<bool>,
}

impl Clone for Systemctl {
    fn clone(&self) -> (r: Self)
        ensures
            r == *self,
    {
        Systemctl { service_name: self.service_name.clone(), enable: self.enable }
    }
}

impl Systemctl {
    /// A service setting.
    pub fn new(service_name: String, enable: Option<bool>) -> (r: Systemctl)
        ensures
            r.service_name == service_name,
            r.enable == enable,
    {
        Systemctl { service_name, enable }
    }

    /// The command whose output lists the services: `systemctl`.
    pub fn listing_command() -> (c: CommandLine)
        ensures
            c@.program == "systemctl"@,
            c@.args == Seq::<Seq<char>>::empty(),
    {
        let args: Vec<String> = Vec::new();
        assert(args.deep_view() =~= Seq::<Seq<char>>::empty());
        command_line("systemctl", args)
    }

    /// The command whose output tells whether a service runs:
    /// `systemctl is-active`.
    pub fn state_command() -> (c: CommandLine)
        ensures
            c@.program == "systemctl"@,
            c@.args == seq!["is-active"@],
    {
        let mut args: Vec<String> = Vec::new();
        push_arg(&mut args, "is-active");
        assert(args.deep_view() =~= seq!["is-active"@]);
        command_line("systemctl", args)
    }

    /// Whether the service is named in the output of the listing command.
    pub fn service_exists(&self, listing: &str) -> (r: bool)
        ensures
            r == contains_seq(listing@, self.service_name@),
    {
        str_contains(listing, self.service_name.as_str())
    }

    /// Whether the output of the state command reports the service running:
    /// it does when the output is exactly `0`.
    pub fn service_state(&self, state_output: &str) -> (r: bool)
        ensures
            r == (state_output@ == "0"@),
    {
        str_eq(state_output, "0")
    }

    /// The setting's current value, read from the output of the state
    /// command: whether the service runs; `false` when the command could not
    /// run (`None`).
    pub fn current_value(&self, state_output: Option<&str>) -> (r: Types)
        ensures
            r == Types::Bool(
                match state_output {
                    Some(out) => out@ == "0"@,
                    None => false,
                },
            ),
    {
        match state_output {
            Some(out) => Types::Bool(self.service_state(out)),
            None => Types::Bool(false),
        }
    }

    /// After the listing command: a service that is not listed, or whose
    /// listing could not be had (`None`), has nothing to report; a listed
    /// service is read next with the state command.
    pub fn after_listing(&self, listing: Option<&str>) -> (r: ProbeStep)
        ensures
            match listing {
                Some(l) if contains_seq(l@, self.service_name@) => r@ == ProbeStepView::Run(
                    CommandView { program: "systemctl"@, args: seq!["is-active"@] },
                ),
                _ => r@ == ProbeStepView::Answer(None),
            },
    {
        match listing {
            Some(l) => if self.service_exists(l) {
                let c = Systemctl::state_command();
                assert(c@ == CommandView { program: "systemctl"@, args: seq!["is-active"@] });
                ProbeStep::Run(c)
            } else {
                ProbeStep::Answer(None)
            },
            None => ProbeStep::Answer(None),
        }
    }

    /// The value reported for the service, given the output of the listing
    /// command and of the state command (`None` for a command that could not
    /// run or was not run): nothing when the listing does not name the
    /// service, otherwise whether the state command reports it running.
    pub open spec fn answer_spec(&self, listing: Option<Seq<char>>, state: Option<Seq<char>>) -> Option<Types> {
        match listing {
            Some(l) => if contains_seq(l, self.service_name@) {
                Some(
                    Types::Bool(
                        match state {
                            Some(o) => o == "0"@,
                            None => false,
                        },
                    ),
                )
            } else {
                None
            },
            None => None,
        }
    }

    /// The value reported for the service, as [`Self::answer_spec`] says.
    pub fn answer(&self, listing: Option<&str>, state: Option<&str>) -> (r: Option<Types>)
        ensures
            r == self.answer_spec(opt_str_view(listing), opt_str_view(state)),
    {
        match listing {
            Some(l) => if self.service_exists(l) {
                Some(self.current_value(state))
            } else {
                None
            },
            None => None,
        }
    }

    /// What starting (`start`) or stopping the service asks of the system:
    /// `sudo systemctl start|stop <service>`.
    pub open spec fn service_request(&self, start: bool) -> RequestView {
        RequestView::RunCommand {
            program: "sudo"@,
            args: seq!["systemctl"@, if start { "start"@ } else { "stop"@ }, self.service_name@],
            kind: if start { CommandKind::ServiceStart } else { CommandKind::ServiceStop },
        }
    }

    fn service_command(&self, start: bool) -> (r: ApplyRequest)
        ensures
            r@ == self.service_request(start),
    {
        let mut args: Vec<String> = Vec::new();
        push_arg(&mut args, "systemctl");
        if start {
            push_arg(&mut args, "start");
        } else {
            push_arg(&mut args, "stop");
        }
        push_arg(&mut args, self.service_name.as_str());
        assert(args.deep_view() =~= seq![
            "systemctl"@,
            if start { "start"@ } else { "stop"@ },
            self.service_name@,
        ]);
        let command = command_line("sudo", args);
        let kind = if start {
            CommandKind::ServiceStart
        } else {
            CommandKind::ServiceStop
        };
        ApplyRequest::RunCommand { command, kind }
    }

    /// Starting the service.
    pub fn enable_service(&self) -> (r: ApplyRequest)
        ensures
            r@ == self.service_request(true),
    {
        self.service_command(true)
    }

    /// Stopping the service.
    pub fn disable_service(&self) -> (r: ApplyRequest)
        ensures
            r@ == self.service_request(false),
    {
        self.service_command(false)
    }
}

impl ApplySettings for Systemctl {
    /// Only a boolean says whether the service is wanted.
    open spec fn accepts(&self, value: Types) -> bool {
        value is Bool
    }

    /// A boolean becomes the wanted state; the service stays.
    open spec fn with_value(&self, value: Types) -> Self {
        match value {
            Types::Bool(b) => Systemctl { service_name: self.service_name, enable: Some(b) },
            _ => *self,
        }
    }

    /// The service is started or stopped as wanted; with no wanted state
    /// there is nothing to do.
    open spec fn planned(&self) -> Result<RequestView, Seq<char>> {
        match self.enable {
            None => Err("Enabled is not set"@),
            Some(start) => Ok(self.service_request(start)),
        }
    }

    fn accepts_value(&self, value: &Types) -> (b: bool) {
        match value {
            Types::Bool(_) => true,
            _ => false,
        }
    }

    fn apply(self) -> (r: Result<ApplyRequest, &'static str>) {
        match self.enable {
            None => Err("Enabled is not set"),
            Some(true) => Ok(self.enable_service()),
            Some(false) => Ok(self.disable_service()),
        }
    }

    fn set_value(&mut self, value: Types) {
        match value {
            Types::Bool(b) => {
                self.enable = Some(b);
            },
            _ => {},
        }
    }
}

} // verus!
