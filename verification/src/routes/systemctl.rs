//! Requests that pass a command on to `systemctl`.

use vstd::prelude::*;

use crate::errors::FwcError;
use crate::text::{push_str, string_of};
use crate::utils::myregex::{
    is_systemctl_command, is_systemctl_service, systemctl_commands, systemctl_services,
};

verus! {

/// The command that these requests run.
pub const SYSTEMCTL: &'static str = "systemctl";

/// What a request with a command that is not passed on is told.
pub const BAD_COMMAND: &'static str = "command: Invalid systemctl command";

/// What a request for a service that is not acted on is told.
pub const BAD_SERVICE: &'static str = "service: Invalid systemctl service";

/// A request to `systemctl`: what to do, and to which service.
pub struct Systemctl {
    pub command: String,
    pub service: String,
}

/// What a request that is refused is told: one line for each value that is
/// not as it must be.
pub open spec fn systemctl_complaint(command: Seq<char>, service: Seq<char>) -> Seq<char> {
    if !is_systemctl_command(command) && !is_systemctl_service(service) {
        BAD_COMMAND@ + seq!['\n'] + BAD_SERVICE@
    } else if !is_systemctl_command(command) {
        BAD_COMMAND@
    } else {
        BAD_SERVICE@
    }
}

impl Systemctl {
    /// Whether the command is one that the agent passes on, and the service
    /// one that it acts on.
    pub fn validate(&self) -> (res: Result<(), FwcError>)
        ensures
            is_systemctl_command(self.command@) && is_systemctl_service(self.service@) ==> res
                is Ok,
            !(is_systemctl_command(self.command@) && is_systemctl_service(self.service@)) ==> (
            res matches Err(FwcError::Validation(text)) && text@ == systemctl_complaint(
                self.command@,
                self.service@,
            )),
    {
        let command_ok = systemctl_commands(self.command.as_str());
        let service_ok = systemctl_services(self.service.as_str());
        if command_ok && service_ok {
            return Ok(());
        }
        let mut text: Vec<char> = Vec::new();
        if !command_ok {
            push_str(&mut text, BAD_COMMAND);
            if !service_ok {
                text.push('\n');
            }
        }
        if !service_ok {
            push_str(&mut text, BAD_SERVICE);
        }
        assert(text@ =~= systemctl_complaint(self.command@, self.service@));
        Err(FwcError::Validation(string_of(&text)))
    }

    /// The arguments that `systemctl` is run with.
    pub fn args(&self) -> (args: Vec<String>)
        ensures
            args@.len() == 2,
            args[0]@ == self.command@,
            args[1]@ == self.service@,
    {
        let mut args: Vec<String> = Vec::new();
        args.push(self.command.clone());
        args.push(self.service.clone());
        args
    }
}

} // verus!
