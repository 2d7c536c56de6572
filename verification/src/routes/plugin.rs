//! Requests that switch a plugin on or off.

use vstd::prelude::*;

use crate::errors::FwcError;
use crate::text::{chars_of, push_str, string_of};
use crate::utils::myregex::{is_plugin_action, is_plugin_name, plugins_actions, plugins_names};

verus! {

/// The interpreter that the script of a plugin is run with.
pub const SHELL: &'static str = "sh";

/// What a request for a plugin that the agent does not know is told.
pub const BAD_NAME: &'static str = "name: Invalid plugin name";

/// What a request is told that asks for something else than switching on or
/// off.
pub const BAD_ACTION: &'static str = "action: Invalid plugin action";

/// A request for a plugin: which one, what to do to it, and the streaming
/// session that the output goes to, if it is to be streamed.
pub struct Plugin {
    pub name: String,
    pub action: String,
    pub ws_id: Option<u128>,
}

/// What a request that is refused is told: one line for each value that is
/// not as it must be.
pub open spec fn plugin_complaint(name: Seq<char>, action: Seq<char>) -> Seq<char> {
    if !is_plugin_name(name) && !is_plugin_action(action) {
        BAD_NAME@ + seq!['\n'] + BAD_ACTION@
    } else if !is_plugin_name(name) {
        BAD_NAME@
    } else {
        BAD_ACTION@
    }
}

/// The script of a plugin: in the directory of the plugins, in a directory of
/// its name, the file of its name with `.sh` after it.
pub open spec fn script_path(plugins_dir: Seq<char>, name: Seq<char>) -> Seq<char> {
    plugins_dir + seq!['/'] + name + seq!['/'] + name + ".sh"@
}

impl Plugin {
    /// Whether the plugin is one that the agent knows, and the action one
    /// that it can take.
    pub fn validate(&self) -> (res: Result<(), FwcError>)
        ensures
            is_plugin_name(self.name@) && is_plugin_action(self.action@) ==> res is Ok,
            !(is_plugin_name(self.name@) && is_plugin_action(self.action@)) ==> (res matches Err(
                FwcError::Validation(text),
            ) && text@ == plugin_complaint(self.name@, self.action@)),
    {
        let name_ok = plugins_names(self.name.as_str());
        let action_ok = plugins_actions(self.action.as_str());
        if name_ok && action_ok {
            return Ok(());
        }
        let mut text: Vec<char> = Vec::new();
        if !name_ok {
            push_str(&mut text, BAD_NAME);
            if !action_ok {
                text.push('\n');
            }
        }
        if !action_ok {
            push_str(&mut text, BAD_ACTION);
        }
        assert(text@ =~= plugin_complaint(self.name@, self.action@));
        Err(FwcError::Validation(string_of(&text)))
    }

    /// The arguments that the shell is run with: the script of the plugin and
    /// the action.
    pub fn args(&self, plugins_dir: &str) -> (args: Vec<String>)
        ensures
            args@.len() == 2,
            args[0]@ == script_path(plugins_dir@, self.name@),
            args[1]@ == self.action@,
    {
        let mut script = chars_of(plugins_dir);
        script.push('/');
        push_str(&mut script, self.name.as_str());
        script.push('/');
        push_str(&mut script, self.name.as_str());
        push_str(&mut script, ".sh");
        assert(script@ =~= script_path(plugins_dir@, self.name@));
        let mut args: Vec<String> = Vec::new();
        args.push(string_of(&script));
        args.push(self.action.clone());
        args
    }
}

} // verus!
