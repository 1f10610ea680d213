//! Descriptions of the interactive console commands.
//!
//! The console itself (prompt, dispatch, the device lock) is unverified
//! plumbing outside this crate; what it registers for each command is this
//! plain description record.

use vstd::prelude::*;

verus! {

/// The description of one console command: its name, a short help line,
/// its usage text, and the two registration flags.
#[derive(Debug, Clone)]
pub struct CommandInfo {
    pub name: String,
    pub description: String,
    pub usage: String,
    pub requires_device: bool,
    pub hidden: bool,
}

impl CommandInfo {
    /// Builds a command description from its parts.
    pub fn new(
        name: &str,
        description: &str,
        usage: &str,
        requires_device: bool,
        hidden: bool,
    ) -> (r: Self)
        ensures
            r.name@ == name@,
            r.description@ == description@,
            r.usage@ == usage@,
            r.requires_device == requires_device,
            r.hidden == hidden,
    {
        CommandInfo {
            name: name.to_owned(),
            description: description.to_owned(),
            usage: usage.to_owned(),
            requires_device,
            hidden,
        }
    }
}

} // verus!
