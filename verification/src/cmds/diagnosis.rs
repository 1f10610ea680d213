//! Description of the console command that retrieves a diagnosis report.

use vstd::prelude::*;

use crate::console::CommandInfo;

verus! {

/// The registration record of the diagnosis command.
pub fn command_info() -> (r: CommandInfo)
    ensures
        r.name@ == "diagnosis"@,
        r.description@ == "Retrieve telemetry data from the device"@,
        r.usage@ == "Usage: diagnosis"@,
        !r.requires_device,
        !r.hidden,
{
    CommandInfo::new(
        "diagnosis",
        "Retrieve telemetry data from the device",
        "Usage: diagnosis",
        false,
        false,
    )
}

} // verus!
