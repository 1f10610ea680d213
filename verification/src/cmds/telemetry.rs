//! Description of the console command that retrieves a telemetry reading.

use vstd::prelude::*;

use crate::console::CommandInfo;

verus! {

/// The registration record of the telemetry command.
pub fn command_info() -> (r: CommandInfo)
    ensures
        r.name@ == "telemetry"@,
        r.description@ == "Retrieve telemetry data from the device"@,
        r.usage@ == "Usage: telemetry"@,
        !r.requires_device,
        !r.hidden,
{
    CommandInfo::new(
        "telemetry",
        "Retrieve telemetry data from the device",
        "Usage: telemetry",
        false,
        false,
    )
}

} // verus!
