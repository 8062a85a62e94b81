//! Starting the program at login. The setting lives with the operating
//! system's launch agent and nowhere else: the library only says which call
//! to make.

use vstd::prelude::*;

verus! {

/// The argument that the launch agent starts the program with.
pub const AUTOSTART_ARGUMENT: &'static str = "--autostart";

/// A call that changes the launch agent's setting.
#[derive(Clone, Copy, Debug, PartialEq, Eq, Structural)]
pub enum LaunchAgentCall {
    /// Register the program to start at login.
    Enable,
    /// Take the registration back.
    Disable,
}

/// The call that sets autostart to `enabled`.
pub fn autostart_call(enabled: bool) -> (call: LaunchAgentCall)
    ensures
        call == if enabled {
            LaunchAgentCall::Enable
        } else {
            LaunchAgentCall::Disable
        },
{
    if enabled {
        LaunchAgentCall::Enable
    } else {
        LaunchAgentCall::Disable
    }
}

/// The arguments that the launch agent starts the program with.
pub fn launch_arguments() -> (arguments: Vec<&'static str>)
    ensures
        arguments@.len() == 1,
        arguments@[0]@ == AUTOSTART_ARGUMENT@,
{
    let mut arguments: Vec<&'static str> = Vec::new();
    arguments.push(AUTOSTART_ARGUMENT);
    arguments
}

} // verus!
