//! The error taxonomy of a command execution.

use vstd::prelude::*;

verus! {

/// What can go wrong while executing a command against the keyboard.
#[derive(Clone, Copy, PartialEq, Eq, Structural, Debug)]
pub enum G213Error {
    /// No matching keyboard is connected.
    DeviceNotFound,
    /// The device could not be opened or queried.
    DeviceOpen,
    /// A bound kernel driver could not be detached; nothing was sent.
    DriverDetach,
    /// The frame was sent, but the detached kernel driver could not be
    /// reattached afterwards.
    DriverReattach,
    /// A control write or interrupt read failed or timed out.
    Transport,
    /// A command operand was missing or invalid.
    Argument,
    /// The saved-command file could not be read, written or parsed.
    Persistence,
}

/// The diagnostic text of each error.
pub open spec fn spec_error_text(e: G213Error) -> Seq<char> {
    match e {
        G213Error::DeviceNotFound => "no G213 keyboard found"@,
        G213Error::DeviceOpen => "unable to open the device"@,
        G213Error::DriverDetach => "unable to detach the kernel driver"@,
        G213Error::DriverReattach => "unable to reattach the kernel driver"@,
        G213Error::Transport => "transfer to the device failed"@,
        G213Error::Argument => "missing or invalid argument"@,
        G213Error::Persistence => "unable to use the saved command"@,
    }
}

impl G213Error {
    /// A short diagnostic line for the error.
    pub fn text(&self) -> (r: &'static str)
        ensures
            r@ == spec_error_text(*self),
    {
        match self {
            G213Error::DeviceNotFound => "no G213 keyboard found",
            G213Error::DeviceOpen => "unable to open the device",
            G213Error::DriverDetach => "unable to detach the kernel driver",
            G213Error::DriverReattach => "unable to reattach the kernel driver",
            G213Error::Transport => "transfer to the device failed",
            G213Error::Argument => "missing or invalid argument",
            G213Error::Persistence => "unable to use the saved command",
        }
    }
}

} // verus!
