//! What the bootstrap decides before it hands control to the host framework:
//! which plugins to register for a given build, and at what severity the
//! development logger listens. The host performs the registrations and runs
//! the event loop; it is given exactly what these functions return.

use vstd::prelude::*;

verus! {

/// Severity threshold of the development logger, from most to least severe.
#[derive(Clone, Copy, PartialEq, Eq, Structural, Debug)]
pub enum LogLevel {
    Off,
    Error,
    Warn,
    Info,
    Debug,
    Trace,
}

/// A capability module the bootstrap registers into the host shell.
#[derive(Clone, Copy, PartialEq, Eq, Structural, Debug)]
pub enum Plugin {
    /// The native file and folder picker the frontend uses to choose paths.
    Dialog,
    /// A structured logger emitting at the given severity and above.
    Log(LogLevel),
}

/// The plugins the bootstrap registers, in order: the dialog plugin always,
/// and, in a development build only, the logger at informational severity.
pub fn startup_plugins(debug_build: bool) -> (plugins: Vec<Plugin>)
    ensures
        debug_build ==> plugins@ =~= seq![Plugin::Dialog, Plugin::Log(LogLevel::Info)],
        !debug_build ==> plugins@ =~= seq![Plugin::Dialog],
{
    let mut plugins: Vec<Plugin> = Vec::new();
    plugins.push(Plugin::Dialog);
    if debug_build {
        plugins.push(Plugin::Log(LogLevel::Info));
    }
    plugins
}

} // verus!
