use vstd::prelude::*;

verus! {

/// An action a plugin asks the application to perform.
#[derive(Debug, Clone, PartialEq, Eq)]
pub enum PluginCommand {
    ExecShell { cmd: String },
    FocusPath { path: String },
    NoCommand,
}

} // verus!
