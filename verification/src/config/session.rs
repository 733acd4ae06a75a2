use vstd::prelude::*;

verus! {

/// A command that a workspace's `.ascope.toml` declares.
#[derive(Debug, Clone, PartialEq, Eq)]
pub struct CustomCommand {
    pub name: String,
    pub cmd: String,
}

/// The commands a workspace declares.
#[derive(Debug, Clone, Default)]
pub struct SessionConfig {
    pub commands: Vec<CustomCommand>,
}

} // verus!
