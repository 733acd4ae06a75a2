use vstd::prelude::*;

verus! {

/// A key sequence that a plugin binds to one of its events.
#[derive(Debug, Clone, PartialEq, Eq)]
pub struct Keybinding {
    pub key: String,
    pub modifier: Option<String>,
    pub event: String,
}

} // verus!
