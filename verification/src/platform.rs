//! The operating system the agent runs on, where a decision depends on it.

use vstd::prelude::*;

verus! {

/// The operating system the agent was built for.
#[derive(Clone, Copy, Debug, PartialEq, Eq, Structural)]
pub enum Platform {
    Windows,
    MacOs,
    Linux,
    Other,
}

} // verus!
