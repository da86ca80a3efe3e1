//! Values that the HTTP front-end shares with its handlers.

use crate::action::{Action, LEVELS};
use vstd::prelude::*;

verus! {

/// The settings that the front-ends share.
#[allow(non_snake_case)]
#[derive(Debug, Clone)]
pub struct SharedConfig {
    pub Verbosity: String,
}

/// The record of a request as the HTTP front-end accepted it: what it answers
/// its caller with.
#[derive(Debug, Clone, PartialEq, Eq)]
pub enum SharedRequest {
    Command { device: String, action: Action, target: Option<usize> },
    NoUpdate,
}

impl SharedRequest {
    /// The action is well formed, the target is one of the levels, and a `set`
    /// aims at the target.
    pub open spec fn wf(self) -> bool {
        self matches SharedRequest::Command { device, action, target } ==> {
            &&& action.wf()
            &&& target matches Some(t) ==> t < LEVELS
            &&& action matches Action::SetTo { target: t } ==> target == Some(t)
        }
    }
}

} // verus!
