//! Quality-of-service classes of dispatch queues.

use vstd::prelude::*;

verus! {

/// Quality of service of a dispatch queue, from lowest to highest priority.
#[derive(Debug, Clone, Copy, PartialEq, Eq, Hash, Structural)]
pub enum DispatchQoS {
    /// Background work the user does not see
    Background,
    /// Long-running work with visible progress
    Utility,
    /// The default class
    Default,
    /// Work the user started and waits for
    UserInitiated,
    /// Work on the user's interaction path
    UserInteractive,
}

impl DispatchQoS {
    /// The raw class value the bridge takes.
    pub fn raw(self) -> (v: i32)
        ensures
            self is Background ==> v == 0,
            self is Utility ==> v == 1,
            self is Default ==> v == 2,
            self is UserInitiated ==> v == 3,
            self is UserInteractive ==> v == 4,
    {
        match self {
            DispatchQoS::Background => 0,
            DispatchQoS::Utility => 1,
            DispatchQoS::Default => 2,
            DispatchQoS::UserInitiated => 3,
            DispatchQoS::UserInteractive => 4,
        }
    }
}

impl Default for DispatchQoS {
    fn default() -> (q: Self)
        ensures
            q is Default,
    {
        DispatchQoS::Default
    }
}

} // verus!
