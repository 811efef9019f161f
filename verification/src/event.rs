//! Lifecycle events reported by the supervisor to its consumer (the user
//! interface). Exactly one event is emitted for each terminal transition
//! to the inactive state decided by the failure monitor; a user-initiated
//! stop is silent, because the caller already knows it asked for it.

use vstd::prelude::*;

verus! {

/// An asynchronous notification describing why supervision stopped.
#[derive(Debug, PartialEq)]
pub enum AppEvent {
    /// The worker stopped cleanly, or supervision was ended from outside
    /// (then no instance name is attached).
    OkStop { instance_name: Option<String> },
    /// Supervision ended on an error: an unrecoverable monitoring fault,
    /// an exhausted restart budget, or a failed respawn.
    ErrorStop { instance_name: Option<String>, err: String },
}

/// The view of an [`AppEvent`].
pub enum AppEventV {
    OkStop { instance_name: Option<Seq<char>> },
    ErrorStop { instance_name: Option<Seq<char>>, err: Seq<char> },
}

impl View for AppEvent {
    type V = AppEventV;

    open spec fn view(&self) -> AppEventV {
        match self {
            AppEvent::OkStop { instance_name } => AppEventV::OkStop {
                instance_name: instance_name.deep_view(),
            },
            AppEvent::ErrorStop { instance_name, err } => AppEventV::ErrorStop {
                instance_name: instance_name.deep_view(),
                err: err@,
            },
        }
    }
}

} // verus!
