//! The persisted application state: which profile was most recently
//! active, the restart allowance, and the notification method. Read at
//! startup to resume supervision, and written back at shutdown from a
//! supervisor snapshot. The file handling itself lives outside the
//! library; here the value and its default are defined.

use vstd::prelude::*;

use crate::api::NotifyMethod;
use crate::leaky_bucket::NaiveLeakyBucketConfig;

verus! {

/// Describes the state of the application.
#[derive(Debug, PartialEq)]
pub struct AppState {
    /// The display name of the most recent profile; empty indicates none.
    pub most_recent_profile: String,
    pub restart_limit: NaiveLeakyBucketConfig,
    pub notify_method: NotifyMethod,
}

impl Default for AppState {
    /// No recent profile, five restarts allowed per half minute, and
    /// toast notifications.
    fn default() -> (s: Self)
        ensures
            s.most_recent_profile@ == Seq::<char>::empty(),
            s.restart_limit == (NaiveLeakyBucketConfig { times: 5, within_ms: 30000 }),
            s.notify_method == NotifyMethod::Toast,
    {
        AppState {
            most_recent_profile: String::new(),
            restart_limit: NaiveLeakyBucketConfig::new(5, 30000),
            notify_method: NotifyMethod::Toast,
        }
    }
}

} // verus!
