//! The record of one live worker instance: the profile it was launched
//! from and the process ids of its subprocess tree. The runtime owns the
//! actual process handle and capture threads; the supervisor state machine
//! tracks instances through these records.

use vstd::prelude::*;

use crate::profile::{Profile, ProfileV};
use crate::strfmt::{join_dec, joined_dec};

verus! {

/// One live worker instance, as the supervisor sees it.
#[derive(Debug, PartialEq)]
pub struct SSInstance {
    /// Owned (not borrowed) so that a restart can respawn with identical
    /// settings.
    pub profile: Profile,
    /// The process ids of the spawned subprocess tree.
    pub pids: Vec<u64>,
}

/// The view of an [`SSInstance`].
pub struct SSInstanceV {
    pub profile: ProfileV,
    pub pids: Seq<u64>,
}

impl View for SSInstance {
    type V = SSInstanceV;

    open spec fn view(&self) -> SSInstanceV {
        SSInstanceV { profile: self.profile@, pids: self.pids@ }
    }
}

/// The display identity of an instance, combining its profile name and
/// process ids for logging and diagnostics.
pub open spec fn instance_text(i: SSInstanceV) -> Seq<char> {
    "SSInstance(Profile: "@ + i.profile.metadata.display_name + ", PIDs: ["@ + joined_dec(
        i.pids,
        ", "@,
    ) + "])"@
}

impl SSInstance {
    /// Render the display identity of this instance.
    pub fn describe(&self) -> (s: String)
        ensures
            s@ == instance_text(self@),
    {
        let mut s = String::from_str("SSInstance(Profile: ");
        s.append(self.profile.metadata.display_name.as_str());
        s.append(", PIDs: [");
        let pids = join_dec(&self.pids, ", ");
        s.append(pids.as_str());
        s.append("])");
        proof {
            assert(s@ =~= instance_text(self@));
        }
        s
    }
}

} // verus!
