//! The supervisor's single point of truth for "which profile, if any, is
//! currently running": a single-slot ownership handoff. Every transition
//! swaps the slot and hands the previous instance back to the caller, so
//! the caller can tear it down outside any lock; at most one instance is
//! ever held, and no instance is lost or handed out twice. The runtime
//! guards a `ProfileManager` with a reader-writer lock held only for the
//! duration of these calls, never across a spawn or a teardown.

use vstd::multiset::Multiset;
use vstd::prelude::*;

use crate::app_state::AppState;
use crate::api::NotifyMethod;
use crate::instance::SSInstance;
use crate::leaky_bucket::NaiveLeakyBucketConfig;
use crate::profile::Profile;
use crate::profile_folder::{lookup_in, ProfileFolder};

verus! {

/// A daemon state that manages profile switching and restarts.
#[derive(Debug)]
pub struct ProfileManager {
    /// Attempt to restart the worker up to this allowance before going
    /// inactive.
    pub restart_limit: NaiveLeakyBucketConfig,
    /// The single active-instance slot; `None` means inactive.
    active: Option<SSInstance>,
}

impl ProfileManager {
    /// The instance in the active slot, if any.
    pub closed spec fn current(self) -> Option<SSInstance> {
        self.active
    }

    /// The restart allowance this manager was created with.
    pub closed spec fn limit(self) -> NaiveLeakyBucketConfig {
        self.restart_limit
    }

    /// An inactive manager with the given restart allowance.
    pub fn new(restart_limit: NaiveLeakyBucketConfig) -> (m: Self)
        ensures
            m.limit() == restart_limit,
            m.current() is None,
    {
        ProfileManager { restart_limit, active: None }
    }

    /// Whether a worker instance is currently running.
    pub fn is_active(&self) -> (r: bool)
        ensures
            r == (self.current() is Some),
    {
        self.active.is_some()
    }

    /// The profile of the currently active instance, copied out.
    pub fn current_profile(&self) -> (r: Option<Profile>)
        ensures
            match r {
                Some(p) => self.current() is Some && p@ == (self.current()->Some_0).profile@,
                None => self.current() is None,
            },
    {
        match &self.active {
            Some(inst) => Some(inst.profile.duplicate()),
            None => None,
        }
    }

    /// Publish a freshly spawned instance as the active one, returning
    /// whatever instance was active before so that the caller can tear
    /// it down. This is the only way an instance enters the slot.
    pub fn install(&mut self, inst: SSInstance) -> (prev: Option<SSInstance>)
        ensures
            final(self).current() == Some(inst),
            final(self).limit() == old(self).limit(),
            prev == old(self).current(),
    {
        let prev = self.active.take();
        self.active = Some(inst);
        prev
    }

    /// Empty the slot, returning the instance that was active so that
    /// the caller can tear it down.
    pub fn take_active(&mut self) -> (prev: Option<SSInstance>)
        ensures
            final(self).current() is None,
            final(self).limit() == old(self).limit(),
            prev == old(self).current(),
    {
        self.active.take()
    }

    /// Stop the worker instance if active.
    ///
    /// Returns `Err(())` if already inactive; then nothing changes and
    /// no instance is handed out, so stopping twice never touches a
    /// process twice.
    pub fn try_stop(&mut self) -> (r: Result<(), ()>)
        ensures
            final(self).current() is None,
            final(self).limit() == old(self).limit(),
            r is Ok <==> old(self).current() is Some,
            old(self).current() is None ==> *final(self) == *old(self),
    {
        match self.take_active() {
            Some(_) => Ok(()),
            None => Err(()),
        }
    }

    /// Export the current state for persistence: the active profile's
    /// name (empty when inactive), the restart allowance, and the
    /// notification method the caller currently uses.
    pub fn snapshot(&self, notify_method: NotifyMethod) -> (s: AppState)
        ensures
            s.most_recent_profile@ == match self.current() {
                Some(i) => i.profile@.metadata.display_name,
                None => Seq::<char>::empty(),
            },
            s.restart_limit == self.limit(),
            s.notify_method == notify_method,
    {
        let most_recent_profile = match &self.active {
            Some(inst) => inst.profile.metadata.display_name.clone(),
            None => String::new(),
        };
        AppState { most_recent_profile, restart_limit: self.restart_limit, notify_method }
    }

    /// Resume from a previously saved state: a fresh inactive manager
    /// with the saved restart allowance, plus the profile to switch to,
    /// if the saved name is non-empty and is found in the loaded tree.
    /// Spawning (and logging any failure of it) is the caller's part;
    /// resumption is best-effort.
    pub fn resume_from<'a>(state: &AppState, profiles: &'a ProfileFolder) -> (r: (
        Self,
        Option<&'a Profile>,
    ))
        ensures
            r.0.limit() == state.restart_limit,
            r.0.current() is None,
            state.most_recent_profile@.len() == 0 ==> r.1 is None,
            state.most_recent_profile@.len() > 0 ==> match r.1 {
                Some(p) => lookup_in(*profiles, state.most_recent_profile@) == Some(p@),
                None => lookup_in(*profiles, state.most_recent_profile@) is None,
            },
    {
        let mgr = Self::new(state.restart_limit);
        if state.most_recent_profile.as_str().is_empty() {
            (mgr, None)
        } else {
            let target = profiles.lookup(&state.most_recent_profile);
            (mgr, target)
        }
    }
}

/// One transition of the active-instance slot: publishing a freshly
/// spawned instance, or emptying the slot (a stop, or the monitor
/// clearing it).
pub enum SlotOp {
    Install(SSInstance),
    Take,
}

/// The slot contents after applying `ops` in order, starting inactive.
pub open spec fn slot_after(ops: Seq<SlotOp>) -> Option<SSInstance>
    decreases ops.len(),
{
    if ops.len() == 0 {
        None
    } else {
        match ops.last() {
            SlotOp::Install(i) => Some(i),
            SlotOp::Take => None,
        }
    }
}

/// Every instance ever installed by `ops`, as a multiset.
pub open spec fn installed_by(ops: Seq<SlotOp>) -> Multiset<SSInstance>
    decreases ops.len(),
{
    if ops.len() == 0 {
        Multiset::empty()
    } else {
        installed_by(ops.drop_last()).add(
            match ops.last() {
                SlotOp::Install(i) => Multiset::singleton(i),
                SlotOp::Take => Multiset::empty(),
            },
        )
    }
}

/// The contents of an optional slot as a multiset.
pub open spec fn slot_contents(s: Option<SSInstance>) -> Multiset<SSInstance> {
    match s {
        Some(i) => Multiset::singleton(i),
        None => Multiset::empty(),
    }
}

/// Every instance handed back for teardown by `ops`: each transition
/// releases whatever the slot held before it.
pub open spec fn released_by(ops: Seq<SlotOp>) -> Multiset<SSInstance>
    decreases ops.len(),
{
    if ops.len() == 0 {
        Multiset::empty()
    } else {
        released_by(ops.drop_last()).add(slot_contents(slot_after(ops.drop_last())))
    }
}

/// Law: a single active instance, and full accounting. After any
/// sequence of interleaved install and take transitions starting from
/// the inactive state, the slot holds at most one instance, and every
/// instance ever installed has either been handed back for teardown
/// exactly once or is the one instance the slot still holds — no
/// instance leaks and none is torn down twice, so no two installed
/// instances are ever live at the same time.
pub proof fn lemma_single_active_instance(ops: Seq<SlotOp>)
    ensures
        slot_contents(slot_after(ops)).len() <= 1,
        installed_by(ops) =~= released_by(ops).add(slot_contents(slot_after(ops))),
    decreases ops.len(),
{
    if ops.len() > 0 {
        lemma_single_active_instance(ops.drop_last());
    }
}

/// Law: stopping is idempotent. After any transition history, a take
/// leaves the slot empty, and a second take releases nothing at all —
/// no instance is ever handed out for teardown twice, so no process is
/// ever signalled twice.
pub proof fn lemma_stop_idempotent(ops: Seq<SlotOp>)
    ensures
        slot_after(ops.push(SlotOp::Take)) is None,
        released_by(ops.push(SlotOp::Take).push(SlotOp::Take)) =~= released_by(
            ops.push(SlotOp::Take),
        ),
{
    let once = ops.push(SlotOp::Take);
    let twice = once.push(SlotOp::Take);
    assert(twice.drop_last() =~= once);
}

} // verus!
