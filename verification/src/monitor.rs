//! The failure monitor's decision logic. The runtime runs one monitor
//! loop per activation: it watches the instance's exit channel and hands
//! each observation to [`FailureMonitor::step_at`], which decides whether
//! to respawn the worker or to stop supervision and which lifecycle event
//! to emit. The loop performs the action it is told: on `Respawn` it
//! spawns the same profile again and reports back a `RespawnFailed` if
//! that goes wrong; on `Stop` it clears the active slot, emits the
//! verdict's event, and exits.

use vstd::prelude::*;

use crate::event::AppEvent;
use crate::leaky_bucket::{
    overflow_text,
    pushed_history,
    NaiveLeakyBucket,
    NaiveLeakyBucketConfig,
};

verus! {

/// One observation handed to the monitor.
#[derive(Debug, PartialEq)]
pub enum MonitorEvent {
    /// The active slot was found empty at the top of the loop: someone
    /// else (a stop or a switch) took the instance away.
    SlotCleared,
    /// The worker exited with a successful status.
    CleanExit,
    /// The exit channel disconnected: the worker's status can no longer
    /// be trusted.
    Disconnected { err: String },
    /// The worker exited abnormally (non-zero status or signal).
    AbnormalExit,
    /// The respawn the monitor asked for could not be performed.
    RespawnFailed { err: String },
}

/// What the monitor loop must do next.
#[derive(Debug, PartialEq)]
pub enum MonitorVerdict {
    /// Emit this lifecycle event, clear the active slot, and end the
    /// loop.
    Stop { event: AppEvent },
    /// Respawn the same profile and keep watching.
    Respawn,
}

/// The restart accounting of one activation: a fresh bucket per switch,
/// consumed by one monitor loop.
#[derive(Debug)]
pub struct FailureMonitor {
    pub bucket: NaiveLeakyBucket,
}

impl FailureMonitor {
    /// A fresh monitor for a new activation: the restart budget starts
    /// empty.
    pub fn new(limit: NaiveLeakyBucketConfig) -> (m: Self)
        ensures
            m.bucket.times == limit.times,
            m.bucket.within_ms == limit.within_ms,
            m.bucket.history@ == Seq::<u64>::empty(),
    {
        FailureMonitor { bucket: NaiveLeakyBucket::from_config(limit) }
    }

    /// Decide what the loop does after observing `event` at `now_ms`.
    ///
    /// A clean exit stops supervision with exactly one `OkStop` and no
    /// restart; a cleared slot stops silently-successfully with no
    /// instance name; a disconnected channel or failed respawn stops
    /// with an `ErrorStop`; an abnormal exit charges the restart budget
    /// and either orders a respawn or, on overflow, stops with an
    /// `ErrorStop` carrying the overflow diagnostic.
    pub fn step_at(&mut self, instance_name: Option<String>, event: MonitorEvent, now_ms: u64) -> (v:
        MonitorVerdict)
        ensures
            match event {
                MonitorEvent::SlotCleared => *final(self) == *old(self) && v == (
                MonitorVerdict::Stop { event: AppEvent::OkStop { instance_name: None } }),
                MonitorEvent::CleanExit => *final(self) == *old(self) && v == (
                MonitorVerdict::Stop { event: AppEvent::OkStop { instance_name } }),
                MonitorEvent::Disconnected { err } => *final(self) == *old(self) && v == (
                MonitorVerdict::Stop { event: AppEvent::ErrorStop { instance_name, err } }),
                MonitorEvent::RespawnFailed { err } => *final(self) == *old(self) && v == (
                MonitorVerdict::Stop { event: AppEvent::ErrorStop { instance_name, err } }),
                MonitorEvent::AbnormalExit => {
                    let new_hist = pushed_history(
                        old(self).bucket.history@,
                        now_ms,
                        old(self).bucket.within_ms,
                    );
                    &&& final(self).bucket.times == old(self).bucket.times
                    &&& final(self).bucket.within_ms == old(self).bucket.within_ms
                    &&& final(self).bucket.history@ == new_hist
                    &&& if new_hist.len() <= old(self).bucket.times {
                        v == MonitorVerdict::Respawn
                    } else {
                        v matches MonitorVerdict::Stop { event: e }
                            && e matches AppEvent::ErrorStop { instance_name: n, err: e2 }
                            && n == instance_name && e2@ == overflow_text(
                            old(self).bucket.times as nat,
                            old(self).bucket.within_ms as nat,
                        )
                    }
                },
            },
    {
        match event {
            MonitorEvent::SlotCleared => MonitorVerdict::Stop {
                event: AppEvent::OkStop { instance_name: None },
            },
            MonitorEvent::CleanExit => MonitorVerdict::Stop {
                event: AppEvent::OkStop { instance_name },
            },
            MonitorEvent::Disconnected { err } => MonitorVerdict::Stop {
                event: AppEvent::ErrorStop { instance_name, err },
            },
            MonitorEvent::RespawnFailed { err } => MonitorVerdict::Stop {
                event: AppEvent::ErrorStop { instance_name, err },
            },
            MonitorEvent::AbnormalExit => {
                match self.bucket.push_at(now_ms) {
                    Ok(()) => MonitorVerdict::Respawn,
                    Err(overflow) => {
                        let err = overflow.describe();
                        MonitorVerdict::Stop {
                            event: AppEvent::ErrorStop { instance_name, err },
                        }
                    },
                }
            },
        }
    }
}

/// The bucket history carried by a monitor that has charged abnormal
/// exits at each stamp of `ts` in order, starting from a fresh bucket.
pub open spec fn monitor_history(ts: Seq<u64>, within_ms: u64) -> Seq<u64> {
    crate::leaky_bucket::history_after_pushes(Seq::empty(), ts, within_ms)
}

/// Law: restart, then give up. For a budget of `times = N` and a run of
/// abnormal exits whose stamps form one burst inside the window, the
/// monitor orders a respawn after each of the first N exits and stops
/// with the overflow error on exit N + 1 — exactly N restart attempts,
/// then one terminal error, as decided by [`FailureMonitor::step_at`]:
/// after the first k exits the bucket history is `ts.take(k)`, and the
/// k-th exit is answered with `Respawn` if and only if `k < N`.
pub proof fn lemma_restart_then_give_up(cfg: NaiveLeakyBucketConfig, ts: Seq<u64>)
    requires
        crate::leaky_bucket::burst_within(ts, cfg.within_ms),
        ts.len() == cfg.times + 1,
    ensures
        forall|k: int|
            0 <= k < ts.len() ==> #[trigger] monitor_history(ts.take(k), cfg.within_ms) == ts.take(
                k,
            ),
        forall|k: int|
            0 <= k < ts.len() ==> (#[trigger] pushed_history(
                ts.take(k),
                ts[k],
                cfg.within_ms,
            ).len() <= cfg.times <==> k < cfg.times),
{
    crate::leaky_bucket::lemma_bucket_threshold(cfg, ts);
    assert forall|k: int| 0 <= k < ts.len() implies #[trigger] monitor_history(
        ts.take(k),
        cfg.within_ms,
    ) == ts.take(k) by {
        if k == 0 {
            assert(ts.take(0) =~= Seq::<u64>::empty());
        } else {
            let prefix = ts.take(k);
            assert forall|i: int, j: int| 0 <= i <= j < prefix.len() implies #[trigger] prefix[i]
                <= #[trigger] prefix[j] by {
                assert(ts[i] <= ts[j]);
            }
            assert(prefix.last() == ts[k - 1] && prefix.first() == ts[0]);
            assert(ts[k - 1] <= ts[ts.len() - 1]);
            crate::leaky_bucket::lemma_bucket_run(prefix, cfg.within_ms);
        }
    }
}

} // verus!
