//! Tests for the supervisor slot and the failure-monitor decisions.

use ssgtk_core::api::NotifyMethod;
use ssgtk_core::event::AppEvent;
use ssgtk_core::instance::SSInstance;
use ssgtk_core::leaky_bucket::NaiveLeakyBucketConfig;
use ssgtk_core::monitor::{FailureMonitor, MonitorEvent, MonitorVerdict};
use ssgtk_core::profile::{
    AdvancedOptions, ConfigFileOptions, MetadataOverride, Profile, ProfileConfig, ProfileMetadata,
};
use ssgtk_core::profile_folder::ProfileFolder;
use ssgtk_core::profile_manager::ProfileManager;

fn profile(name: &str) -> Profile {
    Profile {
        metadata: ProfileMetadata {
            display_name: name.to_string(),
            pwd: "/tmp".to_string(),
            bin_path: "sslocal".to_string(),
        },
        config: ProfileConfig::ConfigFile {
            metadata: MetadataOverride { display_name: None, pwd: None, bin_path: None },
            opts: ConfigFileOptions { config_path: "/etc/ss/conf.json".to_string() },
            adv_opts: AdvancedOptions { extra_args: None },
        },
    }
}

fn instance(name: &str, pid: u64) -> SSInstance {
    SSInstance { profile: profile(name), pids: vec![pid] }
}

fn limit() -> NaiveLeakyBucketConfig {
    NaiveLeakyBucketConfig::new(2, 10000)
}

#[test]
fn manager_starts_inactive() {
    let pm = ProfileManager::new(limit());
    assert!(!pm.is_active());
    assert!(pm.current_profile().is_none());
}

/// Single active instance: installing a replacement hands the previous
/// instance back for teardown, so two installed instances are never live
/// at once.
#[test]
fn install_swaps_out_previous_instance() {
    let mut pm = ProfileManager::new(limit());
    assert!(pm.install(instance("one", 11)).is_none());
    assert!(pm.is_active());
    assert_eq!(pm.current_profile().unwrap().metadata.display_name, "one");
    let prev = pm.install(instance("two", 22)).expect("previous instance handed back");
    assert_eq!(prev.profile.metadata.display_name, "one");
    assert_eq!(pm.current_profile().unwrap().metadata.display_name, "two");
}

/// Idempotent stop: the second stop reports "already inactive" and hands
/// out no instance, so no process is ever signalled twice.
#[test]
fn stop_is_idempotent() {
    let mut pm = ProfileManager::new(limit());
    pm.install(instance("one", 11));
    assert_eq!(pm.try_stop(), Ok(()));
    assert!(!pm.is_active());
    assert_eq!(pm.try_stop(), Err(()));
    assert!(pm.take_active().is_none());
}

#[test]
fn snapshot_names_active_profile() {
    let mut pm = ProfileManager::new(limit());
    let s0 = pm.snapshot(NotifyMethod::Toast);
    assert_eq!(s0.most_recent_profile, "");
    assert_eq!(s0.restart_limit, limit());
    assert_eq!(s0.notify_method, NotifyMethod::Toast);
    pm.install(instance("one", 11));
    let s1 = pm.snapshot(NotifyMethod::Log);
    assert_eq!(s1.most_recent_profile, "one");
    assert_eq!(s1.notify_method, NotifyMethod::Log);
}

#[test]
fn resume_from_saved_state() {
    let tree = ProfileFolder::Profile(profile("saved"));
    let mut state = ssgtk_core::app_state::AppState::default();

    // No recent profile: nothing to resume.
    let (pm, target) = ProfileManager::resume_from(&state, &tree);
    assert!(!pm.is_active());
    assert!(target.is_none());

    // A saved name that exists is found.
    state.most_recent_profile = "saved".to_string();
    let (_, target) = ProfileManager::resume_from(&state, &tree);
    assert_eq!(target.unwrap().metadata.display_name, "saved");

    // A saved name that is missing resolves to nothing.
    state.most_recent_profile = "gone".to_string();
    let (_, target) = ProfileManager::resume_from(&state, &tree);
    assert!(target.is_none());
}

/// Clean-exit detection: one clean exit produces exactly one `OkStop`
/// and no restart attempt.
#[test]
fn clean_exit_emits_single_ok_stop() {
    let mut m = FailureMonitor::new(limit());
    let v = m.step_at(Some("inst".to_string()), MonitorEvent::CleanExit, 0);
    assert_eq!(
        v,
        MonitorVerdict::Stop {
            event: AppEvent::OkStop { instance_name: Some("inst".to_string()) }
        }
    );
    assert!(m.bucket.history.is_empty());
}

#[test]
fn cleared_slot_stops_quietly_without_name() {
    let mut m = FailureMonitor::new(limit());
    let v = m.step_at(Some("inst".to_string()), MonitorEvent::SlotCleared, 0);
    assert_eq!(v, MonitorVerdict::Stop { event: AppEvent::OkStop { instance_name: None } });
}

#[test]
fn disconnected_channel_is_unrecoverable() {
    let mut m = FailureMonitor::new(limit());
    let v = m.step_at(
        Some("inst".to_string()),
        MonitorEvent::Disconnected { err: "hung up".to_string() },
        0,
    );
    assert_eq!(
        v,
        MonitorVerdict::Stop {
            event: AppEvent::ErrorStop {
                instance_name: Some("inst".to_string()),
                err: "hung up".to_string(),
            }
        }
    );
}

#[test]
fn respawn_failure_is_terminal() {
    let mut m = FailureMonitor::new(limit());
    let v = m.step_at(
        Some("inst".to_string()),
        MonitorEvent::RespawnFailed { err: "binary removed".to_string() },
        0,
    );
    assert_eq!(
        v,
        MonitorVerdict::Stop {
            event: AppEvent::ErrorStop {
                instance_name: Some("inst".to_string()),
                err: "binary removed".to_string(),
            }
        }
    );
}

/// Restart-then-give-up: under an allowance of two, two abnormal exits
/// are answered with respawns and the third with one terminal
/// `ErrorStop`.
#[test]
fn two_restarts_then_give_up() {
    let mut m = FailureMonitor::new(NaiveLeakyBucketConfig::new(2, 10000));
    let name = || Some("inst".to_string());
    assert_eq!(m.step_at(name(), MonitorEvent::AbnormalExit, 100), MonitorVerdict::Respawn);
    assert_eq!(m.step_at(name(), MonitorEvent::AbnormalExit, 200), MonitorVerdict::Respawn);
    let v = m.step_at(name(), MonitorEvent::AbnormalExit, 300);
    match v {
        MonitorVerdict::Stop { event: AppEvent::ErrorStop { instance_name, err } } => {
            assert_eq!(instance_name, Some("inst".to_string()));
            assert_eq!(err, "NaiveLeakyBucket overflowed: more than 2 times within 10000ms");
        }
        other => panic!("expected a terminal error stop, got {:?}", other),
    }
}

/// A slow failure trickle never exhausts the budget: exits spaced wider
/// than the window keep being answered with respawns.
#[test]
fn spaced_failures_keep_restarting() {
    let mut m = FailureMonitor::new(NaiveLeakyBucketConfig::new(1, 100));
    for k in 0..5u64 {
        let v = m.step_at(None, MonitorEvent::AbnormalExit, k * 1000);
        assert_eq!(v, MonitorVerdict::Respawn);
    }
}

#[test]
fn instance_describe_text() {
    let inst = SSInstance { profile: profile("mine"), pids: vec![12, 34] };
    assert_eq!(inst.describe(), "SSInstance(Profile: mine, PIDs: [12, 34])");
    let single = SSInstance { profile: profile("solo"), pids: vec![7] };
    assert_eq!(single.describe(), "SSInstance(Profile: solo, PIDs: [7])");
}
