//! Tests for commands, notification methods, persisted state, and the
//! lock-recovery helpers.

use ssgtk_core::api::{APICommand, NotifyMethod, SubCmd};
use ssgtk_core::app_state::AppState;
use ssgtk_core::leaky_bucket::NaiveLeakyBucketConfig;
use ssgtk_core::sync::{mutex_lock, rwlock_read, rwlock_write};

#[test]
fn notify_method_names() {
    assert_eq!(NotifyMethod::Disable.name(), "disable");
    assert_eq!(NotifyMethod::Log.name(), "log");
    assert_eq!(NotifyMethod::Prompt.name(), "prompt");
    assert_eq!(NotifyMethod::Toast.name(), "toast");
}

#[test]
fn command_descriptions() {
    assert_eq!(APICommand::LogViewerShow.describe(), "Show log viewer");
    assert_eq!(APICommand::LogViewerHide.describe(), "Hide log viewer");
    assert_eq!(
        APICommand::SetNotify(NotifyMethod::Prompt).describe(),
        "Set notification method to prompt"
    );
    assert_eq!(APICommand::Restart.describe(), "Restart current profile");
    assert_eq!(
        APICommand::SwitchProfile("Example Profile".to_string()).describe(),
        "Switch Profile to Example Profile"
    );
    assert_eq!(APICommand::Stop.describe(), "Stop current profile");
    assert_eq!(APICommand::Quit.describe(), "Quit application");
}

#[test]
fn subcommands_map_onto_api_commands() {
    assert_eq!(APICommand::from(SubCmd::LogViewerShow), APICommand::LogViewerShow);
    assert_eq!(APICommand::from(SubCmd::LogViewerHide), APICommand::LogViewerHide);
    assert_eq!(
        APICommand::from(SubCmd::SetNotify { notify_method: NotifyMethod::Log }),
        APICommand::SetNotify(NotifyMethod::Log)
    );
    assert_eq!(APICommand::from(SubCmd::Restart), APICommand::Restart);
    let cmd: APICommand = SubCmd::SwitchProfile { profile_name: "p1".to_string() }.into();
    assert_eq!(cmd, APICommand::SwitchProfile("p1".to_string()));
    assert_eq!(APICommand::from(SubCmd::Stop), APICommand::Stop);
    assert_eq!(APICommand::from(SubCmd::Quit), APICommand::Quit);
}

#[test]
fn app_state_default_values() {
    let s = AppState::default();
    assert_eq!(s.most_recent_profile, "");
    assert_eq!(s.restart_limit, NaiveLeakyBucketConfig::new(5, 30000));
    assert_eq!(s.notify_method, NotifyMethod::Toast);
}

#[test]
fn lock_recovery_takes_guard_either_way() {
    // A clean acquisition hands back the guard.
    assert_eq!(mutex_lock::<u32>(Ok(7)), 7);
    assert_eq!(rwlock_read::<u32>(Ok(8)), 8);
    assert_eq!(rwlock_write::<u32>(Ok(9)), 9);
    // A poisoned acquisition still carries the guard; it is recovered,
    // never propagated.
    assert_eq!(mutex_lock::<u32>(Err(7)), 7);
    assert_eq!(rwlock_read::<u32>(Err(8)), 8);
    assert_eq!(rwlock_write::<u32>(Err(9)), 9);
}
