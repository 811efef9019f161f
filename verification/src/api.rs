//! Commands accepted from outside the application: how to notify the
//! user, the runtime-control commands a companion binary can send over
//! the control socket, and the mapping from its command-line subcommands
//! onto those commands.

use vstd::prelude::*;

verus! {

/// How to send the user a notification.
#[derive(Debug, Clone, Copy, PartialEq, Eq, Structural)]
pub enum NotifyMethod {
    /// Do nothing.
    Disable,
    /// Log in stdout.
    Log,
    /// Prompt using dialog.
    Prompt,
    /// Send system notification, appearing as a toast.
    Toast,
}

impl NotifyMethod {
    /// The lower-case name of the method.
    pub open spec fn spec_name(self) -> Seq<char> {
        match self {
            NotifyMethod::Disable => "disable"@,
            NotifyMethod::Log => "log"@,
            NotifyMethod::Prompt => "prompt"@,
            NotifyMethod::Toast => "toast"@,
        }
    }

    /// The lower-case name of the method.
    pub fn name(&self) -> (s: &'static str)
        ensures
            s@ == self.spec_name(),
    {
        match self {
            NotifyMethod::Disable => "disable",
            NotifyMethod::Log => "log",
            NotifyMethod::Prompt => "prompt",
            NotifyMethod::Toast => "toast",
        }
    }
}

/// A command arriving over the runtime control socket.
#[derive(Debug, PartialEq)]
pub enum APICommand {
    /// Show the log viewer window.
    LogViewerShow,
    /// Hide the log viewer window.
    LogViewerHide,
    /// Use this method for all future notifications.
    SetNotify(NotifyMethod),
    /// Restart the currently running worker.
    Restart,
    /// Switch to the named profile.
    SwitchProfile(String),
    /// Stop the currently running worker.
    Stop,
    /// Quit the application.
    Quit,
}

/// The human-readable description of a command.
pub open spec fn command_text(c: APICommand) -> Seq<char> {
    match c {
        APICommand::LogViewerShow => "Show log viewer"@,
        APICommand::LogViewerHide => "Hide log viewer"@,
        APICommand::SetNotify(method) => "Set notification method to "@ + method.spec_name(),
        APICommand::Restart => "Restart current profile"@,
        APICommand::SwitchProfile(name) => "Switch Profile to "@ + name@,
        APICommand::Stop => "Stop current profile"@,
        APICommand::Quit => "Quit application"@,
    }
}

impl APICommand {
    /// Render the human-readable description of this command.
    pub fn describe(&self) -> (s: String)
        ensures
            s@ == command_text(*self),
    {
        match self {
            APICommand::LogViewerShow => String::from_str("Show log viewer"),
            APICommand::LogViewerHide => String::from_str("Hide log viewer"),
            APICommand::SetNotify(method) => {
                let mut s = String::from_str("Set notification method to ");
                s.append(method.name());
                s
            },
            APICommand::Restart => String::from_str("Restart current profile"),
            APICommand::SwitchProfile(name) => {
                let mut s = String::from_str("Switch Profile to ");
                s.append(name.as_str());
                s
            },
            APICommand::Stop => String::from_str("Stop current profile"),
            APICommand::Quit => String::from_str("Quit application"),
        }
    }
}

/// A subcommand of the companion control binary, mirroring the commands
/// the control socket accepts.
#[derive(Debug, PartialEq)]
pub enum SubCmd {
    /// Show the log viewer window or bring it to foreground.
    LogViewerShow,
    /// Hide the log viewer window if opened.
    LogViewerHide,
    /// Use a particular method for all future notifications.
    SetNotify { notify_method: NotifyMethod },
    /// Restart the currently running worker instance.
    Restart,
    /// Switch to a new profile by starting a new worker instance.
    SwitchProfile { profile_name: String },
    /// Stop the currently running worker instance.
    Stop,
    /// Quit the application.
    Quit,
}

impl From<SubCmd> for APICommand {
    fn from(cmd: SubCmd) -> (r: Self) {
        match cmd {
            SubCmd::LogViewerShow => APICommand::LogViewerShow,
            SubCmd::LogViewerHide => APICommand::LogViewerHide,
            SubCmd::SetNotify { notify_method } => APICommand::SetNotify(notify_method),
            SubCmd::Restart => APICommand::Restart,
            SubCmd::SwitchProfile { profile_name } => APICommand::SwitchProfile(profile_name),
            SubCmd::Stop => APICommand::Stop,
            SubCmd::Quit => APICommand::Quit,
        }
    }
}

impl vstd::std_specs::convert::FromSpecImpl<SubCmd> for APICommand {
    open spec fn obeys_from_spec() -> bool {
        true
    }

    open spec fn from_spec(cmd: SubCmd) -> APICommand {
        match cmd {
            SubCmd::LogViewerShow => APICommand::LogViewerShow,
            SubCmd::LogViewerHide => APICommand::LogViewerHide,
            SubCmd::SetNotify { notify_method } => APICommand::SetNotify(notify_method),
            SubCmd::Restart => APICommand::Restart,
            SubCmd::SwitchProfile { profile_name } => APICommand::SwitchProfile(profile_name),
            SubCmd::Stop => APICommand::Stop,
            SubCmd::Quit => APICommand::Quit,
        }
    }
}

} // verus!
