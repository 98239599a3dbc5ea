//! The controller's error taxonomy.
//!
//! `TrayNotFound` and `NotificationDispatchFailed` surface through the
//! command surface; `MenuConstructionFailed` is fatal at startup; a
//! `WindowLookupMiss` is expected and swallowed by the event routers.

use vstd::prelude::*;

verus! {

/// Everything that can go wrong in the tray/notification controller.
#[derive(Clone, Copy, Debug, PartialEq, Eq, Structural)]
pub enum ShellError {
    /// The tray icon could not be located: the badge-update command ran
    /// before setup completed, or after the icon was destroyed.
    TrayNotFound,
    /// The platform refused to display a notification.
    NotificationDispatchFailed,
    /// The platform could not build the context menu; fatal at startup.
    MenuConstructionFailed,
    /// The main window is absent; tolerated, the routers swallow it.
    WindowLookupMiss,
}

/// The text that each error carries back to the command's caller.
pub open spec fn message_spec(e: ShellError) -> Seq<char> {
    match e {
        ShellError::TrayNotFound => "Tray not found"@,
        ShellError::NotificationDispatchFailed => "Notification dispatch failed"@,
        ShellError::MenuConstructionFailed => "Menu construction failed"@,
        ShellError::WindowLookupMiss => "Main window not found"@,
    }
}

impl ShellError {
    /// The error rendered as the string the command surface reports.
    pub fn message(&self) -> (s: String)
        ensures
            s@ == message_spec(*self),
    {
        match self {
            ShellError::TrayNotFound => "Tray not found".to_owned(),
            ShellError::NotificationDispatchFailed => "Notification dispatch failed".to_owned(),
            ShellError::MenuConstructionFailed => "Menu construction failed".to_owned(),
            ShellError::WindowLookupMiss => "Main window not found".to_owned(),
        }
    }
}

} // verus!
