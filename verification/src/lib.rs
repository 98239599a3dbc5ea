//! Desktop-shell tray controller: badge state, tray tooltip formatting,
//! the static tray context menu, and the routing of menu and tray-click
//! events to window actions.
//!
//! The library is pure: it computes tooltip strings, badge labels, menu
//! definitions and dispatch plans. The host program applies those plans
//! to the platform tray icon, window registry and notification channel.

pub mod badge;
pub mod digits;
pub mod errors;
pub mod menu;
pub mod notify;
pub mod routing;
