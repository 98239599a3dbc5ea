use tray_controller::badge::{badge_label_for, tooltip_for, tray_state_for, ShellModel};
use tray_controller::digits::format_count;
use tray_controller::errors::ShellError;
use tray_controller::notify::{notification_outcome, notification_request};

#[test]
fn format_count_exact_values() {
    assert_eq!(format_count(0), "0");
    assert_eq!(format_count(5), "5");
    assert_eq!(format_count(10), "10");
    assert_eq!(format_count(205), "205");
    assert_eq!(format_count(4294967295), "4294967295");
}

#[test]
fn tooltip_zero_is_bare_app_name() {
    assert_eq!(tooltip_for(0), "SureThing Clone");
}

#[test]
fn tooltip_positive_has_fixed_format() {
    assert_eq!(tooltip_for(1), "SureThing Clone — 1 pending");
    assert_eq!(tooltip_for(5), "SureThing Clone — 5 pending");
    assert_eq!(tooltip_for(42), "SureThing Clone — 42 pending");
}

#[test]
fn badge_label_present_iff_positive_and_supported() {
    assert_eq!(badge_label_for(0, true), None);
    assert_eq!(badge_label_for(0, false), None);
    assert_eq!(badge_label_for(5, false), None);
    assert_eq!(badge_label_for(5, true), Some("5".to_string()));
    assert_eq!(badge_label_for(4294967295, true), Some("4294967295".to_string()));
}

#[test]
fn tray_state_agrees_with_count() {
    let t = tray_state_for(7, true);
    assert_eq!(t.pending_count, 7);
    assert_eq!(t.tooltip, "SureThing Clone — 7 pending");
    assert_eq!(t.badge_label, Some("7".to_string()));
    let z = tray_state_for(0, true);
    assert_eq!(z.tooltip, "SureThing Clone");
    assert_eq!(z.badge_label, None);
}

#[test]
fn update_badge_scenario_round_trip() {
    // update_badge(0) -> base tooltip, no badge; update_badge(5) -> counted
    // tooltip and badge "5"; update_badge(0) -> reverts both.
    let mut m = ShellModel::new(true);
    m.install_tray();

    assert_eq!(m.update_badge(0), Ok(()));
    let t = m.tray.as_ref().unwrap();
    assert_eq!(t.tooltip, "SureThing Clone");
    assert_eq!(t.badge_label, None);

    assert_eq!(m.update_badge(5), Ok(()));
    let t = m.tray.as_ref().unwrap();
    assert_eq!(t.tooltip, "SureThing Clone — 5 pending");
    assert_eq!(t.badge_label, Some("5".to_string()));

    assert_eq!(m.update_badge(0), Ok(()));
    let t = m.tray.as_ref().unwrap();
    assert_eq!(t.tooltip, "SureThing Clone");
    assert_eq!(t.badge_label, None);
}

#[test]
fn update_badge_never_sets_badge_without_capability() {
    let mut m = ShellModel::new(false);
    m.install_tray();
    assert_eq!(m.update_badge(9), Ok(()));
    let t = m.tray.as_ref().unwrap();
    assert_eq!(t.tooltip, "SureThing Clone — 9 pending");
    assert_eq!(t.badge_label, None);
}

#[test]
fn update_badge_idempotent() {
    let mut m = ShellModel::new(true);
    m.install_tray();
    assert_eq!(m.update_badge(7), Ok(()));
    let first_tooltip = m.tray.as_ref().unwrap().tooltip.clone();
    let first_badge = m.tray.as_ref().unwrap().badge_label.clone();
    assert_eq!(m.update_badge(7), Ok(()));
    assert_eq!(m.tray.as_ref().unwrap().tooltip, first_tooltip);
    assert_eq!(m.tray.as_ref().unwrap().badge_label, first_badge);
}

#[test]
fn update_badge_without_tray_fails_and_mutates_nothing() {
    let mut m = ShellModel::new(true);
    assert_eq!(m.update_badge(3), Err(ShellError::TrayNotFound));
    assert!(m.tray.is_none());
    assert!(m.supports_dock_badge);
}

#[test]
fn install_tray_starts_at_zero() {
    let mut m = ShellModel::new(true);
    m.install_tray();
    let t = m.tray.as_ref().unwrap();
    assert_eq!(t.pending_count, 0);
    assert_eq!(t.tooltip, "SureThing Clone");
    assert_eq!(t.badge_label, None);
}

#[test]
fn notification_request_passes_through() {
    let n = notification_request("New task".to_string(), "A task arrived".to_string());
    assert_eq!(n.title, "New task");
    assert_eq!(n.body, "A task arrived");
}

#[test]
fn notification_outcome_maps_refusal() {
    assert_eq!(notification_outcome(true), Ok(()));
    assert_eq!(
        notification_outcome(false),
        Err(ShellError::NotificationDispatchFailed)
    );
}

#[test]
fn error_messages() {
    assert_eq!(ShellError::TrayNotFound.message(), "Tray not found");
    assert_eq!(
        ShellError::NotificationDispatchFailed.message(),
        "Notification dispatch failed"
    );
    assert_eq!(
        ShellError::MenuConstructionFailed.message(),
        "Menu construction failed"
    );
    assert_eq!(ShellError::WindowLookupMiss.message(), "Main window not found");
}
