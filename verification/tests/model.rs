//! The domain model.

use oxiwake::model::{DoctorReport, WakeMode, WakeRequest, WakeTarget};

#[test]
fn logind_what_default_is_sleep_idle() {
    let req = WakeRequest::default_linux();
    assert_eq!(req.logind_what(), "sleep:idle");
}

#[test]
fn logind_what_aggressive_lid_appends_handle_lid_switch() {
    let mut req = WakeRequest::default_linux();
    req.aggressive_lid = true;
    assert_eq!(req.logind_what(), "sleep:idle:handle-lid-switch");
}

#[test]
fn logind_what_preserves_priority_order_and_dedups() {
    let req = WakeRequest {
        targets: vec![
            WakeTarget::Shutdown,
            WakeTarget::SystemSleep,
            WakeTarget::Idle,
        ],
        reason: "test".into(),
        display: false,
        aggressive_lid: false,
    };
    assert_eq!(req.logind_what(), "shutdown:sleep:idle");
}

#[test]
fn logind_what_dedups_repeated_handle_lid_switch() {
    let req = WakeRequest {
        targets: vec![WakeTarget::LidSwitch],
        reason: "test".into(),
        display: false,
        aggressive_lid: true, // would re-add if not deduped
    };
    assert_eq!(req.logind_what(), "handle-lid-switch");
}

#[test]
fn logind_what_display_target_contributes_no_token() {
    let req = WakeRequest {
        targets: vec![WakeTarget::Display, WakeTarget::Idle],
        reason: "test".into(),
        display: true,
        aggressive_lid: false,
    };
    assert_eq!(req.logind_what(), "idle");
}

#[test]
fn wake_mode_as_str_matches_systemd_inhibit() {
    assert_eq!(WakeMode::Block.as_str(), "block");
    assert_eq!(WakeMode::Delay.as_str(), "delay");
    assert_eq!(WakeMode::BlockWeak.as_str(), "block-weak");
}

#[test]
fn doctor_report_not_compiled_shape() {
    let r = DoctorReport::not_compiled("wayland-idle-inhibit");
    assert_eq!(r.backend, "wayland-idle-inhibit");
    assert!(!r.supported);
    assert!(!r.available);
    assert!(r.guarantees.iter().any(|g| g.contains("not compiled")));
}

#[test]
fn repeated_targets_keep_their_first_place() {
    let req = WakeRequest {
        targets: vec![
            WakeTarget::Idle,
            WakeTarget::LidSwitch,
            WakeTarget::Idle,
            WakeTarget::SystemSleep,
            WakeTarget::LidSwitch,
        ],
        reason: String::new(),
        display: false,
        aggressive_lid: true,
    };
    assert_eq!(req.logind_what(), "idle:handle-lid-switch:sleep");
}

#[test]
fn a_request_for_nothing_has_no_tokens() {
    let req = WakeRequest {
        targets: vec![],
        reason: String::new(),
        display: true,
        aggressive_lid: false,
    };
    assert_eq!(req.logind_what(), "");
}

#[test]
fn wire_names_are_kebab_case() {
    assert_eq!(WakeTarget::SystemSleep.wire_name(), "system-sleep");
    assert_eq!(WakeTarget::Idle.wire_name(), "idle");
    assert_eq!(WakeTarget::Display.wire_name(), "display");
    assert_eq!(WakeTarget::LidSwitch.wire_name(), "lid-switch");
    assert_eq!(WakeTarget::Shutdown.wire_name(), "shutdown");
}

#[test]
fn windows_default_keeps_the_system_only() {
    let req = WakeRequest::default_windows();
    assert_eq!(req.targets, vec![WakeTarget::SystemSleep]);
    assert_eq!(req.reason, "Oxiwake wake lock enabled");
    assert!(!req.display);
    assert!(!req.aggressive_lid);
    assert_eq!(WakeMode::default(), WakeMode::Block);
    assert_eq!(WakeRequest::WHO, "Oxiwake");
}
