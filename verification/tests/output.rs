//! What is printed.

use oxiwake::cli::{
    build_request, cmd_off, cmd_on, cmd_status, cmd_toggle, failure_line, is_running, log_directive,
    status_state, RequestFlags, StateLookup, Toggle,
};
use oxiwake::doctor::DoctorOutput;
use oxiwake::error::OxiwakeError;
use oxiwake::ipc::DaemonReply;
use oxiwake::json::object_or_empty;
use oxiwake::model::{DoctorReport, WakeMode, WakeRequest, WakeStatus, WakeTarget};
use oxiwake::output::{
    human_age, human_doctor, human_live, human_off, human_simple, human_status, human_targets, json_off,
    json_live, json_simple, json_status, target_token, SINCE_KEY,
};
use oxiwake::platform::Platform;
use oxiwake::state::LockState;

fn sample_status() -> WakeStatus {
    WakeStatus {
        backend: "systemd-logind".to_string(),
        targets: vec![WakeTarget::SystemSleep, WakeTarget::Idle],
        mode: WakeMode::Block,
        display: false,
    }
}

fn sample_state() -> LockState {
    LockState {
        pid: 4242,
        backend: "systemd-logind".to_string(),
        started_unix: 1_000,
        request: WakeRequest::default_linux(),
    }
}

#[test]
fn human_age_formats_hms() {
    assert_eq!(human_age(0, 0), "0s");
    assert_eq!(human_age(1_000, 1_000), "0s");
    // 1h 2m 3s = 3723s
    assert_eq!(human_age(3_723, 0), "1h 2m 3s");
    // 2m 5s = 125s
    assert_eq!(human_age(125, 0), "2m 5s");
    // never negative: started in the future clamps to 0s
    assert_eq!(human_age(100, 200), "0s");
}

#[test]
fn zero_hours_and_minutes_are_left_out() {
    assert_eq!(human_age(3_603, 0), "1h 3s");
    assert_eq!(human_age(3_600, 0), "1h 0s");
    assert_eq!(human_age(60, 0), "1m 0s");
    assert_eq!(human_age(59, 0), "59s");
    assert_eq!(human_age(360_000, 0), "100h 0s");
}

#[test]
fn human_status_contains_backend_targets_and_pid() {
    let s = human_status(&sample_status(), &sample_state(), 2_000);
    assert!(s.contains("systemd-logind"), "status must name backend");
    assert!(s.contains("sleep+idle"), "targets must be rendered");
    assert!(s.contains("block"), "mode must be rendered");
    assert!(s.contains("pid 4242"), "pid must be rendered");
    assert!(s.contains("1000"), "started unix must be rendered");
}

#[test]
fn human_status_is_aligned() {
    let mut status = sample_status();
    status.display = true;
    assert_eq!(
        human_status(&status, &sample_state(), 2_000),
        "backend:   systemd-logind (on, pid 4242)\n\
         targets:   sleep+idle [block], display kept on\n\
         since:     started 1000 (16m 40s ago)"
    );
    status.display = false;
    let plain = human_status(&status, &sample_state(), 2_000);
    assert_eq!(plain.lines().count(), 3);
    assert_eq!(plain.lines().nth(1), Some("targets:   sleep+idle [block]"));
}

#[test]
fn json_status_is_valid_envelope() {
    let raw = json_status(&sample_status(), &sample_state(), 2_000);
    let v: serde_json::Value =
        serde_json::from_str(&raw).expect("json_status must produce valid json");
    assert_eq!(v["state"], "on");
    assert_eq!(v["backend"], "systemd-logind");
    assert_eq!(v["pid"], 4242);
    assert_eq!(v["elapsed_secs"], 1_000);
    assert_eq!(v[SINCE_KEY], 1_000);
}

#[test]
fn json_status_carries_every_member() {
    let mut status = sample_status();
    status.backend = "a \"quoted\"\nname".to_string();
    status.targets = vec![WakeTarget::LidSwitch, WakeTarget::SystemSleep];
    status.mode = WakeMode::BlockWeak;
    status.display = true;
    let raw = json_status(&status, &sample_state(), 500);
    assert!(!raw.contains('\n'), "one line");
    let v: serde_json::Value = serde_json::from_str(&raw).unwrap();
    assert_eq!(v["backend"], "a \"quoted\"\nname");
    assert_eq!(v["targets"][0], "lid-switch");
    assert_eq!(v["targets"][1], "system-sleep");
    assert_eq!(v["mode"], "block-weak");
    assert_eq!(v["display"], true);
    assert_eq!(v["elapsed_secs"], 0);
    assert_eq!(v.as_object().unwrap().len(), 8);
}

#[test]
fn off_strings_are_consistent() {
    let h = human_off();
    assert!(h.contains("off"));
    let j = json_off();
    let v: serde_json::Value = serde_json::from_str(&j).unwrap();
    assert_eq!(v["state"], "off");
    assert_eq!(v["running"], false);
}

#[test]
fn simple_json_roundtrip() {
    let j = json_simple("on", Some("started"));
    let v: serde_json::Value = serde_json::from_str(&j).unwrap();
    assert_eq!(v["state"], "on");
    assert_eq!(v["note"], "started");
}

#[test]
fn simple_forms_without_a_note() {
    assert_eq!(human_simple("off", None), "off");
    assert_eq!(human_simple("on", Some("x")), "on: x");
    assert_eq!(json_simple("off", None), "{\"state\":\"off\"}");
    assert_eq!(json_off(), "{\"running\":false,\"state\":\"off\"}");
    assert_eq!(object_or_empty(None), "{}");
}

#[test]
fn doctor_human_lists_backends_and_env() {
    let out = DoctorOutput {
        platform: "linux".to_string(),
        env: vec![("DISPLAY".to_string(), ":0".to_string())],
        backends: vec![DoctorReport {
            backend: "systemd-logind".to_string(),
            supported: true,
            available: true,
            guarantees: vec!["idle only".to_string()],
            notes: vec![],
        }],
    };
    let h = human_doctor(&out);
    assert!(h.contains("platform: linux"));
    assert!(h.contains("systemd-logind"));
    assert!(h.contains("yes"));
    assert!(h.contains("idle only"));
    assert!(h.contains("DISPLAY"));
}

#[test]
fn doctor_table_is_aligned() {
    let out = DoctorOutput {
        platform: "linux".to_string(),
        env: vec![
            ("OS".to_string(), "Debian".to_string()),
            ("DISPLAY".to_string(), ":0".to_string()),
        ],
        backends: vec![
            DoctorReport {
                backend: "systemd-logind".to_string(),
                supported: true,
                available: false,
                guarantees: vec!["a".to_string(), "b".to_string()],
                notes: vec!["n1".to_string(), "n2".to_string()],
            },
            DoctorReport {
                backend: "kde".to_string(),
                supported: false,
                available: true,
                guarantees: vec![],
                notes: vec![],
            },
        ],
    };
    let expected = [
        "platform: linux",
        "",
        "backend         supported  available  caveats",
        "---------------------------------------------",
        "systemd-logind  yes        no         a; b",
        "                note: n1",
        "                note: n2",
        "kde             no         yes        -",
        "",
        "environment:",
        "  OS       Debian",
        "  DISPLAY  :0",
    ];
    assert_eq!(human_doctor(&out), expected.join("\n"));
}

#[test]
fn empty_doctor_has_no_environment_block() {
    let out = DoctorOutput {
        platform: "unknown".to_string(),
        env: vec![],
        backends: vec![],
    };
    let h = human_doctor(&out);
    let lines: Vec<&str> = h.lines().collect();
    assert_eq!(lines.len(), 4);
    assert_eq!(lines[2].len(), lines[3].len(), "rule as long as the header");
}

#[test]
fn targets_are_named_like_logind_names_them() {
    assert_eq!(target_token(WakeTarget::LidSwitch), "handle-lid-switch");
    assert_eq!(target_token(WakeTarget::Display), "display");
    assert_eq!(target_token(WakeTarget::Shutdown), "shutdown");
    assert_eq!(human_targets(&[]), "none");
    assert_eq!(
        human_targets(&[WakeTarget::Display, WakeTarget::SystemSleep]),
        "display+sleep"
    );
}

#[test]
fn on_and_off_lines() {
    assert_eq!(
        cmd_on(&sample_status(), false),
        "on: systemd-logind holding 2 target(s), display off"
    );
    let v: serde_json::Value = serde_json::from_str(&cmd_on(&sample_status(), true)).unwrap();
    assert_eq!(v["note"], "backend=systemd-logind targets=2");
    assert_eq!(cmd_off(false), "off");
    assert_eq!(cmd_off(true), "{\"state\":\"off\"}");
    assert_eq!(
        failure_line(&OxiwakeError::NotRunning),
        "ow: oxiwake is not running"
    );
}

#[test]
fn a_daemon_without_a_snapshot_is_on() {
    let ping = || Ok(DaemonReply::ok_ping(sample_status(), 7));
    assert_eq!(
        cmd_status(None, ping(), false, 2_000).unwrap(),
        "backend:   systemd-logind (on, pid 7)\n\
         targets:   sleep+idle [block]\n\
         since:     unknown"
    );
    let raw = cmd_status(None, ping(), true, 2_000).unwrap();
    let v: serde_json::Value = serde_json::from_str(&raw).unwrap();
    assert_eq!(v["state"], "on");
    assert_eq!(v["backend"], "systemd-logind");
    assert_eq!(v["targets"][1], "idle");
    assert_eq!(v["mode"], "block");
    assert_eq!(v["display"], false);
    assert_eq!(v["pid"], 7);
    assert_eq!(v.as_object().unwrap().len(), 6);
    assert!(matches!(cmd_toggle(ping()), Ok(Toggle::TurnOff)));
    assert!(human_live(&sample_status(), None).starts_with("backend:   systemd-logind (on)\n"));
    assert!(!json_live(&sample_status(), None).contains("pid"));
}

#[test]
fn status_needs_a_daemon() {
    let ping = || Ok(DaemonReply::ok_ping(sample_status(), 4242));
    let on = cmd_status(Some(sample_state()), ping(), false, 2_000).unwrap();
    assert!(on.starts_with("backend:   systemd-logind (on, pid 4242)"));
    assert_eq!(
        cmd_status(Some(sample_state()), Err(OxiwakeError::NotRunning), true, 2_000).unwrap(),
        json_off()
    );
    let unset = Err(OxiwakeError::State("unset".to_string()));
    assert_eq!(cmd_status(None, unset, false, 0).unwrap(), human_off());
}

#[test]
fn a_refusing_daemon_is_an_error_to_status() {
    let refused = Ok(DaemonReply::err("busy".to_string()));
    match cmd_status(None, refused, false, 0) {
        Err(OxiwakeError::Ipc(m)) => assert_eq!(m, "busy"),
        other => panic!("expected an error, got {:?}", other),
    }
    let silent = Ok(DaemonReply {
        ok: false,
        error: None,
        status: None,
        pid: None,
    });
    match cmd_status(None, silent, false, 0) {
        Err(OxiwakeError::Ipc(m)) => assert_eq!(m, "daemon replied !ok"),
        other => panic!("expected an error, got {:?}", other),
    }
}

#[test]
fn an_unset_runtime_directory_is_no_snapshot() {
    let unset = StateLookup::Unresolved(OxiwakeError::State("unset".to_string()));
    assert!(matches!(status_state(unset), Ok(None)));
    let broken = StateLookup::Unresolved(OxiwakeError::other("x".to_string()));
    assert!(matches!(status_state(broken), Err(OxiwakeError::Other(_))));
    let corrupt = StateLookup::Read(Err(OxiwakeError::State("x".to_string())));
    assert!(matches!(status_state(corrupt), Err(OxiwakeError::State(_))));
}

#[test]
fn toggle_flips_and_passes_failures_on() {
    let up = Ok(DaemonReply::ok_ping(sample_status(), 1));
    assert!(matches!(cmd_toggle(up), Ok(Toggle::TurnOff)));
    assert!(matches!(
        cmd_toggle(Err(OxiwakeError::NotRunning)),
        Ok(Toggle::TurnOn)
    ));
    assert!(matches!(
        is_running(Err(OxiwakeError::State("x".to_string()))),
        Ok(false)
    ));
    assert!(matches!(
        cmd_toggle(Err(OxiwakeError::Ipc("x".to_string()))),
        Err(OxiwakeError::Ipc(_))
    ));
}

#[test]
fn flags_become_a_request() {
    let plain = build_request(Platform::Linux, RequestFlags::from_on(false, false, None));
    assert_eq!(plain.logind_what(), "sleep:idle");
    assert_eq!(plain.reason, "Oxiwake wake lock enabled");
    let full = build_request(
        Platform::Windows,
        RequestFlags::from_toggle(true, true, Some("talk".to_string())),
    );
    assert_eq!(full.targets, vec![WakeTarget::SystemSleep]);
    assert_eq!(full.reason, "talk");
    assert!(full.display && full.aggressive_lid);
}

#[test]
fn the_environment_wins_over_verbosity() {
    assert_eq!(log_directive(None, 0), Some("warn"));
    assert_eq!(log_directive(Some(" ".to_string()), 1), Some("info"));
    assert_eq!(log_directive(None, 2), Some("debug"));
    assert_eq!(log_directive(None, 200), Some("trace"));
    assert_eq!(log_directive(Some("error".to_string()), 2), None);
}
