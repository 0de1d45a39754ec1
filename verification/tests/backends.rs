//! The backends and their registry.

use oxiwake::backend::gnome::GnomeBackend;
use oxiwake::backend::kde::KdeBackend;
use oxiwake::backend::logind::{
    is_access_denied, logind_guarantees, Answer, InhibitReply, LogindBackend, LogindFacts,
    LogindProbe,
};
use oxiwake::backend::portal::{HandleReply, PortalBackend, PortalProbe};
use oxiwake::backend::screensaver::ScreenSaverBackend;
use oxiwake::backend::session::{CookieReply, OwnerReply};
use oxiwake::backend::wayland::{WaylandBackend, WaylandConnect, WaylandGuard};
use oxiwake::backend::windows::{
    after_attempt, after_fallback, powercfg_text, AfterAttempt, PowerRequestHandle, ReleaseStep,
    RequestStep, RequestType, Win32PowerBackend, Win32PowerGuard, Win32Probe, BACKEND_NAME,
};
use oxiwake::backend::x11::{
    require_extension, RoundTrip, SuspendArg, SuspendOutcome, X11Backend, X11Connect, X11Guard,
    X11Probe, NAME,
};
use oxiwake::backend::{doctor_all, pick, supported_backends, Build, EnvVar};
use oxiwake::error::OxiwakeError;
use oxiwake::model::{
    DoctorReport, WakeBackend, WakeGuard, WakeMode, WakeRequest, WakeTarget,
};
use oxiwake::platform::Platform;
use oxiwake::wide::wide_utf16_z;

fn text(s: &str) -> String {
    s.to_string()
}

// --- logind -----------------------------------------------------------------

#[test]
fn name_and_supported() {
    let b = LogindBackend::new();
    assert_eq!(b.name(), "systemd-logind");
    assert!(b.supported());
}

#[test]
fn status_uses_block_and_no_display() {
    let b = LogindBackend::new();
    let s = b.status().expect("status");
    assert_eq!(s.backend, "systemd-logind");
    assert_eq!(s.mode, WakeMode::Block);
    assert!(!s.display);
    // Default linux request is sleep:idle; both have logind tokens.
    assert!(s.targets.contains(&WakeTarget::SystemSleep));
    assert!(s.targets.contains(&WakeTarget::Idle));
    assert!(!s.targets.contains(&WakeTarget::Display));
}

#[test]
fn guarantees_mention_privilege_and_idle() {
    let g = logind_guarantees();
    let joined = g.join(" | ");
    assert!(
        joined.contains("privilege"),
        "guarantees must mention privilege"
    );
    assert!(joined.contains("idle"), "guarantees must mention idle");
}

#[test]
fn empty_what_is_rejected_without_dbus() {
    // A request that maps to no logind tokens (only Display) must be
    // rejected before any D-Bus call so we never send an empty `what`.
    let b = LogindBackend::new();
    let req = WakeRequest {
        targets: vec![WakeTarget::Display],
        reason: "x".into(),
        display: true,
        aggressive_lid: false,
    };
    match b.acquire(&req) {
        Err(OxiwakeError::AcquireFailed { backend, .. }) => {
            assert_eq!(backend, "systemd-logind");
        }
        Err(other) => panic!("expected AcquireFailed, got {other:?}"),
        Ok(_) => panic!("expected acquire to fail for an empty `what`"),
    }
}

#[test]
fn logind_takes_the_lock() {
    let b = LogindBackend::new();
    let mut req = WakeRequest::default_linux();
    req.reason = text("a talk");
    let ready = b
        .acquire(&req)
        .unwrap()
        .connected(Ok(()))
        .unwrap()
        .proxy(Ok(()))
        .unwrap();
    let call = ready.call();
    assert_eq!(call.what, "sleep:idle");
    assert_eq!(call.who, "Oxiwake");
    assert_eq!(call.why, "a talk");
    assert_eq!(call.mode, "block");
    let guard = ready.called(InhibitReply::Descriptor).unwrap();
    assert_eq!(guard.backend(), b.name());
}

#[test]
fn logind_failures_are_told_apart() {
    let req = WakeRequest::default_linux();
    let start = || LogindBackend::new().acquire(&req).unwrap();
    assert_eq!(
        start().connected(Err(text("no bus"))).unwrap_err().message(),
        "backend systemd-logind unavailable: no bus"
    );
    let connected = || start().connected(Ok(())).unwrap();
    assert_eq!(
        connected().proxy(Err(text("bad path"))).unwrap_err().message(),
        "D-Bus error: bad path"
    );
    let ready = || connected().proxy(Ok(())).unwrap();
    for denied in [
        "org.freedesktop.DBus.Error.AccessDenied: no",
        "AuthFailed",
        "x NotAuthorized y",
        "org.freedesktop.policykit1.Error",
        "Permission denied",
    ] {
        assert!(is_access_denied(denied));
        assert_eq!(
            ready().called(InhibitReply::CallFailed(text(denied))).unwrap_err().message(),
            format!("backend systemd-logind could not acquire lock: {}", denied)
        );
    }
    assert!(!is_access_denied("accessdenied"));
    assert_eq!(
        ready().called(InhibitReply::CallFailed(text("timeout"))).unwrap_err().message(),
        "D-Bus error: timeout"
    );
    assert_eq!(
        ready().called(InhibitReply::BadReply(text("not h"))).unwrap_err().message(),
        "D-Bus reply decode error: Inhibit fd: not h"
    );
}

fn no_reply<T>(error: &str) -> Answer<T> {
    Answer::CallFailed {
        sender: None,
        error: text(error),
    }
}

fn refused<T>(sender: &str, error: &str) -> Answer<T> {
    Answer::CallFailed {
        sender: Some(text(sender)),
        error: text(error),
    }
}

#[test]
fn logind_doctor_notes() {
    let facts = LogindFacts {
        can_suspend: Answer::Value(text("yes")),
        lid_closed: Answer::Value(false),
        docked: refused("org.freedesktop.DBus", "no such property"),
        on_external_power: Answer::Value(true),
        inhibitors: Answer::Value(vec![text("Oxiwake"), text("NetworkManager"), text("Oxiwake")]),
    };
    let report = LogindBackend::new().doctor(LogindProbe::Asked(facts));
    assert!(report.supported && report.available);
    assert_eq!(
        report.notes,
        vec![
            "org.freedesktop.login1 reachable on system bus",
            "CanSuspend = yes",
            "LidClosed = false",
            "Docked probe failed: no such property",
            "OnExternalPower = true",
            "ListInhibitors: 3 active (2 held by Oxiwake)",
        ]
    );
    assert_eq!(report.guarantees, logind_guarantees());
    let down = LogindBackend::new().doctor(LogindProbe::NoBus(text("gone")));
    assert!(down.supported && !down.available);
    assert_eq!(down.notes, vec!["cannot open system bus: gone"]);
    let no_proxy = LogindBackend::new().doctor(LogindProbe::NoProxy(text("gone")));
    assert!(!no_proxy.available);
    assert_eq!(no_proxy.notes, vec!["cannot build logind proxy: gone"]);
}

#[test]
fn logind_doctor_keeps_failures_as_notes() {
    let facts = LogindFacts {
        can_suspend: refused(":1.7", "denied"),
        lid_closed: no_reply("x"),
        docked: Answer::Value(true),
        on_external_power: Answer::BadReply(text("y")),
        inhibitors: Answer::BadReply(text("odd")),
    };
    let report = LogindBackend::new().doctor(LogindProbe::Asked(facts));
    assert!(report.available);
    assert_eq!(
        report.notes,
        vec![
            "org.freedesktop.login1 reachable on system bus",
            "CanSuspend probe failed: denied",
            "LidClosed probe failed: x",
            "Docked = true",
            "OnExternalPower reply undecodable: y",
            "ListInhibitors reply undecodable: odd",
        ]
    );
}

fn unanswered() -> LogindFacts {
    LogindFacts {
        can_suspend: no_reply("timeout"),
        lid_closed: no_reply("timeout"),
        docked: no_reply("timeout"),
        on_external_power: no_reply("timeout"),
        inhibitors: no_reply("timeout"),
    }
}

#[test]
fn logind_is_available_only_if_it_answers() {
    let b = LogindBackend::new();
    let silent = b.doctor(LogindProbe::Asked(unanswered()));
    assert!(silent.supported && !silent.available);
    assert_eq!(
        silent.notes,
        vec![
            "CanSuspend probe failed: timeout",
            "LidClosed probe failed: timeout",
            "Docked probe failed: timeout",
            "OnExternalPower probe failed: timeout",
            "ListInhibitors probe failed: timeout",
        ]
    );
    // The bus's own reply, for instance that nobody owns the name, is no answer.
    let mut facts = unanswered();
    facts.can_suspend = refused("org.freedesktop.DBus", "ServiceUnknown");
    assert!(!b.doctor(LogindProbe::Asked(facts)).available);
    // A refusal by the service itself is one.
    let mut facts = unanswered();
    facts.inhibitors = refused(":1.7", "InteractiveAuthorizationRequired");
    let report = b.doctor(LogindProbe::Asked(facts));
    assert!(report.available);
    assert_eq!(
        report.notes,
        vec![
            "org.freedesktop.login1 reachable on system bus",
            "CanSuspend probe failed: timeout",
            "LidClosed probe failed: timeout",
            "Docked probe failed: timeout",
            "OnExternalPower probe failed: timeout",
            "ListInhibitors probe failed: InteractiveAuthorizationRequired",
        ]
    );
    let mut facts = unanswered();
    facts.docked = Answer::BadReply(text("odd"));
    assert!(b.doctor(LogindProbe::Asked(facts)).available);
}

// --- session bus ------------------------------------------------------------

#[test]
fn session_backends_hand_over_their_arguments() {
    let mut req = WakeRequest::default_linux();
    req.reason = text("why");
    let up = || OwnerReply::Owner(true);

    let gnome = GnomeBackend::new().acquire(&req).connected(Ok(())).unwrap();
    assert_eq!(gnome.dest(), "org.gnome.SessionManager");
    let gnome = gnome.owner(up()).unwrap();
    assert_eq!(gnome.service().path, "/org/gnome/SessionManager");
    let gnome = gnome.proxy(Ok(())).unwrap();
    assert_eq!(gnome.call().app_id, "Oxiwake");
    assert_eq!(gnome.call().toplevel_xid, 0);
    assert_eq!(gnome.call().reason, "why");
    assert_eq!(gnome.call().flags, 12);
    let guard = gnome.called(CookieReply::Cookie(7)).unwrap();
    assert_eq!(guard.backend(), "gnome-session");
    assert_eq!(guard.release(), None);

    let kde = KdeBackend::new().acquire(&req).connected(Ok(())).unwrap();
    let kde = kde.owner(up()).unwrap().proxy(Ok(())).unwrap();
    assert_eq!(kde.call().actions, 3);
    assert_eq!(kde.call().app, "Oxiwake");
    assert_eq!(kde.call().reason, "why");
    let guard = kde.called(CookieReply::Cookie(8)).unwrap();
    assert_eq!(guard.backend(), "kde-powerdevil");
    assert_eq!(guard.release(), Some(("ReleaseInhibition", 8)));

    let saver = ScreenSaverBackend::new().acquire(&req).connected(Ok(())).unwrap();
    let saver = saver.owner(up()).unwrap().proxy(Ok(())).unwrap();
    assert_eq!(saver.call().application_name, "Oxiwake");
    assert_eq!(saver.call().reason, "why");
    let guard = saver.called(CookieReply::Cookie(9)).unwrap();
    assert_eq!(guard.backend(), "freedesktop-screensaver");
    assert_eq!(guard.release(), Some(("UnInhibit", 9)));
}

#[test]
fn session_failures_are_told_apart() {
    let req = WakeRequest::default_linux();
    let start = || KdeBackend::new().acquire(&req);
    assert_eq!(
        start().connected(Err(text("x"))).unwrap_err().message(),
        "backend kde-powerdevil unavailable: no session D-Bus: x"
    );
    for reply in [
        OwnerReply::Owner(false),
        OwnerReply::NoProxy(text("a")),
        OwnerReply::CallFailed(text("b")),
        OwnerReply::BadReply(text("c")),
    ] {
        assert_eq!(
            start().connected(Ok(())).unwrap().owner(reply).unwrap_err().message(),
            "backend kde-powerdevil unavailable: \
             org.kde.Solid.PowerManagement.PolicyAgent not owned on the session bus"
        );
    }
    let owned = || start().connected(Ok(())).unwrap().owner(OwnerReply::Owner(true)).unwrap();
    assert_eq!(owned().proxy(Err(text("p"))).unwrap_err().message(), "D-Bus error: p");
    let ready = || owned().proxy(Ok(())).unwrap();
    assert_eq!(
        ready().called(CookieReply::CallFailed(text("no"))).unwrap_err().message(),
        "backend kde-powerdevil could not acquire lock: AddInhibition failed: no"
    );
    assert_eq!(
        ready().called(CookieReply::BadReply(text("odd"))).unwrap_err().message(),
        "D-Bus reply decode error: cookie u32: odd"
    );
}

#[test]
fn session_doctors() {
    let g = GnomeBackend::new().doctor(Some(OwnerReply::Owner(true)));
    assert!(g.available);
    assert_eq!(
        g.notes,
        vec!["session D-Bus service org.gnome.SessionManager at /org/gnome/SessionManager; flags=12"]
    );
    let k = KdeBackend::new().doctor(Some(OwnerReply::CallFailed(text("x"))));
    assert!(!k.available);
    assert!(k.notes[0].ends_with("; actions=3"));
    let s = ScreenSaverBackend::new().doctor(None);
    assert!(!s.available);
    assert_eq!(
        s.notes,
        vec!["session D-Bus service org.freedesktop.ScreenSaver at /org/freedesktop/ScreenSaver"]
    );
    assert!(g.supported && k.supported && s.supported);
}

#[test]
fn session_statuses() {
    assert_eq!(
        GnomeBackend::default().status().unwrap().targets,
        vec![WakeTarget::SystemSleep, WakeTarget::Idle]
    );
    assert_eq!(KdeBackend::default().status().unwrap().targets, vec![WakeTarget::Idle]);
    assert_eq!(
        ScreenSaverBackend::default().status().unwrap().targets,
        vec![WakeTarget::Idle]
    );
    assert_eq!(
        PortalBackend::default().status().unwrap().targets,
        vec![WakeTarget::SystemSleep, WakeTarget::Idle]
    );
}

// --- portal -----------------------------------------------------------------

#[test]
fn portal_closes_its_handle_once() {
    let mut req = WakeRequest::default_linux();
    req.reason = text("why");
    let ready = PortalBackend::new()
        .acquire(&req)
        .connected(Ok(()))
        .unwrap()
        .owner(OwnerReply::Owner(true))
        .unwrap()
        .proxy(Ok(()))
        .unwrap();
    assert_eq!(ready.call().window, "");
    assert_eq!(ready.call().flags, 12);
    assert_eq!(ready.call().option_key, "reason");
    assert_eq!(ready.call().option_value, "why");
    let mut guard = ready.called(HandleReply::Handle(text("/req/1"))).unwrap();
    assert_eq!(guard.backend(), "xdg-portal");
    assert_eq!(guard.release().as_deref(), Some("/req/1"));
    assert_eq!(guard.release(), None);
}

#[test]
fn portal_failures_are_told_apart() {
    let req = WakeRequest::default_linux();
    let start = || PortalBackend::new().acquire(&req);
    assert_eq!(
        start().connected(Err(text("x"))).unwrap_err().message(),
        "backend xdg-portal unavailable: cannot connect to session D-Bus: x"
    );
    let connected = || start().connected(Ok(())).unwrap();
    assert_eq!(
        connected().owner(OwnerReply::Owner(false)).unwrap_err().message(),
        "backend xdg-portal unavailable: \
         org.freedesktop.portal.Desktop is not owned on the session bus"
    );
    assert_eq!(
        connected().owner(OwnerReply::CallFailed(text("c"))).unwrap_err().message(),
        "D-Bus error: c"
    );
    assert_eq!(
        connected().owner(OwnerReply::BadReply(text("b"))).unwrap_err().message(),
        "D-Bus reply decode error: NameHasOwner reply was not a bool: b"
    );
    let owned = || connected().owner(OwnerReply::Owner(true)).unwrap();
    assert_eq!(
        owned().proxy(Err(text("p"))).unwrap_err().message(),
        "backend xdg-portal could not acquire lock: cannot build Inhibit proxy: p"
    );
    let ready = || owned().proxy(Ok(())).unwrap();
    assert_eq!(
        ready().called(HandleReply::CallFailed(text("no"))).unwrap_err().message(),
        "backend xdg-portal could not acquire lock: portal Inhibit call failed: no"
    );
    assert_eq!(
        ready().called(HandleReply::BadReply(text("odd"))).unwrap_err().message(),
        "D-Bus reply decode error: portal Inhibit reply was not an object path: odd"
    );
}

#[test]
fn portal_doctor() {
    let up = PortalBackend::new().doctor(PortalProbe::Asked(OwnerReply::Owner(true)));
    assert!(up.available);
    assert_eq!(
        up.notes,
        vec!["org.freedesktop.portal.Desktop is owned on the session bus"]
    );
    let odd = PortalBackend::new().doctor(PortalProbe::Asked(OwnerReply::BadReply(text("x"))));
    assert!(!odd.available);
    assert!(odd.notes[0].contains("NOT owned"));
    let down = PortalBackend::new().doctor(PortalProbe::NoBus(text("x")));
    assert!(!down.available);
    assert_eq!(down.notes, vec!["cannot connect to session D-Bus: x"]);
}

// --- x11 --------------------------------------------------------------------

#[test]
fn x11_backend_name_is_stable() {
    assert_eq!(NAME, "x11-screensaver");
}

#[test]
fn new_and_supported_do_not_connect() {
    // `new()` records intent only; it must not touch the X server.
    let b = X11Backend::new();
    assert_eq!(b.name(), NAME);
    assert!(b.supported());
    assert_eq!(X11Backend::default().name(), NAME);
}

#[test]
fn status_reports_display_and_idle_only() {
    // status() is a static report: display/idle scope, Block mode, no I/O.
    let s = X11Backend::new().status().expect("status");
    assert_eq!(s.backend, NAME);
    assert_eq!(s.mode, WakeMode::Block);
    assert!(s.display);
    assert!(s.targets.contains(&WakeTarget::Idle));
    assert!(s.targets.contains(&WakeTarget::Display));
    // X11 suspend is display/idle-level only: it must not claim to block
    // system sleep or lid-close.
    assert!(!s.targets.contains(&WakeTarget::SystemSleep));
    assert!(!s.targets.contains(&WakeTarget::LidSwitch));
}

#[test]
fn guard_backend_matches_name() {
    assert_eq!(NAME, "x11-screensaver");
    assert_eq!(X11Guard::from_connection().backend(), "x11-screensaver");
}

#[test]
fn suspend_arg_acquire_is_one() {
    assert_eq!(SuspendArg::Acquire.value(), 1);
}

#[test]
fn suspend_arg_release_is_zero() {
    assert_eq!(SuspendArg::Release.value(), 0);
}

#[test]
fn suspend_args_are_distinct() {
    assert_ne!(SuspendArg::Acquire.value(), SuspendArg::Release.value());
}

#[test]
fn require_extension_ok_when_present() {
    assert!(require_extension(Some(())).is_ok());
}

#[test]
fn require_extension_err_when_absent() {
    // A server that does NOT advertise MIT-SCREEN-SAVER must surface a
    // BackendUnavailable naming the extension, so `ow doctor` is honest.
    match require_extension(None) {
        Err(OxiwakeError::BackendUnavailable { backend, reason }) => {
            assert_eq!(backend, NAME);
            assert!(
                reason.contains("MIT-SCREEN-SAVER"),
                "reason must name the missing extension, got: {reason}"
            );
        }
        Err(other) => panic!("expected BackendUnavailable, got {other:?}"),
        Ok(()) => panic!("absent extension must be an error"),
    }
}

#[test]
fn x11_extension_name_is_the_one_asked_for() {
    let name = x11rb::protocol::screensaver::X11_EXTENSION_NAME;
    let missing = require_extension(None).unwrap_err().message();
    assert!(missing.contains(name));
}

#[test]
fn x11_suspends_and_resumes() {
    let req = WakeRequest::default_linux();
    let ready = X11Backend::new()
        .acquire(&req, X11Connect::Extension(Some(())))
        .unwrap();
    assert_eq!(ready.argument(), 1);
    let mut guard = ready.suspended(SuspendOutcome::Suspended).unwrap();
    assert_eq!(guard.release(), Some(0));
    assert_eq!(guard.release(), None);
}

#[test]
fn x11_failures_are_told_apart() {
    let req = WakeRequest::default_linux();
    let b = X11Backend::new();
    assert_eq!(
        b.acquire(&req, X11Connect::NoServer(text("x"))).unwrap_err().message(),
        "backend x11-screensaver unavailable: cannot connect to X server (x)"
    );
    assert_eq!(
        b.acquire(&req, X11Connect::QueryFailed(text("x"))).unwrap_err().message(),
        "backend x11-screensaver unavailable: X query-extension failed (x)"
    );
    let ready = || b.acquire(&req, X11Connect::Extension(Some(()))).unwrap();
    for (outcome, expected) in [
        (SuspendOutcome::RequestFailed(text("a")), "screensaver_suspend request failed (a)"),
        (SuspendOutcome::Rejected(text("b")), "screensaver_suspend rejected by X server (b)"),
        (SuspendOutcome::FlushFailed(text("c")), "flushing X connection failed (c)"),
    ] {
        assert_eq!(
            ready().suspended(outcome).unwrap_err().message(),
            format!("backend x11-screensaver could not acquire lock: {}", expected)
        );
    }
}

#[test]
fn x11_doctor() {
    let up = X11Backend::new().doctor(
        EnvVar::Text(text(":0")),
        X11Probe::Connected(RoundTrip::Answered),
    );
    assert!(up.available);
    assert_eq!(up.notes, vec!["DISPLAY=:0"]);
    let dead = X11Backend::new().doctor(
        EnvVar::NotText(text("\u{fffd}")),
        X11Probe::Connected(RoundTrip::ReplyFailed(text("x"))),
    );
    assert!(!dead.available);
    assert_eq!(dead.notes, vec!["DISPLAY=", "X round-trip reply failed (x)"]);
    let error = X11Backend::connect_with_extension(X11Connect::Extension(None)).unwrap_err();
    let none = X11Backend::new().doctor(EnvVar::Text(text("")), X11Probe::Unavailable(error));
    assert_eq!(
        none.notes,
        vec![
            "DISPLAY is not set",
            "unavailable: backend x11-screensaver unavailable: \
             X server does not advertise the MIT-SCREEN-SAVER extension",
        ]
    );
    let cut = X11Backend::new().doctor(
        EnvVar::Unset,
        X11Probe::Connected(RoundTrip::RequestFailed(text("x"))),
    );
    assert_eq!(cut.notes, vec!["DISPLAY is not set", "X round-trip request failed (x)"]);
}

// --- wayland ----------------------------------------------------------------

#[test]
fn wayland_never_takes_a_lock() {
    let b = WaylandBackend::new();
    assert_eq!(
        b.acquire(&WakeRequest::default_linux()).unwrap_err().message(),
        "backend wayland-idle-inhibit unavailable: \
         wayland idle-inhibit requires a visible wl_surface"
    );
    let mut guard = WaylandGuard::from_inhibitor();
    assert_eq!(guard.backend(), b.name());
    assert!(guard.release());
    assert!(!guard.release());
}

#[test]
fn wayland_finds_the_idle_inhibit_global() {
    let with = vec![text("wl_compositor"), text("zwp_idle_inhibit_manager_v1")];
    assert!(WaylandBackend::has_idle_inhibit_global(&with));
    let without = vec![text("wl_compositor"), text("zwp_idle_inhibitor_v1")];
    assert!(!WaylandBackend::has_idle_inhibit_global(&without));
    assert!(!WaylandBackend::has_idle_inhibit_global(&vec![]));
}

#[test]
fn wayland_doctor() {
    let b = WaylandBackend::new();
    let globals = WaylandBackend::connect_and_snapshot(WaylandConnect::Globals(vec![text(
        "zwp_idle_inhibit_manager_v1",
    )]));
    let report = b.doctor(EnvVar::Text(text("wayland-0")), globals);
    assert!(report.supported && !report.available);
    assert_eq!(
        report.notes,
        vec![
            "WAYLAND_DISPLAY=wayland-0",
            "zwp_idle_inhibit_manager_v1 advertised, but a CLI daemon \
             has no wl_surface to bind an inhibitor to",
        ]
    );
    let bare = b.doctor(EnvVar::NotText(text("w\u{fffd}")), Ok(vec![]));
    assert_eq!(
        bare.notes,
        vec![
            "WAYLAND_DISPLAY=w\u{fffd}",
            "zwp_idle_inhibit_manager_v1 global is not advertised by this compositor",
        ]
    );
    for (outcome, expected) in [
        (WaylandConnect::NoDisplay(text("x")), "cannot connect to Wayland display (x)"),
        (WaylandConnect::RoundTripFailed(text("x")), "Wayland registry round-trip failed (x)"),
    ] {
        let down = b.doctor(EnvVar::Unset, WaylandBackend::connect_and_snapshot(outcome));
        assert_eq!(
            down.notes,
            vec![
                text("WAYLAND_DISPLAY is not set"),
                format!(
                    "unavailable: backend wayland-idle-inhibit unavailable: {}",
                    expected
                ),
            ]
        );
    }
}

// --- windows ----------------------------------------------------------------

#[test]
fn windows_wide_utf16_z_is_nul_terminated() {
    let w = wide_utf16_z("hi");
    assert_eq!(w, vec![b'h' as u16, b'i' as u16, 0]);
    let w = wide_utf16_z("pipe");
    assert_eq!(w, vec!['p' as u16, 'i' as u16, 'p' as u16, 'e' as u16, 0]);
}

#[test]
fn windows_backend_name_is_stable() {
    assert_eq!(BACKEND_NAME, "win32-power");
    assert_eq!(Win32PowerBackend::new().name(), "win32-power");
}

/// Run an attempt in which the step with the given number fails.
fn attempt(req: &WakeRequest, failing: Option<usize>) -> (Vec<String>, RequestStep) {
    let mut attempt = Win32PowerBackend::new().acquire(req);
    let mut trace = Vec::new();
    loop {
        match &attempt.step {
            RequestStep::Create => trace.push(text("create")),
            RequestStep::Require(t) => trace.push(format!("{:?}", t)),
            RequestStep::Close(_) => trace.push(text("close")),
            RequestStep::Done(_) => return (trace, attempt.step),
        }
        let ok = failing != Some(trace.len() - 1);
        attempt = attempt.next(ok);
    }
}

#[test]
fn windows_sets_what_it_clears() {
    let mut req = WakeRequest::default_windows();
    let (trace, end) = attempt(&req, None);
    assert_eq!(trace, vec!["create", "System", "Execution"]);
    let handle = match end {
        RequestStep::Done(Ok(h)) => h,
        other => panic!("expected a handle, got {:?}", other),
    };
    assert_eq!(
        Win32PowerGuard::PowerRequest(handle).release(),
        vec![
            ReleaseStep::Clear(RequestType::System),
            ReleaseStep::Clear(RequestType::Execution),
            ReleaseStep::CloseHandle,
        ]
    );
    req.targets.push(WakeTarget::Display);
    let (trace, end) = attempt(&req, None);
    assert_eq!(trace, vec!["create", "System", "Execution", "Display"]);
    assert!(matches!(
        end,
        RequestStep::Done(Ok(PowerRequestHandle {
            display_required: true,
            ..
        }))
    ));
}

#[test]
fn windows_falls_back_and_leaves_nothing_open() {
    let mut req = WakeRequest::default_windows();
    req.display = true;
    let (trace, end) = attempt(&req, Some(0));
    assert_eq!(trace, vec!["create"]);
    match end {
        RequestStep::Done(Err(m)) => {
            assert_eq!(m, "PowerCreateRequest returned INVALID_HANDLE_VALUE");
        }
        other => panic!("expected a failure, got {:?}", other),
    }
    let (trace, end) = attempt(&req, Some(3));
    assert_eq!(trace, vec!["create", "System", "Execution", "Display", "close"]);
    let reason = match end {
        RequestStep::Done(Err(m)) => m,
        other => panic!("expected a failure, got {:?}", other),
    };
    assert_eq!(reason, "PowerSetRequest(DisplayRequired) failed");
    assert!(matches!(
        after_attempt(true, Err(reason)),
        AfterAttempt::FallBack(0x8000_0003)
    ));
    assert!(matches!(
        after_attempt(false, Err(text("x"))),
        AfterAttempt::FallBack(0x8000_0001)
    ));
    let guard = after_fallback(true, 0x8000_0000).unwrap();
    assert_eq!(guard, Win32PowerGuard::ThreadExecutionState { display: true });
    assert_eq!(guard.release(), vec![ReleaseStep::SetThreadState(0x8000_0000)]);
    assert_eq!(guard.backend(), "win32-power");
    assert_eq!(
        after_fallback(true, 0).unwrap_err().message(),
        "backend win32-power could not acquire lock: \
         PowerCreateRequest failed and SetThreadExecutionState returned 0"
    );
}

fn win32_probe(power_request: Result<PowerRequestHandle, String>, thread_state: u32) -> Win32Probe {
    Win32Probe {
        power_request,
        thread_state,
        requests: None,
        sleep_states: None,
    }
}

fn whole_request() -> PowerRequestHandle {
    PowerRequestHandle {
        system_required: true,
        execution_required: true,
        display_required: false,
    }
}

#[test]
fn windows_doctor() {
    let mut probe = win32_probe(Ok(whole_request()), 0);
    probe.requests = Some(powercfg_text(b"DISPLAY:\nNone.\xff\n", b" \r\n"));
    let report = Win32PowerBackend::default().doctor(probe);
    assert!(report.available);
    assert_eq!(
        report.notes,
        vec![
            "PowerCreateRequest / PowerSetRequest: available (Windows 7+ / Server 2008 R2+)",
            "SetThreadExecutionState: probe failed (returned 0); fallback unavailable",
            "powercfg /requests:\nDISPLAY:\nNone.\u{fffd}",
        ]
    );
    assert_eq!(report.guarantees.len(), 5);
    assert_eq!(
        Win32PowerBackend::new().status().unwrap().targets,
        vec![WakeTarget::SystemSleep]
    );
    assert_eq!(powercfg_text(b"out", b"err"), "outerr");
}

#[test]
fn windows_is_available_only_if_a_probe_says_so() {
    let failed = || Err(text("PowerSetRequest(SystemRequired) failed"));
    let fallback = Win32PowerBackend::new().doctor(win32_probe(failed(), 0x8000_0000));
    assert!(fallback.available);
    assert_eq!(
        fallback.notes,
        vec![
            "PowerCreateRequest / PowerSetRequest: \
             probe failed (PowerSetRequest(SystemRequired) failed)",
            "SetThreadExecutionState: available (works; used as automatic fallback)",
        ]
    );
    let neither = Win32PowerBackend::new().doctor(win32_probe(failed(), 0));
    assert!(neither.supported && !neither.available);
}

// --- registry ---------------------------------------------------------------

fn build(platform: Platform, optional: bool) -> Build {
    Build {
        platform,
        logind: true,
        portal: true,
        gnome: true,
        kde: true,
        screensaver: true,
        x11: optional,
        wayland: optional,
    }
}

fn names(build: Build) -> Vec<&'static str> {
    supported_backends(build).iter().map(|b| b.name()).collect()
}

#[test]
fn backends_come_in_priority_order() {
    assert_eq!(
        names(build(Platform::Linux, true)),
        vec![
            "systemd-logind",
            "xdg-portal",
            "gnome-session",
            "kde-powerdevil",
            "freedesktop-screensaver",
            "x11-screensaver",
            "wayland-idle-inhibit",
        ]
    );
    assert_eq!(names(build(Platform::Linux, false)).len(), 5);
    assert_eq!(names(build(Platform::Windows, true)), vec!["win32-power"]);
    assert!(names(build(Platform::Unsupported, true)).is_empty());
}

#[test]
fn the_strongest_backend_is_picked() {
    let req = WakeRequest::default_linux();
    let mut b = build(Platform::Linux, true);
    assert_eq!(pick(&req, b).unwrap().name(), "systemd-logind");
    b.logind = false;
    b.portal = false;
    b.gnome = false;
    assert_eq!(pick(&req, b).unwrap().name(), "kde-powerdevil");
    assert_eq!(
        pick(&req, build(Platform::Windows, false)).unwrap().name(),
        "win32-power"
    );
    assert_eq!(
        pick(&req, build(Platform::Unsupported, true)).unwrap_err().message(),
        "backend none unavailable: no wake backend is compiled into this build (see `ow doctor`)"
    );
}

#[test]
fn every_backend_agrees_with_its_status() {
    for platform in [Platform::Linux, Platform::Windows] {
        for b in supported_backends(build(platform, true)) {
            assert!(b.supported());
            assert_eq!(b.status().unwrap().backend, b.name());
        }
    }
}

#[test]
fn a_broken_probe_does_not_blank_the_table() {
    let reports = doctor_all(vec![
        Ok(DoctorReport::not_compiled("a")),
        Err(OxiwakeError::NotRunning),
        Ok(DoctorReport::not_compiled("b")),
    ]);
    let names: Vec<&str> = reports.iter().map(|r| r.backend.as_str()).collect();
    assert_eq!(names, vec!["a", "b"]);
}
