//! The life of a daemon, and starting and stopping it.

use oxiwake::backend::Build;
use oxiwake::daemon::client::{
    read_and_clear_startup_error, spawn_detached_daemon, write_pending, Request, RequestEvent,
    SpawnAttempt, Start, StartEvent, Stop, StopEvent,
};
use oxiwake::daemon::entry::{MainEvent, MainState};
use oxiwake::daemon::{
    daemon_main, dispatch, ensure_started, ensure_stopped, ipc_request, run_daemon, Daemon,
    DaemonEvent, DaemonState, PendingRequest, DAEMON_SUBCOMMAND,
};
use oxiwake::error::{IoError, IoErrorKind, OxiwakeError};
use oxiwake::ipc::{ClientMsg, DaemonReply};
use oxiwake::model::{WakeBackend, WakeMode, WakeRequest, WakeStatus, WakeTarget};
use oxiwake::platform::Platform;
use oxiwake::state::LockState;

#[test]
fn daemon_subcommand_is_hidden() {
    // The subcommand must start with "__" so it never collides with a user
    // verb and is clearly internal.
    assert!(DAEMON_SUBCOMMAND.starts_with("__"));
}

fn status() -> WakeStatus {
    WakeStatus {
        backend: "mock".to_string(),
        targets: vec![WakeTarget::Idle],
        mode: WakeMode::Block,
        display: false,
    }
}

fn snapshot() -> LockState {
    LockState {
        pid: 1,
        backend: "mock".to_string(),
        started_unix: 0,
        request: WakeRequest::default_linux(),
    }
}

/// A daemon that is about to take the wake lock.
fn claimed() -> Daemon {
    run_daemon(&WakeRequest::default_linux(), 1_700_000_000, 4242)
        .next(DaemonEvent::Resolved(Ok(())))
        .next(DaemonEvent::Pinged(Err(OxiwakeError::NotRunning)))
        .next(DaemonEvent::Claimed(Ok(true)))
}

#[test]
fn a_daemon_takes_publishes_serves_and_releases() {
    let d = claimed();
    assert!(matches!(d.state(), DaemonState::Acquire));
    assert_eq!(d.request().logind_what(), "sleep:idle");
    let d = d.next(DaemonEvent::Acquired(Ok("mock")));
    assert!(matches!(d.state(), DaemonState::Describe("mock")));
    let d = d.next(DaemonEvent::Described(Ok(status())));
    match d.state() {
        DaemonState::Publish(s, lock) => {
            assert_eq!(s.backend, "mock");
            assert_eq!(lock.pid, 4242);
            assert_eq!(lock.backend, "mock");
            assert_eq!(lock.started_unix, 1_700_000_000);
            assert_eq!(lock.request.targets, WakeRequest::default_linux().targets);
        }
        other => panic!("expected the snapshot, got {:?}", other),
    }
    let d = d.next(DaemonEvent::Published(Ok(())));
    assert!(matches!(d.state(), DaemonState::RemovePending(_)));
    let d = d.next(DaemonEvent::PendingRemoved);
    match d.state() {
        DaemonState::Serve(s) => {
            let ping = dispatch(ClientMsg::Ping, s, 4242);
            assert!(ping.ok);
            assert_eq!(ping.pid, Some(4242));
            assert_eq!(ping.status.unwrap().backend, "mock");
            let told = dispatch(ClientMsg::Status, s, 4242);
            assert!(told.ok && told.status.is_some() && told.pid.is_none());
            let stop = dispatch(ClientMsg::Stop, s, 4242);
            assert!(stop.ok && stop.status.is_none());
        }
        other => panic!("expected to serve, got {:?}", other),
    }
    // A release before serving has ended is not possible.
    let d = d.next(DaemonEvent::GuardReleased);
    assert!(matches!(d.state(), DaemonState::Serve(_)));
    let d = d.next(DaemonEvent::Served(Ok(())));
    assert!(matches!(d.state(), DaemonState::RemoveState(_)));
    let d = d.next(DaemonEvent::StateRemoved);
    assert!(matches!(d.state(), DaemonState::ReleaseGuard(_)));
    let d = d.next(DaemonEvent::GuardReleased);
    assert!(matches!(d.state(), DaemonState::ReleaseSingleton(_)));
    let d = d.next(DaemonEvent::SingletonReleased);
    assert!(matches!(d.state(), DaemonState::Finished(Ok(()))));
}

#[test]
fn a_second_daemon_declines() {
    let start = || run_daemon(&WakeRequest::default_linux(), 1_700_000_001, 2);
    let d = start()
        .next(DaemonEvent::Resolved(Ok(())))
        .next(DaemonEvent::Pinged(Ok(DaemonReply::ok_ping(status(), 1))));
    assert!(matches!(d.state(), DaemonState::Finished(Ok(()))));
    let d = start()
        .next(DaemonEvent::Resolved(Ok(())))
        .next(DaemonEvent::Pinged(Err(OxiwakeError::NotRunning)))
        .next(DaemonEvent::Claimed(Ok(false)));
    assert!(matches!(d.state(), DaemonState::Finished(Ok(()))));
}

#[test]
fn racing_daemons_take_exactly_one_lock() {
    // Two daemons, neither of which sees the other by its answer; the
    // singleton lock is the first one's who asks. Try every interleaving of
    // their first steps.
    for order in 0u32..64 {
        let mut daemons = vec![
            run_daemon(&WakeRequest::default_linux(), 1, 1),
            run_daemon(&WakeRequest::default_linux(), 2, 2),
        ];
        let mut owner: Option<usize> = None;
        let mut locks = 0;
        let mut releases = 0;
        for turn in 0..40 {
            let i = if turn < 6 { (order >> turn & 1) as usize } else { turn % 2 };
            let d = daemons.remove(i);
            let event = match d.state() {
                DaemonState::Resolve => DaemonEvent::Resolved(Ok(())),
                DaemonState::Ping => DaemonEvent::Pinged(Err(OxiwakeError::NotRunning)),
                DaemonState::Claim => {
                    let free = owner.is_none();
                    if free {
                        owner = Some(i);
                    }
                    DaemonEvent::Claimed(Ok(free))
                }
                DaemonState::Acquire => {
                    locks += 1;
                    DaemonEvent::Acquired(Ok("mock"))
                }
                DaemonState::Describe(_) => DaemonEvent::Described(Ok(status())),
                DaemonState::Publish(_, _) => DaemonEvent::Published(Ok(())),
                DaemonState::RemovePending(_) => DaemonEvent::PendingRemoved,
                DaemonState::Serve(_) if turn < 20 => DaemonEvent::StateRemoved,
                DaemonState::Serve(_) => DaemonEvent::Served(Ok(())),
                DaemonState::RemoveState(_) => DaemonEvent::StateRemoved,
                DaemonState::ReleaseGuard(_) => {
                    releases += 1;
                    DaemonEvent::GuardReleased
                }
                DaemonState::ReleaseSingleton(_) => {
                    owner = None;
                    DaemonEvent::SingletonReleased
                }
                DaemonState::Finished(_) => DaemonEvent::PendingRemoved,
            };
            daemons.insert(i, d.next(event));
        }
        assert_eq!(locks, 1);
        assert_eq!(releases, 1);
        for d in &daemons {
            assert!(matches!(d.state(), DaemonState::Finished(Ok(()))));
        }
    }
}

#[test]
fn every_way_out_releases_what_was_taken() {
    let failed = claimed().next(DaemonEvent::Acquired(Err(OxiwakeError::other(
        "denied".to_string(),
    ))));
    assert!(matches!(failed.state(), DaemonState::ReleaseSingleton(Err(_))));
    let d = claimed()
        .next(DaemonEvent::Acquired(Ok("mock")))
        .next(DaemonEvent::Described(Err(OxiwakeError::NotRunning)));
    assert!(matches!(d.state(), DaemonState::ReleaseGuard(Err(_))));
    let d = claimed()
        .next(DaemonEvent::Acquired(Ok("mock")))
        .next(DaemonEvent::Described(Ok(status())))
        .next(DaemonEvent::Published(Err(OxiwakeError::State("full".to_string()))))
        .next(DaemonEvent::GuardReleased)
        .next(DaemonEvent::SingletonReleased);
    match d.state() {
        DaemonState::Finished(Err(e)) => assert_eq!(e.message(), "state error: full"),
        other => panic!("expected the error, got {:?}", other),
    }
    let d = run_daemon(&WakeRequest::default_linux(), 0, 1)
        .next(DaemonEvent::Resolved(Err(OxiwakeError::State("unset".to_string()))));
    assert!(matches!(d.state(), DaemonState::Finished(Err(_))));
    let d = run_daemon(&WakeRequest::default_linux(), 0, 1)
        .next(DaemonEvent::Resolved(Ok(())))
        .next(DaemonEvent::Pinged(Ok(DaemonReply::err("busy".to_string()))))
        .next(DaemonEvent::Claimed(Err(OxiwakeError::other("x".to_string()))));
    assert!(matches!(d.state(), DaemonState::Finished(Err(_))));
}

fn up_to_spawn() -> Start {
    ensure_started()
        .next(StartEvent::Resolved(Ok(())))
        .next(StartEvent::Pinged(Err(OxiwakeError::NotRunning)))
        .next(StartEvent::Cleared)
        .next(StartEvent::PendingWritten(Ok(())))
        .next(StartEvent::Spawned(Ok(())))
}

#[test]
fn starting_waits_for_the_daemon() {
    let s = up_to_spawn();
    assert!(matches!(s, Start::PollRead));
    let s = s
        .next(StartEvent::StateRead(Ok(None)))
        .next(StartEvent::Reason(None))
        .next(StartEvent::Clock(1_999));
    assert!(matches!(s, Start::Sleep));
    let s = s
        .next(StartEvent::Slept)
        .next(StartEvent::StateRead(Ok(Some(snapshot()))))
        .next(StartEvent::Pinged(Err(OxiwakeError::NotRunning)));
    assert!(matches!(s, Start::PollReason));
    let s = s
        .next(StartEvent::Reason(Some(" \n".to_string())))
        .next(StartEvent::Clock(100))
        .next(StartEvent::Slept)
        .next(StartEvent::StateRead(Ok(Some(snapshot()))))
        .next(StartEvent::Pinged(Ok(DaemonReply::ok_ping(status(), 1))));
    assert!(matches!(s, Start::ClearSuccess(_)));
    match s.next(StartEvent::Cleared) {
        Start::Finished(Ok(s)) => assert_eq!(s.backend, "mock"),
        other => panic!("expected the status, got {:?}", other),
    }
}

#[test]
fn a_running_daemon_is_used_as_it_is() {
    let s = ensure_started()
        .next(StartEvent::Resolved(Ok(())))
        .next(StartEvent::Pinged(Ok(DaemonReply::ok_ping(status(), 1))));
    match s {
        Start::Finished(Ok(s)) => assert_eq!(s.backend, "mock"),
        other => panic!("expected the status, got {:?}", other),
    }
    for reply in [
        Err(OxiwakeError::NotRunning),
        Err(OxiwakeError::Ipc("odd".to_string())),
        Ok(DaemonReply::ok_empty()),
        Ok(DaemonReply::err("busy".to_string())),
    ] {
        let s = ensure_started()
            .next(StartEvent::Resolved(Ok(())))
            .next(StartEvent::Pinged(reply));
        assert!(matches!(s, Start::ClearStale));
    }
}

#[test]
fn the_real_reason_is_shown() {
    let s = up_to_spawn()
        .next(StartEvent::StateRead(Ok(None)))
        .next(StartEvent::Reason(Some("Polkit said no".to_string())));
    assert!(matches!(s, Start::RemovePending(_)));
    match s.next(StartEvent::PendingRemoved) {
        Start::Finished(Err(e)) => {
            assert_eq!(e.message(), "oxiwake daemon failed to start: Polkit said no");
        }
        other => panic!("expected the reason, got {:?}", other),
    }
}

#[test]
fn waiting_has_an_end() {
    let s = up_to_spawn()
        .next(StartEvent::StateRead(Ok(None)))
        .next(StartEvent::Reason(None))
        .next(StartEvent::Clock(2_000))
        .next(StartEvent::PendingRemoved);
    match s {
        Start::Finished(Err(e)) => assert_eq!(
            e.message(),
            "spawned oxiwake daemon but it did not come up within 2s \
             (check `ow doctor` and that a backend can acquire the lock)"
        ),
        other => panic!("expected a timeout, got {:?}", other),
    }
}

#[test]
fn starting_fails_where_it_cannot_go_on() {
    let error = || OxiwakeError::other("x".to_string());
    let s = ensure_started().next(StartEvent::Resolved(Err(error())));
    assert!(matches!(s, Start::Finished(Err(_))));
    let s = up_to_spawn().next(StartEvent::StateRead(Err(error())));
    assert!(matches!(s, Start::Finished(Err(_))));
    let s = ensure_started()
        .next(StartEvent::Resolved(Ok(())))
        .next(StartEvent::Pinged(Err(OxiwakeError::NotRunning)))
        .next(StartEvent::Cleared)
        .next(StartEvent::PendingWritten(Err(error())));
    assert!(matches!(s, Start::Finished(Err(_))));
    assert_eq!(
        spawn_detached_daemon(SpawnAttempt::NoExe("a".to_string())).unwrap_err().message(),
        "could not resolve current exe: a"
    );
    assert_eq!(
        spawn_detached_daemon(SpawnAttempt::Failed("b".to_string())).unwrap_err().message(),
        "could not spawn oxiwake daemon: b"
    );
    assert!(spawn_detached_daemon(SpawnAttempt::Spawned).is_ok());
    assert_eq!(
        write_pending(Err("c".to_string())).unwrap_err().message(),
        "state error: could not serialize pending request: c"
    );
    assert_eq!(read_and_clear_startup_error(Some("\t".to_string())), None);
}

#[test]
fn stopping_nobody_is_no_error() {
    let s = ensure_stopped().next(StopEvent::Replied(Err(OxiwakeError::NotRunning)));
    assert!(matches!(s, Stop::Resolve));
    let s = s.next(StopEvent::Resolved(Ok(())));
    assert!(matches!(s, Stop::RemoveState));
    assert!(matches!(s.next(StopEvent::StateRemoved), Stop::Finished(Ok(()))));
    let s = ensure_stopped()
        .next(StopEvent::Replied(Ok(DaemonReply::ok_empty())))
        .next(StopEvent::Resolved(Err(OxiwakeError::State("unset".to_string()))));
    assert!(matches!(s, Stop::Finished(Ok(()))));
    let s = ensure_stopped().next(StopEvent::Replied(Err(OxiwakeError::State("u".to_string()))));
    assert!(matches!(s, Stop::Finished(Err(OxiwakeError::State(_)))));
}

#[test]
fn a_request_goes_step_by_step() {
    let r = ipc_request()
        .next(RequestEvent::Resolved(Ok(())))
        .next(RequestEvent::Connected(Ok(())));
    assert!(matches!(r, Request::Split));
    let r = r.next(RequestEvent::Split(Ok(()))).next(RequestEvent::Sent(Ok(())));
    assert!(matches!(r, Request::Receive));
    match r.next(RequestEvent::Received(Ok(DaemonReply::ok_empty()))) {
        Request::Finished(Ok(reply)) => assert!(reply.ok),
        other => panic!("expected a reply, got {:?}", other),
    }
    let r = ipc_request()
        .next(RequestEvent::Resolved(Ok(())))
        .next(RequestEvent::Connected(Err(OxiwakeError::NotRunning)));
    assert!(matches!(r, Request::Finished(Err(OxiwakeError::NotRunning))));
    let r = ipc_request()
        .next(RequestEvent::Resolved(Ok(())))
        .next(RequestEvent::Connected(Ok(())))
        .next(RequestEvent::Split(Err("limit".to_string())));
    match r {
        Request::Finished(Err(e)) => assert_eq!(e.message(), "could not dup IPC stream: limit"),
        other => panic!("expected an error, got {:?}", other),
    }
}

fn build(platform: Platform) -> Build {
    Build {
        platform,
        logind: true,
        portal: false,
        gnome: false,
        kde: false,
        screensaver: false,
        x11: false,
        wayland: false,
    }
}

fn pending() -> PendingRequest {
    PendingRequest {
        request: WakeRequest::default_linux(),
        started_unix: 1_700_000_000,
    }
}

#[test]
fn the_daemon_process_reports_its_failures() {
    let linux = build(Platform::Linux);
    let ready = |b: Build| {
        daemon_main()
            .next(b, MainEvent::Resolved(Ok(())))
            .next(b, MainEvent::ErrorCleared)
    };
    let s = ready(linux).next(linux, MainEvent::PendingRead(Ok(Some(pending()))));
    match &s {
        MainState::Run(backend, p) => {
            assert_eq!(backend.name(), "systemd-logind");
            assert_eq!(p.started_unix, 1_700_000_000);
        }
        other => panic!("expected to run, got {:?}", other),
    }
    let s = s.next(
        linux,
        MainEvent::Ran(Err(OxiwakeError::AcquireFailed {
            backend: "systemd-logind",
            reason: "denied".to_string(),
        })),
    );
    assert_eq!(
        s.startup_error().as_deref(),
        Some("backend systemd-logind could not acquire lock: denied")
    );
    assert!(matches!(
        s.next(linux, MainEvent::ErrorWritten),
        MainState::Finished(Err(OxiwakeError::AcquireFailed { .. }))
    ));

    let s = ready(linux).next(linux, MainEvent::PendingRead(Ok(None)));
    assert_eq!(
        s.startup_error().as_deref(),
        Some("state error: no pending request found for daemon")
    );
    let none = build(Platform::Unsupported);
    let s = ready(none).next(none, MainEvent::PendingRead(Ok(Some(pending()))));
    assert!(s.startup_error().unwrap().starts_with("backend none unavailable"));
    let s = daemon_main().next(
        linux,
        MainEvent::Resolved(Err(OxiwakeError::State("unset".to_string()))),
    );
    assert!(s.startup_error().is_none());
    assert!(matches!(s, MainState::Finished(Err(_))));
}

#[test]
fn the_hand_off_does_not_linger() {
    let b = build(Platform::Linux);
    let s = daemon_main()
        .next(b, MainEvent::Resolved(Ok(())))
        .next(b, MainEvent::ErrorCleared)
        .next(b, MainEvent::PendingRead(Ok(Some(pending()))))
        .next(b, MainEvent::Ran(Ok(())));
    assert!(matches!(s, MainState::RemovePending));
    assert!(matches!(
        s.next(b, MainEvent::PendingRemoved),
        MainState::Finished(Ok(()))
    ));
    let gone = IoError {
        kind: IoErrorKind::NotFound,
        message: String::new(),
    };
    assert!(LockState::remove_pending(Err(gone)).is_ok());
}
