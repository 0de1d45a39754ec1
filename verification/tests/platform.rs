//! Sockets, pipes and the singleton lock.

use oxiwake::backend::windows as power;
use oxiwake::daemon::client::DETACH_FLAGS;
use oxiwake::doctor;
use oxiwake::error::{IoError, IoErrorKind, OxiwakeError};
use oxiwake::ipc::ClientMsg;
use oxiwake::model::{WakeMode, WakeStatus, WakeTarget};
use oxiwake::platform::linux::{self, Serve, ServeEvent};
use oxiwake::platform::windows::{
    self, connect_bounded, connect_named, create_pipe_instance, pipe_mode, read_blocking,
    read_overlapped, timeout_millis, write_blocking, write_overlapped, BoundedAccept, BoundedRead,
    BoundedWrite, Call, ConnectOutcome, ConnectStep, CreateInstance, PipeEvent, PipeServe,
    ReadOutcome, WriteOutcome, PIPE_PATH,
};
use oxiwake::platform::{handle_connection, Exchange};
use windows_sys::Win32::Foundation;
use windows_sys::Win32::System::{Pipes, Power, Registry, Threading};

fn io(kind: IoErrorKind) -> IoError {
    IoError {
        kind,
        message: "io".to_string(),
    }
}

fn status() -> WakeStatus {
    WakeStatus {
        backend: "mock".to_string(),
        targets: vec![WakeTarget::Idle],
        mode: WakeMode::Block,
        display: false,
    }
}

#[test]
fn pipe_path_is_well_known() {
    assert_eq!(PIPE_PATH, r"\\.\pipe\oxiwake");
}

#[test]
fn pipe_mode_is_blocking_byte_stream() {
    // 0 = TYPE_BYTE | READMODE_BYTE | WAIT.
    assert_eq!(pipe_mode(), 0);
}

#[test]
fn nobody_listening_is_not_running() {
    assert!(linux::connect(Ok(())).is_ok());
    for kind in [IoErrorKind::NotFound, IoErrorKind::ConnectionRefused] {
        assert!(matches!(
            linux::connect(Err(io(kind))),
            Err(OxiwakeError::NotRunning)
        ));
    }
    assert!(matches!(
        linux::connect(Err(io(IoErrorKind::Other))),
        Err(OxiwakeError::Io(_))
    ));
}

/// Serve until the socket is bound.
fn listening() -> Serve {
    let s = linux::bind_and_serve();
    let s = s.next(ServeEvent::Probed(Err(OxiwakeError::NotRunning)));
    assert!(matches!(s, Serve::RemoveStale));
    let s = s.next(ServeEvent::StaleRemoved(Err(io(IoErrorKind::NotFound))));
    assert!(matches!(s, Serve::Bind));
    let s = s.next(ServeEvent::Bound(Ok(())));
    assert!(matches!(s, Serve::Restrict));
    let s = s.next(ServeEvent::Restricted);
    assert!(matches!(s, Serve::Accept));
    s
}

#[test]
fn only_stop_ends_the_loop() {
    let s = listening();
    let s = s.next(ServeEvent::Accepted(Err(io(IoErrorKind::Interrupted))));
    let s = s.next(ServeEvent::Accepted(Err(io(IoErrorKind::Other))));
    let s = s.next(ServeEvent::Accepted(Ok(())));
    assert!(matches!(s, Serve::Handle));
    let s = s.next(ServeEvent::Handled(false));
    assert!(matches!(s, Serve::Accept));
    let s = s.next(ServeEvent::Accepted(Ok(())));
    let s = s.next(ServeEvent::Handled(true));
    assert!(matches!(s, Serve::CleanUp));
    assert!(matches!(s.next(ServeEvent::CleanedUp), Serve::Finished(Ok(()))));
}

#[test]
fn a_live_daemon_keeps_its_socket() {
    let s = linux::bind_and_serve().next(ServeEvent::Probed(Ok(())));
    assert!(matches!(s, Serve::Finished(Ok(()))));
    let s = linux::bind_and_serve().next(ServeEvent::Probed(Err(OxiwakeError::Io(io(
        IoErrorKind::Other,
    )))));
    assert!(matches!(s, Serve::Finished(Err(OxiwakeError::Io(_)))));
}

#[test]
fn a_socket_that_cannot_be_bound_is_an_error() {
    let s = linux::bind_and_serve()
        .next(ServeEvent::Probed(Err(OxiwakeError::NotRunning)))
        .next(ServeEvent::StaleRemoved(Ok(())))
        .next(ServeEvent::Bound(Err(io(IoErrorKind::Other))));
    assert!(matches!(s, Serve::Finished(Err(OxiwakeError::Io(_)))));
    let s = linux::bind_and_serve()
        .next(ServeEvent::Probed(Err(OxiwakeError::NotRunning)))
        .next(ServeEvent::StaleRemoved(Err(io(IoErrorKind::Other))));
    assert!(matches!(s, Serve::Finished(Err(OxiwakeError::Io(_)))));
}

#[test]
fn events_out_of_place_change_nothing() {
    let s = listening().next(ServeEvent::CleanedUp);
    assert!(matches!(s, Serve::Accept));
}

#[test]
fn the_server_gives_up_first() {
    assert!(linux::SERVER_IO_TIMEOUT_SECS < linux::CLIENT_IO_TIMEOUT_SECS);
    assert_eq!(windows::SERVER_IO_TIMEOUT_MS, 3_000);
}

#[test]
fn a_broken_client_is_dropped() {
    assert!(matches!(
        handle_connection(Err(OxiwakeError::NotRunning), &status(), 7),
        Exchange::Drop
    ));
    match handle_connection(Ok(ClientMsg::Ping), &status(), 7) {
        Exchange::Reply { reply, stop } => {
            assert!(!stop);
            assert_eq!(reply.pid, Some(7));
        }
        other => panic!("expected a reply, got {:?}", other),
    }
    match handle_connection(Ok(ClientMsg::Stop), &status(), 7) {
        Exchange::Reply { reply, stop } => assert!(stop && reply.ok),
        other => panic!("expected a reply, got {:?}", other),
    }
}

#[test]
fn the_singleton_lock_is_exclusive() {
    assert!(matches!(
        linux::acquire_singleton_lock(linux::SingletonAttempt::Locked),
        Ok(Some(_))
    ));
    assert!(matches!(
        linux::acquire_singleton_lock(linux::SingletonAttempt::LockFailed(io(IoErrorKind::WouldBlock))),
        Ok(None)
    ));
    assert!(matches!(
        linux::acquire_singleton_lock(linux::SingletonAttempt::LockFailed(io(IoErrorKind::Other))),
        Err(OxiwakeError::Io(_))
    ));
    assert!(matches!(
        linux::acquire_singleton_lock(linux::SingletonAttempt::OpenFailed(io(IoErrorKind::WouldBlock))),
        Err(OxiwakeError::Io(_))
    ));
}

#[test]
fn the_singleton_lock_is_exclusive_on_windows() {
    assert!(matches!(
        windows::acquire_singleton_lock(windows::SingletonAttempt::Locked),
        Ok(Some(_))
    ));
    assert!(matches!(
        windows::acquire_singleton_lock(windows::SingletonAttempt::LockFailed(33, io(IoErrorKind::Other))),
        Ok(None)
    ));
    assert!(matches!(
        windows::acquire_singleton_lock(windows::SingletonAttempt::LockFailed(5, io(IoErrorKind::Other))),
        Err(OxiwakeError::Io(_))
    ));
    assert!(matches!(
        windows::acquire_singleton_lock(windows::SingletonAttempt::OpenFailed(io(IoErrorKind::Other))),
        Err(OxiwakeError::Io(_))
    ));
}

#[test]
fn a_busy_pipe_is_retried_for_a_while() {
    assert_eq!(connect_named(2, 0), ConnectStep::NotRunning);
    assert_eq!(connect_named(3, 5_000), ConnectStep::NotRunning);
    assert_eq!(connect_named(231, 0), ConnectStep::Retry(2_000));
    assert_eq!(connect_named(231, 1_999), ConnectStep::Retry(1));
    assert_eq!(connect_named(231, 2_000), ConnectStep::Fail(231));
    assert_eq!(connect_named(5, 0), ConnectStep::Fail(5));
    assert!(windows::connect(None).is_ok());
    let gone = Some((ConnectStep::NotRunning, io(IoErrorKind::NotFound)));
    assert!(matches!(windows::connect(gone), Err(OxiwakeError::NotRunning)));
    let busy = Some((ConnectStep::Fail(231), io(IoErrorKind::Other)));
    assert!(matches!(windows::connect(busy), Err(OxiwakeError::Io(_))));
}

/// Run a bounded read on the outcomes of its system calls.
fn read_with(calls: &[Call]) -> (usize, BoundedRead) {
    let mut s = read_overlapped();
    let mut made = 0;
    for call in calls {
        if let BoundedRead::Done(_) = s {
            break;
        }
        s = s.next(*call);
        made += 1;
    }
    (made, s)
}

#[test]
fn bounded_reads() {
    let done = BoundedRead::Done;
    assert_eq!(
        read_with(&[Ok(1), Ok(1), Ok(5)]),
        (3, done(ReadOutcome::Bytes(5)))
    );
    assert_eq!(
        read_with(&[Ok(1), Ok(1), Err(109)]),
        (3, done(ReadOutcome::Bytes(0)))
    );
    assert_eq!(
        read_with(&[Ok(1), Ok(1), Err(997), Ok(0), Ok(9)]),
        (5, done(ReadOutcome::Bytes(9)))
    );
    assert_eq!(
        read_with(&[Ok(1), Ok(1), Err(997), Ok(258), Ok(1), Err(995)]),
        (6, done(ReadOutcome::TimedOut))
    );
    assert_eq!(
        read_with(&[Ok(1), Ok(1), Err(997), Ok(0), Err(109)]),
        (5, done(ReadOutcome::Bytes(0)))
    );
    assert_eq!(
        read_with(&[Ok(1), Ok(1), Err(997), Err(6)]),
        (4, done(ReadOutcome::Failed(6)))
    );
    assert_eq!(read_with(&[Err(8)]), (1, done(ReadOutcome::Failed(8))));
    assert_eq!(read_with(&[Ok(1), Err(6)]), (2, done(ReadOutcome::Failed(6))));
    assert_eq!(
        read_with(&[Ok(1), Ok(1), Err(5)]),
        (3, done(ReadOutcome::Failed(5)))
    );
}

#[test]
fn bounded_writes() {
    let run = |calls: &[Call]| {
        let mut s = write_overlapped();
        for call in calls {
            s = s.next(*call);
        }
        s
    };
    let done = BoundedWrite::Done;
    assert_eq!(run(&[Ok(1), Ok(1), Ok(5)]), done(WriteOutcome::Bytes(5)));
    assert_eq!(run(&[Ok(1), Ok(1), Err(109)]), done(WriteOutcome::Failed(109)));
    assert_eq!(
        run(&[Ok(1), Ok(1), Err(997), Ok(0), Ok(9)]),
        done(WriteOutcome::Bytes(9))
    );
    assert_eq!(run(&[Ok(1), Ok(1), Err(997), Ok(258)]), BoundedWrite::Cancel);
    assert_eq!(
        run(&[Ok(1), Ok(1), Err(997), Ok(258), Ok(1), Err(995)]),
        done(WriteOutcome::TimedOut)
    );
    assert_eq!(
        run(&[Ok(1), Ok(1), Err(997), Ok(0), Err(232)]),
        done(WriteOutcome::Failed(232))
    );
    assert_eq!(run(&[Ok(1), Ok(1), Err(997), Err(6)]), done(WriteOutcome::Failed(6)));
    assert_eq!(run(&[Err(8)]), done(WriteOutcome::Failed(8)));
    assert_eq!(run(&[Ok(1), Err(6)]), done(WriteOutcome::Failed(6)));
    assert_eq!(write_blocking(Ok(3)), WriteOutcome::Bytes(3));
    assert_eq!(write_blocking(Err(232)), WriteOutcome::Failed(232));
}

#[test]
fn blocking_reads_end_with_the_pipe() {
    assert_eq!(read_blocking(Ok(3)), ReadOutcome::Bytes(3));
    assert_eq!(read_blocking(Err(109)), ReadOutcome::Bytes(0));
    assert_eq!(read_blocking(Err(5)), ReadOutcome::Failed(5));
}

#[test]
fn bounded_accepts() {
    let run = |calls: &[Call]| {
        let mut s = connect_bounded();
        for call in calls {
            s = s.next(*call);
        }
        s
    };
    let done = BoundedAccept::Done;
    assert_eq!(run(&[Ok(1), Ok(1)]), done(ConnectOutcome::Connected));
    assert_eq!(run(&[Ok(1), Err(535)]), done(ConnectOutcome::Connected));
    assert_eq!(
        run(&[Ok(1), Err(997), Ok(0), Ok(0)]),
        done(ConnectOutcome::Connected)
    );
    assert_eq!(
        run(&[Ok(1), Err(997), Ok(258), Ok(1), Err(995)]),
        done(ConnectOutcome::Timeout)
    );
    assert_eq!(
        run(&[Ok(1), Err(997), Ok(0), Err(109)]),
        done(ConnectOutcome::Failed(109))
    );
    assert_eq!(run(&[Err(6)]), done(ConnectOutcome::Failed(6)));
    assert_eq!(run(&[Ok(1), Err(5)]), done(ConnectOutcome::Failed(5)));
    assert_eq!(
        run(&[Ok(1), Err(997), Err(6)]),
        done(ConnectOutcome::Failed(6))
    );
}

#[test]
fn a_failed_instance_closes_its_event() {
    let s = create_pipe_instance().next(Ok(1));
    assert!(matches!(s, CreateInstance::CreatePipe));
    assert!(matches!(s.next(Ok(1)), CreateInstance::Done(Ok(()))));
    let s = s.next(Err(5));
    assert!(matches!(s, CreateInstance::CloseEvent(5)));
    assert!(matches!(s.next(Ok(1)), CreateInstance::Done(Err(5))));
    assert!(matches!(
        create_pipe_instance().next(Err(8)),
        CreateInstance::Done(Err(8))
    ));
}

#[test]
fn pipes_are_served_until_stop() {
    let s = windows::bind_and_serve();
    let s = s.next(PipeEvent::Probed(Err(OxiwakeError::NotRunning)));
    assert!(matches!(s, PipeServe::Create));
    let s = s.next(PipeEvent::Created(Ok(())));
    let s = s.next(PipeEvent::Accepted(Ok(false)));
    assert!(matches!(s, PipeServe::Create));
    let s = s.next(PipeEvent::Created(Ok(()))).next(PipeEvent::Accepted(Ok(true)));
    assert!(matches!(s, PipeServe::Handle));
    let s = s.next(PipeEvent::Handled(false));
    assert!(matches!(s, PipeServe::Create));
    let s = s
        .next(PipeEvent::Created(Ok(())))
        .next(PipeEvent::Accepted(Ok(true)))
        .next(PipeEvent::Handled(true));
    assert!(matches!(s, PipeServe::Finished(Ok(()))));
    let taken = windows::bind_and_serve().next(PipeEvent::Probed(Ok(())));
    assert!(matches!(taken, PipeServe::Finished(Ok(()))));
    let broken = windows::bind_and_serve()
        .next(PipeEvent::Probed(Err(OxiwakeError::NotRunning)))
        .next(PipeEvent::Created(Err(io(IoErrorKind::Other))));
    assert!(matches!(broken, PipeServe::Finished(Err(OxiwakeError::Io(_)))));
}

#[test]
fn waits_are_capped() {
    assert_eq!(timeout_millis(3, 0), 3_000);
    assert_eq!(timeout_millis(0, 250), 250);
    assert_eq!(timeout_millis(4_294_967, 295), u32::MAX);
    assert_eq!(timeout_millis(4_294_967, 296), u32::MAX);
    assert_eq!(timeout_millis(u64::MAX, u32::MAX), u32::MAX);
}

#[test]
fn the_numbers_are_those_of_the_system() {
    assert_eq!(windows::ERROR_FILE_NOT_FOUND, Foundation::ERROR_FILE_NOT_FOUND);
    assert_eq!(windows::ERROR_PATH_NOT_FOUND, Foundation::ERROR_PATH_NOT_FOUND);
    assert_eq!(windows::ERROR_LOCK_VIOLATION, Foundation::ERROR_LOCK_VIOLATION);
    assert_eq!(windows::ERROR_BROKEN_PIPE, Foundation::ERROR_BROKEN_PIPE);
    assert_eq!(windows::ERROR_PIPE_BUSY, Foundation::ERROR_PIPE_BUSY);
    assert_eq!(windows::ERROR_PIPE_CONNECTED, Foundation::ERROR_PIPE_CONNECTED);
    assert_eq!(windows::ERROR_IO_PENDING, Foundation::ERROR_IO_PENDING);
    assert_eq!(windows::WAIT_TIMEOUT, Foundation::WAIT_TIMEOUT);
    assert_eq!(windows::PIPE_TYPE_BYTE, Pipes::PIPE_TYPE_BYTE);
    assert_eq!(windows::PIPE_READMODE_BYTE, Pipes::PIPE_READMODE_BYTE);
    assert_eq!(doctor::ERROR_SUCCESS, Foundation::ERROR_SUCCESS);
    assert_eq!(doctor::REG_SZ, Registry::REG_SZ);
    assert_eq!(doctor::REG_DWORD, Registry::REG_DWORD);
    assert_eq!(power::ES_CONTINUOUS, Power::ES_CONTINUOUS);
    assert_eq!(power::ES_SYSTEM_REQUIRED, Power::ES_SYSTEM_REQUIRED);
    assert_eq!(power::ES_DISPLAY_REQUIRED, Power::ES_DISPLAY_REQUIRED);
    assert_eq!(
        DETACH_FLAGS,
        Threading::DETACHED_PROCESS
            | Threading::CREATE_NEW_PROCESS_GROUP
            | Threading::CREATE_NO_WINDOW
    );
}
