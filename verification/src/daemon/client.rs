//! The client's side: asking the daemon, starting it, stopping it.

use crate::daemon::{reply_outcome, status_outcome, PendingRequest};
use crate::error::{error_text, ErrorView, IoError, IoErrorKind, OxiwakeError, Result};
use crate::ipc::{DaemonReply, DaemonReplyView};
use crate::model::{WakeRequest, WakeStatus, WakeStatusView};
use crate::platform::outcome;
use crate::state::{remove_if_exists, LockState, WriteState};
use crate::text::{trim, trimmed, visible_text_survives_trimming, white};
use vstd::prelude::*;
use vstd::string::*;

verus! {

/// For how many milliseconds a fresh daemon is waited for.
pub const STARTUP_POLL_TIMEOUT_MS: u64 = 2_000;

/// How many milliseconds pass between two looks at a fresh daemon.
pub const STARTUP_POLL_INTERVAL_MS: u64 = 25;

// ---------------------------------------------------------------------------
// One request
// ---------------------------------------------------------------------------

/// Where a request stands: what the program is to do next.
#[derive(Debug)]
pub enum Request {
    /// Locate the runtime files.
    Resolve,
    /// Connect to the daemon.
    Connect,
    /// Make a second handle of the connection.
    Split,
    /// Send the message and flush.
    Send,
    /// Receive the reply.
    Receive,
    /// Nothing: the request has ended.
    Finished(Result<DaemonReply>),
}

/// What the program reports after doing what [`Request`] says.
#[derive(Debug)]
pub enum RequestEvent {
    /// What locating the files came to.
    Resolved(Result<()>),
    /// What connecting came to.
    Connected(Result<()>),
    /// What making a second handle came to.
    Split(core::result::Result<(), String>),
    /// What sending came to.
    Sent(Result<()>),
    /// What receiving came to.
    Received(Result<DaemonReply>),
}

/// Whether an event answers a step.
pub open spec fn answers(s: Request, event: RequestEvent) -> bool {
    match (s, event) {
        (Request::Resolve, RequestEvent::Resolved(_)) => true,
        (Request::Connect, RequestEvent::Connected(_)) => true,
        (Request::Split, RequestEvent::Split(_)) => true,
        (Request::Send, RequestEvent::Sent(_)) => true,
        (Request::Receive, RequestEvent::Received(_)) => true,
        _ => false,
    }
}

/// The error that an event tells of, if any.
pub open spec fn request_error(event: RequestEvent) -> Option<ErrorView> {
    match event {
        RequestEvent::Resolved(Err(e)) => Some(e@),
        RequestEvent::Connected(Err(e)) => Some(e@),
        RequestEvent::Split(Err(m)) => Some(ErrorView::Other("could not dup IPC stream: "@ + m@)),
        RequestEvent::Sent(Err(e)) => Some(e@),
        RequestEvent::Received(Err(e)) => Some(e@),
        _ => None,
    }
}

/// Start a request.
pub fn ipc_request() -> (r: Request)
    ensures
        r == Request::Resolve,
{
    Request::Resolve
}

impl Request {
    /// Go on after an event. The first failure ends the request with its error;
    /// otherwise each step is followed by the next one and the last one ends
    /// with the reply. An event that does not answer the current step changes
    /// nothing.
    pub fn next(self, event: RequestEvent) -> (r: Request)
        ensures
            if !answers(self, event) {
                r == self
            } else {
                match request_error(event) {
                    Some(e) => r is Finished && r->Finished_0 is Err && r->Finished_0->Err_0@ == e,
                    None => match self {
                        Request::Resolve => r is Connect,
                        Request::Connect => r is Split,
                        Request::Split => r is Send,
                        Request::Send => r is Receive,
                        _ => r is Finished && r->Finished_0 is Ok && event == RequestEvent::Received(
                            r->Finished_0,
                        ),
                    },
                }
            },
    {
        match (self, event) {
            (Request::Resolve, RequestEvent::Resolved(r)) => match r {
                Ok(_) => Request::Connect,
                Err(e) => Request::Finished(Err(e)),
            },
            (Request::Connect, RequestEvent::Connected(r)) => match r {
                Ok(_) => Request::Split,
                Err(e) => Request::Finished(Err(e)),
            },
            (Request::Split, RequestEvent::Split(r)) => match r {
                Ok(_) => Request::Send,
                Err(m) => Request::Finished(
                    Err(
                        OxiwakeError::Other(
                            "could not dup IPC stream: ".to_string().concat(m.as_str()),
                        ),
                    ),
                ),
            },
            (Request::Send, RequestEvent::Sent(r)) => match r {
                Ok(_) => Request::Receive,
                Err(e) => Request::Finished(Err(e)),
            },
            (Request::Receive, RequestEvent::Received(r)) => Request::Finished(r),
            (s, _) => s,
        }
    }
}

// ---------------------------------------------------------------------------
// The hand-off
// ---------------------------------------------------------------------------

/// The request to hand to a fresh daemon.
pub fn pending_request(req: &WakeRequest, started_unix: u64) -> (r: PendingRequest)
    ensures
        r.request@ == req@,
        r.started_unix == started_unix,
{
    PendingRequest { request: req.clone(), started_unix }
}

/// Start an atomic write of the hand-off file, given what serializing the
/// request came to.
pub fn write_pending(serialized: core::result::Result<Vec<u8>, String>) -> (r: Result<
    (Vec<u8>, WriteState),
>)
    ensures
        match serialized {
            Ok(bytes) => r is Ok && r->Ok_0.0@ == bytes@ && r->Ok_0.1 == WriteState::Writing,
            Err(m) => r is Err && r->Err_0@ == ErrorView::State(
                "could not serialize pending request: "@ + m@,
            ),
        },
{
    match serialized {
        Ok(bytes) => Ok((bytes, WriteState::Writing)),
        Err(m) => Err(
            OxiwakeError::State(
                "could not serialize pending request: ".to_string().concat(m.as_str()),
            ),
        ),
    }
}

impl LockState {
    /// What removing the hand-off file came to.
    pub fn remove_pending(attempt: core::result::Result<(), IoError>) -> (r: Result<()>)
        ensures
            match attempt {
                Ok(_) => r is Ok,
                Err(e) => if e.kind == IoErrorKind::NotFound {
                    r is Ok
                } else {
                    r == Err::<(), OxiwakeError>(OxiwakeError::Io(e))
                },
            },
    {
        remove_if_exists(attempt)
    }
}

/// What spawning a daemon came to.
#[derive(Debug)]
pub enum SpawnAttempt {
    /// The program's own path is unknown.
    NoExe(String),
    /// The process could not be started.
    Failed(String),
    /// The process runs.
    Spawned,
}

/// What spawning a detached daemon came to.
pub fn spawn_detached_daemon(attempt: SpawnAttempt) -> (r: Result<()>)
    ensures
        match attempt {
            SpawnAttempt::NoExe(m) => r is Err && r->Err_0@ == ErrorView::Other(
                "could not resolve current exe: "@ + m@,
            ),
            SpawnAttempt::Failed(m) => r is Err && r->Err_0@ == ErrorView::Other(
                "could not spawn oxiwake daemon: "@ + m@,
            ),
            SpawnAttempt::Spawned => r is Ok,
        },
{
    match attempt {
        SpawnAttempt::NoExe(m) => Err(
            OxiwakeError::Other("could not resolve current exe: ".to_string().concat(m.as_str())),
        ),
        SpawnAttempt::Failed(m) => Err(
            OxiwakeError::Other("could not spawn oxiwake daemon: ".to_string().concat(m.as_str())),
        ),
        SpawnAttempt::Spawned => Ok(()),
    }
}

/// The flags that detach a process on Windows: no console, a process group of
/// its own, no window.
pub const DETACH_FLAGS: u32 = 0x0000_0008 | 0x0000_0200 | 0x0800_0000;

/// The reason that a failing daemon left: none if it left no file, or nothing
/// but white space in it.
pub open spec fn startup_reason(text: Option<Seq<char>>) -> Option<Seq<char>> {
    match text {
        Some(t) => if trimmed(t).len() > 0 {
            Some(t)
        } else {
            None
        },
        None => None,
    }
}

/// The reason in the text of a startup-error file that was just read and
/// deleted.
pub fn read_and_clear_startup_error(text: Option<String>) -> (r: Option<String>)
    ensures
        match r {
            Some(s) => text == Some(s) && trimmed(s@).len() > 0,
            None => text is Some ==> trimmed(text->Some_0@).len() == 0,
        },
{
    match text {
        Some(t) => {
            let kept = trim(t.as_str());
            if kept.as_str().unicode_len() > 0 {
                Some(t)
            } else {
                None
            }
        },
        None => None,
    }
}

// ---------------------------------------------------------------------------
// Starting
// ---------------------------------------------------------------------------

/// Where starting a daemon stands: what the program is to do next.
#[derive(Debug)]
pub enum Start {
    /// Locate the runtime files.
    Resolve,
    /// Ask whether a daemon is there already.
    FirstPing,
    /// Delete the reason that an earlier daemon left.
    ClearStale,
    /// Write the hand-off file.
    WritePending,
    /// Spawn the daemon.
    Spawn,
    /// Read the snapshot of the fresh daemon.
    PollRead,
    /// Ask the fresh daemon.
    PollPing,
    /// Read and delete the reason that the fresh daemon left.
    PollReason,
    /// Look at the clock.
    PollClock,
    /// Sleep for one interval.
    Sleep,
    /// Delete a left-over reason; the daemon is up with this status.
    ClearSuccess(WakeStatus),
    /// Delete the hand-off file; starting has failed with this error.
    RemovePending(OxiwakeError),
    /// Nothing: starting has ended.
    Finished(Result<WakeStatus>),
}

/// What a [`Start`] says.
#[verifier::ext_equal]
pub enum StartView {
    Resolve,
    FirstPing,
    ClearStale,
    WritePending,
    Spawn,
    PollRead,
    PollPing,
    PollReason,
    PollClock,
    Sleep,
    ClearSuccess(WakeStatusView),
    RemovePending(ErrorView),
    Finished(core::result::Result<WakeStatusView, ErrorView>),
}

impl View for Start {
    type V = StartView;

    open spec fn view(&self) -> StartView {
        match *self {
            Start::Resolve => StartView::Resolve,
            Start::FirstPing => StartView::FirstPing,
            Start::ClearStale => StartView::ClearStale,
            Start::WritePending => StartView::WritePending,
            Start::Spawn => StartView::Spawn,
            Start::PollRead => StartView::PollRead,
            Start::PollPing => StartView::PollPing,
            Start::PollReason => StartView::PollReason,
            Start::PollClock => StartView::PollClock,
            Start::Sleep => StartView::Sleep,
            Start::ClearSuccess(s) => StartView::ClearSuccess(s@),
            Start::RemovePending(e) => StartView::RemovePending(e@),
            Start::Finished(r) => StartView::Finished(status_outcome(r)),
        }
    }
}

/// What the program reports after doing what [`Start`] says.
#[derive(Debug)]
pub enum StartEvent {
    /// What locating the files came to.
    Resolved(Result<()>),
    /// What reading the snapshot came to.
    StateRead(Result<Option<LockState>>),
    /// What asking came to.
    Pinged(Result<DaemonReply>),
    /// The deletion was tried.
    Cleared,
    /// What writing the hand-off file came to.
    PendingWritten(Result<()>),
    /// What spawning came to.
    Spawned(Result<()>),
    /// The text of the startup-error file, if there was one.
    Reason(Option<String>),
    /// How many milliseconds have passed since the daemon was spawned.
    Clock(u64),
    /// The interval has passed.
    Slept,
    /// The deletion was tried.
    PendingRemoved,
}

/// What a [`StartEvent`] says.
#[verifier::ext_equal]
pub enum StartEventView {
    Resolved(core::result::Result<(), ErrorView>),
    StateRead(core::result::Result<bool, ErrorView>),
    Pinged(core::result::Result<DaemonReplyView, ErrorView>),
    Cleared,
    PendingWritten(core::result::Result<(), ErrorView>),
    Spawned(core::result::Result<(), ErrorView>),
    Reason(Option<Seq<char>>),
    Clock(u64),
    Slept,
    PendingRemoved,
}

impl View for StartEvent {
    type V = StartEventView;

    open spec fn view(&self) -> StartEventView {
        match *self {
            StartEvent::Resolved(r) => StartEventView::Resolved(outcome(r)),
            StartEvent::StateRead(r) => StartEventView::StateRead(
                match r {
                    Ok(state) => Ok(state is Some),
                    Err(e) => Err(e@),
                },
            ),
            StartEvent::Pinged(r) => StartEventView::Pinged(reply_outcome(r)),
            StartEvent::Cleared => StartEventView::Cleared,
            StartEvent::PendingWritten(r) => StartEventView::PendingWritten(outcome(r)),
            StartEvent::Spawned(r) => StartEventView::Spawned(outcome(r)),
            StartEvent::Reason(t) => StartEventView::Reason(
                match t {
                    Some(s) => Some(s@),
                    None => None,
                },
            ),
            StartEvent::Clock(ms) => StartEventView::Clock(ms),
            StartEvent::Slept => StartEventView::Slept,
            StartEvent::PendingRemoved => StartEventView::PendingRemoved,
        }
    }
}

/// The error of a daemon that said why it could not start.
pub open spec fn failed_to_start(reason: Seq<char>) -> ErrorView {
    ErrorView::Other("oxiwake daemon failed to start: "@ + reason)
}

/// The error of a daemon that did not come up in time.
pub open spec fn did_not_come_up() -> ErrorView {
    ErrorView::Other(
        "spawned oxiwake daemon but it did not come up within 2s (check `ow doctor` and that a backend can acquire the lock)"@,
    )
}

/// The next step of starting a daemon. An event that does not answer the current
/// step changes nothing.
///
/// A daemon that is there and tells its status is used as it is. A fresh daemon
/// is up once its snapshot is there and it answers with its status; it has
/// failed once it has left a reason, or the time is up.
pub open spec fn start_next(s: StartView, event: StartEventView) -> StartView {
    match (s, event) {
        (StartView::Resolve, StartEventView::Resolved(r)) => match r {
            Ok(_) => StartView::FirstPing,
            Err(e) => StartView::Finished(Err(e)),
        },
        (StartView::FirstPing, StartEventView::Pinged(r)) => match r {
            Ok(reply) => match reply.status {
                Some(status) => StartView::Finished(Ok(status)),
                None => StartView::ClearStale,
            },
            Err(_) => StartView::ClearStale,
        },
        (StartView::ClearStale, StartEventView::Cleared) => StartView::WritePending,
        (StartView::WritePending, StartEventView::PendingWritten(r)) => match r {
            Ok(_) => StartView::Spawn,
            Err(e) => StartView::Finished(Err(e)),
        },
        (StartView::Spawn, StartEventView::Spawned(r)) => match r {
            Ok(_) => StartView::PollRead,
            Err(e) => StartView::Finished(Err(e)),
        },
        (StartView::PollRead, StartEventView::StateRead(r)) => match r {
            Ok(there) => if there {
                StartView::PollPing
            } else {
                StartView::PollReason
            },
            Err(e) => StartView::Finished(Err(e)),
        },
        (StartView::PollPing, StartEventView::Pinged(r)) => match r {
            Ok(reply) => match reply.status {
                Some(status) => if reply.ok {
                    StartView::ClearSuccess(status)
                } else {
                    StartView::PollReason
                },
                None => StartView::PollReason,
            },
            Err(_) => StartView::PollReason,
        },
        (StartView::PollReason, StartEventView::Reason(t)) => match startup_reason(t) {
            Some(reason) => StartView::RemovePending(failed_to_start(reason)),
            None => StartView::PollClock,
        },
        (StartView::PollClock, StartEventView::Clock(ms)) => if ms >= STARTUP_POLL_TIMEOUT_MS {
            StartView::RemovePending(did_not_come_up())
        } else {
            StartView::Sleep
        },
        (StartView::Sleep, StartEventView::Slept) => StartView::PollRead,
        (StartView::ClearSuccess(status), StartEventView::Cleared) => StartView::Finished(
            Ok(status),
        ),
        (StartView::RemovePending(e), StartEventView::PendingRemoved) => StartView::Finished(
            Err(e),
        ),
        (s, _) => s,
    }
}

/// Start to make sure that a daemon runs.
pub fn ensure_started() -> (r: Start)
    ensures
        r@ == StartView::Resolve,
{
    Start::Resolve
}

impl Start {
    /// Go on after an event.
    pub fn next(self, event: StartEvent) -> (r: Start)
        ensures
            r@ == start_next(self@, event@),
            self is PollClock && event is Clock ==> (r is Sleep <==> event->Clock_0 < 2_000),
    {
        match (self, event) {
            (Start::Resolve, StartEvent::Resolved(r)) => match r {
                Ok(_) => Start::FirstPing,
                Err(e) => Start::Finished(Err(e)),
            },
            (Start::FirstPing, StartEvent::Pinged(r)) => match r {
                Ok(reply) => match reply.status {
                    Some(status) => Start::Finished(Ok(status)),
                    None => Start::ClearStale,
                },
                Err(_) => Start::ClearStale,
            },
            (Start::ClearStale, StartEvent::Cleared) => Start::WritePending,
            (Start::WritePending, StartEvent::PendingWritten(r)) => match r {
                Ok(_) => Start::Spawn,
                Err(e) => Start::Finished(Err(e)),
            },
            (Start::Spawn, StartEvent::Spawned(r)) => match r {
                Ok(_) => Start::PollRead,
                Err(e) => Start::Finished(Err(e)),
            },
            (Start::PollRead, StartEvent::StateRead(r)) => match r {
                Ok(Some(_)) => Start::PollPing,
                Ok(None) => Start::PollReason,
                Err(e) => Start::Finished(Err(e)),
            },
            (Start::PollPing, StartEvent::Pinged(r)) => match r {
                Ok(reply) => {
                    let ok = reply.ok;
                    match reply.status {
                        Some(status) => if ok {
                            Start::ClearSuccess(status)
                        } else {
                            Start::PollReason
                        },
                        None => Start::PollReason,
                    }
                },
                Err(_) => Start::PollReason,
            },
            (Start::PollReason, StartEvent::Reason(t)) => match read_and_clear_startup_error(t) {
                Some(reason) => Start::RemovePending(
                    OxiwakeError::Other(
                        "oxiwake daemon failed to start: ".to_string().concat(reason.as_str()),
                    ),
                ),
                None => Start::PollClock,
            },
            (Start::PollClock, StartEvent::Clock(ms)) => if ms >= STARTUP_POLL_TIMEOUT_MS {
                Start::RemovePending(
                    OxiwakeError::Other(
                        "spawned oxiwake daemon but it did not come up within 2s (check `ow doctor` and that a backend can acquire the lock)".to_string(),
                    ),
                )
            } else {
                Start::Sleep
            },
            (Start::Sleep, StartEvent::Slept) => Start::PollRead,
            (Start::ClearSuccess(status), StartEvent::Cleared) => Start::Finished(Ok(status)),
            (Start::RemovePending(e), StartEvent::PendingRemoved) => Start::Finished(Err(e)),
            (s, _) => s,
        }
    }
}

/// Where starting stands after a run of events.
pub open spec fn start_after(events: Seq<StartEventView>) -> StartView
    decreases events.len(),
{
    if events.len() == 0 {
        StartView::Resolve
    } else {
        start_next(start_after(events.drop_last()), events.last())
    }
}

/// Whether an event is a daemon's answer with this status.
pub open spec fn told_by_daemon(event: StartEventView, status: WakeStatusView) -> bool {
    event is Pinged && event->Pinged_0 is Ok && event->Pinged_0->Ok_0.status == Some(status)
}

/// Starting succeeds only with a status that a daemon told.
pub proof fn success_was_told_by_a_daemon(events: Seq<StartEventView>, status: WakeStatusView)
    requires
        start_after(events) == StartView::Finished(Ok(status)) || start_after(events)
            == StartView::ClearSuccess(status),
    ensures
        exists|i: int| 0 <= i < events.len() && told_by_daemon(#[trigger] events[i], status),
    decreases events.len(),
{
    let before = events.drop_last();
    let s = start_after(before);
    if s == StartView::Finished(Ok(status)) || s == StartView::ClearSuccess(status) {
        success_was_told_by_a_daemon(before, status);
        let i = choose|i: int|
            0 <= i < before.len() && told_by_daemon(#[trigger] before[i], status);
        assert(told_by_daemon(events[i], status));
    } else {
        assert(told_by_daemon(events[events.len() - 1], status));
    }
}

/// Starting is idempotent: once the runtime files are located, a daemon that
/// answers with its status is used as it is. That status is what starting gives,
/// and neither is a hand-off file written nor a process spawned, whatever
/// snapshot there is or is not.
pub proof fn a_running_daemon_is_reused(
    resolved: StartEventView,
    reply: DaemonReplyView,
    status: WakeStatusView,
)
    requires
        resolved is Resolved && resolved->Resolved_0 is Ok,
        reply.status == Some(status),
    ensures
        start_after(seq![resolved]) == StartView::FirstPing,
        start_after(seq![resolved, StartEventView::Pinged(Ok(reply))]) == StartView::Finished(
            Ok(status),
        ),
{
    let e0 = Seq::<StartEventView>::empty();
    let e1 = seq![resolved];
    let e2 = seq![resolved, StartEventView::Pinged(Ok(reply))];
    assert(e1.drop_last() =~= e0);
    assert(e2.drop_last() =~= e1);
    assert(start_after(e0) == StartView::Resolve);
    assert(start_after(e1) == StartView::FirstPing);
}

/// A process is spawned, and a hand-off file written, only after the question
/// whether a daemon is there has brought no status.
pub proof fn nothing_is_spawned_beside_a_daemon(s: StartView, event: StartEventView)
    ensures
        !(s is Spawn) && start_next(s, event) is Spawn ==> s is WritePending,
        !(s is WritePending) && start_next(s, event) is WritePending ==> s is ClearStale,
        !(s is ClearStale) && start_next(s, event) is ClearStale ==> s is FirstPing && event
            is Pinged && (event->Pinged_0 is Ok ==> event->Pinged_0->Ok_0.status is None),
{
}

/// Waiting for a fresh daemon is bounded: starting goes to sleep only while the
/// time is not up; once it is up, the next look at the clock ends it. And a
/// reason that the daemon left ends it at once, with that reason.
pub proof fn waiting_is_bounded(s: StartView, event: StartEventView)
    ensures
        !(s is Sleep) && start_next(s, event) is Sleep ==> s is PollClock && event is Clock
            && event->Clock_0 < STARTUP_POLL_TIMEOUT_MS,
        s is PollClock && event is Clock && event->Clock_0 >= STARTUP_POLL_TIMEOUT_MS ==> start_next(
            s,
            event,
        ) == StartView::RemovePending(did_not_come_up()),
        s is PollReason && event is Reason && startup_reason(event->Reason_0) is Some
            ==> start_next(s, event) == StartView::RemovePending(
            failed_to_start(startup_reason(event->Reason_0)->Some_0),
        ),
{
}

/// How many more times a client goes to sleep, if every sleep takes at least one
/// interval.
pub open spec fn sleeps_left(ms: u64) -> nat {
    if ms >= STARTUP_POLL_TIMEOUT_MS {
        0
    } else {
        ((STARTUP_POLL_TIMEOUT_MS - ms + STARTUP_POLL_INTERVAL_MS - 1)
            / STARTUP_POLL_INTERVAL_MS as int) as nat
    }
}

/// A client looks at a fresh daemon a bounded number of times: each sleep leaves
/// fewer of them, and with none left the next look at the clock is the last.
pub proof fn looks_are_bounded(ms: u64, later: u64)
    requires
        later >= ms + STARTUP_POLL_INTERVAL_MS,
    ensures
        sleeps_left(0) == 80,
        start_next(StartView::PollClock, StartEventView::Clock(ms)) is Sleep ==> sleeps_left(later)
            < sleeps_left(ms),
        sleeps_left(ms) == 0 ==> !(start_next(
            StartView::PollClock,
            StartEventView::Clock(ms),
        ) is Sleep),
{
}

/// A failure after the hand-off file was written and the daemon spawned deletes
/// that file first, except where the snapshot itself cannot be read.
pub proof fn failed_start_removes_the_hand_off(s: StartView, event: StartEventView)
    requires
        s is PollPing || s is PollReason || s is PollClock || s is Sleep || s is RemovePending,
        start_next(s, event) is Finished,
    ensures
        s is RemovePending,
        event is PendingRemoved,
{
}

/// The real reason is reported: what a failing daemon leaves behind, the client
/// fails with. Only a wording that is blank cannot be told, and only the
/// catch-all error can have one.
pub proof fn the_real_reason_is_reported(e: ErrorView)
    requires
        e is Other ==> trimmed(error_text(e)).len() > 0,
    ensures
        start_next(StartView::PollReason, StartEventView::Reason(Some(error_text(e))))
            == StartView::RemovePending(failed_to_start(error_text(e))),
{
    reveal_strlit("backend ");
    reveal_strlit("D-Bus error: ");
    reveal_strlit("D-Bus reply decode error: ");
    reveal_strlit("io error: ");
    reveal_strlit("state error: ");
    reveal_strlit("ipc error: ");
    reveal_strlit("oxiwake is not running");
    reveal_strlit("oxiwake is already running (pid ");
    let t = error_text(e);
    if !(e is Other) {
        assert(t.len() > 0 && !white(t[0]));
        visible_text_survives_trimming(t, 0);
    }
}

// ---------------------------------------------------------------------------
// Stopping
// ---------------------------------------------------------------------------

/// Where stopping the daemon stands: what the program is to do next.
#[derive(Debug)]
pub enum Stop {
    /// Send `Stop` to the daemon.
    Send,
    /// Locate the runtime files.
    Resolve,
    /// Delete a left-over snapshot.
    RemoveState,
    /// Nothing: stopping has ended.
    Finished(Result<()>),
}

/// What the program reports after doing what [`Stop`] says.
#[derive(Debug)]
pub enum StopEvent {
    /// What sending came to.
    Replied(Result<DaemonReply>),
    /// What locating the files came to.
    Resolved(Result<()>),
    /// The deletion was tried.
    StateRemoved,
}

/// The next step of stopping. An event that does not answer the current step
/// changes nothing. That nobody is there is as good as a reply.
pub open spec fn stop_next(s: Stop, event: StopEvent) -> Stop {
    match (s, event) {
        (Stop::Send, StopEvent::Replied(r)) => match r {
            Ok(_) => Stop::Resolve,
            Err(OxiwakeError::NotRunning) => Stop::Resolve,
            Err(e) => Stop::Finished(Err(e)),
        },
        (Stop::Resolve, StopEvent::Resolved(r)) => match r {
            Ok(_) => Stop::RemoveState,
            Err(_) => Stop::Finished(Ok(())),
        },
        (Stop::RemoveState, StopEvent::StateRemoved) => Stop::Finished(Ok(())),
        (s, _) => s,
    }
}

/// Start to make sure that no daemon runs.
pub fn ensure_stopped() -> (r: Stop)
    ensures
        r == Stop::Send,
{
    Stop::Send
}

impl Stop {
    /// Go on after an event.
    pub fn next(self, event: StopEvent) -> (r: Stop)
        ensures
            r == stop_next(self, event),
    {
        match (self, event) {
            (Stop::Send, StopEvent::Replied(r)) => match r {
                Ok(_) => Stop::Resolve,
                Err(OxiwakeError::NotRunning) => Stop::Resolve,
                Err(e) => Stop::Finished(Err(e)),
            },
            (Stop::Resolve, StopEvent::Resolved(r)) => match r {
                Ok(_) => Stop::RemoveState,
                Err(_) => Stop::Finished(Ok(())),
            },
            (Stop::RemoveState, StopEvent::StateRemoved) => Stop::Finished(Ok(())),
            (s, _) => s,
        }
    }
}

/// Stopping is idempotent: whether the daemon replied or nobody was there, it
/// goes on alike and cannot fail any more.
pub proof fn stopping_twice_is_no_error(reply: DaemonReply, later: StopEvent)
    ensures
        stop_next(Stop::Send, StopEvent::Replied(Ok(reply))) == Stop::Resolve,
        stop_next(Stop::Send, StopEvent::Replied(Err(OxiwakeError::NotRunning))) == Stop::Resolve,
        stop_next(Stop::Resolve, later) is Finished ==> stop_next(
            Stop::Resolve,
            later,
        )->Finished_0 is Ok,
        stop_next(Stop::RemoveState, later) is Finished ==> stop_next(
            Stop::RemoveState,
            later,
        )->Finished_0 is Ok,
{
}

} // verus!
