//! Unix domain sockets: connecting, serving, and the singleton lock.

use crate::error::{IoError, IoErrorKind, OxiwakeError, Result};
use crate::platform::SingletonLock;
use crate::state::remove_if_exists;
use vstd::prelude::*;

verus! {

/// How many seconds the daemon waits for one client's read or write. A silent
/// client is dropped after that, so it cannot keep others from being served.
pub const SERVER_IO_TIMEOUT_SECS: u64 = 3;

/// How many seconds a client waits for the daemon.
pub const CLIENT_IO_TIMEOUT_SECS: u64 = 5;

/// The permission bits of the socket.
pub const SOCKET_MODE: u32 = 0o600;

/// The daemon gives up on a silent client before a client gives up on the
/// daemon.
pub proof fn server_recovers_first()
    ensures
        SERVER_IO_TIMEOUT_SECS < CLIENT_IO_TIMEOUT_SECS,
{
}

/// Whether a failure to connect means that nobody listens.
pub open spec fn nobody_listens(kind: IoErrorKind) -> bool {
    kind == IoErrorKind::NotFound || kind == IoErrorKind::ConnectionRefused
}

/// Whether a failure to connect means that nobody listens: there is no socket,
/// or there is one that a dead daemon left behind.
pub fn is_not_running(kind: IoErrorKind) -> (r: bool)
    ensures
        r == nobody_listens(kind),
{
    kind == IoErrorKind::NotFound || kind == IoErrorKind::ConnectionRefused
}

/// What connecting to the daemon's socket came to.
pub fn connect(attempt: core::result::Result<(), IoError>) -> (r: Result<()>)
    ensures
        match attempt {
            Ok(_) => r is Ok,
            Err(e) => r == Err::<(), OxiwakeError>(
                if nobody_listens(e.kind) {
                    OxiwakeError::NotRunning
                } else {
                    OxiwakeError::Io(e)
                },
            ),
        },
{
    match attempt {
        Ok(_) => Ok(()),
        Err(e) => {
            if is_not_running(e.kind) {
                Err(OxiwakeError::NotRunning)
            } else {
                Err(OxiwakeError::Io(e))
            }
        },
    }
}

// ---------------------------------------------------------------------------
// Serving
// ---------------------------------------------------------------------------

/// Where serving stands: what the program is to do next.
#[derive(Debug)]
pub enum Serve {
    /// Try to connect to the socket, to find out whether a daemon is there.
    Probe,
    /// Delete the socket that is left over.
    RemoveStale,
    /// Bind the socket.
    Bind,
    /// Restrict the socket to its owner.
    Restrict,
    /// Accept a connection.
    Accept,
    /// Handle the connection.
    Handle,
    /// Delete the socket.
    CleanUp,
    /// Nothing: serving has ended.
    Finished(Result<()>),
}

/// What the program reports after doing what [`Serve`] says.
#[derive(Debug)]
pub enum ServeEvent {
    /// What connecting came to.
    Probed(Result<()>),
    /// What deleting the left-over socket came to.
    StaleRemoved(core::result::Result<(), IoError>),
    /// What binding came to.
    Bound(core::result::Result<(), IoError>),
    /// The restriction was tried.
    Restricted,
    /// What accepting came to.
    Accepted(core::result::Result<(), IoError>),
    /// The connection was handled; `true` if the client asked to stop.
    Handled(bool),
    /// The deletion was tried.
    CleanedUp,
}

/// The next step of serving. An event that does not answer the current step
/// changes nothing.
///
/// If a daemon answers, serving is declined: taking its socket away would leave
/// it holding its lock where nobody can reach it. A failed accept is skipped,
/// and only a request to stop ends the loop.
pub open spec fn serve_next(s: Serve, event: ServeEvent) -> Serve {
    match (s, event) {
        (Serve::Probe, ServeEvent::Probed(r)) => match r {
            Ok(_) => Serve::Finished(Ok(())),
            Err(OxiwakeError::NotRunning) => Serve::RemoveStale,
            Err(e) => Serve::Finished(Err(e)),
        },
        (Serve::RemoveStale, ServeEvent::StaleRemoved(r)) => match r {
            Ok(_) => Serve::Bind,
            Err(e) => if e.kind == IoErrorKind::NotFound {
                Serve::Bind
            } else {
                Serve::Finished(Err(OxiwakeError::Io(e)))
            },
        },
        (Serve::Bind, ServeEvent::Bound(r)) => match r {
            Ok(_) => Serve::Restrict,
            Err(e) => Serve::Finished(Err(OxiwakeError::Io(e))),
        },
        (Serve::Restrict, ServeEvent::Restricted) => Serve::Accept,
        (Serve::Accept, ServeEvent::Accepted(r)) => match r {
            Ok(_) => Serve::Handle,
            Err(_) => Serve::Accept,
        },
        (Serve::Handle, ServeEvent::Handled(stop)) => if stop {
            Serve::CleanUp
        } else {
            Serve::Accept
        },
        (Serve::CleanUp, ServeEvent::CleanedUp) => Serve::Finished(Ok(())),
        (s, _) => s,
    }
}

impl Serve {
    /// Go on after an event.
    pub fn next(self, event: ServeEvent) -> (r: Serve)
        ensures
            r == serve_next(self, event),
    {
        match (self, event) {
            (Serve::Probe, ServeEvent::Probed(r)) => match r {
                Ok(_) => Serve::Finished(Ok(())),
                Err(OxiwakeError::NotRunning) => Serve::RemoveStale,
                Err(e) => Serve::Finished(Err(e)),
            },
            (Serve::RemoveStale, ServeEvent::StaleRemoved(r)) => match remove_if_exists(r) {
                Ok(_) => Serve::Bind,
                Err(e) => Serve::Finished(Err(e)),
            },
            (Serve::Bind, ServeEvent::Bound(r)) => match r {
                Ok(_) => Serve::Restrict,
                Err(e) => Serve::Finished(Err(OxiwakeError::Io(e))),
            },
            (Serve::Restrict, ServeEvent::Restricted) => Serve::Accept,
            (Serve::Accept, ServeEvent::Accepted(r)) => match r {
                Ok(_) => Serve::Handle,
                Err(_) => Serve::Accept,
            },
            (Serve::Handle, ServeEvent::Handled(stop)) => if stop {
                Serve::CleanUp
            } else {
                Serve::Accept
            },
            (Serve::CleanUp, ServeEvent::CleanedUp) => Serve::Finished(Ok(())),
            (s, _) => s,
        }
    }
}

/// Start to serve.
pub fn bind_and_serve() -> (r: Serve)
    ensures
        r == Serve::Probe,
{
    Serve::Probe
}

/// Whether the socket is bound.
pub open spec fn listening(s: Serve) -> bool {
    s is Restrict || s is Accept || s is Handle
}

/// Once the socket is bound, nothing but a client's request to stop ends the
/// serving: no failed accept, no broken or silent client.
pub proof fn only_stop_ends_serving(s: Serve, event: ServeEvent)
    requires
        listening(s),
        !listening(serve_next(s, event)),
    ensures
        s is Handle,
        event == ServeEvent::Handled(true),
        serve_next(s, event) is CleanUp,
{
}

/// A socket is deleted and bound only after connecting to it has shown that
/// nobody listens. If somebody answers, serving ends without touching it.
pub proof fn a_live_socket_is_left_alone(s: Serve, event: ServeEvent)
    ensures
        !(s is RemoveStale) && serve_next(s, event) is RemoveStale ==> s is Probe && event
            == ServeEvent::Probed(Err(OxiwakeError::NotRunning)),
        !(s is Bind) && serve_next(s, event) is Bind ==> s is RemoveStale,
        s is Probe && event is Probed && event->Probed_0 is Ok ==> serve_next(s, event)
            == Serve::Finished(Ok(())),
{
}

/// Serving that was stopped ends well, and only after the socket was deleted.
pub proof fn a_stopped_daemon_cleans_up(s: Serve, event: ServeEvent)
    ensures
        s is CleanUp && serve_next(s, event) is Finished ==> event == ServeEvent::CleanedUp
            && serve_next(s, event) == Serve::Finished(Ok(())),
        listening(s) ==> !(serve_next(s, event) is Finished),
{
}

/// Where serving stands after a run of events.
pub open spec fn serve_after(events: Seq<ServeEvent>) -> Serve
    decreases events.len(),
{
    if events.len() == 0 {
        Serve::Probe
    } else {
        serve_next(serve_after(events.drop_last()), events.last())
    }
}

/// Whether an event tells of a daemon that was there already.
pub open spec fn somebody_answered(event: ServeEvent) -> bool {
    event is Probed && event->Probed_0 is Ok
}

/// Serving ends well only because a client asked for it, or because another
/// daemon was there from the start.
pub proof fn serving_ends_for_a_reason(events: Seq<ServeEvent>)
    ensures
        serve_after(events) is CleanUp ==> events.contains(ServeEvent::Handled(true)),
        serve_after(events) is Finished && serve_after(events)->Finished_0 is Ok ==> events.contains(
            ServeEvent::Handled(true),
        ) || exists|i: int| 0 <= i < events.len() && somebody_answered(#[trigger] events[i]),
    decreases events.len(),
{
    if events.len() > 0 {
        let before = events.drop_last();
        serving_ends_for_a_reason(before);
        assert(events[events.len() - 1] == events.last());
        assert forall|e: ServeEvent| before.contains(e) implies events.contains(e) by {
            let i = choose|i: int| 0 <= i < before.len() && before[i] == e;
            assert(events[i] == e);
        }
        if exists|i: int| 0 <= i < before.len() && somebody_answered(#[trigger] before[i]) {
            let i = choose|i: int| 0 <= i < before.len() && somebody_answered(#[trigger] before[i]);
            assert(somebody_answered(events[i]));
        }
    }
}

// ---------------------------------------------------------------------------
// The singleton lock
// ---------------------------------------------------------------------------

/// What trying to lock the singleton file came to.
#[derive(Debug)]
pub enum SingletonAttempt {
    /// The file could not be opened.
    OpenFailed(IoError),
    /// The file could not be locked.
    LockFailed(IoError),
    /// The file is locked.
    Locked,
}

/// The claim to be the only daemon: `None` if another process holds it.
pub fn acquire_singleton_lock(attempt: SingletonAttempt) -> (r: Result<Option<SingletonLock>>)
    ensures
        match attempt {
            SingletonAttempt::OpenFailed(e) => r == Err::<Option<SingletonLock>, OxiwakeError>(
                OxiwakeError::Io(e),
            ),
            SingletonAttempt::LockFailed(e) => if e.kind == IoErrorKind::WouldBlock {
                r == Ok::<Option<SingletonLock>, OxiwakeError>(None)
            } else {
                r == Err::<Option<SingletonLock>, OxiwakeError>(OxiwakeError::Io(e))
            },
            SingletonAttempt::Locked => r is Ok && r->Ok_0 is Some,
        },
{
    match attempt {
        SingletonAttempt::OpenFailed(e) => Err(OxiwakeError::Io(e)),
        SingletonAttempt::LockFailed(e) => {
            if e.kind == IoErrorKind::WouldBlock {
                Ok(None)
            } else {
                Err(OxiwakeError::Io(e))
            }
        },
        SingletonAttempt::Locked => Ok(Some(SingletonLock::claimed())),
    }
}

} // verus!
