//! The daemon: its life, its replies, and the helpers that start and stop it.
//!
//! A lock lives only as long as the process that holds it, so `ow on` starts a
//! small daemon for it. The daemon claims the singleton lock before it takes the
//! wake lock, keeps both for as long as it serves, and gives the wake lock up
//! first and the singleton lock last.
//!
//! Each of these is a state machine: it says what is to be done next, the
//! program does it and reports what came of it.

pub mod client;
pub mod entry;
pub mod world;

pub use crate::daemon::client::{ensure_started, ensure_stopped, ipc_request};
pub use crate::daemon::entry::daemon_main;

use crate::error::{ErrorView, Result};
use crate::ipc::{ClientMsg, DaemonReply, DaemonReplyView};
use crate::model::{WakeRequest, WakeRequestView, WakeStatus, WakeStatusView};
use crate::platform::outcome;
use crate::state::{LockState, LockStateView};
use vstd::prelude::*;
use vstd::string::*;

verus! {

/// The hidden subcommand that the daemon runs as.
pub const DAEMON_SUBCOMMAND: &'static str = "__daemon";

/// The request that is handed to a fresh daemon.
#[derive(Debug)]
pub struct PendingRequest {
    /// What to hold.
    pub request: WakeRequest,
    /// Since when, in seconds since the Unix epoch.
    pub started_unix: u64,
}

/// What a [`PendingRequest`] says.
#[verifier::ext_equal]
pub struct PendingRequestView {
    pub request: WakeRequestView,
    pub started_unix: u64,
}

impl View for PendingRequest {
    type V = PendingRequestView;

    open spec fn view(&self) -> PendingRequestView {
        PendingRequestView { request: self.request@, started_unix: self.started_unix }
    }
}

impl Clone for PendingRequest {
    fn clone(&self) -> (r: PendingRequest)
        ensures
            r@ == self@,
    {
        PendingRequest { request: self.request.clone(), started_unix: self.started_unix }
    }
}

// ---------------------------------------------------------------------------
// Replies
// ---------------------------------------------------------------------------

/// The reply to a message.
pub open spec fn reply_to(msg: ClientMsg, status: WakeStatusView, pid: u32) -> DaemonReplyView {
    match msg {
        ClientMsg::Ping => DaemonReplyView {
            ok: true,
            error: None,
            status: Some(status),
            pid: Some(pid),
        },
        ClientMsg::Status => DaemonReplyView {
            ok: true,
            error: None,
            status: Some(status),
            pid: None,
        },
        ClientMsg::Stop => DaemonReplyView { ok: true, error: None, status: None, pid: None },
    }
}

/// Answer a message.
pub fn dispatch(msg: ClientMsg, status: &WakeStatus, pid: u32) -> (r: DaemonReply)
    ensures
        r@ == reply_to(msg, status@, pid),
{
    match msg {
        ClientMsg::Ping => DaemonReply::ok_ping(status.clone(), pid),
        ClientMsg::Status => DaemonReply::ok_status(status.clone()),
        ClientMsg::Stop => DaemonReply::ok_empty(),
    }
}

// ---------------------------------------------------------------------------
// The life of a daemon
// ---------------------------------------------------------------------------

/// Where a daemon stands: what the program is to do next.
#[derive(Debug)]
pub enum DaemonState {
    /// Locate the runtime files.
    Resolve,
    /// Ask whether a daemon is there already.
    Ping,
    /// Claim the singleton lock.
    Claim,
    /// Take the wake lock for the daemon's request.
    Acquire,
    /// Ask the backend, whose guard has this name, for its status.
    Describe(&'static str),
    /// Write the snapshot.
    Publish(WakeStatus, LockState),
    /// Delete the hand-off file.
    RemovePending(WakeStatus),
    /// Serve, answering with this status.
    Serve(WakeStatus),
    /// Delete the snapshot.
    RemoveState(Result<()>),
    /// Release the wake lock.
    ReleaseGuard(Result<()>),
    /// Give the singleton lock up.
    ReleaseSingleton(Result<()>),
    /// Nothing: the daemon has ended.
    Finished(Result<()>),
}

/// What a [`DaemonState`] says.
#[verifier::ext_equal]
pub enum DaemonStateView {
    Resolve,
    Ping,
    Claim,
    Acquire,
    Describe(Seq<char>),
    Publish(WakeStatusView, LockStateView),
    RemovePending(WakeStatusView),
    Serve(WakeStatusView),
    RemoveState(core::result::Result<(), ErrorView>),
    ReleaseGuard(core::result::Result<(), ErrorView>),
    ReleaseSingleton(core::result::Result<(), ErrorView>),
    Finished(core::result::Result<(), ErrorView>),
}

impl View for DaemonState {
    type V = DaemonStateView;

    open spec fn view(&self) -> DaemonStateView {
        match *self {
            DaemonState::Resolve => DaemonStateView::Resolve,
            DaemonState::Ping => DaemonStateView::Ping,
            DaemonState::Claim => DaemonStateView::Claim,
            DaemonState::Acquire => DaemonStateView::Acquire,
            DaemonState::Describe(name) => DaemonStateView::Describe(name@),
            DaemonState::Publish(status, lock) => DaemonStateView::Publish(status@, lock@),
            DaemonState::RemovePending(status) => DaemonStateView::RemovePending(status@),
            DaemonState::Serve(status) => DaemonStateView::Serve(status@),
            DaemonState::RemoveState(r) => DaemonStateView::RemoveState(outcome(r)),
            DaemonState::ReleaseGuard(r) => DaemonStateView::ReleaseGuard(outcome(r)),
            DaemonState::ReleaseSingleton(r) => DaemonStateView::ReleaseSingleton(outcome(r)),
            DaemonState::Finished(r) => DaemonStateView::Finished(outcome(r)),
        }
    }
}

/// What the program reports after doing what [`DaemonState`] says.
#[derive(Debug)]
pub enum DaemonEvent {
    /// What locating the files came to.
    Resolved(Result<()>),
    /// What asking came to.
    Pinged(Result<DaemonReply>),
    /// What claiming came to: `false` if another process holds the lock.
    Claimed(Result<bool>),
    /// What taking the lock came to: the name of the guard's backend.
    Acquired(Result<&'static str>),
    /// The backend's status.
    Described(Result<WakeStatus>),
    /// What writing the snapshot came to.
    Published(Result<()>),
    /// The deletion was tried.
    PendingRemoved,
    /// What serving came to.
    Served(Result<()>),
    /// The deletion was tried.
    StateRemoved,
    /// The wake lock is released.
    GuardReleased,
    /// The singleton lock is given up.
    SingletonReleased,
}

/// What a [`DaemonEvent`] says.
#[verifier::ext_equal]
pub enum DaemonEventView {
    Resolved(core::result::Result<(), ErrorView>),
    Pinged(core::result::Result<DaemonReplyView, ErrorView>),
    Claimed(core::result::Result<bool, ErrorView>),
    Acquired(core::result::Result<Seq<char>, ErrorView>),
    Described(core::result::Result<WakeStatusView, ErrorView>),
    Published(core::result::Result<(), ErrorView>),
    PendingRemoved,
    Served(core::result::Result<(), ErrorView>),
    StateRemoved,
    GuardReleased,
    SingletonReleased,
}

impl View for DaemonEvent {
    type V = DaemonEventView;

    open spec fn view(&self) -> DaemonEventView {
        match *self {
            DaemonEvent::Resolved(r) => DaemonEventView::Resolved(outcome(r)),
            DaemonEvent::Pinged(r) => DaemonEventView::Pinged(reply_outcome(r)),
            DaemonEvent::Claimed(r) => DaemonEventView::Claimed(outcome(r)),
            DaemonEvent::Acquired(r) => DaemonEventView::Acquired(
                match r {
                    Ok(name) => Ok(name@),
                    Err(e) => Err(e@),
                },
            ),
            DaemonEvent::Described(r) => DaemonEventView::Described(status_outcome(r)),
            DaemonEvent::Published(r) => DaemonEventView::Published(outcome(r)),
            DaemonEvent::PendingRemoved => DaemonEventView::PendingRemoved,
            DaemonEvent::Served(r) => DaemonEventView::Served(outcome(r)),
            DaemonEvent::StateRemoved => DaemonEventView::StateRemoved,
            DaemonEvent::GuardReleased => DaemonEventView::GuardReleased,
            DaemonEvent::SingletonReleased => DaemonEventView::SingletonReleased,
        }
    }
}

/// What a reply, or the failure to get one, says.
pub open spec fn reply_outcome(r: Result<DaemonReply>) -> core::result::Result<
    DaemonReplyView,
    ErrorView,
> {
    match r {
        Ok(reply) => Ok(reply@),
        Err(e) => Err(e@),
    }
}

/// What a status, or the failure to get one, says.
pub open spec fn status_outcome(r: Result<WakeStatus>) -> core::result::Result<
    WakeStatusView,
    ErrorView,
> {
    match r {
        Ok(status) => Ok(status@),
        Err(e) => Err(e@),
    }
}

/// What a daemon is started with.
#[verifier::ext_equal]
pub struct DaemonPlan {
    pub request: WakeRequestView,
    pub started_unix: u64,
    pub pid: u32,
}

/// The snapshot of a daemon's lock.
pub open spec fn snapshot(plan: DaemonPlan, backend: Seq<char>) -> LockStateView {
    LockStateView {
        pid: plan.pid,
        backend,
        started_unix: plan.started_unix,
        request: plan.request,
    }
}

/// The next step of a daemon. An event that does not answer the current step
/// changes nothing.
///
/// A daemon that finds another one, by its answer or by its singleton lock,
/// declines without taking the wake lock. Once the wake lock is taken, every way
/// out releases it, and gives the singleton lock up after that.
pub open spec fn daemon_next(
    plan: DaemonPlan,
    s: DaemonStateView,
    event: DaemonEventView,
) -> DaemonStateView {
    match (s, event) {
        (DaemonStateView::Resolve, DaemonEventView::Resolved(r)) => match r {
            Ok(_) => DaemonStateView::Ping,
            Err(e) => DaemonStateView::Finished(Err(e)),
        },
        (DaemonStateView::Ping, DaemonEventView::Pinged(r)) => match r {
            Ok(reply) => if reply.ok {
                DaemonStateView::Finished(Ok(()))
            } else {
                DaemonStateView::Claim
            },
            Err(_) => DaemonStateView::Claim,
        },
        (DaemonStateView::Claim, DaemonEventView::Claimed(r)) => match r {
            Ok(ours) => if ours {
                DaemonStateView::Acquire
            } else {
                DaemonStateView::Finished(Ok(()))
            },
            Err(e) => DaemonStateView::Finished(Err(e)),
        },
        (DaemonStateView::Acquire, DaemonEventView::Acquired(r)) => match r {
            Ok(name) => DaemonStateView::Describe(name),
            Err(e) => DaemonStateView::ReleaseSingleton(Err(e)),
        },
        (DaemonStateView::Describe(name), DaemonEventView::Described(r)) => match r {
            Ok(status) => DaemonStateView::Publish(status, snapshot(plan, name)),
            Err(e) => DaemonStateView::ReleaseGuard(Err(e)),
        },
        (DaemonStateView::Publish(status, _), DaemonEventView::Published(r)) => match r {
            Ok(_) => DaemonStateView::RemovePending(status),
            Err(e) => DaemonStateView::ReleaseGuard(Err(e)),
        },
        (
            DaemonStateView::RemovePending(status),
            DaemonEventView::PendingRemoved,
        ) => DaemonStateView::Serve(status),
        (DaemonStateView::Serve(_), DaemonEventView::Served(r)) => DaemonStateView::RemoveState(r),
        (
            DaemonStateView::RemoveState(r),
            DaemonEventView::StateRemoved,
        ) => DaemonStateView::ReleaseGuard(r),
        (
            DaemonStateView::ReleaseGuard(r),
            DaemonEventView::GuardReleased,
        ) => DaemonStateView::ReleaseSingleton(r),
        (
            DaemonStateView::ReleaseSingleton(r),
            DaemonEventView::SingletonReleased,
        ) => DaemonStateView::Finished(r),
        (s, _) => s,
    }
}

/// A daemon and where it stands.
#[derive(Debug)]
pub struct Daemon {
    request: WakeRequest,
    started_unix: u64,
    pid: u32,
    state: DaemonState,
}

impl Daemon {
    /// What the daemon was started with.
    pub closed spec fn plan(&self) -> DaemonPlan {
        DaemonPlan {
            request: self.request@,
            started_unix: self.started_unix,
            pid: self.pid,
        }
    }

    /// Where the daemon stands.
    pub closed spec fn stands(&self) -> DaemonStateView {
        self.state@
    }

    /// The request that the wake lock is taken for.
    pub fn request(&self) -> (r: &WakeRequest)
        ensures
            r@ == self.plan().request,
    {
        &self.request
    }

    /// What is to be done next.
    pub fn state(&self) -> (r: &DaemonState)
        ensures
            r@ == self.stands(),
    {
        &self.state
    }

    /// Go on after an event.
    pub fn next(self, event: DaemonEvent) -> (r: Daemon)
        ensures
            r.plan() == self.plan(),
            r.stands() == daemon_next(self.plan(), self.stands(), event@),
    {
        let request = self.request;
        let started_unix: u64 = self.started_unix;
        let pid: u32 = self.pid;
        let state = match (self.state, event) {
            (DaemonState::Resolve, DaemonEvent::Resolved(r)) => match r {
                Ok(_) => DaemonState::Ping,
                Err(e) => DaemonState::Finished(Err(e)),
            },
            (DaemonState::Ping, DaemonEvent::Pinged(r)) => match r {
                Ok(reply) => if reply.ok {
                    DaemonState::Finished(Ok(()))
                } else {
                    DaemonState::Claim
                },
                Err(_) => DaemonState::Claim,
            },
            (DaemonState::Claim, DaemonEvent::Claimed(r)) => match r {
                Ok(ours) => if ours {
                    DaemonState::Acquire
                } else {
                    DaemonState::Finished(Ok(()))
                },
                Err(e) => DaemonState::Finished(Err(e)),
            },
            (DaemonState::Acquire, DaemonEvent::Acquired(r)) => match r {
                Ok(name) => DaemonState::Describe(name),
                Err(e) => DaemonState::ReleaseSingleton(Err(e)),
            },
            (DaemonState::Describe(name), DaemonEvent::Described(r)) => match r {
                Ok(status) => DaemonState::Publish(
                    status,
                    LockState {
                        pid,
                        backend: name.to_string(),
                        started_unix,
                        request: request.clone(),
                    },
                ),
                Err(e) => DaemonState::ReleaseGuard(Err(e)),
            },
            (DaemonState::Publish(status, _), DaemonEvent::Published(r)) => match r {
                Ok(_) => DaemonState::RemovePending(status),
                Err(e) => DaemonState::ReleaseGuard(Err(e)),
            },
            (DaemonState::RemovePending(status), DaemonEvent::PendingRemoved) => DaemonState::Serve(
                status,
            ),
            (DaemonState::Serve(_), DaemonEvent::Served(r)) => DaemonState::RemoveState(r),
            (DaemonState::RemoveState(r), DaemonEvent::StateRemoved) => DaemonState::ReleaseGuard(r),
            (
                DaemonState::ReleaseGuard(r),
                DaemonEvent::GuardReleased,
            ) => DaemonState::ReleaseSingleton(r),
            (
                DaemonState::ReleaseSingleton(r),
                DaemonEvent::SingletonReleased,
            ) => DaemonState::Finished(r),
            (s, _) => s,
        };
        Daemon { request, started_unix, pid, state }
    }
}

/// Start a daemon for a request in the process with the given id.
pub fn run_daemon(req: &WakeRequest, started_unix: u64, pid: u32) -> (r: Daemon)
    ensures
        r.plan() == (DaemonPlan { request: req@, started_unix, pid }),
        r.stands() == DaemonStateView::Resolve,
{
    Daemon { request: req.clone(), started_unix, pid, state: DaemonState::Resolve }
}

/// Whether a daemon holds the singleton lock.
pub open spec fn holds_singleton(s: DaemonStateView) -> bool {
    s is Acquire || holds_guard(s) || s is ReleaseSingleton
}

/// Whether a daemon holds the wake lock.
pub open spec fn holds_guard(s: DaemonStateView) -> bool {
    s is Describe || s is Publish || s is RemovePending || s is Serve || s is RemoveState
        || s is ReleaseGuard
}

/// The wake lock is held for as long as the daemon serves: a daemon that serves
/// holds it, keeps it until serving has ended and the snapshot is gone, and lets
/// go of it nowhere but in the step that releases it.
pub proof fn lock_is_held_while_serving(plan: DaemonPlan, s: DaemonStateView, event: DaemonEventView)
    ensures
        s is Serve ==> holds_guard(s) && holds_guard(daemon_next(plan, s, event)),
        holds_guard(s) && !holds_guard(daemon_next(plan, s, event)) ==> s is ReleaseGuard && event
            is GuardReleased,
        !holds_guard(s) && holds_guard(daemon_next(plan, s, event)) ==> s is Acquire,
        holds_guard(s) ==> holds_singleton(s),
        holds_singleton(s) && !holds_singleton(daemon_next(plan, s, event)) ==> s
            is ReleaseSingleton && event is SingletonReleased,
        s is Finished ==> !holds_guard(s) && !holds_singleton(s),
{
}

/// Whether a daemon's snapshot is in its place.
pub open spec fn published(s: DaemonStateView) -> bool {
    s is RemovePending || s is Serve || s is RemoveState
}

/// The snapshot tells the truth: it is put in place only after the wake lock was
/// taken, and a daemon that goes on deletes it before it releases the lock.
pub proof fn snapshot_lives_within_the_lock(
    plan: DaemonPlan,
    s: DaemonStateView,
    event: DaemonEventView,
)
    ensures
        published(s) ==> holds_guard(s),
        !published(s) && published(daemon_next(plan, s, event)) ==> s is Publish && event
            is Published && event->Published_0 is Ok,
        published(s) && !published(daemon_next(plan, s, event)) ==> s is RemoveState && event
            is StateRemoved,
        s is ReleaseGuard || s is Finished ==> !published(s),
{
}

/// A daemon that finds another one declines: it ends well and never takes the
/// wake lock.
pub proof fn second_daemon_declines(plan: DaemonPlan, reply: DaemonReplyView)
    requires
        reply.ok,
    ensures
        daemon_next(plan, DaemonStateView::Ping, DaemonEventView::Pinged(Ok(reply)))
            == DaemonStateView::Finished(Ok(())),
        daemon_next(plan, DaemonStateView::Claim, DaemonEventView::Claimed(Ok(false)))
            == DaemonStateView::Finished(Ok(())),
{
}

/// Where a daemon stands after a run of events.
pub open spec fn daemon_after(plan: DaemonPlan, events: Seq<DaemonEventView>) -> DaemonStateView
    decreases events.len(),
{
    if events.len() == 0 {
        DaemonStateView::Resolve
    } else {
        daemon_next(plan, daemon_after(plan, events.drop_last()), events.last())
    }
}

/// What holds of a daemon after every run of events: a published snapshot names
/// the daemon's own process, request and start time; and a daemon which serves
/// has taken the lock, learnt its status and published its snapshot.
pub proof fn what_is_served_was_acquired(plan: DaemonPlan, events: Seq<DaemonEventView>)
    ensures
        match daemon_after(plan, events) {
            DaemonStateView::Describe(name) => events.contains(DaemonEventView::Acquired(Ok(name))),
            DaemonStateView::Publish(status, lock) => {
                &&& events.contains(DaemonEventView::Described(Ok(status)))
                &&& events.contains(DaemonEventView::Acquired(Ok(lock.backend)))
                &&& lock == snapshot(plan, lock.backend)
            },
            DaemonStateView::RemovePending(status) => events.contains(
                DaemonEventView::Described(Ok(status)),
            ),
            DaemonStateView::Serve(status) => events.contains(
                DaemonEventView::Described(Ok(status)),
            ),
            _ => true,
        },
    decreases events.len(),
{
    if events.len() > 0 {
        let before = events.drop_last();
        what_is_served_was_acquired(plan, before);
        assert(events[events.len() - 1] == events.last());
        assert forall|e: DaemonEventView| before.contains(e) implies events.contains(e) by {
            let i = choose|i: int| 0 <= i < before.len() && before[i] == e;
            assert(events[i] == e);
        }
    }
}

/// Stopping ends a daemon in order: the snapshot goes, then the wake lock, then
/// the singleton lock, and the result of serving is the daemon's result.
pub proof fn shutdown_is_orderly(
    plan: DaemonPlan,
    status: WakeStatusView,
    served: core::result::Result<(), ErrorView>,
)
    ensures
        ({
            let s1 = daemon_next(
                plan,
                DaemonStateView::Serve(status),
                DaemonEventView::Served(served),
            );
            let s2 = daemon_next(plan, s1, DaemonEventView::StateRemoved);
            let s3 = daemon_next(plan, s2, DaemonEventView::GuardReleased);
            let s4 = daemon_next(plan, s3, DaemonEventView::SingletonReleased);
            &&& s1 is RemoveState && holds_guard(s1)
            &&& s2 is ReleaseGuard && holds_guard(s2)
            &&& !holds_guard(s3) && holds_singleton(s3)
            &&& s4 == DaemonStateView::Finished(served)
        }),
{
}

} // verus!
