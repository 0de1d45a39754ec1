//! Running the daemon, starting it and stopping it.

use crate::backend::{best, best_is_strongest, compiled, rank, AnyBackend, Build};
use crate::daemon::client::{
    start_next, startup_reason, stop_next, StartEventView, StartView, Stop, StopEvent,
};
use crate::daemon::entry::{main_next, MainEventView, MainStateView};
use crate::daemon::{daemon_next, DaemonEventView, DaemonPlan, DaemonStateView, PendingRequestView};
use crate::error::{ErrorView, OxiwakeError};
use crate::ipc::{DaemonReply, DaemonReplyView};
use crate::laws::text::trimming_takes_white_space_off_the_ends;
use crate::model::WakeStatusView;
use crate::state::LockStateView;
use crate::text::{trimmed, visible_text_survives_trimming, white};
use vstd::prelude::*;

verus! {

// ---------------------------------------------------------------------------
// The daemon process
// ---------------------------------------------------------------------------

/// Where the daemon process stands after a run of events.
pub open spec fn main_after(build: Build, events: Seq<MainEventView>) -> MainStateView
    decreases events.len(),
{
    if events.len() == 0 {
        MainStateView::Resolve
    } else {
        main_next(build, main_after(build, events.drop_last()), events.last())
    }
}

/// What the daemon runs for is what was handed over. Whatever the build and the
/// request: a process that runs a daemon has read this very request, with its
/// targets, reason, display, lid and start time, and runs it with a backend of
/// the build than which the build has none stronger.
pub proof fn the_daemon_runs_what_was_handed_over(build: Build, events: Seq<MainEventView>)
    ensures
        match main_after(build, events) {
            MainStateView::Run(b, q) => {
                &&& events.contains(MainEventView::PendingRead(Ok(Some(q))))
                &&& compiled(build, b)
                &&& forall|other: AnyBackend| #[trigger]
                    compiled(build, other) ==> rank(b) <= rank(other)
            },
            _ => true,
        },
    decreases events.len(),
{
    if events.len() > 0 {
        let before = events.drop_last();
        the_daemon_runs_what_was_handed_over(build, before);
        assert(events[events.len() - 1] == events.last());
        assert forall|e: MainEventView| before.contains(e) implies events.contains(e) by {
            let i = choose|i: int| 0 <= i < before.len() && before[i] == e;
            assert(events[i] == e);
        }
        best_is_strongest(build);
    }
}

/// A request that was handed over is taken up: in every build that has a backend,
/// reading it makes the process run a daemon for it, with all of it.
pub proof fn a_request_is_taken_up(build: Build, b: AnyBackend, p: PendingRequestView)
    requires
        compiled(build, b),
    ensures
        ({
            let s = main_next(
                build,
                MainStateView::ReadPending,
                MainEventView::PendingRead(Ok(Some(p))),
            );
            &&& s is Run
            &&& s->Run_1.request.targets == p.request.targets
            &&& s->Run_1.request.reason == p.request.reason
            &&& s->Run_1.request.display == p.request.display
            &&& s->Run_1.request.aggressive_lid == p.request.aggressive_lid
            &&& s->Run_1.started_unix == p.started_unix
            &&& rank(s->Run_0) <= rank(b)
        }),
{
    best_is_strongest(build);
    assert(compiled(build, b));
}

/// The process goes from step to step without detours, and every failure after
/// the files were located is left behind as it is before the process ends with
/// it.
pub proof fn the_process_goes_step_by_step(
    build: Build,
    b: AnyBackend,
    p: PendingRequestView,
    e: ErrorView,
)
    ensures
        main_next(build, MainStateView::Resolve, MainEventView::Resolved(Ok(())))
            is ClearError,
        main_next(build, MainStateView::Resolve, MainEventView::Resolved(Err(e)))
            == MainStateView::Finished(Err(e)),
        main_next(build, MainStateView::ClearError, MainEventView::ErrorCleared) is ReadPending,
        main_next(build, MainStateView::ReadPending, MainEventView::PendingRead(Err(e)))
            == MainStateView::WriteError(e),
        main_next(build, MainStateView::ReadPending, MainEventView::PendingRead(Ok(None)))
            == MainStateView::WriteError(
            ErrorView::State("no pending request found for daemon"@),
        ),
        main_next(build, MainStateView::Run(b, p), MainEventView::Ran(Ok(()))) is RemovePending,
        main_next(build, MainStateView::Run(b, p), MainEventView::Ran(Err(e)))
            == MainStateView::WriteError(e),
        main_next(build, MainStateView::RemovePending, MainEventView::PendingRemoved) is Finished,
        main_next(build, MainStateView::RemovePending, MainEventView::PendingRemoved)->Finished_0
            is Ok,
        main_next(build, MainStateView::WriteError(e), MainEventView::ErrorWritten)
            == MainStateView::Finished(Err(e)),
        (forall|x: AnyBackend| !#[trigger] compiled(build, x)) ==> main_next(
            build,
            MainStateView::ReadPending,
            MainEventView::PendingRead(Ok(Some(p))),
        ) == MainStateView::WriteError(
            ErrorView::BackendUnavailable {
                backend: "none"@,
                reason: "no wake backend is compiled into this build (see `ow doctor`)"@,
            },
        ),
{
    best_is_strongest(build);
    if forall|x: AnyBackend| !#[trigger] compiled(build, x) {
        if let Some(x) = best(build) {
            assert(compiled(build, x));
        }
    }
}

/// Whether an event answers what the daemon process is doing.
pub open spec fn main_awaits(s: MainStateView, event: MainEventView) -> bool {
    ||| s is Resolve && event is Resolved
    ||| s is ClearError && event is ErrorCleared
    ||| s is ReadPending && event is PendingRead
    ||| s is Run && event is Ran
    ||| s is RemovePending && event is PendingRemoved
    ||| s is WriteError && event is ErrorWritten
}

/// The process moves on exactly when what it is doing is answered.
pub proof fn the_process_moves_only_when_answered(
    build: Build,
    s: MainStateView,
    event: MainEventView,
)
    ensures
        main_awaits(s, event) <==> main_next(build, s, event) != s,
{
}

// ---------------------------------------------------------------------------
// The life of a daemon
// ---------------------------------------------------------------------------

/// A daemon that finds no other one takes the lock, learns its status, publishes
/// a snapshot of it, deletes the hand-off file, serves with that status until
/// serving ends, and then deletes the snapshot, releases the lock and gives the
/// singleton lock up, in this order. The snapshot names its process, its start
/// time, its whole request and the backend that granted the lock; and what
/// serving came to is what the daemon ends with.
pub proof fn a_daemon_lives_its_life(
    plan: DaemonPlan,
    asked: core::result::Result<DaemonReplyView, ErrorView>,
    backend: Seq<char>,
    status: WakeStatusView,
    served: core::result::Result<(), ErrorView>,
)
    requires
        asked is Ok ==> !asked->Ok_0.ok,
    ensures
        ({
            let s1 = daemon_next(plan, DaemonStateView::Resolve, DaemonEventView::Resolved(Ok(())));
            let s2 = daemon_next(plan, s1, DaemonEventView::Pinged(asked));
            let s3 = daemon_next(plan, s2, DaemonEventView::Claimed(Ok(true)));
            let s4 = daemon_next(plan, s3, DaemonEventView::Acquired(Ok(backend)));
            let s5 = daemon_next(plan, s4, DaemonEventView::Described(Ok(status)));
            let s6 = daemon_next(plan, s5, DaemonEventView::Published(Ok(())));
            let s7 = daemon_next(plan, s6, DaemonEventView::PendingRemoved);
            let s8 = daemon_next(plan, s7, DaemonEventView::Served(served));
            let s9 = daemon_next(plan, s8, DaemonEventView::StateRemoved);
            let s10 = daemon_next(plan, s9, DaemonEventView::GuardReleased);
            let s11 = daemon_next(plan, s10, DaemonEventView::SingletonReleased);
            &&& s1 is Ping
            &&& s2 is Claim
            &&& s3 is Acquire
            &&& s4 is Describe
            &&& s5 is Publish
            &&& s5->Publish_0 == status
            &&& s5->Publish_1 == (LockStateView {
                pid: plan.pid,
                backend,
                started_unix: plan.started_unix,
                request: plan.request,
            })
            &&& s6 is RemovePending
            &&& s7 is Serve && s7->Serve_0 == status
            &&& s8 is RemoveState
            &&& s9 is ReleaseGuard
            &&& s10 is ReleaseSingleton
            &&& s11 == DaemonStateView::Finished(served)
        }),
{
}

/// Whatever fails, the daemon ends with that failure, and on the way it releases
/// what it has taken and nothing else: nothing before the singleton lock was
/// claimed, that lock alone before the wake lock was taken, and both after that.
pub proof fn a_failing_daemon_ends_with_its_failure(
    plan: DaemonPlan,
    backend: Seq<char>,
    status: WakeStatusView,
    lock: LockStateView,
    e: ErrorView,
)
    ensures
        daemon_next(plan, DaemonStateView::Resolve, DaemonEventView::Resolved(Err(e)))
            == DaemonStateView::Finished(Err(e)),
        daemon_next(plan, DaemonStateView::Claim, DaemonEventView::Claimed(Err(e)))
            == DaemonStateView::Finished(Err(e)),
        daemon_next(plan, DaemonStateView::Acquire, DaemonEventView::Acquired(Err(e)))
            == DaemonStateView::ReleaseSingleton(Err(e)),
        daemon_next(plan, DaemonStateView::Describe(backend), DaemonEventView::Described(Err(e)))
            == DaemonStateView::ReleaseGuard(Err(e)),
        daemon_next(
            plan,
            DaemonStateView::Publish(status, lock),
            DaemonEventView::Published(Err(e)),
        ) == DaemonStateView::ReleaseGuard(Err(e)),
        daemon_next(plan, DaemonStateView::ReleaseGuard(Err(e)), DaemonEventView::GuardReleased)
            == DaemonStateView::ReleaseSingleton(Err(e)),
        daemon_next(
            plan,
            DaemonStateView::ReleaseSingleton(Err(e)),
            DaemonEventView::SingletonReleased,
        ) == DaemonStateView::Finished(Err(e)),
{
}

/// A daemon declines exactly if another one answers fine or holds the singleton
/// lock. A failed question and a refusing answer do not make it decline.
pub proof fn a_daemon_declines_only_beside_another(
    plan: DaemonPlan,
    asked: core::result::Result<DaemonReplyView, ErrorView>,
    ours: bool,
)
    ensures
        ({
            let s = daemon_next(plan, DaemonStateView::Ping, DaemonEventView::Pinged(asked));
            &&& asked is Ok && asked->Ok_0.ok ==> s is Finished && s->Finished_0 is Ok
            &&& !(asked is Ok && asked->Ok_0.ok) ==> s is Claim
        }),
        ({
            let s = daemon_next(plan, DaemonStateView::Claim, DaemonEventView::Claimed(Ok(ours)));
            &&& ours ==> s is Acquire
            &&& !ours ==> s is Finished && s->Finished_0 is Ok
        }),
{
}

/// Whether an event answers what a daemon is doing.
pub open spec fn daemon_awaits(s: DaemonStateView, event: DaemonEventView) -> bool {
    ||| s is Resolve && event is Resolved
    ||| s is Ping && event is Pinged
    ||| s is Claim && event is Claimed
    ||| s is Acquire && event is Acquired
    ||| s is Describe && event is Described
    ||| s is Publish && event is Published
    ||| s is RemovePending && event is PendingRemoved
    ||| s is Serve && event is Served
    ||| s is RemoveState && event is StateRemoved
    ||| s is ReleaseGuard && event is GuardReleased
    ||| s is ReleaseSingleton && event is SingletonReleased
}

/// A daemon moves on exactly when what it is doing is answered.
pub proof fn a_daemon_moves_only_when_answered(
    plan: DaemonPlan,
    s: DaemonStateView,
    event: DaemonEventView,
)
    ensures
        daemon_awaits(s, event) <==> daemon_next(plan, s, event) != s,
{
}

// ---------------------------------------------------------------------------
// Starting
// ---------------------------------------------------------------------------

/// Whether a text holds nothing but white space.
pub open spec fn blank(t: Seq<char>) -> bool {
    forall|i: int| 0 <= i < t.len() ==> white(#[trigger] t[i])
}

/// A reason counts unless it is blank, and then it is the whole text that was
/// left.
pub proof fn only_blank_reasons_do_not_count(t: Seq<char>)
    ensures
        startup_reason(None) is None,
        blank(t) ==> startup_reason(Some(t)) is None,
        !blank(t) ==> startup_reason(Some(t)) == Some(t),
{
    if blank(t) {
        trimming_takes_white_space_off_the_ends(t);
        let (from, to) = choose|from: int, to: int|
            #![trigger t.subrange(from, to)]
            {
                &&& 0 <= from <= to <= t.len()
                &&& trimmed(t) == t.subrange(from, to)
                &&& forall|i: int| 0 <= i < from ==> white(#[trigger] t[i])
                &&& forall|i: int| to <= i < t.len() ==> white(#[trigger] t[i])
            };
        if trimmed(t).len() > 0 {
            assert(t.subrange(from, to)[0] == t[from]);
        }
    } else {
        let i = choose|i: int| 0 <= i < t.len() && !white(#[trigger] t[i]);
        visible_text_survives_trimming(t, i);
    }
}

/// A fresh daemon is given two seconds, all of them, and no more: before they are
/// up the client sleeps and looks again, and from then on it gives up, saying
/// that the daemon did not come up.
pub proof fn a_fresh_daemon_is_given_two_seconds(ms: u64)
    ensures
        ms < 2000 ==> start_next(StartView::PollClock, StartEventView::Clock(ms)) is Sleep,
        ms >= 2000 ==> start_next(StartView::PollClock, StartEventView::Clock(ms))
            == StartView::RemovePending(
            ErrorView::Other(
                "spawned oxiwake daemon but it did not come up within 2s (check `ow doctor` and that a backend can acquire the lock)"@,
            ),
        ),
        start_next(StartView::Sleep, StartEventView::Slept) is PollRead,
{
}

/// Giving up on a fresh daemon always has one of two grounds: its time was up, or
/// it left a reason, which is then what the client fails with.
pub proof fn giving_up_has_a_ground(s: StartView, event: StartEventView)
    requires
        !(s is RemovePending),
        start_next(s, event) is RemovePending,
    ensures
        ({
            ||| s is PollClock && event is Clock && event->Clock_0 >= 2000
            ||| {
                &&& s is PollReason && event is Reason && event->Reason_0 is Some
                &&& !blank(event->Reason_0->Some_0)
                &&& start_next(s, event)->RemovePending_0 == ErrorView::Other(
                    "oxiwake daemon failed to start: "@ + event->Reason_0->Some_0,
                )
            }
        }),
{
    if let StartEventView::Reason(Some(t)) = event {
        only_blank_reasons_do_not_count(t);
    }
}

/// A start without a daemon goes its way: after the question has brought no
/// status, a stale reason is deleted, the request handed over, a process spawned,
/// and that process looked at.
pub proof fn a_start_goes_its_way(
    asked: core::result::Result<DaemonReplyView, ErrorView>,
    e: ErrorView,
)
    requires
        asked is Ok ==> asked->Ok_0.status is None,
    ensures
        ({
            let s1 = start_next(StartView::Resolve, StartEventView::Resolved(Ok(())));
            let s2 = start_next(s1, StartEventView::Pinged(asked));
            let s3 = start_next(s2, StartEventView::Cleared);
            let s4 = start_next(s3, StartEventView::PendingWritten(Ok(())));
            let s5 = start_next(s4, StartEventView::Spawned(Ok(())));
            &&& s1 is FirstPing
            &&& s2 is ClearStale
            &&& s3 is WritePending
            &&& s4 is Spawn
            &&& s5 is PollRead
            &&& start_next(StartView::Resolve, StartEventView::Resolved(Err(e)))
                == StartView::Finished(Err(e))
            &&& start_next(s3, StartEventView::PendingWritten(Err(e))) == StartView::Finished(
                Err(e),
            )
            &&& start_next(s4, StartEventView::Spawned(Err(e))) == StartView::Finished(Err(e))
            &&& start_next(s5, StartEventView::StateRead(Err(e))) == StartView::Finished(Err(e))
        }),
{
}

/// A fresh daemon is up once its snapshot is there and it answers fine with its
/// status; that status is what starting gives. Until then every look ends at the
/// clock, unless the daemon left a reason.
pub proof fn a_daemon_that_answers_is_up(d: DaemonReplyView, e: ErrorView, t: Seq<char>)
    ensures
        start_next(StartView::PollRead, StartEventView::StateRead(Ok(true))) is PollPing,
        start_next(StartView::PollRead, StartEventView::StateRead(Ok(false))) is PollReason,
        d.ok && d.status is Some ==> {
            let up = start_next(StartView::PollPing, StartEventView::Pinged(Ok(d)));
            start_next(up, StartEventView::Cleared) == StartView::Finished(Ok(d.status->Some_0))
        },
        !(d.ok && d.status is Some) ==> start_next(
            StartView::PollPing,
            StartEventView::Pinged(Ok(d)),
        ) is PollReason,
        start_next(StartView::PollPing, StartEventView::Pinged(Err(e))) is PollReason,
        start_next(StartView::PollReason, StartEventView::Reason(None)) is PollClock,
        blank(t) ==> start_next(StartView::PollReason, StartEventView::Reason(Some(t)))
            is PollClock,
        !blank(t) ==> start_next(StartView::PollReason, StartEventView::Reason(Some(t)))
            == StartView::RemovePending(
            ErrorView::Other("oxiwake daemon failed to start: "@ + t),
        ),
        start_next(StartView::RemovePending(e), StartEventView::PendingRemoved)
            == StartView::Finished(Err(e)),
{
    only_blank_reasons_do_not_count(t);
}

/// Whether an event answers what a start is doing.
pub open spec fn start_awaits(s: StartView, event: StartEventView) -> bool {
    ||| s is Resolve && event is Resolved
    ||| s is FirstPing && event is Pinged
    ||| s is ClearStale && event is Cleared
    ||| s is WritePending && event is PendingWritten
    ||| s is Spawn && event is Spawned
    ||| s is PollRead && event is StateRead
    ||| s is PollPing && event is Pinged
    ||| s is PollReason && event is Reason
    ||| s is PollClock && event is Clock
    ||| s is Sleep && event is Slept
    ||| s is ClearSuccess && event is Cleared
    ||| s is RemovePending && event is PendingRemoved
}

/// A start moves on exactly when what it is doing is answered.
pub proof fn a_start_moves_only_when_answered(s: StartView, event: StartEventView)
    ensures
        start_awaits(s, event) <==> start_next(s, event) != s,
{
}

// ---------------------------------------------------------------------------
// Stopping
// ---------------------------------------------------------------------------

/// Stopping succeeds whether the daemon replied or nobody was there, after a
/// left-over snapshot was deleted where that is possible. Any other failure to
/// ask is what stopping ends with.
pub proof fn stopping_stops(reply: DaemonReply, e: OxiwakeError, later: StopEvent)
    ensures
        stop_next(Stop::Send, StopEvent::Replied(Ok(reply))) is Resolve,
        e is NotRunning ==> stop_next(Stop::Send, StopEvent::Replied(Err(e))) is Resolve,
        !(e is NotRunning) ==> stop_next(Stop::Send, StopEvent::Replied(Err(e))) == Stop::Finished(
            Err(e),
        ),
        stop_next(Stop::Resolve, StopEvent::Resolved(Ok(()))) is RemoveState,
        stop_next(Stop::Resolve, StopEvent::Resolved(Err(e))) is Finished,
        stop_next(Stop::Resolve, StopEvent::Resolved(Err(e)))->Finished_0 is Ok,
        stop_next(Stop::RemoveState, StopEvent::StateRemoved) is Finished,
        stop_next(Stop::RemoveState, StopEvent::StateRemoved)->Finished_0 is Ok,
        !(later is Replied) ==> stop_next(Stop::Send, later) is Send,
        !(later is Resolved) ==> stop_next(Stop::Resolve, later) is Resolve,
        !(later is StateRemoved) ==> stop_next(Stop::RemoveState, later) is RemoveState,
{
}

} // verus!
