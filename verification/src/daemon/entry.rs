//! The entry point of the daemon process.

use crate::backend::{best, no_backend, pick, AnyBackend, Build};
use crate::daemon::client::{
    failed_to_start, start_next, the_real_reason_is_reported, StartEventView, StartView,
};
use crate::daemon::{
    daemon_next, DaemonEventView, DaemonPlan, DaemonStateView, PendingRequest, PendingRequestView,
};
use crate::error::{error_text, ErrorView, OxiwakeError, Result};
use crate::platform::outcome;
use crate::text::trimmed;
use vstd::prelude::*;
use vstd::string::*;

verus! {

/// Where the daemon process stands: what the program is to do next.
#[derive(Debug)]
pub enum MainState {
    /// Locate the runtime files.
    Resolve,
    /// Delete the reason that an earlier daemon left.
    ClearError,
    /// Read the hand-off file.
    ReadPending,
    /// Run the daemon with this backend for this request.
    Run(AnyBackend, PendingRequest),
    /// Delete the hand-off file, if it is still there.
    RemovePending,
    /// Leave the reason of this failure for the process that spawned the daemon.
    WriteError(OxiwakeError),
    /// Nothing: the process ends.
    Finished(Result<()>),
}

/// What a [`MainState`] says.
#[verifier::ext_equal]
pub enum MainStateView {
    Resolve,
    ClearError,
    ReadPending,
    Run(AnyBackend, PendingRequestView),
    RemovePending,
    WriteError(ErrorView),
    Finished(core::result::Result<(), ErrorView>),
}

impl View for MainState {
    type V = MainStateView;

    open spec fn view(&self) -> MainStateView {
        match *self {
            MainState::Resolve => MainStateView::Resolve,
            MainState::ClearError => MainStateView::ClearError,
            MainState::ReadPending => MainStateView::ReadPending,
            MainState::Run(b, p) => MainStateView::Run(b, p@),
            MainState::RemovePending => MainStateView::RemovePending,
            MainState::WriteError(e) => MainStateView::WriteError(e@),
            MainState::Finished(r) => MainStateView::Finished(outcome(r)),
        }
    }
}

/// What the program reports after doing what [`MainState`] says.
#[derive(Debug)]
pub enum MainEvent {
    /// What locating the files came to.
    Resolved(Result<()>),
    /// The deletion was tried.
    ErrorCleared,
    /// What reading the hand-off file came to.
    PendingRead(Result<Option<PendingRequest>>),
    /// What running the daemon came to.
    Ran(Result<()>),
    /// The deletion was tried.
    PendingRemoved,
    /// The writing was tried.
    ErrorWritten,
}

/// What a [`MainEvent`] says.
#[verifier::ext_equal]
pub enum MainEventView {
    Resolved(core::result::Result<(), ErrorView>),
    ErrorCleared,
    PendingRead(core::result::Result<Option<PendingRequestView>, ErrorView>),
    Ran(core::result::Result<(), ErrorView>),
    PendingRemoved,
    ErrorWritten,
}

impl View for MainEvent {
    type V = MainEventView;

    open spec fn view(&self) -> MainEventView {
        match *self {
            MainEvent::Resolved(r) => MainEventView::Resolved(outcome(r)),
            MainEvent::ErrorCleared => MainEventView::ErrorCleared,
            MainEvent::PendingRead(r) => MainEventView::PendingRead(
                match r {
                    Ok(Some(p)) => Ok(Some(p@)),
                    Ok(None) => Ok(None),
                    Err(e) => Err(e@),
                },
            ),
            MainEvent::Ran(r) => MainEventView::Ran(outcome(r)),
            MainEvent::PendingRemoved => MainEventView::PendingRemoved,
            MainEvent::ErrorWritten => MainEventView::ErrorWritten,
        }
    }
}

/// The error of a daemon that was handed nothing.
pub open spec fn nothing_pending() -> ErrorView {
    ErrorView::State("no pending request found for daemon"@)
}

/// The next step of the daemon process. An event that does not answer the
/// current step changes nothing.
///
/// Once the runtime files are located, every failure leaves its reason for the
/// process that spawned the daemon.
pub open spec fn main_next(build: Build, s: MainStateView, event: MainEventView) -> MainStateView {
    match (s, event) {
        (MainStateView::Resolve, MainEventView::Resolved(r)) => match r {
            Ok(_) => MainStateView::ClearError,
            Err(e) => MainStateView::Finished(Err(e)),
        },
        (MainStateView::ClearError, MainEventView::ErrorCleared) => MainStateView::ReadPending,
        (MainStateView::ReadPending, MainEventView::PendingRead(r)) => match r {
            Ok(Some(p)) => match best(build) {
                Some(b) => MainStateView::Run(b, p),
                None => MainStateView::WriteError(no_backend()),
            },
            Ok(None) => MainStateView::WriteError(nothing_pending()),
            Err(e) => MainStateView::WriteError(e),
        },
        (MainStateView::Run(_, _), MainEventView::Ran(r)) => match r {
            Ok(_) => MainStateView::RemovePending,
            Err(e) => MainStateView::WriteError(e),
        },
        (MainStateView::RemovePending, MainEventView::PendingRemoved) => MainStateView::Finished(
            Ok(()),
        ),
        (MainStateView::WriteError(e), MainEventView::ErrorWritten) => MainStateView::Finished(
            Err(e),
        ),
        (s, _) => s,
    }
}

/// Start the daemon process.
pub fn daemon_main() -> (r: MainState)
    ensures
        r@ == MainStateView::Resolve,
{
    MainState::Resolve
}

impl MainState {
    /// Go on after an event, in a program built like this.
    pub fn next(self, build: Build, event: MainEvent) -> (r: MainState)
        ensures
            r@ == main_next(build, self@, event@),
            r is Run && !(self is Run) ==> event == MainEvent::PendingRead(
                Ok(Some(r->Run_1)),
            ),
    {
        match (self, event) {
            (MainState::Resolve, MainEvent::Resolved(r)) => match r {
                Ok(_) => MainState::ClearError,
                Err(e) => MainState::Finished(Err(e)),
            },
            (MainState::ClearError, MainEvent::ErrorCleared) => MainState::ReadPending,
            (MainState::ReadPending, MainEvent::PendingRead(r)) => match r {
                Ok(Some(p)) => match pick(&p.request, build) {
                    Ok(b) => MainState::Run(b, p),
                    Err(e) => MainState::WriteError(e),
                },
                Ok(None) => MainState::WriteError(
                    OxiwakeError::State("no pending request found for daemon".to_string()),
                ),
                Err(e) => MainState::WriteError(e),
            },
            (MainState::Run(_, _), MainEvent::Ran(r)) => match r {
                Ok(_) => MainState::RemovePending,
                Err(e) => MainState::WriteError(e),
            },
            (MainState::RemovePending, MainEvent::PendingRemoved) => MainState::Finished(Ok(())),
            (MainState::WriteError(e), MainEvent::ErrorWritten) => MainState::Finished(Err(e)),
            (s, _) => s,
        }
    }

    /// The text to leave in the startup-error file, in the step that leaves it.
    pub fn startup_error(&self) -> (r: Option<String>)
        ensures
            match self@ {
                MainStateView::WriteError(e) => r is Some && r->Some_0@ == error_text(e),
                _ => r is None,
            },
    {
        match self {
            MainState::WriteError(e) => Some(e.message()),
            _ => None,
        }
    }
}

/// A daemon that fails after the runtime files were located says why: the reason
/// is left before the process ends, and it is the reason the process ends with.
pub proof fn failures_are_reported(build: Build, s: MainStateView, event: MainEventView)
    requires
        !(s is Resolve),
        !(s is Finished),
        main_next(build, s, event) is Finished,
        main_next(build, s, event)->Finished_0 is Err,
    ensures
        s is WriteError,
        event is ErrorWritten,
        main_next(build, s, event)->Finished_0 == Err::<(), ErrorView>(s->WriteError_0),
{
}

/// A refused lock reaches the user. Where the backend fails, the daemon gives the
/// singleton lock up and ends with that error; its process leaves the error's
/// wording behind; and the client that waits for the daemon fails with that
/// wording at its next look, without waiting for its time to run out. Only a
/// wording that is blank cannot be told.
pub proof fn a_refused_lock_reaches_the_user(
    plan: DaemonPlan,
    build: Build,
    backend: AnyBackend,
    pending: PendingRequestView,
    e: ErrorView,
)
    requires
        e is Other ==> trimmed(error_text(e)).len() > 0,
    ensures
        ({
            let refused = daemon_next(
                plan,
                DaemonStateView::Acquire,
                DaemonEventView::Acquired(Err(e)),
            );
            let ended = daemon_next(plan, refused, DaemonEventView::SingletonReleased);
            let left = main_next(
                build,
                MainStateView::Run(backend, pending),
                MainEventView::Ran(Err(e)),
            );
            let told = start_next(
                StartView::PollReason,
                StartEventView::Reason(Some(error_text(e))),
            );
            &&& refused == DaemonStateView::ReleaseSingleton(Err(e))
            &&& ended == DaemonStateView::Finished(Err(e))
            &&& left == MainStateView::WriteError(e)
            &&& start_next(told, StartEventView::PendingRemoved) == StartView::Finished(
                Err(failed_to_start(error_text(e))),
            )
        }),
{
    the_real_reason_is_reported(e);
}

/// The hand-off file never lingers after a daemon that ended well.
pub proof fn hand_off_is_removed_on_success(build: Build, s: MainStateView, event: MainEventView)
    requires
        !(s is Finished),
        main_next(build, s, event) is Finished,
        main_next(build, s, event)->Finished_0 is Ok,
    ensures
        s is RemovePending,
        event is PendingRemoved,
{
}

} // verus!
