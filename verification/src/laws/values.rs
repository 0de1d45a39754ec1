//! What a value says is all of it: no field of it is left out, and none is taken
//! for another.

use crate::backend::AnyBackend;
use crate::backend::logind::InhibitCall;
use crate::backend::windows::{PowerRequestHandle, RequestStep, RequestStepView, RequestType};
use crate::cli::state_view;
use crate::daemon::client::{Start, StartEvent, StartEventView, StartView};
use crate::daemon::entry::{MainEvent, MainEventView, MainState, MainStateView};
use crate::daemon::{
    reply_outcome, status_outcome, DaemonEvent, DaemonEventView, DaemonState, DaemonStateView,
    PendingRequest,
};
use crate::doctor::{reports, text_opt, DoctorOutput};
use crate::error::{ErrorView, IoError, OxiwakeError, Result};
use crate::ipc::DaemonReply;
use crate::json::{members, JsonValue, JsonValueView};
use crate::model::{
    default_linux_request, default_windows_request, first_occurrences,
    first_occurrences_keeps_each_once, logind_what_text, requested_tokens, target_tokens, token_of,
    DoctorReport, WakeRequest, WakeRequestView, WakeStatus, WakeTarget,
};
use crate::output::note_text;
use crate::paths::{bytes_opt, Paths};
use crate::platform::outcome;
use crate::state::LockState;
use crate::text::{joined, pairs, texts};
use vstd::prelude::*;

verus! {

// ---------------------------------------------------------------------------
// Requests
// ---------------------------------------------------------------------------

/// A request says its targets, its reason, and whether the display and the lid
/// belong to it.
pub proof fn a_request_says_all_of_it(r: WakeRequest)
    ensures
        r@.targets == r.targets@,
        r@.reason == r.reason@,
        r@.display == r.display,
        r@.aggressive_lid == r.aggressive_lid,
{
}

/// The default requests: sleep on every platform, idle only on Linux, and neither
/// display nor lid.
pub proof fn the_defaults_ask_for_no_more_than_needed()
    ensures
        default_linux_request().targets =~= seq![WakeTarget::SystemSleep, WakeTarget::Idle],
        default_windows_request().targets =~= seq![WakeTarget::SystemSleep],
        default_linux_request().reason == "Oxiwake wake lock enabled"@,
        default_windows_request().reason == "Oxiwake wake lock enabled"@,
        !default_linux_request().display && !default_linux_request().aggressive_lid,
        !default_windows_request().display && !default_windows_request().aggressive_lid,
{
}

/// Each target has logind's own token, and the display has none.
pub proof fn tokens_are_those_of_logind(t: WakeTarget)
    ensures
        t == WakeTarget::SystemSleep ==> token_of(t) == Some("sleep"@),
        t == WakeTarget::Idle ==> token_of(t) == Some("idle"@),
        t == WakeTarget::LidSwitch ==> token_of(t) == Some("handle-lid-switch"@),
        t == WakeTarget::Shutdown ==> token_of(t) == Some("shutdown"@),
        t == WakeTarget::Display ==> token_of(t) is None,
{
}

/// A request asks logind for the tokens of its targets in order, and for the lid
/// switch last if it wants the lid. A token that was asked for already is not
/// asked for again, and each new one follows a colon.
pub proof fn each_token_is_asked_for_once(
    req: WakeRequestView,
    more: WakeRequestView,
    targets: Seq<WakeTarget>,
    t: WakeTarget,
    tokens: Seq<Seq<char>>,
    tok: Seq<char>,
)
    ensures
        target_tokens(Seq::empty()).len() == 0,
        token_of(t) is None ==> target_tokens(targets.push(t)) == target_tokens(targets),
        token_of(t) is Some ==> target_tokens(targets.push(t)) == target_tokens(targets).push(
            token_of(t)->Some_0,
        ),
        !req.aggressive_lid ==> requested_tokens(req) == target_tokens(req.targets),
        req.aggressive_lid ==> requested_tokens(req) == target_tokens(req.targets).push(
            "handle-lid-switch"@,
        ),
        first_occurrences(Seq::empty()).len() == 0,
        tokens.contains(tok) ==> first_occurrences(tokens.push(tok)) == first_occurrences(tokens),
        !tokens.contains(tok) ==> first_occurrences(tokens.push(tok)) == first_occurrences(
            tokens,
        ).push(tok),
        logind_what_text(req) == joined(first_occurrences(requested_tokens(req)), ":"@),
        req.targets == more.targets && req.aggressive_lid == more.aggressive_lid
            ==> logind_what_text(req) == logind_what_text(more),
{
    assert(targets.push(t).drop_last() =~= targets);
    assert(tokens.push(tok).drop_last() =~= tokens);
    first_occurrences_keeps_each_once(tokens);
}

// ---------------------------------------------------------------------------
// Plain values
// ---------------------------------------------------------------------------

/// A status says its backend, its targets, its mode and its display.
pub proof fn a_status_says_all_of_it(s: WakeStatus)
    ensures
        s@.backend == s.backend@,
        s@.targets == s.targets@,
        s@.mode == s.mode,
        s@.display == s.display,
{
}

/// A snapshot says its process, its backend, its start and its request.
pub proof fn a_snapshot_says_all_of_it(s: LockState)
    ensures
        s@.pid == s.pid,
        s@.backend == s.backend@,
        s@.started_unix == s.started_unix,
        s@.request == s.request@,
        state_view(Some(s)) == Some(s@),
        state_view(None) is None,
{
}

/// A hand-off says its request and its start.
pub proof fn a_hand_off_says_all_of_it(p: PendingRequest)
    ensures
        p@.request == p.request@,
        p@.started_unix == p.started_unix,
{
}

/// A reply says whether it is fine, its explanation, its status and its process.
pub proof fn a_reply_says_all_of_it(d: DaemonReply, e: OxiwakeError)
    ensures
        d@.ok == d.ok,
        d@.pid == d.pid,
        d.error is Some ==> d@.error == Some(d.error->Some_0@),
        d.error is None ==> d@.error is None,
        d.status is Some ==> d@.status == Some(d.status->Some_0@),
        d.status is None ==> d@.status is None,
        reply_outcome(Ok(d)) is Ok && reply_outcome(Ok(d))->Ok_0 == d@,
        reply_outcome(Err(e)) is Err && reply_outcome(Err(e))->Err_0 == e@,
{
}

/// An outcome keeps its value, and its error by what the error says.
pub proof fn outcomes_keep_their_values<T>(v: T, s: WakeStatus, e: OxiwakeError)
    ensures
        outcome(Ok(v)) == Ok::<T, ErrorView>(v),
        outcome(Err::<T, OxiwakeError>(e)) == Err::<T, ErrorView>(e@),
        status_outcome(Ok(s)) is Ok && status_outcome(Ok(s))->Ok_0 == s@,
        status_outcome(Err(e)) is Err && status_outcome(Err(e))->Err_0 == e@,
{
}

/// An error says its kind and its words, and those of the platform as they are.
pub proof fn an_error_says_all_of_it(
    backend: &'static str,
    reason: String,
    io: IoError,
    pid: u32,
)
    ensures
        io@.kind == io.kind,
        io@.message == io.message@,
        (OxiwakeError::BackendUnavailable { backend, reason })@ == (ErrorView::BackendUnavailable {
            backend: backend@,
            reason: reason@,
        }),
        (OxiwakeError::AcquireFailed { backend, reason })@ == (ErrorView::AcquireFailed {
            backend: backend@,
            reason: reason@,
        }),
        OxiwakeError::Dbus(reason)@ == ErrorView::Dbus(reason@),
        OxiwakeError::DbusDecode(reason)@ == ErrorView::DbusDecode(reason@),
        OxiwakeError::Io(io)@ == ErrorView::Io(io@),
        OxiwakeError::State(reason)@ == ErrorView::State(reason@),
        OxiwakeError::Ipc(reason)@ == ErrorView::Ipc(reason@),
        OxiwakeError::NotRunning@ == ErrorView::NotRunning,
        OxiwakeError::AlreadyRunning(pid)@ == ErrorView::AlreadyRunning(pid),
        OxiwakeError::Other(reason)@ == ErrorView::Other(reason@),
{
}

/// A report says its backend, whether it is supported and available, and every
/// caveat and note; the whole says its platform, its rows and its reports.
pub proof fn a_report_says_all_of_it(r: DoctorReport, out: DoctorOutput, v: Seq<DoctorReport>)
    ensures
        r@.backend == r.backend@,
        r@.supported == r.supported,
        r@.available == r.available,
        r@.guarantees == texts(r.guarantees@),
        r@.notes == texts(r.notes@),
        out@.platform == out.platform@,
        out@.env == pairs(out.env@),
        out@.backends == reports(out.backends@),
        reports(v).len() == v.len(),
        forall|i: int| 0 <= i < v.len() ==> #[trigger] reports(v)[i] == v[i]@,
{
}

/// A list of texts says each of them, in order; so does a list of rows, and a list
/// of members.
pub proof fn lists_say_every_item(
    v: Seq<String>,
    rows: Seq<(String, String)>,
    object: Seq<(String, JsonValue)>,
)
    ensures
        texts(v).len() == v.len(),
        forall|i: int| 0 <= i < v.len() ==> #[trigger] texts(v)[i] == v[i]@,
        pairs(rows).len() == rows.len(),
        forall|i: int|
            0 <= i < rows.len() ==> #[trigger] pairs(rows)[i] == (rows[i].0@, rows[i].1@),
        members(object).len() == object.len(),
        forall|i: int|
            0 <= i < object.len() ==> #[trigger] members(object)[i] == (
                object[i].0@,
                object[i].1@,
            ),
{
}

/// A JSON value says its kind and its contents.
pub proof fn a_json_value_says_all_of_it(s: String, n: u64, b: bool, v: Vec<String>)
    ensures
        JsonValue::Text(s)@ == JsonValueView::Text(s@),
        JsonValue::Number(n)@ == JsonValueView::Number(n),
        JsonValue::Flag(b)@ == JsonValueView::Flag(b),
        JsonValue::List(v)@ == JsonValueView::List(texts(v@)),
{
}

/// What may be missing says what is there, and that it is missing if it is.
pub proof fn options_say_what_is_there(s: String, n: &str, b: Vec<u8>)
    ensures
        text_opt(Some(s)) == Some(s@),
        text_opt(None) is None,
        note_text(Some(n)) == Some(n@),
        note_text(None) is None,
        bytes_opt(Some(b)) == Some(b@),
        bytes_opt(None) is None,
{
}

/// A set of paths says its directory and its four files.
pub proof fn paths_say_all_of_them(p: Paths)
    ensures
        p@.dir == p.dir@,
        p@.state == p.state@,
        p@.socket == p.socket@,
        p@.pending == p.pending@,
        p@.lock == p.lock@,
{
}

/// A call to logind says its four arguments.
pub proof fn a_call_says_all_of_it(c: InhibitCall)
    ensures
        c@.what == c.what@,
        c@.who == c.who@,
        c@.why == c.why@,
        c@.mode == c.mode@,
{
}

// ---------------------------------------------------------------------------
// Steps and events
// ---------------------------------------------------------------------------

/// A step of a power request says where the request stands.
pub proof fn a_power_request_says_where_it_stands(
    t: RequestType,
    h: PowerRequestHandle,
    m: String,
)
    ensures
        RequestStep::Create@ == RequestStepView::Create,
        RequestStep::Require(t)@ == RequestStepView::Require(t),
        RequestStep::Close(m)@ == RequestStepView::Close(m@),
        RequestStep::Done(Ok(h))@ == RequestStepView::Ready(h),
        RequestStep::Done(Err(m))@ == RequestStepView::Failed(m@),
{
}

/// A daemon's step says what is to be done and with what.
pub proof fn a_daemon_says_where_it_stands(
    name: &'static str,
    status: WakeStatus,
    lock: LockState,
    r: Result<()>,
)
    ensures
        DaemonState::Resolve@ is Resolve,
        DaemonState::Ping@ is Ping,
        DaemonState::Claim@ is Claim,
        DaemonState::Acquire@ is Acquire,
        DaemonState::Describe(name)@ == DaemonStateView::Describe(name@),
        DaemonState::Publish(status, lock)@ == DaemonStateView::Publish(status@, lock@),
        DaemonState::RemovePending(status)@ == DaemonStateView::RemovePending(status@),
        DaemonState::Serve(status)@ == DaemonStateView::Serve(status@),
        DaemonState::RemoveState(r)@ == DaemonStateView::RemoveState(outcome(r)),
        DaemonState::ReleaseGuard(r)@ == DaemonStateView::ReleaseGuard(outcome(r)),
        DaemonState::ReleaseSingleton(r)@ == DaemonStateView::ReleaseSingleton(outcome(r)),
        DaemonState::Finished(r)@ == DaemonStateView::Finished(outcome(r)),
{
}

/// An event of a daemon says what was done and what it came to.
pub proof fn a_daemon_event_says_what_happened(
    r: Result<()>,
    reply: Result<DaemonReply>,
    ours: Result<bool>,
    name: &'static str,
    status: Result<WakeStatus>,
    e: OxiwakeError,
)
    ensures
        DaemonEvent::Resolved(r)@ == DaemonEventView::Resolved(outcome(r)),
        DaemonEvent::Pinged(reply)@ == DaemonEventView::Pinged(reply_outcome(reply)),
        DaemonEvent::Claimed(ours)@ == DaemonEventView::Claimed(outcome(ours)),
        DaemonEvent::Acquired(Ok(name))@ == DaemonEventView::Acquired(Ok(name@)),
        DaemonEvent::Acquired(Err(e))@ == DaemonEventView::Acquired(Err(e@)),
        DaemonEvent::Described(status)@ == DaemonEventView::Described(status_outcome(status)),
        DaemonEvent::Published(r)@ == DaemonEventView::Published(outcome(r)),
        DaemonEvent::PendingRemoved@ is PendingRemoved,
        DaemonEvent::Served(r)@ == DaemonEventView::Served(outcome(r)),
        DaemonEvent::StateRemoved@ is StateRemoved,
        DaemonEvent::GuardReleased@ is GuardReleased,
        DaemonEvent::SingletonReleased@ is SingletonReleased,
{
}

/// The daemon process says where it stands and what happened to it.
pub proof fn the_process_says_where_it_stands(
    b: AnyBackend,
    p: PendingRequest,
    e: OxiwakeError,
    r: Result<()>,
)
    ensures
        MainState::Resolve@ is Resolve,
        MainState::ClearError@ is ClearError,
        MainState::ReadPending@ is ReadPending,
        MainState::Run(b, p)@ == MainStateView::Run(b, p@),
        MainState::RemovePending@ is RemovePending,
        MainState::WriteError(e)@ == MainStateView::WriteError(e@),
        MainState::Finished(r)@ == MainStateView::Finished(outcome(r)),
        MainEvent::Resolved(r)@ == MainEventView::Resolved(outcome(r)),
        MainEvent::ErrorCleared@ is ErrorCleared,
        MainEvent::PendingRead(Ok(Some(p)))@ == MainEventView::PendingRead(Ok(Some(p@))),
        MainEvent::PendingRead(Ok(None))@ == MainEventView::PendingRead(Ok(None)),
        MainEvent::PendingRead(Err(e))@ == MainEventView::PendingRead(Err(e@)),
        MainEvent::Ran(r)@ == MainEventView::Ran(outcome(r)),
        MainEvent::PendingRemoved@ is PendingRemoved,
        MainEvent::ErrorWritten@ is ErrorWritten,
{
}

/// A start says where it stands.
pub proof fn a_start_says_where_it_stands(
    s: WakeStatus,
    e: OxiwakeError,
    r: Result<WakeStatus>,
)
    ensures
        Start::Resolve@ is Resolve,
        Start::FirstPing@ is FirstPing,
        Start::ClearStale@ is ClearStale,
        Start::WritePending@ is WritePending,
        Start::Spawn@ is Spawn,
        Start::PollRead@ is PollRead,
        Start::PollPing@ is PollPing,
        Start::PollReason@ is PollReason,
        Start::PollClock@ is PollClock,
        Start::Sleep@ is Sleep,
        Start::ClearSuccess(s)@ == StartView::ClearSuccess(s@),
        Start::RemovePending(e)@ == StartView::RemovePending(e@),
        Start::Finished(r)@ == StartView::Finished(status_outcome(r)),
{
}

/// An event of a start says what was done and what it came to.
pub proof fn a_start_event_says_what_happened(
    r: Result<()>,
    state: LockState,
    reply: Result<DaemonReply>,
    t: String,
    ms: u64,
    e: OxiwakeError,
)
    ensures
        StartEvent::Resolved(r)@ == StartEventView::Resolved(outcome(r)),
        StartEvent::StateRead(Ok(Some(state)))@ == StartEventView::StateRead(Ok(true)),
        StartEvent::StateRead(Ok(None))@ == StartEventView::StateRead(Ok(false)),
        StartEvent::StateRead(Err(e))@ == StartEventView::StateRead(Err(e@)),
        StartEvent::Pinged(reply)@ == StartEventView::Pinged(reply_outcome(reply)),
        StartEvent::Cleared@ is Cleared,
        StartEvent::PendingWritten(r)@ == StartEventView::PendingWritten(outcome(r)),
        StartEvent::Spawned(r)@ == StartEventView::Spawned(outcome(r)),
        StartEvent::Reason(Some(t))@ == StartEventView::Reason(Some(t@)),
        StartEvent::Reason(None)@ == StartEventView::Reason(None),
        StartEvent::Clock(ms)@ == StartEventView::Clock(ms),
        StartEvent::Slept@ is Slept,
        StartEvent::PendingRemoved@ is PendingRemoved,
{
}

} // verus!
