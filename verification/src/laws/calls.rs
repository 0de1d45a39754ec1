//! The functions themselves: what every call of them gives, whatever it is given.

use crate::backend::gnome::{GnomeBackend, GnomeCall};
use crate::backend::kde::{KdeBackend, KdeCall};
use crate::backend::logind::{
    denied, reachable, refused_exactly_without_tokens, InhibitReply, LogindAcquire, LogindBackend,
    LogindConnected, LogindGuard, LogindProbe, LogindReady,
};
use crate::backend::portal::{
    portal_owned, HandleReply, PortalAcquire, PortalBackend, PortalConnected, PortalGuard,
    PortalOwned, PortalProbe, PortalReady,
};
use crate::backend::screensaver::{ScreenSaverBackend, ScreenSaverCall};
use crate::backend::session::{
    Acquire, Connected, CookieGuard, CookieReply, Owned, OwnerReply, Ready,
};
use crate::backend::wayland::{WaylandBackend, WaylandConnect, WaylandGuard};
use crate::backend::windows::{
    fallback_state, powercfg_text, wants_display, PowerRequestAttempt, Win32PowerBackend,
    Win32Probe,
};
use crate::backend::x11::{
    SuspendArg, SuspendOutcome, X11Backend, X11Connect, X11Guard, X11Probe, X11Ready,
};
use crate::backend::{
    best_is_strongest, compiled, pick, rank, strongest_is_first, supported_backends, AnyBackend,
    Build, EnvVar,
};
use crate::cli::{
    build_request, cmd_off, cmd_on, cmd_status, cmd_toggle, failure_line, is_running, log_directive,
    on_note_json, status_state, RequestFlags, StateLookup, Toggle,
};
use crate::daemon::client::{
    pending_request, read_and_clear_startup_error, spawn_detached_daemon, write_pending, Request,
    RequestEvent, SpawnAttempt, Start, StartEvent,
};
use crate::daemon::entry::{MainEvent, MainState};
use crate::daemon::{run_daemon, Daemon, DaemonEvent, DaemonState, DaemonStateView, PendingRequest};
use crate::doctor::{
    probe_rows, query_string, reports, run_doctor, ContentReply, DoctorOutput, EnvProbe, SizeReply,
};
use crate::error::{ErrorView, IoError, IoErrorKind, OxiwakeError, Result};
use crate::ipc::{
    ascii_white, debug_text, parse_failure, parse_failure_shown, read_msg, write_msg, ClientMsg,
    DaemonReply, LineReader, LineStep, ReadEvent,
};
use crate::json::{json_object_text, object_text, JsonValueView};
use crate::laws::commands::{flags_reach_logind, json_status_tells_the_truth, says_the_lock};
use crate::laws::daemon::{a_request_is_taken_up, blank, only_blank_reasons_do_not_count};
use crate::model::{logind_what_text, DoctorReport, WakeRequest, WakeStatus, WakeTarget};
use crate::output::{human_off, human_simple, simple_object};
use crate::paths::{
    absolute, ascii, below, pending_path_for, startup_error_path, tighten_mode, Paths,
};
use crate::platform::{handle_connection, linux, windows, Exchange, Platform, SingletonLock};
use crate::state::{read_json_or_none, remove_if_exists, JsonRead, LockState, WriteState};
use crate::text::{chars_of, decimal_text, lossy_text, occurs, pairs, same_text, text_of, texts};
use crate::wide::{decode_utf16, utf16, utf16_round_trips, wide_utf16_z};
use vstd::prelude::*;

verus! {

// ---------------------------------------------------------------------------
// Commands
// ---------------------------------------------------------------------------

/// Every request that is built has the flags' display, lid and reason.
pub proof fn a_built_request_has_the_flags(p: Platform, flags: RequestFlags, r: WakeRequest)
    requires
        call_ensures(build_request, (p, flags), r),
    ensures
        r.display == flags.display,
        r.aggressive_lid == flags.aggressive_lid,
        flags.reason is Some ==> r.reason@ == flags.reason->Some_0@,
        flags.reason is None ==> r.reason@ == "Oxiwake wake lock enabled"@,
        r.targets@.contains(WakeTarget::SystemSleep),
        r.targets@.contains(WakeTarget::Idle) <==> p != Platform::Windows,
{
    assert(r.targets@[0] == WakeTarget::SystemSleep);
    if p != Platform::Windows {
        assert(r.targets@[1] == WakeTarget::Idle);
    }
}

/// Every JSON status of a live daemon is the text of an object that says on, with
/// that daemon's lock, and with the snapshot's process and start where there is a
/// snapshot.
pub proof fn a_json_status_says_on(
    state: LockState,
    d: DaemonReply,
    now: u64,
    with: Result<String>,
    without: Result<String>,
)
    requires
        d.ok,
        d.status is Some,
        call_ensures(cmd_status, (Some(state), Ok(d), true, now), with),
        call_ensures(cmd_status, (None, Ok(d), true, now), without),
    ensures
        with is Ok,
        without is Ok,
        exists|object: Seq<(Seq<char>, JsonValueView)>|
            {
                &&& #[trigger] says_the_lock(object, d.status->Some_0@)
                &&& with->Ok_0@ == object_text(json_object_text(object))
                &&& object.contains(("pid"@, JsonValueView::Number(state.pid as u64)))
                &&& object.contains(("since_unix"@, JsonValueView::Number(state.started_unix)))
            },
        exists|object: Seq<(Seq<char>, JsonValueView)>|
            {
                &&& #[trigger] says_the_lock(object, d.status->Some_0@)
                &&& without->Ok_0@ == object_text(json_object_text(object))
            },
{
    json_status_tells_the_truth(d@, Some(state@), now);
    json_status_tells_the_truth(d@, None, now);
}

/// Where nobody is there, every status says so and none fails; a daemon that
/// refuses, and any other failure, makes it fail with the words that came back.
pub proof fn a_status_without_a_daemon_says_off(
    state: Option<LockState>,
    e: OxiwakeError,
    now: u64,
    r: Result<String>,
)
    requires
        call_ensures(cmd_status, (state, Err(e), false, now), r),
    ensures
        e is NotRunning || e is State ==> r is Ok && r->Ok_0@
            == "state:     off (oxiwake is not running)"@,
        !(e is NotRunning) && !(e is State) ==> r is Err && r->Err_0@ == e@,
{
}

/// The toggle turns off what runs and on what does not; what cannot be told it
/// leaves alone.
pub proof fn a_toggle_turns_over(reply: Result<DaemonReply>, r: Result<Toggle>, runs: Result<bool>)
    requires
        call_ensures(cmd_toggle, (reply,), r),
        call_ensures(is_running, (reply,), runs),
    ensures
        reply is Ok ==> r is Ok && runs is Ok && runs->Ok_0 == reply->Ok_0.ok,
        reply is Ok ==> (r->Ok_0 == Toggle::TurnOff <==> reply->Ok_0.ok),
        reply is Err && (reply->Err_0 is NotRunning || reply->Err_0 is State) ==> r is Ok && r->Ok_0
            == Toggle::TurnOn && runs is Ok && !runs->Ok_0,
        reply is Err && !(reply->Err_0 is NotRunning) && !(reply->Err_0 is State) ==> r is Err
            && r->Err_0@ == reply->Err_0@ && runs is Err && runs->Err_0@ == reply->Err_0@,
{
}

/// Every confirmation names the state; a human's names the backend, and the number
/// of targets after it.
pub proof fn confirmations_name_the_state(
    status: WakeStatus,
    on: String,
    off: String,
    json_on: String,
    json_off: String,
    none: String,
)
    requires
        call_ensures(cmd_on, (&status, false), on),
        call_ensures(cmd_off, (false,), off),
        call_ensures(cmd_on, (&status, true), json_on),
        call_ensures(cmd_off, (true,), json_off),
        call_ensures(human_off, (), none),
    ensures
        status.display ==> on@ == "on"@ + ": "@ + (status.backend@ + " holding "@ + decimal_text(
            status.targets@.len(),
        ) + " target(s), display "@ + "on"@),
        !status.display ==> on@ == "on"@ + ": "@ + (status.backend@ + " holding "@ + decimal_text(
            status.targets@.len(),
        ) + " target(s), display "@ + "off"@),
        off@ == "off"@,
        json_on@ == object_text(
            json_object_text(
                seq![
                    ("state"@, JsonValueView::Text("on"@)),
                    (
                        "note"@,
                        JsonValueView::Text(
                            "backend="@ + status.backend@ + " targets="@ + decimal_text(
                                status.targets@.len(),
                            ),
                        ),
                    ),
                ],
            ),
        ),
        json_off@ == object_text(json_object_text(seq![("state"@, JsonValueView::Text("off"@))])),
        none@ == "state:     off (oxiwake is not running)"@,
{
    let note = on_note_json(status@);
    assert(simple_object("on"@, Some(note)) =~= seq![
        ("state"@, JsonValueView::Text("on"@)),
        ("note"@, JsonValueView::Text(note)),
    ]);
    assert(simple_object("off"@, None) =~= seq![("state"@, JsonValueView::Text("off"@))]);
}

/// A one-shot line is the state, and the note after a colon where there is one.
pub proof fn a_note_follows_a_colon(state: &str, n: &str, with: String, without: String)
    requires
        call_ensures(human_simple, (state, Some(n)), with),
        call_ensures(human_simple, (state, None), without),
    ensures
        with@ == state@ + ": "@ + n@,
        without@ == state@,
{
}

/// The environment's log setting wins wherever it is not blank; the flags decide
/// otherwise.
pub proof fn the_environments_log_setting_wins(
    env: String,
    verbose: u8,
    r: Option<&'static str>,
    unset: Option<&'static str>,
)
    requires
        call_ensures(log_directive, (Some(env), verbose), r),
        call_ensures(log_directive, (None, verbose), unset),
    ensures
        !blank(env@) ==> r is None,
        blank(env@) ==> r is Some && unset is Some && r->Some_0@ == unset->Some_0@,
        unset is Some,
        verbose == 0 ==> unset->Some_0@ == "warn"@,
        verbose == 1 ==> unset->Some_0@ == "info"@,
        verbose == 2 ==> unset->Some_0@ == "debug"@,
        verbose >= 3 ==> unset->Some_0@ == "trace"@,
{
    only_blank_reasons_do_not_count(env@);
}

/// A missing runtime directory means that there is no snapshot; any other failure
/// to look is kept, and so is what was read.
pub proof fn a_missing_directory_holds_no_snapshot(
    e: OxiwakeError,
    read: Result<Option<LockState>>,
    missing: Result<Option<LockState>>,
    found: Result<Option<LockState>>,
)
    requires
        call_ensures(status_state, (StateLookup::Unresolved(e),), missing),
        call_ensures(status_state, (StateLookup::Read(read),), found),
    ensures
        e is State ==> missing is Ok && missing->Ok_0 is None,
        !(e is State) ==> missing is Err && missing->Err_0 == e,
        found == read,
{
}

/// A failure is shown after the program's name.
pub proof fn failures_are_shown_after_the_name(e: OxiwakeError, r: String, m: String)
    requires
        call_ensures(failure_line, (&e,), r),
        call_ensures(OxiwakeError::message, (&e,), m),
    ensures
        r@ == "ow: "@ + m@,
        e is Other ==> m@ == e->Other_0@,
        e is NotRunning ==> m@ == "oxiwake is not running"@,
{
}

// ---------------------------------------------------------------------------
// The daemon process
// ---------------------------------------------------------------------------

/// A process that read a request runs a daemon for it, with every part of it, in
/// every build that has a backend; and nothing else makes it run one.
pub proof fn a_process_runs_the_request_it_read(
    build: Build,
    b: AnyBackend,
    p: PendingRequest,
    r: MainState,
)
    requires
        compiled(build, b),
        call_ensures(
            MainState::next,
            (MainState::ReadPending, build, MainEvent::PendingRead(Ok(Some(p)))),
            r,
        ),
    ensures
        r is Run,
        r->Run_1.request.targets@ == p.request.targets@,
        r->Run_1.request.reason@ == p.request.reason@,
        r->Run_1.request.display == p.request.display,
        r->Run_1.request.aggressive_lid == p.request.aggressive_lid,
        r->Run_1.started_unix == p.started_unix,
        rank(r->Run_0) <= rank(b),
{
    a_request_is_taken_up(build, b, p@);
    let v = r@;
    assert(v is Run);
    assert(v->Run_1 == r->Run_1@);
}

/// A process starts to run a daemon only in the step that reads the request.
pub proof fn a_process_runs_nothing_else(
    build: Build,
    s: MainState,
    event: MainEvent,
    r: MainState,
)
    requires
        call_ensures(MainState::next, (s, build, event), r),
        r is Run,
        !(s is Run),
    ensures
        s is ReadPending,
        event is PendingRead,
        event->PendingRead_0 is Ok,
        event->PendingRead_0->Ok_0 is Some,
        r->Run_1@ == event->PendingRead_0->Ok_0->Some_0@,
{
    assert(r@ is Run);
    assert(!(s@ is Run));
}

/// The text that a failing process leaves is the wording of its failure.
pub proof fn a_failing_process_leaves_its_reason(
    s: MainState,
    e: OxiwakeError,
    left: Option<String>,
    m: String,
    none: Option<String>,
)
    requires
        call_ensures(MainState::startup_error, (&MainState::WriteError(e),), left),
        call_ensures(OxiwakeError::message, (&e,), m),
        call_ensures(MainState::startup_error, (&s,), none),
        !(s is WriteError),
    ensures
        left is Some && left->Some_0@ == m@,
        none is None,
{
}

/// A daemon is started for the request, with the start time and the process that
/// are given, and at the first of its steps.
pub proof fn a_daemon_starts_with_its_request(req: WakeRequest, started: u64, pid: u32, d: Daemon)
    requires
        call_ensures(run_daemon, (&req, started, pid), d),
    ensures
        d.plan().request == req@,
        d.plan().started_unix == started,
        d.plan().pid == pid,
        d.stands() is Resolve,
{
}

/// A daemon that goes on keeps its request, its start and its process, and publishes
/// them.
pub proof fn a_daemon_keeps_its_request(
    d: Daemon,
    event: DaemonEvent,
    r: Daemon,
    s: &DaemonState,
    req: &WakeRequest,
)
    requires
        call_ensures(Daemon::next, (d, event), r),
        call_ensures(Daemon::state, (&r,), s),
        call_ensures(Daemon::request, (&r,), req),
    ensures
        r.plan() == d.plan(),
        req@ == d.plan().request,
        s is Publish && !(d.stands() is Publish) ==> {
            &&& s->Publish_1.pid == d.plan().pid
            &&& s->Publish_1.started_unix == d.plan().started_unix
            &&& s->Publish_1.request@ == d.plan().request
            &&& d.stands() is Describe && s->Publish_1.backend@ == d.stands()->Describe_0
        },
{
    if let DaemonState::Publish(status, lock) = *s {
        assert(s@ == DaemonStateView::Publish(status@, lock@));
        assert(lock@.pid == lock.pid && lock@.started_unix == lock.started_unix);
    }
}

// ---------------------------------------------------------------------------
// Starting
// ---------------------------------------------------------------------------

/// While less than two seconds have passed the client sleeps and looks again,
/// however little that is; after two seconds it gives up.
pub proof fn a_start_waits_two_seconds(ms: u64, r: Start)
    requires
        call_ensures(Start::next, (Start::PollClock, StartEvent::Clock(ms)), r),
    ensures
        ms < 2000 ==> r is Sleep,
        ms >= 2000 ==> r is RemovePending && r->RemovePending_0 is Other,
{
    assert(r@ is Sleep || r@ is RemovePending);
}

/// The hand-off holds the request as it is, and the start time.
pub proof fn a_hand_off_holds_the_request(
    req: WakeRequest,
    started: u64,
    r: PendingRequest,
)
    requires
        call_ensures(pending_request, (&req, started), r),
    ensures
        r.request.targets@ == req.targets@,
        r.request.reason@ == req.reason@,
        r.request.display == req.display,
        r.request.aggressive_lid == req.aggressive_lid,
        r.started_unix == started,
{
    assert(r.request@ == req@);
}

/// What a file is written with is what was serialized; a failure to serialize is
/// told in its own words.
pub proof fn files_are_written_with_what_was_serialized(
    bytes: Vec<u8>,
    m: String,
    pending: Result<(Vec<u8>, WriteState)>,
    no_pending: Result<(Vec<u8>, WriteState)>,
    state: Result<(Vec<u8>, WriteState)>,
    no_state: Result<(Vec<u8>, WriteState)>,
)
    requires
        call_ensures(write_pending, (Ok(bytes),), pending),
        call_ensures(write_pending, (Err(m),), no_pending),
        call_ensures(LockState::write, (Ok(bytes),), state),
        call_ensures(LockState::write, (Err(m),), no_state),
    ensures
        pending is Ok && pending->Ok_0.0@ == bytes@ && pending->Ok_0.1 is Writing,
        no_pending is Err && no_pending->Err_0@ == ErrorView::State(
            "could not serialize pending request: "@ + m@,
        ),
        state is Ok && state->Ok_0.0@ == bytes@ && state->Ok_0.1 is Writing,
        no_state is Err && no_state->Err_0@ == ErrorView::State(
            "could not serialize state: "@ + m@,
        ),
{
}

/// A process that runs was spawned; one that does not is told of with the reason.
pub proof fn spawning_tells_why_it_failed(
    m: String,
    fine: Result<()>,
    no_exe: Result<()>,
    failed: Result<()>,
)
    requires
        call_ensures(spawn_detached_daemon, (SpawnAttempt::Spawned,), fine),
        call_ensures(spawn_detached_daemon, (SpawnAttempt::NoExe(m),), no_exe),
        call_ensures(spawn_detached_daemon, (SpawnAttempt::Failed(m),), failed),
    ensures
        fine is Ok,
        no_exe is Err && no_exe->Err_0@ == ErrorView::Other(
            "could not resolve current exe: "@ + m@,
        ),
        failed is Err && failed->Err_0@ == ErrorView::Other(
            "could not spawn oxiwake daemon: "@ + m@,
        ),
{
}

/// A left-behind reason is kept as a whole unless it is blank.
pub proof fn a_reason_is_kept_as_a_whole(text: Option<String>, r: Option<String>)
    requires
        call_ensures(read_and_clear_startup_error, (text,), r),
    ensures
        text is None ==> r is None,
        text is Some && blank(text->Some_0@) ==> r is None,
        text is Some && !blank(text->Some_0@) ==> r == text,
{
    if let Some(t) = text {
        only_blank_reasons_do_not_count(t@);
    }
}

/// One request goes through its five steps in order and ends with the reply that
/// came; the first step that fails ends it with its error.
pub proof fn a_request_goes_through_its_steps(
    reply: DaemonReply,
    e: OxiwakeError,
    m: String,
    s1: Request,
    s2: Request,
    s3: Request,
    s4: Request,
    s5: Request,
    x1: Request,
    x2: Request,
    x3: Request,
    x4: Request,
    x5: Request,
)
    requires
        call_ensures(Request::next, (Request::Resolve, RequestEvent::Resolved(Ok(()))), s1),
        call_ensures(Request::next, (Request::Connect, RequestEvent::Connected(Ok(()))), s2),
        call_ensures(Request::next, (Request::Split, RequestEvent::Split(Ok(()))), s3),
        call_ensures(Request::next, (Request::Send, RequestEvent::Sent(Ok(()))), s4),
        call_ensures(Request::next, (Request::Receive, RequestEvent::Received(Ok(reply))), s5),
        call_ensures(Request::next, (Request::Resolve, RequestEvent::Resolved(Err(e))), x1),
        call_ensures(Request::next, (Request::Connect, RequestEvent::Connected(Err(e))), x2),
        call_ensures(Request::next, (Request::Split, RequestEvent::Split(Err(m))), x3),
        call_ensures(Request::next, (Request::Send, RequestEvent::Sent(Err(e))), x4),
        call_ensures(Request::next, (Request::Receive, RequestEvent::Received(Err(e))), x5),
    ensures
        s1 is Connect && s2 is Split && s3 is Send && s4 is Receive,
        s5 is Finished && s5->Finished_0 is Ok && s5->Finished_0->Ok_0 == reply,
        x1 is Finished && x1->Finished_0 is Err && x1->Finished_0->Err_0@ == e@,
        x2 is Finished && x2->Finished_0 is Err && x2->Finished_0->Err_0@ == e@,
        x3 is Finished && x3->Finished_0 is Err && x3->Finished_0->Err_0@ == ErrorView::Other(
            "could not dup IPC stream: "@ + m@,
        ),
        x4 is Finished && x4->Finished_0 is Err && x4->Finished_0->Err_0@ == e@,
        x5 is Finished && x5->Finished_0 is Err && x5->Finished_0->Err_0@ == e@,
{
}

/// Whether an event answers what a request is doing.
pub open spec fn request_awaits(s: Request, event: RequestEvent) -> bool {
    ||| s is Resolve && event is Resolved
    ||| s is Connect && event is Connected
    ||| s is Split && event is Split
    ||| s is Send && event is Sent
    ||| s is Receive && event is Received
}

/// A request moves only when what it is doing is answered, and then it does.
pub proof fn a_request_moves_only_when_answered(s: Request, event: RequestEvent, r: Request)
    requires
        call_ensures(Request::next, (s, event), r),
    ensures
        !request_awaits(s, event) ==> r == s,
        request_awaits(s, event) ==> r != s,
{
}

// ---------------------------------------------------------------------------
// Text
// ---------------------------------------------------------------------------

/// Two texts are the same exactly if their characters are; a part of a text is its
/// characters from the one position to the other.
pub proof fn texts_are_their_characters(
    a: &str,
    b: &str,
    same: bool,
    chars: Vec<char>,
    slice: &[char],
    from: usize,
    to: usize,
    part: String,
)
    requires
        call_ensures(same_text, (a, b), same),
        call_ensures(chars_of, (a,), chars),
        slice@ == chars@,
        from <= to <= slice@.len(),
        call_ensures(text_of, (slice, from, to), part),
    ensures
        same <==> a@ == b@,
        chars@ == a@,
        part@.len() == to - from,
        forall|i: int| from <= i < to ==> part@[i - from] == #[trigger] a@[i],
{
}

/// What was encoded for Windows is decoded to the same text.
pub proof fn wide_text_is_read_back(
    s: &str,
    wide: Vec<u16>,
    units: &[u16],
    back: Option<String>,
)
    requires
        call_ensures(wide_utf16_z, (s,), wide),
        call_ensures(decode_utf16, (units,), back),
        units@ == wide@.drop_last(),
    ensures
        wide@.len() > 0 && wide@.last() == 0,
        back is Some && back->Some_0@ == s@,
{
    assert(wide@.drop_last() =~= utf16(s@));
    utf16_round_trips(s@);
}

// ---------------------------------------------------------------------------
// Connections, locks and files
// ---------------------------------------------------------------------------

/// A message gets its reply, and only `Stop` stops the daemon; a connection without
/// a message is dropped, and the daemon goes on.
pub proof fn only_stop_stops_the_daemon(
    msg: ClientMsg,
    e: OxiwakeError,
    status: WakeStatus,
    pid: u32,
    r: Exchange,
    broken: Exchange,
)
    requires
        call_ensures(handle_connection, (Ok(msg), &status, pid), r),
        call_ensures(handle_connection, (Err(e), &status, pid), broken),
    ensures
        r is Reply,
        r->stop <==> msg is Stop,
        r->reply.ok,
        msg is Ping ==> r->reply@.pid == Some(pid),
        !(msg is Ping) ==> r->reply@.pid is None,
        msg is Stop ==> r->reply@.status is None,
        !(msg is Stop) ==> r->reply@.status == Some(status@),
        r->reply@.error is None,
        broken is Drop,
{
    assert(r->reply@.ok == r->reply.ok);
}

/// Connecting fails with "not running" exactly where nobody listens, and otherwise
/// with the failure itself.
pub proof fn connecting_tells_absence_from_failure(
    e: IoError,
    step: windows::ConnectStep,
    fine: Result<()>,
    failed: Result<()>,
    open: Result<()>,
    closed: Result<()>,
)
    requires
        call_ensures(linux::connect, (Ok(()),), fine),
        call_ensures(linux::connect, (Err(e),), failed),
        call_ensures(windows::connect, (None,), open),
        call_ensures(windows::connect, (Some((step, e)),), closed),
    ensures
        fine is Ok,
        failed is Err,
        e.kind == IoErrorKind::NotFound || e.kind == IoErrorKind::ConnectionRefused
            ==> failed->Err_0 is NotRunning,
        e.kind != IoErrorKind::NotFound && e.kind != IoErrorKind::ConnectionRefused
            ==> failed->Err_0 == OxiwakeError::Io(e),
        open is Ok,
        closed is Err,
        step is NotRunning ==> closed->Err_0 is NotRunning,
        !(step is NotRunning) ==> closed->Err_0 == OxiwakeError::Io(e),
{
}

/// A claim succeeds where the file is locked, and is another's where the system
/// says that another process holds it; every other failure is told as it is.
pub proof fn claims_are_granted_or_anothers(
    e: IoError,
    code: u32,
    locked: Result<Option<SingletonLock>>,
    unopened: Result<Option<SingletonLock>>,
    refused: Result<Option<SingletonLock>>,
    wlocked: Result<Option<SingletonLock>>,
    wunopened: Result<Option<SingletonLock>>,
    wrefused: Result<Option<SingletonLock>>,
)
    requires
        call_ensures(linux::acquire_singleton_lock, (linux::SingletonAttempt::Locked,), locked),
        call_ensures(
            linux::acquire_singleton_lock,
            (linux::SingletonAttempt::OpenFailed(e),),
            unopened,
        ),
        call_ensures(
            linux::acquire_singleton_lock,
            (linux::SingletonAttempt::LockFailed(e),),
            refused,
        ),
        call_ensures(
            windows::acquire_singleton_lock,
            (windows::SingletonAttempt::Locked,),
            wlocked,
        ),
        call_ensures(
            windows::acquire_singleton_lock,
            (windows::SingletonAttempt::OpenFailed(e),),
            wunopened,
        ),
        call_ensures(
            windows::acquire_singleton_lock,
            (windows::SingletonAttempt::LockFailed(code, e),),
            wrefused,
        ),
    ensures
        locked is Ok && locked->Ok_0 is Some,
        unopened is Err && unopened->Err_0 == OxiwakeError::Io(e),
        e.kind == IoErrorKind::WouldBlock ==> refused is Ok && refused->Ok_0 is None,
        e.kind != IoErrorKind::WouldBlock ==> refused is Err && refused->Err_0 == OxiwakeError::Io(
            e,
        ),
        wlocked is Ok && wlocked->Ok_0 is Some,
        wunopened is Err && wunopened->Err_0 == OxiwakeError::Io(e),
        code == 33 ==> wrefused is Ok && wrefused->Ok_0 is None,
        code != 33 ==> wrefused is Err && wrefused->Err_0 == OxiwakeError::Io(e),
{
}

/// A JSON file gives its value, or nothing if it is absent; a malformed one and
/// one that cannot be read are errors that say so. Deleting an absent file is as
/// good as deleting it.
pub proof fn absent_files_are_no_errors<T>(
    v: T,
    path: String,
    error: String,
    e: IoError,
    there: Result<Option<T>>,
    bad: Result<Option<T>>,
    failed: Result<Option<T>>,
    gone: Result<()>,
    kept: Result<()>,
)
    requires
        call_ensures(read_json_or_none::<T>, (JsonRead::Value(v),), there),
        call_ensures(read_json_or_none::<T>, (JsonRead::Malformed { path, error },), bad),
        call_ensures(read_json_or_none::<T>, (JsonRead::Failed(e),), failed),
        call_ensures(remove_if_exists, (Ok(()),), gone),
        call_ensures(remove_if_exists, (Err(e),), kept),
    ensures
        there is Ok && there->Ok_0 == Some(v),
        bad is Err && bad->Err_0@ == ErrorView::State(
            "could not parse "@ + path@ + ": "@ + error@,
        ),
        e.kind == IoErrorKind::NotFound ==> failed is Ok && failed->Ok_0 is None && kept is Ok,
        e.kind != IoErrorKind::NotFound ==> failed is Err && failed->Err_0 == OxiwakeError::Io(e)
            && kept is Err && kept->Err_0 == OxiwakeError::Io(e),
        gone is Ok,
{
}

/// A message is sent with one line feed after it, and read without the white space
/// around it; a line with nothing else on it is refused.
pub proof fn messages_are_framed_by_line_feeds(
    bytes: Vec<u8>,
    m: String,
    line: &[u8],
    sent: Result<Vec<u8>>,
    unsent: Result<Vec<u8>>,
    got: Result<Vec<u8>>,
)
    requires
        call_ensures(write_msg, (Ok(bytes),), sent),
        call_ensures(write_msg, (Err(m),), unsent),
        call_ensures(read_msg, (line,), got),
    ensures
        sent is Ok && sent->Ok_0@ == bytes@.push(10u8),
        unsent is Err && unsent->Err_0@ == ErrorView::Ipc("could not serialize message: "@ + m@),
        line@.len() == 0 ==> got is Err,
        line@.len() > 0 && !ascii_white(line@[0]) && !ascii_white(
            line@.last(),
        ) ==> got is Ok && got->Ok_0@ == line@,
        got is Err ==> got->Err_0@ == ErrorView::Ipc("received an empty IPC frame"@),
{
}

/// A reader gathers a line byte by byte, hands it out as a whole at its line feed or at
/// the end of the stream, and then starts afresh; an interrupted read loses nothing.
pub proof fn a_reader_gathers_a_line(reader: &mut LineReader, event: ReadEvent, r: LineStep)
    requires
        call_ensures(LineReader::read_line, (reader, event), r),
    ensures
        event is Byte && event->Byte_0 != 10 ==> r is More && final(reader)@ == old(reader)@.push(
            event->Byte_0,
        ),
        event is Byte && event->Byte_0 == 10 ==> r is Line && r->Line_0@ == old(reader)@
            && final(reader)@.len() == 0,
        event is Eof && old(reader)@.len() > 0 ==> r is Line && r->Line_0@ == old(reader)@
            && final(reader)@.len() == 0,
        event is Eof && old(reader)@.len() == 0 ==> r is Failed && r->Failed_0 is NotRunning,
        event is Failed && event->Failed_0.kind == IoErrorKind::Interrupted ==> r is More
            && final(reader)@ == old(reader)@,
        event is Failed && event->Failed_0.kind != IoErrorKind::Interrupted ==> r is Failed
            && r->Failed_0@ == ErrorView::Io(event->Failed_0@) && final(reader)@ == old(reader)@,
{
    if r is Failed {
        assert(event is Eof ==> r->Failed_0@ is NotRunning);
    }
}

/// The four kinds of reply: fine with a status, fine with a status and a process, just
/// fine, and a failure with its explanation.
pub proof fn replies_hold_what_they_are_made_of(
    status: WakeStatus,
    pid: u32,
    m: String,
    told: DaemonReply,
    pinged: DaemonReply,
    heard: DaemonReply,
    failed: DaemonReply,
)
    requires
        call_ensures(DaemonReply::ok_status, (status,), told),
        call_ensures(DaemonReply::ok_ping, (status, pid), pinged),
        call_ensures(DaemonReply::ok_empty, (), heard),
        call_ensures(DaemonReply::err, (m,), failed),
    ensures
        told.ok && told@.status == Some(status@) && told.pid is None && told@.error is None,
        pinged.ok && pinged@.status == Some(status@) && pinged.pid == Some(pid) && pinged@.error
            is None,
        heard.ok && heard@.status is None && heard.pid is None && heard@.error is None,
        !failed.ok && failed@.error == Some(m@) && failed@.status is None && failed.pid is None,
{
    assert(told@.ok == told.ok && told@.pid == told.pid);
    assert(pinged@.ok == pinged.ok && pinged@.pid == pinged.pid);
    assert(heard@.ok == heard.ok && heard@.pid == heard.pid);
    assert(failed@.ok == failed.ok && failed@.pid == failed.pid);
}

/// A line that is no message is refused with the parser's words and the line.
pub proof fn unreadable_lines_are_shown(
    error: &str,
    shown: &str,
    body: &[u8],
    given: OxiwakeError,
    raw: OxiwakeError,
)
    requires
        call_ensures(parse_failure_shown, (error, shown), given),
        call_ensures(parse_failure, (error, body), raw),
    ensures
        given@ == ErrorView::Ipc("could not parse IPC frame ("@ + error@ + "): "@ + shown@),
        raw@ == ErrorView::Ipc(
            "could not parse IPC frame ("@ + error@ + "): "@ + debug_text(lossy_text(body@)),
        ),
{
}

/// The snapshot file gives its snapshot, or none if it is absent; removing it, and
/// removing the hand-off file, succeeds where there is none.
pub proof fn the_snapshot_file_may_be_absent(
    st: LockState,
    e: IoError,
    there: Result<Option<LockState>>,
    failed: Result<Option<LockState>>,
    gone: Result<()>,
    kept: Result<()>,
    pending_kept: Result<()>,
)
    requires
        call_ensures(LockState::read, (JsonRead::Value(st),), there),
        call_ensures(LockState::read, (JsonRead::Failed(e),), failed),
        call_ensures(LockState::remove, (Ok(()),), gone),
        call_ensures(LockState::remove, (Err(e),), kept),
        call_ensures(LockState::remove_pending, (Err(e),), pending_kept),
    ensures
        there is Ok && there->Ok_0 == Some(st),
        gone is Ok,
        e.kind == IoErrorKind::NotFound ==> failed is Ok && failed->Ok_0 is None && kept is Ok
            && pending_kept is Ok,
        e.kind != IoErrorKind::NotFound ==> failed is Err && failed->Err_0 == OxiwakeError::Io(e)
            && kept is Err && kept->Err_0 == OxiwakeError::Io(e) && pending_kept is Err
            && pending_kept->Err_0 == OxiwakeError::Io(e),
{
}

/// The runtime files are found below the platform's base, and nowhere where the base
/// is missing.
pub proof fn the_files_are_found_below_the_base(
    base: Vec<u8>,
    linux: Result<Paths>,
    windows: Result<Paths>,
    unset: Result<Paths>,
    p: Platform,
)
    requires
        call_ensures(Paths::resolve, (Platform::Linux, Some(base)), linux),
        call_ensures(Paths::resolve, (Platform::Windows, Some(base)), windows),
        call_ensures(Paths::resolve, (p, None), unset),
    ensures
        base@.len() > 0 && base@[0] == 0x2f ==> {
            let dir = below(Platform::Linux, base@, ascii("oxiwake"@));
            &&& linux is Ok
            &&& linux->Ok_0.dir@ == dir
            &&& linux->Ok_0.state@ == below(Platform::Linux, dir, ascii("state.json"@))
            &&& linux->Ok_0.socket@ == below(Platform::Linux, dir, ascii("oxiwake.sock"@))
            &&& linux->Ok_0.pending@ == below(Platform::Linux, dir, ascii("pending.json"@))
            &&& linux->Ok_0.lock@ == below(Platform::Linux, dir, ascii("oxiwake.lock"@))
        },
        base@.len() == 0 || base@[0] != 0x2f ==> linux is Err && linux->Err_0 is State,
        absolute(Platform::Windows, base@) ==> windows is Ok && windows->Ok_0.dir@ == below(
            Platform::Windows,
            below(Platform::Windows, base@, ascii("Freeoxide"@)),
            ascii("Oxiwake"@),
        ),
        !absolute(Platform::Windows, base@) ==> windows is Err,
        unset is Err,
{
    if linux is Ok {
        assert(linux->Ok_0@.dir == linux->Ok_0.dir@);
    } else {
        assert(linux->Err_0@ is State);
    }
}

/// The hand-off file of an invocation holds its process id in its name; the file of a
/// failing daemon has one name.
pub proof fn left_behind_files_have_their_names(
    p: Platform,
    dir: &[u8],
    pid: u32,
    pending: Vec<u8>,
    reason: Vec<u8>,
)
    requires
        call_ensures(pending_path_for, (p, dir, pid), pending),
        call_ensures(startup_error_path, (p, dir), reason),
    ensures
        pending@ == below(
            p,
            dir@,
            ascii("pending."@ + decimal_text(pid as nat) + ".json"@),
        ),
        reason@ == below(p, dir@, ascii("startup_error"@)),
{
}

/// The runtime directory is made private unless it is.
pub proof fn the_directory_is_made_private(mode: u32, r: Option<u32>)
    requires
        call_ensures(tighten_mode, (mode,), r),
    ensures
        mode & 0o777 == 0o700 ==> r is None,
        mode & 0o777 != 0o700 ==> r == Some(0o700u32),
{
}

/// A registry string is what its contents say, empty where its size is zero, and
/// missing where either call failed or told of something else.
pub proof fn a_registry_string_is_its_contents(
    size: SizeReply,
    c: ContentReply,
    with: Option<String>,
    without: Option<String>,
)
    requires
        call_ensures(query_string, (size, Some(c)), with),
        call_ensures(query_string, (size, None), without),
    ensures
        size.status != 0 || size.value_type != 1 ==> with is None && without is None,
        size.status == 0 && size.value_type == 1 && size.len == 0 ==> with is Some && without is Some
            && with->Some_0@.len() == 0 && without->Some_0@.len() == 0,
        size.status == 0 && size.value_type == 1 && size.len > 0 ==> without is None,
        size.status == 0 && size.value_type == 1 && size.len > 0 && c.status != 0 ==> with is None,
        forall|t: Seq<char>|
            size.status == 0 && size.value_type == 1 && size.len > 0 && c.status == 0 && c.units@
                == (#[trigger] utf16(t)).push(0u16) ==> with is Some && with->Some_0@ == t,
{
    assert forall|t: Seq<char>|
        size.status == 0 && size.value_type == 1 && size.len > 0 && c.status == 0 && c.units@
            == (#[trigger] utf16(t)).push(0u16) implies with is Some && with->Some_0@ == t by {
        utf16_round_trips(t);
        assert(c.units@.drop_last() =~= utf16(t));
    }
}

// ---------------------------------------------------------------------------
// Backends
// ---------------------------------------------------------------------------

/// The strongest backend of the build is picked, whatever the request; a build
/// without any gets an error.
pub proof fn the_strongest_backend_is_picked(
    req: WakeRequest,
    build: Build,
    other: AnyBackend,
    r: Result<AnyBackend>,
    all: Vec<AnyBackend>,
)
    requires
        call_ensures(pick, (&req, build), r),
        call_ensures(supported_backends, (build,), all),
    ensures
        r is Ok ==> compiled(build, r->Ok_0) && all@.len() > 0 && all@[0] == r->Ok_0,
        r is Ok && compiled(build, other) ==> rank(r->Ok_0) <= rank(other),
        r is Err ==> !compiled(build, other) && all@.len() == 0 && r->Err_0@ == (
        ErrorView::BackendUnavailable {
            backend: "none"@,
            reason: "no wake backend is compiled into this build (see `ow doctor`)"@,
        }),
        all@.contains(other) <==> compiled(build, other),
{
    best_is_strongest(build);
    if let Ok(b) = r {
        strongest_is_first(build, all@, b);
    } else {
        if all@.len() > 0 {
            assert(all@.contains(all@[0]));
        }
    }
}

/// A report is put together from what was probed: the platform's name, the rows, and
/// the backends' reports as they are, in their order.
pub proof fn a_report_holds_what_was_probed(
    probe: EnvProbe,
    backends: Vec<DoctorReport>,
    r: DoctorOutput,
)
    requires
        call_ensures(run_doctor, (probe, backends), r),
    ensures
        probe is Linux ==> r.platform@ == "linux"@,
        probe is Windows ==> r.platform@ == "windows"@,
        probe is Unsupported ==> r.platform@ == "unknown"@ && r.env@.len() == 0,
        r.backends@.len() == backends@.len(),
        forall|i: int| 0 <= i < backends@.len() ==> (#[trigger] r.backends@[i])@ == backends@[i]@,
        pairs(r.env@) == probe_rows(probe),
{
    assert(r@.platform == r.platform@);
    assert(r@.backends == reports(r.backends@));
    assert(reports(r.backends@).len() == r.backends@.len());
    assert(pairs(r.env@).len() == r.env@.len());
    assert forall|i: int| 0 <= i < backends@.len() implies (#[trigger] r.backends@[i])@
        == backends@[i]@ by {
        assert(reports(r.backends@)[i] == reports(backends@)[i]);
    }
}

/// A backend that is not compiled in is reported as neither supported nor available.
pub proof fn a_missing_backend_is_reported_as_such(name: &'static str, r: DoctorReport)
    requires
        call_ensures(DoctorReport::not_compiled, (name,), r),
    ensures
        r.backend@ == name@,
        !r.supported,
        !r.available,
        r.notes@.len() == 0,
        r.guarantees@.len() == 1,
        r.guarantees@[0]@ == "not compiled into this build"@,
{
    assert(r@.supported == r.supported && r@.available == r.available);
    assert(texts(r.notes@).len() == r.notes@.len());
    assert(texts(r.guarantees@).len() == r.guarantees@.len());
    assert(texts(r.guarantees@)[0] == r.guarantees@[0]@);
}

/// A desktop's backend is reported as available exactly if its service is known to
/// have an owner, and the portal's likewise.
pub proof fn desktops_are_available_if_owned(
    owner: Option<OwnerReply>,
    probe: PortalProbe,
    g: GnomeBackend,
    k: KdeBackend,
    s: ScreenSaverBackend,
    p: PortalBackend,
    gr: DoctorReport,
    kr: DoctorReport,
    sr: DoctorReport,
    pr: DoctorReport,
)
    requires
        call_ensures(GnomeBackend::doctor, (&g, owner), gr),
        call_ensures(KdeBackend::doctor, (&k, owner), kr),
        call_ensures(ScreenSaverBackend::doctor, (&s, owner), sr),
        call_ensures(PortalBackend::doctor, (&p, probe), pr),
    ensures
        gr.available <==> owner == Some(OwnerReply::Owner(true)),
        kr.available <==> owner == Some(OwnerReply::Owner(true)),
        sr.available <==> owner == Some(OwnerReply::Owner(true)),
        pr.available <==> probe == PortalProbe::Asked(OwnerReply::Owner(true)),
        gr.supported && kr.supported && sr.supported && pr.supported,
        gr.backend@ == "gnome-session"@,
        kr.backend@ == "kde-powerdevil"@,
        sr.backend@ == "freedesktop-screensaver"@,
        pr.backend@ == "xdg-portal"@,
{
    assert(gr@.available == gr.available && gr@.supported == gr.supported);
    assert(kr@.available == kr.available && kr@.supported == kr.supported);
    assert(sr@.available == sr.available && sr@.supported == sr.supported);
    assert(pr@.available == pr.available && pr@.supported == pr.supported);
}

/// logind is reported as available exactly if it is reachable, an X server exactly if
/// it answered, and Wayland never, for want of a surface.
pub proof fn servers_are_available_if_they_answer(
    facts: LogindProbe,
    probe: X11Probe,
    display: EnvVar,
    globals: Result<Vec<String>>,
    l: LogindBackend,
    x: X11Backend,
    w: WaylandBackend,
    lr: DoctorReport,
    xr: DoctorReport,
    wr: DoctorReport,
)
    requires
        call_ensures(LogindBackend::doctor, (&l, facts), lr),
        call_ensures(X11Backend::doctor, (&x, display, probe), xr),
        call_ensures(WaylandBackend::doctor, (&w, display, globals), wr),
    ensures
        lr.available <==> reachable(facts),
        xr.available <==> probe is Connected && probe->Connected_0 is Answered,
        !wr.available,
        lr.supported && xr.supported && wr.supported,
        lr.backend@ == "systemd-logind"@,
        xr.backend@ == "x11-screensaver"@,
        wr.backend@ == "wayland-idle-inhibit"@,
{
    assert(lr@.available == lr.available && lr@.supported == lr.supported);
    assert(xr@.available == xr.available && xr@.supported == xr.supported);
    assert(wr@.available == wr.available && wr@.supported == wr.supported);
}

/// Each desktop is asked in the name of the program and for the request's reason, to
/// inhibit what its interface has for it.
pub proof fn desktops_are_asked_for_the_reason(
    req: WakeRequest,
    g: GnomeBackend,
    k: KdeBackend,
    s: ScreenSaverBackend,
    ga: Acquire<GnomeCall>,
    ka: Acquire<KdeCall>,
    sa: Acquire<ScreenSaverCall>,
)
    requires
        call_ensures(GnomeBackend::acquire, (&g, &req), ga),
        call_ensures(KdeBackend::acquire, (&k, &req), ka),
        call_ensures(ScreenSaverBackend::acquire, (&s, &req), sa),
    ensures
        ga.target().dest@ == "org.gnome.SessionManager"@,
        ga.arguments().app_id@ == "Oxiwake"@,
        ga.arguments().toplevel_xid == 0,
        ga.arguments().reason@ == req.reason@,
        ga.arguments().flags == 4 + 8,
        ka.target().dest@ == "org.kde.Solid.PowerManagement.PolicyAgent"@,
        ka.arguments().actions == 1 + 2,
        ka.arguments().app@ == "Oxiwake"@,
        ka.arguments().reason@ == req.reason@,
        sa.target().dest@ == "org.freedesktop.ScreenSaver"@,
        sa.arguments().application_name@ == "Oxiwake"@,
        sa.arguments().reason@ == req.reason@,
{
}

/// What `powercfg` printed is its output and then its errors.
pub proof fn both_streams_are_kept(stdout: &[u8], stderr: &[u8], r: String)
    requires
        call_ensures(powercfg_text, (stdout, stderr), r),
    ensures
        r@ == lossy_text(stdout@) + lossy_text(stderr@),
{
}

/// The Windows backend is reported as available if the power request worked, and
/// if the execution state worked, each on its own and both together; it is
/// unavailable only if neither did.
pub proof fn the_windows_doctor_counts_both_ways(
    b: Win32PowerBackend,
    probe: Win32Probe,
    r: DoctorReport,
)
    requires
        call_ensures(Win32PowerBackend::doctor, (&b, probe), r),
    ensures
        probe.power_request is Ok ==> r.available,
        probe.thread_state != 0 ==> r.available,
        probe.power_request is Err && probe.thread_state == 0 ==> !r.available,
        r.supported,
        r.backend@ == "win32-power"@,
{
    assert(r@.available == r.available);
}

/// A power request is attempted for the request's reason, with the display exactly
/// if the request wants it; the fallback state has the display's bit likewise.
pub proof fn a_power_request_is_for_the_request(
    b: Win32PowerBackend,
    req: WakeRequest,
    r: PowerRequestAttempt,
    wants: bool,
    with: u32,
    without: u32,
)
    requires
        call_ensures(Win32PowerBackend::acquire, (&b, &req), r),
        call_ensures(wants_display, (&req,), wants),
        call_ensures(fallback_state, (true,), with),
        call_ensures(fallback_state, (false,), without),
    ensures
        r.want_display == wants,
        req.display ==> wants,
        req.targets@.contains(WakeTarget::Display) ==> wants,
        !req.display && !req.targets@.contains(WakeTarget::Display) ==> !wants,
        r.reason@ == utf16(req.reason@).push(0u16),
        r.step is Create,
        with == 0x8000_0003,
        without == 0x8000_0001,
{
    assert(r.step@ is Create);
}

/// logind is asked for what the request says, by its name, for its reason, and to
/// block; a request that says nothing logind knows is refused.
pub proof fn logind_is_asked_for_the_request(
    b: LogindBackend,
    req: WakeRequest,
    r: Result<LogindAcquire>,
)
    requires
        call_ensures(LogindBackend::acquire, (&b, &req), r),
    ensures
        r is Ok ==> {
            &&& r->Ok_0.arguments().who == "Oxiwake"@
            &&& r->Ok_0.arguments().why == req.reason@
            &&& r->Ok_0.arguments().mode == "block"@
            &&& r->Ok_0.arguments().what == logind_what_text(req@)
        },
        r is Ok <==> req.aggressive_lid || exists|i: int|
            0 <= i < req.targets@.len() && req.targets@[i] != WakeTarget::Display,
        r is Err ==> r->Err_0@ == (ErrorView::AcquireFailed {
            backend: "systemd-logind"@,
            reason: "request maps to no logind `what` tokens"@,
        }),
{
    refused_exactly_without_tokens(req@);
}

/// From the flags to the bus: on Linux, what the user asked for is what logind is asked
/// for, the lid switch included, with the user's reason.
pub proof fn the_users_wish_reaches_logind(
    flags: RequestFlags,
    req: WakeRequest,
    b: LogindBackend,
    r: Result<LogindAcquire>,
)
    requires
        call_ensures(build_request, (Platform::Linux, flags), req),
        call_ensures(LogindBackend::acquire, (&b, &req), r),
    ensures
        r is Ok,
        flags.aggressive_lid ==> r->Ok_0.arguments().what == "sleep"@ + ":"@ + "idle"@ + ":"@
            + "handle-lid-switch"@,
        !flags.aggressive_lid ==> r->Ok_0.arguments().what == "sleep"@ + ":"@ + "idle"@,
        flags.reason is Some ==> r->Ok_0.arguments().why == flags.reason->Some_0@,
{
    flags_reach_logind(flags);
    refused_exactly_without_tokens(req@);
    assert(req@.targets[0] == WakeTarget::SystemSleep);
}

/// Taking the lock from logind goes on with the same arguments as long as nothing
/// fails; what fails is told as what it is.
pub proof fn logind_keeps_its_arguments(
    a: LogindAcquire,
    c: LogindConnected,
    d: LogindReady,
    e: String,
    c1: Result<LogindConnected>,
    c2: Result<LogindConnected>,
    p1: Result<LogindReady>,
    p2: Result<LogindReady>,
    g1: Result<LogindGuard>,
    g2: Result<LogindGuard>,
    g3: Result<LogindGuard>,
)
    requires
        call_ensures(LogindAcquire::connected, (a, Ok(())), c1),
        call_ensures(LogindAcquire::connected, (a, Err(e)), c2),
        call_ensures(LogindConnected::proxy, (c, Ok(())), p1),
        call_ensures(LogindConnected::proxy, (c, Err(e)), p2),
        call_ensures(LogindReady::called, (d, InhibitReply::Descriptor), g1),
        call_ensures(LogindReady::called, (d, InhibitReply::CallFailed(e)), g2),
        call_ensures(LogindReady::called, (d, InhibitReply::BadReply(e)), g3),
    ensures
        c1 is Ok && c1->Ok_0.arguments() == a.arguments(),
        c2 is Err && c2->Err_0@ == (ErrorView::BackendUnavailable {
            backend: "systemd-logind"@,
            reason: e@,
        }),
        p1 is Ok && p1->Ok_0.arguments() == c.arguments(),
        p2 is Err && p2->Err_0@ == ErrorView::Dbus(e@),
        g1 is Ok,
        occurs(e@, "AccessDenied"@) ==> g2 is Err && g2->Err_0@ == (
        ErrorView::AcquireFailed { backend: "systemd-logind"@, reason: e@ }),
        !denied(e@) ==> g2 is Err && g2->Err_0@ == ErrorView::Dbus(e@),
        g3 is Err && g3->Err_0@ == ErrorView::DbusDecode("Inhibit fd: "@ + e@),
{
}

/// Taking a lock on the session bus goes on with the same service and the same
/// arguments as long as nothing fails, and stops at a service that nobody owns.
pub proof fn session_locks_keep_their_arguments<C>(
    a: Acquire<C>,
    c: Connected<C>,
    o: Owned<C>,
    e: String,
    c1: Result<Connected<C>>,
    c2: Result<Connected<C>>,
    o1: Result<Owned<C>>,
    o2: Result<Owned<C>>,
    o3: Result<Owned<C>>,
    p1: Result<Ready<C>>,
    p2: Result<Ready<C>>,
)
    requires
        call_ensures(Acquire::<C>::connected, (a, Ok(())), c1),
        call_ensures(Acquire::<C>::connected, (a, Err(e)), c2),
        call_ensures(Connected::<C>::owner, (c, OwnerReply::Owner(true)), o1),
        call_ensures(Connected::<C>::owner, (c, OwnerReply::Owner(false)), o2),
        call_ensures(Connected::<C>::owner, (c, OwnerReply::CallFailed(e)), o3),
        call_ensures(Owned::<C>::proxy, (o, Ok(())), p1),
        call_ensures(Owned::<C>::proxy, (o, Err(e)), p2),
    ensures
        c1 is Ok && c1->Ok_0.target() == a.target() && c1->Ok_0.arguments() == a.arguments(),
        c2 is Err && c2->Err_0@ == (ErrorView::BackendUnavailable {
            backend: a.target().name@,
            reason: "no session D-Bus: "@ + e@,
        }),
        o1 is Ok && o1->Ok_0.target() == c.target() && o1->Ok_0.arguments() == c.arguments(),
        o2 is Err && o2->Err_0@ == (ErrorView::BackendUnavailable {
            backend: c.target().name@,
            reason: c.target().dest@ + " not owned on the session bus"@,
        }),
        o3 is Err && o3->Err_0@ == o2->Err_0@,
        p1 is Ok && p1->Ok_0.target() == o.target() && p1->Ok_0.arguments() == o.arguments(),
        p2 is Err && p2->Err_0@ == ErrorView::Dbus(e@),
{
}

/// A cookie is the lock, and giving it back takes that very cookie to the
/// service's own release method; a service without one is told nothing.
pub proof fn a_cookie_is_given_back<C>(
    d: Ready<C>,
    cookie: u32,
    e: String,
    got: Result<CookieGuard>,
    failed: Result<CookieGuard>,
    bad: Result<CookieGuard>,
    back: Option<(&'static str, u32)>,
)
    requires
        call_ensures(Ready::<C>::called, (d, CookieReply::Cookie(cookie)), got),
        call_ensures(Ready::<C>::called, (d, CookieReply::CallFailed(e)), failed),
        call_ensures(Ready::<C>::called, (d, CookieReply::BadReply(e)), bad),
        call_ensures(CookieGuard::release, (got->Ok_0,), back),
    ensures
        got is Ok,
        d.target().release is Some ==> back == Some((d.target().release->Some_0, cookie)),
        d.target().release is None ==> back is None,
        failed is Err && failed->Err_0@ == (ErrorView::AcquireFailed {
            backend: d.target().name@,
            reason: d.target().inhibit@ + " failed: "@ + e@,
        }),
        bad is Err && bad->Err_0@ == ErrorView::DbusDecode("cookie u32: "@ + e@),
{
}

/// The portal is asked to keep suspend and idle off for the request's reason, and
/// the handle that comes back is the lock.
pub proof fn the_portal_is_asked_for_suspend_and_idle(
    b: PortalBackend,
    req: WakeRequest,
    r: PortalAcquire,
    d: PortalReady,
    h: String,
    e: String,
    got: Result<PortalGuard>,
    failed: Result<PortalGuard>,
    bad: Result<PortalGuard>,
)
    requires
        call_ensures(PortalBackend::acquire, (&b, &req), r),
        call_ensures(PortalReady::called, (d, HandleReply::Handle(h)), got),
        call_ensures(PortalReady::called, (d, HandleReply::CallFailed(e)), failed),
        call_ensures(PortalReady::called, (d, HandleReply::BadReply(e)), bad),
    ensures
        r.arguments().window@ == ""@,
        r.arguments().flags == 4 + 8,
        r.arguments().option_key@ == "reason"@,
        r.arguments().option_value@ == req.reason@,
        got is Ok && got->Ok_0.handle() == h@ && !got->Ok_0.released(),
        failed is Err && failed->Err_0@ == (ErrorView::AcquireFailed {
            backend: "xdg-portal"@,
            reason: "portal Inhibit call failed: "@ + e@,
        }),
        bad is Err && bad->Err_0@ == ErrorView::DbusDecode(
            "portal Inhibit reply was not an object path: "@ + e@,
        ),
{
}

/// Taking the lock from the portal goes on with the same arguments as long as
/// nothing fails, and stops at a portal that nobody owns.
pub proof fn the_portal_keeps_its_arguments(
    a: PortalAcquire,
    c: PortalConnected,
    o: PortalOwned,
    e: String,
    c1: Result<PortalConnected>,
    c2: Result<PortalConnected>,
    o1: Result<PortalOwned>,
    o2: Result<PortalOwned>,
    o3: Result<PortalOwned>,
    p1: Result<PortalReady>,
    p2: Result<PortalReady>,
    known: Result<bool>,
)
    requires
        call_ensures(PortalAcquire::connected, (a, Ok(())), c1),
        call_ensures(PortalAcquire::connected, (a, Err(e)), c2),
        call_ensures(PortalConnected::owner, (c, OwnerReply::Owner(true)), o1),
        call_ensures(PortalConnected::owner, (c, OwnerReply::Owner(false)), o2),
        call_ensures(PortalConnected::owner, (c, OwnerReply::CallFailed(e)), o3),
        call_ensures(PortalOwned::proxy, (o, Ok(())), p1),
        call_ensures(PortalOwned::proxy, (o, Err(e)), p2),
        call_ensures(portal_owned, (OwnerReply::BadReply(e),), known),
    ensures
        c1 is Ok && c1->Ok_0.arguments() == a.arguments(),
        c2 is Err && c2->Err_0@ == (ErrorView::BackendUnavailable {
            backend: "xdg-portal"@,
            reason: "cannot connect to session D-Bus: "@ + e@,
        }),
        o1 is Ok && o1->Ok_0.arguments() == c.arguments(),
        o2 is Err && o2->Err_0@ == (ErrorView::BackendUnavailable {
            backend: "xdg-portal"@,
            reason: "org.freedesktop.portal.Desktop is not owned on the session bus"@,
        }),
        o3 is Err && o3->Err_0@ == ErrorView::Dbus(e@),
        p1 is Ok && p1->Ok_0.arguments() == o.arguments(),
        p2 is Err && p2->Err_0@ == (ErrorView::AcquireFailed {
            backend: "xdg-portal"@,
            reason: "cannot build Inhibit proxy: "@ + e@,
        }),
        known is Err && known->Err_0@ == ErrorView::DbusDecode(
            "NameHasOwner reply was not a bool: "@ + e@,
        ),
{
}

/// The timers of an X server are suspended with a one and resumed with a zero, and
/// only on a server that has the extension; what fails is told as what it is.
pub proof fn x11_timers_are_suspended_and_resumed(
    b: X11Backend,
    req: WakeRequest,
    connection: X11Connect,
    r: Result<X11Ready>,
    d: X11Ready,
    e: String,
    one: u32,
    zero: u32,
    argument: u32,
    held: Result<X11Guard>,
    unsent: Result<X11Guard>,
    rejected: Result<X11Guard>,
    unflushed: Result<X11Guard>,
)
    requires
        call_ensures(X11Backend::acquire, (&b, &req, connection), r),
        call_ensures(SuspendArg::value, (SuspendArg::Acquire,), one),
        call_ensures(SuspendArg::value, (SuspendArg::Release,), zero),
        call_ensures(X11Ready::argument, (&d,), argument),
        call_ensures(X11Ready::suspended, (d, SuspendOutcome::Suspended), held),
        call_ensures(X11Ready::suspended, (d, SuspendOutcome::RequestFailed(e)), unsent),
        call_ensures(X11Ready::suspended, (d, SuspendOutcome::Rejected(e)), rejected),
        call_ensures(X11Ready::suspended, (d, SuspendOutcome::FlushFailed(e)), unflushed),
    ensures
        r is Ok <==> connection is Extension && connection->Extension_0 is Some,
        one == 1 && zero == 0 && argument == 1,
        held is Ok && held->Ok_0.holds(),
        unsent is Err && unsent->Err_0@ == (ErrorView::AcquireFailed {
            backend: "x11-screensaver"@,
            reason: "screensaver_suspend request failed ("@ + e@ + ")"@,
        }),
        rejected is Err && rejected->Err_0@ == (ErrorView::AcquireFailed {
            backend: "x11-screensaver"@,
            reason: "screensaver_suspend rejected by X server ("@ + e@ + ")"@,
        }),
        unflushed is Err && unflushed->Err_0@ == (ErrorView::AcquireFailed {
            backend: "x11-screensaver"@,
            reason: "flushing X connection failed ("@ + e@ + ")"@,
        }),
{
}

/// A lock that is held is given up once: the portal's by closing its handle, the X
/// server's by resuming the timers, Wayland's by destroying the inhibitor. After that
/// there is nothing left to give up.
pub proof fn a_lock_is_given_up_once(
    portal: &mut PortalGuard,
    x11: &mut X11Guard,
    wayland: &mut WaylandGuard,
    close: Option<String>,
    resume: Option<u32>,
    destroy: bool,
)
    requires
        call_ensures(PortalGuard::release, (portal,), close),
        call_ensures(X11Guard::release, (x11,), resume),
        call_ensures(WaylandGuard::release, (wayland,), destroy),
    ensures
        final(portal).released(),
        final(portal).handle() == old(portal).handle(),
        !old(portal).released() ==> close is Some && close->Some_0@ == old(portal).handle(),
        old(portal).released() ==> close is None,
        !final(x11).holds(),
        old(x11).holds() ==> resume == Some(0u32),
        !old(x11).holds() ==> resume is None,
        !final(wayland).holds(),
        destroy <==> old(wayland).holds(),
{
}

/// A daemon never gets a lock from Wayland, and is told why; the compositor's
/// globals are handed on as they are.
pub proof fn wayland_never_grants_a_lock(
    b: WaylandBackend,
    req: WakeRequest,
    r: Result<WaylandGuard>,
    v: Vec<String>,
    e: String,
    globals: Result<Vec<String>>,
    unreached: Result<Vec<String>>,
    failed: Result<Vec<String>>,
    has: bool,
)
    requires
        call_ensures(WaylandBackend::acquire, (&b, &req), r),
        call_ensures(WaylandBackend::connect_and_snapshot, (WaylandConnect::Globals(v),), globals),
        call_ensures(
            WaylandBackend::connect_and_snapshot,
            (WaylandConnect::NoDisplay(e),),
            unreached,
        ),
        call_ensures(
            WaylandBackend::connect_and_snapshot,
            (WaylandConnect::RoundTripFailed(e),),
            failed,
        ),
        call_ensures(WaylandBackend::has_idle_inhibit_global, (&v,), has),
    ensures
        r is Err && r->Err_0@ == (ErrorView::BackendUnavailable {
            backend: "wayland-idle-inhibit"@,
            reason: "wayland idle-inhibit requires a visible wl_surface"@,
        }),
        globals is Ok && globals->Ok_0 == v,
        unreached is Err && unreached->Err_0@ == (ErrorView::BackendUnavailable {
            backend: "wayland-idle-inhibit"@,
            reason: "cannot connect to Wayland display ("@ + e@ + ")"@,
        }),
        failed is Err && failed->Err_0@ == (ErrorView::BackendUnavailable {
            backend: "wayland-idle-inhibit"@,
            reason: "Wayland registry round-trip failed ("@ + e@ + ")"@,
        }),
        has <==> exists|i: int|
            0 <= i < v@.len() && (#[trigger] v@[i])@ == "zwp_idle_inhibit_manager_v1"@,
{
    let wanted = "zwp_idle_inhibit_manager_v1"@;
    let all = texts(v@);
    if has {
        let i = choose|i: int| 0 <= i < all.len() && all[i] == wanted;
        assert(v@[i]@ == wanted);
    }
    if exists|i: int| 0 <= i < v@.len() && (#[trigger] v@[i])@ == wanted {
        let i = choose|i: int| 0 <= i < v@.len() && (#[trigger] v@[i])@ == wanted;
        assert(all[i] == wanted);
    }
}

} // verus!
