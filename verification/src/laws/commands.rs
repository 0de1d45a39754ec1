//! The commands: `on`, `off`, `toggle` and `status`.

use crate::backend::windows::display_wanted;
use crate::cli::{
    flagged_request, live, on_note_human, on_note_json, running, status_answer, toggled,
    verbosity_level, RequestFlags, Toggle,
};
use crate::daemon::reply_to;
use crate::error::{error_text, ErrorView, IoErrorView};
use crate::ipc::{ClientMsg, DaemonReplyView};
use crate::json::{json_object_text, object_text, JsonValueView};
use crate::model::{
    first_occurrences, logind_what_text, mode_name, requested_tokens, target_tokens,
    target_wire_name, token_of, what_tokens_are_the_requested_ones, WakeMode, WakeStatusView,
    WakeTarget,
};
use crate::output::{
    age_parts, age_text, backend_line, elapsed, live_lines, off_object, since_line, status_label,
    status_lines, target_label, target_labels, targets_line, targets_text, wire_names,
};
use crate::platform::Platform;
use crate::state::LockStateView;
use crate::text::{decimal_text, joined};
use vstd::prelude::*;

verus! {

// ---------------------------------------------------------------------------
// Flags
// ---------------------------------------------------------------------------

/// What the user asked for is what is requested: each flag ends up in the request
/// as it was given, on every platform, and a reason that was given is kept. What
/// was not asked for is the platform's default.
pub proof fn flags_reach_the_request(p: Platform, flags: RequestFlags)
    ensures
        flagged_request(p, flags).display == flags.display,
        flagged_request(p, flags).aggressive_lid == flags.aggressive_lid,
        flags.reason is Some ==> flagged_request(p, flags).reason == flags.reason->Some_0@,
        flags.reason is None ==> flagged_request(p, flags).reason == "Oxiwake wake lock enabled"@,
        p == Platform::Windows ==> flagged_request(p, flags).targets =~= seq![
            WakeTarget::SystemSleep,
        ],
        p != Platform::Windows ==> flagged_request(p, flags).targets =~= seq![
            WakeTarget::SystemSleep,
            WakeTarget::Idle,
        ],
{
}

/// On Linux, what the user asked for is what logind is asked for: sleep and idle
/// in any case, and the lid switch exactly if the user wants it.
pub proof fn flags_reach_logind(flags: RequestFlags)
    ensures
        ({
            let req = flagged_request(Platform::Linux, flags);
            let asked = first_occurrences(requested_tokens(req));
            &&& asked.contains("sleep"@)
            &&& asked.contains("idle"@)
            &&& asked.contains("handle-lid-switch"@) <==> flags.aggressive_lid
            &&& !asked.contains("shutdown"@)
            &&& logind_what_text(req) == if flags.aggressive_lid {
                "sleep"@ + ":"@ + "idle"@ + ":"@ + "handle-lid-switch"@
            } else {
                "sleep"@ + ":"@ + "idle"@
            }
        }),
{
    let req = flagged_request(Platform::Linux, flags);
    reveal_strlit("sleep");
    reveal_strlit("idle");
    reveal_strlit("handle-lid-switch");
    reveal_strlit("shutdown");
    assert("sleep"@.len() == 5 && "idle"@.len() == 4 && "handle-lid-switch"@.len() == 17
        && "shutdown"@.len() == 8);
    what_tokens_are_the_requested_ones(req, "sleep"@);
    what_tokens_are_the_requested_ones(req, "idle"@);
    what_tokens_are_the_requested_ones(req, "handle-lid-switch"@);
    what_tokens_are_the_requested_ones(req, "shutdown"@);
    assert(req.targets[0] == WakeTarget::SystemSleep && req.targets[1] == WakeTarget::Idle);
    assert(token_of(req.targets[0]) == Some("sleep"@));
    assert(token_of(req.targets[1]) == Some("idle"@));
    reveal_with_fuel(target_tokens, 4);
    reveal_with_fuel(first_occurrences, 5);
    reveal_with_fuel(joined, 4);
    assert(req.targets.drop_last() =~= seq![WakeTarget::SystemSleep]);
    assert(req.targets.drop_last().drop_last() =~= Seq::<WakeTarget>::empty());
    let two = target_tokens(req.targets);
    assert(two =~= seq!["sleep"@, "idle"@]);
    assert(two.drop_last() =~= seq!["sleep"@]);
    assert(two.drop_last().drop_last() =~= Seq::<Seq<char>>::empty());
    assert(first_occurrences(two) =~= two);
    if flags.aggressive_lid {
        let three = two.push("handle-lid-switch"@);
        assert(three.drop_last() =~= two);
        assert(!two.contains("handle-lid-switch"@));
        assert(first_occurrences(three) =~= three);
        assert(joined(three, ":"@) =~= "sleep"@ + ":"@ + "idle"@ + ":"@ + "handle-lid-switch"@);
    } else {
        assert(joined(two, ":"@) =~= "sleep"@ + ":"@ + "idle"@);
    }
}

/// On Windows, the display is required exactly if the user wants it.
pub proof fn flags_reach_the_power_request(flags: RequestFlags)
    ensures
        display_wanted(flagged_request(Platform::Windows, flags)) == flags.display,
{
    let targets = flagged_request(Platform::Windows, flags).targets;
    if targets.contains(WakeTarget::Display) {
        let i = choose|i: int| 0 <= i < targets.len() && targets[i] == WakeTarget::Display;
        assert(targets[i] == WakeTarget::SystemSleep);
    }
}

/// More `-v` flags never make the log quieter, and the first three each make it
/// louder.
pub proof fn verbosity_counts_up(verbose: u8)
    ensures
        verbose == 0 ==> verbosity_level(verbose) == "warn"@,
        verbose == 1 ==> verbosity_level(verbose) == "info"@,
        verbose == 2 ==> verbosity_level(verbose) == "debug"@,
        verbose >= 3 ==> verbosity_level(verbose) == "trace"@,
{
}

// ---------------------------------------------------------------------------
// What a daemon's answer means
// ---------------------------------------------------------------------------

/// A fine answer means that a daemon runs, and the toggle turns it off. An answer
/// that refuses means that none does; and so do nobody listening and a missing
/// runtime directory. No other failure is taken for "not running".
pub proof fn only_absence_counts_as_off(
    reply: core::result::Result<DaemonReplyView, ErrorView>,
)
    ensures
        reply is Ok && reply->Ok_0.ok ==> toggled(reply) == Ok::<Toggle, ErrorView>(
            Toggle::TurnOff,
        ) && running(reply) == Ok::<bool, ErrorView>(true),
        reply is Ok && !reply->Ok_0.ok ==> toggled(reply) == Ok::<Toggle, ErrorView>(
            Toggle::TurnOn,
        ) && running(reply) == Ok::<bool, ErrorView>(false),
        reply is Err && (reply->Err_0 is NotRunning || reply->Err_0 is State) ==> toggled(reply)
            == Ok::<Toggle, ErrorView>(Toggle::TurnOn) && running(reply) == Ok::<bool, ErrorView>(
            false,
        ) && live(reply) is Ok && live(reply)->Ok_0 is None,
        reply is Err && !(reply->Err_0 is NotRunning) && !(reply->Err_0 is State) ==> {
            &&& toggled(reply) is Err && toggled(reply)->Err_0 == reply->Err_0
            &&& running(reply) is Err && running(reply)->Err_0 == reply->Err_0
            &&& live(reply) is Err && live(reply)->Err_0 == reply->Err_0
        },
{
}

/// What the daemon says of its lock is what is known of it: its status and its
/// process. A refusal is passed on in its own words.
pub proof fn the_daemon_is_taken_at_its_word(d: DaemonReplyView)
    ensures
        d.ok && d.status is Some ==> live(Ok(d)) is Ok && live(Ok(d))->Ok_0 == Some(
            (d.status->Some_0, d.pid),
        ),
        d.ok && d.status is None ==> live(Ok(d)) is Ok && live(Ok(d))->Ok_0 is None,
        !d.ok && d.error is Some ==> live(Ok(d)) is Err && live(Ok(d))->Err_0 == ErrorView::Ipc(
            d.error->Some_0,
        ),
        !d.ok && d.error is None ==> live(Ok(d)) is Err && live(Ok(d))->Err_0 == ErrorView::Ipc(
            "daemon replied !ok"@,
        ),
{
}

// ---------------------------------------------------------------------------
// status
// ---------------------------------------------------------------------------

/// The members that say of a lock what a machine reads: on, and the daemon's own
/// backend, targets, mode and display.
pub open spec fn says_the_lock(
    object: Seq<(Seq<char>, JsonValueView)>,
    status: WakeStatusView,
) -> bool {
    &&& object.contains(("state"@, JsonValueView::Text("on"@)))
    &&& object.contains(("backend"@, JsonValueView::Text(status.backend)))
    &&& object.contains(("targets"@, JsonValueView::List(wire_names(status.targets))))
    &&& object.contains(("mode"@, JsonValueView::Text(mode_name(status.mode))))
    &&& object.contains(("display"@, JsonValueView::Flag(status.display)))
}

/// A machine is told the truth. Where a daemon tells its status, the JSON answer
/// is the text of an object that says on, with the daemon's backend, targets, mode
/// and display; where there is a snapshot, also with its process, its start time
/// and the seconds since then, and where there is none, with the process if the
/// daemon told it. Each key is there once, and the object is not that of off.
pub proof fn json_status_tells_the_truth(
    d: DaemonReplyView,
    state: Option<LockStateView>,
    now: u64,
)
    requires
        d.ok,
        d.status is Some,
    ensures
        exists|object: Seq<(Seq<char>, JsonValueView)>|
            {
                &&& #[trigger] says_the_lock(object, d.status->Some_0)
                &&& status_answer(state, Ok(d), true, now) == Ok::<Seq<char>, ErrorView>(
                    object_text(json_object_text(object)),
                )
                &&& state is Some ==> {
                    &&& object.len() == 8
                    &&& object.contains(("pid"@, JsonValueView::Number(state->Some_0.pid as u64)))
                    &&& object.contains(
                        ("since_unix"@, JsonValueView::Number(state->Some_0.started_unix)),
                    )
                    &&& now >= state->Some_0.started_unix ==> object.contains(
                        (
                            "elapsed_secs"@,
                            JsonValueView::Number((now - state->Some_0.started_unix) as u64),
                        ),
                    )
                    &&& now < state->Some_0.started_unix ==> object.contains(
                        ("elapsed_secs"@, JsonValueView::Number(0)),
                    )
                }
                &&& state is None && d.pid is Some ==> object.len() == 6 && object.contains(
                    ("pid"@, JsonValueView::Number(d.pid->Some_0 as u64)),
                )
                &&& state is None && d.pid is None ==> object.len() == 5
                &&& object != off_object()
                &&& !object.contains(("state"@, JsonValueView::Text("off"@)))
            },
{
    let s = d.status->Some_0;
    let base = seq![
        ("state"@, JsonValueView::Text("on"@)),
        ("backend"@, JsonValueView::Text(s.backend)),
        ("targets"@, JsonValueView::List(wire_names(s.targets))),
        ("mode"@, JsonValueView::Text(mode_name(s.mode))),
        ("display"@, JsonValueView::Flag(s.display)),
    ];
    let object = match state {
        Some(st) => base + seq![
            ("pid"@, JsonValueView::Number(st.pid as u64)),
            ("since_unix"@, JsonValueView::Number(st.started_unix)),
            (
                "elapsed_secs"@,
                JsonValueView::Number(
                    if now >= st.started_unix {
                        (now - st.started_unix) as u64
                    } else {
                        0
                    },
                ),
            ),
        ],
        None => match d.pid {
            Some(n) => base.push(("pid"@, JsonValueView::Number(n as u64))),
            None => base,
        },
    };
    assert(base[0] == object[0] && base[1] == object[1] && base[2] == object[2] && base[3]
        == object[3] && base[4] == object[4]);
    if state is Some {
        assert(object[5].0 == "pid"@ && object[6].0 == "since_unix"@ && object[7].0
            == "elapsed_secs"@);
    } else if d.pid is Some {
        assert(object[5].0 == "pid"@);
    }
    assert(says_the_lock(object, s));
    reveal_strlit("on");
    reveal_strlit("off");
    reveal_strlit("state");
    reveal_strlit("backend");
    reveal_strlit("targets");
    reveal_strlit("mode");
    reveal_strlit("display");
    reveal_strlit("pid");
    reveal_strlit("since_unix");
    reveal_strlit("elapsed_secs");
    assert("on"@.len() == 2 && "off"@.len() == 3);
    assert("state"@.len() == 5 && "backend"@.len() == 7 && "targets"@.len() == 7 && "mode"@.len()
        == 4 && "display"@.len() == 7 && "pid"@.len() == 3 && "since_unix"@.len() == 10
        && "elapsed_secs"@.len() == 12);
    assert(object.len() != off_object().len());
    assert forall|i: int| 0 <= i < object.len() implies object[i] != (
        "state"@,
        JsonValueView::Text("off"@),
    ) by {
        if i > 0 {
            assert(object[i].0.len() != 5);
        }
    }
}

/// Where nobody is there, the JSON answer is the text of the object that says off
/// and not running, and the human answer says that it is not running.
pub proof fn absence_is_told_as_off(
    e: ErrorView,
    state: Option<LockStateView>,
    now: u64,
)
    requires
        e is NotRunning || e is State,
    ensures
        status_answer(state, Err(e), true, now) == Ok::<Seq<char>, ErrorView>(
            object_text(
                json_object_text(
                    seq![
                        ("state"@, JsonValueView::Text("off"@)),
                        ("running"@, JsonValueView::Flag(false)),
                    ],
                ),
            ),
        ),
        status_answer(state, Err(e), false, now) == Ok::<Seq<char>, ErrorView>(
            "state:     off (oxiwake is not running)"@,
        ),
{
}

/// A human is told the truth: the backend that holds the lock and its process,
/// the honoured targets with the mode and the display, and since when the lock is
/// held, each on a line of its own with its value in the same column.
pub proof fn human_status_tells_the_truth(
    d: DaemonReplyView,
    state: LockStateView,
    now: u64,
)
    requires
        d.ok,
        d.status is Some,
    ensures
        ({
            let s = d.status->Some_0;
            let shown = if s.display {
                "], display kept on"@
            } else {
                "]"@
            };
            &&& status_answer(Some(state), Ok(d), false, now) == Ok::<Seq<char>, ErrorView>(
                joined(
                    seq![
                        "backend:   "@ + s.backend + " (on, pid "@ + decimal_text(state.pid as nat)
                            + ")"@,
                        "targets:   "@ + targets_text(s.targets) + " ["@ + mode_name(s.mode)
                            + shown,
                        "since:     started "@ + decimal_text(state.started_unix as nat) + " ("@
                            + age_text(now, state.started_unix) + " ago)"@,
                    ],
                    "\n"@,
                ),
            )
            &&& d.pid is Some ==> status_answer(None, Ok(d), false, now) == Ok::<
                Seq<char>,
                ErrorView,
            >(
                joined(
                    seq![
                        "backend:   "@ + s.backend + " (on, pid "@ + decimal_text(
                            d.pid->Some_0 as nat,
                        ) + ")"@,
                        "targets:   "@ + targets_text(s.targets) + " ["@ + mode_name(s.mode)
                            + shown,
                        "since:     unknown"@,
                    ],
                    "\n"@,
                ),
            )
            &&& d.pid is None ==> status_answer(None, Ok(d), false, now) == Ok::<
                Seq<char>,
                ErrorView,
            >(
                joined(
                    seq![
                        "backend:   "@ + s.backend + " (on)"@,
                        "targets:   "@ + targets_text(s.targets) + " ["@ + mode_name(s.mode)
                            + shown,
                        "since:     unknown"@,
                    ],
                    "\n"@,
                ),
            )
        }),
{
    let s = d.status->Some_0;
    labels_are_padded();
    let shown = if s.display {
        "], display kept on"@
    } else {
        "]"@
    };
    let targets = "targets:   "@ + targets_text(s.targets) + " ["@ + mode_name(s.mode) + shown;
    assert(targets_line(s) =~= targets);
    let first = "backend:   "@ + s.backend + " (on, pid "@ + decimal_text(state.pid as nat) + ")"@;
    assert(backend_line(s.backend, Some(state.pid)) =~= first);
    let last = "since:     started "@ + decimal_text(state.started_unix as nat) + " ("@ + age_text(
        now,
        state.started_unix,
    ) + " ago)"@;
    assert(since_line(state.started_unix, now) =~= last);
    assert(status_lines(s, state, now) =~= seq![first, targets, last]);
    if let Some(n) = d.pid {
        let told = "backend:   "@ + s.backend + " (on, pid "@ + decimal_text(n as nat) + ")"@;
        assert(backend_line(s.backend, d.pid) =~= told);
        assert(live_lines(s, d.pid) =~= seq![told, targets, "since:     unknown"@]);
    } else {
        let told = "backend:   "@ + s.backend + " (on)"@;
        assert(backend_line(s.backend, d.pid) =~= told);
        assert(live_lines(s, d.pid) =~= seq![told, targets, "since:     unknown"@]);
    }
}

proof fn labels_are_padded()
    ensures
        status_label("backend:"@) == "backend:   "@,
        status_label("targets:"@) == "targets:   "@,
        status_label("since:"@) + "started "@ == "since:     started "@,
        status_label("since:"@) + "unknown"@ == "since:     unknown"@,
{
    reveal_strlit("backend:");
    reveal_strlit("backend:   ");
    reveal_strlit("targets:");
    reveal_strlit("targets:   ");
    reveal_strlit("since:");
    reveal_strlit("started ");
    reveal_strlit("unknown");
    reveal_strlit("since:     started ");
    reveal_strlit("since:     unknown");
    reveal_strlit(" ");
    assert(status_label("backend:"@) =~= "backend:   "@);
    assert(status_label("targets:"@) =~= "targets:   "@);
    assert(status_label("since:"@) + "started "@ =~= "since:     started "@);
    assert(status_label("since:"@) + "unknown"@ =~= "since:     unknown"@);
}

/// Targets are named one after the other with a plus sign between them: as logind
/// names them where it has a name, and `none` where there are none.
pub proof fn targets_are_named_in_order(targets: Seq<WakeTarget>, t: WakeTarget)
    ensures
        targets_text(Seq::<WakeTarget>::empty()) == "none"@,
        targets.len() == 0 ==> targets_text(targets.push(t)) == target_label(t),
        targets.len() > 0 ==> targets_text(targets.push(t)) == targets_text(targets) + "+"@
            + target_label(t),
        t == WakeTarget::SystemSleep ==> target_label(t) == "sleep"@,
        t == WakeTarget::Idle ==> target_label(t) == "idle"@,
        t == WakeTarget::Display ==> target_label(t) == "display"@,
        t == WakeTarget::LidSwitch ==> target_label(t) == "handle-lid-switch"@,
        t == WakeTarget::Shutdown ==> target_label(t) == "shutdown"@,
{
    let all = target_labels(targets.push(t));
    assert(all.drop_last() =~= target_labels(targets));
    assert(all.last() == target_label(t));
}

/// In messages, files and JSON a target has its own kebab-case name, and a mode
/// the name that logind knows it by. No two targets and no two modes share one.
pub proof fn wire_names_are_the_values_names(
    targets: Seq<WakeTarget>,
    i: int,
    t: WakeTarget,
    m: WakeMode,
)
    ensures
        0 <= i < targets.len() ==> wire_names(targets)[i] == target_wire_name(targets[i]),
        wire_names(targets).len() == targets.len(),
        target_wire_name(t) == match t {
            WakeTarget::SystemSleep => "system-sleep"@,
            WakeTarget::Idle => "idle"@,
            WakeTarget::Display => "display"@,
            WakeTarget::LidSwitch => "lid-switch"@,
            WakeTarget::Shutdown => "shutdown"@,
        },
        mode_name(m) == match m {
            WakeMode::Block => "block"@,
            WakeMode::Delay => "delay"@,
            WakeMode::BlockWeak => "block-weak"@,
        },
{
}

/// An age of so many hours, minutes and seconds is told as such: hours and minutes
/// only if there are any, the seconds in any case. A start in the future is told
/// as now.
pub proof fn ages_are_told_in_hours_minutes_seconds(
    started: u64,
    h: nat,
    m: nat,
    s: nat,
    now: u64,
)
    requires
        m < 60,
        s < 60,
        now == started + h * 3600 + m * 60 + s,
    ensures
        h == 0 && m == 0 ==> age_text(now, started) == decimal_text(s) + "s"@,
        h == 0 && m > 0 ==> age_text(now, started) == decimal_text(m) + "m"@ + " "@ + (decimal_text(
            s,
        ) + "s"@),
        h > 0 && m == 0 ==> age_text(now, started) == decimal_text(h) + "h"@ + " "@ + (decimal_text(
            s,
        ) + "s"@),
        h > 0 && m > 0 ==> age_text(now, started) == decimal_text(h) + "h"@ + " "@ + (decimal_text(
            m,
        ) + "m"@) + " "@ + (decimal_text(s) + "s"@),
        forall|early: u64| early <= started ==> #[trigger] age_text(early, started) == decimal_text(
            0,
        ) + "s"@,
{
    let d = elapsed(now, started);
    assert(d == h * 3600 + m * 60 + s);
    assert(d / 3600 == h && (d / 60) % 60 == m && d % 60 == s) by (nonlinear_arith)
        requires
            d == h * 3600 + m * 60 + s,
            m < 60,
            s < 60,
    ;
    reveal_with_fuel(joined, 4);
    let parts = age_parts(d);
    if h > 0 && m > 0 {
        assert(parts.drop_last().drop_last() =~= seq![decimal_text(h) + "h"@]);
        assert(parts.drop_last() =~= seq![decimal_text(h) + "h"@, decimal_text(m) + "m"@]);
    } else if h > 0 {
        assert(parts.drop_last() =~= seq![decimal_text(h) + "h"@]);
    } else if m > 0 {
        assert(parts.drop_last() =~= seq![decimal_text(m) + "m"@]);
    }
    assert forall|early: u64| early <= started implies #[trigger] age_text(early, started)
        == decimal_text(0) + "s"@ by {
        assert(elapsed(early, started) == 0);
        assert(age_parts(0) =~= seq![decimal_text(0) + "s"@]);
    }
}

// ---------------------------------------------------------------------------
// on, off, and failures
// ---------------------------------------------------------------------------

/// A lock that was taken is confirmed with its backend and the number of its
/// targets, and for a human with whether the display is kept on.
pub proof fn on_is_confirmed(s: WakeStatusView)
    ensures
        on_note_json(s) == "backend="@ + s.backend + " targets="@ + decimal_text(s.targets.len()),
        s.display ==> on_note_human(s) == s.backend + " holding "@ + decimal_text(s.targets.len())
            + " target(s), display "@ + "on"@,
        !s.display ==> on_note_human(s) == s.backend + " holding "@ + decimal_text(s.targets.len())
            + " target(s), display "@ + "off"@,
{
}

/// The three kinds of message get three kinds of answer, all of them fine: a
/// `Ping` learns the lock and the process, a `Status` the lock, and a `Stop` only
/// that it was heard.
pub proof fn every_message_is_answered(status: WakeStatusView, pid: u32)
    ensures
        reply_to(ClientMsg::Ping, status, pid) == (DaemonReplyView {
            ok: true,
            error: None,
            status: Some(status),
            pid: Some(pid),
        }),
        reply_to(ClientMsg::Status, status, pid) == (DaemonReplyView {
            ok: true,
            error: None,
            status: Some(status),
            pid: None,
        }),
        reply_to(ClientMsg::Stop, status, pid) == (DaemonReplyView {
            ok: true,
            error: None,
            status: None,
            pid: None,
        }),
{
}

/// An error's line holds what went wrong and where: the backend and the reason,
/// the library's or the platform's own words, or the process that runs already.
pub proof fn errors_tell_what_went_wrong(
    backend: Seq<char>,
    reason: Seq<char>,
    io: IoErrorView,
    pid: u32,
)
    ensures
        error_text(ErrorView::BackendUnavailable { backend, reason }) == "backend "@ + backend
            + " unavailable: "@ + reason,
        error_text(ErrorView::AcquireFailed { backend, reason }) == "backend "@ + backend
            + " could not acquire lock: "@ + reason,
        error_text(ErrorView::Dbus(reason)) == "D-Bus error: "@ + reason,
        error_text(ErrorView::DbusDecode(reason)) == "D-Bus reply decode error: "@ + reason,
        error_text(ErrorView::Io(io)) == "io error: "@ + io.message,
        error_text(ErrorView::State(reason)) == "state error: "@ + reason,
        error_text(ErrorView::Ipc(reason)) == "ipc error: "@ + reason,
        error_text(ErrorView::NotRunning) == "oxiwake is not running"@,
        error_text(ErrorView::AlreadyRunning(pid)) == "oxiwake is already running (pid "@
            + decimal_text(pid as nat) + ")"@,
        error_text(ErrorView::Other(reason)) == reason,
{
}

} // verus!
