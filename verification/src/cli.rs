//! The commands: from flags to a request, and from outcomes to what is printed.

use crate::daemon::{reply_outcome, reply_to};
use crate::error::{error_text, ErrorView, OxiwakeError, Result};
use crate::ipc::{ClientMsg, DaemonReply, DaemonReplyView};
use crate::json::{json_object_text, object_text};
use crate::model::{
    default_linux_request, default_windows_request, WakeRequest, WakeRequestView, WakeStatus,
    WakeStatusView,
};
use crate::output::{
    human_live, human_off, human_simple, human_status, json_live, json_off, json_simple,
    json_status, live_lines, live_object, off_object, simple_object, status_lines,
    status_object,
};
use crate::platform::{outcome, Platform};
use crate::state::{LockState, LockStateView};
use crate::text::{decimal, decimal_text, joined, trim, trimmed};
use vstd::prelude::*;
use vstd::string::*;

verus! {

// ---------------------------------------------------------------------------
// Flags
// ---------------------------------------------------------------------------

/// The flags of `on` and `toggle`.
#[derive(Debug)]
pub struct RequestFlags {
    /// Also keep the display on.
    pub display: bool,
    /// Also inhibit the lid switch.
    pub aggressive_lid: bool,
    /// The reason to give.
    pub reason: Option<String>,
}

impl RequestFlags {
    /// The flags of `on`.
    pub fn from_on(display: bool, aggressive_lid: bool, reason: Option<String>) -> (r: RequestFlags)
        ensures
            r == (RequestFlags { display, aggressive_lid, reason }),
    {
        RequestFlags { display, aggressive_lid, reason }
    }

    /// The flags of `toggle`.
    pub fn from_toggle(display: bool, aggressive_lid: bool, reason: Option<String>) -> (r:
        RequestFlags)
        ensures
            r == (RequestFlags { display, aggressive_lid, reason }),
    {
        RequestFlags { display, aggressive_lid, reason }
    }
}

/// The default request of a platform.
pub open spec fn default_request(p: Platform) -> WakeRequestView {
    if p == Platform::Windows {
        default_windows_request()
    } else {
        default_linux_request()
    }
}

/// The platform's default request with the flags applied.
pub open spec fn flagged_request(p: Platform, flags: RequestFlags) -> WakeRequestView {
    WakeRequestView {
        targets: default_request(p).targets,
        reason: match flags.reason {
            Some(t) => t@,
            None => default_request(p).reason,
        },
        display: flags.display,
        aggressive_lid: flags.aggressive_lid,
    }
}

/// Build the request that flags ask for.
pub fn build_request(p: Platform, flags: RequestFlags) -> (r: WakeRequest)
    ensures
        r@ == flagged_request(p, flags),
        r.display == flags.display,
        r.aggressive_lid == flags.aggressive_lid,
        flags.reason is Some ==> r.reason@ == flags.reason->Some_0@,
{
    let base = match p {
        Platform::Windows => WakeRequest::default_windows(),
        _ => WakeRequest::default_linux(),
    };
    WakeRequest {
        targets: base.targets,
        reason: match flags.reason {
            Some(t) => t,
            None => base.reason,
        },
        display: flags.display,
        aggressive_lid: flags.aggressive_lid,
    }
}

// ---------------------------------------------------------------------------
// Logging
// ---------------------------------------------------------------------------

/// The level that so many `-v` flags ask for.
pub open spec fn verbosity_level(verbose: u8) -> Seq<char> {
    if verbose == 0 {
        "warn"@
    } else if verbose == 1 {
        "info"@
    } else if verbose == 2 {
        "debug"@
    } else {
        "trace"@
    }
}

/// The log level to use, or `None` if the environment's own setting is to be
/// used: it wins wherever it is not blank.
pub fn log_directive(env: Option<String>, verbose: u8) -> (r: Option<&'static str>)
    ensures
        if env is Some && trimmed(env->Some_0@).len() > 0 {
            r is None
        } else {
            r is Some && r->Some_0@ == verbosity_level(verbose)
        },
{
    if let Some(v) = env {
        if trim(v.as_str()).as_str().unicode_len() > 0 {
            return None;
        }
    }
    match verbose {
        0 => Some("warn"),
        1 => Some("info"),
        2 => Some("debug"),
        _ => Some("trace"),
    }
}

// ---------------------------------------------------------------------------
// on and off
// ---------------------------------------------------------------------------

/// The note of a machine-readable `on`.
pub open spec fn on_note_json(s: WakeStatusView) -> Seq<char> {
    "backend="@ + s.backend + " targets="@ + decimal_text(s.targets.len())
}

/// The note of a human-readable `on`.
pub open spec fn on_note_human(s: WakeStatusView) -> Seq<char> {
    s.backend + " holding "@ + decimal_text(s.targets.len()) + " target(s), display "@
        + if s.display {
        "on"@
    } else {
        "off"@
    }
}

/// What `on` prints once the daemon holds the lock.
pub fn cmd_on(status: &WakeStatus, json: bool) -> (r: String)
    ensures
        r@ == if json {
            object_text(json_object_text(simple_object("on"@, Some(on_note_json(status@)))))
        } else {
            "on"@ + ": "@ + on_note_human(status@)
        },
{
    let count = decimal(status.targets.len() as u64);
    if json {
        let note = "backend=".to_string().concat(status.backend.as_str()).concat(
            " targets=",
        ).concat(count.as_str());
        json_simple("on", Some(note.as_str()))
    } else {
        let note = status.backend.clone().concat(" holding ").concat(count.as_str()).concat(
            " target(s), display ",
        ).concat(
            if status.display {
                "on"
            } else {
                "off"
            },
        );
        human_simple("on", Some(note.as_str()))
    }
}

/// What `off` prints once no daemon runs.
pub fn cmd_off(json: bool) -> (r: String)
    ensures
        r@ == if json {
            object_text(json_object_text(simple_object("off"@, None)))
        } else {
            "off"@
        },
{
    if json {
        json_simple("off", None)
    } else {
        human_simple("off", None)
    }
}

// ---------------------------------------------------------------------------
// toggle and status
// ---------------------------------------------------------------------------

/// Whether an error says that there is no daemon: nobody listens, or there is no
/// runtime directory that a daemon could live in.
pub open spec fn says_off(e: ErrorView) -> bool {
    e is NotRunning || e is State
}

/// Whether a daemon runs, going by what asking it came to.
pub open spec fn running(
    reply: core::result::Result<DaemonReplyView, ErrorView>,
) -> core::result::Result<bool, ErrorView> {
    match reply {
        Ok(d) => Ok(d.ok),
        Err(e) => if says_off(e) {
            Ok(false)
        } else {
            Err(e)
        },
    }
}

/// Whether a daemon runs, going by what asking it came to. That nobody is there
/// is an answer; any other failure is not hidden behind a guess.
pub fn is_running(reply: Result<DaemonReply>) -> (r: Result<bool>)
    ensures
        outcome(r) == running(reply_outcome(reply)),
{
    match reply {
        Ok(d) => Ok(d.ok),
        Err(OxiwakeError::NotRunning) => Ok(false),
        Err(OxiwakeError::State(_)) => Ok(false),
        Err(e) => Err(e),
    }
}

/// What `toggle` does.
#[derive(Debug, Clone, Copy, PartialEq, Eq, Structural)]
pub enum Toggle {
    /// Start the daemon.
    TurnOn,
    /// Stop it.
    TurnOff,
}

/// What `toggle` does, going by what asking the daemon came to.
pub open spec fn toggled(
    reply: core::result::Result<DaemonReplyView, ErrorView>,
) -> core::result::Result<Toggle, ErrorView> {
    match running(reply) {
        Ok(true) => Ok(Toggle::TurnOff),
        Ok(false) => Ok(Toggle::TurnOn),
        Err(e) => Err(e),
    }
}

/// Flip the daemon's state, going by what asking it came to.
pub fn cmd_toggle(reply: Result<DaemonReply>) -> (r: Result<Toggle>)
    ensures
        outcome(r) == toggled(reply_outcome(reply)),
{
    match is_running(reply) {
        Ok(true) => Ok(Toggle::TurnOff),
        Ok(false) => Ok(Toggle::TurnOn),
        Err(e) => Err(e),
    }
}

/// What looking for the snapshot came to.
#[derive(Debug)]
pub enum StateLookup {
    /// The runtime files could not be located.
    Unresolved(OxiwakeError),
    /// The snapshot was read.
    Read(Result<Option<LockState>>),
}

/// The snapshot to report. Without a runtime directory there is none; a snapshot
/// that cannot be read is an error.
pub fn status_state(lookup: StateLookup) -> (r: Result<Option<LockState>>)
    ensures
        match lookup {
            StateLookup::Unresolved(e) => if e@ is State {
                r == Ok::<Option<LockState>, OxiwakeError>(None)
            } else {
                r == Err::<Option<LockState>, OxiwakeError>(e)
            },
            StateLookup::Read(read) => r == read,
        },
{
    match lookup {
        StateLookup::Unresolved(OxiwakeError::State(_)) => Ok(None),
        StateLookup::Unresolved(e) => Err(e),
        StateLookup::Read(r) => r,
    }
}

/// What a daemon tells of its lock: the status, and its process id if it gave
/// one.
pub type Told = (WakeStatusView, Option<u32>);

/// What the daemon tells of its lock, going by what asking it came to: `None` if
/// there is no daemon.
pub open spec fn live(
    reply: core::result::Result<DaemonReplyView, ErrorView>,
) -> core::result::Result<Option<Told>, ErrorView> {
    match reply {
        Ok(d) => if d.ok {
            Ok(
                match d.status {
                    Some(status) => Some((status, d.pid)),
                    None => None,
                },
            )
        } else {
            Err(
                ErrorView::Ipc(
                    match d.error {
                        Some(m) => m,
                        None => "daemon replied !ok"@,
                    },
                ),
            )
        },
        Err(e) => if says_off(e) {
            Ok(None)
        } else {
            Err(e)
        },
    }
}

/// What the daemon tells of its lock, going by what asking it came to.
pub fn live_status(reply: Result<DaemonReply>) -> (r: Result<Option<(WakeStatus, Option<u32>)>>)
    ensures
        match live(reply_outcome(reply)) {
            Ok(Some(told)) => r is Ok && r->Ok_0 is Some && r->Ok_0->Some_0.0@ == told.0
                && r->Ok_0->Some_0.1 == told.1,
            Ok(None) => r is Ok && r->Ok_0 is None,
            Err(e) => r is Err && r->Err_0@ == e,
        },
{
    match reply {
        Ok(d) => {
            let pid: Option<u32> = d.pid;
            if d.ok {
                match d.status {
                    Some(status) => Ok(Some((status, pid))),
                    None => Ok(None),
                }
            } else {
                Err(
                    OxiwakeError::Ipc(
                        match d.error {
                            Some(m) => m,
                            None => "daemon replied !ok".to_string(),
                        },
                    ),
                )
            }
        },
        Err(OxiwakeError::NotRunning) => Ok(None),
        Err(OxiwakeError::State(_)) => Ok(None),
        Err(e) => Err(e),
    }
}

/// What `status` prints of a lock: the full picture where there is a snapshot,
/// and what the daemon itself told where there is none.
pub open spec fn on_text(told: Told, state: Option<LockStateView>, json: bool, now: u64) -> Seq<
    char,
> {
    match state {
        Some(state) => if json {
            object_text(json_object_text(status_object(told.0, state, now)))
        } else {
            joined(status_lines(told.0, state, now), "\n"@)
        },
        None => if json {
            object_text(json_object_text(live_object(told.0, told.1)))
        } else {
            joined(live_lines(told.0, told.1), "\n"@)
        },
    }
}

/// What `status` prints where no daemon runs.
pub open spec fn off_text(json: bool) -> Seq<char> {
    if json {
        object_text(json_object_text(off_object()))
    } else {
        "state:     off (oxiwake is not running)"@
    }
}

/// What `status` prints: the lock if a daemon told its status, and that it is off
/// otherwise.
pub open spec fn status_text(
    told: Option<Told>,
    state: Option<LockStateView>,
    json: bool,
    now: u64,
) -> Seq<char> {
    match told {
        Some(told) => on_text(told, state, json, now),
        None => off_text(json),
    }
}

/// What `status` comes to, going by the snapshot and what asking the daemon came
/// to.
pub open spec fn status_answer(
    state: Option<LockStateView>,
    reply: core::result::Result<DaemonReplyView, ErrorView>,
    json: bool,
    now: u64,
) -> core::result::Result<Seq<char>, ErrorView> {
    match live(reply) {
        Ok(told) => Ok(status_text(told, state, json, now)),
        Err(e) => Err(e),
    }
}

/// What a snapshot, if there is one, says.
pub open spec fn state_view(state: Option<LockState>) -> Option<LockStateView> {
    match state {
        Some(s) => Some(s@),
        None => None,
    }
}

/// What `status` prints, given the snapshot and what asking the daemon came to.
pub fn cmd_status(
    state: Option<LockState>,
    reply: Result<DaemonReply>,
    json: bool,
    now_unix: u64,
) -> (r: Result<String>)
    ensures
        match status_answer(state_view(state), reply_outcome(reply), json, now_unix) {
            Ok(text) => r is Ok && r->Ok_0@ == text,
            Err(e) => r is Err && r->Err_0@ == e,
        },
{
    match live_status(reply) {
        Err(e) => Err(e),
        Ok(Some((status, pid))) => match state {
            Some(state) => {
                if json {
                    Ok(json_status(&status, &state, now_unix))
                } else {
                    Ok(human_status(&status, &state, now_unix))
                }
            },
            None => {
                if json {
                    Ok(json_live(&status, pid))
                } else {
                    Ok(human_live(&status, pid))
                }
            },
        },
        Ok(None) => {
            if json {
                Ok(json_off())
            } else {
                Ok(human_off())
            }
        },
    }
}

/// The line shown for an error.
pub fn failure_line(e: &OxiwakeError) -> (r: String)
    ensures
        r@ == "ow: "@ + error_text(e@),
{
    "ow: ".to_string().concat(e.message().as_str())
}

/// The toggle decision matches what `status` shows, with or without a snapshot.
/// Where a daemon told its status, the toggle turns it off and `status` prints its
/// lock; where nobody is there, the toggle turns it on and `status` prints that
/// it is off; any other failure fails both in the same way. What a human reads
/// tells the two apart.
///
/// The daemon's own answers are of this kind; a reply that refuses, or that is
/// fine and holds no status, is not.
pub proof fn toggle_agrees_with_status(
    reply: core::result::Result<DaemonReplyView, ErrorView>,
    state: Option<LockStateView>,
    json: bool,
    now: u64,
)
    requires
        reply is Ok ==> reply->Ok_0.ok && reply->Ok_0.status is Some,
    ensures
        toggled(reply) == Ok::<Toggle, ErrorView>(Toggle::TurnOff) <==> reply is Ok,
        reply is Ok ==> status_answer(state, reply, json, now) == Ok::<Seq<char>, ErrorView>(
            on_text((reply->Ok_0.status->Some_0, reply->Ok_0.pid), state, json, now),
        ),
        toggled(reply) == Ok::<Toggle, ErrorView>(Toggle::TurnOn) ==> status_answer(
            state,
            reply,
            json,
            now,
        ) == Ok::<Seq<char>, ErrorView>(off_text(json)),
        toggled(reply) is Err <==> status_answer(state, reply, json, now) is Err,
        toggled(reply) is Err ==> toggled(reply)->Err_0 == status_answer(
            state,
            reply,
            json,
            now,
        )->Err_0,
        toggled(reply) == Ok::<Toggle, ErrorView>(Toggle::TurnOn) <==> status_answer(
            state,
            reply,
            false,
            now,
        ) == Ok::<Seq<char>, ErrorView>(off_text(false)),
{
    if reply is Ok {
        on_is_not_off((reply->Ok_0.status->Some_0, reply->Ok_0.pid), state, now);
    }
}

/// The daemon's own answer to `Ping` tells its status.
pub proof fn the_daemon_tells_its_status(status: WakeStatusView, pid: u32)
    ensures
        reply_to(ClientMsg::Ping, status, pid).ok,
        reply_to(ClientMsg::Ping, status, pid).status == Some(status),
        live(Ok(reply_to(ClientMsg::Ping, status, pid))) == Ok::<Option<Told>, ErrorView>(
            Some((status, Some(pid))),
        ),
{
}

/// What is printed of a lock is never what is printed where there is none, and
/// the JSON objects of the two differ in their first member.
pub proof fn on_is_not_off(told: Told, state: Option<LockStateView>, now: u64)
    ensures
        on_text(told, state, false, now) != off_text(false),
        live_object(told.0, told.1)[0] != off_object()[0],
        state is Some ==> status_object(told.0, state->Some_0, now)[0] != off_object()[0],
{
    reveal_strlit("backend:");
    reveal_strlit("state:     off (oxiwake is not running)");
    reveal_strlit("on");
    reveal_strlit("off");
    assert("on"@.len() == 2 && "off"@.len() == 3);
    let lines = match state {
        Some(s) => status_lines(told.0, s, now),
        None => live_lines(told.0, told.1),
    };
    reveal_with_fuel(joined, 4);
    assert(lines.drop_last().drop_last() =~= seq![lines[0]]);
    assert(on_text(told, state, false, now)[0] == lines[0][0]);
    assert(lines[0][0] == 'b');
}

} // verus!
