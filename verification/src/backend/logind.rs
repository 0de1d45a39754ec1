//! The systemd-logind backend, the strongest one on Linux.
//!
//! ```text
//! service:   org.freedesktop.login1        (system bus)
//! path:      /org/freedesktop/login1
//! interface: org.freedesktop.login1.Manager
//! method:    Inhibit(in s what, in s who, in s why, in s mode, out h fd)
//! ```
//!
//! The reply is a file descriptor: the lock lives exactly as long as it stays
//! open.

use crate::error::{ErrorView, OxiwakeError, Result};
use crate::model::{
    default_linux_request, first_occurrences, first_occurrences_keeps_each_once, logind_what_text,
    requested_tokens, token_of, what_tokens_are_the_requested_ones, DoctorReport, DoctorReportView,
    WakeBackend, WakeGuard, WakeMode, WakeRequest, WakeRequestView, WakeStatus, WakeStatusView,
    WakeTarget,
};
use crate::text::{contains, decimal, decimal_text, joined, occurs, push_text, same_text, texts};
use vstd::prelude::*;
use vstd::string::*;

verus! {

/// The backend's name.
pub const NAME: &'static str = "systemd-logind";

/// The service's bus name.
pub const SERVICE: &'static str = "org.freedesktop.login1";

/// The service's object path.
pub const PATH: &'static str = "/org/freedesktop/login1";

/// The service's interface.
pub const INTERFACE: &'static str = "org.freedesktop.login1.Manager";

// ---------------------------------------------------------------------------
// Taking the lock
// ---------------------------------------------------------------------------

/// The arguments of `Inhibit`.
#[derive(Debug)]
pub struct InhibitCall {
    /// What to inhibit: tokens separated by colons.
    pub what: String,
    /// Who asks.
    pub who: &'static str,
    /// Why.
    pub why: String,
    /// How strongly.
    pub mode: &'static str,
}

/// What an [`InhibitCall`] says.
#[verifier::ext_equal]
pub struct InhibitCallView {
    pub what: Seq<char>,
    pub who: Seq<char>,
    pub why: Seq<char>,
    pub mode: Seq<char>,
}

impl View for InhibitCall {
    type V = InhibitCallView;

    open spec fn view(&self) -> InhibitCallView {
        InhibitCallView {
            what: self.what@,
            who: self.who@,
            why: self.why@,
            mode: self.mode@,
        }
    }
}

/// The start of an acquisition: the call is known, the bus is untouched.
#[derive(Debug)]
pub struct LogindAcquire {
    call: InhibitCall,
}

/// The system bus is open.
#[derive(Debug)]
pub struct LogindConnected {
    call: InhibitCall,
}

/// The proxy is built; `Inhibit` may be called.
#[derive(Debug)]
pub struct LogindReady {
    call: InhibitCall,
}

/// What calling `Inhibit` came to.
#[derive(Debug)]
pub enum InhibitReply {
    /// The call failed.
    CallFailed(String),
    /// The reply was not a file descriptor.
    BadReply(String),
    /// The file descriptor has arrived.
    Descriptor,
}

/// Whether the wording of a bus error tells of a refusal: access denied,
/// failed authentication, or a Polkit rejection.
pub open spec fn denied(text: Seq<char>) -> bool {
    ||| occurs(text, "AccessDenied"@)
    ||| occurs(text, "AuthFailed"@)
    ||| occurs(text, "NotAuthorized"@)
    ||| occurs(text, "policykit"@)
    ||| occurs(text, "Permission denied"@)
}

/// Whether a bus error is a refusal.
///
/// The wording is searched rather than the error's kind: Polkit errors have
/// arbitrary names.
pub fn is_access_denied(text: &str) -> (r: bool)
    ensures
        r == denied(text@),
{
    contains(text, "AccessDenied") || contains(text, "AuthFailed") || contains(
        text,
        "NotAuthorized",
    ) || contains(text, "policykit") || contains(text, "Permission denied")
}

/// The error for a system bus that cannot be opened.
pub fn map_unavailable(text: String) -> (r: OxiwakeError)
    ensures
        r@ == (ErrorView::BackendUnavailable { backend: NAME@, reason: text@ }),
{
    OxiwakeError::BackendUnavailable { backend: NAME, reason: text }
}

/// The error for a failed `Inhibit`: a refusal is a failed acquisition, anything
/// else stays a bus error.
pub fn map_acquire(text: String) -> (r: OxiwakeError)
    ensures
        r@ == if denied(text@) {
            ErrorView::AcquireFailed { backend: NAME@, reason: text@ }
        } else {
            ErrorView::Dbus(text@)
        },
{
    if is_access_denied(text.as_str()) {
        OxiwakeError::AcquireFailed { backend: NAME, reason: text }
    } else {
        OxiwakeError::Dbus(text)
    }
}

impl LogindAcquire {
    /// The arguments of `Inhibit`.
    pub closed spec fn arguments(&self) -> InhibitCallView {
        self.call@
    }

    /// Go on once opening the system bus has succeeded or failed.
    pub fn connected(self, outcome: core::result::Result<(), String>) -> (r: Result<
        LogindConnected,
    >)
        ensures
            match outcome {
                Ok(_) => r is Ok && r->Ok_0.arguments() == self.arguments(),
                Err(e) => r is Err && r->Err_0@ == (ErrorView::BackendUnavailable {
                    backend: NAME@,
                    reason: e@,
                }),
            },
    {
        match outcome {
            Ok(_) => Ok(LogindConnected { call: self.call }),
            Err(e) => Err(map_unavailable(e)),
        }
    }
}

impl LogindConnected {
    /// The arguments of `Inhibit`.
    pub closed spec fn arguments(&self) -> InhibitCallView {
        self.call@
    }

    /// Go on once the proxy has been built or has failed to build.
    pub fn proxy(self, outcome: core::result::Result<(), String>) -> (r: Result<LogindReady>)
        ensures
            match outcome {
                Ok(_) => r is Ok && r->Ok_0.arguments() == self.arguments(),
                Err(e) => r is Err && r->Err_0@ == ErrorView::Dbus(e@),
            },
    {
        match outcome {
            Ok(_) => Ok(LogindReady { call: self.call }),
            Err(e) => Err(OxiwakeError::Dbus(e)),
        }
    }
}

impl LogindReady {
    /// The arguments of `Inhibit`.
    pub closed spec fn arguments(&self) -> InhibitCallView {
        self.call@
    }

    /// The arguments to call `Inhibit` with.
    pub fn call(&self) -> (r: &InhibitCall)
        ensures
            r@ == self.arguments(),
    {
        &self.call
    }

    /// Finish with what the call came to. The file descriptor is the lock.
    pub fn called(self, reply: InhibitReply) -> (r: Result<LogindGuard>)
        ensures
            match reply {
                InhibitReply::CallFailed(e) => r is Err && r->Err_0@ == if denied(e@) {
                    ErrorView::AcquireFailed { backend: NAME@, reason: e@ }
                } else {
                    ErrorView::Dbus(e@)
                },
                InhibitReply::BadReply(e) => r is Err && r->Err_0@ == ErrorView::DbusDecode(
                    "Inhibit fd: "@ + e@,
                ),
                InhibitReply::Descriptor => r is Ok,
            },
    {
        match reply {
            InhibitReply::CallFailed(e) => Err(map_acquire(e)),
            InhibitReply::BadReply(e) => Err(
                OxiwakeError::DbusDecode("Inhibit fd: ".to_string().concat(e.as_str())),
            ),
            InhibitReply::Descriptor => Ok(LogindGuard { token: () }),
        }
    }
}

/// A held inhibitor. The program keeps the file descriptor beside it; closing
/// that is the whole release.
#[derive(Debug)]
pub struct LogindGuard {
    token: (),
}

impl WakeGuard for LogindGuard {
    open spec fn backend_text(&self) -> Seq<char> {
        NAME@
    }

    fn backend(&self) -> (r: &'static str) {
        NAME
    }
}

// ---------------------------------------------------------------------------
// The backend
// ---------------------------------------------------------------------------

/// The systemd-logind inhibitor backend.
#[derive(Debug, Clone, Copy, PartialEq, Eq, Structural)]
pub struct LogindBackend;

impl Default for LogindBackend {
    fn default() -> (r: LogindBackend)
        ensures
            r == LogindBackend,
    {
        LogindBackend
    }
}

/// The targets that logind has a token for, in order.
pub open spec fn relevant_targets(targets: Seq<WakeTarget>) -> Seq<WakeTarget>
    decreases targets.len(),
{
    if targets.len() == 0 {
        targets
    } else {
        let before = relevant_targets(targets.drop_last());
        if targets.last() == WakeTarget::Display {
            before
        } else {
            before.push(targets.last())
        }
    }
}

/// The targets of a request that logind has a token for.
pub fn logind_relevant_targets(req: &WakeRequest) -> (r: Vec<WakeTarget>)
    ensures
        r@ == relevant_targets(req@.targets),
{
    let mut out: Vec<WakeTarget> = Vec::new();
    let mut i: usize = 0;
    assert(out@ =~= req.targets@.take(0));
    while i < req.targets.len()
        invariant
            0 <= i <= req.targets@.len(),
            out@ == relevant_targets(req.targets@.take(i as int)),
        decreases req.targets.len() - i,
    {
        let t = req.targets[i];
        assert(req.targets@.take(i as int + 1).drop_last() =~= req.targets@.take(i as int));
        if t != WakeTarget::Display {
            out.push(t);
        }
        i = i + 1;
    }
    assert(req.targets@.take(req.targets@.len() as int) =~= req.targets@);
    out
}

/// The backend's caveats.
pub open spec fn guarantees_texts() -> Seq<Seq<char>> {
    seq![
        "block on shutdown/sleep/handle-* typically needs privilege (Polkit org.freedesktop.login1.inhibit-block-*); an unprivileged user is usually denied those tokens"@,
        "idle is the only block token routinely allowed unprivileged"@,
        "handle-lid-switch behaviour depends on docked/external-power state (lid handling is ignored when Docked or on external power on many systems)"@,
        "logind has no first-class display token; keeping the display on is an idle/display concern handled by other backends"@,
        "the lock is held only for the lifetime of the inhibitor file descriptor — the daemon must keep it open"@,
    ]
}

/// Honest caveats, so that nobody expects more of logind than it gives.
pub fn logind_guarantees() -> (r: Vec<String>)
    ensures
        texts(r@) == guarantees_texts(),
{
    let out = vec![
        "block on shutdown/sleep/handle-* typically needs privilege (Polkit org.freedesktop.login1.inhibit-block-*); an unprivileged user is usually denied those tokens".to_string(),
        "idle is the only block token routinely allowed unprivileged".to_string(),
        "handle-lid-switch behaviour depends on docked/external-power state (lid handling is ignored when Docked or on external power on many systems)".to_string(),
        "logind has no first-class display token; keeping the display on is an idle/display concern handled by other backends".to_string(),
        "the lock is held only for the lifetime of the inhibitor file descriptor — the daemon must keep it open".to_string(),
    ];
    assert(texts(out@) =~= guarantees_texts());
    out
}

// ---------------------------------------------------------------------------
// The doctor report
// ---------------------------------------------------------------------------

/// What a question to logind came to.
#[derive(Debug)]
pub enum Answer<T> {
    /// The call failed.
    CallFailed {
        /// The bus name that the error reply came from; `None` if none came.
        sender: Option<String>,
        /// What went wrong.
        error: String,
    },
    /// The reply was not what was expected.
    BadReply(String),
    /// The answer.
    Value(T),
}

/// The properties and lists that logind was asked for.
#[derive(Debug)]
pub struct LogindFacts {
    /// The answer of `CanSuspend`.
    pub can_suspend: Answer<String>,
    /// The property `LidClosed`.
    pub lid_closed: Answer<bool>,
    /// The property `Docked`.
    pub docked: Answer<bool>,
    /// The property `OnExternalPower`.
    pub on_external_power: Answer<bool>,
    /// Who holds each inhibitor that `ListInhibitors` lists.
    pub inhibitors: Answer<Vec<String>>,
}

/// How far the doctor got.
#[derive(Debug)]
pub enum LogindProbe {
    /// The system bus could not be opened.
    NoBus(String),
    /// The proxy could not be built.
    NoProxy(String),
    /// Questions were sent to logind, whether or not it answered.
    Asked(LogindFacts),
}

/// The name under which the bus itself replies, for instance that nobody owns
/// the name that a call was sent to.
pub const BUS_NAME: &'static str = "org.freedesktop.DBus";

/// Whether a question got an answer from logind itself: a value, a reply that
/// could not be read, or an error reply that is not the bus's own.
pub open spec fn answered<T>(a: Answer<T>) -> bool {
    match a {
        Answer::Value(_) => true,
        Answer::BadReply(_) => true,
        Answer::CallFailed { sender, error: _ } => match sender {
            Some(name) => name@ != BUS_NAME@,
            None => false,
        },
    }
}

/// Whether logind is reachable: at least one question got an answer from it.
pub open spec fn reachable(p: LogindProbe) -> bool {
    match p {
        LogindProbe::NoBus(_) => false,
        LogindProbe::NoProxy(_) => false,
        LogindProbe::Asked(f) => {
            ||| answered(f.can_suspend)
            ||| answered(f.lid_closed)
            ||| answered(f.docked)
            ||| answered(f.on_external_power)
            ||| answered(f.inhibitors)
        },
    }
}

/// Whether a question got an answer from logind itself.
pub fn has_answered<T>(a: &Answer<T>) -> (r: bool)
    ensures
        r == answered(*a),
{
    match a {
        Answer::Value(_) => true,
        Answer::BadReply(_) => true,
        Answer::CallFailed { sender, error: _ } => match sender {
            Some(name) => !same_text(name.as_str(), BUS_NAME),
            None => false,
        },
    }
}

/// Whether logind is reachable.
pub fn is_reachable(p: &LogindProbe) -> (r: bool)
    ensures
        r == reachable(*p),
{
    match p {
        LogindProbe::Asked(f) => has_answered(&f.can_suspend) || has_answered(&f.lid_closed)
            || has_answered(&f.docked) || has_answered(&f.on_external_power) || has_answered(
            &f.inhibitors,
        ),
        _ => false,
    }
}

/// A boolean in words.
pub open spec fn bool_text(b: bool) -> Seq<char> {
    if b {
        "true"@
    } else {
        "false"@
    }
}

/// The note for a property.
pub open spec fn property_note(name: Seq<char>, value: Answer<bool>) -> Seq<char> {
    match value {
        Answer::Value(b) => name + " = "@ + bool_text(b),
        Answer::BadReply(e) => name + " reply undecodable: "@ + e@,
        Answer::CallFailed { sender: _, error } => name + " probe failed: "@ + error@,
    }
}

/// The note for `CanSuspend`.
pub open spec fn can_suspend_note(a: Answer<String>) -> Seq<char> {
    match a {
        Answer::Value(s) => "CanSuspend = "@ + s@,
        Answer::BadReply(e) => "CanSuspend reply undecodable: "@ + e@,
        Answer::CallFailed { sender: _, error } => "CanSuspend probe failed: "@ + error@,
    }
}

/// How many inhibitors are held under a name.
pub open spec fn held_by(holders: Seq<Seq<char>>, who: Seq<char>) -> nat
    decreases holders.len(),
{
    if holders.len() == 0 {
        0
    } else {
        held_by(holders.drop_last(), who) + if holders.last() == who {
            1nat
        } else {
            0nat
        }
    }
}

/// The note for `ListInhibitors`.
pub open spec fn inhibitors_note(a: Answer<Vec<String>>) -> Seq<char> {
    match a {
        Answer::Value(holders) => "ListInhibitors: "@ + decimal_text(holders@.len())
            + " active ("@ + decimal_text(held_by(texts(holders@), "Oxiwake"@))
            + " held by Oxiwake)"@,
        Answer::BadReply(e) => "ListInhibitors reply undecodable: "@ + e@,
        Answer::CallFailed { sender: _, error } => "ListInhibitors probe failed: "@ + error@,
    }
}

/// The notes on what logind was asked, one for each question.
pub open spec fn fact_notes(f: LogindFacts) -> Seq<Seq<char>> {
    seq![
        can_suspend_note(f.can_suspend),
        property_note("LidClosed"@, f.lid_closed),
        property_note("Docked"@, f.docked),
        property_note("OnExternalPower"@, f.on_external_power),
        inhibitors_note(f.inhibitors),
    ]
}

/// The notes of the report. That logind is reachable is noted only if it is.
pub open spec fn probe_notes(p: LogindProbe) -> Seq<Seq<char>> {
    match p {
        LogindProbe::NoBus(e) => seq!["cannot open system bus: "@ + e@],
        LogindProbe::NoProxy(e) => seq!["cannot build logind proxy: "@ + e@],
        LogindProbe::Asked(f) => if reachable(p) {
            seq!["org.freedesktop.login1 reachable on system bus"@] + fact_notes(f)
        } else {
            fact_notes(f)
        },
    }
}

fn push_property(notes: &mut Vec<String>, name: &str, value: Answer<bool>)
    ensures
        texts(final(notes)@) == texts(old(notes)@).push(property_note(name@, value)),
{
    let note = match value {
        Answer::Value(b) => name.to_string().concat(" = ").concat(
            if b {
                "true"
            } else {
                "false"
            },
        ),
        Answer::BadReply(e) => name.to_string().concat(" reply undecodable: ").concat(e.as_str()),
        Answer::CallFailed { sender: _, error } => name.to_string().concat(
            " probe failed: ",
        ).concat(error.as_str()),
    };
    push_text(notes, note);
}

/// How many inhibitors are held under a name.
pub fn count_held_by(holders: &Vec<String>, who: &str) -> (r: usize)
    ensures
        r == held_by(texts(holders@), who@),
{
    let mut n: usize = 0;
    let mut i: usize = 0;
    while i < holders.len()
        invariant
            0 <= i <= holders@.len(),
            n <= i,
            n == held_by(texts(holders@).take(i as int), who@),
        decreases holders.len() - i,
    {
        proof {
            let next = texts(holders@).take(i as int + 1);
            assert(next.drop_last() =~= texts(holders@).take(i as int));
            assert(next.last() == holders@[i as int]@);
        }
        if same_text(holders[i].as_str(), who) {
            n = n + 1;
        }
        i = i + 1;
    }
    assert(texts(holders@).take(holders@.len() as int) =~= texts(holders@));
    n
}

fn push_facts(notes: &mut Vec<String>, f: LogindFacts)
    ensures
        texts(final(notes)@) == texts(old(notes)@) + fact_notes(f),
{
    let can_suspend = match f.can_suspend {
        Answer::Value(s) => "CanSuspend = ".to_string().concat(s.as_str()),
        Answer::BadReply(e) => "CanSuspend reply undecodable: ".to_string().concat(e.as_str()),
        Answer::CallFailed { sender: _, error } => "CanSuspend probe failed: ".to_string().concat(
            error.as_str(),
        ),
    };
    push_text(notes, can_suspend);
    push_property(notes, "LidClosed", f.lid_closed);
    push_property(notes, "Docked", f.docked);
    push_property(notes, "OnExternalPower", f.on_external_power);
    let inhibitors = match f.inhibitors {
        Answer::Value(holders) => {
            let ours: usize = count_held_by(&holders, WakeRequest::WHO);
            "ListInhibitors: ".to_string().concat(decimal(holders.len() as u64).as_str()).concat(
                " active (",
            ).concat(decimal(ours as u64).as_str()).concat(" held by Oxiwake)")
        },
        Answer::BadReply(e) => "ListInhibitors reply undecodable: ".to_string().concat(e.as_str()),
        Answer::CallFailed { sender: _, error } => "ListInhibitors probe failed: ".to_string().concat(
            error.as_str(),
        ),
    };
    push_text(notes, inhibitors);
    assert(texts(notes@) =~= texts(old(notes)@) + fact_notes(f));
}

impl LogindBackend {
    /// A backend handle. Nothing is opened.
    pub fn new() -> (r: LogindBackend)
        ensures
            r == LogindBackend,
    {
        LogindBackend
    }

    /// Start to take an inhibitor lock, always in `block` mode. A request that
    /// maps to no token is refused before the bus is touched: logind would
    /// reject it with an opaque error.
    pub fn acquire(&self, req: &WakeRequest) -> (r: Result<LogindAcquire>)
        ensures
            if logind_what_text(req@).len() == 0 {
                r is Err && r->Err_0@ == (ErrorView::AcquireFailed {
                    backend: NAME@,
                    reason: "request maps to no logind `what` tokens"@,
                })
            } else {
                r is Ok && r->Ok_0.arguments() == (InhibitCallView {
                    what: logind_what_text(req@),
                    who: "Oxiwake"@,
                    why: req@.reason,
                    mode: "block"@,
                })
            },
    {
        let what = req.logind_what();
        if what.as_str().unicode_len() == 0 {
            return Err(
                OxiwakeError::AcquireFailed {
                    backend: NAME,
                    reason: "request maps to no logind `what` tokens".to_string(),
                },
            );
        }
        Ok(
            LogindAcquire {
                call: InhibitCall {
                    what,
                    who: WakeRequest::WHO,
                    why: req.reason.clone(),
                    mode: WakeMode::Block.as_str(),
                },
            },
        )
    }

    /// Report on the backend. It is available exactly if logind is reachable;
    /// whatever could not be read becomes a note, and nothing makes the report
    /// fail.
    pub fn doctor(&self, probe: LogindProbe) -> (r: DoctorReport)
        ensures
            r@ == (DoctorReportView {
                backend: NAME@,
                supported: true,
                available: reachable(probe),
                guarantees: guarantees_texts(),
                notes: probe_notes(probe),
            }),
    {
        let mut notes: Vec<String> = Vec::new();
        let ghost start = texts(notes@);
        assert(start =~= Seq::<Seq<char>>::empty());
        assert(forall|x: Seq<Seq<char>>| start + x =~= x);
        let available = is_reachable(&probe);
        if available {
            push_text(&mut notes, "org.freedesktop.login1 reachable on system bus".to_string());
        }
        match probe {
            LogindProbe::NoBus(e) => {
                push_text(&mut notes, "cannot open system bus: ".to_string().concat(e.as_str()));
            },
            LogindProbe::NoProxy(e) => {
                push_text(&mut notes, "cannot build logind proxy: ".to_string().concat(e.as_str()));
            },
            LogindProbe::Asked(f) => {
                push_facts(&mut notes, f);
            },
        }
        assert(texts(notes@) =~= probe_notes(probe));
        DoctorReport {
            backend: NAME.to_string(),
            supported: true,
            available,
            guarantees: logind_guarantees(),
            notes,
        }
    }
}

impl WakeBackend for LogindBackend {
    open spec fn name_text(&self) -> Seq<char> {
        NAME@
    }

    open spec fn status_view(&self) -> WakeStatusView {
        WakeStatusView {
            backend: NAME@,
            targets: relevant_targets(default_linux_request().targets),
            mode: WakeMode::Block,
            display: false,
        }
    }

    fn name(&self) -> (r: &'static str) {
        NAME
    }

    fn supported(&self) -> (r: bool) {
        true
    }

    fn status(&self) -> (r: Result<WakeStatus>) {
        let req = WakeRequest::default_linux();
        Ok(
            WakeStatus {
                backend: NAME.to_string(),
                targets: logind_relevant_targets(&req),
                mode: WakeMode::Block,
                display: false,
            },
        )
    }
}

/// The refusal of an empty request does not depend on the bus: a request gets
/// as far as the bus exactly if one of its targets has a token or the lid
/// switch is asked for.
pub proof fn refused_exactly_without_tokens(req: WakeRequestView)
    ensures
        logind_what_text(req).len() == 0 <==> !req.aggressive_lid && forall|i: int|
            0 <= i < req.targets.len() ==> req.targets[i] == WakeTarget::Display,
{
    let all = requested_tokens(req);
    let kept = first_occurrences(all);
    first_occurrences_keeps_each_once(all);
    assert forall|t: Seq<char>| kept.contains(t) implies t.len() > 0 by {
        what_tokens_are_the_requested_ones(req, t);
        reveal_strlit("sleep");
        reveal_strlit("idle");
        reveal_strlit("handle-lid-switch");
        reveal_strlit("shutdown");
    }
    assert(kept.len() > 0 ==> kept.contains(kept[0]));
    if kept.len() > 0 {
        joined_is_not_empty(kept);
        what_tokens_are_the_requested_ones(req, kept[0]);
    }
    if req.aggressive_lid {
        what_tokens_are_the_requested_ones(req, "handle-lid-switch"@);
    }
    if exists|i: int| 0 <= i < req.targets.len() && req.targets[i] != WakeTarget::Display {
        let i = choose|i: int| 0 <= i < req.targets.len() && req.targets[i] != WakeTarget::Display;
        let tok = token_of(req.targets[i]).unwrap();
        what_tokens_are_the_requested_ones(req, tok);
        assert(kept.contains(tok));
    }
}

proof fn joined_is_not_empty(parts: Seq<Seq<char>>)
    requires
        parts.len() > 0,
        parts[0].len() > 0,
    ensures
        joined(parts, ":"@).len() > 0,
    decreases parts.len(),
{
    if parts.len() > 1 {
        joined_is_not_empty(parts.drop_last());
    }
}

} // verus!
