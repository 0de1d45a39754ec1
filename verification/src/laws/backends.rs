//! The backends: which one is used, what each takes and gives back, and what its
//! doctor says.

use crate::backend::gnome::{gnome_service, GnomeBackend};
use crate::backend::kde::{kde_service, KdeBackend};
use crate::backend::logind::{
    answered, can_suspend_note, denied, fact_notes, guarantees_texts, held_by, inhibitors_note,
    probe_notes, property_note, reachable, relevant_targets, Answer, LogindBackend, LogindFacts,
    LogindProbe,
};
use crate::backend::portal::{portal_guarantees_texts, portal_note, PortalBackend, PortalProbe};
use crate::backend::screensaver::{screensaver_service, ScreenSaverBackend};
use crate::backend::session::{known_owner, OwnerReply};
use crate::backend::wayland::{
    compositor_note, display_note as wayland_display_note, wayland_guarantees_texts, WaylandBackend,
};
use crate::backend::windows::{
    after_attempt, after_fallback, display_wanted, either_works, power_request_note, powercfg_notes,
    release_steps, request_next, thread_state_note, win32_guarantees_texts, win32_notes,
    AfterAttempt, PowerRequestHandle, ReleaseStep, RequestStepView, RequestType, Win32PowerBackend,
    Win32PowerGuard, Win32Probe,
};
use crate::backend::x11::{
    connect_error, display_note as x11_display_note, server_notes, x11_guarantees_texts, RoundTrip,
    X11Backend, X11Connect, X11Probe,
};
use crate::backend::{best, compiled, rank, successful_reports, AnyBackend, Build, EnvVar};
use crate::error::{error_text, ErrorView, OxiwakeError, Result};
use crate::model::{DoctorReport, WakeBackend, WakeMode, WakeRequestView, WakeTarget};
use crate::platform::Platform;
use crate::text::{decimal_text, occurs, texts, trimmed_end};
use vstd::prelude::*;

verus! {

// ---------------------------------------------------------------------------
// Which backend
// ---------------------------------------------------------------------------

/// A build has a backend exactly if it is built for the backend's platform and,
/// on Linux, with the backend compiled in.
pub proof fn a_build_has_what_was_compiled_in(build: Build)
    ensures
        ({
            let linux = build.platform == Platform::Linux;
            &&& compiled(build, AnyBackend::Logind(LogindBackend)) == (linux && build.logind)
            &&& compiled(build, AnyBackend::Portal(PortalBackend)) == (linux && build.portal)
            &&& compiled(build, AnyBackend::Gnome(GnomeBackend)) == (linux && build.gnome)
            &&& compiled(build, AnyBackend::Kde(KdeBackend)) == (linux && build.kde)
            &&& compiled(build, AnyBackend::ScreenSaver(ScreenSaverBackend)) == (linux
                && build.screensaver)
            &&& compiled(build, AnyBackend::X11(X11Backend)) == (linux && build.x11)
            &&& compiled(build, AnyBackend::Wayland(WaylandBackend)) == (linux && build.wayland)
            &&& compiled(build, AnyBackend::Win32(Win32PowerBackend)) == (build.platform
                == Platform::Windows)
        }),
{
}

/// The order of strength: logind, then the portal, the desktops, the screensaver
/// service, and last the displays. So logind is used wherever a build has it, and
/// a weaker backend only where the build has none of the stronger ones.
pub proof fn the_stronger_backend_is_used(build: Build)
    ensures
        rank(AnyBackend::Logind(LogindBackend)) < rank(AnyBackend::Portal(PortalBackend)),
        rank(AnyBackend::Portal(PortalBackend)) < rank(AnyBackend::Gnome(GnomeBackend)),
        rank(AnyBackend::Gnome(GnomeBackend)) < rank(AnyBackend::Kde(KdeBackend)),
        rank(AnyBackend::Kde(KdeBackend)) < rank(AnyBackend::ScreenSaver(ScreenSaverBackend)),
        rank(AnyBackend::ScreenSaver(ScreenSaverBackend)) < rank(AnyBackend::X11(X11Backend)),
        rank(AnyBackend::X11(X11Backend)) < rank(AnyBackend::Wayland(WaylandBackend)),
        build.platform == Platform::Linux && build.logind ==> best(build) == Some(
            AnyBackend::Logind(LogindBackend),
        ),
        build.platform == Platform::Windows ==> best(build) == Some(
            AnyBackend::Win32(Win32PowerBackend),
        ),
        build.platform == Platform::Unsupported ==> best(build) is None,
        build.platform == Platform::Linux ==> (best(build) is None <==> !build.logind
            && !build.portal && !build.gnome && !build.kde && !build.screensaver && !build.x11
            && !build.wayland),
        best(build) == Some(AnyBackend::Wayland(WaylandBackend)) ==> !build.logind && !build.portal
            && !build.gnome && !build.kde && !build.screensaver && !build.x11 && build.wayland,
{
}

/// Each backend is known by its name and claims no more than it gives: only
/// logind, the portal, GNOME and Windows keep the system from sleeping, only X11
/// keeps the display on, and every lock blocks.
pub proof fn each_backend_claims_what_it_gives(b: AnyBackend)
    ensures
        b.name_text() == match b {
            AnyBackend::Logind(_) => "systemd-logind"@,
            AnyBackend::Portal(_) => "xdg-portal"@,
            AnyBackend::Gnome(_) => "gnome-session"@,
            AnyBackend::Kde(_) => "kde-powerdevil"@,
            AnyBackend::ScreenSaver(_) => "freedesktop-screensaver"@,
            AnyBackend::X11(_) => "x11-screensaver"@,
            AnyBackend::Wayland(_) => "wayland-idle-inhibit"@,
            AnyBackend::Win32(_) => "win32-power"@,
        },
        b.status_view().backend == b.name_text(),
        b.status_view().mode == WakeMode::Block,
        b.status_view().display == (b is X11),
        b is Logind || b is Portal || b is Gnome ==> b.status_view().targets =~= seq![
            WakeTarget::SystemSleep,
            WakeTarget::Idle,
        ],
        b is Kde || b is ScreenSaver || b is Wayland ==> b.status_view().targets =~= seq![
            WakeTarget::Idle,
        ],
        b is X11 ==> b.status_view().targets =~= seq![WakeTarget::Idle, WakeTarget::Display],
        b is Win32 ==> b.status_view().targets =~= seq![WakeTarget::SystemSleep],
{
    let two = seq![WakeTarget::SystemSleep, WakeTarget::Idle];
    reveal_with_fuel(relevant_targets, 4);
    assert(two.drop_last() =~= seq![WakeTarget::SystemSleep]);
    assert(two.drop_last().drop_last() =~= Seq::<WakeTarget>::empty());
    assert(relevant_targets(two) =~= two);
}

/// Reports come one for each doctor that succeeded, in order; a doctor that fails
/// takes none of the others with it.
pub proof fn one_broken_doctor_leaves_the_rest(
    before: Seq<Result<DoctorReport>>,
    report: DoctorReport,
    e: OxiwakeError,
)
    ensures
        successful_reports(Seq::empty()).len() == 0,
        successful_reports(before.push(Ok(report))) == successful_reports(before).push(report@),
        successful_reports(before.push(Err(e))) == successful_reports(before),
{
    assert(before.push(Ok(report)).drop_last() =~= before);
    assert(before.push(Err(e)).drop_last() =~= before);
}

// ---------------------------------------------------------------------------
// Windows
// ---------------------------------------------------------------------------

/// The doctor's word can be relied on. Windows is reported as available whenever
/// the power request works, whether or not the execution state does too; whenever
/// the execution state works, whether or not the power request does too; and it
/// is reported as unavailable only if neither works. It is the same with taking
/// the lock: with the probe's outcomes the lock is had exactly if the report says
/// so.
pub proof fn the_windows_report_is_what_taking_the_lock_comes_to(
    probe: Win32Probe,
    want_display: bool,
    attempt: AfterAttempt,
    fallback: Result<Win32PowerGuard>,
)
    requires
        call_ensures(after_attempt, (want_display, probe.power_request), attempt),
        call_ensures(after_fallback, (want_display, probe.thread_state), fallback),
    ensures
        probe.power_request is Ok ==> either_works(probe),
        probe.thread_state != 0 ==> either_works(probe),
        !either_works(probe) ==> probe.power_request is Err && probe.thread_state == 0,
        either_works(probe) <==> attempt is Held || fallback is Ok,
        probe.power_request is Ok ==> attempt == AfterAttempt::Held(
            Win32PowerGuard::PowerRequest(probe.power_request->Ok_0),
        ),
        probe.power_request is Err && want_display ==> attempt == AfterAttempt::FallBack(
            0x8000_0003,
        ),
        probe.power_request is Err && !want_display ==> attempt == AfterAttempt::FallBack(
            0x8000_0001,
        ),
        fallback is Ok ==> fallback->Ok_0 == (Win32PowerGuard::ThreadExecutionState {
            display: want_display,
        }),
{
}

/// More working ways never make the backend less available.
pub proof fn availability_grows_with_what_works(weak: Win32Probe, strong: Win32Probe)
    requires
        weak.power_request is Ok ==> strong.power_request is Ok,
        weak.thread_state != 0 ==> strong.thread_state != 0,
    ensures
        either_works(weak) ==> either_works(strong),
{
}

/// A power request that goes well has the system and the execution set, and the
/// display exactly if it is wanted; its handle remembers just that. What it came to
/// does not change any more.
pub proof fn a_power_request_sets_what_is_wanted(
    want_display: bool,
    h: PowerRequestHandle,
    m: Seq<char>,
    any: bool,
)
    ensures
        ({
            let s0 = RequestStepView::Create;
            let s1 = request_next(want_display, s0, true);
            let s2 = request_next(want_display, s1, true);
            let s3 = request_next(want_display, s2, true);
            let s4 = request_next(want_display, s3, true);
            &&& s1 == RequestStepView::Require(RequestType::System)
            &&& s2 == RequestStepView::Require(RequestType::Execution)
            &&& want_display ==> s3 == RequestStepView::Require(RequestType::Display)
            &&& s4 == RequestStepView::Ready(
                PowerRequestHandle {
                    system_required: true,
                    execution_required: true,
                    display_required: want_display,
                },
            )
            &&& !want_display ==> s3 == s4
        }),
        request_next(want_display, RequestStepView::Ready(h), any) == RequestStepView::Ready(h),
        request_next(want_display, RequestStepView::Failed(m), any) == RequestStepView::Failed(m),
{
}

/// A power request that fails says at which call, and an object that was created
/// is closed first.
pub proof fn a_failed_power_request_says_where(want_display: bool, any: bool)
    ensures
        request_next(want_display, RequestStepView::Create, false) == RequestStepView::Failed(
            "PowerCreateRequest returned INVALID_HANDLE_VALUE"@,
        ),
        ({
            let closing = request_next(
                want_display,
                RequestStepView::Require(RequestType::System),
                false,
            );
            let m = "PowerSetRequest("@ + "SystemRequired"@ + ") failed"@;
            &&& closing == RequestStepView::Close(m)
            &&& request_next(want_display, closing, any) == RequestStepView::Failed(m)
        }),
        ({
            let closing = request_next(
                want_display,
                RequestStepView::Require(RequestType::Execution),
                false,
            );
            let m = "PowerSetRequest("@ + "ExecutionRequired"@ + ") failed"@;
            &&& closing == RequestStepView::Close(m)
            &&& request_next(want_display, closing, any) == RequestStepView::Failed(m)
        }),
        ({
            let closing = request_next(
                want_display,
                RequestStepView::Require(RequestType::Display),
                false,
            );
            let m = "PowerSetRequest("@ + "DisplayRequired"@ + ") failed"@;
            &&& closing == RequestStepView::Close(m)
            &&& request_next(want_display, closing, any) == RequestStepView::Failed(m)
        }),
{
}

/// The display is wanted if the request says so, or has it among its targets; not
/// otherwise.
pub proof fn the_display_is_wanted_when_asked_for(req: WakeRequestView, i: int)
    ensures
        req.display ==> display_wanted(req),
        0 <= i < req.targets.len() && req.targets[i] == WakeTarget::Display ==> display_wanted(req),
        display_wanted(req) && !req.display ==> exists|k: int|
            0 <= k < req.targets.len() && req.targets[k] == WakeTarget::Display,
{
}

/// What was set is cleared, each type once and no other, and the object is closed
/// last; the execution state is set back to nothing but continuous.
pub proof fn releasing_clears_what_was_set(h: PowerRequestHandle, t: RequestType, display: bool)
    ensures
        ({
            let steps = release_steps(Win32PowerGuard::PowerRequest(h));
            &&& steps.last() == ReleaseStep::CloseHandle
            &&& steps.contains(ReleaseStep::Clear(t)) <==> match t {
                RequestType::System => h.system_required,
                RequestType::Execution => h.execution_required,
                RequestType::Display => h.display_required,
            }
            &&& steps.no_duplicates()
            &&& forall|i: int|
                0 <= i < steps.len() - 1 ==> #[trigger] steps[i] is Clear
            &&& h.system_required ==> steps[0] == ReleaseStep::Clear(RequestType::System)
            &&& h.display_required ==> steps[steps.len() - 2] == ReleaseStep::Clear(
                RequestType::Display,
            )
        }),
        release_steps(Win32PowerGuard::ThreadExecutionState { display }) =~= seq![
            ReleaseStep::SetThreadState(0x8000_0000),
        ],
{
    let s0 = Seq::<ReleaseStep>::empty();
    let s1 = if h.system_required {
        s0.push(ReleaseStep::Clear(RequestType::System))
    } else {
        s0
    };
    let s2 = if h.execution_required {
        s1.push(ReleaseStep::Clear(RequestType::Execution))
    } else {
        s1
    };
    let s3 = if h.display_required {
        s2.push(ReleaseStep::Clear(RequestType::Display))
    } else {
        s2
    };
    let steps = s3.push(ReleaseStep::CloseHandle);
    assert(steps =~= release_steps(Win32PowerGuard::PowerRequest(h)));
    if h.system_required {
        assert(steps[0] == ReleaseStep::Clear(RequestType::System));
    }
    if h.execution_required {
        assert(steps[s1.len() as int] == ReleaseStep::Clear(RequestType::Execution));
    }
    if h.display_required {
        assert(steps[s2.len() as int] == ReleaseStep::Clear(RequestType::Display));
    }
}

/// The Windows report tells of each way whether it works, with the reason where
/// it does not, and adds what `powercfg` printed, as far as it could be run.
pub proof fn the_windows_notes_tell_each_probe(
    p: Win32Probe,
    h: PowerRequestHandle,
    e: String,
    what: Seq<char>,
    t: String,
)
    ensures
        win32_notes(p).len() >= 2,
        win32_notes(p)[0] == power_request_note(p.power_request),
        win32_notes(p)[1] == thread_state_note(p.thread_state),
        win32_notes(p) == seq![
            power_request_note(p.power_request),
            thread_state_note(p.thread_state),
        ] + powercfg_notes("/requests"@, p.requests) + powercfg_notes(
            "/availablesleepstates"@,
            p.sleep_states,
        ),
        power_request_note(Ok(h))
            == "PowerCreateRequest / PowerSetRequest: available (Windows 7+ / Server 2008 R2+)"@,
        power_request_note(Err(e)) == "PowerCreateRequest / PowerSetRequest: probe failed ("@ + e@
            + ")"@,
        p.thread_state != 0 ==> thread_state_note(p.thread_state)
            == "SetThreadExecutionState: available (works; used as automatic fallback)"@,
        p.thread_state == 0 ==> thread_state_note(p.thread_state)
            == "SetThreadExecutionState: probe failed (returned 0); fallback unavailable"@,
        powercfg_notes(what, Some(t)) =~= seq!["powercfg "@ + what + ":\n"@ + trimmed_end(t@)],
        powercfg_notes(what, None).len() == 0,
{
}

// ---------------------------------------------------------------------------
// logind
// ---------------------------------------------------------------------------

/// A bus error whose wording tells of a refusal, anywhere in it, is one; an error
/// without any such word is none.
pub proof fn refusals_are_known_by_their_wording(text: Seq<char>)
    ensures
        occurs(text, "AccessDenied"@) ==> denied(text),
        occurs(text, "AuthFailed"@) ==> denied(text),
        occurs(text, "NotAuthorized"@) ==> denied(text),
        occurs(text, "policykit"@) ==> denied(text),
        occurs(text, "Permission denied"@) ==> denied(text),
        denied(text) ==> occurs(text, "AccessDenied"@) || occurs(text, "AuthFailed"@) || occurs(
            text,
            "NotAuthorized"@,
        ) || occurs(text, "policykit"@) || occurs(text, "Permission denied"@),
{
}

/// logind honours every target but the display, in the order of the request.
pub proof fn logind_honours_all_but_the_display(targets: Seq<WakeTarget>, t: WakeTarget)
    ensures
        relevant_targets(Seq::empty()).len() == 0,
        t == WakeTarget::Display ==> relevant_targets(targets.push(t)) == relevant_targets(targets),
        t != WakeTarget::Display ==> relevant_targets(targets.push(t)) == relevant_targets(
            targets,
        ).push(t),
        relevant_targets(targets).contains(t) <==> targets.contains(t) && t != WakeTarget::Display,
    decreases targets.len(),
{
    assert(targets.push(t).drop_last() =~= targets);
    if targets.len() > 0 {
        let init = targets.drop_last();
        logind_honours_all_but_the_display(init, t);
        let all = relevant_targets(targets);
        let before = relevant_targets(init);
        if all.contains(t) {
            let i = choose|i: int| 0 <= i < all.len() && all[i] == t;
            if i < before.len() {
                assert(before[i] == t);
                let k = choose|k: int| 0 <= k < init.len() && init[k] == t;
                assert(targets[k] == t);
            } else {
                assert(targets[targets.len() - 1] == t);
            }
        }
        if targets.contains(t) && t != WakeTarget::Display {
            let k = choose|k: int| 0 <= k < targets.len() && targets[k] == t;
            if k < init.len() {
                assert(init[k] == t);
                let i = choose|i: int| 0 <= i < before.len() && before[i] == t;
                assert(all[i] == t);
            } else {
                assert(all[all.len() - 1] == t);
            }
        }
    }
}

/// An answer is one that comes from logind itself: a value, a reply that cannot
/// be read, or an error reply of its own. An error without a sender, and one that
/// the bus sent in logind's stead, are none.
pub proof fn only_logind_answers_for_logind(name: String, error: String, b: bool)
    ensures
        answered(Answer::Value(b)),
        answered(Answer::<bool>::BadReply(error)),
        !answered(Answer::<bool>::CallFailed { sender: None, error }),
        name@ == "org.freedesktop.DBus"@ ==> !answered(
            Answer::<bool>::CallFailed { sender: Some(name), error },
        ),
        name@ != "org.freedesktop.DBus"@ ==> answered(
            Answer::<bool>::CallFailed { sender: Some(name), error },
        ),
{
}

/// logind is reachable as soon as one question, whichever it is, got an answer;
/// without any answer, without a proxy and without a bus it is not.
pub proof fn one_answer_shows_that_logind_is_there(f: LogindFacts, e: String)
    ensures
        answered(f.can_suspend) ==> reachable(LogindProbe::Asked(f)),
        answered(f.lid_closed) ==> reachable(LogindProbe::Asked(f)),
        answered(f.docked) ==> reachable(LogindProbe::Asked(f)),
        answered(f.on_external_power) ==> reachable(LogindProbe::Asked(f)),
        answered(f.inhibitors) ==> reachable(LogindProbe::Asked(f)),
        !answered(f.can_suspend) && !answered(f.lid_closed) && !answered(f.docked) && !answered(
            f.on_external_power,
        ) && !answered(f.inhibitors) ==> !reachable(LogindProbe::Asked(f)),
        !reachable(LogindProbe::NoBus(e)),
        !reachable(LogindProbe::NoProxy(e)),
{
}

/// The logind report notes what was learnt, question by question: the value where
/// there is one, and what went wrong where there is none. That logind is there is
/// noted first, and only if it is.
pub proof fn the_logind_notes_tell_each_answer(
    f: LogindFacts,
    name: Seq<char>,
    e: String,
    sender: Option<String>,
)
    ensures
        probe_notes(LogindProbe::NoBus(e)) =~= seq!["cannot open system bus: "@ + e@],
        probe_notes(LogindProbe::NoProxy(e)) =~= seq!["cannot build logind proxy: "@ + e@],
        reachable(LogindProbe::Asked(f)) ==> probe_notes(LogindProbe::Asked(f)) =~= seq![
            "org.freedesktop.login1 reachable on system bus"@,
        ] + fact_notes(f),
        !reachable(LogindProbe::Asked(f)) ==> probe_notes(LogindProbe::Asked(f)) =~= fact_notes(f),
        fact_notes(f) =~= seq![
            can_suspend_note(f.can_suspend),
            property_note("LidClosed"@, f.lid_closed),
            property_note("Docked"@, f.docked),
            property_note("OnExternalPower"@, f.on_external_power),
            inhibitors_note(f.inhibitors),
        ],
        f.can_suspend is Value ==> can_suspend_note(f.can_suspend) == "CanSuspend = "@
            + f.can_suspend->Value_0@,
        can_suspend_note(Answer::BadReply(e)) == "CanSuspend reply undecodable: "@ + e@,
        can_suspend_note(Answer::CallFailed { sender, error: e }) == "CanSuspend probe failed: "@
            + e@,
        property_note(name, Answer::Value(true)) == name + " = "@ + "true"@,
        property_note(name, Answer::Value(false)) == name + " = "@ + "false"@,
        property_note(name, Answer::BadReply(e)) == name + " reply undecodable: "@ + e@,
        property_note(name, (Answer::CallFailed { sender, error: e })) == name + " probe failed: "@
            + e@,
        f.inhibitors is Value ==> inhibitors_note(f.inhibitors) == "ListInhibitors: "@
            + decimal_text(f.inhibitors->Value_0@.len()) + " active ("@ + decimal_text(
            held_by(texts(f.inhibitors->Value_0@), "Oxiwake"@),
        ) + " held by Oxiwake)"@,
        inhibitors_note(Answer::BadReply(e)) == "ListInhibitors reply undecodable: "@ + e@,
        inhibitors_note(Answer::CallFailed { sender, error: e }) == "ListInhibitors probe failed: "@
            + e@,
{
}

/// Inhibitors are counted one by one: those held under the name, and no others.
pub proof fn inhibitors_are_counted(holders: Seq<Seq<char>>, who: Seq<char>, other: Seq<char>)
    ensures
        held_by(Seq::empty(), who) == 0,
        held_by(holders.push(who), who) == held_by(holders, who) + 1,
        other != who ==> held_by(holders.push(other), who) == held_by(holders, who),
        held_by(holders, who) <= holders.len(),
    decreases holders.len(),
{
    assert(holders.push(who).drop_last() =~= holders);
    assert(holders.push(other).drop_last() =~= holders);
    if holders.len() > 0 {
        inhibitors_are_counted(holders.drop_last(), who, other);
    }
}

// ---------------------------------------------------------------------------
// The session bus
// ---------------------------------------------------------------------------

/// A service counts as there only if the bus says so: every failure to ask, and
/// every answer that cannot be read, counts as "no".
pub proof fn only_a_clear_yes_counts(e: String)
    ensures
        known_owner(OwnerReply::Owner(true)),
        !known_owner(OwnerReply::Owner(false)),
        !known_owner(OwnerReply::NoProxy(e)),
        !known_owner(OwnerReply::CallFailed(e)),
        !known_owner(OwnerReply::BadReply(e)),
{
}

/// The services, with the methods that take a lock and give it back. GNOME's has
/// none to give it back: disconnecting does.
pub proof fn the_services_are_these()
    ensures
        gnome_service().name@ == "gnome-session"@,
        gnome_service().dest@ == "org.gnome.SessionManager"@,
        gnome_service().path@ == "/org/gnome/SessionManager"@,
        gnome_service().iface@ == "org.gnome.SessionManager"@,
        gnome_service().inhibit@ == "Inhibit"@,
        gnome_service().release is None,
        kde_service().name@ == "kde-powerdevil"@,
        kde_service().dest@ == "org.kde.Solid.PowerManagement.PolicyAgent"@,
        kde_service().path@ == "/org/kde/Solid/PowerManagement/PolicyAgent"@,
        kde_service().iface@ == "org.kde.Solid.PowerManagement.PolicyAgent"@,
        kde_service().inhibit@ == "AddInhibition"@,
        kde_service().release is Some,
        kde_service().release->Some_0@ == "ReleaseInhibition"@,
        screensaver_service().name@ == "freedesktop-screensaver"@,
        screensaver_service().dest@ == "org.freedesktop.ScreenSaver"@,
        screensaver_service().path@ == "/org/freedesktop/ScreenSaver"@,
        screensaver_service().iface@ == "org.freedesktop.ScreenSaver"@,
        screensaver_service().inhibit@ == "Inhibit"@,
        screensaver_service().release is Some,
        screensaver_service().release->Some_0@ == "UnInhibit"@,
{
}

/// The portal's note says whether the portal is there, or why that is unknown.
pub proof fn the_portal_note_says_whether_it_is_there(reply: OwnerReply, e: String)
    ensures
        portal_note(PortalProbe::NoBus(e)) == "cannot connect to session D-Bus: "@ + e@,
        reply == OwnerReply::Owner(true) ==> portal_note(PortalProbe::Asked(reply))
            == "org.freedesktop.portal.Desktop is owned on the session bus"@,
        reply != OwnerReply::Owner(true) ==> portal_note(PortalProbe::Asked(reply))
            == "org.freedesktop.portal.Desktop is NOT owned on the session bus (no portal backend running)"@,
{
}

// ---------------------------------------------------------------------------
// Displays
// ---------------------------------------------------------------------------

/// An X server can be used exactly if it was reached and has the extension; the
/// error says which of the two is missing.
pub proof fn an_x_server_is_used_only_with_the_extension(e: String)
    ensures
        connect_error(X11Connect::Extension(Some(()))) is None,
        connect_error(X11Connect::Extension(None)) == Some(
            ErrorView::BackendUnavailable {
                backend: "x11-screensaver"@,
                reason: "X server does not advertise the MIT-SCREEN-SAVER extension"@,
            },
        ),
        connect_error(X11Connect::NoServer(e)) == Some(
            ErrorView::BackendUnavailable {
                backend: "x11-screensaver"@,
                reason: "cannot connect to X server ("@ + e@ + ")"@,
            },
        ),
        connect_error(X11Connect::QueryFailed(e)) == Some(
            ErrorView::BackendUnavailable {
                backend: "x11-screensaver"@,
                reason: "X query-extension failed ("@ + e@ + ")"@,
            },
        ),
{
}

/// The X11 report shows `$DISPLAY` as it is set, and adds what went wrong with the
/// server: nothing if it answered.
pub proof fn the_x11_notes_show_the_display(s: String, e: String, failure: OxiwakeError)
    ensures
        s@.len() > 0 ==> x11_display_note(EnvVar::Text(s)) == "DISPLAY="@ + s@,
        s@.len() == 0 ==> x11_display_note(EnvVar::Text(s)) == "DISPLAY is not set"@,
        s@.len() > 0 ==> x11_display_note(EnvVar::NotText(s)) == "DISPLAY="@,
        s@.len() == 0 ==> x11_display_note(EnvVar::NotText(s)) == "DISPLAY is not set"@,
        x11_display_note(EnvVar::Unset) == "DISPLAY is not set"@,
        server_notes(X11Probe::Connected(RoundTrip::Answered)).len() == 0,
        server_notes(X11Probe::Unavailable(failure)) =~= seq![
            "unavailable: "@ + error_text(failure@),
        ],
        server_notes(X11Probe::Connected(RoundTrip::ReplyFailed(e))) =~= seq![
            "X round-trip reply failed ("@ + e@ + ")"@,
        ],
        server_notes(X11Probe::Connected(RoundTrip::RequestFailed(e))) =~= seq![
            "X round-trip request failed ("@ + e@ + ")"@,
        ],
{
}

/// The Wayland report shows `$WAYLAND_DISPLAY` as it is set, and says whether the
/// compositor has the protocol, or why that is unknown.
pub proof fn the_wayland_notes_show_the_compositor(s: String, v: Vec<String>, e: OxiwakeError)
    ensures
        s@.len() > 0 ==> wayland_display_note(EnvVar::Text(s)) == "WAYLAND_DISPLAY="@ + s@,
        s@.len() > 0 ==> wayland_display_note(EnvVar::NotText(s)) == "WAYLAND_DISPLAY="@ + s@,
        s@.len() == 0 ==> wayland_display_note(EnvVar::Text(s)) == "WAYLAND_DISPLAY is not set"@,
        s@.len() == 0 ==> wayland_display_note(EnvVar::NotText(s)) == "WAYLAND_DISPLAY is not set"@,
        wayland_display_note(EnvVar::Unset) == "WAYLAND_DISPLAY is not set"@,
        (exists|i: int| 0 <= i < v@.len() && (#[trigger] v@[i])@ == "zwp_idle_inhibit_manager_v1"@)
            ==> compositor_note(Ok(v))
            == "zwp_idle_inhibit_manager_v1 advertised, but a CLI daemon has no wl_surface to bind an inhibitor to"@,
        (forall|i: int| 0 <= i < v@.len() ==> (#[trigger] v@[i])@ != "zwp_idle_inhibit_manager_v1"@)
            ==> compositor_note(Ok(v))
            == "zwp_idle_inhibit_manager_v1 global is not advertised by this compositor"@,
        compositor_note(Err(e)) == "unavailable: "@ + error_text(e@),
{
    let wanted = "zwp_idle_inhibit_manager_v1"@;
    if exists|i: int| 0 <= i < v@.len() && (#[trigger] v@[i])@ == wanted {
        let i = choose|i: int| 0 <= i < v@.len() && (#[trigger] v@[i])@ == wanted;
        assert(texts(v@)[i] == wanted);
    }
    if texts(v@).contains(wanted) {
        let i = choose|i: int| 0 <= i < texts(v@).len() && texts(v@)[i] == wanted;
        assert(v@[i]@ == wanted);
    }
}

/// The caveats that the reports state, whatever was probed.
pub proof fn the_caveats_are_these()
    ensures
        guarantees_texts() =~= seq![
            "block on shutdown/sleep/handle-* typically needs privilege (Polkit org.freedesktop.login1.inhibit-block-*); an unprivileged user is usually denied those tokens"@,
            "idle is the only block token routinely allowed unprivileged"@,
            "handle-lid-switch behaviour depends on docked/external-power state (lid handling is ignored when Docked or on external power on many systems)"@,
            "logind has no first-class display token; keeping the display on is an idle/display concern handled by other backends"@,
            "the lock is held only for the lifetime of the inhibitor file descriptor — the daemon must keep it open"@,
        ],
        portal_guarantees_texts() =~= seq![
            "inhibits suspend and idle only (flags 4 | 8); not logout/user-switch"@,
            "portal inhibit is session/desktop-level, NOT a kernel-level lid-close blocker"@,
            "useful as a secondary backend, not as the sole wake lock"@,
        ],
        wayland_guarantees_texts() =~= seq![
            "idle-only: inhibits screen blanking/locking/screensaving"@,
            "does NOT prevent system suspend or lid-close"@,
            "requires a visible wl_surface; ignored if the surface is unmapped/occluded"@,
            "protocol is unstable-v1 (experimental)"@,
        ],
        x11_guarantees_texts() =~= seq![
            "display/idle-level only: inhibits screensaver and DPMS timers"@,
            "does NOT prevent system suspend, hibernate, or lid-close"@,
        ],
        win32_guarantees_texts() =~= seq![
            "Idle / automatic sleep: blocked while the lock is held"@,
            "User-initiated sleep (power button, lid close, Sleep menu): NOT guaranteed — Windows clears power requests on explicit user sleep"@,
            "Modern Standby on battery (DC): system/execution requests may be terminated ~5 minutes after the system sleep timeout"@,
            "PowerRequestDisplayRequired alone is insufficient — SystemRequired is always taken alongside it"@,
            "Away Mode is only honored on Traditional Sleep (S3) systems"@,
        ],
{
}

} // verus!
