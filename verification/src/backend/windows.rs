//! The Windows power-request backend.
//!
//! The first choice is a power request object on which the system, the
//! execution and, where wanted, the display are set as required. If that cannot
//! be had, the execution state of the thread is set instead. Releasing clears
//! exactly what was set.

use crate::error::{ErrorView, OxiwakeError, Result};
use crate::model::{
    DoctorReport, DoctorReportView, WakeBackend, WakeGuard, WakeMode, WakeRequest, WakeRequestView,
    WakeStatus, WakeStatusView, WakeTarget,
};
use crate::text::{decode_lossy, lossy_text, push_text, texts, trim_end, trimmed_end};
use crate::wide::{utf16, wide_utf16_z};
use vstd::prelude::*;
use vstd::string::*;

verus! {

/// The backend's name.
pub const BACKEND_NAME: &'static str = "win32-power";

/// The version of the reason passed with a power request.
pub const POWER_REQUEST_CONTEXT_VERSION: u32 = 0;

/// Keep the state until it is set again.
pub const ES_CONTINUOUS: u32 = 0x8000_0000;

/// Keep the system working.
pub const ES_SYSTEM_REQUIRED: u32 = 1;

/// Keep the display on.
pub const ES_DISPLAY_REQUIRED: u32 = 2;

// ---------------------------------------------------------------------------
// A power request object
// ---------------------------------------------------------------------------

/// What a power request can require.
#[derive(Debug, Clone, Copy, PartialEq, Eq, Structural)]
pub enum RequestType {
    /// The system stays awake.
    System,
    /// The process keeps running.
    Execution,
    /// The display stays on.
    Display,
}

/// The types that were set on a power request object.
#[derive(Debug, Clone, Copy, PartialEq, Eq, Structural)]
pub struct PowerRequestHandle {
    /// Whether the system was required.
    pub system_required: bool,
    /// Whether the execution was required.
    pub execution_required: bool,
    /// Whether the display was required.
    pub display_required: bool,
}

/// The types a handle remembers.
pub open spec fn remembered(h: PowerRequestHandle) -> Set<RequestType> {
    Set::new(
        |t: RequestType|
            match t {
                RequestType::System => h.system_required,
                RequestType::Execution => h.execution_required,
                RequestType::Display => h.display_required,
            },
    )
}

/// Where the attempt to set up a power request object stands.
#[derive(Debug)]
pub enum RequestStep {
    /// The object is being created.
    Create,
    /// This type is being set on it.
    Require(RequestType),
    /// The object is being closed because of this failure.
    Close(String),
    /// The attempt has ended.
    Done(core::result::Result<PowerRequestHandle, String>),
}

/// An attempt to set up a power request object.
#[derive(Debug)]
pub struct PowerRequestAttempt {
    /// Whether the display is wanted too.
    pub want_display: bool,
    /// The reason to give, as UTF-16 that ends in zero.
    pub reason: Vec<u16>,
    /// Where the attempt stands.
    pub step: RequestStep,
}

/// The name of a request type in messages.
pub open spec fn request_type_text(t: RequestType) -> Seq<char> {
    match t {
        RequestType::System => "SystemRequired"@,
        RequestType::Execution => "ExecutionRequired"@,
        RequestType::Display => "DisplayRequired"@,
    }
}

/// The reason why a type could not be set.
pub open spec fn set_failure(t: RequestType) -> Seq<char> {
    "PowerSetRequest("@ + request_type_text(t) + ") failed"@
}

/// What a [`RequestStep`] says.
#[verifier::ext_equal]
pub enum RequestStepView {
    Create,
    Require(RequestType),
    Close(Seq<char>),
    Ready(PowerRequestHandle),
    Failed(Seq<char>),
}

impl View for RequestStep {
    type V = RequestStepView;

    open spec fn view(&self) -> RequestStepView {
        match *self {
            RequestStep::Create => RequestStepView::Create,
            RequestStep::Require(t) => RequestStepView::Require(t),
            RequestStep::Close(m) => RequestStepView::Close(m@),
            RequestStep::Done(Ok(h)) => RequestStepView::Ready(h),
            RequestStep::Done(Err(m)) => RequestStepView::Failed(m@),
        }
    }
}

/// The step after the current one went well or failed.
pub open spec fn request_next(want_display: bool, s: RequestStepView, ok: bool) -> RequestStepView {
    match s {
        RequestStepView::Create => if ok {
            RequestStepView::Require(RequestType::System)
        } else {
            RequestStepView::Failed("PowerCreateRequest returned INVALID_HANDLE_VALUE"@)
        },
        RequestStepView::Require(t) => if !ok {
            RequestStepView::Close(set_failure(t))
        } else if t == RequestType::System {
            RequestStepView::Require(RequestType::Execution)
        } else if t == RequestType::Execution && want_display {
            RequestStepView::Require(RequestType::Display)
        } else {
            RequestStepView::Ready(
                PowerRequestHandle {
                    system_required: true,
                    execution_required: true,
                    display_required: t == RequestType::Display,
                },
            )
        },
        RequestStepView::Close(m) => RequestStepView::Failed(m),
        RequestStepView::Ready(h) => RequestStepView::Ready(h),
        RequestStepView::Failed(m) => RequestStepView::Failed(m),
    }
}

impl PowerRequestAttempt {
    /// Go on after the current step went well or failed.
    pub fn next(self, ok: bool) -> (r: PowerRequestAttempt)
        ensures
            r.want_display == self.want_display,
            r.reason == self.reason,
            r.step@ == request_next(self.want_display, self.step@, ok),
    {
        let want_display = self.want_display;
        let step = match self.step {
            RequestStep::Create => if ok {
                RequestStep::Require(RequestType::System)
            } else {
                RequestStep::Done(
                    Err("PowerCreateRequest returned INVALID_HANDLE_VALUE".to_string()),
                )
            },
            RequestStep::Require(t) => {
                let name = match t {
                    RequestType::System => "SystemRequired",
                    RequestType::Execution => "ExecutionRequired",
                    RequestType::Display => "DisplayRequired",
                };
                if !ok {
                    RequestStep::Close(
                        "PowerSetRequest(".to_string().concat(name).concat(") failed"),
                    )
                } else if t == RequestType::System {
                    RequestStep::Require(RequestType::Execution)
                } else if t == RequestType::Execution && want_display {
                    RequestStep::Require(RequestType::Display)
                } else {
                    RequestStep::Done(
                        Ok(
                            PowerRequestHandle {
                                system_required: true,
                                execution_required: true,
                                display_required: t == RequestType::Display,
                            },
                        ),
                    )
                }
            },
            RequestStep::Close(m) => RequestStep::Done(Err(m)),
            RequestStep::Done(r) => RequestStep::Done(r),
        };
        PowerRequestAttempt { want_display, reason: self.reason, step }
    }
}

// ---------------------------------------------------------------------------
// The lock
// ---------------------------------------------------------------------------

/// A held lock. The program keeps the request object's handle beside it.
#[derive(Debug, Clone, Copy, PartialEq, Eq, Structural)]
pub enum Win32PowerGuard {
    /// Held through a power request object.
    PowerRequest(PowerRequestHandle),
    /// Held through the execution state of the thread.
    ThreadExecutionState {
        /// Whether the display is part of it.
        display: bool,
    },
}

/// One step of giving a lock up.
#[derive(Debug, Clone, Copy, PartialEq, Eq, Structural)]
pub enum ReleaseStep {
    /// Clear this type on the power request object.
    Clear(RequestType),
    /// Close the power request object.
    CloseHandle,
    /// Set the execution state of the thread to this.
    SetThreadState(u32),
}

/// The steps that give a lock up: clear exactly the types that were set, then
/// close the object; or reset the execution state.
pub open spec fn release_steps(g: Win32PowerGuard) -> Seq<ReleaseStep> {
    match g {
        Win32PowerGuard::PowerRequest(h) => {
            let s0 = Seq::<ReleaseStep>::empty();
            let s1 = if h.system_required {
                s0.push(ReleaseStep::Clear(RequestType::System))
            } else {
                s0
            };
            let s2 = if h.execution_required {
                s1.push(ReleaseStep::Clear(RequestType::Execution))
            } else {
                s1
            };
            let s3 = if h.display_required {
                s2.push(ReleaseStep::Clear(RequestType::Display))
            } else {
                s2
            };
            s3.push(ReleaseStep::CloseHandle)
        },
        Win32PowerGuard::ThreadExecutionState { display: _ } => seq![
            ReleaseStep::SetThreadState(ES_CONTINUOUS),
        ],
    }
}

impl Win32PowerGuard {
    /// The steps that give the lock up.
    pub fn release(self) -> (r: Vec<ReleaseStep>)
        ensures
            r@ == release_steps(self),
    {
        let mut out: Vec<ReleaseStep> = Vec::new();
        match self {
            Win32PowerGuard::PowerRequest(h) => {
                if h.system_required {
                    out.push(ReleaseStep::Clear(RequestType::System));
                }
                if h.execution_required {
                    out.push(ReleaseStep::Clear(RequestType::Execution));
                }
                if h.display_required {
                    out.push(ReleaseStep::Clear(RequestType::Display));
                }
                out.push(ReleaseStep::CloseHandle);
            },
            Win32PowerGuard::ThreadExecutionState { display: _ } => {
                out.push(ReleaseStep::SetThreadState(ES_CONTINUOUS));
            },
        }
        assert(out@ =~= release_steps(self));
        out
    }
}

impl WakeGuard for Win32PowerGuard {
    open spec fn backend_text(&self) -> Seq<char> {
        BACKEND_NAME@
    }

    fn backend(&self) -> (r: &'static str) {
        BACKEND_NAME
    }
}

/// What the system knows of a power request object: whether it exists, and the
/// types set on it.
#[verifier::ext_equal]
pub struct RequestObject {
    pub open: bool,
    pub set: Set<RequestType>,
}

/// How a step of an attempt changes the object. Closing the object drops what
/// is set on it.
pub open spec fn object_step(s: RequestStepView, ok: bool, o: RequestObject) -> RequestObject {
    match s {
        RequestStepView::Create => RequestObject { open: ok, set: Set::empty() },
        RequestStepView::Require(t) => if ok {
            RequestObject { open: o.open, set: o.set.insert(t) }
        } else {
            o
        },
        RequestStepView::Close(_) => RequestObject { open: false, set: Set::empty() },
        _ => o,
    }
}

/// What holds of the object in every step of an attempt.
pub open spec fn attempt_invariant(
    want_display: bool,
    s: RequestStepView,
    o: RequestObject,
) -> bool {
    match s {
        RequestStepView::Create => !o.open && o.set =~= Set::empty(),
        RequestStepView::Require(RequestType::System) => o.open && o.set =~= Set::empty(),
        RequestStepView::Require(RequestType::Execution) => o.open && o.set =~= set![RequestType::System],
        RequestStepView::Require(RequestType::Display) => o.open && want_display && o.set =~= set![
            RequestType::System,
            RequestType::Execution,
        ],
        RequestStepView::Close(_) => o.open,
        RequestStepView::Ready(h) => {
            &&& o.open
            &&& o.set =~= remembered(h)
            &&& h.system_required && h.execution_required
            &&& h.display_required == want_display
        },
        RequestStepView::Failed(_) => !o.open && o.set =~= Set::empty(),
    }
}

/// At every step of an attempt the handle remembers exactly what is set on the
/// object. A successful attempt has set the system and the execution, and the
/// display exactly if it was wanted; a failed one leaves no object behind.
pub proof fn attempt_tracks_the_object(
    want_display: bool,
    s: RequestStepView,
    ok: bool,
    o: RequestObject,
)
    requires
        attempt_invariant(want_display, s, o),
    ensures
        attempt_invariant(
            want_display,
            RequestStepView::Create,
            (RequestObject { open: false, set: Set::empty() }),
        ),
        attempt_invariant(want_display, request_next(want_display, s, ok), object_step(s, ok, o)),
{
    if let RequestStepView::Require(RequestType::System) = s {
        assert(Set::<RequestType>::empty().insert(RequestType::System) =~= set![RequestType::System]);
    }
}

/// How a step of a release changes the object. Clearing a type that is not set,
/// or anything after the object was closed, is not allowed.
pub open spec fn object_release(step: ReleaseStep, o: RequestObject) -> Option<RequestObject> {
    match step {
        ReleaseStep::Clear(t) => if o.open && o.set.contains(t) {
            Some(RequestObject { open: true, set: o.set.remove(t) })
        } else {
            None
        },
        ReleaseStep::CloseHandle => if o.open {
            Some(RequestObject { open: false, set: o.set })
        } else {
            None
        },
        ReleaseStep::SetThreadState(_) => Some(o),
    }
}

/// What a run of release steps makes of the object.
pub open spec fn object_after(steps: Seq<ReleaseStep>, o: RequestObject) -> Option<RequestObject>
    decreases steps.len(),
{
    if steps.len() == 0 {
        Some(o)
    } else {
        match object_after(steps.drop_last(), o) {
            Some(mid) => object_release(steps.last(), mid),
            None => None,
        }
    }
}

/// Releasing a lock held through an object clears each type that was set, and
/// nothing else, and closes the object: nothing is left set and nothing is
/// cleared twice.
pub proof fn release_undoes_the_attempt(h: PowerRequestHandle, o: RequestObject)
    requires
        o.open,
        o.set =~= remembered(h),
    ensures
        object_after(release_steps(Win32PowerGuard::PowerRequest(h)), o) == Some(
            RequestObject { open: false, set: Set::empty() },
        ),
{
    let s0 = Seq::<ReleaseStep>::empty();
    let o0 = o;
    assert(object_after(s0, o) == Some(o0));
    let s1 = if h.system_required {
        s0.push(ReleaseStep::Clear(RequestType::System))
    } else {
        s0
    };
    let o1 = if h.system_required {
        RequestObject { open: true, set: o0.set.remove(RequestType::System) }
    } else {
        o0
    };
    assert(object_after(s1, o) == Some(o1)) by {
        if h.system_required {
            assert(s1.drop_last() =~= s0);
        }
    }
    let s2 = if h.execution_required {
        s1.push(ReleaseStep::Clear(RequestType::Execution))
    } else {
        s1
    };
    let o2 = if h.execution_required {
        RequestObject { open: true, set: o1.set.remove(RequestType::Execution) }
    } else {
        o1
    };
    assert(object_after(s2, o) == Some(o2)) by {
        if h.execution_required {
            assert(s2.drop_last() =~= s1);
        }
    }
    let s3 = if h.display_required {
        s2.push(ReleaseStep::Clear(RequestType::Display))
    } else {
        s2
    };
    let o3 = if h.display_required {
        RequestObject { open: true, set: o2.set.remove(RequestType::Display) }
    } else {
        o2
    };
    assert(object_after(s3, o) == Some(o3)) by {
        if h.display_required {
            assert(s3.drop_last() =~= s2);
        }
    }
    assert(o3.set =~= Set::empty()) by {
        assert forall|t: RequestType| !o3.set.contains(t) by {
            match t {
                RequestType::System => {},
                RequestType::Execution => {},
                RequestType::Display => {},
            }
        }
    }
    let s4 = s3.push(ReleaseStep::CloseHandle);
    assert(s4.drop_last() =~= s3);
    assert(release_steps(Win32PowerGuard::PowerRequest(h)) =~= s4);
}

// ---------------------------------------------------------------------------
// Taking the lock
// ---------------------------------------------------------------------------

/// Whether a request wants the display kept on.
pub open spec fn display_wanted(req: WakeRequestView) -> bool {
    req.display || req.targets.contains(WakeTarget::Display)
}

/// Whether a request wants the display kept on.
pub fn wants_display(req: &WakeRequest) -> (r: bool)
    ensures
        r == display_wanted(req@),
{
    if req.display {
        return true;
    }
    let mut i: usize = 0;
    while i < req.targets.len()
        invariant
            0 <= i <= req.targets@.len(),
            forall|k: int| 0 <= k < i ==> req.targets@[k] != WakeTarget::Display,
        decreases req.targets.len() - i,
    {
        if req.targets[i] == WakeTarget::Display {
            return true;
        }
        i = i + 1;
    }
    false
}

/// Start an attempt to set up a power request object for a request.
pub fn try_create_power_request(req: &WakeRequest, want_display: bool) -> (r: PowerRequestAttempt)
    ensures
        r.want_display == want_display,
        r.reason@ == utf16(req@.reason).push(0u16),
        r.step@ == RequestStepView::Create,
{
    PowerRequestAttempt {
        want_display,
        reason: wide_utf16_z(req.reason.as_str()),
        step: RequestStep::Create,
    }
}

/// The execution state that keeps the system working, and the display on where
/// it is wanted.
pub fn fallback_state(want_display: bool) -> (r: u32)
    ensures
        r == if want_display {
            0x8000_0003u32
        } else {
            0x8000_0001u32
        },
{
    assert(0x8000_0000u32 | 1u32 == 0x8000_0001u32) by (bit_vector);
    assert(0x8000_0001u32 | 2u32 == 0x8000_0003u32) by (bit_vector);
    let state: u32 = ES_CONTINUOUS | ES_SYSTEM_REQUIRED;
    if want_display {
        state | ES_DISPLAY_REQUIRED
    } else {
        state
    }
}

/// Where an acquisition stands once the attempt with a power request object has
/// ended.
#[derive(Debug)]
pub enum AfterAttempt {
    /// The lock is held.
    Held(Win32PowerGuard),
    /// The execution state of the thread is to be set to this.
    FallBack(u32),
}

/// Take the power request object, or fall back to the execution state.
pub fn after_attempt(
    want_display: bool,
    outcome: core::result::Result<PowerRequestHandle, String>,
) -> (r: AfterAttempt)
    ensures
        match outcome {
            Ok(h) => r == AfterAttempt::Held(Win32PowerGuard::PowerRequest(h)),
            Err(_) => r == AfterAttempt::FallBack(
                if want_display {
                    0x8000_0003u32
                } else {
                    0x8000_0001u32
                },
            ),
        },
{
    match outcome {
        Ok(h) => AfterAttempt::Held(Win32PowerGuard::PowerRequest(h)),
        Err(_) => AfterAttempt::FallBack(fallback_state(want_display)),
    }
}

/// Finish with what setting the execution state returned: the previous state,
/// or zero if it failed.
pub fn after_fallback(want_display: bool, previous: u32) -> (r: Result<Win32PowerGuard>)
    ensures
        if previous == 0 {
            r is Err && r->Err_0@ == (ErrorView::AcquireFailed {
                backend: BACKEND_NAME@,
                reason: "PowerCreateRequest failed and SetThreadExecutionState returned 0"@,
            })
        } else {
            r is Ok && r->Ok_0 == (Win32PowerGuard::ThreadExecutionState { display: want_display })
        },
{
    if previous == 0 {
        return Err(
            OxiwakeError::AcquireFailed {
                backend: BACKEND_NAME,
                reason: "PowerCreateRequest failed and SetThreadExecutionState returned 0".to_string(),
            },
        );
    }
    Ok(Win32PowerGuard::ThreadExecutionState { display: want_display })
}

// ---------------------------------------------------------------------------
// The backend
// ---------------------------------------------------------------------------

/// The note on what probing the execution state returned.
pub open spec fn thread_state_note(previous: u32) -> Seq<char> {
    if previous != 0 {
        "SetThreadExecutionState: available (works; used as automatic fallback)"@
    } else {
        "SetThreadExecutionState: probe failed (returned 0); fallback unavailable"@
    }
}

/// The note on what probing the execution state returned. The probe sets
/// [`fallback_state`] without the display, and the state is set back to
/// [`ES_CONTINUOUS`] after it in any case.
pub fn probe_set_thread_execution_state(previous: u32) -> (r: String)
    ensures
        r@ == thread_state_note(previous),
{
    if previous != 0 {
        "SetThreadExecutionState: available (works; used as automatic fallback)".to_string()
    } else {
        "SetThreadExecutionState: probe failed (returned 0); fallback unavailable".to_string()
    }
}

/// What `powercfg` printed: its output, then its errors.
pub fn powercfg_text(stdout: &[u8], stderr: &[u8]) -> (r: String)
    ensures
        r@ == lossy_text(stdout@) + lossy_text(stderr@),
{
    decode_lossy(stdout).concat(decode_lossy(stderr).as_str())
}

/// The note with what `powercfg` printed, without white space at its end: none
/// if it could not be run.
pub open spec fn powercfg_notes(what: Seq<char>, out: Option<String>) -> Seq<Seq<char>> {
    match out {
        Some(t) => seq!["powercfg "@ + what + ":\n"@ + trimmed_end(t@)],
        None => Seq::empty(),
    }
}

/// What the doctor found.
#[derive(Debug)]
pub struct Win32Probe {
    /// What an attempt to set up a power request object, given up at once, came
    /// to.
    pub power_request: core::result::Result<PowerRequestHandle, String>,
    /// What probing the execution state returned.
    pub thread_state: u32,
    /// What `powercfg /requests` printed, if it could be run.
    pub requests: Option<String>,
    /// What `powercfg /availablesleepstates` printed, if it could be run.
    pub sleep_states: Option<String>,
}

/// The note on what probing the power request came to.
pub open spec fn power_request_note(
    probe: core::result::Result<PowerRequestHandle, String>,
) -> Seq<char> {
    match probe {
        Ok(_) => "PowerCreateRequest / PowerSetRequest: available (Windows 7+ / Server 2008 R2+)"@,
        Err(e) => "PowerCreateRequest / PowerSetRequest: probe failed ("@ + e@ + ")"@,
    }
}

/// The note on what probing the power request came to.
pub fn probe_power_request(probe: &core::result::Result<PowerRequestHandle, String>) -> (r: String)
    ensures
        r@ == power_request_note(*probe),
{
    match probe {
        Ok(_) => "PowerCreateRequest / PowerSetRequest: available (Windows 7+ / Server 2008 R2+)".to_string(),
        Err(e) => "PowerCreateRequest / PowerSetRequest: probe failed (".to_string().concat(
            e.as_str(),
        ).concat(")"),
    }
}

/// Whether the lock could be taken right now, by a power request or by the
/// execution state.
pub open spec fn either_works(p: Win32Probe) -> bool {
    p.power_request is Ok || p.thread_state != 0
}

/// The notes of the report.
pub open spec fn win32_notes(p: Win32Probe) -> Seq<Seq<char>> {
    seq![
        power_request_note(p.power_request),
        thread_state_note(p.thread_state),
    ] + powercfg_notes("/requests"@, p.requests) + powercfg_notes(
        "/availablesleepstates"@,
        p.sleep_states,
    )
}

/// The backend's caveats.
pub open spec fn win32_guarantees_texts() -> Seq<Seq<char>> {
    seq![
        "Idle / automatic sleep: blocked while the lock is held"@,
        "User-initiated sleep (power button, lid close, Sleep menu): NOT guaranteed — Windows clears power requests on explicit user sleep"@,
        "Modern Standby on battery (DC): system/execution requests may be terminated ~5 minutes after the system sleep timeout"@,
        "PowerRequestDisplayRequired alone is insufficient — SystemRequired is always taken alongside it"@,
        "Away Mode is only honored on Traditional Sleep (S3) systems"@,
    ]
}

fn push_powercfg(notes: &mut Vec<String>, what: &str, out: Option<String>)
    ensures
        texts(final(notes)@) == texts(old(notes)@) + powercfg_notes(what@, out),
{
    if let Some(t) = out {
        push_text(
            notes,
            "powercfg ".to_string().concat(what).concat(":\n").concat(
                trim_end(t.as_str()).as_str(),
            ),
        );
    }
    assert(texts(notes@) =~= texts(old(notes)@) + powercfg_notes(what@, out));
}

/// The Windows power-request backend.
#[derive(Debug, Clone, Copy, PartialEq, Eq, Structural)]
pub struct Win32PowerBackend;

impl Win32PowerBackend {
    /// A backend handle. Nothing is asked of the system.
    pub fn new() -> (r: Win32PowerBackend)
        ensures
            r == Win32PowerBackend,
    {
        Win32PowerBackend
    }

    /// Start to take the lock.
    pub fn acquire(&self, req: &WakeRequest) -> (r: PowerRequestAttempt)
        ensures
            r.want_display == display_wanted(req@),
            r.reason@ == utf16(req@.reason).push(0u16),
            r.step@ == RequestStepView::Create,
    {
        try_create_power_request(req, wants_display(req))
    }

    /// Report on the backend. It is available exactly if a probe has shown that
    /// one of the two ways to take the lock works.
    pub fn doctor(&self, probe: Win32Probe) -> (r: DoctorReport)
        ensures
            r@ == (DoctorReportView {
                backend: BACKEND_NAME@,
                supported: true,
                available: either_works(probe),
                guarantees: win32_guarantees_texts(),
                notes: win32_notes(probe),
            }),
            r.available <==> probe.power_request is Ok || probe.thread_state != 0,
    {
        let mut notes: Vec<String> = Vec::new();
        assert(texts(notes@) =~= Seq::<Seq<char>>::empty());
        let available = probe.power_request.is_ok() || probe.thread_state != 0;
        push_text(&mut notes, probe_power_request(&probe.power_request));
        push_text(&mut notes, probe_set_thread_execution_state(probe.thread_state));
        push_powercfg(&mut notes, "/requests", probe.requests);
        push_powercfg(&mut notes, "/availablesleepstates", probe.sleep_states);
        let report = DoctorReport {
            backend: BACKEND_NAME.to_string(),
            supported: true,
            available,
            guarantees: vec![
                "Idle / automatic sleep: blocked while the lock is held".to_string(),
                "User-initiated sleep (power button, lid close, Sleep menu): NOT guaranteed — Windows clears power requests on explicit user sleep".to_string(),
                "Modern Standby on battery (DC): system/execution requests may be terminated ~5 minutes after the system sleep timeout".to_string(),
                "PowerRequestDisplayRequired alone is insufficient — SystemRequired is always taken alongside it".to_string(),
                "Away Mode is only honored on Traditional Sleep (S3) systems".to_string(),
            ],
            notes,
        };
        assert(texts(report.guarantees@) =~= win32_guarantees_texts());
        assert(texts(report.notes@) =~= win32_notes(probe));
        report
    }
}

impl Default for Win32PowerBackend {
    fn default() -> (r: Win32PowerBackend)
        ensures
            r == Win32PowerBackend,
    {
        Win32PowerBackend
    }
}

impl WakeBackend for Win32PowerBackend {
    open spec fn name_text(&self) -> Seq<char> {
        BACKEND_NAME@
    }

    open spec fn status_view(&self) -> WakeStatusView {
        WakeStatusView {
            backend: BACKEND_NAME@,
            targets: seq![WakeTarget::SystemSleep],
            mode: WakeMode::Block,
            display: false,
        }
    }

    fn name(&self) -> (r: &'static str) {
        BACKEND_NAME
    }

    fn supported(&self) -> (r: bool) {
        true
    }

    fn status(&self) -> (r: Result<WakeStatus>) {
        let req = WakeRequest::default_windows();
        Ok(
            WakeStatus {
                backend: BACKEND_NAME.to_string(),
                targets: vec![WakeTarget::SystemSleep],
                mode: WakeMode::Block,
                display: req.display,
            },
        )
    }
}

} // verus!
