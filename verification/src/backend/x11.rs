//! The X11 screensaver backend.
//!
//! Suspending the screensaver timer through the MIT-SCREEN-SAVER extension also
//! suspends the display's power timer. This is a display and idle concern: it
//! prevents neither suspend nor lid handling.

use crate::backend::EnvVar;
use crate::error::{error_text, ErrorView, OxiwakeError, Result};
use crate::model::{
    DoctorReport, DoctorReportView, WakeBackend, WakeGuard, WakeMode, WakeRequest, WakeStatus,
    WakeStatusView, WakeTarget,
};
use crate::text::{push_text, texts};
use vstd::prelude::*;
use vstd::string::*;

verus! {

/// The backend's name.
pub const NAME: &'static str = "x11-screensaver";

/// The two phases of an inhibition.
#[derive(Clone, Copy, PartialEq, Eq, Debug, Structural)]
pub enum SuspendArg {
    /// Suspend the timers.
    Acquire,
    /// Let them run again.
    Release,
}

impl SuspendArg {
    /// The argument that the suspend request takes: 1 to suspend, 0 to resume.
    pub fn value(self) -> (r: u32)
        ensures
            r == if self == SuspendArg::Acquire {
                1u32
            } else {
                0u32
            },
    {
        match self {
            SuspendArg::Acquire => 1,
            SuspendArg::Release => 0,
        }
    }
}

/// What connecting to the X server and asking for the extension came to.
#[derive(Debug)]
pub enum X11Connect {
    /// The server could not be reached.
    NoServer(String),
    /// The question for the extension failed.
    QueryFailed(String),
    /// The server's answer: `Some` if it has the extension.
    Extension(Option<()>),
}

/// The error for a server without the extension.
pub open spec fn missing_extension() -> ErrorView {
    ErrorView::BackendUnavailable {
        backend: NAME@,
        reason: "X server does not advertise the MIT-SCREEN-SAVER extension"@,
    }
}

/// Insist on the extension.
pub fn require_extension(present: Option<()>) -> (r: Result<()>)
    ensures
        match present {
            Some(_) => r is Ok,
            None => r is Err && r->Err_0@ == missing_extension(),
        },
{
    match present {
        Some(_) => Ok(()),
        None => Err(
            OxiwakeError::BackendUnavailable {
                backend: NAME,
                reason: "X server does not advertise the MIT-SCREEN-SAVER extension".to_string(),
            },
        ),
    }
}

/// The error of a connection that cannot be used, if it cannot.
pub open spec fn connect_error(outcome: X11Connect) -> Option<ErrorView> {
    match outcome {
        X11Connect::NoServer(e) => Some(
            ErrorView::BackendUnavailable {
                backend: NAME@,
                reason: "cannot connect to X server ("@ + e@ + ")"@,
            },
        ),
        X11Connect::QueryFailed(e) => Some(
            ErrorView::BackendUnavailable {
                backend: NAME@,
                reason: "X query-extension failed ("@ + e@ + ")"@,
            },
        ),
        X11Connect::Extension(None) => Some(missing_extension()),
        X11Connect::Extension(Some(_)) => None,
    }
}

/// The X server is connected and has the extension: the suspend request may be
/// sent.
#[derive(Debug)]
pub struct X11Ready {
    token: (),
}

/// What suspending the timers came to.
#[derive(Debug)]
pub enum SuspendOutcome {
    /// The request could not be sent.
    RequestFailed(String),
    /// The server rejected it.
    Rejected(String),
    /// The connection could not be flushed.
    FlushFailed(String),
    /// The timers are suspended.
    Suspended,
}

impl X11Ready {
    /// The argument to send.
    pub fn argument(&self) -> (r: u32)
        ensures
            r == 1,
    {
        SuspendArg::Acquire.value()
    }

    /// Finish with what the request came to.
    pub fn suspended(self, outcome: SuspendOutcome) -> (r: Result<X11Guard>)
        ensures
            match outcome {
                SuspendOutcome::RequestFailed(e) => r is Err && r->Err_0@
                    == (ErrorView::AcquireFailed {
                    backend: NAME@,
                    reason: "screensaver_suspend request failed ("@ + e@ + ")"@,
                }),
                SuspendOutcome::Rejected(e) => r is Err && r->Err_0@ == (ErrorView::AcquireFailed {
                    backend: NAME@,
                    reason: "screensaver_suspend rejected by X server ("@ + e@ + ")"@,
                }),
                SuspendOutcome::FlushFailed(e) => r is Err && r->Err_0@
                    == (ErrorView::AcquireFailed {
                    backend: NAME@,
                    reason: "flushing X connection failed ("@ + e@ + ")"@,
                }),
                SuspendOutcome::Suspended => r is Ok && r->Ok_0.holds(),
            },
    {
        match outcome {
            SuspendOutcome::RequestFailed(e) => Err(
                OxiwakeError::AcquireFailed {
                    backend: NAME,
                    reason: "screensaver_suspend request failed (".to_string().concat(
                        e.as_str(),
                    ).concat(")"),
                },
            ),
            SuspendOutcome::Rejected(e) => Err(
                OxiwakeError::AcquireFailed {
                    backend: NAME,
                    reason: "screensaver_suspend rejected by X server (".to_string().concat(
                        e.as_str(),
                    ).concat(")"),
                },
            ),
            SuspendOutcome::FlushFailed(e) => Err(
                OxiwakeError::AcquireFailed {
                    backend: NAME,
                    reason: "flushing X connection failed (".to_string().concat(e.as_str()).concat(
                        ")",
                    ),
                },
            ),
            SuspendOutcome::Suspended => Ok(X11Guard::from_connection()),
        }
    }
}

/// What a round trip to a connected server came to.
#[derive(Debug)]
pub enum RoundTrip {
    /// The request could not be sent.
    RequestFailed(String),
    /// No reply came.
    ReplyFailed(String),
    /// The server answered.
    Answered,
}

/// How far the doctor got.
#[derive(Debug)]
pub enum X11Probe {
    /// The connection cannot be used.
    Unavailable(OxiwakeError),
    /// The server was reached and asked something.
    Connected(RoundTrip),
}

/// The note on `$DISPLAY`. A value that is not text shows as nothing.
pub open spec fn display_note(v: EnvVar) -> Seq<char> {
    match v {
        EnvVar::Text(s) if s@.len() > 0 => "DISPLAY="@ + s@,
        EnvVar::NotText(s) if s@.len() > 0 => "DISPLAY="@,
        _ => "DISPLAY is not set"@,
    }
}

/// The notes on the server: none if it answered.
pub open spec fn server_notes(p: X11Probe) -> Seq<Seq<char>> {
    match p {
        X11Probe::Unavailable(e) => seq!["unavailable: "@ + error_text(e@)],
        X11Probe::Connected(RoundTrip::ReplyFailed(e)) => seq![
            "X round-trip reply failed ("@ + e@ + ")"@,
        ],
        X11Probe::Connected(RoundTrip::RequestFailed(e)) => seq![
            "X round-trip request failed ("@ + e@ + ")"@,
        ],
        X11Probe::Connected(RoundTrip::Answered) => Seq::empty(),
    }
}

/// The backend's caveats.
pub open spec fn x11_guarantees_texts() -> Seq<Seq<char>> {
    seq![
        "display/idle-level only: inhibits screensaver and DPMS timers"@,
        "does NOT prevent system suspend, hibernate, or lid-close"@,
    ]
}

/// The X11 screensaver backend.
#[derive(Debug, Clone, Copy, PartialEq, Eq, Structural)]
pub struct X11Backend;

impl X11Backend {
    /// A backend handle. Nothing is opened.
    pub fn new() -> (r: X11Backend)
        ensures
            r == X11Backend,
    {
        X11Backend
    }

    /// Whether a connection can be used, or why not.
    pub fn connect_with_extension(outcome: X11Connect) -> (r: Result<()>)
        ensures
            match connect_error(outcome) {
                Some(e) => r is Err && r->Err_0@ == e,
                None => r is Ok,
            },
    {
        match outcome {
            X11Connect::NoServer(e) => Err(
                OxiwakeError::BackendUnavailable {
                    backend: NAME,
                    reason: "cannot connect to X server (".to_string().concat(e.as_str()).concat(
                        ")",
                    ),
                },
            ),
            X11Connect::QueryFailed(e) => Err(
                OxiwakeError::BackendUnavailable {
                    backend: NAME,
                    reason: "X query-extension failed (".to_string().concat(e.as_str()).concat(")"),
                },
            ),
            X11Connect::Extension(present) => require_extension(present),
        }
    }

    /// Start to take the lock on a connection. The request has no part in it:
    /// the timers are suspended as a whole.
    pub fn acquire(&self, req: &WakeRequest, connection: X11Connect) -> (r: Result<X11Ready>)
        ensures
            match connect_error(connection) {
                Some(e) => r is Err && r->Err_0@ == e,
                None => r is Ok,
            },
    {
        let _ = req;
        match Self::connect_with_extension(connection) {
            Ok(_) => Ok(X11Ready { token: () }),
            Err(e) => Err(e),
        }
    }

    /// Report on the backend. It is available only if the server answers.
    pub fn doctor(&self, display: EnvVar, probe: X11Probe) -> (r: DoctorReport)
        ensures
            r@ == (DoctorReportView {
                backend: NAME@,
                supported: true,
                available: probe == X11Probe::Connected(RoundTrip::Answered),
                guarantees: x11_guarantees_texts(),
                notes: seq![display_note(display)] + server_notes(probe),
            }),
    {
        let mut notes: Vec<String> = Vec::new();
        assert(texts(notes@) =~= Seq::<Seq<char>>::empty());
        let note = match display {
            EnvVar::Text(s) => {
                if s.as_str().unicode_len() > 0 {
                    "DISPLAY=".to_string().concat(s.as_str())
                } else {
                    "DISPLAY is not set".to_string()
                }
            },
            EnvVar::NotText(s) => {
                if s.as_str().unicode_len() > 0 {
                    "DISPLAY=".to_string()
                } else {
                    "DISPLAY is not set".to_string()
                }
            },
            EnvVar::Unset => "DISPLAY is not set".to_string(),
        };
        push_text(&mut notes, note);
        let available = match probe {
            X11Probe::Unavailable(e) => {
                push_text(
                    &mut notes,
                    "unavailable: ".to_string().concat(e.message().as_str()),
                );
                false
            },
            X11Probe::Connected(RoundTrip::ReplyFailed(e)) => {
                push_text(
                    &mut notes,
                    "X round-trip reply failed (".to_string().concat(e.as_str()).concat(")"),
                );
                false
            },
            X11Probe::Connected(RoundTrip::RequestFailed(e)) => {
                push_text(
                    &mut notes,
                    "X round-trip request failed (".to_string().concat(e.as_str()).concat(")"),
                );
                false
            },
            X11Probe::Connected(RoundTrip::Answered) => true,
        };
        let report = DoctorReport {
            backend: NAME.to_string(),
            supported: true,
            available,
            guarantees: vec![
                "display/idle-level only: inhibits screensaver and DPMS timers".to_string(),
                "does NOT prevent system suspend, hibernate, or lid-close".to_string(),
            ],
            notes,
        };
        assert(texts(report.guarantees@) =~= x11_guarantees_texts());
        assert(texts(report.notes@) =~= seq![display_note(display)] + server_notes(probe));
        report
    }
}

impl Default for X11Backend {
    fn default() -> (r: X11Backend)
        ensures
            r == X11Backend,
    {
        X11Backend
    }
}

impl WakeBackend for X11Backend {
    open spec fn name_text(&self) -> Seq<char> {
        NAME@
    }

    open spec fn status_view(&self) -> WakeStatusView {
        WakeStatusView {
            backend: NAME@,
            targets: seq![WakeTarget::Idle, WakeTarget::Display],
            mode: WakeMode::Block,
            display: true,
        }
    }

    fn name(&self) -> (r: &'static str) {
        NAME
    }

    fn supported(&self) -> (r: bool) {
        true
    }

    fn status(&self) -> (r: Result<WakeStatus>) {
        Ok(
            WakeStatus {
                backend: NAME.to_string(),
                targets: vec![WakeTarget::Idle, WakeTarget::Display],
                mode: WakeMode::Block,
                display: true,
            },
        )
    }
}

/// Suspended timers. The program keeps the connection beside it.
#[derive(Debug)]
pub struct X11Guard {
    held: bool,
}

impl X11Guard {
    /// Whether the timers are still suspended.
    pub closed spec fn holds(&self) -> bool {
        self.held
    }

    /// The guard of a connection whose timers are suspended.
    pub fn from_connection() -> (r: X11Guard)
        ensures
            r.holds(),
    {
        X11Guard { held: true }
    }

    /// Give the lock up: the argument to send with the suspend request, the
    /// first time; nothing after that.
    pub fn release(&mut self) -> (r: Option<u32>)
        ensures
            r == if old(self).holds() {
                Some(0u32)
            } else {
                None
            },
            !final(self).holds(),
    {
        if self.held {
            self.held = false;
            Some(SuspendArg::Release.value())
        } else {
            None
        }
    }
}

impl WakeGuard for X11Guard {
    open spec fn backend_text(&self) -> Seq<char> {
        NAME@
    }

    fn backend(&self) -> (r: &'static str) {
        NAME
    }
}

} // verus!
