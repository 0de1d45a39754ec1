//! The error type of every fallible operation.

use crate::text::{decimal, decimal_text};
use vstd::prelude::*;
use vstd::string::*;

verus! {

/// What kind of failure an input/output operation met, as far as a decision
/// depends on it.
#[derive(Debug, Clone, Copy, PartialEq, Eq, Structural)]
pub enum IoErrorKind {
    /// The file or socket does not exist.
    NotFound,
    /// Nobody listens on the socket.
    ConnectionRefused,
    /// A signal arrived before anything was transferred.
    Interrupted,
    /// The operation would have blocked, or its time limit passed.
    WouldBlock,
    /// The time limit passed.
    TimedOut,
    /// Anything else.
    Other,
}

/// A failed input/output operation: its kind and the platform's wording.
#[derive(Debug)]
pub struct IoError {
    /// The kind of failure.
    pub kind: IoErrorKind,
    /// The platform's description of it.
    pub message: String,
}

/// What an [`IoError`] says.
#[verifier::ext_equal]
pub struct IoErrorView {
    pub kind: IoErrorKind,
    pub message: Seq<char>,
}

impl View for IoError {
    type V = IoErrorView;

    open spec fn view(&self) -> IoErrorView {
        IoErrorView { kind: self.kind, message: self.message@ }
    }
}

impl Clone for IoError {
    fn clone(&self) -> (r: IoError)
        ensures
            r@ == self@,
    {
        IoError { kind: self.kind, message: self.message.clone() }
    }
}

/// Every fallible operation returns this.
#[derive(Debug)]
pub enum OxiwakeError {
    /// The backend is compiled in but cannot be used right now (no bus, no
    /// display, ...).
    BackendUnavailable { backend: &'static str, reason: String },
    /// The backend tried to take the lock and the platform refused it.
    AcquireFailed { backend: &'static str, reason: String },
    /// A D-Bus call failed; the bus library's description.
    Dbus(String),
    /// A D-Bus method returned an unexpected type or value.
    DbusDecode(String),
    /// File system or socket input/output.
    Io(IoError),
    /// The persistent state was missing, unreadable or inconsistent.
    State(String),
    /// A message frame was malformed, or the daemon replied with an error.
    Ipc(String),
    /// The lock was to be released or reported, but no daemon is running.
    NotRunning,
    /// The lock was to be taken, but a daemon is already running.
    AlreadyRunning(u32),
    /// Anything that does not fit a more specific variant.
    Other(String),
}

/// What an [`OxiwakeError`] says.
#[verifier::ext_equal]
pub enum ErrorView {
    BackendUnavailable { backend: Seq<char>, reason: Seq<char> },
    AcquireFailed { backend: Seq<char>, reason: Seq<char> },
    Dbus(Seq<char>),
    DbusDecode(Seq<char>),
    Io(IoErrorView),
    State(Seq<char>),
    Ipc(Seq<char>),
    NotRunning,
    AlreadyRunning(u32),
    Other(Seq<char>),
}

impl View for OxiwakeError {
    type V = ErrorView;

    open spec fn view(&self) -> ErrorView {
        match *self {
            OxiwakeError::BackendUnavailable { backend, reason } => ErrorView::BackendUnavailable {
                backend: backend@,
                reason: reason@,
            },
            OxiwakeError::AcquireFailed { backend, reason } => ErrorView::AcquireFailed {
                backend: backend@,
                reason: reason@,
            },
            OxiwakeError::Dbus(m) => ErrorView::Dbus(m@),
            OxiwakeError::DbusDecode(m) => ErrorView::DbusDecode(m@),
            OxiwakeError::Io(e) => ErrorView::Io(e@),
            OxiwakeError::State(m) => ErrorView::State(m@),
            OxiwakeError::Ipc(m) => ErrorView::Ipc(m@),
            OxiwakeError::NotRunning => ErrorView::NotRunning,
            OxiwakeError::AlreadyRunning(pid) => ErrorView::AlreadyRunning(pid),
            OxiwakeError::Other(m) => ErrorView::Other(m@),
        }
    }
}

/// The line shown to a user for an error.
pub open spec fn error_text(e: ErrorView) -> Seq<char> {
    match e {
        ErrorView::BackendUnavailable { backend, reason } => "backend "@ + backend
            + " unavailable: "@ + reason,
        ErrorView::AcquireFailed { backend, reason } => "backend "@ + backend
            + " could not acquire lock: "@ + reason,
        ErrorView::Dbus(m) => "D-Bus error: "@ + m,
        ErrorView::DbusDecode(m) => "D-Bus reply decode error: "@ + m,
        ErrorView::Io(io) => "io error: "@ + io.message,
        ErrorView::State(m) => "state error: "@ + m,
        ErrorView::Ipc(m) => "ipc error: "@ + m,
        ErrorView::NotRunning => "oxiwake is not running"@,
        ErrorView::AlreadyRunning(pid) => "oxiwake is already running (pid "@ + decimal_text(
            pid as nat,
        ) + ")"@,
        ErrorView::Other(m) => m,
    }
}

/// A result whose error is an [`OxiwakeError`].
pub type Result<T> = std::result::Result<T, OxiwakeError>;

impl OxiwakeError {
    /// An error that is only a message.
    pub fn other(msg: String) -> (r: OxiwakeError)
        ensures
            r@ == ErrorView::Other(msg@),
    {
        OxiwakeError::Other(msg)
    }

    /// The line shown to a user for this error.
    pub fn message(&self) -> (r: String)
        ensures
            r@ == error_text(self@),
    {
        match self {
            OxiwakeError::BackendUnavailable { backend, reason } => "backend ".to_string().concat(
                backend,
            ).concat(" unavailable: ").concat(reason.as_str()),
            OxiwakeError::AcquireFailed { backend, reason } => "backend ".to_string().concat(
                backend,
            ).concat(" could not acquire lock: ").concat(reason.as_str()),
            OxiwakeError::Dbus(m) => "D-Bus error: ".to_string().concat(m.as_str()),
            OxiwakeError::DbusDecode(m) => "D-Bus reply decode error: ".to_string().concat(
                m.as_str(),
            ),
            OxiwakeError::Io(io) => "io error: ".to_string().concat(io.message.as_str()),
            OxiwakeError::State(m) => "state error: ".to_string().concat(m.as_str()),
            OxiwakeError::Ipc(m) => "ipc error: ".to_string().concat(m.as_str()),
            OxiwakeError::NotRunning => "oxiwake is not running".to_string(),
            OxiwakeError::AlreadyRunning(pid) => "oxiwake is already running (pid ".to_string().concat(
                decimal(*pid as u64).as_str(),
            ).concat(")"),
            OxiwakeError::Other(m) => m.clone(),
        }
    }
}

impl Clone for OxiwakeError {
    fn clone(&self) -> (r: OxiwakeError)
        ensures
            r@ == self@,
    {
        match self {
            OxiwakeError::BackendUnavailable { backend, reason } => OxiwakeError::BackendUnavailable {
                backend: *backend,
                reason: reason.clone(),
            },
            OxiwakeError::AcquireFailed { backend, reason } => OxiwakeError::AcquireFailed {
                backend: *backend,
                reason: reason.clone(),
            },
            OxiwakeError::Dbus(m) => OxiwakeError::Dbus(m.clone()),
            OxiwakeError::DbusDecode(m) => OxiwakeError::DbusDecode(m.clone()),
            OxiwakeError::Io(io) => OxiwakeError::Io(io.clone()),
            OxiwakeError::State(m) => OxiwakeError::State(m.clone()),
            OxiwakeError::Ipc(m) => OxiwakeError::Ipc(m.clone()),
            OxiwakeError::NotRunning => OxiwakeError::NotRunning,
            OxiwakeError::AlreadyRunning(pid) => OxiwakeError::AlreadyRunning(*pid),
            OxiwakeError::Other(m) => OxiwakeError::Other(m.clone()),
        }
    }
}

} // verus!
