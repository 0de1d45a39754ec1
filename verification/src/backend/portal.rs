//! The XDG desktop portal backend.
//!
//! ```text
//! service : org.freedesktop.portal.Desktop     (session bus)
//! path    : /org/freedesktop/portal/desktop
//! iface   : org.freedesktop.portal.Inhibit
//! method  : Inhibit(s window, u flags, a{sv} options) -> o handle
//! ```
//!
//! The handle is the lock: it stands until `Close` is called on it. Whether the
//! portal went along is told later by a signal; the lock counts as taken as
//! soon as the handle is there.

use crate::backend::session::{known_owner, OwnerReply};
use crate::error::{ErrorView, OxiwakeError, Result};
use crate::model::{
    DoctorReport, DoctorReportView, WakeBackend, WakeGuard, WakeMode, WakeRequest, WakeStatus,
    WakeStatusView, WakeTarget,
};
use crate::text::texts;
use vstd::prelude::*;
use vstd::string::*;

verus! {

/// The backend's name.
pub const BACKEND_NAME: &'static str = "xdg-portal";

/// The portal's bus name.
pub const PORTAL_SERVICE: &'static str = "org.freedesktop.portal.Desktop";

/// The portal's root object path.
pub const PORTAL_ROOT_PATH: &'static str = "/org/freedesktop/portal/desktop";

/// The portal's inhibit interface.
pub const PORTAL_INHIBIT_IFACE: &'static str = "org.freedesktop.portal.Inhibit";

/// The interface of a handle.
pub const PORTAL_REQUEST_IFACE: &'static str = "org.freedesktop.portal.Request";

/// Prevent suspend.
pub const FLAG_SUSPEND: u32 = 4;

/// Prevent idle.
pub const FLAG_IDLE: u32 = 8;

/// What is always asked for.
pub const INHIBIT_FLAGS: u32 = FLAG_SUSPEND | FLAG_IDLE;

/// The arguments of the portal's `Inhibit`.
#[derive(Debug)]
pub struct PortalCall {
    /// The parent window; empty for none.
    pub window: &'static str,
    /// What to inhibit.
    pub flags: u32,
    /// The key of the only option.
    pub option_key: &'static str,
    /// The value of the only option: the reason.
    pub option_value: String,
}

/// The start of an acquisition.
#[derive(Debug)]
pub struct PortalAcquire {
    call: PortalCall,
}

/// The session bus is open.
#[derive(Debug)]
pub struct PortalConnected {
    call: PortalCall,
}

/// The portal's name has an owner.
#[derive(Debug)]
pub struct PortalOwned {
    call: PortalCall,
}

/// The proxy is built; `Inhibit` may be called.
#[derive(Debug)]
pub struct PortalReady {
    call: PortalCall,
}

/// What calling `Inhibit` came to.
#[derive(Debug)]
pub enum HandleReply {
    /// The call failed.
    CallFailed(String),
    /// The reply was not an object path.
    BadReply(String),
    /// The handle's object path.
    Handle(String),
}

/// Whether the portal has an owner, or why that is unknown.
pub fn portal_owned(reply: OwnerReply) -> (r: Result<bool>)
    ensures
        match reply {
            OwnerReply::NoProxy(e) => r is Err && r->Err_0@ == ErrorView::Dbus(e@),
            OwnerReply::CallFailed(e) => r is Err && r->Err_0@ == ErrorView::Dbus(e@),
            OwnerReply::BadReply(e) => r is Err && r->Err_0@ == ErrorView::DbusDecode(
                "NameHasOwner reply was not a bool: "@ + e@,
            ),
            OwnerReply::Owner(b) => r == Ok::<bool, OxiwakeError>(b),
        },
{
    match reply {
        OwnerReply::NoProxy(e) => Err(OxiwakeError::Dbus(e)),
        OwnerReply::CallFailed(e) => Err(OxiwakeError::Dbus(e)),
        OwnerReply::BadReply(e) => Err(
            OxiwakeError::DbusDecode(
                "NameHasOwner reply was not a bool: ".to_string().concat(e.as_str()),
            ),
        ),
        OwnerReply::Owner(b) => Ok(b),
    }
}

impl PortalAcquire {
    /// The arguments of `Inhibit`.
    pub closed spec fn arguments(&self) -> PortalCall {
        self.call
    }

    /// Go on once connecting to the session bus has succeeded or failed.
    pub fn connected(self, outcome: core::result::Result<(), String>) -> (r: Result<
        PortalConnected,
    >)
        ensures
            match outcome {
                Ok(_) => r is Ok && r->Ok_0.arguments() == self.arguments(),
                Err(e) => r is Err && r->Err_0@ == (ErrorView::BackendUnavailable {
                    backend: BACKEND_NAME@,
                    reason: "cannot connect to session D-Bus: "@ + e@,
                }),
            },
    {
        match outcome {
            Ok(_) => Ok(PortalConnected { call: self.call }),
            Err(e) => Err(
                OxiwakeError::BackendUnavailable {
                    backend: BACKEND_NAME,
                    reason: "cannot connect to session D-Bus: ".to_string().concat(e.as_str()),
                },
            ),
        }
    }
}

impl PortalConnected {
    /// The arguments of `Inhibit`.
    pub closed spec fn arguments(&self) -> PortalCall {
        self.call
    }

    /// Go on once the bus has been asked for the owner of the portal's name.
    pub fn owner(self, reply: OwnerReply) -> (r: Result<PortalOwned>)
        ensures
            match reply {
                OwnerReply::NoProxy(e) => r is Err && r->Err_0@ == ErrorView::Dbus(e@),
                OwnerReply::CallFailed(e) => r is Err && r->Err_0@ == ErrorView::Dbus(e@),
                OwnerReply::BadReply(e) => r is Err && r->Err_0@ == ErrorView::DbusDecode(
                    "NameHasOwner reply was not a bool: "@ + e@,
                ),
                OwnerReply::Owner(true) => r is Ok && r->Ok_0.arguments() == self.arguments(),
                OwnerReply::Owner(false) => r is Err && r->Err_0@
                    == (ErrorView::BackendUnavailable {
                    backend: BACKEND_NAME@,
                    reason: "org.freedesktop.portal.Desktop is not owned on the session bus"@,
                }),
            },
    {
        match portal_owned(reply) {
            Err(e) => Err(e),
            Ok(true) => Ok(PortalOwned { call: self.call }),
            Ok(false) => Err(
                OxiwakeError::BackendUnavailable {
                    backend: BACKEND_NAME,
                    reason: "org.freedesktop.portal.Desktop is not owned on the session bus".to_string(),
                },
            ),
        }
    }
}

impl PortalOwned {
    /// The arguments of `Inhibit`.
    pub closed spec fn arguments(&self) -> PortalCall {
        self.call
    }

    /// Go on once the proxy has been built or has failed to build.
    pub fn proxy(self, outcome: core::result::Result<(), String>) -> (r: Result<PortalReady>)
        ensures
            match outcome {
                Ok(_) => r is Ok && r->Ok_0.arguments() == self.arguments(),
                Err(e) => r is Err && r->Err_0@ == (ErrorView::AcquireFailed {
                    backend: BACKEND_NAME@,
                    reason: "cannot build Inhibit proxy: "@ + e@,
                }),
            },
    {
        match outcome {
            Ok(_) => Ok(PortalReady { call: self.call }),
            Err(e) => Err(
                OxiwakeError::AcquireFailed {
                    backend: BACKEND_NAME,
                    reason: "cannot build Inhibit proxy: ".to_string().concat(e.as_str()),
                },
            ),
        }
    }
}

impl PortalReady {
    /// The arguments of `Inhibit`.
    pub closed spec fn arguments(&self) -> PortalCall {
        self.call
    }

    /// The arguments to call `Inhibit` with.
    pub fn call(&self) -> (r: &PortalCall)
        ensures
            *r == self.arguments(),
    {
        &self.call
    }

    /// Finish with what the call came to. The handle is the lock.
    pub fn called(self, reply: HandleReply) -> (r: Result<PortalGuard>)
        ensures
            match reply {
                HandleReply::CallFailed(e) => r is Err && r->Err_0@ == (ErrorView::AcquireFailed {
                    backend: BACKEND_NAME@,
                    reason: "portal Inhibit call failed: "@ + e@,
                }),
                HandleReply::BadReply(e) => r is Err && r->Err_0@ == ErrorView::DbusDecode(
                    "portal Inhibit reply was not an object path: "@ + e@,
                ),
                HandleReply::Handle(h) => r is Ok && r->Ok_0.handle() == h@ && !r->Ok_0.released(),
            },
    {
        match reply {
            HandleReply::CallFailed(e) => Err(
                OxiwakeError::AcquireFailed {
                    backend: BACKEND_NAME,
                    reason: "portal Inhibit call failed: ".to_string().concat(e.as_str()),
                },
            ),
            HandleReply::BadReply(e) => Err(
                OxiwakeError::DbusDecode(
                    "portal Inhibit reply was not an object path: ".to_string().concat(e.as_str()),
                ),
            ),
            HandleReply::Handle(h) => Ok(PortalGuard { handle: h, closed: false }),
        }
    }
}

/// A held portal inhibition. The program keeps the bus connection beside it.
#[derive(Debug)]
pub struct PortalGuard {
    handle: String,
    closed: bool,
}

impl PortalGuard {
    /// The object path of the handle.
    pub closed spec fn handle(&self) -> Seq<char> {
        self.handle@
    }

    /// Whether the handle has been given up.
    pub closed spec fn released(&self) -> bool {
        self.closed
    }

    /// Give the lock up: the object path to call `Close` on, the first time;
    /// nothing after that, so that `Close` is called at most once.
    pub fn release(&mut self) -> (r: Option<String>)
        ensures
            final(self).released(),
            final(self).handle() == old(self).handle(),
            if old(self).released() {
                r is None
            } else {
                r is Some && r->Some_0@ == old(self).handle()
            },
    {
        if self.closed {
            return None;
        }
        self.closed = true;
        Some(self.handle.clone())
    }
}

impl WakeGuard for PortalGuard {
    open spec fn backend_text(&self) -> Seq<char> {
        BACKEND_NAME@
    }

    fn backend(&self) -> (r: &'static str) {
        BACKEND_NAME
    }
}

/// How far the doctor got.
#[derive(Debug)]
pub enum PortalProbe {
    /// There is no session bus.
    NoBus(String),
    /// The bus was asked for the portal's owner.
    Asked(OwnerReply),
}

/// The note of the report.
pub open spec fn portal_note(p: PortalProbe) -> Seq<char> {
    match p {
        PortalProbe::NoBus(e) => "cannot connect to session D-Bus: "@ + e@,
        PortalProbe::Asked(reply) => if known_owner(reply) {
            "org.freedesktop.portal.Desktop is owned on the session bus"@
        } else {
            "org.freedesktop.portal.Desktop is NOT owned on the session bus (no portal backend running)"@
        },
    }
}

/// The backend's caveats.
pub open spec fn portal_guarantees_texts() -> Seq<Seq<char>> {
    seq![
        "inhibits suspend and idle only (flags 4 | 8); not logout/user-switch"@,
        "portal inhibit is session/desktop-level, NOT a kernel-level lid-close blocker"@,
        "useful as a secondary backend, not as the sole wake lock"@,
    ]
}

/// The XDG desktop portal backend.
#[derive(Debug, Clone, Copy, PartialEq, Eq, Structural)]
pub struct PortalBackend;

impl Default for PortalBackend {
    fn default() -> (r: PortalBackend)
        ensures
            r == PortalBackend,
    {
        PortalBackend
    }
}

impl PortalBackend {
    /// A backend handle. Nothing is opened.
    pub fn new() -> (r: PortalBackend)
        ensures
            r == PortalBackend,
    {
        PortalBackend
    }

    /// Start to take the lock: suspend and idle, with the request's reason as
    /// the only option. Targets, display and lid are not the portal's to give.
    pub fn acquire(&self, req: &WakeRequest) -> (r: PortalAcquire)
        ensures
            r.arguments().window@ == ""@,
            r.arguments().flags == 12,
            r.arguments().option_key@ == "reason"@,
            r.arguments().option_value@ == req@.reason,
    {
        assert(4u32 | 8u32 == 12u32) by (bit_vector);
        PortalAcquire {
            call: PortalCall {
                window: "",
                flags: INHIBIT_FLAGS,
                option_key: "reason",
                option_value: req.reason.clone(),
            },
        }
    }

    /// Report on the backend. It is available only if the portal's name is
    /// known to have an owner.
    pub fn doctor(&self, probe: PortalProbe) -> (r: DoctorReport)
        ensures
            r@ == (DoctorReportView {
                backend: BACKEND_NAME@,
                supported: true,
                available: probe is Asked && known_owner(probe->Asked_0),
                guarantees: portal_guarantees_texts(),
                notes: seq![portal_note(probe)],
            }),
    {
        let (available, note) = match probe {
            PortalProbe::NoBus(e) => (
                false,
                "cannot connect to session D-Bus: ".to_string().concat(e.as_str()),
            ),
            PortalProbe::Asked(reply) => {
                let owned = match portal_owned(reply) {
                    Ok(b) => b,
                    Err(_) => false,
                };
                if owned {
                    (true, "org.freedesktop.portal.Desktop is owned on the session bus".to_string())
                } else {
                    (
                        false,
                        "org.freedesktop.portal.Desktop is NOT owned on the session bus (no portal backend running)".to_string(),
                    )
                }
            },
        };
        let report = DoctorReport {
            backend: BACKEND_NAME.to_string(),
            supported: true,
            available,
            guarantees: vec![
                "inhibits suspend and idle only (flags 4 | 8); not logout/user-switch".to_string(),
                "portal inhibit is session/desktop-level, NOT a kernel-level lid-close blocker".to_string(),
                "useful as a secondary backend, not as the sole wake lock".to_string(),
            ],
            notes: vec![note],
        };
        assert(texts(report.guarantees@) =~= portal_guarantees_texts());
        assert(texts(report.notes@) =~= seq![portal_note(probe)]);
        report
    }
}

impl WakeBackend for PortalBackend {
    open spec fn name_text(&self) -> Seq<char> {
        BACKEND_NAME@
    }

    open spec fn status_view(&self) -> WakeStatusView {
        WakeStatusView {
            backend: BACKEND_NAME@,
            targets: seq![WakeTarget::SystemSleep, WakeTarget::Idle],
            mode: WakeMode::Block,
            display: false,
        }
    }

    fn name(&self) -> (r: &'static str) {
        BACKEND_NAME
    }

    fn supported(&self) -> (r: bool) {
        true
    }

    fn status(&self) -> (r: Result<WakeStatus>) {
        Ok(
            WakeStatus {
                backend: BACKEND_NAME.to_string(),
                targets: vec![WakeTarget::SystemSleep, WakeTarget::Idle],
                mode: WakeMode::Block,
                display: false,
            },
        )
    }
}

} // verus!
