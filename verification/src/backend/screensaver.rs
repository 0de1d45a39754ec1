//! The freedesktop ScreenSaver backend.
//!
//! ```text
//! service : org.freedesktop.ScreenSaver
//! path    : /org/freedesktop/ScreenSaver
//! methods : Inhibit(s application_name, s reason) -> u cookie
//!           UnInhibit(u cookie)
//! ```
//!
//! The service inhibits idleness and nothing else.

use crate::backend::session::{known_owner, name_has_owner, Acquire, OwnerReply, Service};
use crate::error::Result;
use crate::model::{
    DoctorReport, DoctorReportView, WakeBackend, WakeMode, WakeRequest, WakeStatus, WakeStatusView,
    WakeTarget,
};
use crate::text::texts;
use vstd::prelude::*;
use vstd::string::*;

verus! {

/// The backend's name.
pub const NAME: &'static str = "freedesktop-screensaver";

/// The service's bus name.
pub const DEST: &'static str = "org.freedesktop.ScreenSaver";

/// The service's object path.
pub const PATH: &'static str = "/org/freedesktop/ScreenSaver";

/// The service's interface.
pub const IFACE: &'static str = "org.freedesktop.ScreenSaver";

/// The ScreenSaver service.
pub open spec fn screensaver_service() -> Service {
    Service {
        name: NAME,
        dest: DEST,
        path: PATH,
        iface: IFACE,
        inhibit: "Inhibit",
        release: Some("UnInhibit"),
    }
}

/// The arguments of the ScreenSaver's `Inhibit`.
#[derive(Debug)]
pub struct ScreenSaverCall {
    /// Who asks.
    pub application_name: &'static str,
    /// Why.
    pub reason: String,
}

/// The ScreenSaver backend.
#[derive(Debug, Clone, Copy, PartialEq, Eq, Structural)]
pub struct ScreenSaverBackend;

impl ScreenSaverBackend {
    /// A backend handle. Nothing is opened.
    pub fn new() -> (r: ScreenSaverBackend)
        ensures
            r == ScreenSaverBackend,
    {
        ScreenSaverBackend
    }

    /// Start to take the lock, for the request's reason.
    pub fn acquire(&self, req: &WakeRequest) -> (r: Acquire<ScreenSaverCall>)
        ensures
            r.target() == screensaver_service(),
            r.arguments().application_name@ == "Oxiwake"@,
            r.arguments().reason@ == req@.reason,
    {
        Acquire::new(
            Service {
                name: NAME,
                dest: DEST,
                path: PATH,
                iface: IFACE,
                inhibit: "Inhibit",
                release: Some("UnInhibit"),
            },
            ScreenSaverCall {
                application_name: WakeRequest::WHO,
                reason: req.reason.clone(),
            },
        )
    }

    /// Report on the backend. `owner` is the bus's answer about the service, or
    /// `None` if there is no session bus.
    pub fn doctor(&self, owner: Option<OwnerReply>) -> (r: DoctorReport)
        ensures
            r@ == (DoctorReportView {
                backend: NAME@,
                supported: true,
                available: owner is Some && known_owner(owner->Some_0),
                guarantees: seq![
                    "inhibits idleness only (screen blank / idle lock)"@,
                    "does NOT prevent suspend, hibernate, lid-close, or shutdown (freedesktop idle-inhibit spec, setup.md §3)"@,
                ],
                notes: seq![
                    "session D-Bus service "@ + DEST@ + " at "@ + PATH@,
                ],
            }),
    {
        let available = match &owner {
            Some(reply) => name_has_owner(reply),
            None => false,
        };
        let report = DoctorReport {
            backend: NAME.to_string(),
            supported: true,
            available,
            guarantees: vec![
                "inhibits idleness only (screen blank / idle lock)".to_string(),
                "does NOT prevent suspend, hibernate, lid-close, or shutdown (freedesktop idle-inhibit spec, setup.md §3)".to_string(),
            ],
            notes: vec![
                "session D-Bus service ".to_string().concat(DEST).concat(" at ").concat(PATH),
            ],
        };
        assert(texts(report.guarantees@) =~= seq![
            "inhibits idleness only (screen blank / idle lock)"@,
            "does NOT prevent suspend, hibernate, lid-close, or shutdown (freedesktop idle-inhibit spec, setup.md §3)"@,
        ]);
        assert(texts(report.notes@) =~= seq![
            "session D-Bus service "@ + DEST@ + " at "@ + PATH@,
        ]);
        report
    }
}

impl Default for ScreenSaverBackend {
    fn default() -> (r: ScreenSaverBackend)
        ensures
            r == ScreenSaverBackend,
    {
        ScreenSaverBackend
    }
}

impl WakeBackend for ScreenSaverBackend {
    open spec fn name_text(&self) -> Seq<char> {
        NAME@
    }

    open spec fn status_view(&self) -> WakeStatusView {
        WakeStatusView {
            backend: NAME@,
            targets: seq![WakeTarget::Idle],
            mode: WakeMode::Block,
            display: false,
        }
    }

    fn name(&self) -> (r: &'static str) {
        NAME
    }

    fn supported(&self) -> (r: bool) {
        true
    }

    fn status(&self) -> (r: Result<WakeStatus>) {
        Ok(
            WakeStatus {
                backend: NAME.to_string(),
                targets: vec![WakeTarget::Idle],
                mode: WakeMode::Block,
                display: false,
            },
        )
    }
}

} // verus!
