//! The GNOME session manager backend.
//!
//! ```text
//! service : org.gnome.SessionManager
//! path    : /org/gnome/SessionManager
//! method  : Inhibit(s app_id, u toplevel_xid, s reason, u flags) -> u cookie
//! ```
//!
//! The interface has no release method per cookie: the lock goes when the
//! client disconnects.

use crate::backend::session::{known_owner, name_has_owner, Acquire, OwnerReply, Service};
use crate::error::Result;
use crate::model::{
    DoctorReport, DoctorReportView, WakeBackend, WakeMode, WakeRequest, WakeStatus, WakeStatusView,
    WakeTarget,
};
use crate::text::{decimal, decimal_text, texts};
use vstd::prelude::*;
use vstd::string::*;

verus! {

/// The backend's name.
pub const NAME: &'static str = "gnome-session";

/// The service's bus name.
pub const DEST: &'static str = "org.gnome.SessionManager";

/// The service's object path.
pub const PATH: &'static str = "/org/gnome/SessionManager";

/// The service's interface.
pub const IFACE: &'static str = "org.gnome.SessionManager";

/// Inhibit suspend (4) and idle (8).
pub const FLAGS_SUSPEND_IDLE: u32 = 4 | 8;

/// The GNOME session manager.
pub open spec fn gnome_service() -> Service {
    Service {
        name: NAME,
        dest: DEST,
        path: PATH,
        iface: IFACE,
        inhibit: "Inhibit",
        release: None,
    }
}

/// The arguments of GNOME's `Inhibit`.
#[derive(Debug)]
pub struct GnomeCall {
    /// Who asks.
    pub app_id: &'static str,
    /// The window that asks; 0 for none.
    pub toplevel_xid: u32,
    /// Why.
    pub reason: String,
    /// What to inhibit.
    pub flags: u32,
}

/// The GNOME session manager backend.
#[derive(Debug, Clone, Copy, PartialEq, Eq, Structural)]
pub struct GnomeBackend;

impl GnomeBackend {
    /// A backend handle. Nothing is opened.
    pub fn new() -> (r: GnomeBackend)
        ensures
            r == GnomeBackend,
    {
        GnomeBackend
    }

    /// Start to take the lock: suspend and idle, for the request's reason.
    pub fn acquire(&self, req: &WakeRequest) -> (r: Acquire<GnomeCall>)
        ensures
            r.target() == gnome_service(),
            r.arguments().app_id@ == "Oxiwake"@,
            r.arguments().toplevel_xid == 0,
            r.arguments().reason@ == req@.reason,
            r.arguments().flags == 12,
    {
        assert(4u32 | 8u32 == 12u32) by (bit_vector);
        Acquire::new(
            Service {
                name: NAME,
                dest: DEST,
                path: PATH,
                iface: IFACE,
                inhibit: "Inhibit",
                release: None,
            },
            GnomeCall {
                app_id: WakeRequest::WHO,
                toplevel_xid: 0,
                reason: req.reason.clone(),
                flags: FLAGS_SUSPEND_IDLE,
            },
        )
    }

    /// Report on the backend. `owner` is the bus's answer about the service, or
    /// `None` if there is no session bus.
    pub fn doctor(&self, owner: Option<OwnerReply>) -> (r: DoctorReport)
        ensures
            r@ == (DoctorReportView {
                backend: NAME@,
                supported: true,
                available: owner is Some && known_owner(owner->Some_0),
                guarantees: seq![
                    "inhibits suspend + idle (GNOME flags 4|8 = 12); other actions (logout/switch/automount) not requested"@,
                    "session-level inhibition, not a kernel sleep / lid blocker (use systemd-logind for system-level guarantees)"@,
                ],
                notes: seq![
                    "session D-Bus service "@ + DEST@ + " at "@ + PATH@ + "; flags="@
                        + decimal_text(12),
                ],
            }),
    {
        assert(4u32 | 8u32 == 12u32) by (bit_vector);
        let available = match &owner {
            Some(reply) => name_has_owner(reply),
            None => false,
        };
        let report = DoctorReport {
            backend: NAME.to_string(),
            supported: true,
            available,
            guarantees: vec![
                "inhibits suspend + idle (GNOME flags 4|8 = 12); other actions (logout/switch/automount) not requested".to_string(),
                "session-level inhibition, not a kernel sleep / lid blocker (use systemd-logind for system-level guarantees)".to_string(),
            ],
            notes: vec![
                "session D-Bus service ".to_string().concat(DEST).concat(" at ").concat(
                    PATH,
                ).concat("; flags=").concat(decimal(FLAGS_SUSPEND_IDLE as u64).as_str()),
            ],
        };
        assert(texts(report.guarantees@) =~= seq![
            "inhibits suspend + idle (GNOME flags 4|8 = 12); other actions (logout/switch/automount) not requested"@,
            "session-level inhibition, not a kernel sleep / lid blocker (use systemd-logind for system-level guarantees)"@,
        ]);
        assert(texts(report.notes@) =~= seq![
            "session D-Bus service "@ + DEST@ + " at "@ + PATH@ + "; flags="@ + decimal_text(12),
        ]);
        report
    }
}

impl Default for GnomeBackend {
    fn default() -> (r: GnomeBackend)
        ensures
            r == GnomeBackend,
    {
        GnomeBackend
    }
}

impl WakeBackend for GnomeBackend {
    open spec fn name_text(&self) -> Seq<char> {
        NAME@
    }

    open spec fn status_view(&self) -> WakeStatusView {
        WakeStatusView {
            backend: NAME@,
            targets: seq![WakeTarget::SystemSleep, WakeTarget::Idle],
            mode: WakeMode::Block,
            display: false,
        }
    }

    fn name(&self) -> (r: &'static str) {
        NAME
    }

    fn supported(&self) -> (r: bool) {
        true
    }

    fn status(&self) -> (r: Result<WakeStatus>) {
        Ok(
            WakeStatus {
                backend: NAME.to_string(),
                targets: vec![WakeTarget::SystemSleep, WakeTarget::Idle],
                mode: WakeMode::Block,
                display: false,
            },
        )
    }
}

} // verus!
