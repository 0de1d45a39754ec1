//! The KDE PowerDevil backend.
//!
//! ```text
//! service : org.kde.Solid.PowerManagement.PolicyAgent
//! path    : /org/kde/Solid/PowerManagement/PolicyAgent
//! methods : AddInhibition(u actions, s app, s reason) -> u cookie
//!           ReleaseInhibition(u cookie)
//! ```

use crate::backend::session::{known_owner, name_has_owner, Acquire, OwnerReply, Service};
use crate::error::Result;
use crate::model::{
    DoctorReport, DoctorReportView, WakeBackend, WakeMode, WakeRequest, WakeStatus, WakeStatusView,
    WakeTarget,
};
use crate::text::{decimal, decimal_text, texts};
use vstd::prelude::*;
use vstd::string::*;

verus! {

/// The backend's name.
pub const NAME: &'static str = "kde-powerdevil";

/// The service's bus name.
pub const DEST: &'static str = "org.kde.Solid.PowerManagement.PolicyAgent";

/// The service's object path.
pub const PATH: &'static str = "/org/kde/Solid/PowerManagement/PolicyAgent";

/// The service's interface.
pub const IFACE: &'static str = "org.kde.Solid.PowerManagement.PolicyAgent";

/// Inhibit a change of the power profile (1) and of the screen settings (2).
pub const ACTIONS_CHANGE_PROFILE_AND_SCREEN: u32 = 1 | 2;

/// The KDE policy agent.
pub open spec fn kde_service() -> Service {
    Service {
        name: NAME,
        dest: DEST,
        path: PATH,
        iface: IFACE,
        inhibit: "AddInhibition",
        release: Some("ReleaseInhibition"),
    }
}

/// The arguments of KDE's `AddInhibition`.
#[derive(Debug)]
pub struct KdeCall {
    /// What to inhibit.
    pub actions: u32,
    /// Who asks.
    pub app: &'static str,
    /// Why.
    pub reason: String,
}

/// The KDE PowerDevil backend.
#[derive(Debug, Clone, Copy, PartialEq, Eq, Structural)]
pub struct KdeBackend;

impl KdeBackend {
    /// A backend handle. Nothing is opened.
    pub fn new() -> (r: KdeBackend)
        ensures
            r == KdeBackend,
    {
        KdeBackend
    }

    /// Start to take the lock: profile and screen settings, for the request's
    /// reason.
    pub fn acquire(&self, req: &WakeRequest) -> (r: Acquire<KdeCall>)
        ensures
            r.target() == kde_service(),
            r.arguments().actions == 3,
            r.arguments().app@ == "Oxiwake"@,
            r.arguments().reason@ == req@.reason,
    {
        assert(1u32 | 2u32 == 3u32) by (bit_vector);
        Acquire::new(
            Service {
                name: NAME,
                dest: DEST,
                path: PATH,
                iface: IFACE,
                inhibit: "AddInhibition",
                release: Some("ReleaseInhibition"),
            },
            KdeCall {
                actions: ACTIONS_CHANGE_PROFILE_AND_SCREEN,
                app: WakeRequest::WHO,
                reason: req.reason.clone(),
            },
        )
    }

    /// Report on the backend. `owner` is the bus's answer about the service, or
    /// `None` if there is no session bus.
    pub fn doctor(&self, owner: Option<OwnerReply>) -> (r: DoctorReport)
        ensures
            r@ == (DoctorReportView {
                backend: NAME@,
                supported: true,
                available: owner is Some && known_owner(owner->Some_0),
                guarantees: seq![
                    "inhibits ChangeProfile + ChangeScreenSettings (KDE bits 1|2 = 3) to keep the session awake"@,
                    "desktop power policy, not a system-level sleep / lid blocker (use systemd-logind for system-level guarantees)"@,
                ],
                notes: seq![
                    "session D-Bus service "@ + DEST@ + " at "@ + PATH@ + "; actions="@
                        + decimal_text(3),
                ],
            }),
    {
        assert(1u32 | 2u32 == 3u32) by (bit_vector);
        let available = match &owner {
            Some(reply) => name_has_owner(reply),
            None => false,
        };
        let report = DoctorReport {
            backend: NAME.to_string(),
            supported: true,
            available,
            guarantees: vec![
                "inhibits ChangeProfile + ChangeScreenSettings (KDE bits 1|2 = 3) to keep the session awake".to_string(),
                "desktop power policy, not a system-level sleep / lid blocker (use systemd-logind for system-level guarantees)".to_string(),
            ],
            notes: vec![
                "session D-Bus service ".to_string().concat(DEST).concat(" at ").concat(
                    PATH,
                ).concat("; actions=").concat(decimal(ACTIONS_CHANGE_PROFILE_AND_SCREEN as u64).as_str()),
            ],
        };
        assert(texts(report.guarantees@) =~= seq![
            "inhibits ChangeProfile + ChangeScreenSettings (KDE bits 1|2 = 3) to keep the session awake"@,
            "desktop power policy, not a system-level sleep / lid blocker (use systemd-logind for system-level guarantees)"@,
        ]);
        assert(texts(report.notes@) =~= seq![
            "session D-Bus service "@ + DEST@ + " at "@ + PATH@ + "; actions="@ + decimal_text(3),
        ]);
        report
    }
}

impl Default for KdeBackend {
    fn default() -> (r: KdeBackend)
        ensures
            r == KdeBackend,
    {
        KdeBackend
    }
}

impl WakeBackend for KdeBackend {
    open spec fn name_text(&self) -> Seq<char> {
        NAME@
    }

    open spec fn status_view(&self) -> WakeStatusView {
        WakeStatusView {
            backend: NAME@,
            targets: seq![WakeTarget::Idle],
            mode: WakeMode::Block,
            display: false,
        }
    }

    fn name(&self) -> (r: &'static str) {
        NAME
    }

    fn supported(&self) -> (r: bool) {
        true
    }

    fn status(&self) -> (r: Result<WakeStatus>) {
        Ok(
            WakeStatus {
                backend: NAME.to_string(),
                targets: vec![WakeTarget::Idle],
                mode: WakeMode::Block,
                display: false,
            },
        )
    }
}

} // verus!
