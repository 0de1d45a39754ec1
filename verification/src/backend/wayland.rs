//! The Wayland idle-inhibit backend.
//!
//! An idle inhibitor is bound to a surface, and a compositor honours it only
//! while that surface is visible. A daemon without a window has none to offer,
//! so this backend never takes a lock; it reports what the compositor has.

use crate::backend::EnvVar;
use crate::error::{error_text, ErrorView, OxiwakeError, Result};
use crate::model::{
    DoctorReport, DoctorReportView, WakeBackend, WakeGuard, WakeMode, WakeRequest, WakeStatus,
    WakeStatusView, WakeTarget,
};
use crate::text::{push_text, same_text, texts};
use vstd::prelude::*;
use vstd::string::*;

verus! {

/// The backend's name.
pub const NAME: &'static str = "wayland-idle-inhibit";

/// Why a daemon cannot take the lock.
pub const NO_SURFACE_REASON: &'static str = "wayland idle-inhibit requires a visible wl_surface";

/// The outside function `ZwpIdleInhibitManagerV1::interface` of
/// `wayland-protocols`: the name in the description that it returns is the
/// protocol's name for the idle-inhibit manager.
#[verifier::external_body]
fn idle_inhibit_interface() -> (r: &'static str)
    ensures
        r@ == "zwp_idle_inhibit_manager_v1"@,
{
    <wayland_protocols::wp::idle_inhibit::zv1::client::zwp_idle_inhibit_manager_v1::ZwpIdleInhibitManagerV1 as wayland_client::Proxy>::interface().name
}

/// What connecting to the compositor and listing its globals came to.
#[derive(Debug)]
pub enum WaylandConnect {
    /// The display could not be reached.
    NoDisplay(String),
    /// The first round trip failed.
    RoundTripFailed(String),
    /// The interfaces of the globals that the compositor advertises.
    Globals(Vec<String>),
}

/// The backend.
#[derive(Debug, Clone, Copy, PartialEq, Eq, Structural)]
pub struct WaylandBackend;

/// The note on `$WAYLAND_DISPLAY`.
pub open spec fn display_note(v: EnvVar) -> Seq<char> {
    match v {
        EnvVar::Text(s) if s@.len() > 0 => "WAYLAND_DISPLAY="@ + s@,
        EnvVar::NotText(s) if s@.len() > 0 => "WAYLAND_DISPLAY="@ + s@,
        _ => "WAYLAND_DISPLAY is not set"@,
    }
}

/// The note on the compositor.
pub open spec fn compositor_note(globals: Result<Vec<String>>) -> Seq<char> {
    match globals {
        Ok(v) => if texts(v@).contains("zwp_idle_inhibit_manager_v1"@) {
            "zwp_idle_inhibit_manager_v1 advertised, but a CLI daemon has no wl_surface to bind an inhibitor to"@
        } else {
            "zwp_idle_inhibit_manager_v1 global is not advertised by this compositor"@
        },
        Err(e) => "unavailable: "@ + error_text(e@),
    }
}

/// The backend's caveats.
pub open spec fn wayland_guarantees_texts() -> Seq<Seq<char>> {
    seq![
        "idle-only: inhibits screen blanking/locking/screensaving"@,
        "does NOT prevent system suspend or lid-close"@,
        "requires a visible wl_surface; ignored if the surface is unmapped/occluded"@,
        "protocol is unstable-v1 (experimental)"@,
    ]
}

impl WaylandBackend {
    /// A backend handle. Nothing is opened.
    pub fn new() -> (r: WaylandBackend)
        ensures
            r == WaylandBackend,
    {
        WaylandBackend
    }

    /// The compositor's globals, or why they cannot be had.
    pub fn connect_and_snapshot(outcome: WaylandConnect) -> (r: Result<Vec<String>>)
        ensures
            match outcome {
                WaylandConnect::NoDisplay(e) => r is Err && r->Err_0@
                    == (ErrorView::BackendUnavailable {
                    backend: NAME@,
                    reason: "cannot connect to Wayland display ("@ + e@ + ")"@,
                }),
                WaylandConnect::RoundTripFailed(e) => r is Err && r->Err_0@
                    == (ErrorView::BackendUnavailable {
                    backend: NAME@,
                    reason: "Wayland registry round-trip failed ("@ + e@ + ")"@,
                }),
                WaylandConnect::Globals(v) => r == Ok::<Vec<String>, OxiwakeError>(v),
            },
    {
        match outcome {
            WaylandConnect::NoDisplay(e) => Err(
                OxiwakeError::BackendUnavailable {
                    backend: NAME,
                    reason: "cannot connect to Wayland display (".to_string().concat(
                        e.as_str(),
                    ).concat(")"),
                },
            ),
            WaylandConnect::RoundTripFailed(e) => Err(
                OxiwakeError::BackendUnavailable {
                    backend: NAME,
                    reason: "Wayland registry round-trip failed (".to_string().concat(
                        e.as_str(),
                    ).concat(")"),
                },
            ),
            WaylandConnect::Globals(v) => Ok(v),
        }
    }

    /// Whether the compositor advertises `zwp_idle_inhibit_manager_v1`.
    pub fn has_idle_inhibit_global(globals: &Vec<String>) -> (r: bool)
        ensures
            r == texts(globals@).contains("zwp_idle_inhibit_manager_v1"@),
    {
        let wanted = idle_inhibit_interface();
        let mut i: usize = 0;
        while i < globals.len()
            invariant
                wanted@ == "zwp_idle_inhibit_manager_v1"@,
                0 <= i <= globals@.len(),
                forall|k: int| 0 <= k < i ==> globals@[k]@ != wanted@,
            decreases globals.len() - i,
        {
            if same_text(globals[i].as_str(), wanted) {
                assert(texts(globals@)[i as int] == wanted@);
                return true;
            }
            i = i + 1;
        }
        false
    }

    /// Taking the lock fails for every request: there is no surface.
    pub fn acquire(&self, req: &WakeRequest) -> (r: Result<WaylandGuard>)
        ensures
            r is Err && r->Err_0@ == (ErrorView::BackendUnavailable {
                backend: NAME@,
                reason: NO_SURFACE_REASON@,
            }),
    {
        let _ = req;
        Err(
            OxiwakeError::BackendUnavailable { backend: NAME, reason: NO_SURFACE_REASON.to_string() },
        )
    }

    /// Report on the backend: what the environment and the compositor have. It
    /// is never available, for want of a surface.
    pub fn doctor(&self, display: EnvVar, globals: Result<Vec<String>>) -> (r: DoctorReport)
        ensures
            r@ == (DoctorReportView {
                backend: NAME@,
                supported: true,
                available: false,
                guarantees: wayland_guarantees_texts(),
                notes: seq![display_note(display), compositor_note(globals)],
            }),
    {
        let mut notes: Vec<String> = Vec::new();
        assert(texts(notes@) =~= Seq::<Seq<char>>::empty());
        let value = match display {
            EnvVar::Text(s) => s,
            EnvVar::NotText(s) => s,
            EnvVar::Unset => String::new(),
        };
        if value.as_str().unicode_len() > 0 {
            push_text(&mut notes, "WAYLAND_DISPLAY=".to_string().concat(value.as_str()));
        } else {
            push_text(&mut notes, "WAYLAND_DISPLAY is not set".to_string());
        }
        match &globals {
            Ok(v) => {
                if Self::has_idle_inhibit_global(v) {
                    push_text(
                        &mut notes,
                        "zwp_idle_inhibit_manager_v1 advertised, but a CLI daemon has no wl_surface to bind an inhibitor to".to_string(),
                    );
                } else {
                    push_text(
                        &mut notes,
                        "zwp_idle_inhibit_manager_v1 global is not advertised by this compositor".to_string(),
                    );
                }
            },
            Err(e) => {
                push_text(
                    &mut notes,
                    "unavailable: ".to_string().concat(e.message().as_str()),
                );
            },
        }
        let report = DoctorReport {
            backend: NAME.to_string(),
            supported: true,
            available: false,
            guarantees: vec![
                "idle-only: inhibits screen blanking/locking/screensaving".to_string(),
                "does NOT prevent system suspend or lid-close".to_string(),
                "requires a visible wl_surface; ignored if the surface is unmapped/occluded".to_string(),
                "protocol is unstable-v1 (experimental)".to_string(),
            ],
            notes,
        };
        assert(texts(report.guarantees@) =~= wayland_guarantees_texts());
        assert(texts(report.notes@) =~= seq![display_note(display), compositor_note(globals)]);
        report
    }
}

impl Default for WaylandBackend {
    fn default() -> (r: WaylandBackend)
        ensures
            r == WaylandBackend,
    {
        WaylandBackend
    }
}

impl WakeBackend for WaylandBackend {
    open spec fn name_text(&self) -> Seq<char> {
        NAME@
    }

    open spec fn status_view(&self) -> WakeStatusView {
        WakeStatusView {
            backend: NAME@,
            targets: seq![WakeTarget::Idle],
            mode: WakeMode::Block,
            display: false,
        }
    }

    fn name(&self) -> (r: &'static str) {
        NAME
    }

    fn supported(&self) -> (r: bool) {
        true
    }

    fn status(&self) -> (r: Result<WakeStatus>) {
        Ok(
            WakeStatus {
                backend: NAME.to_string(),
                targets: vec![WakeTarget::Idle],
                mode: WakeMode::Block,
                display: false,
            },
        )
    }
}

/// A held inhibitor, for a program that has a surface to bind one to. The
/// program keeps the inhibitor beside it.
#[derive(Debug)]
pub struct WaylandGuard {
    held: bool,
}

impl WaylandGuard {
    /// Whether the inhibitor is still held.
    pub closed spec fn holds(&self) -> bool {
        self.held
    }

    /// The guard of an inhibitor that was just created.
    pub fn from_inhibitor() -> (r: WaylandGuard)
        ensures
            r.holds(),
    {
        WaylandGuard { held: true }
    }

    /// Give the lock up: whether the inhibitor is to be destroyed, which is so
    /// the first time only.
    pub fn release(&mut self) -> (r: bool)
        ensures
            r == old(self).holds(),
            !final(self).holds(),
    {
        let was_held = self.held;
        self.held = false;
        was_held
    }
}

impl WakeGuard for WaylandGuard {
    open spec fn backend_text(&self) -> Seq<char> {
        NAME@
    }

    fn backend(&self) -> (r: &'static str) {
        NAME
    }
}

} // verus!
