//! Wake-lock backends: which ones a build has, in which order, and which one is
//! used.
//!
//! On Linux `systemd-logind` is the real system-level mechanism and comes first;
//! the desktop, session and display backends follow as progressively weaker
//! fallbacks. On Windows there is one backend.

pub mod gnome;
pub mod kde;
pub mod logind;
pub mod portal;
pub mod screensaver;
pub mod session;
pub mod wayland;
pub mod windows;
pub mod x11;

use crate::backend::gnome::GnomeBackend;
use crate::backend::kde::KdeBackend;
use crate::backend::logind::LogindBackend;
use crate::backend::portal::PortalBackend;
use crate::backend::screensaver::ScreenSaverBackend;
use crate::backend::wayland::WaylandBackend;
use crate::backend::windows::Win32PowerBackend;
use crate::backend::x11::X11Backend;
use crate::doctor::reports;
use crate::error::{ErrorView, OxiwakeError, Result};
use crate::model::{
    DoctorReport, DoctorReportView, WakeBackend, WakeRequest, WakeStatus, WakeStatusView,
};
use crate::platform::Platform;
use vstd::prelude::*;

verus! {

/// The value of an environment variable.
#[derive(Debug)]
pub enum EnvVar {
    /// Not set.
    Unset,
    /// Set to this text.
    Text(String),
    /// Set to something that is not valid text, here with replacements for what
    /// is invalid.
    NotText(String),
}

/// What a program was built for and with.
#[derive(Debug, Clone, Copy, PartialEq, Eq, Structural)]
pub struct Build {
    /// The platform.
    pub platform: Platform,
    /// Whether the logind backend was compiled in.
    pub logind: bool,
    /// Whether the portal backend was compiled in.
    pub portal: bool,
    /// Whether the GNOME backend was compiled in.
    pub gnome: bool,
    /// Whether the KDE backend was compiled in.
    pub kde: bool,
    /// Whether the ScreenSaver backend was compiled in.
    pub screensaver: bool,
    /// Whether the X11 backend was compiled in.
    pub x11: bool,
    /// Whether the Wayland backend was compiled in.
    pub wayland: bool,
}

/// One of the backends.
#[derive(Debug, Clone, Copy, PartialEq, Eq, Structural)]
pub enum AnyBackend {
    /// systemd-logind.
    Logind(LogindBackend),
    /// The XDG desktop portal.
    Portal(PortalBackend),
    /// The GNOME session manager.
    Gnome(GnomeBackend),
    /// KDE PowerDevil.
    Kde(KdeBackend),
    /// The freedesktop ScreenSaver.
    ScreenSaver(ScreenSaverBackend),
    /// The X11 screensaver.
    X11(X11Backend),
    /// Wayland idle inhibition.
    Wayland(WaylandBackend),
    /// Windows power requests.
    Win32(Win32PowerBackend),
}

impl WakeBackend for AnyBackend {
    open spec fn name_text(&self) -> Seq<char> {
        match self {
            AnyBackend::Logind(b) => b.name_text(),
            AnyBackend::Portal(b) => b.name_text(),
            AnyBackend::Gnome(b) => b.name_text(),
            AnyBackend::Kde(b) => b.name_text(),
            AnyBackend::ScreenSaver(b) => b.name_text(),
            AnyBackend::X11(b) => b.name_text(),
            AnyBackend::Wayland(b) => b.name_text(),
            AnyBackend::Win32(b) => b.name_text(),
        }
    }

    open spec fn status_view(&self) -> WakeStatusView {
        match self {
            AnyBackend::Logind(b) => b.status_view(),
            AnyBackend::Portal(b) => b.status_view(),
            AnyBackend::Gnome(b) => b.status_view(),
            AnyBackend::Kde(b) => b.status_view(),
            AnyBackend::ScreenSaver(b) => b.status_view(),
            AnyBackend::X11(b) => b.status_view(),
            AnyBackend::Wayland(b) => b.status_view(),
            AnyBackend::Win32(b) => b.status_view(),
        }
    }

    fn name(&self) -> (r: &'static str) {
        match self {
            AnyBackend::Logind(b) => b.name(),
            AnyBackend::Portal(b) => b.name(),
            AnyBackend::Gnome(b) => b.name(),
            AnyBackend::Kde(b) => b.name(),
            AnyBackend::ScreenSaver(b) => b.name(),
            AnyBackend::X11(b) => b.name(),
            AnyBackend::Wayland(b) => b.name(),
            AnyBackend::Win32(b) => b.name(),
        }
    }

    fn supported(&self) -> (r: bool) {
        true
    }

    fn status(&self) -> (r: Result<WakeStatus>) {
        match self {
            AnyBackend::Logind(b) => b.status(),
            AnyBackend::Portal(b) => b.status(),
            AnyBackend::Gnome(b) => b.status(),
            AnyBackend::Kde(b) => b.status(),
            AnyBackend::ScreenSaver(b) => b.status(),
            AnyBackend::X11(b) => b.status(),
            AnyBackend::Wayland(b) => b.status(),
            AnyBackend::Win32(b) => b.status(),
        }
    }
}

/// Whether a build has a backend.
pub open spec fn compiled(build: Build, b: AnyBackend) -> bool {
    match b {
        AnyBackend::Logind(_) => build.platform == Platform::Linux && build.logind,
        AnyBackend::Portal(_) => build.platform == Platform::Linux && build.portal,
        AnyBackend::Gnome(_) => build.platform == Platform::Linux && build.gnome,
        AnyBackend::Kde(_) => build.platform == Platform::Linux && build.kde,
        AnyBackend::ScreenSaver(_) => build.platform == Platform::Linux && build.screensaver,
        AnyBackend::X11(_) => build.platform == Platform::Linux && build.x11,
        AnyBackend::Wayland(_) => build.platform == Platform::Linux && build.wayland,
        AnyBackend::Win32(_) => build.platform == Platform::Windows,
    }
}

/// The place of a backend in the order of priority; the strongest is 0.
pub open spec fn rank(b: AnyBackend) -> int {
    match b {
        AnyBackend::Logind(_) => 0,
        AnyBackend::Portal(_) => 1,
        AnyBackend::Gnome(_) => 2,
        AnyBackend::Kde(_) => 3,
        AnyBackend::ScreenSaver(_) => 4,
        AnyBackend::X11(_) => 5,
        AnyBackend::Wayland(_) => 6,
        AnyBackend::Win32(_) => 7,
    }
}

/// Whether a list holds the backends of a build, each once, the strongest
/// first. There is exactly one such list.
pub open spec fn priority_list(build: Build, v: Seq<AnyBackend>) -> bool {
    &&& forall|b: AnyBackend| #[trigger] v.contains(b) <==> compiled(build, b)
    &&& forall|i: int, j: int| 0 <= i < j < v.len() ==> rank(v[i]) < rank(v[j])
}

/// Whether a list holds the backends of a build whose rank is below `bound`,
/// each once, the strongest first.
spec fn priority_prefix(build: Build, v: Seq<AnyBackend>, bound: int) -> bool {
    &&& forall|b: AnyBackend| #[trigger]
        v.contains(b) <==> compiled(build, b) && rank(b) < bound
    &&& forall|i: int, j: int| 0 <= i < j < v.len() ==> rank(v[i]) < rank(v[j])
}

/// Append the next backend in the order of priority if the build has it.
fn push_backend(v: &mut Vec<AnyBackend>, has: bool, b: AnyBackend, build: Build)
    requires
        priority_prefix(build, old(v)@, rank(b)),
        has == compiled(build, b),
    ensures
        priority_prefix(build, final(v)@, rank(b) + 1),
{
    if has {
        v.push(b);
    }
    proof {
        let before = old(v)@;
        let after = v@;
        assert forall|x: AnyBackend| #[trigger] after.contains(x) <==> compiled(build, x) && rank(x)
            < rank(b) + 1 by {
            if after.contains(x) {
                let i = choose|i: int| 0 <= i < after.len() && after[i] == x;
                if i < before.len() {
                    assert(before[i] == x);
                    assert(before.contains(x));
                }
            }
            if compiled(build, x) && rank(x) < rank(b) + 1 {
                if rank(x) == rank(b) {
                    assert(x == b);
                    assert(after[after.len() - 1] == b);
                } else {
                    assert(before.contains(x));
                    let i = choose|i: int| 0 <= i < before.len() && before[i] == x;
                    assert(after[i] == x);
                }
            }
        }
        assert forall|i: int, j: int| 0 <= i < j < after.len() implies rank(after[i]) < rank(
            after[j],
        ) by {
            if j == before.len() {
                assert(before.contains(before[i]));
            }
        }
    }
}

/// Every backend of a build, the strongest first.
pub fn supported_backends(build: Build) -> (r: Vec<AnyBackend>)
    ensures
        priority_list(build, r@),
{
    let linux = build.platform == Platform::Linux;
    let mut v: Vec<AnyBackend> = Vec::new();
    push_backend(&mut v, linux && build.logind, AnyBackend::Logind(LogindBackend::new()), build);
    push_backend(&mut v, linux && build.portal, AnyBackend::Portal(PortalBackend::new()), build);
    push_backend(&mut v, linux && build.gnome, AnyBackend::Gnome(GnomeBackend::new()), build);
    push_backend(&mut v, linux && build.kde, AnyBackend::Kde(KdeBackend::new()), build);
    push_backend(
        &mut v,
        linux && build.screensaver,
        AnyBackend::ScreenSaver(ScreenSaverBackend::new()),
        build,
    );
    push_backend(&mut v, linux && build.x11, AnyBackend::X11(X11Backend::new()), build);
    push_backend(&mut v, linux && build.wayland, AnyBackend::Wayland(WaylandBackend::new()), build);
    push_backend(
        &mut v,
        build.platform == Platform::Windows,
        AnyBackend::Win32(Win32PowerBackend::new()),
        build,
    );
    v
}

/// Whether a backend is the strongest of a build.
pub open spec fn strongest(build: Build, b: AnyBackend) -> bool {
    &&& compiled(build, b)
    &&& forall|other: AnyBackend| #[trigger] compiled(build, other) ==> rank(b) <= rank(other)
}

/// The strongest backend of a build, if it has any.
pub open spec fn best(build: Build) -> Option<AnyBackend> {
    if build.platform == Platform::Windows {
        Some(AnyBackend::Win32(Win32PowerBackend))
    } else if build.platform != Platform::Linux {
        None
    } else if build.logind {
        Some(AnyBackend::Logind(LogindBackend))
    } else if build.portal {
        Some(AnyBackend::Portal(PortalBackend))
    } else if build.gnome {
        Some(AnyBackend::Gnome(GnomeBackend))
    } else if build.kde {
        Some(AnyBackend::Kde(KdeBackend))
    } else if build.screensaver {
        Some(AnyBackend::ScreenSaver(ScreenSaverBackend))
    } else if build.x11 {
        Some(AnyBackend::X11(X11Backend))
    } else if build.wayland {
        Some(AnyBackend::Wayland(WaylandBackend))
    } else {
        None
    }
}

/// The error of a build without a backend.
pub open spec fn no_backend() -> ErrorView {
    ErrorView::BackendUnavailable {
        backend: "none"@,
        reason: "no wake backend is compiled into this build (see `ow doctor`)"@,
    }
}

/// The strongest backend of a build. Whether it is available shows when the
/// lock is taken; no other one is tried.
pub fn pick(req: &WakeRequest, build: Build) -> (r: Result<AnyBackend>)
    ensures
        match best(build) {
            Some(b) => r == Ok::<AnyBackend, OxiwakeError>(b),
            None => r is Err && r->Err_0@ == no_backend(),
        },
{
    let _ = req;
    let list = supported_backends(build);
    if list.len() > 0 {
        let first = list[0];
        proof {
            assert(list@.contains(list@[0]));
            assert forall|other: AnyBackend| #[trigger] compiled(build, other) implies rank(first)
                <= rank(other) by {
                assert(list@.contains(other));
            }
            best_is_strongest(build);
        }
        Ok(first)
    } else {
        proof {
            assert forall|b: AnyBackend| !#[trigger] compiled(build, b) by {
                assert(!list@.contains(b));
            }
            best_is_strongest(build);
        }
        Err(
            OxiwakeError::BackendUnavailable {
                backend: "none",
                reason: "no wake backend is compiled into this build (see `ow doctor`)".to_string(),
            },
        )
    }
}

/// What is picked is the strongest backend of the build; nothing is picked only
/// if the build has none.
pub proof fn best_is_strongest(build: Build)
    ensures
        match best(build) {
            Some(b) => strongest(build, b) && forall|other: AnyBackend|
                strongest(build, other) ==> other == b,
            None => forall|b: AnyBackend| !#[trigger] compiled(build, b),
        },
{
    match best(build) {
        Some(b) => {
            assert forall|other: AnyBackend| #[trigger] compiled(build, other) implies rank(b)
                <= rank(other) by {}
            assert forall|other: AnyBackend| strongest(build, other) implies other == b by {
                assert(compiled(build, b));
                assert(compiled(build, other));
                assert(rank(b) == rank(other));
            }
        },
        None => {
            assert forall|b: AnyBackend| !#[trigger] compiled(build, b) by {}
        },
    }
}

/// A build's list of backends is fixed by the build.
pub proof fn priority_list_is_unique(build: Build, a: Seq<AnyBackend>, b: Seq<AnyBackend>)
    requires
        priority_list(build, a),
        priority_list(build, b),
    ensures
        a == b,
    decreases a.len(),
{
    same_ranked_elements_are_same(a, b, |x: AnyBackend| compiled(build, x));
}

proof fn same_ranked_elements_are_same(
    a: Seq<AnyBackend>,
    b: Seq<AnyBackend>,
    member: spec_fn(AnyBackend) -> bool,
)
    requires
        forall|x: AnyBackend| #[trigger] a.contains(x) <==> member(x),
        forall|x: AnyBackend| #[trigger] b.contains(x) <==> member(x),
        forall|i: int, j: int| 0 <= i < j < a.len() ==> rank(a[i]) < rank(a[j]),
        forall|i: int, j: int| 0 <= i < j < b.len() ==> rank(b[i]) < rank(b[j]),
    ensures
        a == b,
    decreases a.len(),
{
    if a.len() == 0 {
        if b.len() > 0 {
            assert(b.contains(b[0]));
            assert(a.contains(b[0]));
        }
        assert(a =~= b);
    } else {
        let x = a.last();
        assert(a.contains(a[a.len() - 1]));
        assert(b.contains(x));
        let y = b.last();
        assert(b.contains(b[b.len() - 1]));
        assert(a.contains(y));
        let i = choose|i: int| 0 <= i < a.len() && a[i] == y;
        let j = choose|j: int| 0 <= j < b.len() && b[j] == x;
        assert(rank(y) <= rank(x));
        assert(rank(x) <= rank(y));
        assert(x == y);
        let fewer = |z: AnyBackend| member(z) && z != x;
        let a1 = a.drop_last();
        let b1 = b.drop_last();
        assert forall|z: AnyBackend| #[trigger] a1.contains(z) <==> fewer(z) by {
            without_the_last(a, z);
        }
        assert forall|z: AnyBackend| #[trigger] b1.contains(z) <==> fewer(z) by {
            without_the_last(b, z);
        }
        same_ranked_elements_are_same(a1, b1, fewer);
        assert(a =~= a1.push(x));
        assert(b =~= b1.push(y));
    }
}

proof fn without_the_last(a: Seq<AnyBackend>, z: AnyBackend)
    requires
        a.len() > 0,
        forall|i: int, j: int| 0 <= i < j < a.len() ==> rank(a[i]) < rank(a[j]),
    ensures
        a.drop_last().contains(z) <==> a.contains(z) && z != a.last(),
{
    if a.drop_last().contains(z) {
        let i = choose|i: int| 0 <= i < a.drop_last().len() && a.drop_last()[i] == z;
        assert(a[i] == z);
        assert(rank(a[i]) < rank(a[a.len() - 1]));
    }
    if a.contains(z) && z != a.last() {
        let i = choose|i: int| 0 <= i < a.len() && a[i] == z;
        assert(a.drop_last()[i] == z);
    }
}

/// The strongest backend is the first one of the list.
pub proof fn strongest_is_first(build: Build, v: Seq<AnyBackend>, b: AnyBackend)
    requires
        priority_list(build, v),
        strongest(build, b),
    ensures
        v.len() > 0,
        v[0] == b,
{
    assert(v.contains(b));
    assert(v.contains(v[0]));
    assert(rank(v[0]) <= rank(b));
    assert(rank(b) <= rank(v[0]));
}

/// The reports among a list of outcomes, in order.
pub open spec fn successful_reports(v: Seq<Result<DoctorReport>>) -> Seq<DoctorReportView>
    decreases v.len(),
{
    if v.len() == 0 {
        Seq::empty()
    } else {
        let before = successful_reports(v.drop_last());
        match v.last() {
            Ok(r) => before.push(r@),
            Err(_) => before,
        }
    }
}

/// The reports of the backends whose doctor succeeded. One broken probe never
/// blanks out the rest.
pub fn doctor_all(outcomes: Vec<Result<DoctorReport>>) -> (r: Vec<DoctorReport>)
    ensures
        reports(r@) == successful_reports(outcomes@),
{
    let mut out: Vec<DoctorReport> = Vec::new();
    let mut i: usize = 0;
    assert(reports(out@) =~= Seq::<DoctorReportView>::empty());
    while i < outcomes.len()
        invariant
            0 <= i <= outcomes@.len(),
            reports(out@) == successful_reports(outcomes@.take(i as int)),
        decreases outcomes.len() - i,
    {
        let ghost before = reports(out@);
        proof {
            let next = outcomes@.take(i as int + 1);
            assert(next.drop_last() =~= outcomes@.take(i as int));
            assert(next.last() == outcomes@[i as int]);
        }
        if let Ok(report) = &outcomes[i] {
            out.push(report.clone());
            assert(reports(out@) =~= before.push(report@));
        }
        i = i + 1;
    }
    assert(outcomes@.take(outcomes@.len() as int) =~= outcomes@);
    out
}

} // verus!
