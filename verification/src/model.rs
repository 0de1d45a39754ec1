//! Core domain model: what the user wants kept awake, what a backend holds, and
//! what a backend says about itself.
//!
//! Oxiwake thinks in terms of *backends*, not *distributions*: a backend turns a
//! [`WakeRequest`] into a held lock and reports a [`WakeStatus`] and a
//! [`DoctorReport`].

use crate::error::OxiwakeError;
use crate::text::{copy_texts, join, joined, push_text, same_text, texts};
use vstd::prelude::*;

verus! {

/// A power state to keep from triggering.
///
/// Backends translate the targets they understand and ignore the rest.
#[derive(Debug, Clone, Copy, PartialEq, Eq, Hash, Structural)]
pub enum WakeTarget {
    /// System suspend or hibernate.
    SystemSleep,
    /// Idle blanking or locking.
    Idle,
    /// Turning the display off.
    Display,
    /// Sleeping on a closed lid.
    LidSwitch,
    /// Shutdown (typically needs privilege).
    Shutdown,
}

/// The logind token of a target, where it has one.
pub open spec fn token_of(t: WakeTarget) -> Option<Seq<char>> {
    match t {
        WakeTarget::SystemSleep => Some("sleep"@),
        WakeTarget::Idle => Some("idle"@),
        WakeTarget::LidSwitch => Some("handle-lid-switch"@),
        WakeTarget::Shutdown => Some("shutdown"@),
        WakeTarget::Display => None,
    }
}

/// The name of a target in messages between processes and in files.
pub open spec fn target_wire_name(t: WakeTarget) -> Seq<char> {
    match t {
        WakeTarget::SystemSleep => "system-sleep"@,
        WakeTarget::Idle => "idle"@,
        WakeTarget::Display => "display"@,
        WakeTarget::LidSwitch => "lid-switch"@,
        WakeTarget::Shutdown => "shutdown"@,
    }
}

impl WakeTarget {
    /// The systemd-logind `what` token for this target, if any.
    pub fn logind_token(self) -> (r: Option<&'static str>)
        ensures
            match r {
                Some(s) => token_of(self) == Some(s@),
                None => token_of(self) is None,
            },
    {
        match self {
            WakeTarget::SystemSleep => Some("sleep"),
            WakeTarget::Idle => Some("idle"),
            WakeTarget::LidSwitch => Some("handle-lid-switch"),
            WakeTarget::Shutdown => Some("shutdown"),
            WakeTarget::Display => None,
        }
    }

    /// The kebab-case name of this target in messages and files.
    pub fn wire_name(self) -> (r: &'static str)
        ensures
            r@ == target_wire_name(self),
    {
        match self {
            WakeTarget::SystemSleep => "system-sleep",
            WakeTarget::Idle => "idle",
            WakeTarget::Display => "display",
            WakeTarget::LidSwitch => "lid-switch",
            WakeTarget::Shutdown => "shutdown",
        }
    }
}

/// How strongly the lock is held. Mirrors systemd-logind's `--mode` values.
#[derive(Debug, Clone, Copy, PartialEq, Eq, Hash, Structural)]
pub enum WakeMode {
    /// The action waits until the lock is released.
    Block,
    /// The action proceeds after a bounded delay even if the lock is held.
    Delay,
    /// A weaker form of `Block`, overridden by `block` inhibitors.
    BlockWeak,
}

/// The logind name of a mode, which is also its name in messages and files.
pub open spec fn mode_name(m: WakeMode) -> Seq<char> {
    match m {
        WakeMode::Block => "block"@,
        WakeMode::Delay => "delay"@,
        WakeMode::BlockWeak => "block-weak"@,
    }
}

impl Default for WakeMode {
    fn default() -> (r: WakeMode)
        ensures
            r == WakeMode::Block,
    {
        WakeMode::Block
    }
}

impl WakeMode {
    /// The systemd-logind `mode` string for this mode.
    pub fn as_str(self) -> (r: &'static str)
        ensures
            r@ == mode_name(self),
    {
        match self {
            WakeMode::Block => "block",
            WakeMode::Delay => "delay",
            WakeMode::BlockWeak => "block-weak",
        }
    }
}

/// A user's intent as a backend-agnostic request.
#[derive(Debug)]
pub struct WakeRequest {
    /// Which power states to inhibit, in order of priority.
    pub targets: Vec<WakeTarget>,
    /// Human-readable reason handed to the platform.
    pub reason: String,
    /// Also keep the display awake where the backend supports it.
    pub display: bool,
    /// Also inhibit the lid switch (often needs privilege).
    pub aggressive_lid: bool,
}

/// What a [`WakeRequest`] says.
#[verifier::ext_equal]
pub struct WakeRequestView {
    pub targets: Seq<WakeTarget>,
    pub reason: Seq<char>,
    pub display: bool,
    pub aggressive_lid: bool,
}

impl View for WakeRequest {
    type V = WakeRequestView;

    open spec fn view(&self) -> WakeRequestView {
        WakeRequestView {
            targets: self.targets@,
            reason: self.reason@,
            display: self.display,
            aggressive_lid: self.aggressive_lid,
        }
    }
}

impl Clone for WakeRequest {
    fn clone(&self) -> (r: WakeRequest)
        ensures
            r@ == self@,
    {
        WakeRequest {
            targets: copy_targets(&self.targets),
            reason: self.reason.clone(),
            display: self.display,
            aggressive_lid: self.aggressive_lid,
        }
    }
}

/// The tokens of the targets that have one, in order.
pub open spec fn target_tokens(targets: Seq<WakeTarget>) -> Seq<Seq<char>>
    decreases targets.len(),
{
    if targets.len() == 0 {
        Seq::empty()
    } else {
        let before = target_tokens(targets.drop_last());
        match token_of(targets.last()) {
            Some(tok) => before.push(tok),
            None => before,
        }
    }
}

/// A sequence with every repetition after the first occurrence removed.
pub open spec fn first_occurrences(s: Seq<Seq<char>>) -> Seq<Seq<char>>
    decreases s.len(),
{
    if s.len() == 0 {
        Seq::empty()
    } else {
        let before = first_occurrences(s.drop_last());
        if before.contains(s.last()) {
            before
        } else {
            before.push(s.last())
        }
    }
}

/// Every token that a request asks for, repetitions included.
pub open spec fn requested_tokens(req: WakeRequestView) -> Seq<Seq<char>> {
    if req.aggressive_lid {
        target_tokens(req.targets).push("handle-lid-switch"@)
    } else {
        target_tokens(req.targets)
    }
}

/// The `what` argument for logind: each requested token once, in order of its
/// first request, separated by colons.
pub open spec fn logind_what_text(req: WakeRequestView) -> Seq<char> {
    joined(first_occurrences(requested_tokens(req)), ":"@)
}

/// The default request on Linux: sleep and idle, no display, no lid.
pub open spec fn default_linux_request() -> WakeRequestView {
    WakeRequestView {
        targets: seq![WakeTarget::SystemSleep, WakeTarget::Idle],
        reason: "Oxiwake wake lock enabled"@,
        display: false,
        aggressive_lid: false,
    }
}

/// The default request on Windows: sleep, no display.
pub open spec fn default_windows_request() -> WakeRequestView {
    WakeRequestView {
        targets: seq![WakeTarget::SystemSleep],
        reason: "Oxiwake wake lock enabled"@,
        display: false,
        aggressive_lid: false,
    }
}

impl WakeRequest {
    /// Identity handed to the platform.
    pub const WHO: &'static str = "Oxiwake";

    /// The default on Linux: `sleep:idle`, no display, no aggressive lid.
    pub fn default_linux() -> (r: WakeRequest)
        ensures
            r@ == default_linux_request(),
    {
        WakeRequest {
            targets: vec![WakeTarget::SystemSleep, WakeTarget::Idle],
            reason: "Oxiwake wake lock enabled".to_string(),
            display: false,
            aggressive_lid: false,
        }
    }

    /// The default on Windows: keep the system required, no display.
    pub fn default_windows() -> (r: WakeRequest)
        ensures
            r@ == default_windows_request(),
    {
        WakeRequest {
            targets: vec![WakeTarget::SystemSleep],
            reason: "Oxiwake wake lock enabled".to_string(),
            display: false,
            aggressive_lid: false,
        }
    }

    /// The colon-separated `what` string for systemd-logind: the targets'
    /// tokens (and `handle-lid-switch` when `aggressive_lid` is set), in
    /// priority order and de-duplicated.
    pub fn logind_what(&self) -> (r: String)
        ensures
            r@ == logind_what_text(self@),
    {
        let mut out: Vec<String> = Vec::new();
        let mut i: usize = 0;
        while i < self.targets.len()
            invariant
                0 <= i <= self.targets@.len(),
                texts(out@) == first_occurrences(target_tokens(self.targets@.take(i as int))),
            decreases self.targets.len() - i,
        {
            let ghost done = self.targets@.take(i as int);
            let ghost next = self.targets@.take(i as int + 1);
            assert(next.drop_last() =~= done);
            if let Some(tok) = self.targets[i].logind_token() {
                proof {
                    assert(target_tokens(next) == target_tokens(done).push(tok@));
                    assert(target_tokens(next).drop_last() =~= target_tokens(done));
                }
                push_once(&mut out, tok);
            }
            i = i + 1;
        }
        assert(self.targets@.take(self.targets@.len() as int) =~= self.targets@);
        if self.aggressive_lid {
            proof {
                let all = requested_tokens(self@);
                assert(all.drop_last() =~= target_tokens(self.targets@));
            }
            push_once(&mut out, "handle-lid-switch");
        }
        join(out.as_slice(), ":")
    }
}

/// Append a token to a list unless the list already holds it.
fn push_once(out: &mut Vec<String>, tok: &str)
    ensures
        texts(final(out)@) == if texts(old(out)@).contains(tok@) {
            texts(old(out)@)
        } else {
            texts(old(out)@).push(tok@)
        },
{
    let mut i: usize = 0;
    while i < out.len()
        invariant
            0 <= i <= out@.len(),
            out@ == old(out)@,
            forall|k: int| 0 <= k < i ==> out@[k]@ != tok@,
        decreases out.len() - i,
    {
        if same_text(out[i].as_str(), tok) {
            assert(texts(out@)[i as int] == tok@);
            return;
        }
        i = i + 1;
    }
    push_text(out, tok.to_string());
}

/// The tokens kept after removing repetitions are pairwise different, and they
/// are exactly the tokens that were there.
pub proof fn first_occurrences_keeps_each_once(s: Seq<Seq<char>>)
    ensures
        first_occurrences(s).no_duplicates(),
        forall|t: Seq<char>| first_occurrences(s).contains(t) <==> s.contains(t),
    decreases s.len(),
{
    if s.len() > 0 {
        let before = first_occurrences(s.drop_last());
        first_occurrences_keeps_each_once(s.drop_last());
        assert forall|t: Seq<char>| first_occurrences(s).contains(t) <==> s.contains(t) by {
            if s.contains(t) {
                let i = choose|i: int| 0 <= i < s.len() && s[i] == t;
                if i < s.len() - 1 {
                    assert(s.drop_last()[i] == t);
                    assert(s.drop_last().contains(t));
                    assert(before.contains(t));
                    let j = choose|j: int| 0 <= j < before.len() && before[j] == t;
                    assert(first_occurrences(s)[j] == t);
                } else {
                    if !before.contains(t) {
                        assert(first_occurrences(s).last() == t);
                    }
                }
            }
            if first_occurrences(s).contains(t) {
                let j = choose|j: int|
                    0 <= j < first_occurrences(s).len() && first_occurrences(s)[j] == t;
                if j < before.len() {
                    assert(before[j] == t);
                    assert(s.drop_last().contains(t));
                    let i = choose|i: int| 0 <= i < s.drop_last().len() && s.drop_last()[i] == t;
                    assert(s[i] == t);
                } else {
                    assert(s.last() == t);
                    assert(s[s.len() - 1] == t);
                }
            }
        }
    }
}

/// Removing repetitions twice is removing them once: a list without repetitions
/// is kept as it is, order and all.
pub proof fn first_occurrences_keeps_distinct(s: Seq<Seq<char>>)
    requires
        s.no_duplicates(),
    ensures
        first_occurrences(s) == s,
    decreases s.len(),
{
    if s.len() > 0 {
        first_occurrences_keeps_distinct(s.drop_last());
        if s.drop_last().contains(s.last()) {
            let i = choose|i: int| 0 <= i < s.drop_last().len() && s.drop_last()[i] == s.last();
            assert(s[i] == s[s.len() - 1]);
        }
        assert(s.drop_last().push(s.last()) =~= s);
    }
}

/// Whether a token occurs for the first time at a position.
pub open spec fn first_at(s: Seq<Seq<char>>, t: Seq<char>, k: int) -> bool {
    &&& 0 <= k < s.len()
    &&& s[k] == t
    &&& forall|m: int| 0 <= m < k ==> s[m] != t
}

/// The tokens kept after removing repetitions stand in the order in which each
/// was first asked for.
pub proof fn first_occurrences_keeps_order(s: Seq<Seq<char>>, i: int, j: int)
    requires
        0 <= i < j < first_occurrences(s).len(),
    ensures
        exists|a: int, b: int|
            a < b && first_at(s, first_occurrences(s)[i], a) && first_at(
                s,
                first_occurrences(s)[j],
                b,
            ),
    decreases s.len(),
{
    let init = s.drop_last();
    let before = first_occurrences(init);
    let kept = first_occurrences(s);
    assert(kept[i] == before[i]);
    if j < before.len() {
        first_occurrences_keeps_order(init, i, j);
        let (a, b) = choose|a: int, b: int|
            a < b && first_at(init, before[i], a) && first_at(init, before[j], b);
        assert(first_at(s, kept[i], a)) by {
            assert forall|m: int| 0 <= m < a implies s[m] != kept[i] by {
                assert(s[m] == init[m]);
            }
        }
        assert(first_at(s, kept[j], b)) by {
            assert forall|m: int| 0 <= m < b implies s[m] != kept[j] by {
                assert(s[m] == init[m]);
            }
        }
    } else {
        first_occurrences_keeps_each_once(init);
        let b = s.len() - 1;
        assert(kept[j] == s[b]);
        assert(first_at(s, kept[j], b)) by {
            assert forall|m: int| 0 <= m < b implies s[m] != kept[j] by {
                if s[m] == kept[j] {
                    assert(init[m] == kept[j]);
                    assert(init.contains(kept[j]));
                    assert(before.contains(s.last()));
                }
            }
        }
        assert(before.contains(before[i]));
        assert(init.contains(before[i]));
        let k = choose|k: int| 0 <= k < init.len() && init[k] == before[i];
        let a = first_position(init, before[i], k);
        assert(first_at(s, kept[i], a)) by {
            assert forall|m: int| 0 <= m < a implies s[m] != kept[i] by {
                assert(s[m] == init[m]);
            }
        }
    }
}

proof fn first_position(s: Seq<Seq<char>>, t: Seq<char>, k: int) -> (a: int)
    requires
        0 <= k < s.len(),
        s[k] == t,
    ensures
        first_at(s, t, a),
    decreases k,
{
    if forall|m: int| 0 <= m < k ==> s[m] != t {
        k
    } else {
        let m = choose|m: int| 0 <= m < k && s[m] == t;
        first_position(s, t, m)
    }
}

/// A token of a request's `what` list belongs to one of the request's targets,
/// or is the lid switch asked for by `aggressive_lid`; and each such token is in
/// the list.
pub proof fn what_tokens_are_the_requested_ones(req: WakeRequestView, tok: Seq<char>)
    ensures
        first_occurrences(requested_tokens(req)).contains(tok) <==> {
            ||| exists|i: int|
                0 <= i < req.targets.len() && token_of(#[trigger] req.targets[i]) == Some(tok)
            ||| req.aggressive_lid && tok == "handle-lid-switch"@
        },
{
    first_occurrences_keeps_each_once(requested_tokens(req));
    target_tokens_membership(req.targets, tok);
    let base = target_tokens(req.targets);
    if req.aggressive_lid {
        assert(requested_tokens(req).last() == "handle-lid-switch"@);
        if base.contains(tok) {
            let i = choose|i: int| 0 <= i < base.len() && base[i] == tok;
            assert(requested_tokens(req)[i] == tok);
        }
        if requested_tokens(req).contains(tok) && tok != "handle-lid-switch"@ {
            let i = choose|i: int|
                0 <= i < requested_tokens(req).len() && requested_tokens(req)[i] == tok;
            assert(base[i] == tok);
        }
    }
}

proof fn target_tokens_membership(targets: Seq<WakeTarget>, tok: Seq<char>)
    ensures
        target_tokens(targets).contains(tok) <==> exists|i: int|
            0 <= i < targets.len() && token_of(#[trigger] targets[i]) == Some(tok),
    decreases targets.len(),
{
    if targets.len() > 0 {
        let init = targets.drop_last();
        let before = target_tokens(init);
        target_tokens_membership(init, tok);
        let all = target_tokens(targets);
        if all.contains(tok) {
            let j = choose|j: int| 0 <= j < all.len() && all[j] == tok;
            if j < before.len() {
                assert(before[j] == tok);
                let i = choose|i: int|
                    0 <= i < init.len() && token_of(#[trigger] init[i]) == Some(tok);
                assert(targets[i] == init[i]);
            } else {
                assert(targets[targets.len() - 1] == targets.last());
            }
        }
        if exists|i: int| 0 <= i < targets.len() && token_of(#[trigger] targets[i]) == Some(tok) {
            let i = choose|i: int|
                0 <= i < targets.len() && token_of(#[trigger] targets[i]) == Some(tok);
            if i < init.len() {
                assert(init[i] == targets[i]);
                let j = choose|j: int| 0 <= j < before.len() && before[j] == tok;
                assert(all[j] == tok);
            } else {
                assert(all.last() == tok);
            }
        }
    }
}

/// Snapshot of the lock a backend holds.
#[derive(Debug)]
pub struct WakeStatus {
    /// Name of the backend holding the lock.
    pub backend: String,
    /// The targets the backend honours.
    pub targets: Vec<WakeTarget>,
    /// The mode the lock was taken in.
    pub mode: WakeMode,
    /// Whether the display is also being kept on.
    pub display: bool,
}

/// What a [`WakeStatus`] says.
#[verifier::ext_equal]
pub struct WakeStatusView {
    pub backend: Seq<char>,
    pub targets: Seq<WakeTarget>,
    pub mode: WakeMode,
    pub display: bool,
}

impl View for WakeStatus {
    type V = WakeStatusView;

    open spec fn view(&self) -> WakeStatusView {
        WakeStatusView {
            backend: self.backend@,
            targets: self.targets@,
            mode: self.mode,
            display: self.display,
        }
    }
}

impl Clone for WakeStatus {
    fn clone(&self) -> (r: WakeStatus)
        ensures
            r@ == self@,
    {
        WakeStatus {
            backend: self.backend.clone(),
            targets: copy_targets(&self.targets),
            mode: self.mode,
            display: self.display,
        }
    }
}

/// A copy of a target list.
pub fn copy_targets(targets: &Vec<WakeTarget>) -> (r: Vec<WakeTarget>)
    ensures
        r@ == targets@,
{
    let mut out: Vec<WakeTarget> = Vec::new();
    let mut i: usize = 0;
    while i < targets.len()
        invariant
            0 <= i <= targets@.len(),
            out@ == targets@.take(i as int),
        decreases targets.len() - i,
    {
        out.push(targets[i]);
        i = i + 1;
        assert(out@ =~= targets@.take(i as int));
    }
    assert(out@ =~= targets@);
    out
}

/// One backend's part of a doctor report.
#[derive(Debug)]
pub struct DoctorReport {
    /// Backend name.
    pub backend: String,
    /// Compiled into this binary.
    pub supported: bool,
    /// Reachable right now.
    pub available: bool,
    /// Honest caveats: what this backend *cannot* guarantee.
    pub guarantees: Vec<String>,
    /// Free-form diagnostic notes.
    pub notes: Vec<String>,
}

/// What a [`DoctorReport`] says.
#[verifier::ext_equal]
pub struct DoctorReportView {
    pub backend: Seq<char>,
    pub supported: bool,
    pub available: bool,
    pub guarantees: Seq<Seq<char>>,
    pub notes: Seq<Seq<char>>,
}

impl View for DoctorReport {
    type V = DoctorReportView;

    open spec fn view(&self) -> DoctorReportView {
        DoctorReportView {
            backend: self.backend@,
            supported: self.supported,
            available: self.available,
            guarantees: texts(self.guarantees@),
            notes: texts(self.notes@),
        }
    }
}

impl Clone for DoctorReport {
    fn clone(&self) -> (r: DoctorReport)
        ensures
            r@ == self@,
    {
        DoctorReport {
            backend: self.backend.clone(),
            supported: self.supported,
            available: self.available,
            guarantees: copy_texts(&self.guarantees),
            notes: copy_texts(&self.notes),
        }
    }
}

impl DoctorReport {
    /// A blank report for a backend that is not compiled in at all.
    pub fn not_compiled(name: &'static str) -> (r: DoctorReport)
        ensures
            r@ == (DoctorReportView {
                backend: name@,
                supported: false,
                available: false,
                guarantees: seq!["not compiled into this build"@],
                notes: Seq::empty(),
            }),
    {
        let report = DoctorReport {
            backend: name.to_string(),
            supported: false,
            available: false,
            guarantees: vec!["not compiled into this build".to_string()],
            notes: Vec::new(),
        };
        assert(report@.guarantees =~= seq!["not compiled into this build"@]);
        assert(report@.notes =~= Seq::<Seq<char>>::empty());
        report
    }
}

/// A platform wake-lock backend, as far as it can be asked without touching the
/// platform: its identity and the lock it would hold.
pub trait WakeBackend: Send {
    /// The backend's identifier.
    spec fn name_text(&self) -> Seq<char>;

    /// The lock the backend holds once taken.
    spec fn status_view(&self) -> WakeStatusView;

    /// Stable identifier, e.g. `"systemd-logind"`.
    fn name(&self) -> (r: &'static str)
        ensures
            r@ == self.name_text(),
    ;

    /// `true` if this backend is compiled into the binary.
    fn supported(&self) -> (r: bool)
        ensures
            r,
    ;

    /// Describe the lock this backend would hold, without taking one.
    fn status(&self) -> (r: Result<WakeStatus, OxiwakeError>)
        ensures
            match r {
                Ok(s) => s@ == self.status_view() && s@.backend == self.name_text(),
                Err(_) => false,
            },
    ;
}

/// Handle to an active wake lock. Releasing the handle releases the lock.
pub trait WakeGuard: Send {
    /// The name of the backend that produced the guard.
    spec fn backend_text(&self) -> Seq<char>;

    /// Name of the backend that produced this guard.
    fn backend(&self) -> (r: &'static str)
        ensures
            r@ == self.backend_text(),
    ;
}

} // verus!
