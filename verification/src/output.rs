//! Presentation: every function takes a value and returns text, with no clock
//! and no failure.
//!
//! Each shape has a human form, aligned plain text for a terminal, and a JSON
//! form, one compact object for a machine.

use crate::doctor::{DoctorOutput, DoctorOutputView};
use crate::json::{
    json_object_text, members, object_text, push_member, render_object, JsonValue, JsonValueView,
    Member,
};
use crate::model::{
    mode_name, target_wire_name, token_of, DoctorReport, DoctorReportView, WakeMode, WakeStatus,
    WakeStatusView, WakeTarget,
};
use crate::state::{LockState, LockStateView};
use crate::text::{
    decimal, decimal_text, join, joined, joined_lines_split, lines_of, pad_right, padded,
    push_text, repeat, repeated, single_line, texts,
};
use vstd::prelude::*;
use vstd::string::*;

verus! {

/// The key under which the lock's start time is reported in JSON.
pub const SINCE_KEY: &'static str = "since_unix";

// ---------------------------------------------------------------------------
// Small pieces
// ---------------------------------------------------------------------------

/// Seconds from one time to another, never negative.
pub open spec fn elapsed(now: u64, started: u64) -> nat {
    if now >= started {
        (now - started) as nat
    } else {
        0
    }
}

/// The non-zero hours, the non-zero minutes and the seconds of a duration.
pub open spec fn age_parts(secs: nat) -> Seq<Seq<char>> {
    let h = secs / 3600;
    let m = (secs / 60) % 60;
    let s = secs % 60;
    let hours = if h > 0 {
        seq![decimal_text(h) + "h"@]
    } else {
        Seq::<Seq<char>>::empty()
    };
    let minutes = if m > 0 {
        hours.push(decimal_text(m) + "m"@)
    } else {
        hours
    };
    minutes.push(decimal_text(s) + "s"@)
}

/// The age of a lock in words.
pub open spec fn age_text(now: u64, started: u64) -> Seq<char> {
    joined(age_parts(elapsed(now, started)), " "@)
}

/// The time since `started_unix` as `Xh Ym Zs`: hours and minutes are left out
/// when zero, the seconds are always shown, and a start in the future counts as
/// now.
pub fn human_age(now_unix: u64, started_unix: u64) -> (r: String)
    ensures
        r@ == age_text(now_unix, started_unix),
{
    let dur: u64 = now_unix.saturating_sub(started_unix);
    let secs: u64 = dur % 60;
    let mins: u64 = (dur / 60) % 60;
    let hours: u64 = dur / 3600;
    let mut parts: Vec<String> = Vec::new();
    assert(texts(parts@) =~= Seq::<Seq<char>>::empty());
    if hours > 0 {
        push_text(&mut parts, decimal(hours).concat("h"));
        assert(texts(parts@) =~= seq![decimal_text(hours as nat) + "h"@]);
    }
    if mins > 0 {
        push_text(&mut parts, decimal(mins).concat("m"));
    }
    push_text(&mut parts, decimal(secs).concat("s"));
    assert(texts(parts@) == age_parts(elapsed(now_unix, started_unix)));
    join(parts.as_slice(), " ")
}

/// The parts of an age add up to it, and minutes and seconds stay below sixty.
pub proof fn age_adds_up(secs: nat)
    ensures
        (secs / 3600) * 3600 + ((secs / 60) % 60) * 60 + secs % 60 == secs,
        (secs / 60) % 60 < 60,
        secs % 60 < 60,
{
    assert(secs / 3600 == (secs / 60) / 60) by (nonlinear_arith);
}

/// The short name of a target for a reader: its logind token where it has one.
pub open spec fn target_label(t: WakeTarget) -> Seq<char> {
    match token_of(t) {
        Some(tok) => tok,
        None => "display"@,
    }
}

/// The short name of a target for a reader. It is the systemd-logind token
/// where there is one, so that it matches what logind itself lists.
pub fn target_token(t: WakeTarget) -> (r: &'static str)
    ensures
        r@ == target_label(t),
{
    match t.logind_token() {
        Some(tok) => tok,
        None => "display",
    }
}

/// The short name of a mode for a reader.
pub fn mode_token(m: WakeMode) -> (r: &'static str)
    ensures
        r@ == mode_name(m),
{
    m.as_str()
}

/// The labels of a list of targets.
pub open spec fn target_labels(targets: Seq<WakeTarget>) -> Seq<Seq<char>> {
    Seq::new(targets.len(), |i: int| target_label(targets[i]))
}

/// A list of targets as one label.
pub open spec fn targets_text(targets: Seq<WakeTarget>) -> Seq<char> {
    if targets.len() == 0 {
        "none"@
    } else {
        joined(target_labels(targets), "+"@)
    }
}

/// A list of targets as one label: the targets' names in order with `+` between
/// them, or `none`.
pub fn human_targets(targets: &[WakeTarget]) -> (r: String)
    ensures
        r@ == targets_text(targets@),
{
    if targets.len() == 0 {
        return "none".to_string();
    }
    let mut labels: Vec<String> = Vec::new();
    let mut i: usize = 0;
    while i < targets.len()
        invariant
            0 <= i <= targets@.len(),
            texts(labels@) == target_labels(targets@).take(i as int),
        decreases targets.len() - i,
    {
        push_text(&mut labels, target_token(targets[i]).to_string());
        i = i + 1;
        assert(texts(labels@) =~= target_labels(targets@).take(i as int));
    }
    assert(texts(labels@) =~= target_labels(targets@));
    join(labels.as_slice(), "+")
}

/// A flag in words.
pub open spec fn yesno_text(b: bool) -> Seq<char> {
    if b {
        "yes"@
    } else {
        "no"@
    }
}

/// A flag in words.
pub fn yesno(b: bool) -> (r: &'static str)
    ensures
        r@ == yesno_text(b),
{
    if b {
        "yes"
    } else {
        "no"
    }
}

// ---------------------------------------------------------------------------
// Status
// ---------------------------------------------------------------------------

/// A label padded to the status column, and a space.
pub open spec fn status_label(label: Seq<char>) -> Seq<char> {
    padded(label, 10) + " "@
}

/// The line that names the backend, and the process where it is known.
pub open spec fn backend_line(backend: Seq<char>, pid: Option<u32>) -> Seq<char> {
    status_label("backend:"@) + backend + match pid {
        Some(n) => " (on, pid "@ + decimal_text(n as nat) + ")"@,
        None => " (on)"@,
    }
}

/// The line that names the targets and the mode, and the display where it is
/// kept on.
pub open spec fn targets_line(status: WakeStatusView) -> Seq<char> {
    status_label("targets:"@) + targets_text(status.targets) + " ["@ + mode_name(status.mode) + if status.display {
        "], display kept on"@
    } else {
        "]"@
    }
}

/// The line that tells how long the lock has been held.
pub open spec fn since_line(started: u64, now: u64) -> Seq<char> {
    status_label("since:"@) + "started "@ + decimal_text(started as nat) + " ("@ + age_text(
        now,
        started,
    ) + " ago)"@
}

/// The lines that describe an active lock.
pub open spec fn status_lines(status: WakeStatusView, state: LockStateView, now: u64) -> Seq<
    Seq<char>,
> {
    seq![
        backend_line(status.backend, Some(state.pid)),
        targets_line(status),
        since_line(state.started_unix, now),
    ]
}

/// The lines that describe an active lock without a snapshot.
pub open spec fn live_lines(status: WakeStatusView, pid: Option<u32>) -> Seq<Seq<char>> {
    seq![
        backend_line(status.backend, pid),
        targets_line(status),
        status_label("since:"@) + "unknown"@,
    ]
}

fn label(text: &str) -> (r: String)
    ensures
        r@ == status_label(text@),
{
    pad_right(text, 10).concat(" ")
}

fn render_backend_line(backend: &str, pid: Option<u32>) -> (r: String)
    ensures
        r@ == backend_line(backend@, pid),
{
    let line = label("backend:").concat(backend);
    match pid {
        Some(n) => {
            let note = " (on, pid ".to_string().concat(decimal(n as u64).as_str()).concat(")");
            line.concat(note.as_str())
        },
        None => line.concat(" (on)"),
    }
}

fn render_targets_line(status: &WakeStatus) -> (r: String)
    ensures
        r@ == targets_line(status@),
{
    label("targets:").concat(human_targets(status.targets.as_slice()).as_str()).concat(
        " [",
    ).concat(mode_token(status.mode)).concat(
        if status.display {
            "], display kept on"
        } else {
            "]"
        },
    )
}

/// Human form of an active lock. Three aligned lines: the backend that holds it,
/// with its process; the honoured targets with the mode, and the display where
/// it is kept on; and how long the lock has been held.
pub fn human_status(status: &WakeStatus, state: &LockState, now_unix: u64) -> (r: String)
    ensures
        r@ == joined(status_lines(status@, state@, now_unix), "\n"@),
{
    let mut lines: Vec<String> = Vec::new();
    assert(texts(lines@) =~= Seq::<Seq<char>>::empty());
    push_text(&mut lines, render_backend_line(status.backend.as_str(), Some(state.pid)));
    push_text(&mut lines, render_targets_line(status));
    push_text(
        &mut lines,
        label("since:").concat("started ").concat(decimal(state.started_unix).as_str()).concat(
            " (",
        ).concat(human_age(now_unix, state.started_unix).as_str()).concat(" ago)"),
    );
    assert(texts(lines@) =~= status_lines(status@, state@, now_unix));
    join(lines.as_slice(), "\n")
}

/// Human form of an active lock whose snapshot is missing: what the daemon itself
/// told, in the same three lines.
pub fn human_live(status: &WakeStatus, pid: Option<u32>) -> (r: String)
    ensures
        r@ == joined(live_lines(status@, pid), "\n"@),
{
    let mut lines: Vec<String> = Vec::new();
    assert(texts(lines@) =~= Seq::<Seq<char>>::empty());
    push_text(&mut lines, render_backend_line(status.backend.as_str(), pid));
    push_text(&mut lines, render_targets_line(status));
    push_text(&mut lines, label("since:").concat("unknown"));
    assert(texts(lines@) =~= live_lines(status@, pid));
    join(lines.as_slice(), "\n")
}

/// A decimal text is one line.
proof fn decimal_is_single_line(n: nat)
    ensures
        single_line(decimal_text(n)),
    decreases n,
{
    if n >= 10 {
        decimal_is_single_line(n / 10);
    }
}

/// Lines that are joined by a separator without a line feed are one line.
proof fn joined_is_single_line(parts: Seq<Seq<char>>, sep: Seq<char>)
    requires
        single_line(sep),
        forall|i: int| 0 <= i < parts.len() ==> single_line(#[trigger] parts[i]),
    ensures
        single_line(joined(parts, sep)),
    decreases parts.len(),
{
    if parts.len() > 0 {
        assert(single_line(parts[parts.len() - 1]));
        assert(single_line(parts[0]));
    }
    if parts.len() > 1 {
        let init = parts.drop_last();
        assert forall|i: int| 0 <= i < init.len() implies single_line(#[trigger] init[i]) by {
            assert(single_line(parts[i]));
        }
        joined_is_single_line(init, sep);
    }
}

proof fn age_is_single_line(now: u64, started: u64)
    ensures
        single_line(age_text(now, started)),
{
    reveal_strlit("h");
    reveal_strlit("m");
    reveal_strlit("s");
    reveal_strlit(" ");
    let secs = elapsed(now, started);
    decimal_is_single_line(secs / 3600);
    decimal_is_single_line((secs / 60) % 60);
    decimal_is_single_line(secs % 60);
    joined_is_single_line(age_parts(secs), " "@);
}

proof fn targets_line_is_single(status: WakeStatusView)
    ensures
        single_line(targets_line(status)),
{
    reveal_strlit("sleep");
    reveal_strlit("idle");
    reveal_strlit("handle-lid-switch");
    reveal_strlit("shutdown");
    reveal_strlit("display");
    reveal_strlit("none");
    reveal_strlit("+");
    joined_is_single_line(target_labels(status.targets), "+"@);
    assert(single_line(targets_text(status.targets)));
    reveal_strlit("targets:");
    reveal_strlit(" ");
    reveal_strlit(" [");
    reveal_strlit("]");
    reveal_strlit("], display kept on");
    reveal_strlit("block");
    reveal_strlit("delay");
    reveal_strlit("block-weak");
}

/// A status is three lines, as long as the backend's name is one: a reader that
/// splits the text at its line feeds gets the line of the backend, the line of
/// the targets with the mode, and the line of the time, in this order. The
/// labels of all three have one width, so that what follows them is aligned.
pub proof fn status_is_three_lines(
    status: WakeStatusView,
    state: LockStateView,
    pid: Option<u32>,
    now: u64,
)
    requires
        single_line(status.backend),
    ensures
        status_lines(status, state, now).len() == 3,
        lines_of(joined(status_lines(status, state, now), "\n"@)) == status_lines(
            status,
            state,
            now,
        ),
        live_lines(status, pid).len() == 3,
        lines_of(joined(live_lines(status, pid), "\n"@)) == live_lines(status, pid),
        status_label("backend:"@).len() == status_label("targets:"@).len(),
        status_label("targets:"@).len() == status_label("since:"@).len(),
{
    reveal_strlit("backend:");
    reveal_strlit("targets:");
    reveal_strlit("since:");
    reveal_strlit(" ");
    reveal_strlit(" (on, pid ");
    reveal_strlit(" (on)");
    reveal_strlit(")");
    reveal_strlit("started ");
    reveal_strlit(" (");
    reveal_strlit(" ago)");
    reveal_strlit("unknown");
    decimal_is_single_line(state.pid as nat);
    decimal_is_single_line(state.started_unix as nat);
    if let Some(n) = pid {
        decimal_is_single_line(n as nat);
    }
    age_is_single_line(now, state.started_unix);
    targets_line_is_single(status);
    assert(single_line(backend_line(status.backend, Some(state.pid))));
    assert(single_line(backend_line(status.backend, pid)));
    assert(single_line(since_line(state.started_unix, now)));
    assert(single_line(status_label("since:"@) + "unknown"@));
    joined_lines_split(status_lines(status, state, now));
    joined_lines_split(live_lines(status, pid));
}

/// The names of a list of targets in messages and files.
pub open spec fn wire_names(targets: Seq<WakeTarget>) -> Seq<Seq<char>> {
    Seq::new(targets.len(), |i: int| target_wire_name(targets[i]))
}

/// The members that describe a lock as a daemon tells it.
pub open spec fn lock_object(status: WakeStatusView) -> Seq<Member> {
    seq![
        ("state"@, JsonValueView::Text("on"@)),
        ("backend"@, JsonValueView::Text(status.backend)),
        ("targets"@, JsonValueView::List(wire_names(status.targets))),
        ("mode"@, JsonValueView::Text(mode_name(status.mode))),
        ("display"@, JsonValueView::Flag(status.display)),
    ]
}

/// The members of the object that describes an active lock.
pub open spec fn status_object(status: WakeStatusView, state: LockStateView, now: u64) -> Seq<
    Member,
> {
    lock_object(status) + seq![
        ("pid"@, JsonValueView::Number(state.pid as u64)),
        (SINCE_KEY@, JsonValueView::Number(state.started_unix)),
        ("elapsed_secs"@, JsonValueView::Number(elapsed(now, state.started_unix) as u64)),
    ]
}

/// The members that describe an active lock without a snapshot.
pub open spec fn live_object(status: WakeStatusView, pid: Option<u32>) -> Seq<Member> {
    let base = lock_object(status);
    match pid {
        Some(n) => base.push(("pid"@, JsonValueView::Number(n as u64))),
        None => base,
    }
}

fn lock_members(status: &WakeStatus) -> (r: Vec<(String, JsonValue)>)
    ensures
        members(r@) == lock_object(status@),
{
    let mut names: Vec<String> = Vec::new();
    let mut i: usize = 0;
    while i < status.targets.len()
        invariant
            0 <= i <= status.targets@.len(),
            texts(names@) == wire_names(status.targets@).take(i as int),
        decreases status.targets.len() - i,
    {
        push_text(&mut names, status.targets[i].wire_name().to_string());
        i = i + 1;
        assert(texts(names@) =~= wire_names(status.targets@).take(i as int));
    }
    assert(texts(names@) =~= wire_names(status.targets@));
    let mut out: Vec<(String, JsonValue)> = Vec::new();
    assert(members(out@) =~= Seq::<Member>::empty());
    push_member(&mut out, "state", JsonValue::Text("on".to_string()));
    push_member(&mut out, "backend", JsonValue::Text(status.backend.clone()));
    push_member(&mut out, "targets", JsonValue::List(names));
    push_member(&mut out, "mode", JsonValue::Text(status.mode.as_str().to_string()));
    push_member(&mut out, "display", JsonValue::Flag(status.display));
    assert(members(out@) =~= lock_object(status@));
    out
}

/// The members of the object that describes an active lock: the status, and
/// with it the owning process, the start time and the elapsed seconds.
pub fn status_members(status: &WakeStatus, state: &LockState, now_unix: u64) -> (r: Vec<
    (String, JsonValue),
>)
    ensures
        members(r@) == status_object(status@, state@, now_unix),
{
    let mut out = lock_members(status);
    push_member(&mut out, "pid", JsonValue::Number(state.pid as u64));
    push_member(&mut out, SINCE_KEY, JsonValue::Number(state.started_unix));
    push_member(
        &mut out,
        "elapsed_secs",
        JsonValue::Number(now_unix.saturating_sub(state.started_unix)),
    );
    assert(members(out@) =~= status_object(status@, state@, now_unix));
    out
}

/// The members of the object that describes an active lock whose snapshot is
/// missing: what the daemon itself told.
pub fn live_members(status: &WakeStatus, pid: Option<u32>) -> (r: Vec<(String, JsonValue)>)
    ensures
        members(r@) == live_object(status@, pid),
{
    let mut out = lock_members(status);
    if let Some(n) = pid {
        push_member(&mut out, "pid", JsonValue::Number(n as u64));
    }
    out
}

/// JSON form of an active lock whose snapshot is missing, on one line.
pub fn json_live(status: &WakeStatus, pid: Option<u32>) -> (r: String)
    ensures
        r@ == object_text(json_object_text(live_object(status@, pid))),
{
    render_object(live_members(status, pid))
}

/// JSON form of an active lock, on one line.
pub fn json_status(status: &WakeStatus, state: &LockState, now_unix: u64) -> (r: String)
    ensures
        r@ == object_text(json_object_text(status_object(status@, state@, now_unix))),
{
    render_object(status_members(status, state, now_unix))
}

/// Human form of "no daemon is running". It is an answer, not an error.
pub fn human_off() -> (r: String)
    ensures
        r@ == "state:     off (oxiwake is not running)"@,
{
    "state:     off (oxiwake is not running)".to_string()
}

/// The members of the object for "no daemon is running".
pub open spec fn off_object() -> Seq<Member> {
    seq![("state"@, JsonValueView::Text("off"@)), ("running"@, JsonValueView::Flag(false))]
}

/// The members of the object for "no daemon is running".
pub fn off_members() -> (r: Vec<(String, JsonValue)>)
    ensures
        members(r@) == off_object(),
{
    let mut out: Vec<(String, JsonValue)> = Vec::new();
    assert(members(out@) =~= Seq::<Member>::empty());
    push_member(&mut out, "state", JsonValue::Text("off".to_string()));
    push_member(&mut out, "running", JsonValue::Flag(false));
    assert(members(out@) =~= off_object());
    out
}

/// JSON form of "no daemon is running".
pub fn json_off() -> (r: String)
    ensures
        r@ == object_text(json_object_text(off_object())),
{
    render_object(off_members())
}

/// The text of an optional string slice.
pub open spec fn note_text(note: Option<&str>) -> Option<Seq<char>> {
    match note {
        Some(n) => Some(n@),
        None => None,
    }
}

/// Human form of a one-shot result: the state, and a note where there is one.
pub fn human_simple(state: &str, note: Option<&str>) -> (r: String)
    ensures
        r@ == match note_text(note) {
            Some(n) => state@ + ": "@ + n,
            None => state@,
        },
{
    match note {
        Some(n) => state.to_string().concat(": ").concat(n),
        None => state.to_string(),
    }
}

/// The members of the object for a one-shot result.
pub open spec fn simple_object(state: Seq<char>, note: Option<Seq<char>>) -> Seq<Member> {
    let base = seq![("state"@, JsonValueView::Text(state))];
    match note {
        Some(n) => base.push(("note"@, JsonValueView::Text(n))),
        None => base,
    }
}

/// The members of the object for a one-shot result.
pub fn simple_members(state: &str, note: Option<&str>) -> (r: Vec<(String, JsonValue)>)
    ensures
        members(r@) == simple_object(state@, note_text(note)),
{
    let mut out: Vec<(String, JsonValue)> = Vec::new();
    assert(members(out@) =~= Seq::<Member>::empty());
    push_member(&mut out, "state", JsonValue::Text(state.to_string()));
    if let Some(n) = note {
        push_member(&mut out, "note", JsonValue::Text(n.to_string()));
    }
    assert(members(out@) =~= simple_object(state@, note_text(note)));
    out
}

/// JSON form of a one-shot result.
pub fn json_simple(state: &str, note: Option<&str>) -> (r: String)
    ensures
        r@ == object_text(json_object_text(simple_object(state@, note_text(note)))),
{
    render_object(simple_members(state, note))
}

// ---------------------------------------------------------------------------
// Doctor
// ---------------------------------------------------------------------------

/// The width of a column: that of its header or of its widest cell.
pub open spec fn column_width(least: nat, cells: Seq<Seq<char>>) -> nat
    decreases cells.len(),
{
    if cells.len() == 0 {
        least
    } else {
        let before = column_width(least, cells.drop_last());
        if cells.last().len() > before {
            cells.last().len()
        } else {
            before
        }
    }
}

/// The widths of the first three columns of the doctor table.
#[verifier::ext_equal]
pub struct Widths {
    pub backend: nat,
    pub supported: nat,
    pub available: nat,
}

/// The cells of the doctor table's first column.
pub open spec fn name_cells(v: Seq<DoctorReportView>) -> Seq<Seq<char>> {
    Seq::new(v.len(), |i: int| v[i].backend)
}

/// The cells of the doctor table's second column.
pub open spec fn supported_cells(v: Seq<DoctorReportView>) -> Seq<Seq<char>> {
    Seq::new(v.len(), |i: int| yesno_text(v[i].supported))
}

/// The cells of the doctor table's third column.
pub open spec fn available_cells(v: Seq<DoctorReportView>) -> Seq<Seq<char>> {
    Seq::new(v.len(), |i: int| yesno_text(v[i].available))
}

/// The column widths for a list of reports.
pub open spec fn widths_of(v: Seq<DoctorReportView>) -> Widths {
    Widths {
        backend: column_width("backend"@.len(), name_cells(v)),
        supported: column_width("supported"@.len(), supported_cells(v)),
        available: column_width("available"@.len(), available_cells(v)),
    }
}

/// One row of the doctor table.
pub open spec fn table_row(
    w: Widths,
    backend: Seq<char>,
    supported: Seq<char>,
    available: Seq<char>,
    caveats: Seq<char>,
) -> Seq<char> {
    padded(backend, w.backend) + "  "@ + padded(supported, w.supported) + "  "@ + padded(
        available,
        w.available,
    ) + "  "@ + caveats
}

/// The header of the doctor table.
pub open spec fn table_header(w: Widths) -> Seq<char> {
    table_row(w, "backend"@, "supported"@, "available"@, "caveats"@)
}

/// The rule under the header: as many dashes as the three columns, the three
/// gaps and the last heading take.
pub open spec fn table_rule(w: Widths) -> Seq<char> {
    repeated('-', w.backend + w.supported + w.available + "  "@.len() * 3 + "caveats"@.len())
}

/// The caveats of a report in one cell.
pub open spec fn caveats_text(r: DoctorReportView) -> Seq<char> {
    if r.guarantees.len() == 0 {
        "-"@
    } else {
        joined(r.guarantees, "; "@)
    }
}

/// The notes of a report, each indented under the row.
pub open spec fn note_lines(w: Widths, notes: Seq<Seq<char>>) -> Seq<Seq<char>> {
    Seq::new(notes.len(), |i: int| repeated(' ', w.backend) + "  note: "@ + notes[i])
}

/// The row of a report, and its notes.
pub open spec fn report_lines(w: Widths, r: DoctorReportView) -> Seq<Seq<char>> {
    seq![
        table_row(
            w,
            r.backend,
            yesno_text(r.supported),
            yesno_text(r.available),
            caveats_text(r),
        ),
    ] + note_lines(w, r.notes)
}

/// The lines of all reports, in order.
pub open spec fn table_lines(w: Widths, v: Seq<DoctorReportView>) -> Seq<Seq<char>>
    decreases v.len(),
{
    if v.len() == 0 {
        Seq::empty()
    } else {
        table_lines(w, v.drop_last()) + report_lines(w, v.last())
    }
}

/// The keys of the environment rows.
pub open spec fn keys_of(env: Seq<(Seq<char>, Seq<char>)>) -> Seq<Seq<char>> {
    Seq::new(env.len(), |i: int| env[i].0)
}

/// The environment rows, their values aligned.
pub open spec fn env_rows(width: nat, env: Seq<(Seq<char>, Seq<char>)>) -> Seq<Seq<char>> {
    Seq::new(env.len(), |i: int| "  "@ + padded(env[i].0, width) + "  "@ + env[i].1)
}

/// The environment block: nothing where there are no rows.
pub open spec fn env_lines(env: Seq<(Seq<char>, Seq<char>)>) -> Seq<Seq<char>> {
    if env.len() == 0 {
        Seq::empty()
    } else {
        seq![Seq::<char>::empty(), "environment:"@] + env_rows(column_width(0, keys_of(env)), env)
    }
}

/// The lines of a doctor report.
pub open spec fn doctor_lines(out: DoctorOutputView) -> Seq<Seq<char>> {
    let w = widths_of(out.backends);
    seq!["platform: "@ + out.platform, Seq::<char>::empty(), table_header(w), table_rule(w)]
        + table_lines(w, out.backends) + env_lines(out.env)
}

fn measure(least: usize, cells: &Vec<String>) -> (r: usize)
    ensures
        r == column_width(least as nat, texts(cells@)),
{
    let mut width: usize = least;
    let mut i: usize = 0;
    while i < cells.len()
        invariant
            0 <= i <= cells@.len(),
            width == column_width(least as nat, texts(cells@).take(i as int)),
        decreases cells.len() - i,
    {
        proof {
            let next = texts(cells@).take(i as int + 1);
            assert(next.drop_last() =~= texts(cells@).take(i as int));
            assert(next.last() == cells@[i as int]@);
        }
        let n: usize = cells[i].as_str().unicode_len();
        if n > width {
            width = n;
        }
        i = i + 1;
    }
    assert(texts(cells@).take(cells@.len() as int) =~= texts(cells@));
    width
}

fn row(
    w_backend: usize,
    w_supported: usize,
    w_available: usize,
    backend: &str,
    supported: &str,
    available: &str,
    caveats: &str,
) -> (r: String)
    ensures
        r@ == table_row(
            (Widths {
                backend: w_backend as nat,
                supported: w_supported as nat,
                available: w_available as nat,
            }),
            backend@,
            supported@,
            available@,
            caveats@,
        ),
{
    pad_right(backend, w_backend).concat("  ").concat(
        pad_right(supported, w_supported).as_str(),
    ).concat("  ").concat(pad_right(available, w_available).as_str()).concat("  ").concat(caveats)
}

/// A column is at least as wide as its header.
proof fn column_is_wide_enough(least: nat, cells: Seq<Seq<char>>)
    ensures
        column_width(least, cells) >= least,
    decreases cells.len(),
{
    if cells.len() > 0 {
        column_is_wide_enough(least, cells.drop_last());
    }
}

/// Every cell of a column fits into its width.
proof fn column_fits(least: nat, cells: Seq<Seq<char>>, i: int)
    requires
        0 <= i < cells.len(),
    ensures
        cells[i].len() <= column_width(least, cells),
    decreases cells.len(),
{
    if i < cells.len() - 1 {
        column_fits(least, cells.drop_last(), i);
    }
}

/// The rule under the header of a doctor table is exactly as long as the
/// header.
pub proof fn rule_matches_header(v: Seq<DoctorReportView>)
    ensures
        table_rule(widths_of(v)).len() == table_header(widths_of(v)).len(),
{
    column_is_wide_enough("backend"@.len(), name_cells(v));
    column_is_wide_enough("supported"@.len(), supported_cells(v));
    column_is_wide_enough("available"@.len(), available_cells(v));
}

/// The table is aligned: the caveats of every row start in the column in which
/// their heading starts, whatever the names of the backends.
pub proof fn table_is_aligned(v: Seq<DoctorReportView>, i: int)
    requires
        0 <= i < v.len(),
    ensures
        report_lines(widths_of(v), v[i])[0].len() - caveats_text(v[i]).len() == table_header(
            widths_of(v),
        ).len() - "caveats"@.len(),
{
    column_is_wide_enough("backend"@.len(), name_cells(v));
    column_is_wide_enough("supported"@.len(), supported_cells(v));
    column_is_wide_enough("available"@.len(), available_cells(v));
    column_fits("backend"@.len(), name_cells(v), i);
    column_fits("supported"@.len(), supported_cells(v), i);
    column_fits("available"@.len(), available_cells(v), i);
    assert(name_cells(v)[i] == v[i].backend);
    assert(supported_cells(v)[i] == yesno_text(v[i].supported));
    assert(available_cells(v)[i] == yesno_text(v[i].available));
}

/// The environment block is aligned: the values of all rows start in one column.
pub proof fn environment_is_aligned(env: Seq<(Seq<char>, Seq<char>)>, i: int, j: int)
    requires
        0 <= i < env.len(),
        0 <= j < env.len(),
    ensures
        ({
            let rows = env_rows(column_width(0, keys_of(env)), env);
            rows[i].len() - env[i].1.len() == rows[j].len() - env[j].1.len()
        }),
{
    column_fits(0, keys_of(env), i);
    column_fits(0, keys_of(env), j);
    assert(keys_of(env)[i] == env[i].0);
    assert(keys_of(env)[j] == env[j].0);
}

/// Append the row of a report and its notes.
fn push_report(
    lines: &mut Vec<String>,
    w_backend: usize,
    w_supported: usize,
    w_available: usize,
    b: &DoctorReport,
)
    ensures
        texts(final(lines)@) == texts(old(lines)@) + report_lines(
            (Widths {
                backend: w_backend as nat,
                supported: w_supported as nat,
                available: w_available as nat,
            }),
            b@,
        ),
{
    let ghost w = Widths {
        backend: w_backend as nat,
        supported: w_supported as nat,
        available: w_available as nat,
    };
    let caveats = if b.guarantees.len() == 0 {
        "-".to_string()
    } else {
        join(b.guarantees.as_slice(), "; ")
    };
    push_text(
        lines,
        row(
            w_backend,
            w_supported,
            w_available,
            b.backend.as_str(),
            yesno(b.supported),
            yesno(b.available),
            caveats.as_str(),
        ),
    );
    let ghost shown = texts(lines@);
    let mut i: usize = 0;
    while i < b.notes.len()
        invariant
            0 <= i <= b.notes@.len(),
            w.backend == w_backend,
            texts(lines@) == shown + note_lines(w, b@.notes).take(i as int),
        decreases b.notes.len() - i,
    {
        push_text(
            lines,
            repeat(' ', w_backend).concat("  note: ").concat(b.notes[i].as_str()),
        );
        i = i + 1;
        assert(texts(lines@) =~= shown + note_lines(w, b@.notes).take(i as int));
    }
    assert(texts(lines@) =~= texts(old(lines)@) + report_lines(w, b@));
}

/// Human form of a doctor report: a table with one row per backend, and a block
/// of environment facts. Column widths follow the data.
pub fn human_doctor(out: &DoctorOutput) -> (r: String)
    ensures
        r@ == joined(doctor_lines(out@), "\n"@),
{
    let mut lines: Vec<String> = Vec::new();
    assert(texts(lines@) =~= Seq::<Seq<char>>::empty());
    push_text(&mut lines, "platform: ".to_string().concat(out.platform.as_str()));
    push_text(&mut lines, String::new());

    let mut names: Vec<String> = Vec::new();
    let mut supported: Vec<String> = Vec::new();
    let mut available: Vec<String> = Vec::new();
    let mut i: usize = 0;
    while i < out.backends.len()
        invariant
            0 <= i <= out.backends@.len(),
            texts(names@) == name_cells(out@.backends).take(i as int),
            texts(supported@) == supported_cells(out@.backends).take(i as int),
            texts(available@) == available_cells(out@.backends).take(i as int),
        decreases out.backends.len() - i,
    {
        let b = &out.backends[i];
        push_text(&mut names, b.backend.clone());
        push_text(&mut supported, yesno(b.supported).to_string());
        push_text(&mut available, yesno(b.available).to_string());
        i = i + 1;
        assert(texts(names@) =~= name_cells(out@.backends).take(i as int));
        assert(texts(supported@) =~= supported_cells(out@.backends).take(i as int));
        assert(texts(available@) =~= available_cells(out@.backends).take(i as int));
    }
    assert(texts(names@) =~= name_cells(out@.backends));
    assert(texts(supported@) =~= supported_cells(out@.backends));
    assert(texts(available@) =~= available_cells(out@.backends));
    let w_backend: usize = measure("backend".unicode_len(), &names);
    let w_supported: usize = measure("supported".unicode_len(), &supported);
    let w_available: usize = measure("available".unicode_len(), &available);
    let ghost w = widths_of(out@.backends);

    let header = row(
        w_backend,
        w_supported,
        w_available,
        "backend",
        "supported",
        "available",
        "caveats",
    );
    proof {
        rule_matches_header(out@.backends);
    }
    let rule = repeat('-', header.as_str().unicode_len());
    push_text(&mut lines, header);
    push_text(&mut lines, rule);
    let ghost head = texts(lines@);
    assert(head =~= seq![
        "platform: "@ + out@.platform,
        Seq::<char>::empty(),
        table_header(w),
        table_rule(w),
    ]);

    i = 0;
    while i < out.backends.len()
        invariant
            0 <= i <= out.backends@.len(),
            w.backend == w_backend,
            w.supported == w_supported,
            w.available == w_available,
            texts(lines@) == head + table_lines(w, out@.backends.take(i as int)),
        decreases out.backends.len() - i,
    {
        let ghost before = table_lines(w, out@.backends.take(i as int));
        push_report(&mut lines, w_backend, w_supported, w_available, &out.backends[i]);
        proof {
            let next = out@.backends.take(i as int + 1);
            assert(next.drop_last() =~= out@.backends.take(i as int));
            assert(next.last() == out.backends@[i as int]@);
            assert(head + before + report_lines(w, next.last()) =~= head + (before + report_lines(
                w,
                next.last(),
            )));
        }
        i = i + 1;
    }
    assert(out@.backends.take(out@.backends.len() as int) =~= out@.backends);
    let ghost table = texts(lines@);

    if out.env.len() > 0 {
        push_text(&mut lines, String::new());
        push_text(&mut lines, "environment:".to_string());
        let ghost heading = texts(lines@);
        let mut keys: Vec<String> = Vec::new();
        i = 0;
        while i < out.env.len()
            invariant
                0 <= i <= out.env@.len(),
                texts(keys@) == keys_of(out@.env).take(i as int),
            decreases out.env.len() - i,
        {
            push_text(&mut keys, out.env[i].0.clone());
            i = i + 1;
            assert(texts(keys@) =~= keys_of(out@.env).take(i as int));
        }
        assert(texts(keys@) =~= keys_of(out@.env));
        let w_key: usize = measure(0, &keys);
        i = 0;
        while i < out.env.len()
            invariant
                0 <= i <= out.env@.len(),
                texts(lines@) == heading + env_rows(w_key as nat, out@.env).take(i as int),
            decreases out.env.len() - i,
        {
            let pair = &out.env[i];
            push_text(
                &mut lines,
                "  ".to_string().concat(pad_right(pair.0.as_str(), w_key).as_str()).concat(
                    "  ",
                ).concat(pair.1.as_str()),
            );
            i = i + 1;
            assert(texts(lines@) =~= heading + env_rows(w_key as nat, out@.env).take(i as int));
        }
        assert(texts(lines@) =~= table + env_lines(out@.env));
    }
    assert(texts(lines@) =~= doctor_lines(out@));
    join(lines.as_slice(), "\n")
}

} // verus!
