//! The doctor's report: what is found out of the environment, and how it is laid
//! out.

use crate::doctor::{
    after_size, assigned, assignment, battery_text, content_text, dword, linux_rows, os_name,
    os_rows, platform_name, power_rows, power_source, probe_platform, probe_rows, text_opt,
    unquoted, variable_rows, version_text, windows_rows, DoctorOutputView, DwordReply, EnvProbe,
    LinuxProbe, PowerStatus, Row, SizeReply, StringQuery, VersionProbe, WindowsProbe,
};
use crate::json::{object_text, JsonValueView};
use crate::laws::text::{
    cutting_cuts_at_the_first, surrounding_white_space_is_trimmed,
    trimming_takes_white_space_off_the_ends,
};
use crate::model::DoctorReportView;
use crate::output::{
    available_cells, column_width, doctor_lines, env_lines, keys_of, name_cells, report_lines,
    rule_matches_header, simple_object, supported_cells, table_header, table_lines, table_rule,
    widths_of, Widths,
};
use crate::platform::Platform;
use crate::text::{cut_at_first, decimal_text, joined, lines_of, padded, repeated, trimmed, white};
use crate::wide::{from_units, units_of, utf16, utf16_round_trips};
use vstd::prelude::*;

verus! {

// ---------------------------------------------------------------------------
// Variables and files
// ---------------------------------------------------------------------------

/// A variable is shown as it is set, and not at all if it is unset or empty.
pub proof fn variables_are_shown_as_set(key: Seq<char>, v: Seq<char>)
    ensures
        v.len() > 0 ==> variable_rows(key, Some(v)) =~= seq![(key, v)],
        v.len() == 0 ==> variable_rows(key, Some(v)).len() == 0,
        variable_rows(key, None).len() == 0,
{
}

/// A quoted value is what stands between the quotes, as long as there are two and both
/// are of one kind; any other value is itself.
pub proof fn quotes_are_taken_off(inner: Seq<char>, plain: Seq<char>)
    requires
        plain.len() > 0 ==> !white(plain[0]) && !white(plain.last()),
        plain.len() > 1 && plain[0] == plain.last() ==> plain[0] != '"' && plain[0] != '\'',
    ensures
        unquoted(seq!['"'] + inner + seq!['"']) == inner,
        unquoted(seq!['\''] + inner + seq!['\'']) == inner,
        unquoted(plain) == plain,
{
    let a = seq!['"'] + inner + seq!['"'];
    let b = seq!['\''] + inner + seq!['\''];
    tight_text_is_trimmed(a);
    tight_text_is_trimmed(b);
    assert(a.subrange(1, a.len() - 1) =~= inner);
    assert(b.subrange(1, b.len() - 1) =~= inner);
    tight_text_is_trimmed(plain);
}

/// A text without white space at its ends is trimmed already.
proof fn tight_text_is_trimmed(t: Seq<char>)
    requires
        t.len() > 0 ==> !white(t[0]) && !white(t.last()),
    ensures
        trimmed(t) == t,
{
}

/// A line assigns a value to a key if an equals sign stands between the two; what
/// follows is the value, equals signs and all. White space around either and
/// quotes around the value do not belong to it. A line without an equals sign
/// assigns nothing, and neither does a comment.
pub proof fn a_line_assigns_a_value(key: Seq<char>, value: Seq<char>, rest: Seq<char>)
    requires
        key.len() > 0,
        !white(key[0]),
        !white(key.last()),
        key[0] != '#',
        !key.contains('='),
        value.len() > 0,
        !white(value[0]),
        !white(value.last()),
    ensures
        assignment(key.push('=') + value) == Some((key, unquoted(value))),
        assignment(key.push('=')) == Some((key, Seq::<char>::empty())),
        assignment(seq!['='] + value) == Some((Seq::<char>::empty(), unquoted(value))),
        assignment(key) is None,
        assignment(seq!['#'] + rest) is None,
        assignment(Seq::empty()) is None,
{
    let bare = key.push('=');
    tight_text_is_trimmed(bare);
    cut_after(key, Seq::empty());
    assert(bare + Seq::<char>::empty() =~= bare);
    tight_text_is_trimmed(Seq::<char>::empty());
    let keyless = seq!['='] + value;
    assert(keyless.last() == value.last());
    tight_text_is_trimmed(keyless);
    cut_after(Seq::empty(), value);
    assert(Seq::<char>::empty().push('=') + value =~= keyless);
    let line = key.push('=') + value;
    assert(line[0] == key[0] && line.last() == value.last());
    tight_text_is_trimmed(line);
    tight_text_is_trimmed(key);
    tight_text_is_trimmed(value);
    cut_after(key, value);
    cutting_cuts_at_the_first(key, '=');
    if let Some((head, tail)) = cut_at_first(key, '=') {
        assert(key[head.len() as int] == '=');
        assert(key.contains('='));
    }
    comments_stay_comments(rest);
}

/// White space around the key, around the value and around the line is not part of
/// the assignment.
pub proof fn white_space_does_not_matter_in_assignments(
    w1: Seq<char>,
    key: Seq<char>,
    w2: Seq<char>,
    w3: Seq<char>,
    value: Seq<char>,
    w4: Seq<char>,
)
    requires
        key.len() > 0,
        !white(key[0]),
        !white(key.last()),
        key[0] != '#',
        !key.contains('='),
        value.len() > 0,
        !white(value[0]),
        !white(value.last()),
        forall|i: int| 0 <= i < w1.len() ==> white(#[trigger] w1[i]),
        forall|i: int| 0 <= i < w2.len() ==> white(#[trigger] w2[i]),
        forall|i: int| 0 <= i < w3.len() ==> white(#[trigger] w3[i]),
        forall|i: int| 0 <= i < w4.len() ==> white(#[trigger] w4[i]),
    ensures
        assignment(w1 + (key + w2 + seq!['='] + w3 + value) + w4) == Some((key, unquoted(value))),
        unquoted(w3 + value + w4) == unquoted(value),
{
    let body = key + w2 + seq!['='] + w3 + value;
    let none = Seq::<char>::empty();
    surrounding_white_space_is_trimmed(w1, body, w4);
    let left = key + w2;
    assert(!left.contains('=')) by {
        if left.contains('=') {
            let i = choose|i: int| 0 <= i < left.len() && left[i] == '=';
            if i < key.len() {
                assert(key[i] == '=');
                assert(key.contains('='));
            } else {
                assert(white(w2[i - key.len()]));
            }
        }
    }
    cut_after(left, w3 + value);
    assert(left.push('=') + (w3 + value) =~= body);
    surrounding_white_space_is_trimmed(none, key, w2);
    assert(none + key + w2 =~= left);
    surrounding_white_space_is_trimmed(w3, value, none);
    assert(w3 + value + none =~= w3 + value);
    surrounding_white_space_is_trimmed(w3, value, w4);
    tight_text_is_trimmed(value);
}

proof fn cut_after(key: Seq<char>, value: Seq<char>)
    requires
        !key.contains('='),
    ensures
        cut_at_first(key.push('=') + value, '=') == Some((key, value)),
    decreases key.len(),
{
    let line = key.push('=') + value;
    if key.len() == 0 {
        assert(line[0] == '=');
        assert(line.drop_first() =~= value);
        assert(key =~= Seq::<char>::empty());
    } else {
        assert(key[0] != '=') by {
            if key[0] == '=' {
                assert(key.contains('='));
            }
        }
        let tail = key.drop_first();
        assert(!tail.contains('=')) by {
            if tail.contains('=') {
                let i = choose|i: int| 0 <= i < tail.len() && tail[i] == '=';
                assert(key[i + 1] == '=');
            }
        }
        cut_after(tail, value);
        assert(line.drop_first() =~= tail.push('=') + value);
        assert(seq![line[0]] + tail =~= key);
    }
}

proof fn comments_stay_comments(rest: Seq<char>)
    ensures
        trimmed(seq!['#'] + rest).len() > 0,
        trimmed(seq!['#'] + rest)[0] == '#',
{
    let line = seq!['#'] + rest;
    trimming_takes_white_space_off_the_ends(line);
    let (from, to) = choose|from: int, to: int|
        #![trigger line.subrange(from, to)]
        {
            &&& 0 <= from <= to <= line.len()
            &&& trimmed(line) == line.subrange(from, to)
            &&& forall|i: int| 0 <= i < from ==> white(#[trigger] line[i])
            &&& forall|i: int| to <= i < line.len() ==> white(#[trigger] line[i])
        };
    assert(line[0] == '#' && !white('#'));
    assert(from == 0);
    assert(to > 0);
}

/// The last assignment to a key counts; lines that assign something else, or
/// nothing, do not matter.
pub proof fn the_last_assignment_counts(
    lines: Seq<Seq<char>>,
    line: Seq<char>,
    key: Seq<char>,
    value: Seq<char>,
)
    ensures
        assigned(Seq::empty(), key) is None,
        assignment(line) == Some((key, value)) ==> assigned(lines.push(line), key) == Some(value),
        assignment(line) is None ==> assigned(lines.push(line), key) == assigned(lines, key),
        assignment(line) is Some && assignment(line)->Some_0.0 != key ==> assigned(
            lines.push(line),
            key,
        ) == assigned(lines, key),
{
    assert(lines.push(line).drop_last() =~= lines);
}

/// The system's name is its pretty name; where it has none, its id and its
/// version, as far as they are there.
pub proof fn the_system_has_its_pretty_name(text: Seq<char>)
    ensures
        ({
            let lines = lines_of(text);
            let pretty = assigned(lines, "PRETTY_NAME"@);
            let id = assigned(lines, "ID"@);
            let version = assigned(lines, "VERSION_ID"@);
            &&& pretty is Some ==> os_name(text) == pretty
            &&& pretty is None && id is Some && version is Some ==> os_name(text) == Some(
                id->Some_0 + " "@ + version->Some_0,
            )
            &&& pretty is None && version is None ==> os_name(text) == id
            &&& pretty is None && id is None ==> os_name(text) == version
        }),
{
}

/// The system's name comes from the first file if that could be read, whatever
/// the second one says, and from the second one otherwise.
pub proof fn the_first_file_counts(etc: Seq<char>, usr_lib: Option<Seq<char>>, lib: Seq<char>)
    ensures
        os_name(etc) is Some ==> os_rows(Some(etc), usr_lib) =~= seq![
            ("OS"@, os_name(etc)->Some_0),
        ],
        os_name(etc) is None ==> os_rows(Some(etc), usr_lib).len() == 0,
        os_name(lib) is Some ==> os_rows(None, Some(lib)) =~= seq![("OS"@, os_name(lib)->Some_0)],
        os_name(lib) is None ==> os_rows(None, Some(lib)).len() == 0,
        os_rows(None, None).len() == 0,
{
}

/// What is shown of a Linux system, in this order: the system, the desktop, the
/// kind of session, and the two displays.
pub proof fn linux_is_shown_in_order(p: LinuxProbe)
    ensures
        linux_rows(p) == os_rows(text_opt(p.etc_os_release), text_opt(p.usr_lib_os_release))
            + variable_rows("XDG_CURRENT_DESKTOP"@, text_opt(p.xdg_current_desktop))
            + variable_rows("XDG_SESSION_TYPE"@, text_opt(p.xdg_session_type)) + variable_rows(
            "WAYLAND_DISPLAY"@,
            text_opt(p.wayland_display),
        ) + variable_rows("DISPLAY"@, text_opt(p.display)),
        probe_rows(EnvProbe::Linux(p)) == linux_rows(p),
        probe_platform(EnvProbe::Linux(p)) == Platform::Linux,
        platform_name(Platform::Linux) == "linux"@,
{
}

// ---------------------------------------------------------------------------
// Windows
// ---------------------------------------------------------------------------

/// A number is read from the registry only if the call went well and gave a number
/// of four bytes; the number is then the one that was given.
pub proof fn only_numbers_are_read_as_numbers(reply: DwordReply)
    ensures
        reply.status == 0 && reply.value_type == 4 && reply.len == 4 ==> dword(reply) == Some(
            reply.data,
        ),
        reply.status != 0 || reply.value_type != 4 || reply.len != 4 ==> dword(reply) is None,
{
}

/// A string's contents are fetched only if the call went well and told of a string
/// that is not empty, into a buffer of half as many units as it has bytes.
pub proof fn only_strings_are_fetched(reply: SizeReply)
    ensures
        reply.status != 0 || reply.value_type != 1 ==> after_size(reply) == StringQuery::Absent,
        reply.status == 0 && reply.value_type == 1 && reply.len == 0 ==> after_size(reply)
            == StringQuery::Empty,
        reply.status == 0 && reply.value_type == 1 && reply.len > 0 ==> after_size(reply) is Fetch
            && (after_size(reply)->Fetch_0 == reply.len / 2),
{
}

/// A string is read from the registry as it was stored, with or without a zero
/// unit at its end; a failed call gives none.
pub proof fn stored_strings_are_read_back(t: Seq<char>, status: u32, units: Seq<u16>)
    ensures
        content_text(0, utf16(t).push(0u16)) == Some(t),
        t.len() == 0 || t.last() != '\0' ==> content_text(0, utf16(t)) == Some(t),
        status != 0 ==> content_text(status, units) is None,
        units.len() > 0 && units.last() != 0 ==> content_text(0, units) == from_units(units),
{
    utf16_round_trips(t);
    assert(utf16(t).push(0u16).drop_last() =~= utf16(t));
    if t.len() > 0 && t.last() != '\0' {
        let all = utf16(t);
        let last = units_of(t.last());
        assert(all == utf16(t.drop_last()) + last);
        assert(all.last() == last.last());
        no_unit_is_zero(t.last());
    }
}

proof fn no_unit_is_zero(c: char)
    requires
        c != '\0',
    ensures
        units_of(c).len() > 0,
        units_of(c).last() != 0,
{
}

/// The version of Windows is its three numbers and, where it is known, the fourth,
/// with dots between them; without one of the first three there is none to tell.
pub proof fn the_version_is_told_in_numbers(
    maj: u32,
    min: u32,
    bld: String,
    u: u32,
    p: VersionProbe,
)
    ensures
        version_text(
            Some(VersionProbe { major: Some(maj), minor: Some(min), build: Some(bld), ubr: Some(u) }),
        ) == decimal_text(maj as nat) + "."@ + decimal_text(min as nat) + "."@ + bld@ + "."@
            + decimal_text(u as nat),
        version_text(
            Some(VersionProbe { major: Some(maj), minor: Some(min), build: Some(bld), ubr: None }),
        ) == decimal_text(maj as nat) + "."@ + decimal_text(min as nat) + "."@ + bld@,
        p.major is None || p.minor is None || p.build is None ==> version_text(Some(p))
            == "version unavailable"@,
        version_text(None) == "version unavailable"@,
{
}

/// The power source and the battery are told as far as they are known: a charge
/// only up to one hundred percent, and none where there is no battery.
pub proof fn the_power_status_is_told(s: PowerStatus)
    ensures
        s.ac_line_status == 0 ==> power_source(s) == "battery"@,
        s.ac_line_status == 1 ==> power_source(s) == "AC"@,
        s.ac_line_status > 1 ==> power_source(s) == "unknown"@,
        s.battery_flag == 128 ==> battery_text(s) == "no system battery"@,
        s.battery_flag != 128 && s.battery_life_percent <= 100 ==> battery_text(s) == decimal_text(
            s.battery_life_percent as nat,
        ) + "%"@,
        s.battery_flag != 128 && s.battery_life_percent > 100 ==> battery_text(s) == "unknown"@,
        power_rows(None) =~= seq![("Power"@, "status unavailable"@)],
        power_rows(Some(s)) =~= seq![
            ("Power"@, power_source(s)),
            ("Battery"@, battery_text(s)),
            (
                "ModernStandby"@,
                "on DC, Windows may terminate power requests after the sleep timeout; user-initiated sleep clears requests"@,
            ),
        ],
{
}

/// What is shown of a Windows system, in this order: the version, the power, and
/// the base of the runtime directory. Of other systems nothing is shown.
pub proof fn windows_is_shown_in_order(p: WindowsProbe)
    ensures
        windows_rows(p) == seq![("Windows"@, version_text(p.version))] + power_rows(p.power)
            + variable_rows("LOCALAPPDATA"@, text_opt(p.local_app_data)),
        probe_rows(EnvProbe::Windows(p)) == windows_rows(p),
        probe_platform(EnvProbe::Windows(p)) == Platform::Windows,
        platform_name(Platform::Windows) == "windows"@,
        probe_rows(EnvProbe::Unsupported).len() == 0,
        probe_platform(EnvProbe::Unsupported) == Platform::Unsupported,
        platform_name(Platform::Unsupported) == "unknown"@,
{
}

// ---------------------------------------------------------------------------
// The table
// ---------------------------------------------------------------------------

/// A column is as wide as it must be and no wider: its heading and every cell fit,
/// and one of them fills it.
pub proof fn columns_are_as_wide_as_needed(least: nat, cells: Seq<Seq<char>>)
    ensures
        column_width(least, cells) >= least,
        forall|i: int|
            0 <= i < cells.len() ==> (#[trigger] cells[i]).len() <= column_width(least, cells),
        column_width(least, cells) == least || exists|i: int|
            0 <= i < cells.len() && (#[trigger] cells[i]).len() == column_width(least, cells),
    decreases cells.len(),
{
    if cells.len() > 0 {
        let init = cells.drop_last();
        columns_are_as_wide_as_needed(least, init);
        assert forall|i: int| 0 <= i < cells.len() implies (#[trigger] cells[i]).len()
            <= column_width(least, cells) by {
            if i < init.len() {
                assert(init[i] == cells[i]);
            }
        }
        if column_width(least, cells) != least {
            if cells.last().len() == column_width(least, cells) {
                assert(cells[cells.len() - 1] == cells.last());
            } else {
                let i = choose|i: int|
                    0 <= i < init.len() && (#[trigger] init[i]).len() == column_width(least, init);
                assert(cells[i] == init[i]);
            }
        }
    }
}

/// A row of the table shows the backend, whether it is supported, whether it is
/// available, and its caveats, in this order with two spaces between them; each
/// note stands on a line of its own below.
pub proof fn a_row_shows_its_report(w: Widths, r: DoctorReportView, i: int)
    ensures
        ({
            let flag = |b: bool|
                if b {
                    "yes"@
                } else {
                    "no"@
                };
            let caveats = if r.guarantees.len() == 0 {
                "-"@
            } else {
                joined(r.guarantees, "; "@)
            };
            report_lines(w, r)[0] == padded(r.backend, w.backend) + "  "@ + padded(
                flag(r.supported),
                w.supported,
            ) + "  "@ + padded(flag(r.available), w.available) + "  "@ + caveats
        }),
        report_lines(w, r).len() == r.notes.len() + 1,
        0 <= i < r.notes.len() ==> report_lines(w, r)[i + 1] == repeated(' ', w.backend)
            + "  note: "@ + r.notes[i],
{
}

/// Reports are shown one after the other, each with its notes.
pub proof fn reports_are_shown_in_order(w: Widths, v: Seq<DoctorReportView>, r: DoctorReportView)
    ensures
        table_lines(w, Seq::empty()).len() == 0,
        table_lines(w, v.push(r)) == table_lines(w, v) + report_lines(w, r),
{
    assert(v.push(r).drop_last() =~= v);
}

/// The widths of a table are those of its columns.
pub proof fn the_table_fits_its_reports(v: Seq<DoctorReportView>, i: int)
    ensures
        widths_of(v).backend == column_width(7, name_cells(v)),
        widths_of(v).supported == 9,
        widths_of(v).available == 9,
        0 <= i < v.len() ==> v[i].backend.len() <= widths_of(v).backend,
        name_cells(v).len() == v.len(),
        0 <= i < v.len() ==> name_cells(v)[i] == v[i].backend,
        table_header(widths_of(v)) == padded("backend"@, widths_of(v).backend) + "  "@
            + "supported"@ + "  "@ + "available"@ + "  "@ + "caveats"@,
        table_rule(widths_of(v)) == repeated('-', table_header(widths_of(v)).len()),
{
    reveal_strlit("backend");
    reveal_strlit("supported");
    reveal_strlit("available");
    reveal_strlit("caveats");
    reveal_strlit("  ");
    reveal_strlit("yes");
    reveal_strlit("no");
    assert("supported"@.len() == 9 && "available"@.len() == 9 && "backend"@.len() == 7);
    columns_are_as_wide_as_needed(7, name_cells(v));
    columns_are_as_wide_as_needed(9, supported_cells(v));
    columns_are_as_wide_as_needed(9, available_cells(v));
    assert forall|k: int| 0 <= k < v.len() implies (#[trigger] supported_cells(v)[k]).len()
        <= 3 by {}
    assert forall|k: int| 0 <= k < v.len() implies (#[trigger] available_cells(v)[k]).len()
        <= 3 by {}
    if 0 <= i < v.len() {
        assert(name_cells(v)[i] == v[i].backend);
    }
    rule_matches_header(v);
}

/// The environment is shown row by row, each key padded to the widest, under a
/// heading of its own; without rows there is no heading either.
pub proof fn the_environment_is_shown_row_by_row(env: Seq<Row>, i: int)
    ensures
        env.len() == 0 ==> env_lines(env).len() == 0,
        env.len() > 0 ==> {
            &&& env_lines(env).len() == env.len() + 2
            &&& env_lines(env)[0].len() == 0
            &&& env_lines(env)[1] == "environment:"@
        },
        0 <= i < env.len() ==> env_lines(env)[i + 2] == "  "@ + padded(
            env[i].0,
            column_width(0, keys_of(env)),
        ) + "  "@ + env[i].1,
        keys_of(env).len() == env.len(),
        0 <= i < env.len() ==> keys_of(env)[i] == env[i].0,
{
}

/// A report names the platform, leaves a line, and shows the table and after it
/// the environment.
pub proof fn a_report_is_laid_out(out: DoctorOutputView)
    ensures
        doctor_lines(out) == seq![
            "platform: "@ + out.platform,
            Seq::<char>::empty(),
            table_header(widths_of(out.backends)),
            table_rule(widths_of(out.backends)),
        ] + table_lines(widths_of(out.backends), out.backends) + env_lines(out.env),
{
}

/// A one-shot result is an object with the state and, where there is one, the
/// note. What cannot be written is shown as an empty object.
pub proof fn one_shot_results_are_objects(state: Seq<char>, note: Seq<char>, t: Seq<char>)
    ensures
        simple_object(state, None) =~= seq![("state"@, JsonValueView::Text(state))],
        simple_object(state, Some(note)) =~= seq![
            ("state"@, JsonValueView::Text(state)),
            ("note"@, JsonValueView::Text(note)),
        ],
        object_text(Some(t)) == t,
        object_text(None) == "{}"@,
{
}

} // verus!
