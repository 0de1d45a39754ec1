//! The doctor report: facts about the environment beside one report per
//! backend.
//!
//! The program hands in what it managed to read. Missing data is never an
//! error: it yields fewer rows.

use crate::model::{DoctorReport, DoctorReportView};
use crate::platform::Platform;
use crate::text::{
    chars_of, cut_at_first, decimal, decimal_text, join, joined, lines_of, pairs, push_pair,
    push_text, same_text, split_lines, split_once, text_of, texts, trim, trimmed,
};
use crate::wide::{decode_utf16, from_units};
use vstd::prelude::*;
use vstd::string::*;

verus! {

/// The whole doctor report.
#[derive(Debug)]
pub struct DoctorOutput {
    /// Short platform family: `"linux"` or `"windows"`.
    pub platform: String,
    /// Ordered `(key, value)` environment facts.
    pub env: Vec<(String, String)>,
    /// One report per backend of this build.
    pub backends: Vec<DoctorReport>,
}

/// What a [`DoctorOutput`] says.
#[verifier::ext_equal]
pub struct DoctorOutputView {
    pub platform: Seq<char>,
    pub env: Seq<(Seq<char>, Seq<char>)>,
    pub backends: Seq<DoctorReportView>,
}

/// What a list of reports says.
pub open spec fn reports(v: Seq<DoctorReport>) -> Seq<DoctorReportView> {
    Seq::new(v.len(), |i: int| v[i]@)
}

impl View for DoctorOutput {
    type V = DoctorOutputView;

    open spec fn view(&self) -> DoctorOutputView {
        DoctorOutputView {
            platform: self.platform@,
            env: pairs(self.env@),
            backends: reports(self.backends@),
        }
    }
}

impl Clone for DoctorOutput {
    fn clone(&self) -> (r: DoctorOutput)
        ensures
            r@ == self@,
    {
        let mut env: Vec<(String, String)> = Vec::new();
        let mut i: usize = 0;
        while i < self.env.len()
            invariant
                0 <= i <= self.env@.len(),
                pairs(env@) == pairs(self.env@).take(i as int),
            decreases self.env.len() - i,
        {
            let row = &self.env[i];
            push_pair(&mut env, row.0.as_str(), row.1.clone());
            i = i + 1;
            assert(pairs(env@) =~= pairs(self.env@).take(i as int));
        }
        assert(pairs(env@) =~= pairs(self.env@));
        let mut backends: Vec<DoctorReport> = Vec::new();
        i = 0;
        while i < self.backends.len()
            invariant
                0 <= i <= self.backends@.len(),
                reports(backends@) == reports(self.backends@).take(i as int),
            decreases self.backends.len() - i,
        {
            let ghost before = reports(backends@);
            let report = self.backends[i].clone();
            assert(report@ == reports(self.backends@)[i as int]);
            backends.push(report);
            assert(reports(backends@) =~= before.push(report@));
            i = i + 1;
            assert(reports(backends@) =~= reports(self.backends@).take(i as int));
        }
        assert(reports(backends@) =~= reports(self.backends@));
        DoctorOutput { platform: self.platform.clone(), env, backends }
    }
}

/// The short name of a platform.
pub open spec fn platform_name(p: Platform) -> Seq<char> {
    match p {
        Platform::Linux => "linux"@,
        Platform::Windows => "windows"@,
        Platform::Unsupported => "unknown"@,
    }
}

impl DoctorOutput {
    /// The short name of the platform a program is built for.
    pub fn platform_string(p: Platform) -> (r: &'static str)
        ensures
            r@ == platform_name(p),
    {
        match p {
            Platform::Linux => "linux",
            Platform::Windows => "windows",
            Platform::Unsupported => "unknown",
        }
    }
}

/// A row of the environment block.
pub type Row = (Seq<char>, Seq<char>);

// ---------------------------------------------------------------------------
// Environment variables
// ---------------------------------------------------------------------------

/// The row for a variable: none if the variable is unset or empty.
pub open spec fn variable_rows(key: Seq<char>, value: Option<Seq<char>>) -> Seq<Row> {
    match value {
        Some(v) if v.len() > 0 => seq![(key, v)],
        _ => Seq::empty(),
    }
}

/// The text of an optional string.
pub open spec fn text_opt(v: Option<String>) -> Option<Seq<char>> {
    match v {
        Some(s) => Some(s@),
        None => None,
    }
}

/// Append the row for a variable that is set and not empty.
pub fn env_kv(out: &mut Vec<(String, String)>, key: &str, value: Option<String>)
    ensures
        pairs(final(out)@) == pairs(old(out)@) + variable_rows(key@, text_opt(value)),
{
    if let Some(v) = value {
        if v.as_str().unicode_len() > 0 {
            push_pair(out, key, v);
        }
    }
    assert(pairs(out@) =~= pairs(old(out)@) + variable_rows(key@, text_opt(value)));
}

// ---------------------------------------------------------------------------
// Linux
// ---------------------------------------------------------------------------

/// What was read on Linux. A variable that is unset, or not valid text, is
/// `None`; so is a file that could not be read.
#[derive(Debug)]
pub struct LinuxProbe {
    /// The text of `/etc/os-release`.
    pub etc_os_release: Option<String>,
    /// The text of `/usr/lib/os-release`.
    pub usr_lib_os_release: Option<String>,
    /// `$XDG_CURRENT_DESKTOP`.
    pub xdg_current_desktop: Option<String>,
    /// `$XDG_SESSION_TYPE`.
    pub xdg_session_type: Option<String>,
    /// `$WAYLAND_DISPLAY`.
    pub wayland_display: Option<String>,
    /// `$DISPLAY`.
    pub display: Option<String>,
}

/// A value without its surrounding white space and, if it then stands in a pair
/// of like quotes, without those.
pub open spec fn unquoted(v: Seq<char>) -> Seq<char> {
    let t = trimmed(v);
    if t.len() >= 2 && ((t[0] == '"' && t.last() == '"') || (t[0] == '\'' && t.last() == '\'')) {
        t.subrange(1, t.len() - 1)
    } else {
        t
    }
}

/// Strip surrounding quotes (single or double) from an `os-release` value.
pub fn unquote(v: &str) -> (r: String)
    ensures
        r@ == unquoted(v@),
{
    let t = trim(v);
    let chars = chars_of(t.as_str());
    let n: usize = chars.len();
    if n >= 2 {
        let first: char = chars[0];
        let last: char = chars[n - 1];
        if (first == '"' && last == '"') || (first == '\'' && last == '\'') {
            return text_of(chars.as_slice(), 1, n - 1);
        }
    }
    t
}

/// The `KEY=value` assignment on a line, if there is one: comments, blank lines
/// and lines without `=` hold none.
pub open spec fn assignment(line: Seq<char>) -> Option<(Seq<char>, Seq<char>)> {
    let t = trimmed(line);
    if t.len() == 0 || t[0] == '#' {
        None
    } else {
        match cut_at_first(t, '=') {
            Some((key, value)) => Some((trimmed(key), unquoted(trimmed(value)))),
            None => None,
        }
    }
}

/// The value that the last assignment to a key gives it.
pub open spec fn assigned(lines: Seq<Seq<char>>, key: Seq<char>) -> Option<Seq<char>>
    decreases lines.len(),
{
    if lines.len() == 0 {
        None
    } else {
        match assignment(lines.last()) {
            Some((k, v)) if k == key => Some(v),
            _ => assigned(lines.drop_last(), key),
        }
    }
}

/// The name of the system that an `os-release` text gives: `PRETTY_NAME`, else
/// `ID` and `VERSION_ID` as far as they are there.
pub open spec fn os_name(text: Seq<char>) -> Option<Seq<char>> {
    let lines = lines_of(text);
    match (
        assigned(lines, "PRETTY_NAME"@),
        assigned(lines, "ID"@),
        assigned(lines, "VERSION_ID"@),
    ) {
        (Some(name), _, _) => Some(name),
        (None, Some(id), Some(v)) => Some(id + " "@ + v),
        (None, Some(id), None) => Some(id),
        (None, None, Some(v)) => Some(v),
        (None, None, None) => None,
    }
}

/// The `OS` row: from the first of the two files that could be read.
pub open spec fn os_rows(etc: Option<Seq<char>>, usr_lib: Option<Seq<char>>) -> Seq<Row> {
    let text = match etc {
        Some(t) => Some(t),
        None => usr_lib,
    };
    match text {
        Some(t) => match os_name(t) {
            Some(name) => seq![("OS"@, name)],
            None => Seq::empty(),
        },
        None => Seq::empty(),
    }
}

/// Read the assignment on one line.
fn parse_assignment(line: &str) -> (r: Option<(String, String)>)
    ensures
        match r {
            Some((k, v)) => assignment(line@) == Some((k@, v@)),
            None => assignment(line@) is None,
        },
{
    let t = trim(line);
    if t.as_str().unicode_len() == 0 || t.as_str().get_char(0) == '#' {
        return None;
    }
    match split_once(t.as_str(), '=') {
        Some((key, value)) => {
            let v = trim(value.as_str());
            Some((trim(key.as_str()), unquote(v.as_str())))
        },
        None => None,
    }
}

/// Append the `OS` row that the `os-release` files give, if any.
///
/// `/usr/lib/os-release` counts only where `/etc/os-release` could not be read.
pub fn os_release(out: &mut Vec<(String, String)>, etc: Option<String>, usr_lib: Option<String>)
    ensures
        pairs(final(out)@) == pairs(old(out)@) + os_rows(text_opt(etc), text_opt(usr_lib)),
{
    let text = match etc {
        Some(t) => t,
        None => match usr_lib {
            Some(t) => t,
            None => {
                assert(pairs(out@) + Seq::<Row>::empty() =~= pairs(out@));
                return ;
            },
        },
    };
    let lines = split_lines(text.as_str());
    let ghost all = lines_of(text@);
    let mut pretty: Option<String> = None;
    let mut id: Option<String> = None;
    let mut version_id: Option<String> = None;
    proof {
        reveal_strlit("PRETTY_NAME");
        reveal_strlit("ID");
        reveal_strlit("VERSION_ID");
        assert("PRETTY_NAME"@.len() == 11 && "ID"@.len() == 2 && "VERSION_ID"@.len() == 10);
        assert(all.take(0) =~= Seq::<Seq<char>>::empty());
    }
    let mut i: usize = 0;
    while i < lines.len()
        invariant
            texts(lines@) == all,
            0 <= i <= lines@.len(),
            "PRETTY_NAME"@ != "ID"@ && "PRETTY_NAME"@ != "VERSION_ID"@ && "ID"@ != "VERSION_ID"@,
            text_opt(pretty) == assigned(all.take(i as int), "PRETTY_NAME"@),
            text_opt(id) == assigned(all.take(i as int), "ID"@),
            text_opt(version_id) == assigned(all.take(i as int), "VERSION_ID"@),
        decreases lines.len() - i,
    {
        proof {
            let next = all.take(i as int + 1);
            assert(next.drop_last() =~= all.take(i as int));
            assert(next.last() == lines@[i as int]@);
        }
        if let Some((key, value)) = parse_assignment(lines[i].as_str()) {
            if same_text(key.as_str(), "PRETTY_NAME") {
                pretty = Some(value);
            } else if same_text(key.as_str(), "ID") {
                id = Some(value);
            } else if same_text(key.as_str(), "VERSION_ID") {
                version_id = Some(value);
            }
        }
        i = i + 1;
    }
    assert(all.take(all.len() as int) =~= all);
    if let Some(name) = pretty {
        push_pair(out, "OS", name);
    } else {
        let mut parts: Vec<String> = Vec::new();
        assert(texts(parts@) =~= Seq::<Seq<char>>::empty());
        if let Some(v) = id {
            push_text(&mut parts, v);
        }
        if let Some(v) = version_id {
            push_text(&mut parts, v);
        }
        assert(parts@.len() == texts(parts@).len());
        if parts.len() > 0 {
            proof {
                let p = texts(parts@);
                if p.len() == 2 {
                    assert(p.drop_last() =~= seq![p[0]]);
                    assert(joined(seq![p[0]], " "@) == p[0]);
                }
                assert(os_name(text@) == Some(joined(p, " "@)));
            }
            push_pair(out, "OS", join(parts.as_slice(), " "));
        }
    }
    assert(pairs(out@) =~= pairs(old(out)@) + os_rows(text_opt(etc), text_opt(usr_lib)));
}

/// The rows that a Linux probe gives.
pub open spec fn linux_rows(p: LinuxProbe) -> Seq<Row> {
    os_rows(text_opt(p.etc_os_release), text_opt(p.usr_lib_os_release)) + variable_rows(
        "XDG_CURRENT_DESKTOP"@,
        text_opt(p.xdg_current_desktop),
    ) + variable_rows("XDG_SESSION_TYPE"@, text_opt(p.xdg_session_type)) + variable_rows(
        "WAYLAND_DISPLAY"@,
        text_opt(p.wayland_display),
    ) + variable_rows("DISPLAY"@, text_opt(p.display))
}

/// Append the Linux rows.
pub fn collect_linux(out: &mut Vec<(String, String)>, p: LinuxProbe)
    ensures
        pairs(final(out)@) == pairs(old(out)@) + linux_rows(p),
{
    os_release(out, p.etc_os_release, p.usr_lib_os_release);
    env_kv(out, "XDG_CURRENT_DESKTOP", p.xdg_current_desktop);
    env_kv(out, "XDG_SESSION_TYPE", p.xdg_session_type);
    env_kv(out, "WAYLAND_DISPLAY", p.wayland_display);
    env_kv(out, "DISPLAY", p.display);
    assert(pairs(out@) =~= pairs(old(out)@) + linux_rows(p));
}

// ---------------------------------------------------------------------------
// Windows
// ---------------------------------------------------------------------------

/// The status with which a registry call reports success.
pub const ERROR_SUCCESS: u32 = 0;

/// The registry's type number for a string.
pub const REG_SZ: u32 = 1;

/// The registry's type number for a 32-bit number.
pub const REG_DWORD: u32 = 4;

/// The registry key that holds the version of Windows, below the local machine
/// key. Unlike the version calls, which are capped for programs without a
/// compatibility manifest, it is truthful.
pub const VERSION_KEY: &'static str = "SOFTWARE\\Microsoft\\Windows NT\\CurrentVersion";

/// What the registry answered when a 32-bit number was asked for.
#[derive(Debug, Clone, Copy)]
pub struct DwordReply {
    /// The call's status.
    pub status: u32,
    /// The type number of the value.
    pub value_type: u32,
    /// The first four bytes of the value.
    pub data: u32,
    /// The value's length in bytes.
    pub len: u32,
}

/// The number in a reply: only if the call succeeded and the value is a number
/// of four bytes.
pub open spec fn dword(reply: DwordReply) -> Option<u32> {
    if reply.status == ERROR_SUCCESS && reply.value_type == REG_DWORD && reply.len == 4 {
        Some(reply.data)
    } else {
        None
    }
}

/// Read a 32-bit number from the registry's reply.
pub fn query_u32(reply: DwordReply) -> (r: Option<u32>)
    ensures
        r == dword(reply),
{
    if reply.status != ERROR_SUCCESS || reply.value_type != REG_DWORD || reply.len != 4 {
        return None;
    }
    Some(reply.data)
}

/// What the registry answered when the size of a string was asked for.
#[derive(Debug, Clone, Copy)]
pub struct SizeReply {
    /// The call's status.
    pub status: u32,
    /// The type number of the value.
    pub value_type: u32,
    /// The value's length in bytes.
    pub len: u32,
}

/// What the registry answered when the contents of a string were asked for.
#[derive(Debug)]
pub struct ContentReply {
    /// The call's status.
    pub status: u32,
    /// The buffer after the call, with the number of units that was offered.
    pub units: Vec<u16>,
}

/// What to do after the size of a string is known.
#[derive(Debug, Clone, Copy, PartialEq, Eq, Structural)]
pub enum StringQuery {
    /// There is no such string.
    Absent,
    /// The string is empty; there is nothing to fetch.
    Empty,
    /// Fetch the contents into a buffer of this many units.
    Fetch(usize),
}

/// How the query goes on from a size reply.
pub open spec fn after_size(reply: SizeReply) -> StringQuery {
    if reply.status != ERROR_SUCCESS || reply.value_type != REG_SZ {
        StringQuery::Absent
    } else if reply.len == 0 {
        StringQuery::Empty
    } else {
        StringQuery::Fetch((reply.len / 2) as usize)
    }
}

/// Code units without a single zero unit at the end.
pub open spec fn without_nul(u: Seq<u16>) -> Seq<u16> {
    if u.len() > 0 && u.last() == 0 {
        u.drop_last()
    } else {
        u
    }
}

/// The string in a content reply: one zero unit at the end is not part of it,
/// and text that is not valid UTF-16 is no string.
pub open spec fn content_text(status: u32, units: Seq<u16>) -> Option<Seq<char>> {
    if status != ERROR_SUCCESS {
        None
    } else {
        from_units(without_nul(units))
    }
}

/// Decide how to read a string once its size is known.
pub fn query_string_size(reply: SizeReply) -> (r: StringQuery)
    ensures
        r == after_size(reply),
{
    if reply.status != ERROR_SUCCESS || reply.value_type != REG_SZ {
        return StringQuery::Absent;
    }
    if reply.len == 0 {
        return StringQuery::Empty;
    }
    StringQuery::Fetch((reply.len / 2) as usize)
}

/// Read a string from the registry's replies: its size, and its contents where
/// [`query_string_size`] asked for them.
pub fn query_string(size: SizeReply, content: Option<ContentReply>) -> (r: Option<String>)
    ensures
        match after_size(size) {
            StringQuery::Absent => r is None,
            StringQuery::Empty => r is Some && r.unwrap()@ == Seq::<char>::empty(),
            StringQuery::Fetch(_) => match content {
                Some(c) => text_opt(r) == content_text(c.status, c.units@),
                None => r is None,
            },
        },
{
    match query_string_size(size) {
        StringQuery::Absent => None,
        StringQuery::Empty => Some(String::new()),
        StringQuery::Fetch(_) => match content {
            Some(c) => {
                if c.status != ERROR_SUCCESS {
                    return None;
                }
                let mut units = c.units;
                if units.len() > 0 && units[units.len() - 1] == 0 {
                    let _ = units.pop();
                }
                assert(units@ =~= without_nul(c.units@));
                decode_utf16(units.as_slice())
            },
            None => None,
        },
    }
}

/// The values that make up the version of Windows, as far as they could be
/// read.
#[derive(Debug)]
pub struct VersionProbe {
    /// `CurrentMajorVersionNumber`.
    pub major: Option<u32>,
    /// `CurrentMinorVersionNumber`.
    pub minor: Option<u32>,
    /// `CurrentBuild`.
    pub build: Option<String>,
    /// `UBR`, the update build revision.
    pub ubr: Option<u32>,
}

/// `major.minor.build.ubr`, the last part left out where it is unknown.
pub open spec fn version_text(p: Option<VersionProbe>) -> Seq<char> {
    match p {
        Some(VersionProbe { major: Some(maj), minor: Some(min), build: Some(bld), ubr }) => {
            let base = decimal_text(maj as nat) + "."@ + decimal_text(min as nat) + "."@ + bld@;
            match ubr {
                Some(u) => base + "."@ + decimal_text(u as nat),
                None => base,
            }
        },
        _ => "version unavailable"@,
    }
}

/// Append the `Windows` row. `probe` is `None` if the version key could not be
/// opened.
pub fn version(out: &mut Vec<(String, String)>, probe: Option<VersionProbe>)
    ensures
        pairs(final(out)@) == pairs(old(out)@).push(("Windows"@, version_text(probe))),
{
    let rendered = match probe {
        Some(VersionProbe { major: Some(maj), minor: Some(min), build: Some(bld), ubr }) => {
            let base = decimal(maj as u64).concat(".").concat(decimal(min as u64).as_str()).concat(
                ".",
            ).concat(bld.as_str());
            match ubr {
                Some(u) => base.concat(".").concat(decimal(u as u64).as_str()),
                None => base,
            }
        },
        _ => "version unavailable".to_string(),
    };
    push_pair(out, "Windows", rendered);
}

/// The system's power status.
#[derive(Debug, Clone, Copy)]
pub struct PowerStatus {
    /// 0 on battery, 1 on mains, anything else unknown.
    pub ac_line_status: u8,
    /// 128 if the machine has no battery.
    pub battery_flag: u8,
    /// Charge in percent; above 100 if unknown.
    pub battery_life_percent: u8,
}

/// The name of the power source.
pub open spec fn power_source(s: PowerStatus) -> Seq<char> {
    if s.ac_line_status == 0 {
        "battery"@
    } else if s.ac_line_status == 1 {
        "AC"@
    } else {
        "unknown"@
    }
}

/// What is known of the battery.
pub open spec fn battery_text(s: PowerStatus) -> Seq<char> {
    if s.battery_flag == 128 {
        "no system battery"@
    } else if s.battery_life_percent <= 100 {
        decimal_text(s.battery_life_percent as nat) + "%"@
    } else {
        "unknown"@
    }
}

/// The rows that the power status gives.
pub open spec fn power_rows(s: Option<PowerStatus>) -> Seq<Row> {
    match s {
        None => seq![("Power"@, "status unavailable"@)],
        Some(s) => seq![
            ("Power"@, power_source(s)),
            ("Battery"@, battery_text(s)),
            (
                "ModernStandby"@,
                "on DC, Windows may terminate power requests after the sleep timeout; user-initiated sleep clears requests"@,
            ),
        ],
    }
}

/// Append the power rows. `status` is `None` if it could not be read.
pub fn power(out: &mut Vec<(String, String)>, status: Option<PowerStatus>)
    ensures
        pairs(final(out)@) == pairs(old(out)@) + power_rows(status),
{
    match status {
        None => {
            push_pair(out, "Power", "status unavailable".to_string());
        },
        Some(s) => {
            let source = match s.ac_line_status {
                0 => "battery",
                1 => "AC",
                _ => "unknown",
            };
            push_pair(out, "Power", source.to_string());
            if s.battery_flag != 128 {
                if s.battery_life_percent <= 100 {
                    push_pair(
                        out,
                        "Battery",
                        decimal(s.battery_life_percent as u64).concat("%"),
                    );
                } else {
                    push_pair(out, "Battery", "unknown".to_string());
                }
            } else {
                push_pair(out, "Battery", "no system battery".to_string());
            }
            push_pair(
                out,
                "ModernStandby",
                "on DC, Windows may terminate power requests after the sleep timeout; user-initiated sleep clears requests".to_string(),
            );
        },
    }
    assert(pairs(out@) =~= pairs(old(out)@) + power_rows(status));
}

/// What was read on Windows.
#[derive(Debug)]
pub struct WindowsProbe {
    /// The version values; `None` if the version key could not be opened.
    pub version: Option<VersionProbe>,
    /// The power status; `None` if it could not be read.
    pub power: Option<PowerStatus>,
    /// `%LOCALAPPDATA%`.
    pub local_app_data: Option<String>,
}

/// The rows that a Windows probe gives.
pub open spec fn windows_rows(p: WindowsProbe) -> Seq<Row> {
    seq![("Windows"@, version_text(p.version))] + power_rows(p.power) + variable_rows(
        "LOCALAPPDATA"@,
        text_opt(p.local_app_data),
    )
}

/// Append the Windows rows.
pub fn collect_windows(out: &mut Vec<(String, String)>, p: WindowsProbe)
    ensures
        pairs(final(out)@) == pairs(old(out)@) + windows_rows(p),
{
    version(out, p.version);
    power(out, p.power);
    env_kv(out, "LOCALAPPDATA", p.local_app_data);
    assert(pairs(out@) =~= pairs(old(out)@) + windows_rows(p));
}

// ---------------------------------------------------------------------------
// The whole report
// ---------------------------------------------------------------------------

/// What was read of the environment.
#[derive(Debug)]
pub enum EnvProbe {
    /// On Linux.
    Linux(LinuxProbe),
    /// On Windows.
    Windows(WindowsProbe),
    /// On a platform without probes.
    Unsupported,
}

/// The platform that a probe was made on.
pub open spec fn probe_platform(p: EnvProbe) -> Platform {
    match p {
        EnvProbe::Linux(_) => Platform::Linux,
        EnvProbe::Windows(_) => Platform::Windows,
        EnvProbe::Unsupported => Platform::Unsupported,
    }
}

/// The rows that a probe gives.
pub open spec fn probe_rows(p: EnvProbe) -> Seq<Row> {
    match p {
        EnvProbe::Linux(l) => linux_rows(l),
        EnvProbe::Windows(w) => windows_rows(w),
        EnvProbe::Unsupported => Seq::empty(),
    }
}

/// Collect the environment rows of a probe.
pub fn collect_env(probe: EnvProbe) -> (r: Vec<(String, String)>)
    ensures
        pairs(r@) == probe_rows(probe),
{
    let mut out: Vec<(String, String)> = Vec::new();
    let ghost start = pairs(out@);
    assert(forall|x: Seq<Row>| start + x =~= x);
    match probe {
        EnvProbe::Linux(l) => collect_linux(&mut out, l),
        EnvProbe::Windows(w) => collect_windows(&mut out, w),
        EnvProbe::Unsupported => {
            assert(pairs(out@) =~= Seq::<Row>::empty());
        },
    }
    out
}

/// Put the doctor report together.
pub fn run_doctor(probe: EnvProbe, backends: Vec<DoctorReport>) -> (r: DoctorOutput)
    ensures
        r@ == (DoctorOutputView {
            platform: platform_name(probe_platform(probe)),
            env: probe_rows(probe),
            backends: reports(backends@),
        }),
{
    let platform = match &probe {
        EnvProbe::Linux(_) => Platform::Linux,
        EnvProbe::Windows(_) => Platform::Windows,
        EnvProbe::Unsupported => Platform::Unsupported,
    };
    DoctorOutput {
        platform: DoctorOutput::platform_string(platform).to_string(),
        env: collect_env(probe),
        backends,
    }
}

} // verus!
