//! The environment part of the doctor report.

use oxiwake::doctor::{
    collect_env, os_release, query_string, query_string_size, query_u32, run_doctor, unquote,
    ContentReply, DoctorOutput, DwordReply, EnvProbe, LinuxProbe, PowerStatus, SizeReply,
    StringQuery, VersionProbe, WindowsProbe,
};
use oxiwake::model::DoctorReport;
use oxiwake::platform::Platform;

fn text(s: &str) -> String {
    s.to_string()
}

fn os_row(etc: Option<&str>, usr_lib: Option<&str>) -> Vec<(String, String)> {
    let mut rows = Vec::new();
    os_release(&mut rows, etc.map(text), usr_lib.map(text));
    rows
}

#[test]
fn the_pretty_name_comes_first() {
    let file = "# comment\nID=debian\n\nPRETTY_NAME=\"Debian GNU/Linux 12\"\r\nVERSION_ID='12'\n";
    assert_eq!(
        os_row(Some(file), None),
        vec![(text("OS"), text("Debian GNU/Linux 12"))]
    );
}

#[test]
fn the_id_stands_in_for_the_pretty_name() {
    assert_eq!(
        os_row(Some("ID=alpine\nVERSION_ID=3.19\n"), None),
        vec![(text("OS"), text("alpine 3.19"))]
    );
    assert_eq!(os_row(Some("ID=arch"), None), vec![(text("OS"), text("arch"))]);
    assert_eq!(
        os_row(Some("VERSION_ID=7"), None),
        vec![(text("OS"), text("7"))]
    );
    assert_eq!(os_row(Some("NAME=x\njunk\n#ID=y\n"), None), vec![]);
}

#[test]
fn the_last_assignment_counts() {
    assert_eq!(
        os_row(Some(" ID = a \nID=b=c\n"), None),
        vec![(text("OS"), text("b=c"))]
    );
}

#[test]
fn the_second_file_is_a_fallback() {
    assert_eq!(
        os_row(None, Some("ID=x")),
        vec![(text("OS"), text("x"))]
    );
    assert_eq!(os_row(Some(""), Some("ID=x")), vec![]);
    assert_eq!(os_row(None, None), vec![]);
}

#[test]
fn quotes_come_off_in_pairs() {
    assert_eq!(unquote("\"a b\""), "a b");
    assert_eq!(unquote("'a'"), "a");
    assert_eq!(unquote("\"a'"), "\"a'");
    assert_eq!(unquote("\""), "\"");
    assert_eq!(unquote("\"\""), "");
    assert_eq!(unquote(" é "), "é");
    assert_eq!(unquote("\" a \""), " a ");
}

#[test]
fn linux_rows_come_in_order_and_skip_what_is_empty() {
    let rows = collect_env(EnvProbe::Linux(LinuxProbe {
        etc_os_release: Some(text("ID=x")),
        usr_lib_os_release: None,
        xdg_current_desktop: Some(text("GNOME")),
        xdg_session_type: Some(text("")),
        wayland_display: None,
        display: Some(text(":0")),
    }));
    assert_eq!(
        rows,
        vec![
            (text("OS"), text("x")),
            (text("XDG_CURRENT_DESKTOP"), text("GNOME")),
            (text("DISPLAY"), text(":0")),
        ]
    );
}

#[test]
fn windows_rows() {
    let rows = collect_env(EnvProbe::Windows(WindowsProbe {
        version: Some(VersionProbe {
            major: Some(10),
            minor: Some(0),
            build: Some(text("22631")),
            ubr: Some(3007),
        }),
        power: Some(PowerStatus {
            ac_line_status: 0,
            battery_flag: 1,
            battery_life_percent: 87,
        }),
        local_app_data: Some(text("C:\\x")),
    }));
    assert_eq!(rows[0], (text("Windows"), text("10.0.22631.3007")));
    assert_eq!(rows[1], (text("Power"), text("battery")));
    assert_eq!(rows[2], (text("Battery"), text("87%")));
    assert_eq!(rows[3].0, "ModernStandby");
    assert_eq!(
        rows[3].1,
        "on DC, Windows may terminate power requests after the sleep timeout; \
         user-initiated sleep clears requests"
    );
    assert_eq!(rows[4], (text("LOCALAPPDATA"), text("C:\\x")));
    assert_eq!(rows.len(), 5);
}

#[test]
fn windows_rows_without_data() {
    let rows = collect_env(EnvProbe::Windows(WindowsProbe {
        version: None,
        power: None,
        local_app_data: None,
    }));
    assert_eq!(
        rows,
        vec![
            (text("Windows"), text("version unavailable")),
            (text("Power"), text("status unavailable")),
        ]
    );
}

fn battery(flag: u8, percent: u8) -> Vec<(String, String)> {
    let mut rows = collect_env(EnvProbe::Windows(WindowsProbe {
        version: Some(VersionProbe {
            major: Some(6),
            minor: None,
            build: None,
            ubr: None,
        }),
        power: Some(PowerStatus {
            ac_line_status: 255,
            battery_flag: flag,
            battery_life_percent: percent,
        }),
        local_app_data: None,
    }));
    rows.truncate(3);
    rows
}

#[test]
fn battery_states() {
    assert_eq!(
        battery(128, 50),
        vec![
            (text("Windows"), text("version unavailable")),
            (text("Power"), text("unknown")),
            (text("Battery"), text("no system battery")),
        ]
    );
    assert_eq!(battery(0, 100)[2].1, "100%");
    assert_eq!(battery(0, 101)[2].1, "unknown");
}

#[test]
fn registry_numbers() {
    let reply = DwordReply {
        status: 0,
        value_type: 4,
        data: 7,
        len: 4,
    };
    assert_eq!(query_u32(reply), Some(7));
    assert_eq!(query_u32(DwordReply { status: 2, ..reply }), None);
    assert_eq!(query_u32(DwordReply { value_type: 1, ..reply }), None);
    assert_eq!(query_u32(DwordReply { len: 8, ..reply }), None);
}

#[test]
fn registry_strings() {
    let size = SizeReply {
        status: 0,
        value_type: 1,
        len: 6,
    };
    assert_eq!(query_string_size(size), StringQuery::Fetch(3));
    let content = |units: Vec<u16>| Some(ContentReply { status: 0, units });
    assert_eq!(
        query_string(size, content(vec![0x31, 0x32, 0])).as_deref(),
        Some("12")
    );
    assert_eq!(
        query_string(size, content(vec![0x31, 0x32, 0x33])).as_deref(),
        Some("123")
    );
    assert_eq!(
        query_string(size, content(vec![0x31, 0, 0])).as_deref(),
        Some("1\0")
    );
    assert_eq!(query_string(size, content(vec![0xd800])), None);
    let failed = Some(ContentReply {
        status: 5,
        units: vec![0x31],
    });
    assert_eq!(query_string(size, failed), None);
    let empty = SizeReply { len: 0, ..size };
    assert_eq!(query_string(empty, None).as_deref(), Some(""));
    let number = SizeReply {
        value_type: 4,
        ..size
    };
    assert_eq!(query_string(number, content(vec![0x31])), None);
}

#[test]
fn the_whole_report() {
    let out = run_doctor(
        EnvProbe::Unsupported,
        vec![DoctorReport::not_compiled("x")],
    );
    assert_eq!(out.platform, "unknown");
    assert!(out.env.is_empty());
    assert_eq!(out.backends.len(), 1);
    assert_eq!(DoctorOutput::platform_string(Platform::Linux), "linux");
    assert_eq!(DoctorOutput::platform_string(Platform::Windows), "windows");
}
