//! Framing of messages.

use oxiwake::error::{IoError, IoErrorKind, OxiwakeError, Result};
use oxiwake::ipc::{
    parse_failure, read_msg, write_msg, ClientMsg, DaemonReply, LineReader, LineStep, ReadEvent,
};
use oxiwake::model::{WakeMode, WakeStatus, WakeTarget};

/// Read one line from the bytes at `*at`, as from a stream that then ends.
fn line_from(bytes: &[u8], at: &mut usize) -> Result<Vec<u8>> {
    let mut reader = LineReader::new();
    loop {
        let event = if *at < bytes.len() {
            *at += 1;
            ReadEvent::Byte(bytes[*at - 1])
        } else {
            ReadEvent::Eof
        };
        match reader.read_line(event) {
            LineStep::More => {}
            LineStep::Line(line) => return Ok(line),
            LineStep::Failed(e) => return Err(e),
        }
    }
}

fn receive(bytes: &[u8]) -> Result<Vec<u8>> {
    let mut at = 0;
    read_msg(&line_from(bytes, &mut at)?)
}

fn to_json(msg: ClientMsg) -> Vec<u8> {
    let name = match msg {
        ClientMsg::Ping => "Ping",
        ClientMsg::Status => "Status",
        ClientMsg::Stop => "Stop",
    };
    serde_json::to_vec(&serde_json::Value::from(name)).unwrap()
}

fn from_json(bytes: &[u8]) -> ClientMsg {
    let value: serde_json::Value = serde_json::from_slice(bytes).unwrap();
    match value.as_str() {
        Some("Ping") => ClientMsg::Ping,
        Some("Status") => ClientMsg::Status,
        Some("Stop") => ClientMsg::Stop,
        other => panic!("not a message: {:?}", other),
    }
}

#[test]
fn roundtrip_client_msg() {
    for msg in [ClientMsg::Ping, ClientMsg::Status, ClientMsg::Stop] {
        let buf = write_msg(Ok(to_json(msg))).unwrap();
        assert_eq!(buf.last(), Some(&b'\n'));
        let back = from_json(&receive(&buf).unwrap());
        assert_eq!(back, msg);
    }
}

#[test]
fn roundtrip_daemon_reply() {
    let reply = DaemonReply::ok_ping(
        WakeStatus {
            backend: "systemd-logind".to_string(),
            targets: vec![WakeTarget::SystemSleep],
            mode: WakeMode::Block,
            display: false,
        },
        4242,
    );
    let status = reply.status.as_ref().unwrap();
    let mut inner = serde_json::Map::new();
    inner.insert("backend".to_string(), status.backend.clone().into());
    inner.insert(
        "targets".to_string(),
        vec![status.targets[0].wire_name()].into(),
    );
    inner.insert("mode".to_string(), status.mode.as_str().into());
    inner.insert("display".to_string(), status.display.into());
    let mut outer = serde_json::Map::new();
    outer.insert("ok".to_string(), reply.ok.into());
    outer.insert("status".to_string(), serde_json::Value::Object(inner));
    outer.insert("pid".to_string(), reply.pid.unwrap().into());

    let buf = write_msg(Ok(serde_json::to_vec(&outer).unwrap())).unwrap();
    let back: serde_json::Value = serde_json::from_slice(&receive(&buf).unwrap()).unwrap();
    assert_eq!(back["ok"], true);
    assert_eq!(back["pid"], 4242);
    assert!(back.get("status").is_some());
    assert!(back.get("error").is_none());
    assert_eq!(back["status"]["backend"], "systemd-logind");
}

#[test]
fn tolerates_trailing_whitespace_and_crlf() {
    let mut buf = write_msg(Ok(to_json(ClientMsg::Ping))).unwrap();
    // Clobber the trailing `\n` with a CRLF + spaces to simulate a noisy
    // transport. The Ping must still be recovered.
    buf.pop();
    buf.extend_from_slice(b" \r\n  ");
    let back = from_json(&receive(&buf).unwrap());
    assert_eq!(back, ClientMsg::Ping);
}

#[test]
fn eof_with_no_data_is_not_running() {
    let err = receive(&[]);
    assert!(matches!(err, Err(OxiwakeError::NotRunning)));
}

#[test]
fn empty_frame_is_ipc_error() {
    let err = receive(b"\n");
    assert!(matches!(err, Err(OxiwakeError::Ipc(_))));
}

#[test]
fn an_empty_frame_is_explained() {
    match receive(b" \t\r\n") {
        Err(OxiwakeError::Ipc(m)) => assert_eq!(m, "received an empty IPC frame"),
        other => panic!("expected an error, got {:?}", other),
    }
}

#[test]
fn a_line_cut_short_is_kept() {
    assert_eq!(receive(b"\"Ping\"").unwrap(), b"\"Ping\"".to_vec());
}

#[test]
fn frames_are_read_one_after_the_other() {
    let mut bytes = write_msg(Ok(b"one".to_vec())).unwrap();
    bytes.extend(write_msg(Ok(b"two".to_vec())).unwrap());
    let mut at = 0;
    assert_eq!(line_from(&bytes, &mut at).unwrap(), b"one".to_vec());
    assert_eq!(line_from(&bytes, &mut at).unwrap(), b"two".to_vec());
    assert!(matches!(
        line_from(&bytes, &mut at),
        Err(OxiwakeError::NotRunning)
    ));
}

#[test]
fn messages_are_read_in_the_order_they_were_written() {
    for first in [ClientMsg::Ping, ClientMsg::Status, ClientMsg::Stop] {
        for second in [ClientMsg::Ping, ClientMsg::Status, ClientMsg::Stop] {
            let mut bytes = write_msg(Ok(to_json(first))).unwrap();
            bytes.extend(write_msg(Ok(to_json(second))).unwrap());
            let mut at = 0;
            let line = line_from(&bytes, &mut at).unwrap();
            assert_eq!(from_json(&read_msg(&line).unwrap()), first);
            let line = line_from(&bytes, &mut at).unwrap();
            assert_eq!(from_json(&read_msg(&line).unwrap()), second);
            assert!(matches!(
                line_from(&bytes, &mut at),
                Err(OxiwakeError::NotRunning)
            ));
        }
    }
}

fn failure(kind: IoErrorKind) -> ReadEvent {
    ReadEvent::Failed(IoError {
        kind,
        message: "read failed".to_string(),
    })
}

#[test]
fn interrupted_reads_are_tried_again() {
    let mut reader = LineReader::new();
    assert!(matches!(reader.read_line(ReadEvent::Byte(b'a')), LineStep::More));
    assert!(matches!(
        reader.read_line(failure(IoErrorKind::Interrupted)),
        LineStep::More
    ));
    assert!(matches!(reader.read_line(ReadEvent::Byte(b'b')), LineStep::More));
    match reader.read_line(ReadEvent::Byte(b'\n')) {
        LineStep::Line(line) => assert_eq!(line, b"ab".to_vec()),
        other => panic!("expected a line, got {:?}", other),
    }
}

#[test]
fn other_read_failures_end_the_line() {
    let mut reader = LineReader::new();
    match reader.read_line(failure(IoErrorKind::TimedOut)) {
        LineStep::Failed(OxiwakeError::Io(e)) => {
            assert_eq!(e.kind, IoErrorKind::TimedOut);
            assert_eq!(e.message, "read failed");
        }
        other => panic!("expected a failure, got {:?}", other),
    }
}

#[test]
fn a_message_that_cannot_be_serialized_is_an_ipc_error() {
    match write_msg(Err("too deep".to_string())) {
        Err(OxiwakeError::Ipc(m)) => assert_eq!(m, "could not serialize message: too deep"),
        other => panic!("expected an error, got {:?}", other),
    }
}

#[test]
fn a_malformed_frame_is_shown_escaped() {
    let body = b"{\"a\"\t\xff";
    let expected = format!(
        "could not parse IPC frame (bad): {:?}",
        String::from_utf8_lossy(body)
    );
    match parse_failure("bad", body) {
        OxiwakeError::Ipc(m) => {
            assert_eq!(m, expected);
            assert_eq!(m, "could not parse IPC frame (bad): \"{\\\"a\\\"\\t\u{fffd}\"");
        }
        other => panic!("expected an error, got {:?}", other),
    }
}

#[test]
fn a_failure_reply_says_nothing_but_its_error() {
    let reply = DaemonReply::err("no".to_string());
    assert!(!reply.ok);
    assert_eq!(reply.error.as_deref(), Some("no"));
    assert!(reply.status.is_none());
    assert!(reply.pid.is_none());
    let empty = DaemonReply::ok_empty();
    assert!(empty.ok && empty.error.is_none() && empty.status.is_none() && empty.pid.is_none());
}
