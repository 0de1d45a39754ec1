//! Snapshots and paths.

use oxiwake::daemon::client::pending_request;
use oxiwake::error::{IoError, IoErrorKind, OxiwakeError};
use oxiwake::model::WakeRequest;
use oxiwake::paths::{
    base_dir_relative_message, base_dir_unset_message, is_absolute, pending_path_for,
    startup_error_path, tighten_mode, Paths,
};
use oxiwake::platform::Platform;
use oxiwake::state::{tmp_path_for, JsonRead, LockState, WriteState};

fn io(kind: IoErrorKind) -> IoError {
    IoError {
        kind,
        message: "io".to_string(),
    }
}

#[test]
fn a_missing_snapshot_is_none() {
    let r = LockState::read(JsonRead::Failed(io(IoErrorKind::NotFound)));
    assert!(r.expect("read").is_none());
    LockState::remove(Err(io(IoErrorKind::NotFound))).expect("remove");
    LockState::remove(Ok(())).expect("remove");
    assert!(matches!(
        LockState::remove(Err(io(IoErrorKind::Other))),
        Err(OxiwakeError::Io(_))
    ));
}

#[test]
fn a_snapshot_is_handed_through() {
    let st = LockState {
        pid: 4242,
        backend: "systemd-logind".to_string(),
        started_unix: 1_700_000_000,
        request: WakeRequest::default_linux(),
    };
    let back = LockState::read(JsonRead::Value(st)).expect("read").expect("some");
    assert_eq!(back.pid, 4242);
    assert_eq!(back.backend, "systemd-logind");
    assert_eq!(back.started_unix, 1_700_000_000);
}

#[test]
fn a_corrupt_snapshot_is_an_error() {
    let r = LockState::read(JsonRead::Malformed {
        path: "/run/state.json".to_string(),
        error: "expected value".to_string(),
    });
    match r {
        Err(OxiwakeError::State(m)) => {
            assert_eq!(m, "could not parse /run/state.json: expected value");
        }
        other => panic!("expected an error, got {:?}", other),
    }
    assert!(matches!(
        LockState::read(JsonRead::Failed(io(IoErrorKind::Other))),
        Err(OxiwakeError::Io(_))
    ));
}

/// The two files of a write, as they stand while it goes on.
#[derive(Default)]
struct Files {
    target: Option<Vec<u8>>,
    sibling: Option<Vec<u8>>,
}

fn write(files: &mut Files, bytes: &[u8], failing: Option<usize>) -> Result<(), OxiwakeError> {
    let (bytes, mut state) = LockState::write(Ok(bytes.to_vec())).unwrap();
    let mut step = 0;
    loop {
        let ok = failing != Some(step);
        step += 1;
        match state {
            WriteState::Writing => {
                files.sibling = Some(if ok { bytes.clone() } else { bytes[..1].to_vec() });
            }
            WriteState::Renaming => {
                if ok {
                    files.target = files.sibling.take();
                }
            }
            WriteState::CleaningUp(_) => files.sibling = None,
            WriteState::Finished(r) => return r,
        }
        state = state.next(if ok { Ok(()) } else { Err(io(IoErrorKind::Other)) });
    }
}

#[test]
fn writes_are_atomic() {
    let mut files = Files::default();
    assert!(write(&mut files, b"old", None).is_ok());
    assert_eq!(files.target.as_deref(), Some(&b"old"[..]));
    for failing in [0, 1] {
        assert!(matches!(
            write(&mut files, b"new", Some(failing)),
            Err(OxiwakeError::Io(_))
        ));
        assert_eq!(files.target.as_deref(), Some(&b"old"[..]));
        assert!(files.sibling.is_none());
    }
    assert!(write(&mut files, b"new", None).is_ok());
    assert_eq!(files.target.as_deref(), Some(&b"new"[..]));
    assert!(files.sibling.is_none());
    match LockState::write(Err("cyclic".to_string())) {
        Err(OxiwakeError::State(m)) => assert_eq!(m, "could not serialize state: cyclic"),
        other => panic!("expected an error, got {:?}", other),
    }
    assert_eq!(tmp_path_for(b"/d/state.json"), b"/d/state.json.tmp".to_vec());
}

/// A snapshot as bytes, and back.
fn encode(st: &LockState) -> Vec<u8> {
    let mut v = serde_json::Map::new();
    v.insert("pid".to_string(), st.pid.into());
    v.insert("backend".to_string(), st.backend.clone().into());
    v.insert("started_unix".to_string(), st.started_unix.into());
    v.insert("reason".to_string(), st.request.reason.clone().into());
    serde_json::to_vec(&v).unwrap()
}

fn decode(bytes: &[u8]) -> LockState {
    let v: serde_json::Value = serde_json::from_slice(bytes).unwrap();
    let mut request = WakeRequest::default_linux();
    request.reason = v["reason"].as_str().unwrap().to_string();
    LockState {
        pid: v["pid"].as_u64().unwrap() as u32,
        backend: v["backend"].as_str().unwrap().to_string(),
        started_unix: v["started_unix"].as_u64().unwrap(),
        request,
    }
}

#[test]
fn what_was_written_is_read_back() {
    let st = LockState {
        pid: 4242,
        backend: "systemd-logind".to_string(),
        started_unix: 1_700_000_000,
        request: WakeRequest::default_linux(),
    };
    let mut files = Files::default();
    write(&mut files, &encode(&st), None).unwrap();
    let outcome = JsonRead::Value(decode(files.target.as_deref().unwrap()));
    let back = LockState::read(outcome).unwrap().unwrap();
    assert_eq!(back.pid, st.pid);
    assert_eq!(back.backend, st.backend);
    assert_eq!(back.started_unix, st.started_unix);
    assert_eq!(back.request.targets, st.request.targets);
    assert_eq!(back.request.reason, st.request.reason);
}

#[test]
fn linux_paths() {
    let paths = Paths::resolve(Platform::Linux, Some(b"/run/user/1000".to_vec())).unwrap();
    assert_eq!(paths.dir, b"/run/user/1000/oxiwake".to_vec());
    assert_eq!(paths.state, b"/run/user/1000/oxiwake/state.json".to_vec());
    assert_eq!(paths.socket, b"/run/user/1000/oxiwake/oxiwake.sock".to_vec());
    assert_eq!(paths.pending, b"/run/user/1000/oxiwake/pending.json".to_vec());
    assert_eq!(paths.lock, b"/run/user/1000/oxiwake/oxiwake.lock".to_vec());
    assert_eq!(
        Paths::runtime_dir_or_none(Platform::Linux, Some(b"/run/user/1000".to_vec())),
        Some(b"/run/user/1000".to_vec())
    );
    for (base, dir) in [("/run/", "/run/oxiwake"), ("/run//", "/run//oxiwake"), ("/", "/oxiwake")] {
        let paths = Paths::resolve(Platform::Linux, Some(base.as_bytes().to_vec())).unwrap();
        assert_eq!(paths.dir, dir.as_bytes().to_vec());
        let std_dir = std::path::Path::new(base).join("oxiwake");
        assert_eq!(std_dir.to_str(), Some(dir));
    }
}

#[test]
fn windows_paths() {
    let base = Some(br"C:\Users\me\AppData\Local".to_vec());
    let paths = Paths::resolve(Platform::Windows, base).unwrap();
    assert_eq!(
        paths.state,
        br"C:\Users\me\AppData\Local\Freeoxide\Oxiwake\state.json".to_vec()
    );
    for (base, dir) in [
        (r"C:\", r"C:\Freeoxide\Oxiwake"),
        ("C:/x/", r"C:/x/Freeoxide\Oxiwake"),
        (r"\\server\share", r"\\server\share\Freeoxide\Oxiwake"),
        (r"\\?\C:\x", r"\\?\C:\x\Freeoxide\Oxiwake"),
    ] {
        assert_eq!(
            Paths::runtime_dir_or_none(Platform::Windows, Some(base.as_bytes().to_vec())),
            Some(dir.as_bytes().to_vec())
        );
    }
}

#[test]
fn an_unset_base_is_a_state_error() {
    for p in [Platform::Linux, Platform::Windows, Platform::Unsupported] {
        match Paths::resolve(p, None) {
            Err(OxiwakeError::State(m)) => assert_eq!(m, base_dir_unset_message(p)),
            other => panic!("expected an error, got {:?}", other),
        }
        assert_eq!(Paths::runtime_dir_or_none(p, None), None);
    }
    assert!(base_dir_unset_message(Platform::Linux).starts_with("XDG_RUNTIME_DIR is not set; "));
    assert!(Paths::resolve(Platform::Unsupported, Some(b"/x".to_vec())).is_err());
}

#[test]
fn a_base_that_is_not_absolute_is_a_state_error() {
    let cases = [
        (Platform::Linux, vec!["", "run", "./run", "~/run"]),
        (
            Platform::Windows,
            vec!["", "C:", "C:x", r"\x", "x", r"\\", r"\\server", r"\\server\", r"\\\share", "/x"],
        ),
    ];
    for (p, bases) in cases {
        for base in bases {
            let bytes = base.as_bytes().to_vec();
            assert!(!is_absolute(p, &bytes), "{:?} {}", p, base);
            assert_eq!(Paths::runtime_dir_or_none(p, Some(bytes.clone())), None);
            match Paths::resolve(p, Some(bytes)) {
                Err(OxiwakeError::State(m)) => assert_eq!(m, base_dir_relative_message(p)),
                other => panic!("expected an error for {}, got {:?}", base, other),
            }
        }
    }
}

#[test]
fn located_paths_are_absolute() {
    for (p, base) in [
        (Platform::Linux, "/run/user/1000"),
        (Platform::Windows, r"C:\Users\me"),
        (Platform::Windows, r"\\server\share"),
    ] {
        let f = Paths::resolve(p, Some(base.as_bytes().to_vec())).unwrap();
        for path in [&f.dir, &f.state, &f.socket, &f.pending, &f.lock] {
            assert!(is_absolute(p, path));
        }
    }
}

#[test]
fn hand_off_files_are_kept_apart() {
    assert_eq!(
        pending_path_for(Platform::Linux, b"/d", 42),
        b"/d/pending.42.json".to_vec()
    );
    assert_ne!(
        pending_path_for(Platform::Linux, b"/d", 4),
        pending_path_for(Platform::Linux, b"/d", 44)
    );
    assert_eq!(
        startup_error_path(Platform::Linux, b"/d"),
        b"/d/startup_error".to_vec()
    );
    let pending = pending_request(&WakeRequest::default_linux(), 7);
    assert_eq!(pending.started_unix, 7);
    assert_eq!(pending.request.logind_what(), "sleep:idle");
}

#[test]
fn a_loose_directory_is_tightened() {
    assert_eq!(tighten_mode(0o40700), None);
    assert_eq!(tighten_mode(0o40755), Some(0o700));
    assert_eq!(tighten_mode(0o40600), Some(0o700));
}
