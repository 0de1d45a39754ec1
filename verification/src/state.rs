//! The persistent snapshot of the lock a daemon holds.
//!
//! A running daemon keeps a small [`LockState`] in `state.json`, so that the
//! lock can be reported without asking the daemon. The rules here:
//!
//! - an absent file is no snapshot, not an error;
//! - a file that is there but cannot be parsed is an error;
//! - a snapshot is written to a sibling file and moved into place, so that a
//!   reader sees the old snapshot or the new one and nothing in between;
//! - removing an absent file succeeds.

use crate::error::{ErrorView, IoError, IoErrorKind, OxiwakeError, Result};
use crate::model::{WakeRequest, WakeRequestView};
use vstd::prelude::*;
use vstd::string::*;

verus! {

/// Snapshot of the lock a running daemon holds.
#[derive(Debug)]
pub struct LockState {
    /// Process id of the daemon that holds the lock.
    pub pid: u32,
    /// Name of the backend that holds the lock.
    pub backend: String,
    /// When the lock was taken, in seconds since the Unix epoch.
    pub started_unix: u64,
    /// The request that led to the lock.
    pub request: WakeRequest,
}

/// What a [`LockState`] says.
#[verifier::ext_equal]
pub struct LockStateView {
    pub pid: u32,
    pub backend: Seq<char>,
    pub started_unix: u64,
    pub request: WakeRequestView,
}

impl View for LockState {
    type V = LockStateView;

    open spec fn view(&self) -> LockStateView {
        LockStateView {
            pid: self.pid,
            backend: self.backend@,
            started_unix: self.started_unix,
            request: self.request@,
        }
    }
}

impl Clone for LockState {
    fn clone(&self) -> (r: LockState)
        ensures
            r@ == self@,
    {
        LockState {
            pid: self.pid,
            backend: self.backend.clone(),
            started_unix: self.started_unix,
            request: self.request.clone(),
        }
    }
}

/// What reading a JSON file came to.
#[derive(Debug)]
pub enum JsonRead<T> {
    /// The file holds this value.
    Value(T),
    /// The file was read but holds no such value.
    Malformed {
        /// The file's path, for display.
        path: String,
        /// What is wrong with the contents.
        error: String,
    },
    /// The file could not be read.
    Failed(IoError),
}

/// The value of a JSON file: `None` if the file is absent, a state error if its
/// contents are malformed.
pub fn read_json_or_none<T>(outcome: JsonRead<T>) -> (r: Result<Option<T>>)
    ensures
        match outcome {
            JsonRead::Value(v) => r == Ok::<Option<T>, OxiwakeError>(Some(v)),
            JsonRead::Malformed { path, error } => r is Err && r->Err_0@ == ErrorView::State(
                "could not parse "@ + path@ + ": "@ + error@,
            ),
            JsonRead::Failed(e) => if e.kind == IoErrorKind::NotFound {
                r == Ok::<Option<T>, OxiwakeError>(None)
            } else {
                r == Err::<Option<T>, OxiwakeError>(OxiwakeError::Io(e))
            },
        },
{
    match outcome {
        JsonRead::Value(v) => Ok(Some(v)),
        JsonRead::Malformed { path, error } => Err(
            OxiwakeError::State(
                "could not parse ".to_string().concat(path.as_str()).concat(": ").concat(
                    error.as_str(),
                ),
            ),
        ),
        JsonRead::Failed(e) => {
            if e.kind == IoErrorKind::NotFound {
                Ok(None)
            } else {
                Err(OxiwakeError::Io(e))
            }
        },
    }
}

/// What deleting a file came to, an absent file being as good as a deleted one.
pub fn remove_if_exists(outcome: core::result::Result<(), IoError>) -> (r: Result<()>)
    ensures
        match outcome {
            Ok(_) => r is Ok,
            Err(e) => if e.kind == IoErrorKind::NotFound {
                r is Ok
            } else {
                r == Err::<(), OxiwakeError>(OxiwakeError::Io(e))
            },
        },
{
    match outcome {
        Ok(_) => Ok(()),
        Err(e) => {
            if e.kind == IoErrorKind::NotFound {
                Ok(())
            } else {
                Err(OxiwakeError::Io(e))
            }
        },
    }
}

/// The path of the sibling file that a snapshot is first written to.
pub open spec fn tmp_path(file: Seq<u8>) -> Seq<u8> {
    file + seq![46u8, 116u8, 109u8, 112u8]
}

/// The sibling of a file that is used for atomic writes: `<file>.tmp`.
pub fn tmp_path_for(file: &[u8]) -> (r: Vec<u8>)
    ensures
        r@ == tmp_path(file@),
{
    let mut out: Vec<u8> = Vec::new();
    out.extend_from_slice(file);
    out.push(46);
    out.push(116);
    out.push(109);
    out.push(112);
    assert(out@ =~= tmp_path(file@));
    out
}

// ---------------------------------------------------------------------------
// Writing
// ---------------------------------------------------------------------------

/// Where an atomic write stands.
#[derive(Debug)]
pub enum WriteState {
    /// The bytes are being written to the sibling file.
    Writing,
    /// The sibling file is being moved into place.
    Renaming,
    /// The sibling file is being deleted because of this failure.
    CleaningUp(IoError),
    /// Nothing is left to do.
    Finished(Result<()>),
}

/// What the next state of a write is, given how the current action went.
pub open spec fn write_next(s: WriteState, outcome: core::result::Result<(), IoError>) -> WriteState {
    match s {
        WriteState::Writing => match outcome {
            Ok(_) => WriteState::Renaming,
            Err(e) => WriteState::CleaningUp(e),
        },
        WriteState::Renaming => match outcome {
            Ok(_) => WriteState::Finished(Ok(())),
            Err(e) => WriteState::CleaningUp(e),
        },
        WriteState::CleaningUp(e) => WriteState::Finished(Err(OxiwakeError::Io(e))),
        WriteState::Finished(r) => WriteState::Finished(r),
    }
}

impl WriteState {
    /// Go on after the current action was carried out with the given outcome.
    pub fn next(self, outcome: core::result::Result<(), IoError>) -> (r: WriteState)
        ensures
            r == write_next(self, outcome),
    {
        match self {
            WriteState::Writing => match outcome {
                Ok(_) => WriteState::Renaming,
                Err(e) => WriteState::CleaningUp(e),
            },
            WriteState::Renaming => match outcome {
                Ok(_) => WriteState::Finished(Ok(())),
                Err(e) => WriteState::CleaningUp(e),
            },
            WriteState::CleaningUp(e) => WriteState::Finished(Err(OxiwakeError::Io(e))),
            WriteState::Finished(r) => WriteState::Finished(r),
        }
    }
}

impl LockState {
    /// The snapshot in `state.json`, or `None` if there is no such file.
    pub fn read(outcome: JsonRead<LockState>) -> (r: Result<Option<LockState>>)
        ensures
            match read_result(outcome) {
                Ok(Some(v)) => r is Ok && r->Ok_0 is Some && r->Ok_0->Some_0@ == v,
                Ok(None) => r is Ok && r->Ok_0 is None,
                Err(e) => r is Err && r->Err_0@ == e,
            },
            match outcome {
                JsonRead::Value(v) => r == Ok::<Option<LockState>, OxiwakeError>(Some(v)),
                JsonRead::Malformed { path, error } => r is Err && r->Err_0@ == ErrorView::State(
                    "could not parse "@ + path@ + ": "@ + error@,
                ),
                JsonRead::Failed(e) => if e.kind == IoErrorKind::NotFound {
                    r == Ok::<Option<LockState>, OxiwakeError>(None)
                } else {
                    r == Err::<Option<LockState>, OxiwakeError>(OxiwakeError::Io(e))
                },
            },
    {
        read_json_or_none(outcome)
    }

    /// Start an atomic write of the serialized snapshot: the bytes to write to
    /// the sibling file, and the state to go on from.
    pub fn write(serialized: core::result::Result<Vec<u8>, String>) -> (r: Result<
        (Vec<u8>, WriteState),
    >)
        ensures
            match serialized {
                Ok(bytes) => r is Ok && r->Ok_0.0@ == bytes@ && r->Ok_0.1 == WriteState::Writing,
                Err(m) => r is Err && r->Err_0@ == ErrorView::State(
                    "could not serialize state: "@ + m@,
                ),
            },
    {
        match serialized {
            Ok(bytes) => Ok((bytes, WriteState::Writing)),
            Err(m) => Err(
                OxiwakeError::State("could not serialize state: ".to_string().concat(m.as_str())),
            ),
        }
    }

    /// What removing `state.json` came to.
    pub fn remove(outcome: core::result::Result<(), IoError>) -> (r: Result<()>)
        ensures
            match outcome {
                Ok(_) => r is Ok,
                Err(e) => if e.kind == IoErrorKind::NotFound {
                    r is Ok
                } else {
                    r == Err::<(), OxiwakeError>(OxiwakeError::Io(e))
                },
            },
    {
        remove_if_exists(outcome)
    }
}

/// The two files a write touches: what each holds, if it is there.
#[verifier::ext_equal]
pub struct Files {
    pub target: Option<Seq<u8>>,
    pub sibling: Option<Seq<u8>>,
}

/// How the action of a write state may change the files. A failed write may
/// leave anything in the sibling file; a move replaces the target as a whole or
/// changes nothing.
pub open spec fn files_step(
    s: WriteState,
    bytes: Seq<u8>,
    outcome: core::result::Result<(), IoError>,
    before: Files,
    after: Files,
) -> bool {
    match s {
        WriteState::Writing => {
            &&& after.target == before.target
            &&& outcome is Ok ==> after.sibling == Some(bytes)
        },
        WriteState::Renaming => if outcome is Ok {
            after.target == before.sibling && after.sibling is None
        } else {
            after == before
        },
        WriteState::CleaningUp(_) => {
            &&& after.target == before.target
            &&& outcome is Ok ==> after.sibling is None
        },
        WriteState::Finished(_) => after == before,
    }
}

/// What holds of the files in every state of a write that began with `start`.
pub open spec fn write_invariant(s: WriteState, bytes: Seq<u8>, start: Files, now: Files) -> bool {
    match s {
        WriteState::Writing => now.target == start.target,
        WriteState::Renaming => now.target == start.target && now.sibling == Some(bytes),
        WriteState::CleaningUp(_) => now.target == start.target,
        WriteState::Finished(Ok(_)) => now.target == Some(bytes) && now.sibling is None,
        WriteState::Finished(Err(_)) => now.target == start.target,
    }
}

/// A write is atomic. Before it, at every step and whatever fails, the target
/// holds what it held or the new snapshot as a whole; it holds the new snapshot
/// exactly when the write has succeeded; and a successful write leaves no
/// sibling file behind.
pub proof fn write_is_atomic(
    s: WriteState,
    bytes: Seq<u8>,
    outcome: core::result::Result<(), IoError>,
    start: Files,
    before: Files,
    after: Files,
)
    requires
        write_invariant(s, bytes, start, before),
        files_step(s, bytes, outcome, before, after),
    ensures
        write_invariant(WriteState::Writing, bytes, start, start),
        write_invariant(write_next(s, outcome), bytes, start, after),
        after.target == start.target || after.target == Some(bytes),
{
}

/// A write ends after at most three actions, and a failed one has then tried to
/// delete the sibling file last.
pub proof fn write_ends(
    first: core::result::Result<(), IoError>,
    second: core::result::Result<(), IoError>,
    third: core::result::Result<(), IoError>,
)
    ensures
        write_next(write_next(write_next(WriteState::Writing, first), second), third) is Finished,
        first is Ok && second is Ok ==> write_next(write_next(WriteState::Writing, first), second)
            == WriteState::Finished(Ok(())),
        first is Err ==> write_next(WriteState::Writing, first) is CleaningUp,
        first is Ok && second is Err ==> write_next(
            write_next(WriteState::Writing, first),
            second,
        ) is CleaningUp,
{
}

// ---------------------------------------------------------------------------
// Reading back
// ---------------------------------------------------------------------------

/// What [`LockState::read`] gives for what reading the file came to.
pub open spec fn read_result(outcome: JsonRead<LockState>) -> core::result::Result<
    Option<LockStateView>,
    ErrorView,
> {
    match outcome {
        JsonRead::Value(v) => Ok(Some(v@)),
        JsonRead::Malformed { path, error } => Err(
            ErrorView::State("could not parse "@ + path@ + ": "@ + error@),
        ),
        JsonRead::Failed(e) => if e.kind == IoErrorKind::NotFound {
            Ok(None)
        } else {
            Err(ErrorView::Io(e@))
        },
    }
}

/// Whether reading a file with these contents comes to this, where `decode` is
/// how a snapshot is read from bytes and the file can be read.
pub open spec fn reads_as(
    decode: spec_fn(Seq<u8>) -> Option<LockStateView>,
    contents: Option<Seq<u8>>,
    outcome: JsonRead<LockState>,
) -> bool {
    match contents {
        None => outcome is Failed && outcome->Failed_0.kind == IoErrorKind::NotFound,
        Some(bytes) => match decode(bytes) {
            Some(v) => outcome is Value && outcome->Value_0@ == v,
            None => outcome is Malformed,
        },
    }
}

/// Where a write stands after its actions went like this.
pub open spec fn write_after(
    outcomes: Seq<core::result::Result<(), IoError>>,
) -> WriteState
    decreases outcomes.len(),
{
    if outcomes.len() == 0 {
        WriteState::Writing
    } else {
        write_next(write_after(outcomes.drop_last()), outcomes.last())
    }
}

/// Whether the files go through `worlds` while a write of `bytes` takes its
/// actions with these outcomes.
pub open spec fn write_run(
    bytes: Seq<u8>,
    outcomes: Seq<core::result::Result<(), IoError>>,
    worlds: Seq<Files>,
) -> bool {
    &&& worlds.len() == outcomes.len() + 1
    &&& forall|k: int|
        0 <= k < outcomes.len() ==> files_step(
            write_after(outcomes.take(k)),
            bytes,
            #[trigger] outcomes[k],
            worlds[k],
            worlds[k + 1],
        )
}

proof fn write_run_keeps_the_invariant(
    bytes: Seq<u8>,
    outcomes: Seq<core::result::Result<(), IoError>>,
    worlds: Seq<Files>,
)
    requires
        write_run(bytes, outcomes, worlds),
    ensures
        write_invariant(write_after(outcomes), bytes, worlds[0], worlds.last()),
    decreases outcomes.len(),
{
    if outcomes.len() > 0 {
        let before = outcomes.drop_last();
        let n = before.len() as int;
        assert(write_run(bytes, before, worlds.drop_last())) by {
            assert forall|k: int| 0 <= k < before.len() implies files_step(
                write_after(before.take(k)),
                bytes,
                #[trigger] before[k],
                worlds.drop_last()[k],
                worlds.drop_last()[k + 1],
            ) by {
                assert(before.take(k) =~= outcomes.take(k));
                assert(outcomes[k] == before[k]);
            }
        }
        write_run_keeps_the_invariant(bytes, before, worlds.drop_last());
        assert(outcomes.take(n) =~= before);
        assert(outcomes[n] == outcomes.last());
        write_is_atomic(
            write_after(before),
            bytes,
            outcomes.last(),
            worlds[0],
            worlds[n],
            worlds.last(),
        );
    }
}

/// A snapshot that was written is the one that is read. Whatever bytes a snapshot
/// is written as, as long as reading them gives the snapshot: if the write has
/// ended well and nothing touched the file since, reading gives every field of
/// it; if it has failed, reading gives what it would have given before.
pub proof fn a_written_snapshot_is_read_back(
    encode: spec_fn(LockStateView) -> Seq<u8>,
    decode: spec_fn(Seq<u8>) -> Option<LockStateView>,
    st: LockStateView,
    outcomes: Seq<core::result::Result<(), IoError>>,
    worlds: Seq<Files>,
    read: JsonRead<LockState>,
)
    requires
        decode(encode(st)) == Some(st),
        write_run(encode(st), outcomes, worlds),
        write_after(outcomes) is Finished,
        reads_as(decode, worlds.last().target, read),
    ensures
        write_after(outcomes)->Finished_0 is Ok ==> read_result(read) == Ok::<
            Option<LockStateView>,
            ErrorView,
        >(Some(st)),
        write_after(outcomes)->Finished_0 is Err ==> reads_as(decode, worlds[0].target, read),
{
    write_run_keeps_the_invariant(encode(st), outcomes, worlds);
}

} // verus!
