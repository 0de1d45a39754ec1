//! Named pipes: connecting, bounded waiting, serving, and the singleton lock.
//!
//! The daemon serves one client at a time on one pipe. So that a client which
//! connects and then stays silent cannot block it, every accept, every read and
//! every write is started without waiting for it to complete, and the wait is
//! bounded.
//!
//! System calls are known here by their outcome: `Ok` with the number that the
//! call gives, or `Err` with the system's error code.

use crate::error::{IoError, OxiwakeError, Result};
use crate::platform::SingletonLock;
use vstd::prelude::*;

verus! {

/// The path of the daemon's pipe.
pub const PIPE_PATH: &'static str = "\\\\.\\pipe\\oxiwake";

/// The size of the server's output buffer, in bytes.
pub const OUT_BUFFER: u32 = 4096;

/// The size of the server's input buffer, in bytes.
pub const IN_BUFFER: u32 = 4096;

/// The default timeout of the pipe.
pub const DEFAULT_TIMEOUT: u32 = 0;

/// How many milliseconds the daemon waits for a client, and for each read and
/// write.
pub const SERVER_IO_TIMEOUT_MS: u32 = 3_000;

/// For how many milliseconds a client retries while the pipe is busy.
pub const CONNECT_BUSY_RETRY_MS: u64 = 2_000;

/// How many milliseconds a client pauses between two tries.
pub const CONNECT_BUSY_SLOT_MS: u64 = 50;

/// No such file.
pub const ERROR_FILE_NOT_FOUND: u32 = 2;

/// No such path.
pub const ERROR_PATH_NOT_FOUND: u32 = 3;

/// Another process holds the lock.
pub const ERROR_LOCK_VIOLATION: u32 = 33;

/// The other end of the pipe is closed.
pub const ERROR_BROKEN_PIPE: u32 = 109;

/// Every instance of the pipe is in use.
pub const ERROR_PIPE_BUSY: u32 = 231;

/// A client was there before it was waited for.
pub const ERROR_PIPE_CONNECTED: u32 = 535;

/// The operation has started and is not complete.
pub const ERROR_IO_PENDING: u32 = 997;

/// The wait ended because its time was up.
pub const WAIT_TIMEOUT: u32 = 258;

/// Messages are written as bytes.
pub const PIPE_TYPE_BYTE: u32 = 0;

/// Messages are read as bytes.
pub const PIPE_READMODE_BYTE: u32 = 0;

/// What a system call came to.
pub type Call = core::result::Result<u32, u32>;

/// The mode of the pipe: a stream of bytes in both directions.
pub fn pipe_mode() -> (r: u32)
    ensures
        r == 0,
{
    assert(0u32 | 0u32 == 0u32) by (bit_vector);
    PIPE_TYPE_BYTE | PIPE_READMODE_BYTE
}

// ---------------------------------------------------------------------------
// Connecting
// ---------------------------------------------------------------------------

/// What a client does after it failed to open the pipe.
#[derive(Debug, Clone, Copy, PartialEq, Eq, Structural)]
pub enum ConnectStep {
    /// Give up: no daemon is there.
    NotRunning,
    /// Wait at most this many milliseconds for the pipe to become free, pause,
    /// and try again.
    Retry(u64),
    /// Give up with this error code.
    Fail(u32),
}

/// What a client does after it failed to open the pipe, so many milliseconds
/// after its first try. A missing pipe means that no daemon is there. A busy one
/// means that there is one, so it is tried again until the time is up.
pub open spec fn connect_step(code: u32, elapsed_ms: u64) -> ConnectStep {
    if code == ERROR_FILE_NOT_FOUND || code == ERROR_PATH_NOT_FOUND {
        ConnectStep::NotRunning
    } else if code == ERROR_PIPE_BUSY && elapsed_ms < CONNECT_BUSY_RETRY_MS {
        ConnectStep::Retry((CONNECT_BUSY_RETRY_MS - elapsed_ms) as u64)
    } else {
        ConnectStep::Fail(code)
    }
}

/// Decide what to do after the pipe could not be opened.
pub fn connect_named(code: u32, elapsed_ms: u64) -> (r: ConnectStep)
    ensures
        r == connect_step(code, elapsed_ms),
{
    if code == ERROR_FILE_NOT_FOUND || code == ERROR_PATH_NOT_FOUND {
        return ConnectStep::NotRunning;
    }
    if code == ERROR_PIPE_BUSY && elapsed_ms < CONNECT_BUSY_RETRY_MS {
        return ConnectStep::Retry(CONNECT_BUSY_RETRY_MS - elapsed_ms);
    }
    ConnectStep::Fail(code)
}

/// How many more tries a client has after so many milliseconds, if every retry
/// takes at least one pause.
pub open spec fn tries_left(elapsed_ms: u64) -> nat {
    if elapsed_ms >= CONNECT_BUSY_RETRY_MS {
        0
    } else {
        ((CONNECT_BUSY_RETRY_MS - elapsed_ms + CONNECT_BUSY_SLOT_MS - 1) / CONNECT_BUSY_SLOT_MS as int) as nat
    }
}

/// A client never retries for ever: each retry leaves fewer tries, no wait is
/// longer than the time that is left, and with no tries left it gives up. A busy
/// pipe is never taken for a missing daemon.
pub proof fn busy_retries_are_bounded(code: u32, elapsed_ms: u64, later_ms: u64)
    requires
        later_ms >= elapsed_ms + CONNECT_BUSY_SLOT_MS,
    ensures
        connect_step(code, elapsed_ms) is Retry ==> tries_left(later_ms) < tries_left(elapsed_ms),
        connect_step(code, elapsed_ms) is Retry ==> connect_step(code, elapsed_ms)->Retry_0
            + elapsed_ms == CONNECT_BUSY_RETRY_MS,
        tries_left(elapsed_ms) == 0 ==> !(connect_step(code, elapsed_ms) is Retry),
        tries_left(0) == 40,
        code == ERROR_PIPE_BUSY ==> !(connect_step(code, elapsed_ms) is NotRunning),
{
}

/// What connecting to the pipe came to, `last` being the step after the last
/// try, or `None` if that opened the pipe. The system's wording for an error
/// code is the program's part.
pub fn connect(last: Option<(ConnectStep, IoError)>) -> (r: Result<()>)
    ensures
        match last {
            None => r is Ok,
            Some((ConnectStep::NotRunning, _)) => r == Err::<(), OxiwakeError>(
                OxiwakeError::NotRunning,
            ),
            Some((_, e)) => r == Err::<(), OxiwakeError>(OxiwakeError::Io(e)),
        },
{
    match last {
        None => Ok(()),
        Some((ConnectStep::NotRunning, _)) => Err(OxiwakeError::NotRunning),
        Some((_, e)) => Err(OxiwakeError::Io(e)),
    }
}

// ---------------------------------------------------------------------------
// Reading
// ---------------------------------------------------------------------------

/// What a read came to.
#[derive(Debug, Clone, Copy, PartialEq, Eq, Structural)]
pub enum ReadOutcome {
    /// So many bytes arrived; none at the end of the stream.
    Bytes(u32),
    /// The system's error code.
    Failed(u32),
    /// The time was up.
    TimedOut,
}

/// A read that is complete: a closed pipe is the end of the stream.
pub open spec fn completed(call: Call) -> ReadOutcome {
    match call {
        Ok(n) => ReadOutcome::Bytes(n),
        Err(code) => if code == ERROR_BROKEN_PIPE {
            ReadOutcome::Bytes(0)
        } else {
            ReadOutcome::Failed(code)
        },
    }
}

/// What a read that waits until it is complete came to.
pub fn read_blocking(call: Call) -> (r: ReadOutcome)
    ensures
        r == completed(call),
{
    match call {
        Ok(n) => ReadOutcome::Bytes(n),
        Err(code) => {
            if code == ERROR_BROKEN_PIPE {
                ReadOutcome::Bytes(0)
            } else {
                ReadOutcome::Failed(code)
            }
        },
    }
}

/// Where a bounded read stands: the system call to make next.
#[derive(Debug, Clone, Copy, PartialEq, Eq, Structural)]
pub enum BoundedRead {
    /// Create the event to wait on, unless there is one.
    CreateEvent,
    /// Reset the event, so that an earlier signal does not end the wait.
    ResetEvent,
    /// Start the read.
    Start,
    /// Wait for the event.
    Wait,
    /// Cancel the read.
    Cancel,
    /// Collect the cancelled read.
    Drain,
    /// Collect the completed read.
    Finish,
    /// Nothing: the read has ended.
    Done(ReadOutcome),
}

/// The next step of a bounded read.
pub open spec fn read_next(s: BoundedRead, call: Call) -> BoundedRead {
    match s {
        BoundedRead::CreateEvent => match call {
            Ok(_) => BoundedRead::ResetEvent,
            Err(code) => BoundedRead::Done(ReadOutcome::Failed(code)),
        },
        BoundedRead::ResetEvent => match call {
            Ok(_) => BoundedRead::Start,
            Err(code) => BoundedRead::Done(ReadOutcome::Failed(code)),
        },
        BoundedRead::Start => if call == Err::<u32, u32>(ERROR_IO_PENDING) {
            BoundedRead::Wait
        } else {
            BoundedRead::Done(completed(call))
        },
        BoundedRead::Wait => match call {
            Err(code) => BoundedRead::Done(ReadOutcome::Failed(code)),
            Ok(w) => if w == WAIT_TIMEOUT {
                BoundedRead::Cancel
            } else {
                BoundedRead::Finish
            },
        },
        BoundedRead::Cancel => BoundedRead::Drain,
        BoundedRead::Drain => BoundedRead::Done(ReadOutcome::TimedOut),
        BoundedRead::Finish => BoundedRead::Done(completed(call)),
        BoundedRead::Done(r) => BoundedRead::Done(r),
    }
}

impl BoundedRead {
    /// Go on after the current system call.
    pub fn next(self, call: Call) -> (r: BoundedRead)
        ensures
            r == read_next(self, call),
    {
        match self {
            BoundedRead::CreateEvent => match call {
                Ok(_) => BoundedRead::ResetEvent,
                Err(code) => BoundedRead::Done(ReadOutcome::Failed(code)),
            },
            BoundedRead::ResetEvent => match call {
                Ok(_) => BoundedRead::Start,
                Err(code) => BoundedRead::Done(ReadOutcome::Failed(code)),
            },
            BoundedRead::Start => match call {
                Ok(_) => BoundedRead::Done(read_blocking(call)),
                Err(code) => if code == ERROR_IO_PENDING {
                    BoundedRead::Wait
                } else {
                    BoundedRead::Done(read_blocking(call))
                },
            },
            BoundedRead::Wait => match call {
                Err(code) => BoundedRead::Done(ReadOutcome::Failed(code)),
                Ok(w) => if w == WAIT_TIMEOUT {
                    BoundedRead::Cancel
                } else {
                    BoundedRead::Finish
                },
            },
            BoundedRead::Cancel => BoundedRead::Drain,
            BoundedRead::Drain => BoundedRead::Done(ReadOutcome::TimedOut),
            BoundedRead::Finish => BoundedRead::Done(read_blocking(call)),
            BoundedRead::Done(r) => BoundedRead::Done(r),
        }
    }
}

/// Start a bounded read.
pub fn read_overlapped() -> (r: BoundedRead)
    ensures
        r == BoundedRead::CreateEvent,
{
    BoundedRead::CreateEvent
}

/// How many system calls a bounded read still makes at most.
pub open spec fn read_calls_left(s: BoundedRead) -> nat {
    match s {
        BoundedRead::CreateEvent => 6,
        BoundedRead::ResetEvent => 5,
        BoundedRead::Start => 4,
        BoundedRead::Wait => 3,
        BoundedRead::Cancel => 2,
        BoundedRead::Drain => 1,
        BoundedRead::Finish => 1,
        BoundedRead::Done(_) => 0,
    }
}

/// A bounded read ends after at most six system calls. Only one of them waits,
/// so a silent client cannot hold it up for longer than the wait may take.
pub proof fn bounded_read_ends(s: BoundedRead, call: Call)
    ensures
        !(s is Done) ==> read_calls_left(read_next(s, call)) < read_calls_left(s),
        read_calls_left(s) == 0 ==> s is Done,
        read_next(s, call) is Wait ==> s is Start,
{
}

/// Whether a read is in flight after a step, given whether one was before it.
pub open spec fn read_in_flight(s: BoundedRead, call: Call, before: bool) -> bool {
    match s {
        BoundedRead::Start => call == Err::<u32, u32>(ERROR_IO_PENDING),
        BoundedRead::Cancel => false,
        BoundedRead::Finish => false,
        _ => before,
    }
}

/// What holds of a read in flight at every step of a bounded read.
pub open spec fn read_flight_invariant(s: BoundedRead, in_flight: bool) -> bool {
    match s {
        BoundedRead::CreateEvent | BoundedRead::ResetEvent | BoundedRead::Start
            | BoundedRead::Drain => !in_flight,
        BoundedRead::Wait | BoundedRead::Cancel | BoundedRead::Finish => in_flight,
        BoundedRead::Done(ReadOutcome::Failed(_)) => true,
        BoundedRead::Done(_) => !in_flight,
    }
}

/// A bounded read that gives bytes or times out leaves nothing in flight: a read
/// whose time was up has been cancelled, so the pipe can be used again.
pub proof fn bounded_read_leaves_nothing_in_flight(s: BoundedRead, call: Call, in_flight: bool)
    requires
        read_flight_invariant(s, in_flight),
    ensures
        read_flight_invariant(BoundedRead::CreateEvent, false),
        read_flight_invariant(read_next(s, call), read_in_flight(s, call, in_flight)),
{
}

/// A duration in milliseconds, at most what a wait can take.
pub open spec fn wait_limit(secs: u64, millis: u32) -> u32 {
    let total = secs as int * 1000 + millis;
    if total > u32::MAX {
        u32::MAX
    } else {
        total as u32
    }
}

/// The time limit of a wait, from a duration in seconds and milliseconds.
pub fn timeout_millis(secs: u64, millis: u32) -> (r: u32)
    ensures
        r == wait_limit(secs, millis),
{
    if secs > 4_294_967 {
        return u32::MAX;
    }
    let total: u64 = secs * 1000 + millis as u64;
    if total > u32::MAX as u64 {
        u32::MAX
    } else {
        total as u32
    }
}

// ---------------------------------------------------------------------------
// Writing
// ---------------------------------------------------------------------------

/// What a write came to.
#[derive(Debug, Clone, Copy, PartialEq, Eq, Structural)]
pub enum WriteOutcome {
    /// So many bytes were taken.
    Bytes(u32),
    /// The system's error code.
    Failed(u32),
    /// The time was up.
    TimedOut,
}

/// A write that is complete.
pub open spec fn written(call: Call) -> WriteOutcome {
    match call {
        Ok(n) => WriteOutcome::Bytes(n),
        Err(code) => WriteOutcome::Failed(code),
    }
}

/// What a write that waits until it is complete came to.
pub fn write_blocking(call: Call) -> (r: WriteOutcome)
    ensures
        r == written(call),
{
    match call {
        Ok(n) => WriteOutcome::Bytes(n),
        Err(code) => WriteOutcome::Failed(code),
    }
}

/// Where a bounded write stands: the system call to make next.
#[derive(Debug, Clone, Copy, PartialEq, Eq, Structural)]
pub enum BoundedWrite {
    /// Create the event to wait on, unless there is one.
    CreateEvent,
    /// Reset the event, so that an earlier signal does not end the wait.
    ResetEvent,
    /// Start the write.
    Start,
    /// Wait for the event.
    Wait,
    /// Cancel the write.
    Cancel,
    /// Collect the cancelled write.
    Drain,
    /// Collect the completed write.
    Finish,
    /// Nothing: the write has ended.
    Done(WriteOutcome),
}

/// The next step of a bounded write.
pub open spec fn write_next(s: BoundedWrite, call: Call) -> BoundedWrite {
    match s {
        BoundedWrite::CreateEvent => match call {
            Ok(_) => BoundedWrite::ResetEvent,
            Err(code) => BoundedWrite::Done(WriteOutcome::Failed(code)),
        },
        BoundedWrite::ResetEvent => match call {
            Ok(_) => BoundedWrite::Start,
            Err(code) => BoundedWrite::Done(WriteOutcome::Failed(code)),
        },
        BoundedWrite::Start => if call == Err::<u32, u32>(ERROR_IO_PENDING) {
            BoundedWrite::Wait
        } else {
            BoundedWrite::Done(written(call))
        },
        BoundedWrite::Wait => match call {
            Err(code) => BoundedWrite::Done(WriteOutcome::Failed(code)),
            Ok(w) => if w == WAIT_TIMEOUT {
                BoundedWrite::Cancel
            } else {
                BoundedWrite::Finish
            },
        },
        BoundedWrite::Cancel => BoundedWrite::Drain,
        BoundedWrite::Drain => BoundedWrite::Done(WriteOutcome::TimedOut),
        BoundedWrite::Finish => BoundedWrite::Done(written(call)),
        BoundedWrite::Done(r) => BoundedWrite::Done(r),
    }
}

impl BoundedWrite {
    /// Go on after the current system call.
    pub fn next(self, call: Call) -> (r: BoundedWrite)
        ensures
            r == write_next(self, call),
    {
        match self {
            BoundedWrite::CreateEvent => match call {
                Ok(_) => BoundedWrite::ResetEvent,
                Err(code) => BoundedWrite::Done(WriteOutcome::Failed(code)),
            },
            BoundedWrite::ResetEvent => match call {
                Ok(_) => BoundedWrite::Start,
                Err(code) => BoundedWrite::Done(WriteOutcome::Failed(code)),
            },
            BoundedWrite::Start => match call {
                Ok(_) => BoundedWrite::Done(write_blocking(call)),
                Err(code) => if code == ERROR_IO_PENDING {
                    BoundedWrite::Wait
                } else {
                    BoundedWrite::Done(write_blocking(call))
                },
            },
            BoundedWrite::Wait => match call {
                Err(code) => BoundedWrite::Done(WriteOutcome::Failed(code)),
                Ok(w) => if w == WAIT_TIMEOUT {
                    BoundedWrite::Cancel
                } else {
                    BoundedWrite::Finish
                },
            },
            BoundedWrite::Cancel => BoundedWrite::Drain,
            BoundedWrite::Drain => BoundedWrite::Done(WriteOutcome::TimedOut),
            BoundedWrite::Finish => BoundedWrite::Done(write_blocking(call)),
            BoundedWrite::Done(r) => BoundedWrite::Done(r),
        }
    }
}

/// Start a bounded write.
pub fn write_overlapped() -> (r: BoundedWrite)
    ensures
        r == BoundedWrite::CreateEvent,
{
    BoundedWrite::CreateEvent
}

/// How many system calls a bounded write still makes at most.
pub open spec fn write_calls_left(s: BoundedWrite) -> nat {
    match s {
        BoundedWrite::CreateEvent => 6,
        BoundedWrite::ResetEvent => 5,
        BoundedWrite::Start => 4,
        BoundedWrite::Wait => 3,
        BoundedWrite::Cancel => 2,
        BoundedWrite::Drain => 1,
        BoundedWrite::Finish => 1,
        BoundedWrite::Done(_) => 0,
    }
}

/// Whether a write is in flight after a step, given whether one was before it.
pub open spec fn write_in_flight(s: BoundedWrite, call: Call, before: bool) -> bool {
    match s {
        BoundedWrite::Start => call == Err::<u32, u32>(ERROR_IO_PENDING),
        BoundedWrite::Cancel => false,
        BoundedWrite::Finish => false,
        _ => before,
    }
}

/// What holds of a write in flight at every step of a bounded write.
pub open spec fn write_flight_invariant(s: BoundedWrite, in_flight: bool) -> bool {
    match s {
        BoundedWrite::CreateEvent | BoundedWrite::ResetEvent | BoundedWrite::Start
            | BoundedWrite::Drain => !in_flight,
        BoundedWrite::Wait | BoundedWrite::Cancel | BoundedWrite::Finish => in_flight,
        BoundedWrite::Done(WriteOutcome::Failed(_)) => true,
        BoundedWrite::Done(_) => !in_flight,
    }
}

/// A bounded write ends after at most six system calls, only one of which waits,
/// so a client that does not read cannot hold it up for longer than the wait may
/// take; and one that takes bytes or times out leaves nothing in flight.
pub proof fn bounded_write_ends_clean(s: BoundedWrite, call: Call, in_flight: bool)
    requires
        write_flight_invariant(s, in_flight),
    ensures
        !(s is Done) ==> write_calls_left(write_next(s, call)) < write_calls_left(s),
        write_calls_left(s) == 0 ==> s is Done,
        write_calls_left(BoundedWrite::CreateEvent) == 6,
        write_next(s, call) is Wait ==> s is Start,
        write_flight_invariant(BoundedWrite::CreateEvent, false),
        write_flight_invariant(write_next(s, call), write_in_flight(s, call, in_flight)),
{
}

// ---------------------------------------------------------------------------
// Accepting
// ---------------------------------------------------------------------------

/// What waiting for a client came to.
#[derive(Debug, Clone, Copy, PartialEq, Eq, Structural)]
pub enum ConnectOutcome {
    /// A client is there.
    Connected,
    /// None came in time.
    Timeout,
    /// The system's error code.
    Failed(u32),
}

/// Where a bounded accept stands: the system call to make next.
#[derive(Debug, Clone, Copy, PartialEq, Eq, Structural)]
pub enum BoundedAccept {
    /// Reset the event.
    ResetEvent,
    /// Start to accept.
    Start,
    /// Wait for the event.
    Wait,
    /// Cancel the accept.
    Cancel,
    /// Collect the cancelled accept.
    Drain,
    /// Collect the completed accept.
    Finish,
    /// Nothing: the accept has ended.
    Done(ConnectOutcome),
}

/// The next step of a bounded accept.
pub open spec fn accept_next(s: BoundedAccept, call: Call) -> BoundedAccept {
    match s {
        BoundedAccept::ResetEvent => match call {
            Ok(_) => BoundedAccept::Start,
            Err(code) => BoundedAccept::Done(ConnectOutcome::Failed(code)),
        },
        BoundedAccept::Start => match call {
            Ok(_) => BoundedAccept::Done(ConnectOutcome::Connected),
            Err(code) => if code == ERROR_PIPE_CONNECTED {
                BoundedAccept::Done(ConnectOutcome::Connected)
            } else if code == ERROR_IO_PENDING {
                BoundedAccept::Wait
            } else {
                BoundedAccept::Done(ConnectOutcome::Failed(code))
            },
        },
        BoundedAccept::Wait => match call {
            Err(code) => BoundedAccept::Done(ConnectOutcome::Failed(code)),
            Ok(w) => if w == WAIT_TIMEOUT {
                BoundedAccept::Cancel
            } else {
                BoundedAccept::Finish
            },
        },
        BoundedAccept::Cancel => BoundedAccept::Drain,
        BoundedAccept::Drain => BoundedAccept::Done(ConnectOutcome::Timeout),
        BoundedAccept::Finish => match call {
            Ok(_) => BoundedAccept::Done(ConnectOutcome::Connected),
            Err(code) => BoundedAccept::Done(ConnectOutcome::Failed(code)),
        },
        BoundedAccept::Done(r) => BoundedAccept::Done(r),
    }
}

impl BoundedAccept {
    /// Go on after the current system call.
    pub fn next(self, call: Call) -> (r: BoundedAccept)
        ensures
            r == accept_next(self, call),
    {
        match self {
            BoundedAccept::ResetEvent => match call {
                Ok(_) => BoundedAccept::Start,
                Err(code) => BoundedAccept::Done(ConnectOutcome::Failed(code)),
            },
            BoundedAccept::Start => match call {
                Ok(_) => BoundedAccept::Done(ConnectOutcome::Connected),
                Err(code) => if code == ERROR_PIPE_CONNECTED {
                    BoundedAccept::Done(ConnectOutcome::Connected)
                } else if code == ERROR_IO_PENDING {
                    BoundedAccept::Wait
                } else {
                    BoundedAccept::Done(ConnectOutcome::Failed(code))
                },
            },
            BoundedAccept::Wait => match call {
                Err(code) => BoundedAccept::Done(ConnectOutcome::Failed(code)),
                Ok(w) => if w == WAIT_TIMEOUT {
                    BoundedAccept::Cancel
                } else {
                    BoundedAccept::Finish
                },
            },
            BoundedAccept::Cancel => BoundedAccept::Drain,
            BoundedAccept::Drain => BoundedAccept::Done(ConnectOutcome::Timeout),
            BoundedAccept::Finish => match call {
                Ok(_) => BoundedAccept::Done(ConnectOutcome::Connected),
                Err(code) => BoundedAccept::Done(ConnectOutcome::Failed(code)),
            },
            BoundedAccept::Done(r) => BoundedAccept::Done(r),
        }
    }
}

/// Start a bounded accept.
pub fn connect_bounded() -> (r: BoundedAccept)
    ensures
        r == BoundedAccept::ResetEvent,
{
    BoundedAccept::ResetEvent
}

/// How many system calls a bounded accept still makes at most.
pub open spec fn accept_calls_left(s: BoundedAccept) -> nat {
    match s {
        BoundedAccept::ResetEvent => 5,
        BoundedAccept::Start => 4,
        BoundedAccept::Wait => 3,
        BoundedAccept::Cancel => 2,
        BoundedAccept::Drain => 1,
        BoundedAccept::Finish => 1,
        BoundedAccept::Done(_) => 0,
    }
}

/// Whether an accept is in flight after a step, given whether one was before.
pub open spec fn accept_in_flight(s: BoundedAccept, call: Call, before: bool) -> bool {
    match s {
        BoundedAccept::Start => call == Err::<u32, u32>(ERROR_IO_PENDING),
        BoundedAccept::Cancel => false,
        BoundedAccept::Finish => false,
        _ => before,
    }
}

/// What holds of an accept in flight at every step of a bounded accept.
pub open spec fn accept_flight_invariant(s: BoundedAccept, in_flight: bool) -> bool {
    match s {
        BoundedAccept::ResetEvent | BoundedAccept::Start | BoundedAccept::Drain => !in_flight,
        BoundedAccept::Wait | BoundedAccept::Cancel | BoundedAccept::Finish => in_flight,
        BoundedAccept::Done(ConnectOutcome::Failed(_)) => true,
        BoundedAccept::Done(_) => !in_flight,
    }
}

/// A bounded accept ends after at most five system calls, only one of which
/// waits; and one that connects or times out leaves nothing in flight.
pub proof fn bounded_accept_ends_clean(s: BoundedAccept, call: Call, in_flight: bool)
    requires
        accept_flight_invariant(s, in_flight),
    ensures
        !(s is Done) ==> accept_calls_left(accept_next(s, call)) < accept_calls_left(s),
        accept_next(s, call) is Wait ==> s is Start,
        accept_flight_invariant(BoundedAccept::ResetEvent, false),
        accept_flight_invariant(accept_next(s, call), accept_in_flight(s, call, in_flight)),
{
}

// ---------------------------------------------------------------------------
// Serving
// ---------------------------------------------------------------------------

/// Where creating an instance of the pipe stands: the system call to make next.
#[derive(Debug, Clone, Copy)]
pub enum CreateInstance {
    /// Create the event to wait on.
    CreateEvent,
    /// Create the pipe.
    CreatePipe,
    /// Close the event because of this error code.
    CloseEvent(u32),
    /// Nothing: the instance is there, or there is this error code.
    Done(core::result::Result<(), u32>),
}

/// The next step of creating an instance.
pub open spec fn instance_next(s: CreateInstance, call: Call) -> CreateInstance {
    match s {
        CreateInstance::CreateEvent => match call {
            Ok(_) => CreateInstance::CreatePipe,
            Err(code) => CreateInstance::Done(Err(code)),
        },
        CreateInstance::CreatePipe => match call {
            Ok(_) => CreateInstance::Done(Ok(())),
            Err(code) => CreateInstance::CloseEvent(code),
        },
        CreateInstance::CloseEvent(code) => CreateInstance::Done(Err(code)),
        CreateInstance::Done(r) => CreateInstance::Done(r),
    }
}

impl CreateInstance {
    /// Go on after the current system call.
    pub fn next(self, call: Call) -> (r: CreateInstance)
        ensures
            r == instance_next(self, call),
    {
        match self {
            CreateInstance::CreateEvent => match call {
                Ok(_) => CreateInstance::CreatePipe,
                Err(code) => CreateInstance::Done(Err(code)),
            },
            CreateInstance::CreatePipe => match call {
                Ok(_) => CreateInstance::Done(Ok(())),
                Err(code) => CreateInstance::CloseEvent(code),
            },
            CreateInstance::CloseEvent(code) => CreateInstance::Done(Err(code)),
            CreateInstance::Done(r) => CreateInstance::Done(r),
        }
    }
}

/// Start to create an instance of the pipe.
pub fn create_pipe_instance() -> (r: CreateInstance)
    ensures
        r == CreateInstance::CreateEvent,
{
    CreateInstance::CreateEvent
}

/// Whether the event is open after a step, given whether it was before.
pub open spec fn event_open(s: CreateInstance, call: Call, before: bool) -> bool {
    match s {
        CreateInstance::CreateEvent => call is Ok,
        CreateInstance::CloseEvent(_) => false,
        _ => before,
    }
}

/// Whether the event is open, as each step of creating an instance has it.
pub open spec fn event_invariant(s: CreateInstance, open: bool) -> bool {
    match s {
        CreateInstance::CreateEvent => !open,
        CreateInstance::CreatePipe | CreateInstance::CloseEvent(_) => open,
        CreateInstance::Done(r) => open == (r is Ok),
    }
}

/// An instance that could not be created leaves no event behind.
pub proof fn failed_instance_leaves_nothing_open(s: CreateInstance, call: Call, open: bool)
    requires
        event_invariant(s, open),
    ensures
        event_invariant(CreateInstance::CreateEvent, false),
        event_invariant(instance_next(s, call), event_open(s, call, open)),
{
}

/// Where serving stands: what the program is to do next.
#[derive(Debug)]
pub enum PipeServe {
    /// Try to connect to the pipe, to find out whether a daemon is there.
    Probe,
    /// Create an instance of the pipe.
    Create,
    /// Wait for a client, for a bounded time.
    Accept,
    /// Handle the connection.
    Handle,
    /// Nothing: serving has ended.
    Finished(Result<()>),
}

/// What the program reports after doing what [`PipeServe`] says.
#[derive(Debug)]
pub enum PipeEvent {
    /// What connecting came to.
    Probed(Result<()>),
    /// What creating the instance came to.
    Created(core::result::Result<(), IoError>),
    /// What waiting came to: whether a client is there.
    Accepted(core::result::Result<bool, IoError>),
    /// The connection was handled; `true` if the client asked to stop.
    Handled(bool),
}

/// The next step of serving. An event that does not answer the current step
/// changes nothing.
pub open spec fn pipe_serve_next(s: PipeServe, event: PipeEvent) -> PipeServe {
    match (s, event) {
        (PipeServe::Probe, PipeEvent::Probed(r)) => match r {
            Ok(_) => PipeServe::Finished(Ok(())),
            Err(OxiwakeError::NotRunning) => PipeServe::Create,
            Err(e) => PipeServe::Finished(Err(e)),
        },
        (PipeServe::Create, PipeEvent::Created(r)) => match r {
            Ok(_) => PipeServe::Accept,
            Err(e) => PipeServe::Finished(Err(OxiwakeError::Io(e))),
        },
        (PipeServe::Accept, PipeEvent::Accepted(r)) => match r {
            Ok(there) => if there {
                PipeServe::Handle
            } else {
                PipeServe::Create
            },
            Err(e) => PipeServe::Finished(Err(OxiwakeError::Io(e))),
        },
        (PipeServe::Handle, PipeEvent::Handled(stop)) => if stop {
            PipeServe::Finished(Ok(()))
        } else {
            PipeServe::Create
        },
        (s, _) => s,
    }
}

impl PipeServe {
    /// Go on after an event.
    pub fn next(self, event: PipeEvent) -> (r: PipeServe)
        ensures
            r == pipe_serve_next(self, event),
    {
        match (self, event) {
            (PipeServe::Probe, PipeEvent::Probed(r)) => match r {
                Ok(_) => PipeServe::Finished(Ok(())),
                Err(OxiwakeError::NotRunning) => PipeServe::Create,
                Err(e) => PipeServe::Finished(Err(e)),
            },
            (PipeServe::Create, PipeEvent::Created(r)) => match r {
                Ok(_) => PipeServe::Accept,
                Err(e) => PipeServe::Finished(Err(OxiwakeError::Io(e))),
            },
            (PipeServe::Accept, PipeEvent::Accepted(r)) => match r {
                Ok(there) => if there {
                    PipeServe::Handle
                } else {
                    PipeServe::Create
                },
                Err(e) => PipeServe::Finished(Err(OxiwakeError::Io(e))),
            },
            (PipeServe::Handle, PipeEvent::Handled(stop)) => if stop {
                PipeServe::Finished(Ok(()))
            } else {
                PipeServe::Create
            },
            (s, _) => s,
        }
    }
}

/// Start to serve.
pub fn bind_and_serve() -> (r: PipeServe)
    ensures
        r == PipeServe::Probe,
{
    PipeServe::Probe
}

/// Where serving stands after a run of events.
pub open spec fn pipe_serve_after(events: Seq<PipeEvent>) -> PipeServe
    decreases events.len(),
{
    if events.len() == 0 {
        PipeServe::Probe
    } else {
        pipe_serve_next(pipe_serve_after(events.drop_last()), events.last())
    }
}

/// Whether an event tells of a daemon that was there already.
pub open spec fn somebody_answered(event: PipeEvent) -> bool {
    event is Probed && event->Probed_0 is Ok
}

/// Serving ends well only because a client asked for it, or because another
/// daemon was there from the start.
pub proof fn pipe_serving_ends_for_a_reason(events: Seq<PipeEvent>)
    ensures
        pipe_serve_after(events) is Finished && pipe_serve_after(events)->Finished_0 is Ok ==> events.contains(
            PipeEvent::Handled(true),
        ) || exists|i: int| 0 <= i < events.len() && somebody_answered(#[trigger] events[i]),
    decreases events.len(),
{
    if events.len() > 0 {
        let before = events.drop_last();
        pipe_serving_ends_for_a_reason(before);
        assert(events[events.len() - 1] == events.last());
        assert forall|e: PipeEvent| before.contains(e) implies events.contains(e) by {
            let i = choose|i: int| 0 <= i < before.len() && before[i] == e;
            assert(events[i] == e);
        }
        if exists|i: int| 0 <= i < before.len() && somebody_answered(#[trigger] before[i]) {
            let i = choose|i: int| 0 <= i < before.len() && somebody_answered(#[trigger] before[i]);
            assert(somebody_answered(events[i]));
        }
    }
}

/// A client that is silent, broken or merely done never ends the serving, and a
/// pipe is created only after connecting to it has shown that nobody serves.
pub proof fn a_live_pipe_is_left_alone(s: PipeServe, event: PipeEvent)
    ensures
        s is Handle && event != PipeEvent::Handled(true) ==> !(pipe_serve_next(
            s,
            event,
        ) is Finished),
        s is Probe && pipe_serve_next(s, event) is Create ==> event == PipeEvent::Probed(
            Err(OxiwakeError::NotRunning),
        ),
        s is Accept && event is Accepted && event->Accepted_0 is Ok ==> !(pipe_serve_next(
            s,
            event,
        ) is Finished),
{
}

// ---------------------------------------------------------------------------
// The singleton lock
// ---------------------------------------------------------------------------

/// What trying to lock the singleton file came to.
#[derive(Debug)]
pub enum SingletonAttempt {
    /// The file could not be opened.
    OpenFailed(IoError),
    /// The file could not be locked, with the system's error code.
    LockFailed(u32, IoError),
    /// The file is locked.
    Locked,
}

/// The claim to be the only daemon: `None` if another process holds it.
pub fn acquire_singleton_lock(attempt: SingletonAttempt) -> (r: Result<Option<SingletonLock>>)
    ensures
        match attempt {
            SingletonAttempt::OpenFailed(e) => r == Err::<Option<SingletonLock>, OxiwakeError>(
                OxiwakeError::Io(e),
            ),
            SingletonAttempt::LockFailed(code, e) => if code == ERROR_LOCK_VIOLATION {
                r == Ok::<Option<SingletonLock>, OxiwakeError>(None)
            } else {
                r == Err::<Option<SingletonLock>, OxiwakeError>(OxiwakeError::Io(e))
            },
            SingletonAttempt::Locked => r is Ok && r->Ok_0 is Some,
        },
{
    match attempt {
        SingletonAttempt::OpenFailed(e) => Err(OxiwakeError::Io(e)),
        SingletonAttempt::LockFailed(code, e) => {
            if code == ERROR_LOCK_VIOLATION {
                Ok(None)
            } else {
                Err(OxiwakeError::Io(e))
            }
        },
        SingletonAttempt::Locked => Ok(Some(SingletonLock::claimed())),
    }
}

} // verus!
