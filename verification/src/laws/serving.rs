//! Serving on a socket or a pipe, bounded input and output, and files.

use crate::error::{ErrorView, IoError, IoErrorKind, OxiwakeError, Result};
use crate::ipc::{
    ascii_white, frame, line_step, parse_failure_text, trimmed_ascii, trimmed_ascii_end,
    trimmed_ascii_start, LineOutcome, ReadEvent,
};
use crate::platform::linux::{nobody_listens, serve_next, Serve, ServeEvent};
use crate::platform::windows::{
    accept_next, connect_step, instance_next, pipe_serve_next, read_next, wait_limit,
    write_next as pipe_write_next, BoundedAccept, BoundedRead, BoundedWrite, Call, ConnectOutcome,
    ConnectStep, CreateInstance, PipeEvent, PipeServe, ReadOutcome, WriteOutcome,
};
use crate::state::{read_result, tmp_path, write_next, JsonRead, LockState, WriteState};
use vstd::prelude::*;

verus! {

// ---------------------------------------------------------------------------
// Serving
// ---------------------------------------------------------------------------

/// A daemon on a socket serves. Where nobody listens it clears the way, binds,
/// restricts the socket and accepts; it handles whoever connects and accepts
/// again, whatever became of one accept or one client; and when a client asks to
/// stop, it deletes the socket and ends well. Where somebody listens it ends well
/// at once. A failure to probe, to clear the way or to bind is what it ends with.
pub proof fn a_socket_is_served(io: IoError, e: OxiwakeError)
    ensures
        serve_next(Serve::Probe, ServeEvent::Probed(Err(OxiwakeError::NotRunning))) is RemoveStale,
        serve_next(Serve::Probe, ServeEvent::Probed(Ok(()))) is Finished,
        serve_next(Serve::Probe, ServeEvent::Probed(Ok(())))->Finished_0 is Ok,
        !(e is NotRunning) ==> serve_next(Serve::Probe, ServeEvent::Probed(Err(e)))
            == Serve::Finished(Err(e)),
        serve_next(Serve::RemoveStale, ServeEvent::StaleRemoved(Ok(()))) is Bind,
        io.kind == IoErrorKind::NotFound ==> serve_next(
            Serve::RemoveStale,
            ServeEvent::StaleRemoved(Err(io)),
        ) is Bind,
        io.kind != IoErrorKind::NotFound ==> serve_next(
            Serve::RemoveStale,
            ServeEvent::StaleRemoved(Err(io)),
        ) == Serve::Finished(Err(OxiwakeError::Io(io))),
        serve_next(Serve::Bind, ServeEvent::Bound(Ok(()))) is Restrict,
        serve_next(Serve::Bind, ServeEvent::Bound(Err(io))) == Serve::Finished(
            Err(OxiwakeError::Io(io)),
        ),
        serve_next(Serve::Restrict, ServeEvent::Restricted) is Accept,
        serve_next(Serve::Accept, ServeEvent::Accepted(Ok(()))) is Handle,
        serve_next(Serve::Accept, ServeEvent::Accepted(Err(io))) is Accept,
        serve_next(Serve::Handle, ServeEvent::Handled(false)) is Accept,
        serve_next(Serve::Handle, ServeEvent::Handled(true)) is CleanUp,
        serve_next(Serve::CleanUp, ServeEvent::CleanedUp) is Finished,
        serve_next(Serve::CleanUp, ServeEvent::CleanedUp)->Finished_0 is Ok,
{
}

/// Whether an event answers what serving on a socket is doing.
pub open spec fn serve_awaits(s: Serve, event: ServeEvent) -> bool {
    ||| s is Probe && event is Probed
    ||| s is RemoveStale && event is StaleRemoved
    ||| s is Bind && event is Bound
    ||| s is Restrict && event is Restricted
    ||| s is Accept && event is Accepted
    ||| s is Handle && event is Handled
    ||| s is CleanUp && event is CleanedUp
}

/// Serving on a socket moves only when what it is doing is answered.
pub proof fn serving_moves_only_when_answered(s: Serve, event: ServeEvent)
    requires
        !serve_awaits(s, event),
    ensures
        serve_next(s, event) == s,
{
}

/// Nobody listens exactly where there is no socket or the connection is refused.
pub proof fn absence_is_told_from_failure(kind: IoErrorKind)
    ensures
        nobody_listens(kind) <==> kind == IoErrorKind::NotFound || kind
            == IoErrorKind::ConnectionRefused,
{
}

/// A daemon on a pipe serves: it creates an instance, waits for a client, and
/// handles it, over and over, and makes a new instance where none came in time;
/// it ends well when a client asks to stop, or at once where somebody serves
/// already. A failure to probe, to create or to wait is what it ends with.
pub proof fn a_pipe_is_served(io: IoError, e: OxiwakeError)
    ensures
        pipe_serve_next(PipeServe::Probe, PipeEvent::Probed(Err(OxiwakeError::NotRunning)))
            is Create,
        pipe_serve_next(PipeServe::Probe, PipeEvent::Probed(Ok(()))) is Finished,
        pipe_serve_next(PipeServe::Probe, PipeEvent::Probed(Ok(())))->Finished_0 is Ok,
        !(e is NotRunning) ==> pipe_serve_next(PipeServe::Probe, PipeEvent::Probed(Err(e)))
            == PipeServe::Finished(Err(e)),
        pipe_serve_next(PipeServe::Create, PipeEvent::Created(Ok(()))) is Accept,
        pipe_serve_next(PipeServe::Create, PipeEvent::Created(Err(io))) == PipeServe::Finished(
            Err(OxiwakeError::Io(io)),
        ),
        pipe_serve_next(PipeServe::Accept, PipeEvent::Accepted(Ok(true))) is Handle,
        pipe_serve_next(PipeServe::Accept, PipeEvent::Accepted(Ok(false))) is Create,
        pipe_serve_next(PipeServe::Accept, PipeEvent::Accepted(Err(io))) == PipeServe::Finished(
            Err(OxiwakeError::Io(io)),
        ),
        pipe_serve_next(PipeServe::Handle, PipeEvent::Handled(false)) is Create,
        pipe_serve_next(PipeServe::Handle, PipeEvent::Handled(true)) is Finished,
        pipe_serve_next(PipeServe::Handle, PipeEvent::Handled(true))->Finished_0 is Ok,
{
}

/// Whether an event answers what serving on a pipe is doing.
pub open spec fn pipe_serve_awaits(s: PipeServe, event: PipeEvent) -> bool {
    ||| s is Probe && event is Probed
    ||| s is Create && event is Created
    ||| s is Accept && event is Accepted
    ||| s is Handle && event is Handled
}

/// Serving on a pipe moves only when what it is doing is answered.
pub proof fn pipe_serving_moves_only_when_answered(s: PipeServe, event: PipeEvent)
    requires
        !pipe_serve_awaits(s, event),
    ensures
        pipe_serve_next(s, event) == s,
{
}

// ---------------------------------------------------------------------------
// Pipes
// ---------------------------------------------------------------------------

/// A client of a pipe knows a missing daemon from a busy one: no file and no path
/// mean that none is there; a busy pipe is tried again for what is left of two
/// seconds; anything else fails with its own code.
pub proof fn a_client_knows_missing_from_busy(code: u32, ms: u64)
    ensures
        code == 2 || code == 3 ==> connect_step(code, ms) is NotRunning,
        code == 231 && ms < 2000 ==> connect_step(code, ms) == ConnectStep::Retry(
            (2000 - ms) as u64,
        ),
        code == 231 && ms >= 2000 ==> connect_step(code, ms) == ConnectStep::Fail(code),
        code != 2 && code != 3 && code != 231 ==> connect_step(code, ms) == ConnectStep::Fail(code),
{
}

/// What the pipe delivers is what a bounded read gives: bytes that are there at
/// once, bytes that arrive in time, the end of the stream where the other side
/// has closed it, that the time was up, or the system's own error.
pub proof fn a_bounded_read_gives_what_arrived(n: u32, code: u32, w: u32)
    ensures
        ({
            let s0 = BoundedRead::CreateEvent;
            let s1 = read_next(s0, Ok(n));
            let s2 = read_next(s1, Ok(n));
            let s3 = read_next(s2, Err(997));
            let s4 = read_next(s3, Ok(w));
            &&& s1 is ResetEvent && s2 is Start && s3 is Wait
            &&& read_next(s2, Ok(n)) == BoundedRead::Done(ReadOutcome::Bytes(n))
            &&& read_next(s2, Err(109)) == BoundedRead::Done(ReadOutcome::Bytes(0))
            &&& code != 109 && code != 997 ==> read_next(s2, Err(code)) == BoundedRead::Done(
                ReadOutcome::Failed(code),
            )
            &&& w != 258 ==> s4 is Finish && read_next(s4, Ok(n)) == BoundedRead::Done(
                ReadOutcome::Bytes(n),
            ) && read_next(s4, Err(109)) == BoundedRead::Done(ReadOutcome::Bytes(0)) && (code
                != 109 ==> read_next(s4, Err(code)) == BoundedRead::Done(ReadOutcome::Failed(code)))
            &&& w == 258 ==> {
                let s5 = read_next(s4, Err(code));
                let s6 = read_next(s5, Err(code));
                &&& s4 is Cancel && s5 is Drain
                &&& s6 == BoundedRead::Done(ReadOutcome::TimedOut)
                &&& read_next(s4, Ok(n)) is Drain
                &&& read_next(s5, Ok(n)) == BoundedRead::Done(ReadOutcome::TimedOut)
            }
            &&& read_next(s0, Err(code)) == BoundedRead::Done(ReadOutcome::Failed(code))
            &&& read_next(s1, Err(code)) == BoundedRead::Done(ReadOutcome::Failed(code))
            &&& read_next(s3, Err(code)) == BoundedRead::Done(ReadOutcome::Failed(code))
        }),
{
}

/// What the pipe takes is what a bounded write gives: bytes taken at once or in
/// time, that the time was up, or the system's own error.
pub proof fn a_bounded_write_gives_what_was_taken(n: u32, code: u32, w: u32)
    ensures
        ({
            let s0 = BoundedWrite::CreateEvent;
            let s1 = pipe_write_next(s0, Ok(n));
            let s2 = pipe_write_next(s1, Ok(n));
            let s3 = pipe_write_next(s2, Err(997));
            let s4 = pipe_write_next(s3, Ok(w));
            &&& s1 is ResetEvent && s2 is Start && s3 is Wait
            &&& pipe_write_next(s2, Ok(n)) == BoundedWrite::Done(WriteOutcome::Bytes(n))
            &&& code != 997 ==> pipe_write_next(s2, Err(code)) == BoundedWrite::Done(
                WriteOutcome::Failed(code),
            )
            &&& w != 258 ==> s4 is Finish && pipe_write_next(s4, Ok(n)) == BoundedWrite::Done(
                WriteOutcome::Bytes(n),
            ) && pipe_write_next(s4, Err(code)) == BoundedWrite::Done(WriteOutcome::Failed(code))
            &&& w == 258 ==> {
                let s5 = pipe_write_next(s4, Err(code));
                &&& s4 is Cancel && s5 is Drain && pipe_write_next(s4, Ok(n)) is Drain
                &&& pipe_write_next(s5, Err(code)) == BoundedWrite::Done(WriteOutcome::TimedOut)
                &&& pipe_write_next(s5, Ok(n)) == BoundedWrite::Done(WriteOutcome::TimedOut)
            }
            &&& pipe_write_next(s0, Err(code)) == BoundedWrite::Done(WriteOutcome::Failed(code))
            &&& pipe_write_next(s1, Err(code)) == BoundedWrite::Done(WriteOutcome::Failed(code))
            &&& pipe_write_next(s3, Err(code)) == BoundedWrite::Done(WriteOutcome::Failed(code))
        }),
{
}

/// A client that comes is let in, whether it was there before it was waited for,
/// comes at once or comes in time; one that does not come in time is not waited
/// for any longer; and a failure is told with the system's own code.
pub proof fn a_bounded_accept_lets_clients_in(n: u32, code: u32, w: u32)
    ensures
        ({
            let s0 = BoundedAccept::ResetEvent;
            let s1 = accept_next(s0, Ok(n));
            let s2 = accept_next(s1, Err(997));
            let s3 = accept_next(s2, Ok(w));
            &&& s1 is Start && s2 is Wait
            &&& accept_next(s1, Ok(n)) == BoundedAccept::Done(ConnectOutcome::Connected)
            &&& accept_next(s1, Err(535)) == BoundedAccept::Done(ConnectOutcome::Connected)
            &&& code != 535 && code != 997 ==> accept_next(s1, Err(code)) == BoundedAccept::Done(
                ConnectOutcome::Failed(code),
            )
            &&& w != 258 ==> s3 is Finish && accept_next(s3, Ok(n)) == BoundedAccept::Done(
                ConnectOutcome::Connected,
            ) && accept_next(s3, Err(code)) == BoundedAccept::Done(ConnectOutcome::Failed(code))
            &&& w == 258 ==> {
                let s4 = accept_next(s3, Err(code));
                &&& s3 is Cancel && s4 is Drain && accept_next(s3, Ok(n)) is Drain
                &&& accept_next(s4, Err(code)) == BoundedAccept::Done(ConnectOutcome::Timeout)
                &&& accept_next(s4, Ok(n)) == BoundedAccept::Done(ConnectOutcome::Timeout)
            }
            &&& accept_next(s0, Err(code)) == BoundedAccept::Done(ConnectOutcome::Failed(code))
            &&& accept_next(s2, Err(code)) == BoundedAccept::Done(ConnectOutcome::Failed(code))
        }),
{
}

/// An instance of the pipe is an event and a pipe; where either fails, so does the
/// instance, with that code, and an event without a pipe is closed.
pub proof fn an_instance_is_an_event_and_a_pipe(n: u32, code: u32, any: Call)
    ensures
        instance_next(CreateInstance::CreateEvent, Ok(n)) is CreatePipe,
        instance_next(CreateInstance::CreateEvent, Err(code)) == CreateInstance::Done(Err(code)),
        instance_next(CreateInstance::CreatePipe, Ok(n)) is Done,
        instance_next(CreateInstance::CreatePipe, Ok(n))->Done_0 is Ok,
        instance_next(CreateInstance::CreatePipe, Err(code)) == CreateInstance::CloseEvent(code),
        instance_next(CreateInstance::CloseEvent(code), any) == CreateInstance::Done(Err(code)),
{
}

/// What has ended stays as it ended, whatever call follows.
pub proof fn what_has_ended_stays_ended(
    read: ReadOutcome,
    taken: WriteOutcome,
    came: ConnectOutcome,
    made: core::result::Result<(), u32>,
    any: Call,
)
    ensures
        read_next(BoundedRead::Done(read), any) == BoundedRead::Done(read),
        pipe_write_next(BoundedWrite::Done(taken), any) == BoundedWrite::Done(taken),
        accept_next(BoundedAccept::Done(came), any) == BoundedAccept::Done(came),
        instance_next(CreateInstance::Done(made), any) == CreateInstance::Done(made),
{
}

/// A wait takes as long as it should, in milliseconds, as far as the system can
/// count.
pub proof fn waits_take_as_long_as_they_should(secs: u64, millis: u32)
    ensures
        secs * 1000 + millis <= u32::MAX ==> wait_limit(secs, millis) == secs * 1000 + millis,
        secs * 1000 + millis > u32::MAX ==> wait_limit(secs, millis) == u32::MAX,
{
}

// ---------------------------------------------------------------------------
// Lines and files
// ---------------------------------------------------------------------------

/// A message's frame is the message and one line feed.
pub proof fn a_frame_is_the_message_and_a_line_feed(message: Seq<u8>)
    ensures
        frame(message).len() == message.len() + 1,
        frame(message).take(message.len() as int) == message,
        frame(message).last() == 10,
{
    assert(frame(message).take(message.len() as int) =~= message);
}

/// A line grows byte by byte and ends at a line feed, or where the stream ends if
/// it has begun. An interrupted read changes nothing, and any other failure is
/// told as it is.
pub proof fn a_line_grows_byte_by_byte(buf: Seq<u8>, b: u8, e: IoError)
    ensures
        b != 10 ==> line_step(buf, ReadEvent::Byte(b)) == LineOutcome::Partial(buf.push(b)),
        b == 10 ==> line_step(buf, ReadEvent::Byte(b)) == LineOutcome::Line(buf),
        buf.len() > 0 ==> line_step(buf, ReadEvent::Eof) == LineOutcome::Line(buf),
        buf.len() == 0 ==> line_step(buf, ReadEvent::Eof) == LineOutcome::Failed(
            ErrorView::NotRunning,
        ),
        e.kind == IoErrorKind::Interrupted ==> line_step(buf, ReadEvent::Failed(e))
            == LineOutcome::Partial(buf),
        e.kind != IoErrorKind::Interrupted ==> line_step(buf, ReadEvent::Failed(e))
            == LineOutcome::Failed(ErrorView::Io(e@)),
{
}

/// What counts as white space around a message: the space, the tab, the line
/// feed, the form feed and the carriage return.
pub proof fn ascii_white_space(b: u8)
    ensures
        ascii_white(b) <==> b == 0x20 || b == 0x09 || b == 0x0a || b == 0x0c || b == 0x0d,
{
}

/// White space around a message is taken off, and a line of nothing but white space
/// holds none.
pub proof fn white_lines_hold_no_message(before: Seq<u8>, message: Seq<u8>, after: Seq<u8>)
    requires
        forall|i: int| 0 <= i < before.len() ==> ascii_white(#[trigger] before[i]),
        forall|i: int| 0 <= i < after.len() ==> ascii_white(#[trigger] after[i]),
        message.len() > 0 ==> !ascii_white(message[0]) && !ascii_white(message.last()),
    ensures
        trimmed_ascii(before + message + after) == message,
{
    if message.len() > 0 {
        the_end_is_trimmed(before + message, after);
        the_start_is_trimmed(before, message);
    } else {
        let all = before + message + after;
        assert forall|i: int| 0 <= i < all.len() implies ascii_white(#[trigger] all[i]) by {
            if i < before.len() {
                assert(all[i] == before[i]);
            } else {
                assert(all[i] == after[i - before.len()]);
            }
        }
        nothing_is_left(all);
        assert(trimmed_ascii(all) =~= message);
    }
}

proof fn nothing_is_left(t: Seq<u8>)
    requires
        forall|i: int| 0 <= i < t.len() ==> ascii_white(#[trigger] t[i]),
    ensures
        trimmed_ascii_end(t).len() == 0,
    decreases t.len(),
{
    if t.len() > 0 {
        assert(ascii_white(t[t.len() - 1]));
        nothing_is_left(t.drop_last());
    }
}

proof fn the_end_is_trimmed(t: Seq<u8>, after: Seq<u8>)
    requires
        t.len() > 0,
        !ascii_white(t.last()),
        forall|i: int| 0 <= i < after.len() ==> ascii_white(#[trigger] after[i]),
    ensures
        trimmed_ascii_end(t + after) == t,
    decreases after.len(),
{
    let all = t + after;
    if after.len() == 0 {
        assert(all =~= t);
    } else {
        assert(all.last() == after[after.len() - 1]);
        assert(all.drop_last() =~= t + after.drop_last());
        the_end_is_trimmed(t, after.drop_last());
    }
}

proof fn the_start_is_trimmed(before: Seq<u8>, t: Seq<u8>)
    requires
        t.len() > 0,
        !ascii_white(t[0]),
        forall|i: int| 0 <= i < before.len() ==> ascii_white(#[trigger] before[i]),
    ensures
        trimmed_ascii_start(before + t) == t,
    decreases before.len(),
{
    let all = before + t;
    if before.len() == 0 {
        assert(all =~= t);
    } else {
        assert(all[0] == before[0]);
        assert(all.drop_first() =~= before.drop_first() + t);
        the_start_is_trimmed(before.drop_first(), t);
    }
}

/// The error for a line that is no message holds the parser's words and the line.
pub proof fn parse_failures_show_the_line(error: Seq<char>, shown: Seq<char>)
    ensures
        parse_failure_text(error, shown) == "could not parse IPC frame ("@ + error + "): "@ + shown,
{
}

/// A missing snapshot is none, one that is there is handed on with every field,
/// and one that cannot be read or parsed is an error that says so.
pub proof fn snapshots_are_handed_on(
    st: LockState,
    path: String,
    error: String,
    e: IoError,
)
    ensures
        ({
            let r = read_result(JsonRead::Value(st));
            &&& r is Ok && r->Ok_0 is Some
            &&& r->Ok_0->Some_0.pid == st.pid
            &&& r->Ok_0->Some_0.backend == st.backend@
            &&& r->Ok_0->Some_0.started_unix == st.started_unix
            &&& r->Ok_0->Some_0.request.targets == st.request.targets@
            &&& r->Ok_0->Some_0.request.reason == st.request.reason@
            &&& r->Ok_0->Some_0.request.display == st.request.display
            &&& r->Ok_0->Some_0.request.aggressive_lid == st.request.aggressive_lid
        }),
        read_result(JsonRead::Malformed { path, error }) is Err,
        read_result(JsonRead::Malformed { path, error })->Err_0 == ErrorView::State(
            "could not parse "@ + path@ + ": "@ + error@,
        ),
        e.kind == IoErrorKind::NotFound ==> read_result(JsonRead::Failed(e)) is Ok && read_result(
            JsonRead::Failed(e),
        )->Ok_0 is None,
        e.kind != IoErrorKind::NotFound ==> read_result(JsonRead::Failed(e)) is Err && read_result(
            JsonRead::Failed(e),
        )->Err_0 == ErrorView::Io(e@),
{
}

/// A write goes to the sibling file and is then moved into place; a failure is
/// what it ends with, after the sibling file was deleted.
pub proof fn a_write_goes_through_the_sibling(
    e: IoError,
    any: core::result::Result<(), IoError>,
    ended: Result<()>,
)
    ensures
        write_next(WriteState::Writing, Ok(())) is Renaming,
        write_next(WriteState::Renaming, Ok(())) is Finished,
        write_next(WriteState::Renaming, Ok(()))->Finished_0 is Ok,
        write_next(WriteState::Writing, Err(e)) == WriteState::CleaningUp(e),
        write_next(WriteState::Renaming, Err(e)) == WriteState::CleaningUp(e),
        write_next(WriteState::CleaningUp(e), any) == WriteState::Finished(
            Err(OxiwakeError::Io(e)),
        ),
        write_next(WriteState::Finished(ended), any) == WriteState::Finished(ended),
{
}

/// The sibling of a file has the file's name and `.tmp` after it, and is another
/// file.
pub proof fn the_sibling_is_another_file(file: Seq<u8>)
    ensures
        tmp_path(file).take(file.len() as int) == file,
        tmp_path(file).skip(file.len() as int) == seq![0x2eu8, 0x74u8, 0x6du8, 0x70u8],
        tmp_path(file) != file,
{
    assert(tmp_path(file).take(file.len() as int) =~= file);
    assert(tmp_path(file).skip(file.len() as int) =~= seq![0x2eu8, 0x74u8, 0x6du8, 0x70u8]);
    assert(tmp_path(file).len() == file.len() + 4);
}

} // verus!
