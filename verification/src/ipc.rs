//! Messages between the command line and the daemon.
//!
//! Both sides talk over one request/reply stream. Every message is one compact
//! JSON value on a line of its own: one line in, one line out, no length prefix.
//! This module frames and unframes lines; turning a line's JSON into a value
//! and moving the bytes is the program's part.

use crate::error::{ErrorView, IoError, IoErrorKind, OxiwakeError, Result};
use crate::model::{WakeStatus, WakeStatusView};
use crate::text::{decode_lossy, lossy_text};
use vstd::prelude::*;
use vstd::string::*;

verus! {

// ---------------------------------------------------------------------------
// Messages
// ---------------------------------------------------------------------------

/// A request from the command line to the daemon.
#[derive(Debug, Clone, Copy, PartialEq, Eq, Structural)]
pub enum ClientMsg {
    /// "Are you there?" Answered with the process id and the status.
    Ping,
    /// "What lock do you hold?" Answered with the status.
    Status,
    /// "Release the lock and exit." Answered, then the daemon shuts down.
    Stop,
}

/// A reply from the daemon.
///
/// When `ok` is false, `error` holds an explanation and the other fields are
/// `None`.
#[derive(Debug)]
pub struct DaemonReply {
    /// Whether the request succeeded.
    pub ok: bool,
    /// What went wrong, when `ok` is false.
    pub error: Option<String>,
    /// The daemon's lock, when the request asked for it.
    pub status: Option<WakeStatus>,
    /// The daemon's process id, in replies to `Ping`.
    pub pid: Option<u32>,
}

/// What a [`DaemonReply`] says.
#[verifier::ext_equal]
pub struct DaemonReplyView {
    pub ok: bool,
    pub error: Option<Seq<char>>,
    pub status: Option<WakeStatusView>,
    pub pid: Option<u32>,
}

impl View for DaemonReply {
    type V = DaemonReplyView;

    open spec fn view(&self) -> DaemonReplyView {
        DaemonReplyView {
            ok: self.ok,
            error: match self.error {
                Some(m) => Some(m@),
                None => None,
            },
            status: match self.status {
                Some(s) => Some(s@),
                None => None,
            },
            pid: self.pid,
        }
    }
}

impl Clone for DaemonReply {
    fn clone(&self) -> (r: DaemonReply)
        ensures
            r@ == self@,
    {
        DaemonReply {
            ok: self.ok,
            error: match &self.error {
                Some(m) => Some(m.clone()),
                None => None,
            },
            status: match &self.status {
                Some(s) => Some(s.clone()),
                None => None,
            },
            pid: self.pid,
        }
    }
}

impl DaemonReplyView {
    /// Whether the fields agree with `ok`: a failure explains itself and says
    /// nothing else, a success holds no error.
    pub open spec fn consistent(self) -> bool {
        &&& self.ok <==> self.error is None
        &&& !self.ok ==> self.status is None && self.pid is None
    }
}

impl DaemonReply {
    /// A successful reply with a status.
    pub fn ok_status(status: WakeStatus) -> (r: DaemonReply)
        ensures
            r@ == (DaemonReplyView { ok: true, error: None, status: Some(status@), pid: None }),
            r@.consistent(),
    {
        DaemonReply { ok: true, error: None, status: Some(status), pid: None }
    }

    /// A successful reply to `Ping`: status and process id.
    pub fn ok_ping(status: WakeStatus, pid: u32) -> (r: DaemonReply)
        ensures
            r@ == (DaemonReplyView { ok: true, error: None, status: Some(status@), pid: Some(pid) }),
            r@.consistent(),
    {
        DaemonReply { ok: true, error: None, status: Some(status), pid: Some(pid) }
    }

    /// A successful reply without a payload.
    pub fn ok_empty() -> (r: DaemonReply)
        ensures
            r@ == (DaemonReplyView { ok: true, error: None, status: None, pid: None }),
            r@.consistent(),
    {
        DaemonReply { ok: true, error: None, status: None, pid: None }
    }

    /// A failure with its explanation.
    pub fn err(message: String) -> (r: DaemonReply)
        ensures
            r@ == (DaemonReplyView { ok: false, error: Some(message@), status: None, pid: None }),
            r@.consistent(),
    {
        DaemonReply { ok: false, error: Some(message), status: None, pid: None }
    }
}

// ---------------------------------------------------------------------------
// Writing a message
// ---------------------------------------------------------------------------

/// The byte that ends a frame.
pub const NEWLINE: u8 = 10;

/// The frame of a message: its JSON text and one newline.
pub open spec fn frame(message: Seq<u8>) -> Seq<u8> {
    message.push(NEWLINE)
}

/// The bytes to send for a message, given what serializing it came to.
pub fn write_msg(serialized: core::result::Result<Vec<u8>, String>) -> (r: Result<Vec<u8>>)
    ensures
        match serialized {
            Ok(bytes) => r is Ok && r->Ok_0@ == frame(bytes@),
            Err(m) => r is Err && r->Err_0@ == ErrorView::Ipc(
                "could not serialize message: "@ + m@,
            ),
        },
{
    match serialized {
        Ok(bytes) => {
            let mut out = bytes;
            out.push(NEWLINE);
            Ok(out)
        },
        Err(m) => Err(
            OxiwakeError::Ipc("could not serialize message: ".to_string().concat(m.as_str())),
        ),
    }
}

// ---------------------------------------------------------------------------
// Reading a line
// ---------------------------------------------------------------------------

/// What reading one byte of a stream came to.
#[derive(Debug)]
pub enum ReadEvent {
    /// The other side has closed the stream.
    Eof,
    /// The next byte.
    Byte(u8),
    /// The read failed.
    Failed(IoError),
}

/// Where reading a line stands after an event.
#[derive(Debug)]
pub enum LineStep {
    /// The line goes on: read another byte.
    More,
    /// The line is complete, without its newline.
    Line(Vec<u8>),
    /// No line can be had.
    Failed(OxiwakeError),
}

/// What reading a line comes to.
#[verifier::ext_equal]
pub enum LineOutcome {
    /// The line is not complete; these bytes of it have arrived.
    Partial(Seq<u8>),
    /// The line without its newline.
    Line(Seq<u8>),
    /// No line can be had.
    Failed(ErrorView),
}

/// What one event makes of a line of which `buf` has arrived. A newline ends
/// the line. The end of the stream ends a line that has begun, and means that
/// nobody is there if none has. An interrupted read is tried again.
pub open spec fn line_step(buf: Seq<u8>, event: ReadEvent) -> LineOutcome {
    match event {
        ReadEvent::Byte(b) => if b == NEWLINE {
            LineOutcome::Line(buf)
        } else {
            LineOutcome::Partial(buf.push(b))
        },
        ReadEvent::Eof => if buf.len() == 0 {
            LineOutcome::Failed(ErrorView::NotRunning)
        } else {
            LineOutcome::Line(buf)
        },
        ReadEvent::Failed(e) => if e.kind == IoErrorKind::Interrupted {
            LineOutcome::Partial(buf)
        } else {
            LineOutcome::Failed(ErrorView::Io(e@))
        },
    }
}

/// Reads one line, event by event.
#[derive(Debug)]
pub struct LineReader {
    buf: Vec<u8>,
}

impl View for LineReader {
    type V = Seq<u8>;

    closed spec fn view(&self) -> Seq<u8> {
        self.buf@
    }
}

impl LineReader {
    /// A reader at the start of a line.
    pub fn new() -> (r: LineReader)
        ensures
            r@ == Seq::<u8>::empty(),
    {
        LineReader { buf: Vec::new() }
    }

    /// Take in one event. Once the line is complete the reader stands at the
    /// start of the next one.
    pub fn read_line(&mut self, event: ReadEvent) -> (r: LineStep)
        ensures
            match line_step(old(self)@, event) {
                LineOutcome::Partial(buf) => r is More && final(self)@ == buf,
                LineOutcome::Line(line) => r is Line && r->Line_0@ == line && final(self)@
                    == Seq::<u8>::empty(),
                LineOutcome::Failed(e) => r is Failed && r->Failed_0@ == e && final(self)@ == old(
                    self,
                )@,
            },
    {
        match event {
            ReadEvent::Eof => {
                if self.buf.len() == 0 {
                    LineStep::Failed(OxiwakeError::NotRunning)
                } else {
                    LineStep::Line(self.take_line())
                }
            },
            ReadEvent::Byte(b) => {
                if b == NEWLINE {
                    LineStep::Line(self.take_line())
                } else {
                    self.buf.push(b);
                    LineStep::More
                }
            },
            ReadEvent::Failed(e) => {
                if e.kind == IoErrorKind::Interrupted {
                    LineStep::More
                } else {
                    LineStep::Failed(OxiwakeError::Io(e))
                }
            },
        }
    }

    fn take_line(&mut self) -> (r: Vec<u8>)
        ensures
            r@ == old(self)@,
            final(self)@ == Seq::<u8>::empty(),
    {
        let mut line: Vec<u8> = Vec::new();
        line.append(&mut self.buf);
        assert(line@ =~= old(self)@);
        line
    }
}

/// What reading a line comes to over a run of events, and the events that are
/// left when it ends.
pub open spec fn read_run(buf: Seq<u8>, events: Seq<ReadEvent>) -> (LineOutcome, Seq<ReadEvent>)
    decreases events.len(),
{
    if events.len() == 0 {
        (LineOutcome::Partial(buf), events)
    } else {
        match line_step(buf, events[0]) {
            LineOutcome::Partial(more) => read_run(more, events.drop_first()),
            done => (done, events.drop_first()),
        }
    }
}

/// The events of reading these bytes one by one.
pub open spec fn byte_events(bytes: Seq<u8>) -> Seq<ReadEvent> {
    Seq::new(bytes.len(), |i: int| ReadEvent::Byte(bytes[i]))
}

/// Whether an event is an interrupted read.
pub open spec fn interrupted(event: ReadEvent) -> bool {
    event is Failed && event->Failed_0.kind == IoErrorKind::Interrupted
}

/// The events that are not interrupted reads.
pub open spec fn without_interruptions(events: Seq<ReadEvent>) -> Seq<ReadEvent>
    decreases events.len(),
{
    if events.len() == 0 {
        events
    } else if interrupted(events[0]) {
        without_interruptions(events.drop_first())
    } else {
        seq![events[0]] + without_interruptions(events.drop_first())
    }
}

/// Whether a message holds no newline.
pub open spec fn one_line(message: Seq<u8>) -> bool {
    forall|i: int| 0 <= i < message.len() ==> message[i] != NEWLINE
}

proof fn reading_bytes(buf: Seq<u8>, bytes: Seq<u8>, rest: Seq<ReadEvent>)
    requires
        one_line(bytes),
    ensures
        read_run(buf, byte_events(bytes) + rest) == read_run(buf + bytes, rest),
    decreases bytes.len(),
{
    let events = byte_events(bytes) + rest;
    if bytes.len() == 0 {
        assert(events =~= rest);
        assert(buf + bytes =~= buf);
    } else {
        let tail = bytes.drop_first();
        assert(events[0] == ReadEvent::Byte(bytes[0]));
        assert(events.drop_first() =~= byte_events(tail) + rest);
        assert(one_line(tail)) by {
            assert forall|i: int| 0 <= i < tail.len() implies tail[i] != NEWLINE by {
                assert(tail[i] == bytes[i + 1]);
            }
        }
        reading_bytes(buf.push(bytes[0]), tail, rest);
        assert(buf.push(bytes[0]) + tail =~= buf + bytes);
    }
}

/// Reading a frame gives back the line that was framed, and consumes exactly
/// the frame: what follows it is left for the next line.
pub proof fn a_frame_is_read_back(message: Seq<u8>, rest: Seq<ReadEvent>)
    requires
        one_line(message),
    ensures
        read_run(Seq::empty(), byte_events(frame(message)) + rest) == (
            LineOutcome::Line(message),
            rest,
        ),
{
    let end = seq![ReadEvent::Byte(NEWLINE)] + rest;
    assert(byte_events(frame(message)) + rest =~= byte_events(message) + end);
    reading_bytes(Seq::empty(), message, end);
    assert(Seq::<u8>::empty() + message =~= message);
    assert(end[0] == ReadEvent::Byte(NEWLINE));
    assert(end.drop_first() =~= rest);
}

/// A line whose writer closed the stream before the newline is the bytes that
/// arrived; if none arrived, nobody is there.
pub proof fn a_cut_line_is_kept(message: Seq<u8>, rest: Seq<ReadEvent>)
    requires
        one_line(message),
    ensures
        read_run(Seq::empty(), byte_events(message) + (seq![ReadEvent::Eof] + rest)) == (
            if message.len() == 0 {
                LineOutcome::Failed(ErrorView::NotRunning)
            } else {
                LineOutcome::Line(message)
            },
            rest,
        ),
{
    let end = seq![ReadEvent::Eof] + rest;
    reading_bytes(Seq::empty(), message, end);
    assert(Seq::<u8>::empty() + message =~= message);
    assert(end[0] == ReadEvent::Eof);
    assert(end.drop_first() =~= rest);
}

/// Interrupted reads change nothing: a run of events comes to what it comes to
/// without them.
pub proof fn interruptions_do_not_matter(buf: Seq<u8>, events: Seq<ReadEvent>)
    ensures
        read_run(buf, events).0 == read_run(buf, without_interruptions(events)).0,
    decreases events.len(),
{
    if events.len() > 0 {
        let tail = events.drop_first();
        if interrupted(events[0]) {
            interruptions_do_not_matter(buf, tail);
        } else {
            let kept = without_interruptions(events);
            assert(kept[0] == events[0]);
            assert(kept.drop_first() =~= without_interruptions(tail));
            if let LineOutcome::Partial(more) = line_step(buf, events[0]) {
                interruptions_do_not_matter(more, tail);
            }
        }
    }
}

// ---------------------------------------------------------------------------
// From a line to a message
// ---------------------------------------------------------------------------

/// The bytes that count as white space in ASCII.
pub open spec fn ascii_white(b: u8) -> bool {
    b == 32 || b == 9 || b == 10 || b == 12 || b == 13
}

/// Bytes without the white space at their start.
pub open spec fn trimmed_ascii_start(t: Seq<u8>) -> Seq<u8>
    decreases t.len(),
{
    if t.len() > 0 && ascii_white(t[0]) {
        trimmed_ascii_start(t.drop_first())
    } else {
        t
    }
}

/// Bytes without the white space at their end.
pub open spec fn trimmed_ascii_end(t: Seq<u8>) -> Seq<u8>
    decreases t.len(),
{
    if t.len() > 0 && ascii_white(t.last()) {
        trimmed_ascii_end(t.drop_last())
    } else {
        t
    }
}

/// Bytes without the white space at either end.
pub open spec fn trimmed_ascii(t: Seq<u8>) -> Seq<u8> {
    trimmed_ascii_start(trimmed_ascii_end(t))
}

fn is_ascii_white(b: u8) -> (r: bool)
    ensures
        r == ascii_white(b),
{
    b == 32 || b == 9 || b == 10 || b == 12 || b == 13
}

/// The JSON text on a line: the line without surrounding white space. A line
/// with nothing else on it is malformed.
pub fn read_msg(line: &[u8]) -> (r: Result<Vec<u8>>)
    ensures
        if trimmed_ascii(line@).len() == 0 {
            r is Err && r->Err_0@ == ErrorView::Ipc("received an empty IPC frame"@)
        } else {
            r is Ok && r->Ok_0@ == trimmed_ascii(line@)
        },
{
    let mut to: usize = line.len();
    assert(line@.take(to as int) =~= line@);
    while to > 0 && is_ascii_white(line[to - 1])
        invariant
            to <= line@.len(),
            trimmed_ascii_end(line@) == trimmed_ascii_end(line@.take(to as int)),
        decreases to,
    {
        assert(line@.take(to as int).drop_last() =~= line@.take(to - 1));
        to = to - 1;
    }
    let ghost kept = line@.take(to as int);
    let mut from: usize = 0;
    while from < to && is_ascii_white(line[from])
        invariant
            from <= to <= line@.len(),
            kept == line@.take(to as int),
            trimmed_ascii_start(kept) == trimmed_ascii_start(
                line@.subrange(from as int, to as int),
            ),
        decreases to - from,
    {
        assert(line@.subrange(from as int, to as int).drop_first() =~= line@.subrange(
            from + 1,
            to as int,
        ));
        from = from + 1;
    }
    let ghost body = line@.subrange(from as int, to as int);
    assert(trimmed_ascii(line@) == body);
    if from == to {
        return Err(OxiwakeError::Ipc("received an empty IPC frame".to_string()));
    }
    let mut out: Vec<u8> = Vec::new();
    let mut i: usize = from;
    while i < to
        invariant
            from <= i <= to <= line@.len(),
            out@ == line@.subrange(from as int, i as int),
        decreases to - i,
    {
        out.push(line[i]);
        i = i + 1;
        assert(out@ =~= line@.subrange(from as int, i as int));
    }
    Ok(out)
}

/// A message as the daemon and the command line send it: one line, not empty,
/// with no white space at either end.
pub open spec fn sendable(message: Seq<u8>) -> bool {
    &&& one_line(message)
    &&& message.len() > 0
    &&& !ascii_white(message[0])
    &&& !ascii_white(message.last())
}

/// What is read is what was written: a message framed by [`write_msg`], read
/// with [`LineReader::read_line`] and unframed by [`read_msg`], is the message.
/// White space around it, such as a carriage return before the newline, makes
/// no difference.
pub proof fn messages_round_trip(
    message: Seq<u8>,
    before: Seq<u8>,
    after: Seq<u8>,
    rest: Seq<ReadEvent>,
)
    requires
        sendable(message),
        one_line(before),
        one_line(after),
        forall|i: int| 0 <= i < before.len() ==> ascii_white(before[i]),
        forall|i: int| 0 <= i < after.len() ==> ascii_white(after[i]),
    ensures
        read_run(Seq::empty(), byte_events(frame(before + message + after)) + rest) == (
            LineOutcome::Line(before + message + after),
            rest,
        ),
        trimmed_ascii(before + message + after) == message,
{
    let line = before + message + after;
    assert(one_line(line)) by {
        assert forall|i: int| 0 <= i < line.len() implies line[i] != NEWLINE by {
            if i < before.len() {
                assert(line[i] == before[i]);
            } else if i < before.len() + message.len() {
                assert(line[i] == message[i - before.len()]);
            } else {
                assert(line[i] == after[i - before.len() - message.len()]);
            }
        }
    }
    a_frame_is_read_back(line, rest);
    trimming_the_end(before + message, after);
    trimming_the_start(before, message);
}

/// What receiving a message comes to.
#[verifier::ext_equal]
pub enum Received<M> {
    /// The line is not complete.
    Waiting,
    /// The message.
    Message(M),
    /// The line's JSON is not the expected value.
    Unreadable(Seq<u8>),
    /// The line holds nothing.
    Empty,
    /// No line can be had.
    Failed(ErrorView),
}

/// What receiving a message comes to over a run of events, and the events that
/// are left, where `decode` is how the text of a message is read.
pub open spec fn receive<M>(
    decode: spec_fn(Seq<u8>) -> Option<M>,
    events: Seq<ReadEvent>,
) -> (Received<M>, Seq<ReadEvent>) {
    let (line, rest) = read_run(Seq::empty(), events);
    let received = match line {
        LineOutcome::Partial(_) => Received::Waiting,
        LineOutcome::Failed(e) => Received::Failed(e),
        LineOutcome::Line(l) => {
            let body = trimmed_ascii(l);
            if body.len() == 0 {
                Received::Empty
            } else {
                match decode(body) {
                    Some(m) => Received::Message(m),
                    None => Received::Unreadable(body),
                }
            }
        },
    };
    (received, rest)
}

/// What receiving `n` messages one after the other comes to, and the events that
/// are left.
pub open spec fn receive_many<M>(
    decode: spec_fn(Seq<u8>) -> Option<M>,
    events: Seq<ReadEvent>,
    n: nat,
) -> (Seq<Received<M>>, Seq<ReadEvent>)
    decreases n,
{
    if n == 0 {
        (Seq::empty(), events)
    } else {
        let (first, rest) = receive(decode, events);
        let (others, left) = receive_many(decode, rest, (n - 1) as nat);
        (seq![first] + others, left)
    }
}

/// The bytes of messages that are sent one after the other, where `encode` is how
/// the text of a message is written.
pub open spec fn sent<M>(encode: spec_fn(M) -> Seq<u8>, messages: Seq<M>) -> Seq<u8>
    decreases messages.len(),
{
    if messages.len() == 0 {
        Seq::empty()
    } else {
        frame(encode(messages[0])) + sent(encode, messages.drop_first())
    }
}

/// Whether a way to write the text of messages and a way to read it belong
/// together: every text can be sent, and reading undoes writing.
pub open spec fn fits<M>(
    encode: spec_fn(M) -> Seq<u8>,
    decode: spec_fn(Seq<u8>) -> Option<M>,
) -> bool {
    forall|m: M|
        #![trigger encode(m)]
        sendable(encode(m)) && decode(encode(m)) == Some(m)
}

/// Messages that were written are read back in order. Whatever their texts look
/// like, as long as each is one trimmed line that reads as its message: as many
/// reads as there were writes give the messages, each read consuming its frame and
/// no more; and one more read at the end of the stream says that nobody is there.
pub proof fn messages_are_read_in_order<M>(
    encode: spec_fn(M) -> Seq<u8>,
    decode: spec_fn(Seq<u8>) -> Option<M>,
    messages: Seq<M>,
    rest: Seq<ReadEvent>,
)
    requires
        fits(encode, decode),
    ensures
        receive_many(decode, byte_events(sent(encode, messages)) + rest, messages.len()) == (
            Seq::new(messages.len(), |i: int| Received::Message(messages[i])),
            rest,
        ),
        receive(decode, seq![ReadEvent::Eof] + rest) == (
            Received::<M>::Failed(ErrorView::NotRunning),
            rest,
        ),
    decreases messages.len(),
{
    let expected = Seq::new(messages.len(), |i: int| Received::Message(messages[i]));
    let bytes = sent(encode, messages);
    if messages.len() == 0 {
        assert(byte_events(bytes) + rest =~= rest);
        assert(expected =~= Seq::<Received<M>>::empty());
    } else {
        let first = encode(messages[0]);
        let others = messages.drop_first();
        let tail = byte_events(sent(encode, others)) + rest;
        let none = Seq::<u8>::empty();
        assert(none + first + none =~= first);
        messages_round_trip(first, none, none, tail);
        assert(byte_events(bytes) + rest =~= byte_events(frame(first)) + tail);
        assert(receive(decode, byte_events(bytes) + rest) == (
            Received::Message(messages[0]),
            tail,
        ));
        messages_are_read_in_order(encode, decode, others, rest);
        let later = Seq::new(others.len(), |i: int| Received::Message(others[i]));
        assert(expected =~= seq![Received::Message(messages[0])] + later);
    }
    a_cut_line_is_kept(Seq::empty(), rest);
    assert(byte_events(Seq::<u8>::empty()) + (seq![ReadEvent::Eof] + rest) =~= seq![ReadEvent::Eof]
        + rest);
}

proof fn trimming_the_end(body: Seq<u8>, pad: Seq<u8>)
    requires
        body.len() > 0,
        !ascii_white(body.last()),
        forall|i: int| 0 <= i < pad.len() ==> ascii_white(pad[i]),
    ensures
        trimmed_ascii_end(body + pad) == body,
    decreases pad.len(),
{
    if pad.len() == 0 {
        assert(body + pad =~= body);
    } else {
        assert((body + pad).last() == pad.last());
        assert((body + pad).drop_last() =~= body + pad.drop_last());
        trimming_the_end(body, pad.drop_last());
    }
}

proof fn trimming_the_start(pad: Seq<u8>, body: Seq<u8>)
    requires
        body.len() > 0,
        !ascii_white(body[0]),
        forall|i: int| 0 <= i < pad.len() ==> ascii_white(pad[i]),
    ensures
        trimmed_ascii_start(pad + body) == body,
    decreases pad.len(),
{
    if pad.len() == 0 {
        assert(pad + body =~= body);
    } else {
        assert((pad + body)[0] == pad[0]);
        assert((pad + body).drop_first() =~= pad.drop_first() + body);
        trimming_the_start(pad.drop_first(), body);
    }
}

// ---------------------------------------------------------------------------
// A line that is no message
// ---------------------------------------------------------------------------

/// The text that formatting a text for debugging gives.
pub uninterp spec fn debug_text(text: Seq<char>) -> Seq<char>;

/// The standard library's `Debug` formatting of a text: quoted and escaped. The
/// result depends on the text alone; the escapes are not spelled out.
#[verifier::external_body]
fn format_debug(text: &str) -> (r: String)
    ensures
        r@ == debug_text(text@),
{
    format!("{:?}", text)
}

/// The explanation for a line whose JSON is not the expected value.
pub open spec fn parse_failure_text(error: Seq<char>, shown: Seq<char>) -> Seq<char> {
    "could not parse IPC frame ("@ + error + "): "@ + shown
}

/// The error for a line whose JSON is not the expected value, given the line as
/// it is to be shown.
pub fn parse_failure_shown(error: &str, shown: &str) -> (r: OxiwakeError)
    ensures
        r@ == ErrorView::Ipc(parse_failure_text(error@, shown@)),
{
    OxiwakeError::Ipc(
        "could not parse IPC frame (".to_string().concat(error).concat("): ").concat(shown),
    )
}

/// The error for a line whose JSON is not the expected value.
pub fn parse_failure(error: &str, body: &[u8]) -> (r: OxiwakeError)
    ensures
        r@ == ErrorView::Ipc(parse_failure_text(error@, debug_text(lossy_text(body@)))),
{
    let text = decode_lossy(body);
    let shown = format_debug(text.as_str());
    parse_failure_shown(error, shown.as_str())
}

} // verus!
