//! The lines a streamed child process produces, the bounded buffer that
//! holds the lines not yet read, and the events sent to the user interface
//! for them.
//!
//! The child process, its pipes and the channel are run by the caller; it
//! keeps a `BufferState` and calls `push` for each line read and
//! `clear_through` for each line handed out.
use crate::text::{chars_of, string_of};
use vstd::prelude::*;

verus! {

/// At most this many bytes of unread output are kept.
pub const MAX_BUFFER_BYTES: usize = 1048576;

/// A line of a streamed process, or the end of the process.
#[derive(Debug, Clone, PartialEq, Eq)]
pub enum StreamLine {
    Stdout(String),
    Stderr(String),
    Finished,
}

/// The UTF-8 length of a text, in bytes.
pub open spec fn byte_len(s: Seq<char>) -> nat {
    vstd::utf8::encode_utf8(s).len()
}

/// The space a line takes in the buffer: its bytes and a newline; the end
/// marker takes one byte.
pub open spec fn line_size_spec(line: StreamLine) -> nat {
    match line {
        StreamLine::Stdout(s) => byte_len(s@) + 1,
        StreamLine::Stderr(s) => byte_len(s@) + 1,
        StreamLine::Finished => 1,
    }
}

/// The space a line takes in the buffer.
pub fn line_size(line: &StreamLine) -> (r: usize)
    requires
        line_size_spec(*line) <= usize::MAX,
    ensures
        r == line_size_spec(*line),
{
    match line {
        StreamLine::Stdout(s) => s.as_str().len() + 1,
        StreamLine::Stderr(s) => s.as_str().len() + 1,
        StreamLine::Finished => 1,
    }
}

/// The total space of buffered lines.
pub open spec fn total_size(lines: Seq<(usize, StreamLine)>) -> nat
    decreases lines.len(),
{
    if lines.len() == 0 {
        0
    } else {
        line_size_spec(lines[0].1) + total_size(lines.drop_first())
    }
}

proof fn lemma_total_size_push(lines: Seq<(usize, StreamLine)>, x: (usize, StreamLine))
    ensures
        total_size(lines.push(x)) == total_size(lines) + line_size_spec(x.1),
    decreases lines.len(),
{
    if lines.len() > 0 {
        assert(lines.push(x).drop_first() == lines.drop_first().push(x));
        assert(lines.push(x)[0] == lines[0]);
        lemma_total_size_push(lines.drop_first(), x);
    } else {
        assert(lines.push(x).drop_first() == lines);
        assert(lines.push(x)[0] == x);
    }
}

/// The buffer once the oldest lines are dropped until it fits the limit.
pub open spec fn drop_oldest(lines: Seq<(usize, StreamLine)>) -> Seq<(usize, StreamLine)>
    decreases lines.len(),
{
    if lines.len() > 0 && total_size(lines) > MAX_BUFFER_BYTES {
        drop_oldest(lines.drop_first())
    } else {
        lines
    }
}

/// The buffer once every line up to and including `id` is removed from its
/// front.
pub open spec fn clear_front(lines: Seq<(usize, StreamLine)>, id: usize) -> Seq<(usize, StreamLine)>
    decreases lines.len(),
{
    if lines.len() > 0 && lines[0].0 <= id {
        clear_front(lines.drop_first(), id)
    } else {
        lines
    }
}

/// The unread lines of a streamed process, each with the id it was given,
/// oldest first.
#[derive(Debug)]
pub struct BufferState {
    lines: std::collections::VecDeque<(usize, StreamLine)>,
    total_bytes: usize,
    next_id: usize,
}

impl BufferState {
    /// The buffered lines with their ids, oldest first.
    pub closed spec fn buffered(&self) -> Seq<(usize, StreamLine)> {
        self.lines@
    }

    /// The id the next line will get.
    pub closed spec fn next(&self) -> usize {
        self.next_id
    }

    /// The bytes of buffered output.
    pub closed spec fn size(&self) -> usize {
        self.total_bytes
    }

    /// The buffer is consistent: its size is the size of its lines and within
    /// the limit, and its ids increase and are all below the next id.
    pub open spec fn wf(&self) -> bool {
        &&& self.size() == total_size(self.buffered())
        &&& self.size() <= MAX_BUFFER_BYTES
        &&& forall|i: int, j: int|
            0 <= i < j < self.buffered().len() ==> self.buffered()[i].0 < self.buffered()[j].0
        &&& forall|i: int| 0 <= i < self.buffered().len() ==> self.buffered()[i].0 < self.next()
    }

    /// An empty buffer.
    pub fn new() -> (r: Self)
        ensures
            r.wf(),
            r.buffered().len() == 0,
            r.next() == 0,
            r.size() == 0,
    {
        BufferState { lines: std::collections::VecDeque::new(), total_bytes: 0, next_id: 0 }
    }

    /// The bytes of buffered output.
    pub fn total_bytes(&self) -> (r: usize)
        ensures
            r == self.size(),
    {
        self.total_bytes
    }

    /// The id the next line will get.
    pub fn next_id(&self) -> (r: usize)
        ensures
            r == self.next(),
    {
        self.next_id
    }

    /// Adds a line under the next id, then drops the oldest lines until the
    /// buffer fits its limit.
    pub fn push(&mut self, line: StreamLine)
        requires
            old(self).wf(),
            old(self).next() < usize::MAX,
            line_size_spec(line) <= usize::MAX - old(self).size(),
        ensures
            final(self).wf(),
            final(self).next() == old(self).next() + 1,
            final(self).buffered() == drop_oldest(
                old(self).buffered().push((old(self).next(), line)),
            ),
    {
        let size = line_size(&line);
        let ghost pushed = line;
        let id = self.next_id;
        self.next_id = self.next_id + 1;
        proof {
            lemma_total_size_push(self.lines@, (id, line));
        }
        self.lines.push_back((id, line));
        self.total_bytes = self.total_bytes + size;
        while self.total_bytes > MAX_BUFFER_BYTES
            invariant
                self.total_bytes == total_size(self.lines@),
                self.total_bytes <= MAX_BUFFER_BYTES + size,
                self.next_id == id + 1,
                drop_oldest(self.lines@) == drop_oldest(old(self).lines@.push((id, pushed))),
                forall|i: int, j: int|
                    0 <= i < j < self.lines@.len() ==> self.lines@[i].0 < self.lines@[j].0,
                forall|i: int| 0 <= i < self.lines@.len() ==> self.lines@[i].0 < self.next_id,
            decreases self.lines@.len(),
        {
            let ghost before = self.lines@;
            match self.lines.pop_front() {
                Some((_old_id, old_line)) => {
                    assert(self.lines@ == before.drop_first());
                    self.total_bytes = self.total_bytes - line_size(&old_line);
                },
                None => {
                    assert(before.len() == 0);
                    assert(false);
                },
            }
        }
        assert(drop_oldest(self.lines@) == self.lines@);
    }

    /// Removes from the front every line whose id is at most `id`: the lines
    /// that were handed out.
    pub fn clear_through(&mut self, id: usize)
        requires
            old(self).wf(),
        ensures
            final(self).wf(),
            final(self).next() == old(self).next(),
            final(self).buffered() == clear_front(old(self).buffered(), id),
    {
        loop
            invariant
                self.total_bytes == total_size(self.lines@),
                self.total_bytes <= MAX_BUFFER_BYTES,
                self.next_id == old(self).next_id,
                clear_front(self.lines@, id) == clear_front(old(self).lines@, id),
                forall|i: int, j: int|
                    0 <= i < j < self.lines@.len() ==> self.lines@[i].0 < self.lines@[j].0,
                forall|i: int| 0 <= i < self.lines@.len() ==> self.lines@[i].0 < self.next_id,
            ensures
                self.total_bytes == total_size(self.lines@),
                self.total_bytes <= MAX_BUFFER_BYTES,
                self.next_id == old(self).next_id,
                self.lines@ == clear_front(old(self).lines@, id),
                forall|i: int, j: int|
                    0 <= i < j < self.lines@.len() ==> self.lines@[i].0 < self.lines@[j].0,
                forall|i: int| 0 <= i < self.lines@.len() ==> self.lines@[i].0 < self.next_id,
            decreases self.lines@.len(),
        {
            if self.lines.len() == 0 {
                break;
            }
            let front_id = self.lines[0].0;
            if front_id > id {
                break;
            }
            let ghost before = self.lines@;
            match self.lines.pop_front() {
                Some((_old_id, old_line)) => {
                    assert(self.lines@ == before.drop_first());
                    self.total_bytes = self.total_bytes - line_size(&old_line);
                },
                None => {},
            }
        }
    }
}

/// After any push the buffer holds at most its limit of bytes, and what it
/// dropped were its oldest lines: the buffer is a suffix of the lines pushed.
pub proof fn law_drop_oldest_fits(lines: Seq<(usize, StreamLine)>)
    ensures
        total_size(drop_oldest(lines)) <= MAX_BUFFER_BYTES,
        exists|k: int| 0 <= k <= lines.len() && drop_oldest(lines) == lines.subrange(k, lines.len() as int),
    decreases lines.len(),
{
    if lines.len() > 0 && total_size(lines) > MAX_BUFFER_BYTES {
        law_drop_oldest_fits(lines.drop_first());
        let k = choose|k: int|
            0 <= k <= lines.drop_first().len() && drop_oldest(lines.drop_first())
                == lines.drop_first().subrange(k, lines.drop_first().len() as int);
        assert(lines.drop_first().subrange(k, lines.drop_first().len() as int) == lines.subrange(
            k + 1,
            lines.len() as int,
        ));
    } else {
        assert(lines.subrange(0, lines.len() as int) == lines);
    }
}

/// An event sent to the user interface while a task streams.
#[derive(Debug, Clone, PartialEq, Eq)]
pub enum OutputEvent {
    Output { text: String, source: String },
    Finished { exit_code: i32 },
}

/// The event for one read of the stream, given the process's exit code if
/// known: an output line is sent with its source; the end of the stream,
/// or a closed stream (`None`), sends the exit code (-1 when unknown) and
/// ends the streaming (`true`).
pub open spec fn stream_event_matches(
    line: Option<StreamLine>,
    exit_code: Option<i32>,
    r: (OutputEvent, bool),
) -> bool {
    match line {
        Some(StreamLine::Stdout(t)) => !r.1 && (match r.0 {
            OutputEvent::Output { text, source } => text == t && source@ == "stdout"@,
            _ => false,
        }),
        Some(StreamLine::Stderr(t)) => !r.1 && (match r.0 {
            OutputEvent::Output { text, source } => text == t && source@ == "stderr"@,
            _ => false,
        }),
        _ => r.1 && r.0 == OutputEvent::Finished {
            exit_code: match exit_code {
                Some(c) => c,
                None => -1i32,
            },
        },
    }
}

/// Turns one read of the stream into the event to send, and whether the
/// streaming ends with it.
pub fn stream_event(line: Option<StreamLine>, exit_code: Option<i32>) -> (r: (OutputEvent, bool))
    ensures
        stream_event_matches(line, exit_code, r),
{
    let code = match exit_code {
        Some(c) => c,
        None => -1,
    };
    match line {
        Some(StreamLine::Stdout(text)) => (
            OutputEvent::Output { text, source: string_of(chars_of("stdout").as_slice()) },
            false,
        ),
        Some(StreamLine::Stderr(text)) => (
            OutputEvent::Output { text, source: string_of(chars_of("stderr").as_slice()) },
            false,
        ),
        _ => (OutputEvent::Finished { exit_code: code }, true),
    }
}

/// An event of the channel check of the user interface.
#[derive(Debug, Clone, PartialEq, Eq)]
pub enum PoCEvent {
    Message { text: String },
    Progress { percent: u32 },
    Done,
}

/// The events of the channel check, in order: a start message, progress from
/// 0 to 100 in steps of 20, and the end.
pub fn poc_events() -> (r: Vec<PoCEvent>)
    ensures
        r@.len() == 8,
        (r@[0] matches PoCEvent::Message { text } && text@ == "Starting stream test..."@),
        forall|k: int| 1 <= k <= 6 ==> r@[k] == (PoCEvent::Progress { percent: ((k - 1) * 20) as u32 }),
        r@[7] == PoCEvent::Done,
{
    let mut r: Vec<PoCEvent> = Vec::new();
    r.push(PoCEvent::Message { text: string_of(chars_of("Starting stream test...").as_slice()) });
    let mut p: u32 = 0;
    while p <= 100
        invariant
            p % 20 == 0,
            p <= 120,
            r@.len() == 1 + p / 20,
            (r@[0] matches PoCEvent::Message { text } && text@ == "Starting stream test..."@),
            forall|k: int| 1 <= k < r@.len() ==> r@[k] == (PoCEvent::Progress { percent: ((k - 1) * 20) as u32 }),
        decreases 120 - p,
    {
        r.push(PoCEvent::Progress { percent: p });
        p = p + 20;
    }
    r.push(PoCEvent::Done);
    r
}

} // verus!
