//! Streams as the engine sees them, and the capped copy from a stream.

use vstd::prelude::*;
use vstd::string::StringExecFns;
use crate::error::{EngineError, EngineResult, ErrorModel};
use crate::text::{decimal_text, format_decimal};

verus! {

/// The size of the chunks in which a stream is copied: 8 KiB.
pub const COPY_CHUNK_SIZE: usize = 8192;

/// A position in a stream: from its start, from its end, or from where it stands.
#[derive(Debug, Clone, Copy, PartialEq, Eq, Structural)]
pub enum SeekPosition {
    Start(u64),
    End(i64),
    Current(i64),
}

/// What is known of a stream.
pub enum StreamModel {
    /// The stream yields these bytes and stands at this position, counted
    /// from the start. A position beyond the end is allowed; nothing is left
    /// to read there.
    Known { contents: Seq<u8>, position: nat },
    /// Nothing is known: the stream reads from a file, a socket or whatever
    /// its implementor chose.
    Unknown,
}

/// The position that a seek leads to, where it is one: a position before the
/// start, or beyond what sixty-four bits count, is none.
pub open spec fn seek_target(len: nat, pos: nat, to: SeekPosition) -> Option<u64> {
    let target: int = match to {
        SeekPosition::Start(n) => n as int,
        SeekPosition::End(d) => len + d,
        SeekPosition::Current(d) => pos + d,
    };
    if 0 <= target <= u64::MAX {
        Some(target as u64)
    } else {
        None
    }
}

/// The bytes that a known stream has not yielded yet: those from its
/// position on.
pub open spec fn bytes_left(contents: Seq<u8>, position: nat) -> Seq<u8> {
    if position >= contents.len() {
        Seq::empty()
    } else {
        contents.subrange(position as int, contents.len() as int)
    }
}

/// The bytes that a read of at most `max_len` bytes yields from a known
/// stream: as many of the bytes left as the read takes.
pub open spec fn next_bytes(contents: Seq<u8>, position: nat, max_len: usize) -> Seq<u8> {
    let left = bytes_left(contents, position);
    if left.len() <= max_len {
        left
    } else {
        left.subrange(0, max_len as int)
    }
}

/// A read of at most `max_len` bytes took a stream from `before` to `after`
/// and returned `r`. A known stream yields its next bytes, moves on by as
/// many, and does not fail. Of an unknown stream nothing is said.
pub open spec fn reads(
    before: StreamModel,
    max_len: usize,
    after: StreamModel,
    r: Result<Vec<u8>, String>,
) -> bool {
    match before {
        StreamModel::Known { contents, position } => r matches Ok(chunk) && chunk@ == next_bytes(
            contents,
            position,
            max_len,
        ) && after == (StreamModel::Known { contents, position: position + chunk@.len() }),
        StreamModel::Unknown => true,
    }
}

/// A seek to `to` took a stream from `before` to `after` and returned `r`. A
/// known stream moves to the target and returns it, or refuses a target that
/// is no position and stays where it stands. Of an unknown stream nothing is said.
pub open spec fn seeks(
    before: StreamModel,
    to: SeekPosition,
    after: StreamModel,
    r: Result<u64, String>,
) -> bool {
    match before {
        StreamModel::Known { contents, position } => match seek_target(contents.len(), position, to) {
            Some(target) => r == Ok::<u64, String>(target) && after == (StreamModel::Known {
                contents,
                position: target as nat,
            }),
            None => r is Err && after == before,
        },
        StreamModel::Unknown => true,
    }
}

/// A readable, seekable stream.
pub trait StreamReader: Send {
    /// What is known of the stream. An implementor that says nothing of
    /// itself is unknown, and nothing is promised of its reads and seeks.
    open spec fn model(&self) -> StreamModel {
        StreamModel::Unknown
    }

    /// Reads the next bytes of the stream, at most `max_len` of them. An empty
    /// chunk says that the stream has ended. A failure carries its message.
    fn read_chunk(&mut self, max_len: usize) -> (r: Result<Vec<u8>, String>)
        ensures
            reads(old(self).model(), max_len, final(self).model(), r),
    ;

    /// Moves the position and returns it, counted from the start.
    fn seek(&mut self, to: SeekPosition) -> (r: Result<u64, String>)
        ensures
            seeks(old(self).model(), to, final(self).model(), r),
    ;
}

/// What a rewind makes of the outcome of the seek to the start: success
/// without the position, or the failure with its message.
pub open spec fn rewound(outcome: Result<u64, String>) -> Result<(), String> {
    match outcome {
        Ok(_) => Ok(()),
        Err(m) => Err(m),
    }
}

/// The stream went from `before` to `after` by a seek to its start that
/// returned `outcome`, and `r` is what a rewind makes of that.
pub open spec fn is_rewind(
    before: StreamModel,
    after: StreamModel,
    outcome: Result<u64, String>,
    r: Result<(), String>,
) -> bool {
    seeks(before, SeekPosition::Start(0), after, outcome) && r == rewound(outcome)
}

/// Takes a stream back to its start: seeks to position 0 and returns whether
/// the seek succeeded, with the message of a failure.
pub fn rewind<R: StreamReader + ?Sized>(reader: &mut R) -> (r: Result<(), String>)
    ensures
        exists|outcome: Result<u64, String>| #[trigger]
            is_rewind(old(reader).model(), final(reader).model(), outcome, r),
{
    let outcome = reader.seek(SeekPosition::Start(0));
    let r = match outcome {
        Ok(_) => Ok(()),
        Err(m) => Err(m),
    };
    assert(is_rewind(old(reader).model(), reader.model(), outcome, r));
    r
}

/// What is known of a sink.
pub enum SinkModel {
    /// The sink has received these bytes, in this order, and holds none of
    /// them back where `flushed` is set.
    Known { written: Seq<u8>, flushed: bool },
    /// Nothing is known: the sink writes to a file, a socket or whatever its
    /// implementor chose.
    Unknown,
}

/// A write of `chunk` took a sink from `before` to `after` and returned `r`.
/// A known sink takes the whole chunk behind what it has and does not fail.
/// Of an unknown sink nothing is said.
pub open spec fn writes(before: SinkModel, chunk: Seq<u8>, after: SinkModel, r: Result<(), String>)
    -> bool {
    match before {
        SinkModel::Known { written, flushed } => r is Ok && after == (SinkModel::Known {
            written: written + chunk,
            flushed: false,
        }),
        SinkModel::Unknown => true,
    }
}

/// A flush took a sink from `before` to `after` and returned `r`. A known
/// sink keeps what it has, holds nothing back afterwards and does not fail.
/// Of an unknown sink nothing is said.
pub open spec fn flushes(before: SinkModel, after: SinkModel, r: Result<(), String>) -> bool {
    match before {
        SinkModel::Known { written, flushed } => r is Ok && after == (SinkModel::Known {
            written,
            flushed: true,
        }),
        SinkModel::Unknown => true,
    }
}

/// A sink that takes the bytes of a stream.
pub trait StreamWriter {
    /// What is known of the sink. An implementor that says nothing of itself
    /// is unknown, and nothing is promised of its writes and flushes.
    open spec fn model(&self) -> SinkModel {
        SinkModel::Unknown
    }

    /// Writes the whole chunk.
    fn write_all(&mut self, chunk: &Vec<u8>) -> (r: Result<(), String>)
        ensures
            writes(old(self).model(), chunk@, final(self).model(), r),
    ;

    /// Hands on what is buffered.
    fn flush(&mut self) -> (r: Result<(), String>)
        ensures
            flushes(old(self).model(), final(self).model(), r),
    ;
}

/// A sink that keeps what it receives in memory.
pub struct MemorySink {
    data: Vec<u8>,
    flushed: bool,
}

impl MemorySink {
    /// The bytes that the sink has received.
    pub closed spec fn contents(self) -> Seq<u8> {
        self.data@
    }

    /// Whether the sink was flushed after the last write.
    pub closed spec fn is_flushed(self) -> bool {
        self.flushed
    }

    /// A sink that has received nothing.
    pub fn new() -> (sink: MemorySink)
        ensures
            sink.contents() == Seq::<u8>::empty(),
            sink.is_flushed(),
    {
        MemorySink { data: Vec::new(), flushed: true }
    }

    /// The bytes that the sink has received.
    pub fn into_bytes(self) -> (bytes: Vec<u8>)
        ensures
            bytes@ == self.contents(),
    {
        self.data
    }
}

impl StreamWriter for MemorySink {
    /// Everything is known of a sink in memory.
    open spec fn model(&self) -> SinkModel {
        SinkModel::Known { written: self.contents(), flushed: self.is_flushed() }
    }

    /// Takes the chunk behind what was received before. Never fails.
    fn write_all(&mut self, chunk: &Vec<u8>) -> (r: Result<(), String>) {
        let ghost before = self.data@;
        let mut i: usize = 0;
        while i < chunk.len()
            invariant
                i <= chunk@.len(),
                self.data@ == before + chunk@.subrange(0, i as int),
            decreases chunk@.len() - i,
        {
            self.data.push(chunk[i]);
            i += 1;
            assert(self.data@ =~= before + chunk@.subrange(0, i as int));
        }
        assert(chunk@.subrange(0, chunk@.len() as int) =~= chunk@);
        self.flushed = false;
        Ok(())
    }

    /// Has nothing to hand on. Never fails.
    fn flush(&mut self) -> (r: Result<(), String>) {
        self.flushed = true;
        Ok(())
    }
}

/// What the copy does with the chunk that it has just read.
#[derive(Debug, Clone, Copy, PartialEq, Eq, Structural)]
pub enum CopyStep {
    /// The stream has ended: flush and report the total.
    Finish,
    /// Write the chunk; the running total is then `new_total`.
    Write { new_total: u64 },
    /// The chunk would take the total to `attempted`, over the cap: write
    /// nothing more and fail.
    Reject { attempted: u128 },
}

/// The rule of the capped copy: an empty chunk ends it, a chunk that would
/// take the running total over the cap is refused before it is written, and
/// any other chunk is written.
pub open spec fn copy_step(total: nat, chunk_len: nat, max_bytes: nat) -> CopyStep {
    if chunk_len == 0 {
        CopyStep::Finish
    } else if total + chunk_len > max_bytes {
        CopyStep::Reject { attempted: (total + chunk_len) as u128 }
    } else {
        CopyStep::Write { new_total: (total + chunk_len) as u64 }
    }
}

/// Decides on the chunk of `chunk_len` bytes that was read after `total` bytes
/// had been written.
pub fn next_copy_step(total: u64, chunk_len: usize, max_bytes: usize) -> (step: CopyStep)
    ensures
        step == copy_step(total as nat, chunk_len as nat, max_bytes as nat),
{
    if chunk_len == 0 {
        return CopyStep::Finish;
    }
    let attempted: u128 = total as u128 + chunk_len as u128;
    if attempted > max_bytes as u128 {
        CopyStep::Reject { attempted }
    } else {
        CopyStep::Write { new_total: attempted as u64 }
    }
}

/// The message of the error that ends a copy over the cap.
pub open spec fn limit_message(attempted: nat, max_bytes: nat) -> Seq<char> {
    "Stream size limit exceeded: "@ + decimal_text(attempted) + " bytes (max: "@ + decimal_text(
        max_bytes,
    ) + ")"@
}

/// The error that ends a copy over the cap.
pub fn limit_error(attempted: u128, max_bytes: usize) -> (e: EngineError)
    ensures
        e@ == ErrorModel::Config(limit_message(attempted as nat, max_bytes as nat)),
{
    let a = format_decimal(attempted);
    let m = format_decimal(max_bytes as u128);
    let text = "Stream size limit exceeded: ".to_string().concat(a.as_str()).concat(
        " bytes (max: ",
    ).concat(m.as_str()).concat(")");
    EngineError::Config(text)
}

/// How a copy ends, given the lengths of the chunks that the stream yields.
pub enum CopyEnd {
    /// The stream ended within the cap, after this many bytes.
    Copied(nat),
    /// A chunk would have taken the total to this many bytes, over the cap.
    OverLimit(nat),
    /// The chunks ran out before the stream ended.
    Unfinished,
}

/// The bytes written, and the end reached, when a copy that has written
/// `total` bytes reads chunks of the lengths `chunks` one after another.
pub open spec fn copy_run(chunks: Seq<nat>, total: nat, max_bytes: nat) -> (nat, CopyEnd)
    decreases chunks.len(),
{
    if chunks.len() == 0 {
        (total, CopyEnd::Unfinished)
    } else {
        match copy_step(total, chunks[0], max_bytes) {
            CopyStep::Finish => (total, CopyEnd::Copied(total)),
            CopyStep::Reject { attempted } => (total, CopyEnd::OverLimit(total + chunks[0])),
            CopyStep::Write { new_total } => copy_run(
                chunks.drop_first(),
                total + chunks[0],
                max_bytes,
            ),
        }
    }
}

/// The length of the stream that yields `chunks`: the sum of the chunks
/// before the first empty one.
pub open spec fn stream_length(chunks: Seq<nat>) -> nat
    decreases chunks.len(),
{
    if chunks.len() == 0 || chunks[0] == 0 {
        0
    } else {
        chunks[0] + stream_length(chunks.drop_first())
    }
}

/// The chunks hold an empty one, so the stream ends.
pub open spec fn stream_ends(chunks: Seq<nat>) -> bool {
    exists|i: int| 0 <= i < chunks.len() && chunks[i] == 0
}

/// A capped copy never writes more than the cap, whatever the stream yields.
pub proof fn lemma_copy_never_exceeds_cap(chunks: Seq<nat>, total: nat, max_bytes: nat)
    requires
        total <= max_bytes,
    ensures
        copy_run(chunks, total, max_bytes).0 <= max_bytes,
    decreases chunks.len(),
{
    if chunks.len() > 0 {
        if chunks[0] != 0 && total + chunks[0] <= max_bytes {
            lemma_copy_never_exceeds_cap(chunks.drop_first(), total + chunks[0], max_bytes);
        }
    }
}

/// A stream that ends and is longer than what the cap leaves is refused with
/// a size error, and one that fits is copied whole: a copy never ends in
/// success on a part of the stream.
pub proof fn lemma_copy_is_all_or_error(chunks: Seq<nat>, total: nat, max_bytes: nat)
    requires
        total <= max_bytes,
        stream_ends(chunks),
    ensures
        total + stream_length(chunks) > max_bytes ==> copy_run(chunks, total, max_bytes).1
            is OverLimit,
        total + stream_length(chunks) <= max_bytes ==> copy_run(chunks, total, max_bytes)
            == (total + stream_length(chunks), CopyEnd::Copied(total + stream_length(chunks))),
    decreases chunks.len(),
{
    let i = choose|i: int| 0 <= i < chunks.len() && chunks[i] == 0;
    if chunks[0] != 0 && total + chunks[0] <= max_bytes {
        let rest = chunks.drop_first();
        assert(rest[i - 1] == 0);
        lemma_copy_is_all_or_error(rest, total + chunks[0], max_bytes);
    }
}

/// A run through chunks that were all written goes on with the chunks that
/// follow, from the total that was reached.
pub proof fn lemma_copy_run_continues(seen: Seq<nat>, rest: Seq<nat>, total: nat, max_bytes: nat)
    requires
        copy_run(seen, total, max_bytes).1 is Unfinished,
    ensures
        copy_run(seen + rest, total, max_bytes) == copy_run(
            rest,
            copy_run(seen, total, max_bytes).0,
            max_bytes,
        ),
    decreases seen.len(),
{
    if seen.len() == 0 {
        assert(seen + rest =~= rest);
    } else {
        assert((seen + rest)[0] == seen[0]);
        assert((seen + rest).drop_first() =~= seen.drop_first() + rest);
        lemma_copy_run_continues(seen.drop_first(), rest, total + seen[0], max_bytes);
    }
}

/// The outcome of a copy is the one that the rule gives for the lengths of
/// the chunks `chunks`, read from the start of the copy.
pub open spec fn is_copy_outcome(r: EngineResult<u64>, chunks: Seq<nat>, max_bytes: nat) -> bool {
    match r {
        Ok(total) => copy_run(chunks, 0, max_bytes) == (total as nat, CopyEnd::Copied(total as nat)),
        Err(e) => copy_run(chunks, 0, max_bytes).1 matches CopyEnd::OverLimit(attempted) && e@
            == ErrorModel::Config(limit_message(attempted, max_bytes)),
    }
}

/// The total that a copy of `left` bytes would reach with the chunk that
/// crosses the cap: the end of the stream, or the end of the first chunk of
/// 8 KiB that no longer fits.
pub open spec fn crossing_total(left: nat, max_bytes: nat) -> nat {
    let next = (max_bytes / 8192 + 1) * 8192;
    if left <= next {
        left
    } else {
        next
    }
}

/// The number of bytes that a copy of `left` bytes writes: all of them where
/// they fit under the cap, and otherwise the chunks of 8 KiB that do.
pub open spec fn written_under_cap(left: nat, max_bytes: nat) -> nat {
    if left <= max_bytes {
        left
    } else {
        (max_bytes / 8192) * 8192
    }
}

/// What a copy does with a known reader that has `left` bytes to yield. It
/// succeeds only with the whole stream: the total is the number of bytes
/// left, which fits under the cap, and the reader stands at its end. It fails
/// with the size error exactly for a stream over the cap, with the total
/// that the crossing chunk would have reached, and the reader stands behind
/// that chunk. The only other failure is one of the sink.
pub open spec fn copy_from_known(
    contents: Seq<u8>,
    position: nat,
    max_bytes: nat,
    r: EngineResult<u64>,
    after: StreamModel,
) -> bool {
    let left = bytes_left(contents, position).len();
    match r {
        Ok(total) => total == left && left <= max_bytes && after == (StreamModel::Known {
            contents,
            position: position + left,
        }),
        Err(e) => e@ is Io || (left > max_bytes && e@ == ErrorModel::Config(
            limit_message(crossing_total(left, max_bytes), max_bytes),
        ) && after == (StreamModel::Known {
            contents,
            position: position + crossing_total(left, max_bytes),
        })),
    }
}

/// What a copy does to a known sink that had received `written`. The sink
/// keeps what it had and receives at most `max_bytes` more; after a success
/// it has received exactly the total and is flushed.
pub open spec fn copy_into_known(
    written: Seq<u8>,
    max_bytes: nat,
    r: EngineResult<u64>,
    after: SinkModel,
) -> bool {
    match after {
        SinkModel::Known { written: now, flushed } => {
            &&& written.len() <= now.len() <= written.len() + max_bytes
            &&& now.subrange(0, written.len() as int) == written
            &&& r matches Ok(total) ==> (now.len() == written.len() + total && flushed)
        },
        SinkModel::Unknown => false,
    }
}

/// What a copy does from a known reader into a known sink, where nothing
/// can fail but the copy itself. A stream within the cap is copied whole and
/// the sink is flushed. Of a stream over the cap the sink receives the
/// chunks of 8 KiB that fit and not a byte of the chunk that crosses the
/// cap; it is not flushed. Either way the sink has received a prefix of
/// the bytes that the reader had left.
pub open spec fn copy_between_known(
    contents: Seq<u8>,
    position: nat,
    written: Seq<u8>,
    flushed: bool,
    max_bytes: nat,
    r: EngineResult<u64>,
    after: SinkModel,
) -> bool {
    let left = bytes_left(contents, position);
    let copied = written_under_cap(left.len(), max_bytes);
    &&& left.len() <= max_bytes ==> r == Ok::<u64, EngineError>(left.len() as u64)
    &&& left.len() > max_bytes ==> (r matches Err(e) && e@ is Config)
    &&& after == (SinkModel::Known {
        written: written + left.subrange(0, copied as int),
        flushed: if left.len() <= max_bytes {
            true
        } else if copied == 0 {
            flushed
        } else {
            false
        },
    })
}

/// One round of a copy: what the read found and returned, and what was done
/// to the sink with it.
pub struct CopyRound {
    /// The bytes written before the round.
    pub total: nat,
    pub reader_before: StreamModel,
    pub reader_after: StreamModel,
    /// What the read of at most 8 KiB returned.
    pub read: Result<Vec<u8>, String>,
    pub sink_before: SinkModel,
    pub sink_after: SinkModel,
    /// What the write of the chunk returned, or the flush at the end of the
    /// stream; nothing where the sink was left alone.
    pub sunk: Option<Result<(), String>>,
}

impl CopyRound {
    /// The length of the chunk that was read; nothing where the read failed.
    pub open spec fn chunk_len(self) -> nat {
        match self.read {
            Ok(chunk) => chunk@.len(),
            Err(_) => 0,
        }
    }

    /// The round is one of the copy: the reader was asked for at most 8 KiB,
    /// and the sink was handed what the rule says. A chunk that is written is
    /// the chunk that was read, whole. The sink is flushed at the end of the
    /// stream. It is left alone after a failed read and for a chunk that
    /// crosses the cap.
    pub open spec fn taken(self, max_bytes: nat) -> bool {
        &&& reads(self.reader_before, COPY_CHUNK_SIZE, self.reader_after, self.read)
        &&& match self.read {
            Err(_) => self.sunk is None && self.sink_after == self.sink_before,
            Ok(chunk) => match copy_step(self.total, chunk@.len(), max_bytes) {
                CopyStep::Finish => self.sunk matches Some(f) && flushes(
                    self.sink_before,
                    self.sink_after,
                    f,
                ),
                CopyStep::Reject { attempted } => self.sunk is None && self.sink_after
                    == self.sink_before,
                CopyStep::Write { new_total } => self.sunk matches Some(w) && writes(
                    self.sink_before,
                    chunk@,
                    self.sink_after,
                    w,
                ),
            },
        }
    }

    /// The round wrote its chunk, and the copy goes on.
    pub open spec fn goes_on(self, max_bytes: nat) -> bool {
        self.read matches Ok(chunk) && copy_step(self.total, chunk@.len(), max_bytes) is Write
            && self.sunk matches Some(Ok(_))
    }

    /// The copy ends in this round with `r`: with the I/O error of a failed
    /// read, write or flush, which carries the failure's message; with the
    /// size error for a chunk that crosses the cap; or with the total after
    /// the flush at the end of the stream.
    pub open spec fn ends_with(self, max_bytes: nat, r: EngineResult<u64>) -> bool {
        match self.read {
            Err(m) => r matches Err(e) && e@ == ErrorModel::Io(m@),
            Ok(chunk) => match copy_step(self.total, chunk@.len(), max_bytes) {
                CopyStep::Finish => match self.sunk {
                    Some(Ok(_)) => r matches Ok(total) && total == self.total,
                    Some(Err(m)) => r matches Err(e) && e@ == ErrorModel::Io(m@),
                    None => false,
                },
                CopyStep::Reject { attempted } => r matches Err(e) && e@ == ErrorModel::Config(
                    limit_message(self.total + chunk@.len(), max_bytes),
                ),
                CopyStep::Write { new_total } => match self.sunk {
                    Some(Err(m)) => r matches Err(e) && e@ == ErrorModel::Io(m@),
                    _ => false,
                },
            },
        }
    }

    /// The round `next` takes up where this one left off.
    pub open spec fn leads_to(self, next: CopyRound) -> bool {
        &&& next.total == self.total + self.chunk_len()
        &&& next.reader_before == self.reader_after
        &&& next.sink_before == self.sink_after
    }
}

/// The rounds are the start of a copy from `reader` into `sink`: each is a
/// round of the copy that went on, each takes up where the one before left
/// off, and the next would start with `total` bytes written, the reader at
/// `reader_now` and the sink at `sink_now`.
#[verifier::opaque]
pub open spec fn is_copy_so_far(
    rounds: Seq<CopyRound>,
    reader: StreamModel,
    sink: SinkModel,
    max_bytes: nat,
    total: nat,
    reader_now: StreamModel,
    sink_now: SinkModel,
) -> bool {
    &&& forall|i: int|
        0 <= i < rounds.len() ==> (#[trigger] rounds[i]).taken(max_bytes) && rounds[i].goes_on(
            max_bytes,
        )
    &&& forall|i: int| 0 <= i < rounds.len() - 1 ==> (#[trigger] rounds[i]).leads_to(rounds[i + 1])
    &&& if rounds.len() == 0 {
        total == 0 && reader_now == reader && sink_now == sink
    } else {
        &&& rounds[0].total == 0
        &&& rounds[0].reader_before == reader
        &&& rounds[0].sink_before == sink
        &&& total == rounds.last().total + rounds.last().chunk_len()
        &&& reader_now == rounds.last().reader_after
        &&& sink_now == rounds.last().sink_after
    }
}

/// The rounds are a whole copy from `reader` into `sink` that left them at
/// `reader_after` and `sink_after` and ended with `r`: every round but the
/// last went on, and the copy ended in the last.
pub open spec fn is_copy(
    rounds: Seq<CopyRound>,
    reader: StreamModel,
    sink: SinkModel,
    reader_after: StreamModel,
    sink_after: SinkModel,
    max_bytes: nat,
    r: EngineResult<u64>,
) -> bool {
    &&& rounds.len() > 0
    &&& is_copy_so_far(
        rounds.drop_last(),
        reader,
        sink,
        max_bytes,
        rounds.last().total,
        rounds.last().reader_before,
        rounds.last().sink_before,
    )
    &&& rounds.last().taken(max_bytes)
    &&& rounds.last().ends_with(max_bytes, r)
    &&& reader_after == rounds.last().reader_after
    &&& sink_after == rounds.last().sink_after
}

/// Before the first round, nothing is written and reader and sink are as
/// they were handed over.
pub proof fn lemma_copy_starts(reader: StreamModel, sink: SinkModel, max_bytes: nat)
    ensures
        is_copy_so_far(Seq::empty(), reader, sink, max_bytes, 0, reader, sink),
{
    reveal(is_copy_so_far);
}

/// A round that goes on extends the start of a copy.
pub proof fn lemma_copy_goes_on(
    rounds: Seq<CopyRound>,
    round: CopyRound,
    reader: StreamModel,
    sink: SinkModel,
    max_bytes: nat,
)
    requires
        is_copy_so_far(
            rounds,
            reader,
            sink,
            max_bytes,
            round.total,
            round.reader_before,
            round.sink_before,
        ),
        round.taken(max_bytes),
        round.goes_on(max_bytes),
    ensures
        is_copy_so_far(
            rounds.push(round),
            reader,
            sink,
            max_bytes,
            round.total + round.chunk_len(),
            round.reader_after,
            round.sink_after,
        ),
{
    reveal(is_copy_so_far);
    let all = rounds.push(round);
    assert forall|i: int| 0 <= i < all.len() implies (#[trigger] all[i]).taken(max_bytes)
        && all[i].goes_on(max_bytes) by {
        if i < rounds.len() {
            assert(all[i] == rounds[i]);
        }
    }
    assert forall|i: int| 0 <= i < all.len() - 1 implies (#[trigger] all[i]).leads_to(
        all[i + 1],
    ) by {
        assert(all[i] == rounds[i]);
        if i + 1 < rounds.len() {
            assert(all[i + 1] == rounds[i + 1]);
        }
    }
    if rounds.len() > 0 {
        assert(all[0] == rounds[0]);
    }
}

/// A round in which the copy ends makes the start of a copy a whole one.
pub proof fn lemma_copy_ends(
    rounds: Seq<CopyRound>,
    round: CopyRound,
    reader: StreamModel,
    sink: SinkModel,
    max_bytes: nat,
    r: EngineResult<u64>,
)
    requires
        is_copy_so_far(
            rounds,
            reader,
            sink,
            max_bytes,
            round.total,
            round.reader_before,
            round.sink_before,
        ),
        round.taken(max_bytes),
        round.ends_with(max_bytes, r),
    ensures
        is_copy(
            rounds.push(round),
            reader,
            sink,
            round.reader_after,
            round.sink_after,
            max_bytes,
            r,
        ),
{
    assert(rounds.push(round).drop_last() =~= rounds);
}

/// Copies `reader` into `writer` in chunks of at most 8 KiB, keeping a running
/// total. A chunk that would take the total over `max_bytes` is not written
/// and ends the copy with a size error; the copy never ends in success on a
/// part of the stream.
///
/// Whatever the stream yields, the copy is a run of rounds as [`is_copy`]
/// describes them: each round asks the reader for at most 8 KiB and writes
/// the chunk that it got, whole; a failed read, write or flush ends the copy
/// with an I/O error that carries the failure's message; a chunk that
/// crosses the cap ends it with the size error, unwritten; and the end of
/// the stream ends it, after a flush, with the total.
///
/// Of a known reader the outcome is fixed up to a failure of the sink, and
/// of a known sink what it received; with both known, everything is.
pub fn copy_with_limits<R: StreamReader + ?Sized, W: StreamWriter + ?Sized>(
    reader: &mut R,
    writer: &mut W,
    max_bytes: usize,
) -> (r: EngineResult<u64>)
    ensures
        r matches Ok(total) ==> total <= max_bytes,
        (r matches Err(e) && e@ is Io) || exists|chunks: Seq<nat>| #[trigger]
            is_copy_outcome(r, chunks, max_bytes as nat),
        exists|rounds: Seq<CopyRound>| #[trigger]
            is_copy(
                rounds,
                old(reader).model(),
                old(writer).model(),
                final(reader).model(),
                final(writer).model(),
                max_bytes as nat,
                r,
            ),
        old(reader).model() matches StreamModel::Known { contents, position } ==> copy_from_known(
            contents,
            position,
            max_bytes as nat,
            r,
            final(reader).model(),
        ),
        old(writer).model() matches SinkModel::Known { written, flushed } ==> copy_into_known(
            written,
            max_bytes as nat,
            r,
            final(writer).model(),
        ),
        old(reader).model() matches StreamModel::Known { contents, position } ==> (old(
            writer,
        ).model() matches SinkModel::Known { written, flushed } ==> copy_between_known(
            contents,
            position,
            written,
            flushed,
            max_bytes as nat,
            r,
            final(writer).model(),
        )),
{
    let mut total: u64 = 0;
    let ghost mut seen: Seq<nat> = Seq::empty();
    let ghost mut rounds: Seq<CopyRound> = Seq::empty();
    let ghost source = reader.model();
    let ghost target = writer.model();
    let ghost mut appended: Seq<u8> = Seq::empty();
    proof {
        if let SinkModel::Known { written, flushed } = target {
            assert(written + appended =~= written);
        }
        lemma_copy_starts(source, target, max_bytes as nat);
    }
    loop
        invariant
            total <= max_bytes,
            source == old(reader).model(),
            target == old(writer).model(),
            appended.len() == total,
            copy_run(seen, 0, max_bytes as nat) == (total as nat, CopyEnd::Unfinished),
            is_copy_so_far(
                rounds,
                source,
                target,
                max_bytes as nat,
                total as nat,
                reader.model(),
                writer.model(),
            ),
            source matches StreamModel::Known { contents, position } ==> {
                &&& reader.model() == (StreamModel::Known {
                    contents,
                    position: position + total as nat,
                })
                &&& total <= bytes_left(contents, position).len()
                &&& total == bytes_left(contents, position).len() || total % 8192 == 0
                &&& appended == bytes_left(contents, position).subrange(0, total as int)
            },
            target matches SinkModel::Known { written, flushed } ==> writer.model() == (
            SinkModel::Known {
                written: written + appended,
                flushed: if total == 0 {
                    flushed
                } else {
                    false
                },
            }),
        decreases max_bytes - total,
    {
        proof {
            if let SinkModel::Known { written, flushed } = target {
                assert((written + appended).subrange(0, written.len() as int) =~= written);
            }
        }
        let ghost reader_before = reader.model();
        let ghost sink_before = writer.model();
        let read = reader.read_chunk(COPY_CHUNK_SIZE);
        let ghost reader_after = reader.model();
        let ghost round = CopyRound {
            total: total as nat,
            reader_before,
            reader_after,
            read,
            sink_before,
            sink_after: sink_before,
            sunk: None,
        };
        let chunk = match read {
            Ok(c) => c,
            Err(m) => {
                let r: EngineResult<u64> = Err(EngineError::Io(m));
                proof {
                    lemma_copy_ends(rounds, round, source, target, max_bytes as nat, r);
                }
                return r;
            },
        };
        let ghost len = chunk@.len();
        proof {
            lemma_copy_run_continues(seen, seq![len], 0, max_bytes as nat);
            assert(seq![len].drop_first() =~= Seq::<nat>::empty());
            assert(seen + seq![len] =~= seen.push(len));
            assert(copy_run(Seq::<nat>::empty(), total as nat + len, max_bytes as nat) == (
                total as nat + len,
                CopyEnd::Unfinished,
            ));
            assert(copy_run(seen.push(len), 0, max_bytes as nat) == copy_run(
                seq![len],
                total as nat,
                max_bytes as nat,
            ));
            if let StreamModel::Known { contents, position } = source {
                let left = bytes_left(contents, position);
                let here = bytes_left(contents, position + total as nat);
                assert(here =~= left.subrange(total as int, left.len() as int));
                assert(chunk@ == next_bytes(contents, position + total as nat, COPY_CHUNK_SIZE));
                assert(left.subrange(0, total as int) + chunk@ =~= left.subrange(
                    0,
                    total as int + len,
                ));
            }
        }
        match next_copy_step(total, chunk.len(), max_bytes) {
            CopyStep::Finish => {
                let flushed = writer.flush();
                let ghost last = CopyRound {
                    sink_after: writer.model(),
                    sunk: Some(flushed),
                    ..round
                };
                let r: EngineResult<u64> = match flushed {
                    Ok(_) => Ok(total),
                    Err(m) => Err(EngineError::Io(m)),
                };
                proof {
                    lemma_copy_ends(rounds, last, source, target, max_bytes as nat, r);
                    if r is Ok {
                        assert(is_copy_outcome(r, seen.push(len), max_bytes as nat));
                    }
                    if let StreamModel::Known { contents, position } = source {
                        let left = bytes_left(contents, position);
                        assert(left.subrange(0, total as int) =~= left);
                    }
                }
                return r;
            },
            CopyStep::Reject { attempted } => {
                let e = limit_error(attempted, max_bytes);
                let r: EngineResult<u64> = Err(e);
                assert(is_copy_outcome(r, seen.push(len), max_bytes as nat));
                proof {
                    lemma_copy_ends(rounds, round, source, target, max_bytes as nat, r);
                    if let StreamModel::Known { contents, position } = source {
                        let left = bytes_left(contents, position).len();
                        assert(attempted == crossing_total(left, max_bytes as nat));
                        assert(total == written_under_cap(left, max_bytes as nat));
                    }
                }
                return r;
            },
            CopyStep::Write { new_total } => {
                let wrote = writer.write_all(&chunk);
                let ghost went = CopyRound {
                    sink_after: writer.model(),
                    sunk: Some(wrote),
                    ..round
                };
                match wrote {
                    Ok(_) => {},
                    Err(m) => {
                        let r: EngineResult<u64> = Err(EngineError::Io(m));
                        proof {
                            lemma_copy_ends(rounds, went, source, target, max_bytes as nat, r);
                        }
                        return r;
                    },
                }
                proof {
                    lemma_copy_goes_on(rounds, went, source, target, max_bytes as nat);
                    rounds = rounds.push(went);
                    if let SinkModel::Known { written, flushed } = target {
                        assert(written + appended + chunk@ =~= written + (appended + chunk@));
                    }
                    appended = appended + chunk@;
                    seen = seen.push(len);
                }
                total = new_total;
            },
        }
    }
}

} // verus!
