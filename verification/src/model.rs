//! A seekable byte stream as a mathematical value, and what an exchange
//! between a session and such a stream comes to.

use vstd::prelude::*;
use crate::digest::{absorb, digest_value, hex16, modulus, window_sum, CHUNK_SIZE, MIN_FILE_SIZE};
use crate::error::HashError;
use crate::session::{advance, start, Phase, Progress, ReplyView, Request, StepView};

verus! {

/// A stream that answers every request truthfully.
pub ghost struct Stream {
    /// Everything the stream holds, from its first byte to its last.
    pub bytes: Seq<u8>,
    /// The current offset.
    pub pos: nat,
    /// What the stream reports when a read runs past its end.
    pub fault: std::io::Error,
}

/// The stream after `request`, and its reply. A query and a seek always
/// succeed. A read succeeds when a whole window lies at the current offset,
/// and then moves the offset past it.
pub open spec fn serve(stream: Stream, request: Request) -> (Stream, ReplyView) {
    match request {
        Request::Position => (stream, ReplyView::Position(stream.pos as u64)),
        Request::Seek(at) => (Stream { pos: at as nat, ..stream }, ReplyView::Position(at)),
        Request::Read => if stream.pos + CHUNK_SIZE <= stream.bytes.len() {
            (
                Stream { pos: stream.pos + CHUNK_SIZE as nat, ..stream },
                ReplyView::Window(
                    stream.bytes.subrange(stream.pos as int, stream.pos + CHUNK_SIZE),
                ),
            )
        } else {
            (stream, ReplyView::Failed(stream.fault))
        },
    }
}

/// Carries an exchange on for at most `budget` requests.
pub open spec fn run(step: StepView, stream: Stream, budget: nat) -> (StepView, Stream)
    decreases budget,
{
    match step {
        StepView::Done(_) => (step, stream),
        StepView::Next(progress, request) => if budget == 0 {
            (step, stream)
        } else {
            let (after, reply) = serve(stream, request);
            run(advance(progress, reply), after, (budget - 1) as nat)
        },
    }
}

/// The whole exchange for a declared length of `len`: how it ends, and the
/// stream it leaves behind. No exchange needs more than six requests.
pub open spec fn exchange(len: u64, stream: Stream) -> (StepView, Stream) {
    run(start(len), stream, 6)
}

/// The first window of a stream.
pub open spec fn head_of(bytes: Seq<u8>) -> Seq<u8> {
    bytes.subrange(0, CHUNK_SIZE as int)
}

/// The window that ends at byte `len`.
pub open spec fn tail_of(bytes: Seq<u8>, len: u64) -> Seq<u8> {
    bytes.subrange(len - CHUNK_SIZE, len as int)
}

/// Absorbing the head and then the tail into the length gives the length
/// plus both window sums, modulo 2^64.
pub proof fn lemma_absorb_twice(len: u64, head: Seq<u8>, tail: Seq<u8>)
    ensures
        absorb(absorb(len, head), tail) == digest_value(len, head, tail),
{
    let a: int = len + window_sum(head);
    let b: int = window_sum(tail);
    let m: int = modulus();
    vstd::arithmetic::div_mod::lemma_add_mod_noop_right(b, a, m);
}

/// A length below 128 KiB is refused with `FileTooSmall`, and the stream is
/// left exactly as it was: nothing is asked of it.
pub proof fn lemma_short_length_refused(len: u64, stream: Stream)
    requires
        len < MIN_FILE_SIZE,
    ensures
        exchange(len, stream) == (StepView::Done(Err(HashError::FileTooSmall)), stream),
{
}

/// With a length of at least 128 KiB and a stream that holds that many
/// bytes, the exchange ends in the sixteen-digit text of the digest of the
/// length, the first window and the window that ends at `len`; and the
/// stream is back at the offset it started from.
pub proof fn lemma_digest_and_position(len: u64, stream: Stream)
    requires
        len >= MIN_FILE_SIZE,
        stream.bytes.len() >= len,
        stream.pos <= u64::MAX,
    ensures
        exchange(len, stream) == (
            StepView::Done(
                Ok(hex16(digest_value(len, head_of(stream.bytes), tail_of(stream.bytes, len)))),
            ),
            stream,
        ),
{
    reveal_with_fuel(run, 7);
    let head = head_of(stream.bytes);
    let tail = tail_of(stream.bytes, len);
    lemma_absorb_twice(len, head, tail);
    let rewound = Stream { pos: 0, ..stream };
    let asked = StepView::Next(
        Progress { phase: Phase::Head, len, saved: stream.pos as u64, acc: len },
        Request::Read,
    );
    if stream.pos == 0 {
        assert(rewound == stream);
        assert(exchange(len, stream) == run(asked, rewound, 5));
    } else {
        assert(exchange(len, stream) == run(asked, rewound, 4));
    }
    let after_head = Stream { pos: CHUNK_SIZE as nat, ..stream };
    assert(serve(rewound, Request::Read) == (after_head, ReplyView::Window(head)));
    let at_tail = Stream { pos: (len - CHUNK_SIZE) as nat, ..stream };
    let after_tail = Stream { pos: len as nat, ..stream };
    assert(serve(at_tail, Request::Read) == (after_tail, ReplyView::Window(tail)));
    assert(Stream { pos: stream.pos, ..after_tail } == stream);
}

/// The digest reads nothing but the length and the two windows: two streams
/// of one length whose first 65536 bytes agree and whose last 65536 bytes
/// agree end in the same result, whatever lies between and wherever each
/// stream stood at the start.
pub proof fn lemma_interior_is_not_read(len: u64, a: Stream, b: Stream)
    requires
        a.bytes.len() == len,
        b.bytes.len() == len,
        a.pos <= u64::MAX,
        b.pos <= u64::MAX,
        len >= MIN_FILE_SIZE ==> head_of(a.bytes) == head_of(b.bytes),
        len >= MIN_FILE_SIZE ==> tail_of(a.bytes, len) == tail_of(b.bytes, len),
    ensures
        exchange(len, a).0 == exchange(len, b).0,
{
    if len >= MIN_FILE_SIZE {
        lemma_digest_and_position(len, a);
        lemma_digest_and_position(len, b);
    }
}

/// The result is a function of the content alone: streams that hold the same
/// bytes and report the same fault end in the same result for the same
/// declared length, whether that is a digest or an error, from whichever
/// offsets they start.
pub proof fn lemma_same_content_same_result(len: u64, a: Stream, b: Stream)
    requires
        a.bytes == b.bytes,
        a.fault == b.fault,
        a.pos <= u64::MAX,
        b.pos <= u64::MAX,
    ensures
        exchange(len, a).0 == exchange(len, b).0,
{
    if len >= MIN_FILE_SIZE {
        if a.bytes.len() >= len {
            lemma_digest_and_position(len, a);
            lemma_digest_and_position(len, b);
        } else {
            lemma_truncated_stream_fails(len, a);
            lemma_truncated_stream_fails(len, b);
        }
    }
}

/// A stream already at offset zero, as a freshly opened file is, and the
/// same stream at any other offset give the same result.
pub proof fn lemma_fresh_or_positioned(len: u64, stream: Stream)
    requires
        stream.pos <= u64::MAX,
    ensures
        exchange(len, Stream { pos: 0, ..stream }).0 == exchange(len, stream).0,
{
    lemma_same_content_same_result(len, Stream { pos: 0, ..stream }, stream);
}

/// A stream of exactly 128 KiB is accepted. Its two windows are its two
/// halves, so every byte of it is read, once.
pub proof fn lemma_smallest_stream(stream: Stream)
    requires
        stream.bytes.len() == MIN_FILE_SIZE,
        stream.pos <= u64::MAX,
    ensures
        exchange(MIN_FILE_SIZE, stream) == (
            StepView::Done(
                Ok(
                    hex16(
                        digest_value(
                            MIN_FILE_SIZE,
                            head_of(stream.bytes),
                            tail_of(stream.bytes, MIN_FILE_SIZE),
                        ),
                    ),
                ),
            ),
            stream,
        ),
        head_of(stream.bytes) + tail_of(stream.bytes, MIN_FILE_SIZE) == stream.bytes,
{
    lemma_digest_and_position(MIN_FILE_SIZE, stream);
    assert(head_of(stream.bytes) + tail_of(stream.bytes, MIN_FILE_SIZE) =~= stream.bytes);
}

/// A stream that holds fewer bytes than the declared length of at least
/// 128 KiB ends in `IoError` with the stream's own fault, never in
/// `FileTooSmall`.
pub proof fn lemma_truncated_stream_fails(len: u64, stream: Stream)
    requires
        len >= MIN_FILE_SIZE,
        stream.bytes.len() < len,
        stream.pos <= u64::MAX,
    ensures
        exchange(len, stream).0 == StepView::Done(Err(HashError::IoError(stream.fault))),
{
    reveal_with_fuel(run, 7);
    let rewound = Stream { pos: 0, ..stream };
    let asked = StepView::Next(
        Progress { phase: Phase::Head, len, saved: stream.pos as u64, acc: len },
        Request::Read,
    );
    if stream.pos == 0 {
        assert(rewound == stream);
        assert(exchange(len, stream) == run(asked, rewound, 5));
    } else {
        assert(exchange(len, stream) == run(asked, rewound, 4));
    }
}

/// Six requests are enough for every exchange: whatever the declared length
/// and the stream, the exchange has ended.
pub proof fn lemma_exchange_ends(len: u64, stream: Stream)
    requires
        stream.pos <= u64::MAX,
    ensures
        exchange(len, stream).0 is Done,
{
    if len < MIN_FILE_SIZE {
        lemma_short_length_refused(len, stream);
    } else if stream.bytes.len() >= len {
        lemma_digest_and_position(len, stream);
    } else {
        lemma_truncated_stream_fails(len, stream);
    }
}

} // verus!
