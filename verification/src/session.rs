//! The order of stream operations behind one fingerprint.
//!
//! A [`Session`] never touches a stream. It names the next operation as a
//! [`Request`]; the driver performs it on the stream and hands the outcome
//! back as a [`Reply`]. The exchange ends with the digest text or an error.

use vstd::prelude::*;
use crate::digest::{absorb, accumulate, format_digest, hex16, CHUNK_SIZE, MIN_FILE_SIZE};
use crate::error::HashError;

verus! {

/// The operation whose outcome a session is waiting for.
#[derive(Clone, Copy, Debug, PartialEq, Eq, Structural)]
pub enum Phase {
    /// The query of the stream's current offset.
    Position,
    /// The seek to offset zero.
    Rewind,
    /// The read of the head window.
    Head,
    /// The seek to the start of the tail window.
    TailSeek,
    /// The read of the tail window.
    Tail,
    /// The seek back to the offset found at the start.
    Restore,
}

/// A stream operation for the driver to perform.
#[derive(Clone, Copy, Debug, PartialEq, Eq, Structural)]
pub enum Request {
    /// Report the current offset, without moving.
    Position,
    /// Move to this offset, counted from the start of the stream.
    Seek(u64),
    /// Read exactly one window of 65536 bytes at the current offset.
    Read,
}

/// The outcome of a performed request.
pub enum Reply<'a> {
    /// The offset reported by a query, or reached by a seek.
    Position(u64),
    /// The bytes that a read delivered.
    Window(&'a [u8]),
    /// The operation failed.
    Failed(std::io::Error),
}

/// A reply as a mathematical value.
pub ghost enum ReplyView {
    Position(u64),
    Window(Seq<u8>),
    Failed(std::io::Error),
}

impl<'a> View for Reply<'a> {
    type V = ReplyView;

    open spec fn view(&self) -> ReplyView {
        match *self {
            Reply::Position(at) => ReplyView::Position(at),
            Reply::Window(bytes) => ReplyView::Window(bytes@),
            Reply::Failed(err) => ReplyView::Failed(err),
        }
    }
}

/// What a session remembers between two requests.
pub ghost struct Progress {
    /// The operation that is awaited.
    pub phase: Phase,
    /// The declared length of the resource.
    pub len: u64,
    /// The offset the stream had before the first seek.
    pub saved: u64,
    /// The accumulator: the length plus the words absorbed so far.
    pub acc: u64,
}

/// A fingerprint in progress.
pub struct Session {
    phase: Phase,
    len: u64,
    saved: u64,
    acc: u64,
}

impl View for Session {
    type V = Progress;

    closed spec fn view(&self) -> Progress {
        Progress { phase: self.phase, len: self.len, saved: self.saved, acc: self.acc }
    }
}

/// Where an exchange stands after a reply.
pub enum Step {
    /// Perform the request and resume the session with its outcome.
    Next(Session, Request),
    /// The exchange is over.
    Done(Result<String, HashError>),
}

/// A step as a mathematical value.
pub ghost enum StepView {
    Next(Progress, Request),
    Done(Result<Seq<char>, HashError>),
}

impl View for Step {
    type V = StepView;

    open spec fn view(&self) -> StepView {
        match *self {
            Step::Next(session, request) => StepView::Next(session@, request),
            Step::Done(Ok(text)) => StepView::Done(Ok(text@)),
            Step::Done(Err(error)) => StepView::Done(Err(error)),
        }
    }
}

/// The first step for a resource of `len` bytes: a length below the minimum
/// is refused before anything is asked of the stream; otherwise the
/// accumulator starts at the length and the current offset is asked for.
pub open spec fn start(len: u64) -> StepView {
    if len < MIN_FILE_SIZE {
        StepView::Done(Err(HashError::FileTooSmall))
    } else {
        StepView::Next(
            Progress { phase: Phase::Position, len, saved: 0, acc: len },
            Request::Position,
        )
    }
}

/// Whether `reply` can be the outcome of the operation that `progress`
/// awaits. A failure can follow any operation; an offset follows a query or a
/// seek; a window follows a read and holds exactly 65536 bytes.
pub open spec fn awaits(progress: Progress, reply: ReplyView) -> bool {
    match reply {
        ReplyView::Failed(_) => true,
        ReplyView::Position(_) => progress.phase != Phase::Head && progress.phase != Phase::Tail,
        ReplyView::Window(bytes) => (progress.phase == Phase::Head || progress.phase
            == Phase::Tail) && bytes.len() == CHUNK_SIZE,
    }
}

/// The step that follows `reply`.
///
/// A failure ends the exchange with that failure. The queried offset is
/// kept, and the stream is moved to zero unless it is there already. The
/// head window is absorbed, then the stream is moved to `len - 65536` and
/// the tail window is absorbed. The stream is then moved back to the kept
/// offset, and once that seek has succeeded the accumulator is rendered.
pub open spec fn advance(progress: Progress, reply: ReplyView) -> StepView {
    match reply {
        ReplyView::Failed(err) => StepView::Done(Err(HashError::IoError(err))),
        ReplyView::Position(at) => match progress.phase {
            Phase::Position => if at == 0 {
                StepView::Next(Progress { phase: Phase::Head, saved: 0, ..progress }, Request::Read)
            } else {
                StepView::Next(
                    Progress { phase: Phase::Rewind, saved: at, ..progress },
                    Request::Seek(0),
                )
            },
            Phase::Rewind => StepView::Next(
                Progress { phase: Phase::Head, ..progress },
                Request::Read,
            ),
            Phase::TailSeek => StepView::Next(
                Progress { phase: Phase::Tail, ..progress },
                Request::Read,
            ),
            _ => StepView::Done(Ok(hex16(progress.acc))),
        },
        ReplyView::Window(bytes) => match progress.phase {
            Phase::Head => StepView::Next(
                Progress { phase: Phase::TailSeek, acc: absorb(progress.acc, bytes), ..progress },
                Request::Seek((progress.len - CHUNK_SIZE) as u64),
            ),
            _ => StepView::Next(
                Progress { phase: Phase::Restore, acc: absorb(progress.acc, bytes), ..progress },
                Request::Seek(progress.saved),
            ),
        },
    }
}

/// Opens the exchange for a resource of `len` bytes.
pub fn begin(len: u64) -> (step: Step)
    ensures
        step@ == start(len),
{
    if len < MIN_FILE_SIZE {
        Step::Done(Err(HashError::FileTooSmall))
    } else {
        Step::Next(Session { phase: Phase::Position, len, saved: 0, acc: len }, Request::Position)
    }
}

impl Session {
    #[verifier::type_invariant]
    spec fn valid(self) -> bool {
        self.len >= MIN_FILE_SIZE
    }

    /// Tells whether `reply` fits the operation this session awaits.
    pub fn accepts(&self, reply: &Reply<'_>) -> (fits: bool)
        ensures
            fits == awaits(self@, reply@),
    {
        match reply {
            Reply::Failed(_) => true,
            Reply::Position(_) => match self.phase {
                Phase::Head => false,
                Phase::Tail => false,
                _ => true,
            },
            Reply::Window(bytes) => {
                let full: bool = bytes.len() as u64 == CHUNK_SIZE;
                match self.phase {
                    Phase::Head => full,
                    Phase::Tail => full,
                    _ => false,
                }
            },
        }
    }

    /// Takes the outcome of the awaited operation and names the next one, or
    /// ends the exchange.
    pub fn resume(self, reply: Reply<'_>) -> (step: Step)
        requires
            awaits(self@, reply@),
        ensures
            step@ == advance(self@, reply@),
    {
        proof {
            use_type_invariant(&self);
        }
        match reply {
            Reply::Failed(err) => Step::Done(Err(HashError::from(err))),
            Reply::Position(at) => match self.phase {
                Phase::Position => if at == 0 {
                    Step::Next(
                        Session { phase: Phase::Head, len: self.len, saved: 0, acc: self.acc },
                        Request::Read,
                    )
                } else {
                    Step::Next(
                        Session { phase: Phase::Rewind, len: self.len, saved: at, acc: self.acc },
                        Request::Seek(0),
                    )
                },
                Phase::Rewind => Step::Next(
                    Session { phase: Phase::Head, len: self.len, saved: self.saved, acc: self.acc },
                    Request::Read,
                ),
                Phase::TailSeek => Step::Next(
                    Session { phase: Phase::Tail, len: self.len, saved: self.saved, acc: self.acc },
                    Request::Read,
                ),
                _ => Step::Done(Ok(format_digest(self.acc))),
            },
            Reply::Window(bytes) => {
                let acc: u64 = accumulate(self.acc, bytes);
                match self.phase {
                    Phase::Head => Step::Next(
                        Session { phase: Phase::TailSeek, len: self.len, saved: self.saved, acc },
                        Request::Seek(self.len - CHUNK_SIZE),
                    ),
                    _ => Step::Next(
                        Session { phase: Phase::Restore, len: self.len, saved: self.saved, acc },
                        Request::Seek(self.saved),
                    ),
                }
            },
        }
    }
}

} // verus!
