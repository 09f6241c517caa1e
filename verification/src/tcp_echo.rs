//! The TCP echo handler: what one connection does next.
//!
//! A connection reads a chunk, writes the same bytes back, and reads again,
//! until the peer closes the stream or a read or write fails. The program
//! around the library does the reading and the writing; `echo_step` decides.

use vstd::prelude::*;

verus! {

/// The most bytes that one read asks for.
pub const CHUNK_SIZE: usize = 512;

/// Where a connection stands.
#[derive(Debug, Clone, Copy, PartialEq, Eq, Structural)]
pub enum EchoState {
    /// Waiting for a read to return.
    Reading,
    /// Waiting for a write to return.
    Writing,
    /// Finished: the handler has ended.
    Closed,
}

/// What happened on the connection.
#[derive(Debug, Clone, Copy)]
pub enum EchoEvent<'a> {
    /// A read returned these bytes; none at the end of the stream.
    Read(&'a [u8]),
    /// A read failed.
    ReadFailed,
    /// A write of the whole chunk succeeded.
    Written,
    /// A write failed.
    WriteFailed,
}

/// What the handler does next.
#[derive(Debug, Clone, Copy)]
pub enum EchoAction<'a> {
    /// Read up to `CHUNK_SIZE` bytes.
    Read,
    /// Write all of these bytes, in order.
    Write(&'a [u8]),
    /// End the handler.
    Close,
}

impl<'a> EchoAction<'a> {
    /// The bytes that the action puts on the wire.
    pub open spec fn written(self) -> Seq<u8> {
        match self {
            EchoAction::Write(bytes) => bytes@,
            _ => Seq::empty(),
        }
    }
}

/// The transition of a connection: a chunk that was read is written back as
/// it is, a finished write leads to the next read, and the end of the stream,
/// a failure, or an event that the state does not wait for ends the handler.
pub open spec fn echo_next<'a>(state: EchoState, event: EchoEvent<'a>) -> (
    EchoState,
    EchoAction<'a>,
) {
    match (state, event) {
        (EchoState::Reading, EchoEvent::Read(chunk)) => if chunk@.len() > 0 {
            (EchoState::Writing, EchoAction::Write(chunk))
        } else {
            (EchoState::Closed, EchoAction::Close)
        },
        (EchoState::Writing, EchoEvent::Written) => (EchoState::Reading, EchoAction::Read),
        _ => (EchoState::Closed, EchoAction::Close),
    }
}

/// Decides what a connection in `state` does after `event`.
pub fn echo_step<'a>(state: EchoState, event: EchoEvent<'a>) -> (next: (
    EchoState,
    EchoAction<'a>,
))
    ensures
        next == echo_next(state, event),
{
    match state {
        EchoState::Reading => match event {
            EchoEvent::Read(chunk) => {
                if chunk.len() > 0 {
                    (EchoState::Writing, EchoAction::Write(chunk))
                } else {
                    (EchoState::Closed, EchoAction::Close)
                }
            },
            _ => (EchoState::Closed, EchoAction::Close),
        },
        EchoState::Writing => match event {
            EchoEvent::Written => (EchoState::Reading, EchoAction::Read),
            _ => (EchoState::Closed, EchoAction::Close),
        },
        EchoState::Closed => (EchoState::Closed, EchoAction::Close),
    }
}

/// The state of a connection that started in `state` after `events`.
pub open spec fn state_after<'a>(state: EchoState, events: Seq<EchoEvent<'a>>) -> EchoState
    decreases events.len(),
{
    if events.len() == 0 {
        state
    } else {
        state_after(echo_next(state, events[0]).0, events.drop_first())
    }
}

/// All bytes that a connection that started in `state` writes over `events`.
pub open spec fn echoed<'a>(state: EchoState, events: Seq<EchoEvent<'a>>) -> Seq<u8>
    decreases events.len(),
{
    if events.len() == 0 {
        Seq::empty()
    } else {
        let (next, action) = echo_next(state, events[0]);
        action.written() + echoed(next, events.drop_first())
    }
}

/// The bytes of `chunks` one after another.
pub open spec fn joined<'a>(chunks: Seq<&'a [u8]>) -> Seq<u8>
    decreases chunks.len(),
{
    if chunks.len() == 0 {
        Seq::empty()
    } else {
        chunks[0]@ + joined(chunks.drop_first())
    }
}

/// What a connection sees of a peer that sends `chunks` and takes every
/// write: each chunk read, then its write finished.
pub open spec fn exchange<'a>(chunks: Seq<&'a [u8]>) -> Seq<EchoEvent<'a>>
    decreases chunks.len(),
{
    if chunks.len() == 0 {
        Seq::empty()
    } else {
        seq![EchoEvent::Read(chunks[0]), EchoEvent::Written] + exchange(chunks.drop_first())
    }
}

/// Whatever a peer sends, in however many chunks that are not empty, comes
/// back byte for byte and in order, and the connection is ready to read on.
pub proof fn lemma_echo_returns_what_was_sent<'a>(chunks: Seq<&'a [u8]>)
    requires
        forall|i: int| 0 <= i < chunks.len() ==> (#[trigger] chunks[i])@.len() > 0,
    ensures
        echoed(EchoState::Reading, exchange(chunks)) == joined(chunks),
        state_after(EchoState::Reading, exchange(chunks)) == EchoState::Reading,
    decreases chunks.len(),
{
    if chunks.len() > 0 {
        let rest = chunks.drop_first();
        let events = exchange(chunks);
        lemma_echo_returns_what_was_sent(rest);
        assert(events.drop_first().drop_first() =~= exchange(rest));
        assert(events[0] == EchoEvent::Read(chunks[0]));
        assert(events.drop_first()[0] == EchoEvent::<'a>::Written);
        assert(events.drop_first().len() > 0);
        assert(echoed(EchoState::Writing, events.drop_first()) == echoed(
            EchoState::Reading,
            exchange(rest),
        ));
        assert(echoed(EchoState::Reading, events) =~= chunks[0]@ + joined(rest));
        assert(state_after(EchoState::Writing, events.drop_first()) == state_after(
            EchoState::Reading,
            exchange(rest),
        ));
    } else {
        assert(exchange(chunks).len() == 0);
    }
}

/// The end of the stream closes a reading connection, and nothing is
/// written for it.
pub proof fn lemma_end_of_stream_closes<'a>(chunk: &'a [u8])
    requires
        chunk@.len() == 0,
    ensures
        echo_next(EchoState::Reading, EchoEvent::Read(chunk)) == (
            EchoState::Closed,
            EchoAction::<'a>::Close,
        ),
{
}

/// A closed connection stays closed and writes nothing more.
pub proof fn lemma_closed_stays_closed<'a>(events: Seq<EchoEvent<'a>>)
    ensures
        state_after(EchoState::Closed, events) == EchoState::Closed,
        echoed(EchoState::Closed, events) == Seq::<u8>::empty(),
    decreases events.len(),
{
    if events.len() > 0 {
        lemma_closed_stays_closed(events.drop_first());
        assert(echoed(EchoState::Closed, events) =~= Seq::<u8>::empty());
    }
}

} // verus!
