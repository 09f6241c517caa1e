//! The UDP echo handler: what the receive loop does next.
//!
//! There is no connection: every datagram that arrives is sent back, with
//! the same payload, to the address it came from. A failure to receive or to
//! send is the program's to report; the loop goes on all the same.

use vstd::prelude::*;

verus! {

/// The most bytes of a datagram that one receive takes.
pub const DATAGRAM_SIZE: usize = 512;

/// What happened on the socket. `A` is the address of a peer.
#[derive(Debug, Clone, Copy)]
pub enum DatagramEvent<'a, A> {
    /// A datagram with this payload arrived from this address.
    Received(&'a [u8], A),
    /// A receive failed.
    ReceiveFailed,
    /// A reply was sent.
    Sent,
    /// A reply could not be sent.
    SendFailed,
}

/// What the receive loop does next.
#[derive(Debug, Clone, Copy)]
pub enum DatagramAction<'a, A> {
    /// Receive the next datagram, up to `DATAGRAM_SIZE` bytes of it.
    Receive,
    /// Send this payload to this address.
    Send(&'a [u8], A),
}

/// The answer to an event: a datagram goes back to where it came from, and
/// after anything else the loop receives again.
pub open spec fn datagram_next<'a, A>(event: DatagramEvent<'a, A>) -> DatagramAction<'a, A> {
    match event {
        DatagramEvent::Received(payload, source) => DatagramAction::Send(payload, source),
        _ => DatagramAction::Receive,
    }
}

/// Decides what the receive loop does after `event`.
pub fn datagram_step<'a, A>(event: DatagramEvent<'a, A>) -> (action: DatagramAction<'a, A>)
    ensures
        action == datagram_next(event),
{
    match event {
        DatagramEvent::Received(payload, source) => DatagramAction::Send(payload, source),
        _ => DatagramAction::Receive,
    }
}

/// The datagrams among `events` that arrived, in order, each with its
/// payload and its source.
pub open spec fn arrived<'a, A>(events: Seq<DatagramEvent<'a, A>>) -> Seq<(Seq<u8>, A)>
    decreases events.len(),
{
    if events.len() == 0 {
        Seq::empty()
    } else {
        let rest = arrived(events.drop_first());
        match events[0] {
            DatagramEvent::Received(payload, source) => seq![(payload@, source)] + rest,
            _ => rest,
        }
    }
}

/// The datagrams that the loop sends over `events`, in order, each with its
/// payload and its destination.
pub open spec fn replied<'a, A>(events: Seq<DatagramEvent<'a, A>>) -> Seq<(Seq<u8>, A)>
    decreases events.len(),
{
    if events.len() == 0 {
        Seq::empty()
    } else {
        let rest = replied(events.drop_first());
        match datagram_next(events[0]) {
            DatagramAction::Send(payload, destination) => seq![(payload@, destination)] + rest,
            DatagramAction::Receive => rest,
        }
    }
}

/// Whatever else happens on the socket, each datagram that arrives is
/// answered exactly once, with its own payload, to its own source, and
/// nothing else is sent.
pub proof fn lemma_each_datagram_is_answered_once<'a, A>(events: Seq<DatagramEvent<'a, A>>)
    ensures
        replied(events) == arrived(events),
    decreases events.len(),
{
    if events.len() > 0 {
        lemma_each_datagram_is_answered_once(events.drop_first());
    }
}

} // verus!
