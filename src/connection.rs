//! Per-peer sequence tracking on the receiving side, and sequence stamping
//! on the sending side.
use crate::frame::Frame;
use crate::packet::Packet;
use vstd::prelude::*;

verus! {

/// What became of a frame handed to a connection.
#[derive(Copy, Clone, Debug, PartialEq, Eq, Structural)]
pub enum Delivery {
    /// The frame was fresh; its packet, if it had one, goes to the engine.
    Accepted(Option<Packet>),
    /// The frame was older than the newest one seen and was dropped.
    Dropped,
}

/// Sequence state of one remote peer.
#[derive(Copy, Clone, Debug, PartialEq, Eq, Structural)]
pub struct Connection {
    next_expected: u32,
}

impl Connection {
    /// The lowest sequence number that is still accepted.
    pub closed spec fn spec_next_expected(self) -> u32 {
        self.next_expected
    }

    /// A connection that has seen no frame.
    pub fn new() -> (r: Connection)
        ensures
            r.spec_next_expected() == 0,
    {
        Connection { next_expected: 0 }
    }

    /// The lowest sequence number that is still accepted.
    pub fn next_expected(&self) -> (r: u32)
        ensures
            r == self.spec_next_expected(),
    {
        self.next_expected
    }

    /// Accepts the frame iff its sequence number is at least the one
    /// expected; the expected number then moves past it (wrapping after
    /// `u32::MAX`). A stale frame is dropped and nothing changes.
    pub fn handle_frame(&mut self, frame: Frame) -> (r: Delivery)
        ensures
            frame.syn >= old(self).spec_next_expected() ==> {
                &&& r == Delivery::Accepted(frame.packet)
                &&& final(self).spec_next_expected() == (frame.syn + 1) % 0x1_0000_0000
            },
            frame.syn < old(self).spec_next_expected() ==> {
                &&& r == Delivery::Dropped
                &&& *final(self) == *old(self)
            },
    {
        if frame.syn < self.next_expected {
            return Delivery::Dropped;
        }
        self.next_expected = frame.syn.wrapping_add(1);
        Delivery::Accepted(frame.packet)
    }
}

/// Numbers the frames that one sender transmits on one logical connection.
#[derive(Copy, Clone, Debug, PartialEq, Eq, Structural)]
pub struct Sequencer {
    next: u32,
}

impl Sequencer {
    /// The number that the next frame gets.
    pub closed spec fn spec_next(self) -> u32 {
        self.next
    }

    /// A sequencer whose first frame gets number 0.
    pub fn new() -> (r: Sequencer)
        ensures
            r.spec_next() == 0,
    {
        Sequencer { next: 0 }
    }

    /// The frame with the next sequence number, all else kept; the count
    /// moves up by one, wrapping after `u32::MAX`.
    pub fn stamp(&mut self, frame: Frame) -> (r: Frame)
        ensures
            r == (Frame { syn: old(self).spec_next(), ..frame }),
            final(self).spec_next() == (old(self).spec_next() + 1) % 0x1_0000_0000,
    {
        let stamped = Frame { syn: self.next, ..frame };
        self.next = self.next.wrapping_add(1);
        stamped
    }
}

} // verus!
