//! The transport envelope: protocol version, sequence number, a reserved
//! acknowledgement field and at most one packet.
use crate::packet::{lemma_packet_round_trip, packet_at, parse_packet, DecodeError, Packet};
use crate::wire::{
    be32, lemma_be32_round_trip, put_slice, read_be32, u32_from_be, u32_to_be,
};
use vstd::prelude::*;

verus! {

/// The protocol version that frames are built with.
pub const PROTOCOL_VERSION: u8 = 1;

/// Length of the header: version, sequence number, acknowledgement field.
pub const HEADER_LEN: usize = 9;

/// One datagram's content. A frame without a packet is a bare probe.
#[derive(Copy, Clone, Debug, PartialEq, Eq, Structural)]
pub struct Frame {
    pub version: u8,
    /// Sequence number; the sender counts it up by one per frame, wrapping.
    pub syn: u32,
    /// Acknowledgement field; carried on the wire, read by no logic.
    pub ack: u32,
    pub packet: Option<Packet>,
}

impl Frame {
    /// The encoding: the 9-byte header, then the packet's encoding if there
    /// is one.
    pub open spec fn spec_bytes(self) -> Seq<u8> {
        seq![self.version] + be32(self.syn) + be32(self.ack) + match self.packet {
            Some(p) => p.spec_bytes(),
            None => Seq::empty(),
        }
    }

    /// A probe frame of the current protocol version with sequence and
    /// acknowledgement 0.
    pub fn new() -> (r: Frame)
        ensures
            r == (Frame { version: PROTOCOL_VERSION, syn: 0, ack: 0, packet: None }),
    {
        Frame { version: PROTOCOL_VERSION, syn: 0, ack: 0, packet: None }
    }

    /// Encodes the frame.
    pub fn to_bytes(&self) -> (r: Vec<u8>)
        ensures
            r@ == self.spec_bytes(),
    {
        let mut output = vec![self.version];
        let syn = u32_to_be(self.syn);
        let ack = u32_to_be(self.ack);
        put_slice(&mut output, syn.as_slice());
        put_slice(&mut output, ack.as_slice());
        if let Some(packet) = self.packet {
            let mut packet = packet.to_bytes();
            output.append(&mut packet);
        }
        assert(output@ =~= self.spec_bytes());
        output
    }

    /// Decodes a frame. Fails with `TruncatedFrame` below nine bytes; with
    /// nothing after the header the frame is a probe; otherwise the rest
    /// must hold a packet, and the packet's error is the frame's.
    pub fn from_bytes(bytes: &[u8]) -> (r: Result<Frame, DecodeError>)
        ensures
            r == parse_frame(bytes@),
    {
        if bytes.len() < HEADER_LEN {
            return Err(DecodeError::TruncatedFrame);
        }
        let version = bytes[0];
        let syn = u32_from_be(bytes, 1);
        let ack = u32_from_be(bytes, 5);
        if bytes.len() == HEADER_LEN {
            return Ok(Frame { version, syn, ack, packet: None });
        }
        match packet_at(bytes, HEADER_LEN) {
            Ok(packet) => Ok(Frame { version, syn, ack, packet: Some(packet) }),
            Err(e) => Err(e),
        }
    }
}

impl Default for Frame {
    fn default() -> (r: Frame)
        ensures
            r == (Frame { version: PROTOCOL_VERSION, syn: 0, ack: 0, packet: None }),
    {
        Frame::new()
    }
}

/// The frame that `s` holds, or why it holds none.
pub open spec fn parse_frame(s: Seq<u8>) -> Result<Frame, DecodeError> {
    if s.len() < HEADER_LEN {
        Err(DecodeError::TruncatedFrame)
    } else {
        let version = s[0];
        let syn = read_be32(s, 1);
        let ack = read_be32(s, 5);
        if s.len() == HEADER_LEN {
            Ok(Frame { version, syn, ack, packet: None })
        } else {
            match parse_packet(s.skip(HEADER_LEN as int)) {
                Ok(p) => Ok(Frame { version, syn, ack, packet: Some(p) }),
                Err(e) => Err(e),
            }
        }
    }
}

/// Decoding an encoded frame gives the frame back, with or without a
/// packet.
pub proof fn lemma_frame_round_trip(f: Frame)
    ensures
        parse_frame(f.spec_bytes()) == Ok::<Frame, DecodeError>(f),
{
    let s = f.spec_bytes();
    assert(s.subrange(1, 5) =~= be32(f.syn));
    assert(s.subrange(5, 9) =~= be32(f.ack));
    lemma_be32_round_trip(f.syn, s, 1);
    lemma_be32_round_trip(f.ack, s, 5);
    match f.packet {
        Some(p) => {
            assert(s.skip(HEADER_LEN as int) =~= p.spec_bytes());
            lemma_packet_round_trip(p);
        },
        None => {},
    }
}

} // verus!
