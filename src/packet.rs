//! Application-level packets: keepalive, full-state request and movement
//! intent, each led by its tag byte.
use crate::id::Id;
use crate::wire::{be16, lemma_be16_round_trip, read_be16, u16_from_be, u16_to_be};
use vstd::prelude::*;

verus! {

/// Tag of a keepalive packet.
pub const PING_PACKET_ID: u8 = 0;

/// Tag of a full-state request.
pub const SYNC_PACKET_ID: u8 = 1;

/// Tag of a movement intent.
pub const MOVEMENT_PACKET_ID: u8 = 2;

/// Length of a movement intent after its tag: two identifier bytes and the
/// direction flags.
pub const MOVEMENT_BODY_LEN: usize = 3;

/// Why a datagram could not be decoded. The datagram is dropped; no state
/// changes.
#[derive(Copy, Clone, Debug, PartialEq, Eq, Structural)]
pub enum DecodeError {
    /// Fewer bytes than the frame header.
    TruncatedFrame,
    /// Fewer bytes than the packet's tag requires.
    TruncatedPacket,
    /// The first byte is no known tag.
    UnknownTag,
}

/// Keepalive: no payload.
#[derive(Copy, Clone, Debug, PartialEq, Eq, Structural)]
pub struct Ping;

impl Ping {
    /// The encoded keepalive: its tag alone.
    pub fn to_bytes(&self) -> (r: Vec<u8>)
        ensures
            r@ == seq![PING_PACKET_ID],
    {
        vec![PING_PACKET_ID]
    }
}

/// Request for the full game state: no payload.
#[derive(Copy, Clone, Debug, PartialEq, Eq, Structural)]
pub struct Sync;

impl Sync {
    /// The encoded request: its tag alone.
    pub fn to_bytes(&self) -> (r: Vec<u8>)
        ensures
            r@ == seq![SYNC_PACKET_ID],
    {
        vec![SYNC_PACKET_ID]
    }
}

/// Whether the bit of weight `w` (a power of two) is set in `flags`.
pub open spec fn bit_set(flags: u8, w: nat) -> bool {
    (flags as nat / w) % 2 == 1
}

/// The directions a player holds down, for one player.
#[derive(Copy, Clone, Debug, PartialEq, Eq, Structural)]
pub struct Movement {
    pub id: Id,
    pub up: bool,
    pub down: bool,
    pub left: bool,
    pub right: bool,
}

/// The same value under the name the engine's callers use.
pub type Move = Movement;

impl Movement {
    /// The flags byte: bit 3 up, bit 2 down, bit 1 left, bit 0 right; the
    /// high bits are zero.
    pub open spec fn flags_spec(self) -> u8 {
        ((if self.up { 8u8 } else { 0u8 }) + (if self.down { 4u8 } else { 0u8 }) + (if self.left {
            2u8
        } else {
            0u8
        }) + (if self.right { 1u8 } else { 0u8 })) as u8
    }

    /// The three bytes after the tag: the identifier, then the flags.
    pub open spec fn body_spec(self) -> Seq<u8> {
        be16(self.id.0).push(self.flags_spec())
    }

    /// A movement intent for player 0 with no direction held.
    pub fn new() -> (r: Movement)
        ensures
            r == (Movement { id: Id(0), up: false, down: false, left: false, right: false }),
    {
        Movement { id: Id(0), up: false, down: false, left: false, right: false }
    }

    /// The flags byte of the four directions.
    fn flags(&self) -> (r: u8)
        ensures
            r == self.flags_spec(),
    {
        let up: u8 = if self.up { 0b1000 } else { 0 };
        let down: u8 = if self.down { 0b0100 } else { 0 };
        let left: u8 = if self.left { 0b0010 } else { 0 };
        let right: u8 = if self.right { 0b0001 } else { 0 };
        up + down + left + right
    }

    /// The encoded intent without its tag.
    pub fn as_bytes(&self) -> (r: [u8; 3])
        ensures
            r@ == self.body_spec(),
    {
        let id = u16_to_be(self.id.0);
        let r = [id[0], id[1], self.flags()];
        assert(r@ =~= self.body_spec());
        r
    }

    /// The encoded intent: its tag, then the body.
    pub fn to_bytes(&self) -> (r: Vec<u8>)
        ensures
            r@ == seq![MOVEMENT_PACKET_ID] + self.body_spec(),
    {
        let body = self.as_bytes();
        let mut output = vec![MOVEMENT_PACKET_ID];
        output.push(body[0]);
        output.push(body[1]);
        output.push(body[2]);
        assert(output@ =~= seq![MOVEMENT_PACKET_ID] + self.body_spec());
        output
    }

    /// Decodes the body of an intent: `None` when fewer than three bytes are
    /// given; bytes after the third are not read.
    pub fn from_bytes(bytes: &[u8]) -> (r: Option<Movement>)
        ensures
            r == parse_movement(bytes@),
    {
        movement_at(bytes, 0)
    }
}

/// The intent whose body starts `s`, if `s` is long enough to hold one.
pub open spec fn parse_movement(s: Seq<u8>) -> Option<Movement> {
    if s.len() < MOVEMENT_BODY_LEN {
        None
    } else {
        Some(
            Movement {
                id: Id(read_be16(s, 0)),
                up: bit_set(s[2], 8),
                down: bit_set(s[2], 4),
                left: bit_set(s[2], 2),
                right: bit_set(s[2], 1),
            },
        )
    }
}

/// Decodes the body of an intent that starts at `at`.
fn movement_at(bytes: &[u8], at: usize) -> (r: Option<Movement>)
    requires
        at <= bytes@.len(),
    ensures
        r == parse_movement(bytes@.skip(at as int)),
{
    let ghost rest = bytes@.skip(at as int);
    if bytes.len() - at < MOVEMENT_BODY_LEN {
        return None;
    }
    let id = Id(u16_from_be(bytes, at));
    let flags = bytes[at + 2];
    let up = (flags & 0b1000) == 0b1000;
    let down = (flags & 0b0100) == 0b0100;
    let left = (flags & 0b0010) == 0b0010;
    let right = (flags & 0b0001) == 0b0001;
    proof {
        lemma_flag_bits(flags);
        assert(rest[0] == bytes@[at as int]);
        assert(rest[1] == bytes@[at + 1]);
        assert(rest[2] == flags);
    }
    Some(Movement { id, up, down, left, right })
}

/// Masking a flags byte reads its low four bits.
proof fn lemma_flag_bits(f: u8)
    ensures
        ((f & 0b1000) == 0b1000) == bit_set(f, 8),
        ((f & 0b0100) == 0b0100) == bit_set(f, 4),
        ((f & 0b0010) == 0b0010) == bit_set(f, 2),
        ((f & 0b0001) == 0b0001) == bit_set(f, 1),
{
    assert(((f & 0b1000) == 0b1000) == ((f / 8) % 2 == 1)) by (bit_vector);
    assert(((f & 0b0100) == 0b0100) == ((f / 4) % 2 == 1)) by (bit_vector);
    assert(((f & 0b0010) == 0b0010) == ((f / 2) % 2 == 1)) by (bit_vector);
    assert(((f & 0b0001) == 0b0001) == (f % 2 == 1)) by (bit_vector);
}

/// The three kinds of packet.
#[derive(Copy, Clone, Debug, PartialEq, Eq, Structural)]
pub enum Packet {
    Ping(Ping),
    Sync(Sync),
    Movement(Movement),
}

impl Packet {
    /// The canonical encoding: the tag byte, then the payload that the tag
    /// fixes (none for a keepalive or a request, three bytes for an intent).
    pub open spec fn spec_bytes(self) -> Seq<u8> {
        match self {
            Packet::Ping(_) => seq![PING_PACKET_ID],
            Packet::Sync(_) => seq![SYNC_PACKET_ID],
            Packet::Movement(m) => seq![MOVEMENT_PACKET_ID] + m.body_spec(),
        }
    }

    /// Encodes the packet.
    pub fn to_bytes(&self) -> (r: Vec<u8>)
        ensures
            r@ == self.spec_bytes(),
    {
        match self {
            Packet::Ping(ping) => ping.to_bytes(),
            Packet::Sync(sync) => sync.to_bytes(),
            Packet::Movement(movement) => movement.to_bytes(),
        }
    }

    /// Decodes a packet from the start of `bytes`; bytes after the length
    /// that the tag fixes are not read.
    pub fn from_bytes(bytes: &[u8]) -> (r: Result<Packet, DecodeError>)
        ensures
            r == parse_packet(bytes@),
    {
        proof {
            assert(bytes@.skip(0) =~= bytes@);
        }
        packet_at(bytes, 0)
    }
}

/// The packet at the start of `s`: `TruncatedPacket` when `s` is empty or
/// an intent's body is cut short, `UnknownTag` when the first byte is no tag.
pub open spec fn parse_packet(s: Seq<u8>) -> Result<Packet, DecodeError> {
    if s.len() == 0 {
        Err(DecodeError::TruncatedPacket)
    } else if s[0] == PING_PACKET_ID {
        Ok(Packet::Ping(Ping))
    } else if s[0] == SYNC_PACKET_ID {
        Ok(Packet::Sync(Sync))
    } else if s[0] == MOVEMENT_PACKET_ID {
        match parse_movement(s.skip(1)) {
            Some(m) => Ok(Packet::Movement(m)),
            None => Err(DecodeError::TruncatedPacket),
        }
    } else {
        Err(DecodeError::UnknownTag)
    }
}

/// Decodes the packet that starts at `at`.
pub(crate) fn packet_at(bytes: &[u8], at: usize) -> (r: Result<Packet, DecodeError>)
    requires
        at <= bytes@.len(),
    ensures
        r == parse_packet(bytes@.skip(at as int)),
{
    let ghost rest = bytes@.skip(at as int);
    if at == bytes.len() {
        return Err(DecodeError::TruncatedPacket);
    }
    let tag = bytes[at];
    assert(rest[0] == tag);
    if tag == PING_PACKET_ID {
        Ok(Packet::Ping(Ping))
    } else if tag == SYNC_PACKET_ID {
        Ok(Packet::Sync(Sync))
    } else if tag == MOVEMENT_PACKET_ID {
        assert(rest.skip(1) =~= bytes@.skip(at + 1));
        match movement_at(bytes, at + 1) {
            Some(m) => Ok(Packet::Movement(m)),
            None => Err(DecodeError::TruncatedPacket),
        }
    } else {
        Err(DecodeError::UnknownTag)
    }
}

/// The flags byte of an intent gives back its four directions.
pub proof fn lemma_flags_round_trip(m: Movement)
    ensures
        bit_set(m.flags_spec(), 8) == m.up,
        bit_set(m.flags_spec(), 4) == m.down,
        bit_set(m.flags_spec(), 2) == m.left,
        bit_set(m.flags_spec(), 1) == m.right,
{
}

/// Decoding the body of an intent gives the intent back, whatever follows it.
pub proof fn lemma_movement_round_trip(m: Movement, tail: Seq<u8>)
    ensures
        parse_movement(m.body_spec() + tail) == Some(m),
{
    let s = m.body_spec() + tail;
    lemma_flags_round_trip(m);
    assert(s.subrange(0, 2) =~= be16(m.id.0));
    lemma_be16_round_trip(m.id.0, s, 0);
    assert(s[2] == m.flags_spec());
}

/// Decoding an encoded packet gives the packet back, whatever bytes follow
/// it.
pub proof fn lemma_packet_round_trip_with_tail(p: Packet, tail: Seq<u8>)
    ensures
        parse_packet(p.spec_bytes() + tail) == Ok::<Packet, DecodeError>(p),
{
    let s = p.spec_bytes() + tail;
    match p {
        Packet::Ping(ping) => {
            assert(ping == Ping);
        },
        Packet::Sync(sync) => {
            assert(sync == Sync);
        },
        Packet::Movement(m) => {
            assert(s.skip(1) =~= m.body_spec() + tail);
            lemma_movement_round_trip(m, tail);
        },
    }
}

/// Decoding an encoded packet gives the packet back.
pub proof fn lemma_packet_round_trip(p: Packet)
    ensures
        parse_packet(p.spec_bytes()) == Ok::<Packet, DecodeError>(p),
{
    lemma_packet_round_trip_with_tail(p, Seq::empty());
    assert(p.spec_bytes() + Seq::<u8>::empty() =~= p.spec_bytes());
}

} // verus!
