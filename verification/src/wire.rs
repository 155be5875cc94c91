//! The bytes that carry a control message from a client to the timer.
//!
//! A message travels as the number of its variant, a `u32` in bincode's
//! fixed-width little-endian form. Further bytes after it are passed over.

use vstd::prelude::*;
use crate::types::Message;

verus! {

/// The four bytes of `v`, lowest first.
pub open spec fn le_bytes(v: u32) -> Seq<u8> {
    seq![
        (v % 256) as u8,
        (v / 256 % 256) as u8,
        (v / 65536 % 256) as u8,
        (v / 16777216) as u8,
    ]
}

/// The number whose four bytes, lowest first, are the first four of `bytes`.
pub open spec fn le_value(bytes: Seq<u8>) -> int
    recommends
        bytes.len() >= 4,
{
    bytes[0] + bytes[1] * 256 + bytes[2] * 65536 + bytes[3] * 16777216
}

/// Why a run of bytes is no message.
#[derive(Debug, Clone, Copy, PartialEq, Eq, Structural)]
pub enum DecodeError {
    /// Fewer than four bytes came.
    Truncated,
    /// The bytes hold this number, which no variant has.
    UnknownVariant(u32),
}

/// The message that a run of bytes stands for.
pub open spec fn decoding(bytes: Seq<u8>) -> Result<Message, DecodeError> {
    if bytes.len() < 4 {
        Err(DecodeError::Truncated)
    } else {
        Message::of_index(le_value(bytes) as u32)
    }
}

impl Message {
    /// The number of the variant on the wire.
    pub open spec fn index(self) -> u32 {
        match self {
            Message::Start => 0,
            Message::Stop => 1,
        }
    }

    /// The variant with the number `index`.
    pub open spec fn of_index(index: u32) -> Result<Message, DecodeError> {
        if index == 0 {
            Ok(Message::Start)
        } else if index == 1 {
            Ok(Message::Stop)
        } else {
            Err(DecodeError::UnknownVariant(index))
        }
    }

    /// The bytes that carry the message.
    pub open spec fn encoding(self) -> Seq<u8> {
        le_bytes(self.index())
    }

    pub fn variant_index(self) -> (index: u32)
        ensures
            index == self.index(),
    {
        match self {
            Message::Start => 0,
            Message::Stop => 1,
        }
    }

    pub fn from_variant_index(index: u32) -> (msg: Result<Message, DecodeError>)
        ensures
            msg == Message::of_index(index),
    {
        if index == 0 {
            Ok(Message::Start)
        } else if index == 1 {
            Ok(Message::Stop)
        } else {
            Err(DecodeError::UnknownVariant(index))
        }
    }

    /// The bytes to send for this message.
    pub fn encode(self) -> (bytes: Vec<u8>)
        ensures
            bytes@ == self.encoding(),
            bytes@.len() == 4,
            decoding(bytes@) == Ok::<Message, DecodeError>(self),
    {
        proof {
            lemma_round_trip(self, Seq::empty());
            assert(self.encoding() + Seq::<u8>::empty() =~= self.encoding());
        }
        serialize_index(self.variant_index()).unwrap()
    }

    /// The message that `bytes` carry, or why they carry none.
    pub fn decode(bytes: &[u8]) -> (msg: Result<Message, DecodeError>)
        ensures
            msg == decoding(bytes@),
            msg is Err <==> bytes@.len() < 4 || le_value(bytes@) > 1,
    {
        match deserialize_index(bytes) {
            Some(index) => Message::from_variant_index(index),
            None => Err(DecodeError::Truncated),
        }
    }
}

/// Four bytes, lowest first, and the number they hold determine each other.
pub proof fn lemma_le_round_trip(v: u32, bytes: Seq<u8>)
    ensures
        le_bytes(v).len() == 4,
        le_value(le_bytes(v)) == v,
        bytes.len() >= 4 ==> 0 <= le_value(bytes) <= u32::MAX && le_bytes(le_value(bytes) as u32)
            =~= bytes.take(4),
{
    assert(v == (v % 256) + (v / 256 % 256) * 256 + (v / 65536 % 256) * 65536 + (v / 16777216)
        * 16777216 && v / 16777216 < 256) by (bit_vector);
    if bytes.len() >= 4 {
        let b0: u32 = bytes[0] as u32;
        let b1: u32 = bytes[1] as u32;
        let b2: u32 = bytes[2] as u32;
        let b3: u32 = bytes[3] as u32;
        let x: u32 = (b0 + b1 * 256 + b2 * 65536 + b3 * 16777216) as u32;
        assert(x == le_value(bytes));
        assert(b0 < 256 && b1 < 256 && b2 < 256 && b3 < 256 && x == b0 + b1 * 256 + b2 * 65536
            + b3 * 16777216 ==> x % 256 == b0 && x / 256 % 256 == b1 && x / 65536 % 256 == b2
            && x / 16777216 == b3) by (bit_vector);
    }
}

/// Decoding what was encoded gives the message back, whatever bytes follow
/// it; the two messages differ on the wire.
pub proof fn lemma_round_trip(msg: Message, tail: Seq<u8>)
    ensures
        decoding(msg.encoding()) == Ok::<Message, DecodeError>(msg),
        decoding(msg.encoding() + tail) == Ok::<Message, DecodeError>(msg),
        Message::Start.encoding() =~= seq![0u8, 0u8, 0u8, 0u8],
        Message::Stop.encoding() =~= seq![1u8, 0u8, 0u8, 0u8],
{
    let wire = msg.encoding() + tail;
    assert(wire[0] == msg.encoding()[0]);
    assert(wire[1] == msg.encoding()[1]);
    assert(wire[2] == msg.encoding()[2]);
    assert(wire[3] == msg.encoding()[3]);
}

/// `bincode::serialize`, on a `u32`. With the options that this function
/// fixes, an integer is written at its full width, lowest byte first, into
/// a vector that grows as needed, so the call returns the four bytes and
/// cannot fail.
#[verifier::external_body]
fn serialize_index(index: u32) -> (bytes: Option<Vec<u8>>)
    ensures
        bytes is Some,
        bytes.unwrap()@ == le_bytes(index),
{
    bincode::serialize(&index).ok()
}

/// `bincode::deserialize`, to a `u32`. With the options that this function
/// fixes, it reads four bytes, lowest first, and lets further bytes be; it
/// fails where the slice holds fewer than four.
#[verifier::external_body]
fn deserialize_index(bytes: &[u8]) -> (index: Option<u32>)
    ensures
        index == if bytes@.len() >= 4 {
            Some(le_value(bytes@) as u32)
        } else {
            None
        },
{
    bincode::deserialize::<u32>(bytes).ok()
}

} // verus!
