//! Telemetry frames: an orientation quaternion serialised as four
//! little-endian 32-bit words, byte-stuffed, and closed by a zero byte.

use crate::framing::{lemma_stuffed_has_no_zero, lemma_unstuffed_inverts_stuffed, stuffed, unstuffed};
use byteorder::{ByteOrder, LE};
use vstd::prelude::*;

verus! {

/// Bytes of a serialised quaternion.
pub const PAYLOAD_LEN: usize = 16;

/// Bytes of a frame: the stuffed payload, which is one byte longer than the
/// payload, and the delimiter.
pub const FRAME_LEN: usize = 18;

/// An orientation quaternion as it travels: each component is the IEEE 754
/// binary32 bit pattern of the filter's value, so that a frame carries the
/// estimate bit for bit.
#[derive(Clone, Copy, Debug, PartialEq, Eq, Structural)]
pub struct QuaternionBits {
    pub w: u32,
    pub x: u32,
    pub y: u32,
    pub z: u32,
}

/// The four bytes of a 32-bit word, least significant first.
pub open spec fn le_bytes(word: u32) -> Seq<u8> {
    seq![
        (word % 256) as u8,
        ((word / 256) % 256) as u8,
        ((word / 65536) % 256) as u8,
        (word / 16777216) as u8,
    ]
}

/// The word whose little-endian bytes are the four bytes of `bytes` from
/// index `at` on.
pub open spec fn le_word(bytes: Seq<u8>, at: int) -> int {
    bytes[at] + 256 * bytes[at + 1] + 65536 * bytes[at + 2] + 16777216 * bytes[at + 3]
}

/// The serialised quaternion: w, x, y, z in that order, each little-endian.
pub open spec fn payload_bytes(q: QuaternionBits) -> Seq<u8> {
    le_bytes(q.w) + le_bytes(q.x) + le_bytes(q.y) + le_bytes(q.z)
}

/// The frame of a quaternion: its stuffed payload and the zero delimiter.
pub open spec fn frame_bytes(q: QuaternionBits) -> Seq<u8> {
    stuffed(payload_bytes(q)).push(0)
}

/// The quaternion that a 16-byte payload holds.
pub open spec fn payload_quaternion(payload: Seq<u8>) -> QuaternionBits {
    QuaternionBits {
        w: le_word(payload, 0) as u32,
        x: le_word(payload, 4) as u32,
        y: le_word(payload, 8) as u32,
        z: le_word(payload, 12) as u32,
    }
}

/// The quaternion that a receiver reads out of a frame: it drops the
/// delimiter, unstuffs the rest and reads the four words.
pub open spec fn frame_quaternion(frame: Seq<u8>) -> QuaternionBits {
    payload_quaternion(unstuffed(frame.drop_last()))
}

/// Reading the little-endian bytes of a word gives the word back.
pub proof fn lemma_le_word_of_le_bytes(word: u32)
    ensures
        le_bytes(word).len() == 4,
        le_word(le_bytes(word), 0) == word,
{
}

/// A payload is 16 bytes and holds the quaternion it was made from.
pub proof fn lemma_payload_round_trip(q: QuaternionBits)
    ensures
        payload_bytes(q).len() == PAYLOAD_LEN,
        payload_quaternion(payload_bytes(q)) == q,
{
    lemma_le_word_of_le_bytes(q.w);
    lemma_le_word_of_le_bytes(q.x);
    lemma_le_word_of_le_bytes(q.y);
    lemma_le_word_of_le_bytes(q.z);
    let payload = payload_bytes(q);
    assert(le_word(payload, 0) == le_word(le_bytes(q.w), 0));
    assert(le_word(payload, 4) == le_word(le_bytes(q.x), 0));
    assert(le_word(payload, 8) == le_word(le_bytes(q.y), 0));
    assert(le_word(payload, 12) == le_word(le_bytes(q.z), 0));
}

/// A frame is 18 bytes, and its only zero byte is the last: a receiver finds
/// the end of a frame at the first zero, wherever in the stream it starts.
pub proof fn lemma_frame_is_delimited(q: QuaternionBits)
    ensures
        frame_bytes(q).len() == FRAME_LEN,
        frame_bytes(q)[FRAME_LEN - 1] == 0,
        forall|at: int| 0 <= at < FRAME_LEN - 1 ==> frame_bytes(q)[at] != 0,
{
    lemma_payload_round_trip(q);
    lemma_stuffed_has_no_zero(payload_bytes(q));
    assert forall|at: int| 0 <= at < FRAME_LEN - 1 implies frame_bytes(q)[at] != 0 by {
        assert(frame_bytes(q)[at] == stuffed(payload_bytes(q))[at]);
    }
}

/// Decoding the frame of a quaternion recovers the quaternion exactly.
pub proof fn lemma_frame_round_trip(q: QuaternionBits)
    ensures
        frame_quaternion(frame_bytes(q)) == q,
{
    lemma_payload_round_trip(q);
    let payload = payload_bytes(q);
    lemma_unstuffed_inverts_stuffed(payload);
    assert(frame_bytes(q).drop_last() =~= stuffed(payload));
}

/// `byteorder::LittleEndian::write_u32` on a buffer of exactly four bytes:
/// afterwards the buffer holds `word`, least significant byte first.
#[verifier::external_body]
fn write_u32_le(buf: &mut [u8; 4], word: u32)
    ensures
        final(buf)@ == le_bytes(word),
{
    LE::write_u32(buf, word)
}

/// `cobs::encode` with the zero sentinel, on a 16-byte source and an 18-byte
/// destination: it writes the stuffed form of the source, 17 bytes, to the
/// front of the destination, leaves the last byte as it was, and returns the
/// number of bytes written.
#[verifier::external_body]
fn cobs_encode(source: &[u8; PAYLOAD_LEN], dest: &mut [u8; FRAME_LEN]) -> (written: usize)
    ensures
        written == PAYLOAD_LEN + 1,
        final(dest)@ == stuffed(source@).push(old(dest)@[FRAME_LEN - 1]),
{
    cobs::encode(source, dest)
}

/// Stores `word` little-endian in the four bytes of `payload` from `start`.
fn put_word(payload: &mut [u8; PAYLOAD_LEN], start: usize, word: u32)
    requires
        start + 4 <= PAYLOAD_LEN,
    ensures
        final(payload)@ == old(payload)@.subrange(0, start as int) + le_bytes(word) + old(
            payload,
        )@.subrange(start + 4, PAYLOAD_LEN as int),
{
    let mut bytes = [0u8; 4];
    write_u32_le(&mut bytes, word);
    payload[start] = bytes[0];
    payload[start + 1] = bytes[1];
    payload[start + 2] = bytes[2];
    payload[start + 3] = bytes[3];
    assert(payload@ =~= old(payload)@.subrange(0, start as int) + le_bytes(word) + old(
        payload,
    )@.subrange(start + 4, PAYLOAD_LEN as int));
}

/// Serialises a quaternion: w, x, y, z, each as four little-endian bytes.
pub fn serialize(q: &QuaternionBits) -> (payload: [u8; PAYLOAD_LEN])
    ensures
        payload@ == payload_bytes(*q),
{
    let mut payload = [0u8; PAYLOAD_LEN];
    put_word(&mut payload, 0, q.w);
    put_word(&mut payload, 4, q.x);
    put_word(&mut payload, 8, q.y);
    put_word(&mut payload, 12, q.z);
    assert(payload@ =~= payload_bytes(*q));
    payload
}

/// Builds the telemetry frame of a quaternion: the stuffed serialisation
/// followed by the zero delimiter.
pub fn encode(q: &QuaternionBits) -> (frame: [u8; FRAME_LEN])
    ensures
        frame@ == frame_bytes(*q),
{
    let payload = serialize(q);
    let mut frame = [0u8; FRAME_LEN];
    let _written: usize = cobs_encode(&payload, &mut frame);
    frame
}

} // verus!
