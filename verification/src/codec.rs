//! Fixed-size binary frame codec.
//!
//! One telemetry frame is a fixed-layout little-endian record: the capture
//! timestamp followed by three orientation fields and three position fields.
//! There is no tag, no length prefix and no checksum; both ends of a link
//! must be built against the same layout. The orientation and position
//! fields travel as raw 32-bit patterns, so a frame survives the trip
//! bit for bit; the process at either end interprets those patterns as its
//! floating-point values.

use vstd::bytes::lemma_auto_spec_u32_to_from_le_bytes;
use vstd::bytes::lemma_auto_spec_u64_to_from_le_bytes;
use vstd::bytes::spec_u32_from_le_bytes;
use vstd::bytes::spec_u32_to_le_bytes;
use vstd::bytes::spec_u64_from_le_bytes;
use vstd::bytes::spec_u64_to_le_bytes;
use vstd::bytes::u32_from_le_bytes;
use vstd::bytes::u32_to_le_bytes;
use vstd::bytes::u64_from_le_bytes;
use vstd::bytes::u64_to_le_bytes;
use vstd::prelude::*;
use vstd::slice::slice_subrange;

verus! {

/// Number of bytes in one encoded frame: 8 for the timestamp and 4 for each
/// of the six 32-bit fields. Constant for the lifetime of a connection: a
/// reader that has consumed N complete frames has consumed exactly
/// N * FRAME_SIZE bytes.
pub const FRAME_SIZE: usize = 32;

/// One telemetry record: capture time, orientation and position.
///
/// The orientation fields hold the bit patterns of the producer's radian
/// values, and the position fields the bit patterns of its offset-corrected
/// coordinates; keeping them as raw patterns makes encoding and decoding
/// exact, with no rounding anywhere in the pipeline.
#[derive(Clone, Copy, Debug, PartialEq, Eq, Structural)]
pub struct TelemetryV1 {
    /// Producer-side capture time in milliseconds, monotone non-decreasing
    /// within one producer session.
    pub timestamp_ms: u64,
    /// Orientation around the lateral axis, as a raw 32-bit pattern.
    pub pitch_bits: u32,
    /// Facing direction, as a raw 32-bit pattern.
    pub yaw_bits: u32,
    /// Orientation around the forward axis, as a raw 32-bit pattern.
    pub roll_bits: u32,
    /// Horizontal position, as a raw 32-bit pattern.
    pub x_bits: u32,
    /// Vertical position, as a raw 32-bit pattern.
    pub y_bits: u32,
    /// Depth position, as a raw 32-bit pattern.
    pub z_bits: u32,
}

/// The wire image of a frame: each field in declaration order,
/// little-endian, with no padding between fields.
pub open spec fn spec_encode(frame: TelemetryV1) -> Seq<u8> {
    spec_u64_to_le_bytes(frame.timestamp_ms) + spec_u32_to_le_bytes(frame.pitch_bits)
        + spec_u32_to_le_bytes(frame.yaw_bits) + spec_u32_to_le_bytes(frame.roll_bits)
        + spec_u32_to_le_bytes(frame.x_bits) + spec_u32_to_le_bytes(frame.y_bits)
        + spec_u32_to_le_bytes(frame.z_bits)
}

/// The frame a correctly-sized wire image denotes.
pub open spec fn spec_decode(bytes: Seq<u8>) -> TelemetryV1
    recommends
        bytes.len() == FRAME_SIZE,
{
    TelemetryV1 {
        timestamp_ms: spec_u64_from_le_bytes(bytes.subrange(0, 8)),
        pitch_bits: spec_u32_from_le_bytes(bytes.subrange(8, 12)),
        yaw_bits: spec_u32_from_le_bytes(bytes.subrange(12, 16)),
        roll_bits: spec_u32_from_le_bytes(bytes.subrange(16, 20)),
        x_bits: spec_u32_from_le_bytes(bytes.subrange(20, 24)),
        y_bits: spec_u32_from_le_bytes(bytes.subrange(24, 28)),
        z_bits: spec_u32_from_le_bytes(bytes.subrange(28, 32)),
    }
}

/// Every frame encodes to exactly `FRAME_SIZE` bytes.
pub proof fn lemma_encode_len(frame: TelemetryV1)
    ensures
        spec_encode(frame).len() == FRAME_SIZE,
{
    lemma_auto_spec_u64_to_from_le_bytes();
    lemma_auto_spec_u32_to_from_le_bytes();
}

/// Round trip: decoding the encoding of any frame gives the frame back,
/// exactly, field for field and bit for bit.
pub proof fn lemma_round_trip(frame: TelemetryV1)
    ensures
        spec_decode(spec_encode(frame)) == frame,
{
    lemma_auto_spec_u64_to_from_le_bytes();
    lemma_auto_spec_u32_to_from_le_bytes();
    let bytes = spec_encode(frame);
    assert(bytes.subrange(0, 8) =~= spec_u64_to_le_bytes(frame.timestamp_ms));
    assert(bytes.subrange(8, 12) =~= spec_u32_to_le_bytes(frame.pitch_bits));
    assert(bytes.subrange(12, 16) =~= spec_u32_to_le_bytes(frame.yaw_bits));
    assert(bytes.subrange(16, 20) =~= spec_u32_to_le_bytes(frame.roll_bits));
    assert(bytes.subrange(20, 24) =~= spec_u32_to_le_bytes(frame.x_bits));
    assert(bytes.subrange(24, 28) =~= spec_u32_to_le_bytes(frame.y_bits));
    assert(bytes.subrange(28, 32) =~= spec_u32_to_le_bytes(frame.z_bits));
}

impl TelemetryV1 {
    /// Encode this frame as its fixed-size wire image.
    pub fn encode(&self) -> (out: Vec<u8>)
        ensures
            out@ == spec_encode(*self),
            out@.len() == FRAME_SIZE,
    {
        let mut out = u64_to_le_bytes(self.timestamp_ms);
        let mut part = u32_to_le_bytes(self.pitch_bits);
        out.append(&mut part);
        let mut part = u32_to_le_bytes(self.yaw_bits);
        out.append(&mut part);
        let mut part = u32_to_le_bytes(self.roll_bits);
        out.append(&mut part);
        let mut part = u32_to_le_bytes(self.x_bits);
        out.append(&mut part);
        let mut part = u32_to_le_bytes(self.y_bits);
        out.append(&mut part);
        let mut part = u32_to_le_bytes(self.z_bits);
        out.append(&mut part);
        proof {
            assert(out@ =~= spec_encode(*self));
            lemma_encode_len(*self);
        }
        out
    }

    /// Decode a wire image. Exactly `FRAME_SIZE` bytes denote a frame;
    /// any other length is rejected rather than read out of bounds.
    pub fn decode(bytes: &[u8]) -> (frame: Option<TelemetryV1>)
        ensures
            bytes@.len() == FRAME_SIZE ==> frame == Some(spec_decode(bytes@)),
            bytes@.len() != FRAME_SIZE ==> frame is None,
    {
        if bytes.len() != FRAME_SIZE {
            return None;
        }
        let timestamp_ms = u64_from_le_bytes(slice_subrange(bytes, 0, 8));
        let pitch_bits = u32_from_le_bytes(slice_subrange(bytes, 8, 12));
        let yaw_bits = u32_from_le_bytes(slice_subrange(bytes, 12, 16));
        let roll_bits = u32_from_le_bytes(slice_subrange(bytes, 16, 20));
        let x_bits = u32_from_le_bytes(slice_subrange(bytes, 20, 24));
        let y_bits = u32_from_le_bytes(slice_subrange(bytes, 24, 28));
        let z_bits = u32_from_le_bytes(slice_subrange(bytes, 28, 32));
        Some(TelemetryV1 { timestamp_ms, pitch_bits, yaw_bits, roll_bits, x_bits, y_bits, z_bits })
    }
}

} // verus!
