//! Relay: accumulate an upstream byte stream into complete frames and
//! republish each one downstream.
//!
//! TCP delivers a byte stream, not records, so a frame may arrive split
//! across several reads. The accumulator keeps the bytes of an incomplete
//! frame and yields a frame exactly when `FRAME_SIZE` bytes of it have
//! arrived; two frames are never length-ambiguous. When the upstream peer
//! disconnects, the partial bytes of the broken frame are discarded and the
//! relay returns to accepting, while the downstream channel keeps its own
//! life cycle: a disconnected or backpressured consumer costs frames, never
//! a stall of the upstream loop.

use crate::channel::TelemetrySocket;
use crate::channel::cleared_view;
use crate::codec::FRAME_SIZE;
use crate::codec::TelemetryV1;
use crate::codec::spec_decode;
use crate::codec::spec_encode;
use crate::codec::lemma_encode_len;
use crate::codec::lemma_round_trip;
use vstd::prelude::*;
use vstd::slice::slice_to_vec;
use vstd::slice::slice_subrange;

verus! {

/// The complete frames contained in a byte stream: its consecutive
/// `FRAME_SIZE`-byte chunks, in order, leftover bytes excluded.
pub open spec fn complete_frames(bytes: Seq<u8>) -> Seq<Seq<u8>>
    decreases bytes.len(),
{
    if bytes.len() < FRAME_SIZE {
        Seq::empty()
    } else {
        seq![bytes.take(FRAME_SIZE as int)] + complete_frames(bytes.skip(FRAME_SIZE as int))
    }
}

/// The bytes of the last, incomplete frame of a byte stream: what remains
/// after every complete `FRAME_SIZE`-byte chunk, always shorter than one
/// frame.
pub open spec fn pending_bytes(bytes: Seq<u8>) -> Seq<u8>
    decreases bytes.len(),
{
    if bytes.len() < FRAME_SIZE {
        bytes
    } else {
        pending_bytes(bytes.skip(FRAME_SIZE as int))
    }
}

/// Splitting a byte stream at any point and feeding the parts one after the
/// other yields the same complete frames and the same pending bytes as
/// feeding the stream whole: a frame delivered across several partial reads
/// is reassembled exactly.
pub proof fn lemma_accumulated_short_reads(first: Seq<u8>, second: Seq<u8>)
    ensures
        complete_frames(first + second) =~= complete_frames(first) + complete_frames(
            pending_bytes(first) + second,
        ),
        pending_bytes(first + second) == pending_bytes(pending_bytes(first) + second),
    decreases first.len(),
{
    if first.len() < FRAME_SIZE {
        assert(first + second =~= pending_bytes(first) + second);
    } else {
        assert((first + second).take(FRAME_SIZE as int) =~= first.take(FRAME_SIZE as int));
        assert((first + second).skip(FRAME_SIZE as int) =~= first.skip(FRAME_SIZE as int)
            + second);
        lemma_accumulated_short_reads(first.skip(FRAME_SIZE as int), second);
    }
}

/// The wire image of a sequence of frames sent back to back.
pub open spec fn encode_all(frames: Seq<TelemetryV1>) -> Seq<u8>
    decreases frames.len(),
{
    if frames.len() == 0 {
        Seq::empty()
    } else {
        spec_encode(frames[0]) + encode_all(frames.drop_first())
    }
}

/// Pass-through: the byte stream of N frames sent back to back splits into
/// exactly those N frames, byte-identical and in the same relative order,
/// with nothing left over; decoding each one gives the original frame back.
pub proof fn lemma_relay_pass_through(frames: Seq<TelemetryV1>)
    ensures
        complete_frames(encode_all(frames)).len() == frames.len(),
        forall|i: int|
            0 <= i < frames.len() ==> complete_frames(encode_all(frames))[i] == spec_encode(
                frames[i],
            ),
        forall|i: int|
            0 <= i < frames.len() ==> spec_decode(
                complete_frames(encode_all(frames))[i],
            ) == frames[i],
        pending_bytes(encode_all(frames)) =~= Seq::<u8>::empty(),
    decreases frames.len(),
{
    if frames.len() == 0 {
    } else {
        let head = frames[0];
        let rest = frames.drop_first();
        lemma_encode_len(head);
        lemma_relay_pass_through(rest);
        let stream = encode_all(frames);
        assert(stream.take(FRAME_SIZE as int) =~= spec_encode(head));
        assert(stream.skip(FRAME_SIZE as int) =~= encode_all(rest));
        assert(forall|i: int|
            0 <= i < frames.len() ==> complete_frames(stream)[i] == if i == 0 {
                spec_encode(head)
            } else {
                complete_frames(encode_all(rest))[i - 1]
            });
        assert(forall|i: int| 0 <= i < rest.len() ==> rest[i] == frames[i + 1]);
        assert forall|i: int| 0 <= i < frames.len() implies spec_decode(
            complete_frames(stream)[i],
        ) == frames[i] by {
            if i == 0 {
                lemma_round_trip(head);
            }
        }
    }
}

/// Reassembles the upstream byte stream into complete frames.
pub struct FrameAccumulator {
    /// Bytes of the frame currently in flight, fewer than `FRAME_SIZE`.
    pub buf: Vec<u8>,
}

impl View for FrameAccumulator {
    type V = Seq<u8>;

    open spec fn view(&self) -> Seq<u8> {
        self.buf@
    }
}

impl FrameAccumulator {
    /// The accumulator never holds a complete frame back: what it keeps is
    /// always shorter than one frame.
    pub open spec fn wf(&self) -> bool {
        self.buf@.len() < FRAME_SIZE
    }

    /// An empty accumulator, ready for a new upstream connection.
    pub fn new() -> (acc: Self)
        ensures
            acc.wf(),
            acc@ =~= Seq::<u8>::empty(),
    {
        FrameAccumulator { buf: Vec::new() }
    }

    /// Feed the bytes of one upstream read and take out every frame they
    /// complete: the frames are the consecutive `FRAME_SIZE`-byte chunks of
    /// the bytes held so far followed by the chunk, and the accumulator
    /// keeps exactly the leftover.
    pub fn push(&mut self, chunk: &[u8]) -> (frames: Vec<Vec<u8>>)
        requires
            old(self).wf(),
        ensures
            final(self).wf(),
            frames@.map_values(|frame: Vec<u8>| frame@) == complete_frames(old(self)@ + chunk@),
            final(self)@ == pending_bytes(old(self)@ + chunk@),
            forall|i: int| 0 <= i < frames@.len() ==> frames@[i]@.len() == FRAME_SIZE,
    {
        let ghost total = old(self)@ + chunk@;
        let mut all = slice_to_vec(chunk);
        let mut swap: Vec<u8> = Vec::new();
        std::mem::swap(&mut swap, &mut self.buf);
        swap.append(&mut all);
        let all = swap;
        assert(all@ == total);

        let mut frames: Vec<Vec<u8>> = Vec::new();
        let mut start: usize = 0;
        proof {
            assert(all@.skip(0) =~= all@);
            assert(frames@.map_values(|frame: Vec<u8>| frame@) + complete_frames(all@)
                =~= complete_frames(all@));
        }
        while start <= all.len() && all.len() - start >= FRAME_SIZE
            invariant
                start <= all@.len(),
                complete_frames(all@) =~= frames@.map_values(|frame: Vec<u8>| frame@)
                    + complete_frames(all@.skip(start as int)),
                pending_bytes(all@) == pending_bytes(all@.skip(start as int)),
                forall|i: int| 0 <= i < frames@.len() ==> frames@[i]@.len() == FRAME_SIZE,
            decreases all@.len() - start,
        {
            let ghost before = frames@;
            let one = slice_to_vec(slice_subrange(all.as_slice(), start, start + FRAME_SIZE));
            frames.push(one);
            proof {
                let rest = all@.skip(start as int);
                assert(rest.take(FRAME_SIZE as int) =~= all@.subrange(
                    start as int,
                    start as int + FRAME_SIZE,
                ));
                assert(rest.skip(FRAME_SIZE as int) =~= all@.skip(start as int + FRAME_SIZE));
                assert(frames@.map_values(|frame: Vec<u8>| frame@) =~= before.map_values(
                    |frame: Vec<u8>| frame@,
                ).push(rest.take(FRAME_SIZE as int)));
                assert(complete_frames(all@) =~= frames@.map_values(|frame: Vec<u8>| frame@)
                    + complete_frames(all@.skip(start as int + FRAME_SIZE)));
            }
            start = start + FRAME_SIZE;
        }
        self.buf = slice_to_vec(slice_subrange(all.as_slice(), start, all.len()));
        proof {
            assert(all@.skip(start as int) =~= all@.subrange(start as int, all@.len() as int));
            assert(complete_frames(all@.skip(start as int)) =~= Seq::<Seq<u8>>::empty());
            assert(frames@.map_values(|frame: Vec<u8>| frame@) + Seq::<Seq<u8>>::empty()
                =~= frames@.map_values(|frame: Vec<u8>| frame@));
        }
        frames
    }

    /// Drop the bytes of a frame broken by an upstream disconnect.
    pub fn reset(&mut self)
        ensures
            final(self).wf(),
            final(self)@ =~= Seq::<u8>::empty(),
    {
        self.buf = Vec::new();
    }
}

/// One relay session: the accumulator for the single upstream connection
/// being served, and the resilient channel toward the downstream consumer.
pub struct Relay {
    /// Reassembles the upstream byte stream.
    pub accumulator: FrameAccumulator,
    /// Best-effort channel toward the downstream consumer.
    pub downstream: TelemetrySocket,
}

impl Relay {
    /// The relay is well formed when its accumulator is.
    pub open spec fn wf(&self) -> bool {
        self.accumulator.wf()
    }

    /// A relay with no upstream bytes and no downstream connection.
    pub fn new() -> (relay: Self)
        ensures
            relay.wf(),
            relay.accumulator@ =~= Seq::<u8>::empty(),
            relay.downstream@ == cleared_view(),
    {
        Relay { accumulator: FrameAccumulator::new(), downstream: TelemetrySocket::new() }
    }

    /// Feed one upstream read and take out the frames it completed, to be
    /// forwarded verbatim on the downstream channel. The downstream state
    /// is untouched: a slow consumer never stalls the upstream loop.
    pub fn on_upstream_chunk(&mut self, chunk: &[u8]) -> (frames: Vec<Vec<u8>>)
        requires
            old(self).wf(),
        ensures
            final(self).wf(),
            frames@.map_values(|frame: Vec<u8>| frame@) == complete_frames(
                old(self).accumulator@ + chunk@,
            ),
            final(self).accumulator@ == pending_bytes(old(self).accumulator@ + chunk@),
            forall|i: int| 0 <= i < frames@.len() ==> frames@[i]@.len() == FRAME_SIZE,
            final(self).downstream == old(self).downstream,
    {
        self.accumulator.push(chunk)
    }

    /// The upstream peer closed or failed: discard the bytes of the broken
    /// frame and return to accepting. The downstream channel keeps its
    /// connection and its delivery record.
    pub fn on_upstream_closed(&mut self)
        ensures
            final(self).wf(),
            final(self).accumulator@ =~= Seq::<u8>::empty(),
            final(self).downstream == old(self).downstream,
    {
        self.accumulator.reset();
    }
}

} // verus!
