//! The frames sent to Blender: `[Header(4)] [Counter(8)] [Length(4)] [Data(N)]`,
//! header "PCLD", counter and length little-endian.

use crate::bridge_core::buffer::counter_after_one;
use crate::bridge_core::monitor::Monitor;
use crate::clock::instant_elapsed;
use crate::wire::{
    le_bytes_u32, le_bytes_u64, lemma_u32_le_roundtrip, lemma_u64_le_roundtrip, push_le_u32, push_le_u64,
    u32_from_le, u64_from_le,
};
use std::time::Instant;
use vstd::prelude::*;

verus! {

/// The four bytes that open every point-cloud frame ("PCLD").
pub const POINT_CLOUD_HEADER: [u8; 4] = [0x50, 0x43, 0x4C, 0x44];

/// The header as a sequence.
pub open spec fn point_cloud_header() -> Seq<u8> {
    seq![0x50u8, 0x43u8, 0x4Cu8, 0x44u8]
}

/// The frame that carries `data` as frame number `counter`. The length field
/// holds the length of `data` truncated to 32 bits.
pub open spec fn point_cloud_frame(counter: u64, data: Seq<u8>) -> Seq<u8> {
    point_cloud_header() + le_bytes_u64(counter) + le_bytes_u32(data.len() as u32) + data
}

/// The fields of a frame read back: the header, the frame number, the length of
/// the data truncated to 32 bits, and the data, sixteen bytes of header in all.
pub proof fn law_frame_fields(counter: u64, data: Seq<u8>)
    ensures
        point_cloud_frame(counter, data).len() == 16 + data.len(),
        point_cloud_frame(counter, data).subrange(0, 4) == point_cloud_header(),
        u64_from_le(point_cloud_frame(counter, data).subrange(4, 12)) == counter,
        u32_from_le(
            point_cloud_frame(counter, data)[12],
            point_cloud_frame(counter, data)[13],
            point_cloud_frame(counter, data)[14],
            point_cloud_frame(counter, data)[15],
        ) == data.len() as u32,
        point_cloud_frame(counter, data).subrange(16, 16 + data.len() as int) == data,
{
    let f = point_cloud_frame(counter, data);
    let len32 = data.len() as u32;
    assert(f.subrange(0, 4) =~= point_cloud_header());
    assert(f.subrange(4, 12) =~= le_bytes_u64(counter));
    lemma_u64_le_roundtrip(counter);
    assert(f[12] == le_bytes_u32(len32)[0] && f[13] == le_bytes_u32(len32)[1] && f[14] == le_bytes_u32(
        len32,
    )[2] && f[15] == le_bytes_u32(len32)[3]);
    lemma_u32_le_roundtrip(len32);
    assert(f.subrange(16, 16 + data.len() as int) =~= data);
}

/// The number of successful sends among `outcomes`, where `outcomes[i]` says
/// whether the `i`-th send succeeded.
pub open spec fn successful_sends(outcomes: Seq<bool>) -> nat {
    outcomes.filter(|ok: bool| ok).len()
}

/// The frame number of a new session after sends with these outcomes, each
/// success recorded by `record_sent` and each failure by `record_send_failure`.
pub open spec fn count_after_sends(outcomes: Seq<bool>) -> nat
    decreases outcomes.len(),
{
    if outcomes.len() == 0 {
        0
    } else if outcomes.last() {
        count_after_sends(outcomes.drop_last()) + 1
    } else {
        count_after_sends(outcomes.drop_last())
    }
}

/// The frames that reach Blender when a new session sends `payloads[i]` with
/// outcome `outcomes[i]`, each framed by `build_frame` under the frame number of
/// the session at that moment.
pub open spec fn frames_delivered(outcomes: Seq<bool>, payloads: Seq<Seq<u8>>) -> Seq<Seq<u8>>
    decreases outcomes.len(),
{
    if outcomes.len() == 0 || payloads.len() == 0 {
        Seq::empty()
    } else {
        let earlier = frames_delivered(outcomes.drop_last(), payloads.drop_last());
        if outcomes.last() {
            earlier.push(point_cloud_frame(count_after_sends(outcomes.drop_last()) as u64, payloads.last()))
        } else {
            earlier
        }
    }
}

proof fn lemma_successful_sends_step(outcomes: Seq<bool>)
    requires
        outcomes.len() > 0,
    ensures
        successful_sends(outcomes) == successful_sends(outcomes.drop_last()) + if outcomes.last() {
            1nat
        } else {
            0nat
        },
{
    reveal(Seq::filter);
}

/// A session's frame count is the number of successful sends: each success adds
/// one, each failure none.
pub proof fn law_frame_count_is_successful_sends(outcomes: Seq<bool>)
    ensures
        count_after_sends(outcomes) == successful_sends(outcomes),
    decreases outcomes.len(),
{
    if outcomes.len() == 0 {
        reveal(Seq::filter);
    } else {
        law_frame_count_is_successful_sends(outcomes.drop_last());
        lemma_successful_sends_step(outcomes);
    }
}

/// The frames that reach Blender are numbered 0, 1, 2, ... with no gap: the
/// `k`-th delivered frame carries frame number `k`, a failed send using no number.
pub proof fn law_frame_numbers_consecutive(outcomes: Seq<bool>, payloads: Seq<Seq<u8>>)
    requires
        payloads.len() == outcomes.len(),
        successful_sends(outcomes) <= u64::MAX,
    ensures
        frames_delivered(outcomes, payloads).len() == successful_sends(outcomes),
        forall|k: int|
            0 <= k < frames_delivered(outcomes, payloads).len() ==> {
                &&& (#[trigger] frames_delivered(outcomes, payloads)[k]).subrange(0, 4) == point_cloud_header()
                &&& u64_from_le(frames_delivered(outcomes, payloads)[k].subrange(4, 12)) == k
            },
    decreases outcomes.len(),
{
    if outcomes.len() == 0 {
        reveal(Seq::filter);
    } else {
        let prev_out = outcomes.drop_last();
        let prev_pay = payloads.drop_last();
        lemma_successful_sends_step(outcomes);
        law_frame_numbers_consecutive(prev_out, prev_pay);
        law_frame_count_is_successful_sends(prev_out);
        let fs = frames_delivered(outcomes, payloads);
        let earlier = frames_delivered(prev_out, prev_pay);
        if outcomes.last() {
            let n = count_after_sends(prev_out);
            law_frame_fields(n as u64, payloads.last());
            assert(fs[earlier.len() as int] == point_cloud_frame(n as u64, payloads.last()));
            assert forall|k: int| 0 <= k < fs.len() implies {
                &&& (#[trigger] fs[k]).subrange(0, 4) == point_cloud_header()
                &&& u64_from_le(fs[k].subrange(4, 12)) == k
            } by {
                if k < earlier.len() {
                    assert(fs[k] == earlier[k]);
                }
            }
        }
    }
}

/// The sending side of the link to Blender: the number of the next frame.
pub struct BlenderSession {
    frame_counter: u64,
}

impl BlenderSession {
    /// The number of frames sent so far, which numbers the next frame.
    pub closed spec fn count(&self) -> u64 {
        self.frame_counter
    }

    /// A session that has sent no frame.
    pub fn new() -> (r: Self)
        ensures
            r.count() == 0,
    {
        BlenderSession { frame_counter: 0 }
    }

    /// The number of frames sent so far.
    pub fn get_frame_count(&self) -> (r: u64)
        ensures
            r == self.count(),
    {
        self.frame_counter
    }

    /// The frame that carries `data` under the current frame number.
    pub fn build_frame(&self, data: &[u8]) -> (r: Vec<u8>)
        ensures
            r@ == point_cloud_frame(self.count(), data@),
    {
        let mut frame: Vec<u8> = Vec::new();
        frame.push(0x50);
        frame.push(0x43);
        frame.push(0x4C);
        frame.push(0x44);
        assert(frame@ =~= point_cloud_header());
        push_le_u64(&mut frame, self.frame_counter);
        push_le_u32(&mut frame, data.len() as u32);
        let ghost prefix = frame@;
        let mut i: usize = 0;
        while i < data.len()
            invariant
                i <= data@.len(),
                frame@ == prefix + data@.subrange(0, i as int),
            decreases data@.len() - i,
        {
            frame.push(data[i]);
            i = i + 1;
            assert(frame@ =~= prefix + data@.subrange(0, i as int));
        }
        assert(data@.subrange(0, data@.len() as int) =~= data@);
        frame
    }

    /// Records a frame that was sent: `monitor` counts it with the time elapsed
    /// since `start`, and the frame number advances.
    pub fn record_sent(&mut self, monitor: &mut Monitor, start: Instant)
        requires
            old(self).count() < u64::MAX,
        ensures
            final(self).count() == old(self).count() + 1,
            final(monitor).frames() == counter_after_one(old(monitor).frames()),
            final(monitor).drops() == old(monitor).drops(),
            final(monitor).started_at() == old(monitor).started_at(),
    {
        let latency = instant_elapsed(&start);
        monitor.record_frame(latency);
        self.frame_counter = self.frame_counter + 1;
    }

    /// Records a frame that could not be sent: `monitor` counts a drop and the
    /// frame number stays.
    pub fn record_send_failure(&self, monitor: &mut Monitor)
        ensures
            final(monitor).drops() == counter_after_one(old(monitor).drops()),
            final(monitor).frames() == old(monitor).frames(),
            final(monitor).latency_us() == old(monitor).latency_us(),
            final(monitor).started_at() == old(monitor).started_at(),
    {
        monitor.record_drop();
    }
}

} // verus!
