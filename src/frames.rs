use vstd::prelude::*;
use std::collections::VecDeque;

verus! {

/// Bytes in one channel sample: 32-bit IEEE float.
pub const BYTES_PER_SAMPLE: usize = 4;

/// The 32-bit word whose little-endian encoding is `b0 b1 b2 b3`.
pub open spec fn le_word(b0: u8, b1: u8, b2: u8, b3: u8) -> u32 {
    (b0 as int + 256 * (b1 as int) + 65536 * (b2 as int) + 16777216 * (b3 as int)) as u32
}

/// Size in bytes of one interleaved frame of `channels` channels.
pub open spec fn frame_size(channels: nat) -> nat {
    4 * channels
}

/// The little-endian word starting at byte `k`.
pub open spec fn word_at(bytes: Seq<u8>, k: int) -> u32 {
    le_word(bytes[k], bytes[k + 1], bytes[k + 2], bytes[k + 3])
}

/// Number of complete frames in `len` bytes.
pub open spec fn whole_frames(len: nat, channels: nat) -> nat {
    len / frame_size(channels)
}

/// The mono stream of `bytes`: the first channel's word of each complete frame.
pub open spec fn mono_words(bytes: Seq<u8>, channels: nat) -> Seq<u32> {
    Seq::new(
        whole_frames(bytes.len(), channels),
        |i: int| word_at(bytes, i * frame_size(channels)),
    )
}

/// When the bytes are whole frames, the mono stream has one sample per frame,
/// and each is the little-endian word of that frame's first four bytes.
pub proof fn lemma_whole_frames(bytes: Seq<u8>, channels: nat)
    requires
        channels >= 1,
        bytes.len() % frame_size(channels) == 0,
    ensures
        mono_words(bytes, channels).len() * frame_size(channels) == bytes.len(),
        forall|i: int|
            0 <= i < mono_words(bytes, channels).len() ==> #[trigger] mono_words(bytes, channels)[i]
                == le_word(
                bytes[i * frame_size(channels)],
                bytes[i * frame_size(channels) + 1],
                bytes[i * frame_size(channels) + 2],
                bytes[i * frame_size(channels) + 3],
            ),
{
    let fs = frame_size(channels) as int;
    let n = mono_words(bytes, channels).len() as int;
    assert(n * fs == bytes.len()) by (nonlinear_arith)
        requires
            fs > 0,
            n == bytes.len() as int / fs,
            bytes.len() as int % fs == 0,
    ;
}

/// Only complete frames are converted: the samples cover a whole number of
/// frames, and what is left over is shorter than one frame.
pub proof fn lemma_partial_frame_left(bytes: Seq<u8>, channels: nat)
    requires
        channels >= 1,
    ensures
        mono_words(bytes, channels).len() * frame_size(channels) <= bytes.len(),
        bytes.len() - mono_words(bytes, channels).len() * frame_size(channels) < frame_size(
            channels,
        ),
{
    let fs = frame_size(channels) as int;
    let n = mono_words(bytes, channels).len() as int;
    assert(n * fs <= bytes.len() && bytes.len() - n * fs < fs) by (nonlinear_arith)
        requires
            fs > 0,
            n == bytes.len() as int / fs,
    ;
}

/// Reads a 32-bit word stored little-endian.
pub fn word_from_le(b0: u8, b1: u8, b2: u8, b3: u8) -> (w: u32)
    ensures
        w == le_word(b0, b1, b2, b3),
{
    b0 as u32 + (b1 as u32) * 256 + (b2 as u32) * 65536 + (b3 as u32) * 16777216
}

/// Takes every complete frame off the front of `queue` and returns the first
/// channel's sample word of each; an incomplete trailing frame stays queued.
pub fn convert_frames(queue: &mut VecDeque<u8>, channels: usize) -> (samples: Vec<u32>)
    requires
        channels >= 1,
        4 * channels <= usize::MAX,
    ensures
        samples@ == mono_words(old(queue)@, channels as nat),
        final(queue)@ == old(queue)@.skip((samples@.len() * frame_size(channels as nat)) as int),
        final(queue)@.len() < frame_size(channels as nat),
{
    let block: usize = BYTES_PER_SAMPLE * channels;
    let ghost orig = queue@;
    let ghost fs = frame_size(channels as nat) as int;
    let ghost mut pos: int = 0;
    let mut samples: Vec<u32> = Vec::new();
    proof {
        assert(0 * fs == 0) by (nonlinear_arith);
    }
    while queue.len() >= block
        invariant
            block == fs,
            fs >= 4,
            0 <= pos <= orig.len(),
            pos == samples@.len() * fs,
            queue@ == orig.skip(pos),
            forall|j: int| 0 <= j < samples@.len() ==> #[trigger] samples@[j] == word_at(orig, j * fs),
        decreases queue@.len(),
    {
        proof {
            assert((samples@.len() as int) * fs == pos);
        }
        let b0 = queue.pop_front().unwrap();
        let b1 = queue.pop_front().unwrap();
        let b2 = queue.pop_front().unwrap();
        let b3 = queue.pop_front().unwrap();
        assert(b0 == orig[pos] && b1 == orig[pos + 1] && b2 == orig[pos + 2] && b3 == orig[pos + 3]);
        assert(queue@ =~= orig.skip(pos + 4));
        let w = word_from_le(b0, b1, b2, b3);
        samples.push(w);
        let mut rest: usize = block - BYTES_PER_SAMPLE;
        while rest > 0
            invariant
                rest <= block - 4,
                queue@ == orig.skip(pos + block - rest),
                0 <= pos,
                pos + block <= orig.len(),
            decreases rest,
        {
            queue.pop_front();
            assert(queue@ =~= orig.skip(pos + block - (rest - 1)));
            rest = rest - 1;
        }
        proof {
            assert((samples@.len() as int) * fs == pos + fs) by (nonlinear_arith)
                requires
                    samples@.len() as int == (samples@.len() - 1) + 1,
                    ((samples@.len() - 1) as int) * fs == pos,
            ;
            pos = pos + fs;
        }
    }
    proof {
        let k = samples@.len() as int;
        assert(orig.len() - pos < fs);
        assert(k == orig.len() as int / fs) by (nonlinear_arith)
            requires
                pos == k * fs,
                0 <= pos <= orig.len(),
                orig.len() - pos < fs,
                fs > 0,
        ;
        assert(samples@ =~= mono_words(orig, channels as nat));
    }
    samples
}

} // verus!
