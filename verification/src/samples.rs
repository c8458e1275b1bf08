use vstd::prelude::*;

verus! {

/// Rate, in frames per second, at which the synthesizer renders audio.
pub const SAMPLE_RATE: u32 = 44100;

/// Number of frames rendered per callback: a twentieth of a second of audio.
pub const BATCH_LENGTH: usize = 44100 / 20;

/// The stream is stereo: each frame holds a left and a right sample.
pub const CHANNEL_COUNT: u32 = 2;

/// A scaled sample saturated to the signed 16-bit range.
pub open spec fn clamped(v: int) -> int {
    if v < i16::MIN as int {
        i16::MIN as int
    } else if v > i16::MAX as int {
        i16::MAX as int
    } else {
        v
    }
}

/// Saturating conversion of a scaled sample to a 16-bit audio sample.
pub fn clamp_to_i16(v: i32) -> (s: i16)
    ensures
        s as int == clamped(v as int),
{
    if v < i16::MIN as i32 {
        i16::MIN
    } else if v > i16::MAX as i32 {
        i16::MAX
    } else {
        v as i16
    }
}

/// Sample that position `k` of an interleaved stereo batch holds: the
/// clamped left sample of frame `k / 2` at even positions, the clamped
/// right sample of that frame at odd positions.
pub open spec fn interleaved_sample(left: Seq<i32>, right: Seq<i32>, k: int) -> int {
    if k % 2 == 0 {
        clamped(left[k / 2] as int)
    } else {
        clamped(right[k / 2] as int)
    }
}

/// An all-zero batch able to hold `frames` interleaved stereo frames.
pub fn stereo_batch(frames: usize) -> (batch: Vec<i16>)
    requires
        2 * frames <= usize::MAX,
    ensures
        batch@.len() == 2 * frames,
        forall|k: int| 0 <= k < batch@.len() ==> batch@[k] == 0i16,
{
    let mut batch: Vec<i16> = Vec::new();
    let n: usize = 2 * frames;
    let mut k: usize = 0;
    while k < n
        invariant
            k <= n,
            batch@.len() == k,
            forall|j: int| 0 <= j < k ==> batch@[j] == 0i16,
        decreases n - k,
    {
        batch.push(0i16);
        k = k + 1;
    }
    batch
}

/// Overwrite a batch with one rendered block: each scaled left/right sample
/// is saturated to the 16-bit range and the two channels are interleaved,
/// left sample first within each frame.
pub fn fill_interleaved(batch: &mut Vec<i16>, left: &Vec<i32>, right: &Vec<i32>)
    requires
        left@.len() == right@.len(),
        old(batch)@.len() == 2 * left@.len(),
    ensures
        final(batch)@.len() == 2 * left@.len(),
        forall|k: int| 0 <= k < final(batch)@.len() ==> #[trigger] final(batch)@[k] as int
            == interleaved_sample(left@, right@, k),
{
    let length = left.len();
    let total = batch.len();
    let mut t: usize = 0;
    while t < length
        invariant
            t <= length,
            total == 2 * length,
            length == left@.len(),
            length == right@.len(),
            batch@.len() == 2 * length,
            forall|k: int| 0 <= k < 2 * t ==> #[trigger] batch@[k] as int
                == interleaved_sample(left@, right@, k),
        decreases length - t,
    {
        let sample_left = clamp_to_i16(left[t]);
        let sample_right = clamp_to_i16(right[t]);
        let offset = 2 * t;
        batch.set(offset, sample_left);
        batch.set(offset + 1, sample_right);
        t = t + 1;
    }
}

} // verus!
