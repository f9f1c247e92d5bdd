use vstd::prelude::*;

verus! {

/// The console's native sample rate.
pub const SAMPLE_RATE: u64 = 32768;

/// About 20 ms of stereo samples (left and right interleaved), per channel.
pub const CHUNK_SAMPLES: usize = 1310;

/// The sample values in one chunk, both channels.
pub const CHUNK_VALUES: usize = CHUNK_SAMPLES * 2;

/// The fewest sample values the capture ring holds.
pub const MIN_RING_VALUES: u64 = 10480;

/// How many sample values the capture ring holds for `buffer_ms` of stereo sound,
/// and never fewer than four chunks.
pub open spec fn ring_values(buffer_ms: u64) -> int {
    let wanted = SAMPLE_RATE * buffer_ms / 1000 * 2;
    if wanted < MIN_RING_VALUES {
        MIN_RING_VALUES as int
    } else {
        wanted
    }
}

pub fn ring_capacity(buffer_ms: u64) -> (r: u128)
    ensures
        r == ring_values(buffer_ms),
{
    assert((SAMPLE_RATE as u128) * (buffer_ms as u128) <= 32768 * 0xFFFF_FFFF_FFFF_FFFF) by (nonlinear_arith)
        requires
            buffer_ms <= 0xFFFF_FFFF_FFFF_FFFFu64,
    ;
    let wanted: u128 = (SAMPLE_RATE as u128) * (buffer_ms as u128) / 1000 * 2;
    if wanted < MIN_RING_VALUES as u128 {
        MIN_RING_VALUES as u128
    } else {
        wanted
    }
}

/// The two little-endian bytes of a sample.
pub open spec fn sample_bytes(s: i16) -> Seq<u8> {
    seq![(s as u16 & 0xFF) as u8, ((s as u16 >> 8) & 0xFF) as u8]
}

/// Samples as little-endian bytes, two per sample, in order.
pub fn samples_to_le_bytes(samples: &[i16]) -> (r: Vec<u8>)
    ensures
        r@.len() == 2 * samples@.len(),
        forall|i: int|
            0 <= i < samples@.len() ==> r@[2 * i] == #[trigger] sample_bytes(samples@[i])[0] && r@[2 * i
                + 1] == sample_bytes(samples@[i])[1],
{
    let mut out: Vec<u8> = Vec::new();
    let mut i: usize = 0;
    while i < samples.len()
        invariant
            i <= samples@.len(),
            out@.len() == 2 * i,
            forall|j: int|
                0 <= j < i ==> out@[2 * j] == #[trigger] sample_bytes(samples@[j])[0] && out@[2 * j + 1]
                    == sample_bytes(samples@[j])[1],
        decreases samples@.len() - i,
    {
        let v = samples[i] as u16;
        out.push((v & 0xFF) as u8);
        out.push(((v >> 8) & 0xFF) as u8);
        i = i + 1;
    }
    out
}

} // verus!
