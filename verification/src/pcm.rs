//! 16-bit PCM audio: samples, their little-endian bytes and their loudness.
use vstd::prelude::*;

verus! {

/// The sample that two little-endian bytes stand for, in two's complement.
pub open spec fn sample_of(low: u8, high: u8) -> int {
    if high < 128 {
        low + 256 * high
    } else {
        low + 256 * high - 65536
    }
}

/// The samples in a run of bytes; an odd byte at the end is dropped.
pub open spec fn samples_in(bytes: Seq<u8>) -> Seq<i16> {
    Seq::new(bytes.len() / 2, |i: int| sample_of(bytes[2 * i], bytes[2 * i + 1]) as i16)
}

/// The low byte of a sample.
pub open spec fn low_byte(sample: i16) -> u8 {
    (sample as int % 256) as u8
}

/// The high byte of a sample.
pub open spec fn high_byte(sample: i16) -> u8 {
    (sample as int / 256 % 256) as u8
}

/// The bytes of a run of samples, low byte first.
pub open spec fn bytes_of(samples: Seq<i16>) -> Seq<u8> {
    Seq::new(
        2 * samples.len(),
        |k: int|
            if k % 2 == 0 {
                low_byte(samples[k / 2])
            } else {
                high_byte(samples[k / 2])
            },
    )
}

/// The distance of a sample from silence.
pub open spec fn magnitude(sample: i16) -> int {
    if sample < 0 {
        -(sample as int)
    } else {
        sample as int
    }
}

/// The greatest magnitude among samples, at least `floor`.
pub open spec fn peak_over(floor: int, samples: Seq<i16>) -> int
    decreases samples.len(),
{
    if samples.len() == 0 {
        floor
    } else {
        let before = peak_over(floor, samples.drop_last());
        if magnitude(samples.last()) > before {
            magnitude(samples.last())
        } else {
            before
        }
    }
}

/// The sample that two little-endian bytes stand for.
fn sample_from_bytes(low: u8, high: u8) -> (r: i16)
    ensures
        r == sample_of(low, high),
{
    let raw: i32 = low as i32 + 256 * (high as i32);
    if high < 128 {
        raw as i16
    } else {
        (raw - 65536) as i16
    }
}

/// Reads samples from little-endian bytes.
pub fn bytes_to_samples(bytes: &[u8]) -> (r: Vec<i16>)
    ensures
        r@ == samples_in(bytes@),
{
    let len: usize = bytes.len();
    let count: usize = len / 2;
    let mut samples: Vec<i16> = Vec::new();
    let mut i: usize = 0;
    while i < count
        invariant
            i <= count,
            count == len / 2,
            len == bytes@.len(),
            samples@ == samples_in(bytes@).take(i as int),
        decreases count - i,
    {
        samples.push(sample_from_bytes(bytes[2 * i], bytes[2 * i + 1]));
        i = i + 1;
        assert(samples@ =~= samples_in(bytes@).take(i as int));
    }
    samples
}

/// Writes samples as little-endian bytes.
pub fn samples_to_bytes(samples: &[i16]) -> (r: Vec<u8>)
    ensures
        r@ == bytes_of(samples@),
{
    let mut bytes: Vec<u8> = Vec::new();
    let mut i: usize = 0;
    while i < samples.len()
        invariant
            i <= samples@.len(),
            bytes@ == bytes_of(samples@).take(2 * i),
        decreases samples@.len() - i,
    {
        let sample: i32 = samples[i] as i32;
        let raw: i32 = if sample < 0 {
            sample + 65536
        } else {
            sample
        };
        bytes.push((raw % 256) as u8);
        bytes.push((raw / 256) as u8);
        i = i + 1;
        assert(bytes@ =~= bytes_of(samples@).take(2 * i));
    }
    assert(bytes@ =~= bytes_of(samples@));
    bytes
}

/// The greatest magnitude among samples, at least `floor`.
pub fn peak(floor: u32, samples: &[i16]) -> (r: u32)
    ensures
        r == peak_over(floor as int, samples@),
{
    let mut best: u32 = floor;
    let mut i: usize = 0;
    while i < samples.len()
        invariant
            i <= samples@.len(),
            best == peak_over(floor as int, samples@.take(i as int)),
        decreases samples@.len() - i,
    {
        let sample: i32 = samples[i] as i32;
        let size: u32 = if sample < 0 {
            (-sample) as u32
        } else {
            sample as u32
        };
        if size > best {
            best = size;
        }
        i = i + 1;
        assert(samples@.take(i as int).drop_last() =~= samples@.take(i - 1));
    }
    assert(samples@.take(i as int) =~= samples@);
    best
}

/// The upper 16 bits of a 32-bit sample.
pub fn top_half(sample: i32) -> (r: i16)
    ensures
        r == sample as int / 65536,
{
    assert(-32768 <= (sample >> 16) <= 32767) by (bit_vector);
    assert(sample >> 16 == sample as int / 65536) by {
        let q: i32 = sample >> 16;
        assert(0 <= sample - q * 65536 < 65536) by (bit_vector)
            requires
                q == sample >> 16,
        ;
    }
    (sample >> 16) as i16
}

/// Samples written as bytes are read back as the same samples.
pub proof fn law_samples_survive_bytes(samples: Seq<i16>)
    ensures
        samples_in(bytes_of(samples)) == samples,
{
    assert forall|i: int| 0 <= i < samples.len() implies samples_in(bytes_of(samples))[i]
        == samples[i] by {
        assert((2 * i) % 2 == 0 && (2 * i) / 2 == i && (2 * i + 1) % 2 == 1 && (2 * i + 1) / 2
            == i);
    }
    assert(samples_in(bytes_of(samples)) =~= samples);
}

/// Whole samples read from bytes are written back as the same bytes.
pub proof fn law_bytes_survive_samples(bytes: Seq<u8>)
    requires
        bytes.len() % 2 == 0,
    ensures
        bytes_of(samples_in(bytes)) == bytes,
{
    assert forall|k: int| 0 <= k < bytes.len() implies bytes_of(samples_in(bytes))[k]
        == bytes[k] by {
        let i = k / 2;
        let s = samples_in(bytes)[i];
        assert(s == sample_of(bytes[2 * i], bytes[2 * i + 1]));
    }
    assert(bytes_of(samples_in(bytes)) =~= bytes);
}

/// No sample is louder than the peak, and the peak is the floor or the magnitude of a sample.
pub proof fn law_peak_is_the_loudest(floor: int, samples: Seq<i16>)
    ensures
        peak_over(floor, samples) >= floor,
        forall|i: int|
            0 <= i < samples.len() ==> magnitude(#[trigger] samples[i]) <= peak_over(
                floor,
                samples,
            ),
        peak_over(floor, samples) == floor || exists|i: int|
            0 <= i < samples.len() && magnitude(#[trigger] samples[i]) == peak_over(
                floor,
                samples,
            ),
    decreases samples.len(),
{
    if samples.len() > 0 {
        let init = samples.drop_last();
        law_peak_is_the_loudest(floor, init);
        assert forall|i: int| 0 <= i < samples.len() implies magnitude(#[trigger] samples[i])
            <= peak_over(floor, samples) by {
            if i < init.len() {
                assert(magnitude(init[i]) <= peak_over(floor, init));
            }
        }
        if magnitude(samples.last()) > peak_over(floor, init) {
            assert(magnitude(samples[samples.len() - 1]) == peak_over(floor, samples));
        } else if peak_over(floor, init) != floor {
            let i = choose|i: int|
                0 <= i < init.len() && magnitude(#[trigger] init[i]) == peak_over(floor, init);
            assert(magnitude(samples[i]) == peak_over(floor, samples));
        }
    }
}

/// The peak of two runs is the peak of the second over that of the first.
pub proof fn law_peaks_accumulate(floor: int, first: Seq<i16>, second: Seq<i16>)
    ensures
        peak_over(floor, first + second) == peak_over(peak_over(floor, first), second),
    decreases second.len(),
{
    if second.len() == 0 {
        assert(first + second =~= first);
    } else {
        assert((first + second).drop_last() =~= first + second.drop_last());
        law_peaks_accumulate(floor, first, second.drop_last());
    }
}

/// A sample is written low byte first, in two's complement.
pub proof fn law_bytes_are_little_endian(samples: Seq<i16>, i: int)
    requires
        0 <= i < samples.len(),
    ensures
        bytes_of(samples).len() == 2 * samples.len(),
        ({
            let raw = bytes_of(samples)[2 * i] + 256 * bytes_of(samples)[2 * i + 1];
            &&& samples[i] >= 0 ==> raw == samples[i]
            &&& samples[i] < 0 ==> raw == samples[i] + 65536
        }),
{
    assert((2 * i) % 2 == 0 && (2 * i) / 2 == i && (2 * i + 1) % 2 == 1 && (2 * i + 1) / 2 == i);
}

/// A sample is read low byte first, in two's complement, and an odd byte at the end is dropped.
pub proof fn law_samples_are_little_endian(bytes: Seq<u8>, i: int)
    requires
        0 <= 2 * i + 1 < bytes.len(),
    ensures
        samples_in(bytes).len() == bytes.len() / 2,
        ({
            let raw = bytes[2 * i] + 256 * bytes[2 * i + 1];
            &&& raw < 32768 ==> samples_in(bytes)[i] == raw
            &&& raw >= 32768 ==> samples_in(bytes)[i] == raw - 65536
        }),
{
}

/// No sample swings further from zero than the peak, to either side, and the peak is the floor or
/// is reached by a sample.
pub proof fn law_peak_bounds_both_sides(floor: int, samples: Seq<i16>)
    ensures
        peak_over(floor, samples) >= floor,
        forall|i: int|
            0 <= i < samples.len() ==> -peak_over(floor, samples) <= #[trigger] samples[i]
                <= peak_over(floor, samples),
        peak_over(floor, samples) == floor || exists|i: int|
            0 <= i < samples.len() && (#[trigger] samples[i] == peak_over(floor, samples)
                || samples[i] == -peak_over(floor, samples)),
{
    law_peak_is_the_loudest(floor, samples);
    assert forall|i: int| 0 <= i < samples.len() implies -peak_over(floor, samples)
        <= #[trigger] samples[i] <= peak_over(floor, samples) by {
        assert(magnitude(samples[i]) <= peak_over(floor, samples));
    }
    if peak_over(floor, samples) != floor {
        let i = choose|i: int|
            0 <= i < samples.len() && magnitude(#[trigger] samples[i]) == peak_over(
                floor,
                samples,
            );
        assert(samples[i] == peak_over(floor, samples) || samples[i] == -peak_over(
            floor,
            samples,
        ));
    }
}

/// The bytes of two runs of samples are those of the first and then those of the second.
pub proof fn law_bytes_join(first: Seq<i16>, second: Seq<i16>)
    ensures
        bytes_of(first + second) == bytes_of(first) + bytes_of(second),
{
    let joined = bytes_of(first) + bytes_of(second);
    assert forall|k: int| 0 <= k < joined.len() implies bytes_of(first + second)[k]
        == joined[k] by {
        if k >= 2 * first.len() {
            let i = k - 2 * first.len();
            assert(i / 2 == k / 2 - first.len() && i % 2 == k % 2);
        }
    }
    assert(bytes_of(first + second) =~= joined);
}

} // verus!
