//! Captured audio: mono signed 16-bit little-endian samples (S16LE), cut out
//! of the data buffer that the capture stream hands over for each period.
//! The stream is set up to deliver S16LE, so the bytes are read as little
//! endian whatever the host's byte order, and a chunk need not be aligned.

use vstd::prelude::*;

verus! {

/// The sample whose low byte is `lo` and whose high byte is `hi`, read as a
/// two's-complement 16-bit integer.
pub open spec fn s16le(lo: u8, hi: u8) -> int {
    let u = lo as int + 256 * hi as int;
    if u >= 0x8000 {
        u - 0x1_0000
    } else {
        u
    }
}

/// The samples held by the `size` bytes of `data` that start at `offset`.
pub open spec fn chunk_samples(data: Seq<u8>, offset: int, size: int) -> Seq<int> {
    Seq::new(
        (size / 2) as nat,
        |i: int| s16le(data[offset + 2 * i], data[offset + 2 * i + 1]),
    )
}

/// An S16LE sample is the 16-bit two's-complement reading of its bytes: it
/// lies in the range of a signed 16-bit integer and differs from the
/// unsigned value `lo + 256 * hi` of its bytes by a multiple of 2^16.
pub proof fn lemma_s16le_reads_twos_complement(lo: u8, hi: u8)
    ensures
        -0x8000 <= s16le(lo, hi) < 0x8000,
        (s16le(lo, hi) - (lo as int + 256 * hi as int)) % 0x1_0000 == 0,
        hi < 0x80 ==> s16le(lo, hi) == lo as int + 256 * hi as int,
{
}

/// The samples of a chunk are its byte pairs in order: there is one for
/// every two bytes, and sample `i` is read from bytes `offset + 2i` (low)
/// and `offset + 2i + 1` (high).
pub proof fn lemma_chunk_samples_are_byte_pairs(data: Seq<u8>, offset: int, size: int, i: int)
    requires
        0 <= size,
        0 <= i < size / 2,
    ensures
        chunk_samples(data, offset, size).len() == size / 2,
        chunk_samples(data, offset, size)[i] == s16le(data[offset + 2 * i], data[offset + 2 * i + 1]),
{
}

/// One S16LE sample from its two bytes.
pub fn sample_from_bytes(lo: u8, hi: u8) -> (v: i16)
    ensures
        v as int == s16le(lo, hi),
        (v as int - (lo as int + 256 * hi as int)) % 0x1_0000 == 0,
{
    let u: u16 = (lo as u16) | ((hi as u16) << 8u16);
    assert(u as int == lo as int + 256 * hi as int) by (bit_vector)
        requires u == (lo as u16) | ((hi as u16) << 8u16);
    let v: i16 = u as i16;
    assert(v as int == if u >= 0x8000 { u as int - 0x1_0000 } else { u as int }) by (bit_vector)
        requires v == u as i16;
    v
}

/// The samples of the chunk of `data` that is `size` bytes long and starts
/// at `offset`. The chunk must lie within `data` and hold whole samples.
pub fn samples_from_chunk(data: &[u8], offset: usize, size: usize) -> (samples: Vec<i16>)
    requires
        offset + size <= data@.len(),
        size % 2 == 0,
    ensures
        samples@.len() == size / 2,
        forall|i: int|
            0 <= i < samples@.len() ==> samples@[i] as int == chunk_samples(data@, offset as int, size as int)[i],
        forall|i: int|
            0 <= i < samples@.len() ==> samples@[i] as int == s16le(data@[offset + 2 * i], data@[offset + 2 * i + 1]),
        forall|i: int|
            0 <= i < samples@.len() ==> (#[trigger] samples@[i] as int - (data@[offset + 2 * i] as int + 256 * data@[offset + 2 * i + 1] as int)) % 0x1_0000 == 0,
{
    let n = size / 2;
    let len = data.len();
    let mut samples: Vec<i16> = Vec::with_capacity(n);
    let mut i: usize = 0;
    while i < n
        invariant
            n == size / 2,
            len == data@.len(),
            offset + size <= data@.len(),
            i <= n,
            samples@.len() == i,
            forall|j: int|
                0 <= j < i ==> samples@[j] as int == s16le(data@[offset + 2 * j], data@[offset + 2 * j + 1]),
            forall|j: int|
                0 <= j < i ==> (#[trigger] samples@[j] as int - (data@[offset + 2 * j] as int + 256 * data@[offset + 2 * j + 1] as int)) % 0x1_0000 == 0,
        decreases n - i,
    {
        assert(2 * i + 2 <= size);
        let at = offset + 2 * i;
        samples.push(sample_from_bytes(data[at], data[at + 1]));
        i = i + 1;
    }
    samples
}

} // verus!
