//! WAV container encoding.
//!
//! The encoder takes fixed-point samples in arrival order, keeps their
//! encoded bytes, and on finalization produces the complete file: a 44-byte
//! RIFF/WAVE header whose length fields reflect the total number of bytes
//! written, followed by the data chunk.  A 16-bit integer format quantizes
//! each sample; a 32-bit float format stores its IEEE 754 bit pattern.

use vstd::prelude::*;
use vstd::calc;
use crate::sample::{spec_quantize_i16, quantize_i16, spec_f32_bits, f32_bits};

verus! {

/// How samples are stored in the container, fixed when the stream is
/// opened: as 16-bit integers (PCM) or as 32-bit floats (IEEE float).
#[derive(Clone, Copy, Debug, PartialEq, Eq, Structural)]
pub enum SampleKind {
    Int16,
    Float32,
}

impl SampleKind {
    /// Bits per stored sample: 16 or 32.
    pub open spec fn spec_bits(self) -> u16 {
        match self {
            SampleKind::Int16 => 16,
            SampleKind::Float32 => 32,
        }
    }

    /// Bytes per stored sample: 2 or 4.
    pub open spec fn spec_sample_bytes(self) -> u16 {
        match self {
            SampleKind::Int16 => 2,
            SampleKind::Float32 => 4,
        }
    }

    /// The header's format tag: 1 for PCM, 3 for IEEE float.
    pub open spec fn spec_format_tag(self) -> u16 {
        match self {
            SampleKind::Int16 => 1,
            SampleKind::Float32 => 3,
        }
    }

    /// Bits per stored sample.
    pub fn bits(self) -> (b: u16)
        ensures
            b == self.spec_bits(),
    {
        match self {
            SampleKind::Int16 => 16,
            SampleKind::Float32 => 32,
        }
    }

    /// Bytes per stored sample.
    pub fn sample_bytes(self) -> (b: u16)
        ensures
            b == self.spec_sample_bytes(),
    {
        match self {
            SampleKind::Int16 => 2,
            SampleKind::Float32 => 4,
        }
    }

    /// The header's format tag.
    pub fn format_tag(self) -> (t: u16)
        ensures
            t == self.spec_format_tag(),
    {
        match self {
            SampleKind::Int16 => 1,
            SampleKind::Float32 => 3,
        }
    }
}

/// The stream format fixed at open time; it determines the header fields
/// and how each sample is stored.
#[derive(Clone, Copy, Debug, PartialEq, Eq, Structural)]
pub struct AudioFormat {
    pub channels: u16,
    pub sample_rate: u32,
    pub kind: SampleKind,
}

impl AudioFormat {
    /// Bytes per frame (one sample per channel); the header's block-align
    /// field, so it must fit its 16 bits.
    pub open spec fn spec_block_align(self) -> int {
        self.channels * self.kind.spec_sample_bytes()
    }

    /// Bytes per second of audio; the header's byte-rate field, so it must
    /// fit its 32 bits.
    pub open spec fn spec_byte_rate(self) -> int {
        self.sample_rate * self.spec_block_align()
    }

    /// A format the container can describe: at least one channel, a
    /// positive rate, and frame and rate fields inside their header widths.
    pub open spec fn wf(self) -> bool {
        &&& self.channels >= 1
        &&& self.sample_rate >= 1
        &&& self.spec_block_align() <= 0xFFFF
        &&& self.spec_byte_rate() <= 0xFFFFFFFF
    }

    /// Build a format, rejecting one whose frame size or byte rate does not
    /// fit the container's header fields.
    pub fn new(channels: u16, sample_rate: u32, kind: SampleKind) -> (r: Option<AudioFormat>)
        ensures
            ({
                let f = AudioFormat { channels, sample_rate, kind };
                if f.wf() {
                    r == Some(f)
                } else {
                    r is None
                }
            }),
    {
        let f = AudioFormat { channels, sample_rate, kind };
        if channels >= 1 {
            proof {
                assert((channels as int) * (kind.spec_sample_bytes() as int) <= 0xFFFF * 4)
                    by (nonlinear_arith)
                    requires
                        channels <= 0xFFFF,
                        kind.spec_sample_bytes() <= 4,
                {
                }
            }
            let ba: u64 = (channels as u64) * (kind.sample_bytes() as u64);
            if sample_rate >= 1 && ba <= 0xFFFF {
                proof {
                    assert((sample_rate as int) * (ba as int) <= 0xFFFFFFFF * 0xFFFF)
                        by (nonlinear_arith)
                        requires
                            sample_rate <= 0xFFFFFFFF,
                            ba <= 0xFFFF,
                    {
                    }
                }
                let rate64: u64 = (sample_rate as u64) * ba;
                if rate64 <= 0xFFFFFFFF {
                    return Some(f);
                }
            }
        }
        None
    }
}

/// The two little-endian bytes of a 16-bit value.
pub open spec fn le16(x: int) -> Seq<u8> {
    seq![(x % 256) as u8, (x / 256 % 256) as u8]
}

/// The four little-endian bytes of a 32-bit value.
pub open spec fn le32(x: int) -> Seq<u8> {
    seq![
        (x % 256) as u8,
        (x / 0x100 % 256) as u8,
        (x / 0x10000 % 256) as u8,
        (x / 0x1000000 % 256) as u8,
    ]
}

/// Append the two little-endian bytes of `x`.
pub fn push_le16(out: &mut Vec<u8>, x: u16)
    ensures
        final(out)@ == old(out)@ + le16(x as int),
{
    out.push((x % 256) as u8);
    out.push((x / 256) as u8);
    proof {
        assert(final(out)@ =~= old(out)@ + le16(x as int));
    }
}

/// Append the four little-endian bytes of `x`.
pub fn push_le32(out: &mut Vec<u8>, x: u32)
    ensures
        final(out)@ == old(out)@ + le32(x as int),
{
    out.push((x % 256) as u8);
    out.push((x / 0x100 % 256) as u8);
    out.push((x / 0x10000 % 256) as u8);
    out.push((x / 0x1000000 % 256) as u8);
    proof {
        assert(final(out)@ =~= old(out)@ + le32(x as int));
    }
}

/// The unsigned 16-bit pattern that stores a signed 16-bit value in two's
/// complement.
pub open spec fn spec_u16_of_i16(x: i16) -> int {
    if x >= 0 {
        x as int
    } else {
        x as int + 0x10000
    }
}

/// The signed 16-bit value a stored unsigned pattern stands for, the
/// inverse of `spec_u16_of_i16`.
pub open spec fn spec_i16_of_u16(x: int) -> i16
    recommends
        0 <= x < 0x10000,
{
    if x < 0x8000 {
        x as i16
    } else {
        (x - 0x10000) as i16
    }
}

/// The 16-bit value two little-endian bytes store.
pub open spec fn spec_u16_from_le(b0: u8, b1: u8) -> int {
    b0 + 0x100 * b1
}

/// Stored 16-bit PCM round-trips: reading the two bytes written for a
/// sample back as a little-endian two's-complement integer yields exactly
/// the sample's quantized value.
pub proof fn lemma_pcm16_roundtrip(s: i32)
    ensures
        ({
            let b = spec_sample_enc(SampleKind::Int16, s);
            &&& b.len() == 2
            &&& spec_i16_of_u16(spec_u16_from_le(b[0], b[1])) == spec_quantize_i16(s)
        }),
{
}

/// The stored bytes of one sample: its quantized 16-bit integer, or its
/// 32-bit float pattern, little endian.
pub open spec fn spec_sample_enc(kind: SampleKind, s: i32) -> Seq<u8> {
    match kind {
        SampleKind::Int16 => le16(spec_u16_of_i16(spec_quantize_i16(s))),
        SampleKind::Float32 => le32(spec_f32_bits(s) as int),
    }
}

/// The stored bytes of a whole sample sequence, in order.
pub open spec fn spec_data_bytes(kind: SampleKind, ss: Seq<i32>) -> Seq<u8>
    decreases ss.len(),
{
    if ss.len() == 0 {
        Seq::empty()
    } else {
        spec_data_bytes(kind, ss.drop_last()) + spec_sample_enc(kind, ss.last())
    }
}

/// Each sample adds exactly its fixed-size encoding.
pub proof fn lemma_data_bytes_len(kind: SampleKind, ss: Seq<i32>)
    ensures
        spec_data_bytes(kind, ss).len() == ss.len() * kind.spec_sample_bytes(),
    decreases ss.len(),
{
    if ss.len() > 0 {
        lemma_data_bytes_len(kind, ss.drop_last());
        assert(ss.len() * kind.spec_sample_bytes() == (ss.len() - 1) * kind.spec_sample_bytes()
            + kind.spec_sample_bytes()) by (nonlinear_arith);
    }
}

/// The frame count a reader computes from the finished file — the data
/// length over the block align — is exactly the number of samples stored
/// over the channel count.
pub proof fn lemma_frame_count(f: AudioFormat, ss: Seq<i32>)
    requires
        f.wf(),
    ensures
        spec_data_bytes(f.kind, ss).len() as int / f.spec_block_align() == ss.len() as int
            / f.channels as int,
{
    lemma_data_bytes_len(f.kind, ss);
    let n = ss.len() as int;
    let b = f.kind.spec_sample_bytes() as int;
    let c = f.channels as int;
    assert(c * b > 0) by (nonlinear_arith)
        requires
            c >= 1,
            b >= 1,
    {
    }
    calc! {
        (==)
        (n * b) / (b * c); {
            vstd::arithmetic::div_mod::lemma_div_denominator(n * b, b, c);
        }
        ((n * b) / b) / c; {
            vstd::arithmetic::div_mod::lemma_div_multiples_vanish(n, b);
            assert(n * b == b * n) by (nonlinear_arith);
        }
        n / c;
    }
    assert(b * c == c * b) by (nonlinear_arith);
}

/// Largest data-chunk size the header can state: the RIFF chunk size is
/// the data length plus 36, and must fit 32 bits.
pub const MAX_DATA_LEN: u32 = 4294967295 - 36;

/// The 44-byte RIFF/WAVE header for a format and a data-chunk length.
pub open spec fn spec_header(f: AudioFormat, data_len: int) -> Seq<u8> {
    seq![0x52u8, 0x49u8, 0x46u8, 0x46u8]  // "RIFF"
     + le32(36 + data_len)
     + seq![0x57u8, 0x41u8, 0x56u8, 0x45u8]  // "WAVE"
     + seq![0x66u8, 0x6du8, 0x74u8, 0x20u8]  // "fmt "
     + le32(16)
     + le16(f.kind.spec_format_tag() as int)
     + le16(f.channels as int)
     + le32(f.sample_rate as int)
     + le32(f.spec_byte_rate())
     + le16(f.spec_block_align())
     + le16(f.kind.spec_bits() as int)
     + seq![0x64u8, 0x61u8, 0x74u8, 0x61u8]  // "data"
     + le32(data_len)
}

/// A complete WAV file for a format and the samples taken in.
pub open spec fn spec_wav_file(f: AudioFormat, ss: Seq<i32>) -> Seq<u8> {
    spec_header(f, spec_data_bytes(f.kind, ss).len() as int) + spec_data_bytes(f.kind, ss)
}

/// Serializes samples into a WAV data chunk and, on finalization, produces
/// the complete container with correct length fields.
pub struct WavEncoder {
    format: AudioFormat,
    data: Vec<u8>,
    history: Ghost<Seq<i32>>,
}

impl WavEncoder {
    /// The format the encoder was opened with.
    pub closed spec fn format(self) -> AudioFormat {
        self.format
    }

    /// Every sample taken in, in arrival order.
    pub closed spec fn history(self) -> Seq<i32> {
        self.history@
    }

    /// The data bytes written so far are exactly the in-order encodings of
    /// the samples taken in, and stay small enough for the header fields.
    pub closed spec fn wf(self) -> bool {
        &&& self.format.wf()
        &&& self.data@ == spec_data_bytes(self.format.kind, self.history@)
        &&& self.data@.len() <= MAX_DATA_LEN
    }

    /// Open an encoder for a format.
    pub fn new(format: AudioFormat) -> (e: WavEncoder)
        requires
            format.wf(),
        ensures
            e.wf(),
            e.format() == format,
            e.history() =~= Seq::<i32>::empty(),
    {
        WavEncoder { format, data: Vec::new(), history: Ghost(Seq::empty()) }
    }

    /// Number of data bytes written so far.
    pub fn data_len(&self) -> (n: usize)
        requires
            self.wf(),
        ensures
            n == spec_data_bytes(self.format().kind, self.history()).len(),
            n <= MAX_DATA_LEN,
    {
        self.data.len()
    }

    /// Whether one more sample still fits under the container's size limit.
    pub fn can_append(&self) -> (r: bool)
        requires
            self.wf(),
        ensures
            r == (spec_data_bytes(self.format().kind, self.history()).len()
                + self.format().kind.spec_sample_bytes() <= MAX_DATA_LEN),
    {
        let b = self.format.kind.sample_bytes() as usize;
        self.data.len() <= (MAX_DATA_LEN as usize) - b
    }

    /// Append one sample's stored bytes.
    pub fn append_sample(&mut self, s: i32)
        requires
            old(self).wf(),
            spec_data_bytes(old(self).format().kind, old(self).history()).len()
                + old(self).format().kind.spec_sample_bytes() <= MAX_DATA_LEN,
        ensures
            final(self).wf(),
            final(self).format() == old(self).format(),
            final(self).history() =~= old(self).history().push(s),
    {
        let ghost h0 = self.history@;
        match self.format.kind {
            SampleKind::Int16 => {
                let q = quantize_i16(s);
                let u: u16 = if q >= 0 {
                    q as u16
                } else {
                    ((q as i32) + 0x10000) as u16
                };
                push_le16(&mut self.data, u);
            },
            SampleKind::Float32 => {
                let bits = f32_bits(s);
                push_le32(&mut self.data, bits);
            },
        }
        proof {
            self.history@ = self.history@.push(s);
            assert(self.history@.drop_last() =~= h0);
            assert(self.data@ == spec_data_bytes(self.format.kind, self.history@));
        }
    }

    /// Close the container: the header, its length fields patched to the
    /// final data size, followed by the data chunk.
    #[verifier::rlimit(30)]
    pub fn finalize(self) -> (file: Vec<u8>)
        requires
            self.wf(),
        ensures
            file@ == spec_wav_file(self.format(), self.history()),
            file@.len() == 44 + self.history().len() * self.format().kind.spec_sample_bytes(),
    {
        proof {
            lemma_data_bytes_len(self.format.kind, self.history@);
        }
        let f = self.format;
        let data_len: u32 = self.data.len() as u32;
        let mut out: Vec<u8> = Vec::new();
        out.push(0x52);
        out.push(0x49);
        out.push(0x46);
        out.push(0x46);
        push_le32(&mut out, 36 + data_len);
        out.push(0x57);
        out.push(0x41);
        out.push(0x56);
        out.push(0x45);
        out.push(0x66);
        out.push(0x6d);
        out.push(0x74);
        out.push(0x20);
        push_le32(&mut out, 16);
        push_le16(&mut out, f.kind.format_tag());
        push_le16(&mut out, f.channels);
        push_le32(&mut out, f.sample_rate);
        let block_align: u16 = f.channels * (f.kind.sample_bytes() as u16);
        let byte_rate: u32 = f.sample_rate * (block_align as u32);
        push_le32(&mut out, byte_rate);
        push_le16(&mut out, block_align);
        push_le16(&mut out, f.kind.bits());
        out.push(0x64);
        out.push(0x61);
        out.push(0x74);
        out.push(0x61);
        push_le32(&mut out, data_len);
        proof {
            assert(out@ =~= spec_header(f, self.data@.len() as int));
        }
        let mut data = self.data;
        out.append(&mut data);
        out
    }
}

} // verus!
