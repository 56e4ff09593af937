//! The canonical 16-bit PCM WAV file: a 44-byte RIFF header (`fmt ` chunk
//! of 16 bytes, then the `data` chunk) followed by little-endian samples.
use crate::voice_stream::{pcm_samples, slice_range, split_pcm_with_remainder};
use vstd::prelude::*;

verus! {

/// The samples of a WAV file with their format.
#[derive(Debug)]
pub struct WavPcm {
    pub samples: Vec<i16>,
    pub sample_rate: u32,
    pub channels: u16,
}

/// Bytes before the samples.
pub const WAV_HEADER_LEN: usize = 44;

pub open spec fn le16(b: Seq<u8>, at: int) -> nat {
    (b[at] as nat) + (b[at + 1] as nat) * 256
}

pub open spec fn le32(b: Seq<u8>, at: int) -> nat {
    le16(b, at) + le16(b, at + 2) * 65536
}

pub open spec fn has_tag(b: Seq<u8>, at: int, t: Seq<u8>) -> bool {
    b.subrange(at, at + 4) == t
}

pub open spec fn riff_tag() -> Seq<u8> {
    seq![0x52u8, 0x49u8, 0x46u8, 0x46u8]
}

pub open spec fn wave_tag() -> Seq<u8> {
    seq![0x57u8, 0x41u8, 0x56u8, 0x45u8]
}

pub open spec fn fmt_tag() -> Seq<u8> {
    seq![0x66u8, 0x6du8, 0x74u8, 0x20u8]
}

pub open spec fn data_tag() -> Seq<u8> {
    seq![0x64u8, 0x61u8, 0x74u8, 0x61u8]
}

/// A canonical header for 16-bit integer PCM with at least one channel and
/// a nonzero sample rate.
pub open spec fn canonical_header(b: Seq<u8>) -> bool {
    &&& b.len() >= 44
    &&& has_tag(b, 0, riff_tag())
    &&& has_tag(b, 8, wave_tag())
    &&& has_tag(b, 12, fmt_tag())
    &&& le32(b, 16) == 16
    &&& le16(b, 20) == 1
    &&& le16(b, 22) >= 1
    &&& le32(b, 24) >= 1
    &&& le16(b, 34) == 16
    &&& has_tag(b, 36, data_tag())
}

/// What a WAV file holds: its samples, sample rate and channel count, or
/// `None` when its header is not canonical or its data is cut short.
pub open spec fn wav_contents(b: Seq<u8>) -> Option<(Seq<int>, nat, nat)> {
    if canonical_header(b) && 44 + le32(b, 40) <= b.len() {
        Some((pcm_samples(b.subrange(44, 44 + le32(b, 40) as int)), le32(b, 24), le16(b, 22)))
    } else {
        None
    }
}

pub open spec fn samples_int(s: Seq<i16>) -> Seq<int> {
    Seq::new(s.len(), |i: int| s[i] as int)
}

fn read_le16(b: &[u8], at: usize) -> (r: u16)
    requires
        at + 2 <= b@.len(),
    ensures
        r == le16(b@, at as int),
{
    (b[at] as u16) + (b[at + 1] as u16) * 256
}

fn read_le32(b: &[u8], at: usize) -> (r: u32)
    requires
        at + 4 <= b@.len(),
    ensures
        r == le32(b@, at as int),
{
    let n = b.len();
    let lo = read_le16(b, at) as u32;
    let hi = read_le16(b, at + 2) as u32;
    lo + hi * 65536
}

fn tag_matches(b: &[u8], at: usize, t0: u8, t1: u8, t2: u8, t3: u8) -> (r: bool)
    requires
        at + 4 <= b@.len(),
    ensures
        r == has_tag(b@, at as int, seq![t0, t1, t2, t3]),
{
    let r = b[at] == t0 && b[at + 1] == t1 && b[at + 2] == t2 && b[at + 3] == t3;
    assert(r ==> b@.subrange(at as int, at + 4) =~= seq![t0, t1, t2, t3]);
    assert(b@.subrange(at as int, at + 4) == seq![t0, t1, t2, t3] ==> {
        &&& b@.subrange(at as int, at + 4)[0] == t0
        &&& b@.subrange(at as int, at + 4)[1] == t1
        &&& b@.subrange(at as int, at + 4)[2] == t2
        &&& b@.subrange(at as int, at + 4)[3] == t3
    });
    r
}

/// The little-endian 16-bit samples of a byte string; an odd last byte is
/// not read.
pub fn pcm16_samples(bytes: &[u8]) -> (samples: Vec<i16>)
    ensures
        samples_int(samples@) == pcm_samples(bytes@),
{
    let mut held: Option<u8> = None;
    let samples = split_pcm_with_remainder(bytes, &mut held);
    assert(samples_int(samples@) =~= pcm_samples(bytes@));
    samples
}

/// Reads a canonical 16-bit PCM WAV file.
pub fn parse_wav(bytes: &[u8]) -> (r: Option<WavPcm>)
    ensures
        match wav_contents(bytes@) {
            Some((samples, rate, channels)) => r matches Some(w) && samples_int(w.samples@)
                == samples && w.sample_rate == rate && w.channels == channels,
            None => r is None,
        },
{
    if bytes.len() < WAV_HEADER_LEN {
        return None;
    }
    let ok = tag_matches(bytes, 0, 0x52, 0x49, 0x46, 0x46) && tag_matches(
        bytes,
        8,
        0x57,
        0x41,
        0x56,
        0x45,
    ) && tag_matches(bytes, 12, 0x66, 0x6d, 0x74, 0x20) && read_le32(bytes, 16) == 16
        && read_le16(bytes, 20) == 1 && read_le16(bytes, 22) >= 1 && read_le32(bytes, 24) >= 1
        && read_le16(bytes, 34) == 16 && tag_matches(bytes, 36, 0x64, 0x61, 0x74, 0x61);
    if !ok {
        return None;
    }
    let data_len = read_le32(bytes, 40) as usize;
    if data_len > bytes.len() - WAV_HEADER_LEN {
        return None;
    }
    let data = slice_range(bytes, WAV_HEADER_LEN, WAV_HEADER_LEN + data_len);
    let samples = pcm16_samples(data);
    Some(WavPcm { samples, sample_rate: read_le32(bytes, 24), channels: read_le16(bytes, 22) })
}

/// The two little-endian bytes of a sample.
pub open spec fn sample_bytes(v: i16) -> Seq<u8> {
    let u: int = if v < 0 {
        v + 65536
    } else {
        v as int
    };
    seq![(u % 256) as u8, (u / 256) as u8]
}

/// The data bytes of a run of samples.
pub open spec fn pcm_bytes(s: Seq<i16>) -> Seq<u8>
    decreases s.len(),
{
    if s.len() == 0 {
        Seq::empty()
    } else {
        pcm_bytes(s.drop_last()) + sample_bytes(s.last())
    }
}

/// `b` is the canonical mono WAV file of `samples` at `rate`: every header
/// field is pinned, and the samples follow.
pub open spec fn encoded_mono(b: Seq<u8>, samples: Seq<i16>, rate: nat) -> bool {
    let n = 2 * samples.len();
    &&& b.len() == 44 + n
    &&& has_tag(b, 0, riff_tag())
    &&& le32(b, 4) == 36 + n
    &&& has_tag(b, 8, wave_tag())
    &&& has_tag(b, 12, fmt_tag())
    &&& le32(b, 16) == 16
    &&& le16(b, 20) == 1
    &&& le16(b, 22) == 1
    &&& le32(b, 24) == rate
    &&& le32(b, 28) == 2 * rate
    &&& le16(b, 32) == 2
    &&& le16(b, 34) == 16
    &&& has_tag(b, 36, data_tag())
    &&& le32(b, 40) == n
    &&& b.subrange(44, 44 + n as int) == pcm_bytes(samples)
}

/// The four little-endian bytes of a 32-bit value.
fn le32_parts(x: u32) -> (r: (u8, u8, u8, u8))
    ensures
        (r.0 as nat) + (r.1 as nat) * 256 + ((r.2 as nat) + (r.3 as nat) * 256) * 65536 == x,
{
    let b0 = (x % 256) as u8;
    let b1 = (x / 256 % 256) as u8;
    let b2 = (x / 65536 % 256) as u8;
    let b3 = (x / 16777216) as u8;
    assert((x % 256) + (x / 256 % 256) * 256 + ((x / 65536 % 256) + (x / 16777216) * 256) * 65536
        == x) by (nonlinear_arith);
    (b0, b1, b2, b3)
}

fn wav_header(rate: u32, data_len: u32) -> (h: Vec<u8>)
    requires
        36 + data_len <= u32::MAX,
        2 * rate <= u32::MAX,
    ensures
        h@.len() == 44,
        has_tag(h@, 0, riff_tag()),
        le32(h@, 4) == 36 + data_len,
        has_tag(h@, 8, wave_tag()),
        has_tag(h@, 12, fmt_tag()),
        le32(h@, 16) == 16,
        le16(h@, 20) == 1,
        le16(h@, 22) == 1,
        le32(h@, 24) == rate,
        le32(h@, 28) == 2 * rate,
        le16(h@, 32) == 2,
        le16(h@, 34) == 16,
        has_tag(h@, 36, data_tag()),
        le32(h@, 40) == data_len,
{
    let a = le32_parts(36 + data_len);
    let c = le32_parts(rate);
    let d = le32_parts(rate * 2);
    let e = le32_parts(data_len);
    let h: Vec<u8> = vec![
        0x52, 0x49, 0x46, 0x46, a.0, a.1, a.2, a.3,
        0x57, 0x41, 0x56, 0x45, 0x66, 0x6d, 0x74, 0x20,
        16, 0, 0, 0, 1, 0, 1, 0,
        c.0, c.1, c.2, c.3, d.0, d.1, d.2, d.3,
        2, 0, 16, 0, 0x64, 0x61, 0x74, 0x61,
        e.0, e.1, e.2, e.3,
    ];
    assert(h@.subrange(0, 4) =~= riff_tag());
    assert(h@.subrange(8, 12) =~= wave_tag());
    assert(h@.subrange(12, 16) =~= fmt_tag());
    assert(h@.subrange(36, 40) =~= data_tag());
    h
}

/// Writes mono 16-bit samples at `sample_rate` as a canonical WAV file.
pub fn encode_wav(samples: &[i16], sample_rate: u32) -> (bytes: Vec<u8>)
    requires
        36 + 2 * samples@.len() <= u32::MAX,
        2 * sample_rate <= u32::MAX,
    ensures
        encoded_mono(bytes@, samples@, sample_rate as nat),
{
    let data_len: u32 = (2 * samples.len()) as u32;
    let mut v = wav_header(sample_rate, data_len);
    let ghost header = v@;
    assert(header + pcm_bytes(samples@.subrange(0, 0)) =~= header);
    let mut i: usize = 0;
    while i < samples.len()
        invariant
            i <= samples@.len(),
            header.len() == 44,
            v@ == header + pcm_bytes(samples@.subrange(0, i as int)),
        decreases samples@.len() - i,
    {
        let s = samples[i];
        let u: i32 = if s < 0 {
            (s as i32) + 65536
        } else {
            s as i32
        };
        v.push((u % 256) as u8);
        v.push((u / 256) as u8);
        proof {
            let p = samples@.subrange(0, i + 1);
            assert(p.drop_last() =~= samples@.subrange(0, i as int));
            assert(p.last() == s);
            assert(pcm_bytes(p) == pcm_bytes(samples@.subrange(0, i as int)) + sample_bytes(s));
        }
        assert(v@ =~= header + pcm_bytes(samples@.subrange(0, i + 1)));
        i = i + 1;
    }
    assert(samples@.subrange(0, samples@.len() as int) =~= samples@);
    proof {
        lemma_pcm_bytes_len(samples@);
        let b = v@;
        assert(b.subrange(0, 44) =~= header);
        assert(b.subrange(44, b.len() as int) =~= pcm_bytes(samples@));
        assert(forall|k: int| 0 <= k < 44 ==> b[k] == header[k]);
        assert(b.subrange(0, 4) =~= header.subrange(0, 4));
        assert(b.subrange(8, 12) =~= header.subrange(8, 12));
        assert(b.subrange(12, 16) =~= header.subrange(12, 16));
        assert(b.subrange(36, 40) =~= header.subrange(36, 40));
    }
    v
}

proof fn lemma_pcm_bytes_len(s: Seq<i16>)
    ensures
        pcm_bytes(s).len() == 2 * s.len(),
    decreases s.len(),
{
    if s.len() > 0 {
        lemma_pcm_bytes_len(s.drop_last());
    }
}

proof fn lemma_sample_roundtrip(v: i16)
    ensures
        crate::voice_stream::sample_value(sample_bytes(v)[0], sample_bytes(v)[1]) == v as int,
{
}

proof fn lemma_pcm_roundtrip(s: Seq<i16>)
    ensures
        pcm_samples(pcm_bytes(s)) == samples_int(s),
    decreases s.len(),
{
    lemma_pcm_bytes_len(s);
    if s.len() > 0 {
        let t = s.drop_last();
        lemma_pcm_roundtrip(t);
        lemma_pcm_bytes_len(t);
        lemma_sample_roundtrip(s.last());
        let b = pcm_bytes(s);
        assert(b == pcm_bytes(t) + sample_bytes(s.last()));
        assert forall|i: int| 0 <= i < s.len() implies #[trigger] pcm_samples(b)[i] == samples_int(
            s,
        )[i] by {
            if i < t.len() {
                assert(pcm_samples(pcm_bytes(t))[i] == samples_int(t)[i]);
                assert(b[2 * i] == pcm_bytes(t)[2 * i]);
                assert(b[2 * i + 1] == pcm_bytes(t)[2 * i + 1]);
            } else {
                assert(b[2 * i] == sample_bytes(s.last())[0]);
                assert(b[2 * i + 1] == sample_bytes(s.last())[1]);
            }
        }
        assert(pcm_samples(b) =~= samples_int(s));
    }
}

/// Reading back a canonical mono file gives its samples, its sample rate and
/// one channel: what `encode_wav` writes, `parse_wav` reads back unchanged.
pub proof fn lemma_wav_roundtrip(b: Seq<u8>, samples: Seq<i16>, rate: nat)
    requires
        encoded_mono(b, samples, rate),
        rate >= 1,
    ensures
        wav_contents(b) == Some((samples_int(samples), rate, 1nat)),
{
    lemma_pcm_roundtrip(samples);
}

} // verus!
