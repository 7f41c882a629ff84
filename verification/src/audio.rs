//! The voice-note signal path: 16-bit little-endian PCM samples, the DC
//! filter and soft limiter applied while recording, and the WAV header the
//! recording is saved with.

use vstd::prelude::*;

verus! {

/// Sample rate of the voice notes, in Hz.
pub const AUDIO_SAMPLE_RATE_HZ: u32 = 16000;

/// Samples above this magnitude are compressed by the limiter.
pub const AUDIO_SOFT_LIMIT_THRESHOLD: i32 = 28000;

/// Shift of the DC filter: the estimate moves by 1/2048 of the error.
pub const AUDIO_DC_FILTER_SHIFT: u32 = 11;

/// Size of a WAV header, in bytes.
pub const WAV_HEADER_BYTES: usize = 44;

/// The limiter: magnitudes up to the threshold pass, a quarter of the
/// excess passes above it, and the result is clamped to the `i16` range.
pub open spec fn soft_limited(sample: int) -> int {
    let magnitude = if sample < 0 {
        -sample
    } else {
        sample
    };
    let limited = if magnitude <= AUDIO_SOFT_LIMIT_THRESHOLD {
        magnitude
    } else {
        AUDIO_SOFT_LIMIT_THRESHOLD + (magnitude - AUDIO_SOFT_LIMIT_THRESHOLD) / 4
    };
    let signed = if sample < 0 {
        -limited
    } else {
        limited
    };
    if signed < -32768 {
        -32768
    } else if signed > 32767 {
        32767
    } else {
        signed
    }
}

pub fn soft_limit_i16(sample: i32) -> (r: i16)
    requires
        sample != i32::MIN,
    ensures
        r == soft_limited(sample as int),
{
    let negative = sample < 0;
    let magnitude: i32 = if negative {
        -sample
    } else {
        sample
    };
    let limited: i32 = if magnitude <= AUDIO_SOFT_LIMIT_THRESHOLD {
        magnitude
    } else {
        AUDIO_SOFT_LIMIT_THRESHOLD + (magnitude - AUDIO_SOFT_LIMIT_THRESHOLD) / 4
    };
    let signed: i32 = if negative {
        -limited
    } else {
        limited
    };
    if signed < -32768 {
        -32768
    } else if signed > 32767 {
        32767
    } else {
        signed as i16
    }
}

/// The signed value of the little-endian 16-bit sample `lo`, `hi`.
pub open spec fn pcm_value(lo: u8, hi: u8) -> int {
    let u = lo + 256 * hi;
    if u >= 32768 {
        u - 65536
    } else {
        u
    }
}

/// The low byte of the 16-bit encoding of `v`.
pub open spec fn pcm_lo(v: int) -> u8 {
    ((if v < 0 {
        v + 65536
    } else {
        v
    }) % 256) as u8
}

/// The high byte of the 16-bit encoding of `v`.
pub open spec fn pcm_hi(v: int) -> u8 {
    ((if v < 0 {
        v + 65536
    } else {
        v
    }) / 256) as u8
}

fn read_sample(lo: u8, hi: u8) -> (r: i32)
    ensures
        r == pcm_value(lo, hi),
        -32768 <= r <= 32767,
{
    let u: i32 = lo as i32 + 256 * (hi as i32);
    if u >= 32768 {
        u - 65536
    } else {
        u
    }
}

fn sample_bytes(v: i16) -> (r: (u8, u8))
    ensures
        r.0 == pcm_lo(v as int),
        r.1 == pcm_hi(v as int),
{
    let u: i32 = if v < 0 {
        v as i32 + 65536
    } else {
        v as i32
    };
    ((u % 256) as u8, (u / 256) as u8)
}

/// One step of the DC estimate towards `raw`: `(raw - dc) >> 11` added.
pub open spec fn next_dc(dc: i32, raw: int) -> i32 {
    (dc + ((raw - dc) as i32 >> 11u32)) as i32
}

proof fn lemma_shift_between(x: i32)
    ensures
        x >= 0 ==> 0 <= (x >> 11u32) <= x,
        x < 0 ==> x <= (x >> 11u32) <= 0,
{
    assert(x >= 0 ==> 0 <= (x >> 11u32) <= x) by (bit_vector);
    assert(x < 0 ==> x <= (x >> 11u32) <= 0) by (bit_vector);
}

/// The samples of `bytes` after the filter from the estimate `dc`, and the
/// estimate after them; a trailing odd byte is left as it was.
pub open spec fn filtered(bytes: Seq<u8>, dc: i32, n: int) -> (Seq<u8>, i32)
    decreases n,
{
    if n <= 0 {
        (bytes, dc)
    } else {
        let (earlier, dc0) = filtered(bytes, dc, n - 1);
        let i = 2 * (n - 1);
        let raw = pcm_value(bytes[i], bytes[i + 1]);
        let dc1 = next_dc(dc0, raw);
        let out = soft_limited(raw - dc1);
        (earlier.update(i, pcm_lo(out)).update(i + 1, pcm_hi(out)), dc1)
    }
}

/// The recording filter: a slow DC estimate removed from each sample, then
/// the soft limiter.
pub struct VoiceDenoiser {
    dc_estimate: i32,
}

impl VoiceDenoiser {
    /// A filter with its estimate at zero.
    pub fn new() -> (r: Self)
        ensures
            r.estimate() == 0,
    {
        VoiceDenoiser { dc_estimate: 0 }
    }

    /// The current DC estimate.
    pub closed spec fn estimate(&self) -> i32 {
        self.dc_estimate
    }

    /// Filters the 16-bit little-endian samples of `buffer` in place.
    pub fn process_pcm16_le(&mut self, buffer: &mut Vec<u8>)
        requires
            -32768 <= old(self).estimate() <= 32767,
        ensures
            -32768 <= final(self).estimate() <= 32767,
            final(buffer)@ == filtered(old(buffer)@, old(self).estimate(), (old(buffer)@.len() / 2) as int).0,
            final(self).estimate() == filtered(old(buffer)@, old(self).estimate(), (old(buffer)@.len() / 2) as int).1,
    {
        let ghost samples_in = buffer@;
        let ghost dc_start = self.dc_estimate;
        let pairs = buffer.len() / 2;
        let mut k: usize = 0;
        while k < pairs
            invariant
                pairs == samples_in.len() / 2,
                2 * pairs <= samples_in.len(),
                k <= pairs,
                buffer@.len() == samples_in.len(),
                buffer.len() == samples_in.len(),
                -32768 <= self.dc_estimate <= 32767,
                forall|j: int| 2 * k <= j < samples_in.len() ==> buffer@[j] == samples_in[j],
                buffer@ == filtered(samples_in, dc_start, k as int).0,
                self.dc_estimate == filtered(samples_in, dc_start, k as int).1,
            decreases pairs - k,
        {
            let i = 2 * k;
            let raw = read_sample(buffer[i], buffer[i + 1]);
            let diff: i32 = raw - self.dc_estimate;
            proof {
                lemma_shift_between(diff);
            }
            self.dc_estimate = self.dc_estimate + (diff >> 11u32);
            let centered: i32 = raw - self.dc_estimate;
            let limited = soft_limit_i16(centered);
            let (lo, hi) = sample_bytes(limited);
            buffer.set(i, lo);
            buffer.set(i + 1, hi);
            k += 1;
        }
    }
}

/// The little-endian bytes of a 32-bit value.
pub open spec fn le32(v: u32) -> Seq<u8> {
    seq![(v % 256) as u8, ((v / 256) % 256) as u8, ((v / 65536) % 256) as u8, (v / 16777216) as u8]
}

/// The little-endian bytes of a 16-bit value.
pub open spec fn le16(v: u16) -> Seq<u8> {
    seq![(v % 256) as u8, (v / 256) as u8]
}

/// The bytes of a four-character tag.
pub open spec fn tag(a: char, b: char, c: char, d: char) -> Seq<u8> {
    seq![a as u8, b as u8, c as u8, d as u8]
}

/// The RIFF size field: the data length plus the header, minus the first
/// eight bytes, saturating at the `u32` range.
pub open spec fn riff_size(data_bytes: u32) -> u32 {
    let total = data_bytes + 44;
    if total > u32::MAX {
        (u32::MAX - 8) as u32
    } else {
        (total - 8) as u32
    }
}

/// The 44-byte header of a mono 16-bit PCM WAV file holding `data_bytes`
/// bytes of samples at `sample_rate`.
pub open spec fn wav_header_bytes(data_bytes: u32, sample_rate: u32) -> Seq<u8> {
    tag('R', 'I', 'F', 'F') + le32(riff_size(data_bytes)) + tag('W', 'A', 'V', 'E') + tag(
        'f',
        'm',
        't',
        ' ',
    ) + le32(16) + le16(1) + le16(1) + le32(sample_rate) + le32((sample_rate * 2) as u32) + le16(
        2,
    ) + le16(16) + tag('d', 'a', 't', 'a') + le32(data_bytes)
}

fn push_le32(out: &mut Vec<u8>, v: u32)
    ensures
        final(out)@ == old(out)@ + le32(v),
{
    out.push((v % 256) as u8);
    out.push(((v / 256) % 256) as u8);
    out.push(((v / 65536) % 256) as u8);
    out.push((v / 16777216) as u8);
    assert(out@ =~= old(out)@ + le32(v));
}

fn push_le16(out: &mut Vec<u8>, v: u16)
    ensures
        final(out)@ == old(out)@ + le16(v),
{
    out.push((v % 256) as u8);
    out.push((v / 256) as u8);
    assert(out@ =~= old(out)@ + le16(v));
}

fn push_tag(out: &mut Vec<u8>, a: u8, b: u8, c: u8, d: u8)
    ensures
        final(out)@ == old(out)@ + seq![a, b, c, d],
{
    out.push(a);
    out.push(b);
    out.push(c);
    out.push(d);
    assert(out@ =~= old(out)@ + seq![a, b, c, d]);
}

pub fn wav_header(data_bytes: u32, sample_rate: u32) -> (r: Vec<u8>)
    requires
        sample_rate <= u32::MAX / 2,
    ensures
        r@ == wav_header_bytes(data_bytes, sample_rate),
        r@.len() == WAV_HEADER_BYTES,
{
    let file_size: u32 = if data_bytes > u32::MAX - 44 {
        u32::MAX - 8
    } else {
        data_bytes + 44 - 8
    };
    let mut header: Vec<u8> = Vec::new();
    push_tag(&mut header, 82, 73, 70, 70);
    push_le32(&mut header, file_size);
    push_tag(&mut header, 87, 65, 86, 69);
    push_tag(&mut header, 102, 109, 116, 32);
    push_le32(&mut header, 16);
    push_le16(&mut header, 1);
    push_le16(&mut header, 1);
    push_le32(&mut header, sample_rate);
    push_le32(&mut header, sample_rate * 2);
    push_le16(&mut header, 2);
    push_le16(&mut header, 16);
    push_tag(&mut header, 100, 97, 116, 97);
    push_le32(&mut header, data_bytes);
    assert(header@ =~= wav_header_bytes(data_bytes, sample_rate));
    header
}

/// Does a header start a WAV file: "RIFF" at 0 and "WAVE" at 8.
pub open spec fn is_wav_header_bytes(header: Seq<u8>) -> bool {
    header.len() >= 12 && header.subrange(0, 4) == tag('R', 'I', 'F', 'F') && header.subrange(8, 12)
        == tag('W', 'A', 'V', 'E')
}

pub fn is_wav_header(header: &Vec<u8>) -> (r: bool)
    ensures
        r == is_wav_header_bytes(header@),
{
    if header.len() < 12 {
        return false;
    }
    let ok = header[0] == 82 && header[1] == 73 && header[2] == 70 && header[3] == 70
        && header[8] == 87 && header[9] == 65 && header[10] == 86 && header[11] == 69;
    if ok {
        assert(header@.subrange(0, 4) =~= tag('R', 'I', 'F', 'F'));
        assert(header@.subrange(8, 12) =~= tag('W', 'A', 'V', 'E'));
    } else {
        proof {
            if header@.subrange(0, 4) == tag('R', 'I', 'F', 'F') && header@.subrange(8, 12) == tag(
                'W',
                'A',
                'V',
                'E',
            ) {
                assert(header@.subrange(0, 4)[0] == header[0]);
                assert(header@.subrange(0, 4)[1] == header[1]);
                assert(header@.subrange(0, 4)[2] == header[2]);
                assert(header@.subrange(0, 4)[3] == header[3]);
                assert(header@.subrange(8, 12)[0] == header[8]);
                assert(header@.subrange(8, 12)[1] == header[9]);
                assert(header@.subrange(8, 12)[2] == header[10]);
                assert(header@.subrange(8, 12)[3] == header[11]);
            }
        }
    }
    ok
}

/// What a recording has gathered: bytes of samples written, and reads that
/// timed out; both saturate.
#[derive(Debug, Clone, Copy, PartialEq, Eq, Structural)]
pub struct RecordingProgress {
    pub data_bytes: u32,
    pub read_timeouts: u32,
}

impl RecordingProgress {
    /// Nothing recorded yet.
    pub fn new() -> (r: Self)
        ensures
            r.data_bytes == 0,
            r.read_timeouts == 0,
    {
        RecordingProgress { data_bytes: 0, read_timeouts: 0 }
    }

    /// Counts `bytes_read` bytes written to the file.
    pub fn record_bytes(&mut self, bytes_read: u32)
        ensures
            final(self).data_bytes == (if old(self).data_bytes + bytes_read > u32::MAX {
                u32::MAX as int
            } else {
                old(self).data_bytes + bytes_read
            }),
            final(self).read_timeouts == old(self).read_timeouts,
    {
        self.data_bytes = self.data_bytes.saturating_add(bytes_read);
    }

    /// Counts a read that timed out.
    pub fn record_timeout(&mut self)
        ensures
            final(self).read_timeouts == (if old(self).read_timeouts == u32::MAX {
                u32::MAX as int
            } else {
                old(self).read_timeouts + 1
            }),
            final(self).data_bytes == old(self).data_bytes,
    {
        self.read_timeouts = self.read_timeouts.saturating_add(1);
    }
}

/// A sample written as two bytes reads back as the same sample.
pub proof fn law_sample_bytes_round_trip(v: int)
    requires
        -32768 <= v <= 32767,
    ensures
        pcm_value(pcm_lo(v), pcm_hi(v)) == v,
{
    let u = if v < 0 {
        v + 65536
    } else {
        v
    };
    assert(0 <= u < 65536);
    assert(u % 256 + 256 * (u / 256) == u);
    assert(0 <= u / 256 < 256);
}

/// The limiter passes samples up to the threshold unchanged and keeps every
/// sample in the 16-bit range.
pub proof fn law_soft_limit(sample: int)
    ensures
        -32768 <= soft_limited(sample) <= 32767,
        -AUDIO_SOFT_LIMIT_THRESHOLD <= sample <= AUDIO_SOFT_LIMIT_THRESHOLD ==> soft_limited(sample)
            == sample,
{
}

/// A header written for a recording is recognised as a WAV header when the
/// recording is played, and records the length of the samples.
pub proof fn law_written_header_is_wav(data_bytes: u32, sample_rate: u32)
    ensures
        is_wav_header_bytes(wav_header_bytes(data_bytes, sample_rate)),
        wav_header_bytes(data_bytes, sample_rate).len() == WAV_HEADER_BYTES,
        wav_header_bytes(data_bytes, sample_rate).subrange(40, 44) == le32(data_bytes),
{
    let h = wav_header_bytes(data_bytes, sample_rate);
    assert(h.subrange(0, 4) =~= tag('R', 'I', 'F', 'F'));
    assert(h.subrange(8, 12) =~= tag('W', 'A', 'V', 'E'));
    assert(h.subrange(40, 44) =~= le32(data_bytes));
}

} // verus!
