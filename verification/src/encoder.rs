use vstd::prelude::*;

verus! {

/// Largest sample count whose data size still fits the container's 32-bit
/// size fields: 2 * count + 36 must not exceed u32::MAX.
pub const MAX_SAMPLE_COUNT: usize = 2147483629;

/// Little-endian byte pair of a 16-bit value.
pub open spec fn le16(v: u16) -> Seq<u8> {
    seq![(v & 0xff) as u8, ((v >> 8) & 0xff) as u8]
}

/// Little-endian byte quadruple of a 32-bit value.
pub open spec fn le32(v: u32) -> Seq<u8> {
    seq![
        (v & 0xff) as u8,
        ((v >> 8) & 0xff) as u8,
        ((v >> 16) & 0xff) as u8,
        ((v >> 24) & 0xff) as u8,
    ]
}

/// Two's-complement 16-bit pattern of a signed sample.
pub open spec fn sample_bits(s: i16) -> u16 {
    if s >= 0 {
        s as u16
    } else {
        (s + 0x10000) as u16
    }
}

/// Bytes of one sample in the payload: its bit pattern, little-endian.
pub open spec fn sample_bytes(s: i16) -> Seq<u8> {
    le16(sample_bits(s))
}

/// Payload of the container: each sample's two bytes, in encounter order.
pub open spec fn payload_bytes(samples: Seq<i16>) -> Seq<u8>
    decreases samples.len(),
{
    if samples.len() == 0 {
        Seq::empty()
    } else {
        payload_bytes(samples.drop_last()) + sample_bytes(samples.last())
    }
}

/// The 44-byte chunked header for a mono, 16 kHz, 16-bit integer PCM
/// container holding `n` samples, little-endian throughout:
/// outer magic "RIFF", total size minus 8, format magic "WAVE",
/// sub-chunk id "fmt " with size 16, audio format 1 (integer PCM),
/// 1 channel, sample rate 16000, byte rate 32000, block align 2,
/// 16 bits per sample, data chunk id "data", data size 2 * n.
pub open spec fn wav_header(n: nat) -> Seq<u8> {
    seq![0x52u8, 0x49u8, 0x46u8, 0x46u8] + le32((36 + 2 * n) as u32)
        + seq![0x57u8, 0x41u8, 0x56u8, 0x45u8] + seq![0x66u8, 0x6du8, 0x74u8, 0x20u8] + le32(16)
        + le16(1) + le16(1) + le32(16000) + le32(32000) + le16(2) + le16(16)
        + seq![0x64u8, 0x61u8, 0x74u8, 0x61u8] + le32((2 * n) as u32)
}

/// The whole container: header followed by the sample payload.
pub open spec fn wav_bytes(samples: Seq<i16>) -> Seq<u8> {
    wav_header(samples.len()) + payload_bytes(samples)
}

/// The payload takes exactly two bytes per sample.
pub proof fn lemma_payload_len(samples: Seq<i16>)
    ensures
        payload_bytes(samples).len() == 2 * samples.len(),
    decreases samples.len(),
{
    if samples.len() > 0 {
        lemma_payload_len(samples.drop_last());
    }
}

/// For every finite sample sequence within the container's size limit, the
/// encoding starts with the outer magic "RIFF", carries the format magic
/// "WAVE" at offset 8 and the sub-chunk id "fmt " at offset 12, and is at
/// least 44 bytes long.
pub proof fn lemma_encoding_container_markers(samples: Seq<i16>)
    requires
        samples.len() <= MAX_SAMPLE_COUNT,
    ensures
        wav_bytes(samples).len() == 44 + 2 * samples.len(),
        wav_bytes(samples).len() >= 44,
        wav_bytes(samples).subrange(0, 4) =~= seq![0x52u8, 0x49u8, 0x46u8, 0x46u8],
        wav_bytes(samples).subrange(8, 12) =~= seq![0x57u8, 0x41u8, 0x56u8, 0x45u8],
        wav_bytes(samples).subrange(12, 16) =~= seq![0x66u8, 0x6du8, 0x74u8, 0x20u8],
{
    lemma_payload_len(samples);
    assert(wav_header(samples.len()).len() == 44);
}

fn push_le16(buf: &mut Vec<u8>, v: u16)
    ensures
        final(buf)@ == old(buf)@ + le16(v),
{
    let ghost pre = buf@;
    assert((v & 0xff) < 256 && ((v >> 8) & 0xff) < 256) by (bit_vector);
    buf.push((v & 0xff) as u8);
    buf.push(((v >> 8) & 0xff) as u8);
    assert(buf@ =~= pre + le16(v));
}

fn push_le32(buf: &mut Vec<u8>, v: u32)
    ensures
        final(buf)@ == old(buf)@ + le32(v),
{
    let ghost pre = buf@;
    assert((v & 0xff) < 256 && ((v >> 8) & 0xff) < 256 && ((v >> 16) & 0xff) < 256 && ((v
        >> 24) & 0xff) < 256) by (bit_vector);
    buf.push((v & 0xff) as u8);
    buf.push(((v >> 8) & 0xff) as u8);
    buf.push(((v >> 16) & 0xff) as u8);
    buf.push(((v >> 24) & 0xff) as u8);
    assert(buf@ =~= pre + le32(v));
}

fn sample_to_bits(s: i16) -> (r: u16)
    ensures
        r == sample_bits(s),
{
    if s >= 0 {
        s as u16
    } else {
        ((s as i32) + 0x10000) as u16
    }
}

/// Deterministic conversion of quantized samples into the lossless PCM
/// container of the layout above: a 44-byte header followed by the samples
/// in encounter order. Never fails for an input within the container's
/// size limit; the empty input yields a header-only container.
pub fn encode(samples: &Vec<i16>) -> (r: Vec<u8>)
    requires
        samples@.len() <= MAX_SAMPLE_COUNT,
    ensures
        r@ == wav_bytes(samples@),
        r@.len() == 44 + 2 * samples@.len(),
{
    let n = samples.len();
    let data_size: u32 = (2 * (n as u64)) as u32;
    let chunk_size: u32 = 36 + data_size;
    let mut buf: Vec<u8> = Vec::new();
    buf.push(0x52);
    buf.push(0x49);
    buf.push(0x46);
    buf.push(0x46);
    push_le32(&mut buf, chunk_size);
    buf.push(0x57);
    buf.push(0x41);
    buf.push(0x56);
    buf.push(0x45);
    buf.push(0x66);
    buf.push(0x6d);
    buf.push(0x74);
    buf.push(0x20);
    push_le32(&mut buf, 16);
    push_le16(&mut buf, 1);
    push_le16(&mut buf, 1);
    push_le32(&mut buf, 16000);
    push_le32(&mut buf, 32000);
    push_le16(&mut buf, 2);
    push_le16(&mut buf, 16);
    buf.push(0x64);
    buf.push(0x61);
    buf.push(0x74);
    buf.push(0x61);
    push_le32(&mut buf, data_size);
    assert(buf@ =~= wav_header(samples@.len()));
    let mut i: usize = 0;
    while i < n
        invariant
            i <= n,
            n == samples@.len(),
            buf@ == wav_header(samples@.len()) + payload_bytes(samples@.take(i as int)),
        decreases n - i,
    {
        let bits = sample_to_bits(samples[i]);
        push_le16(&mut buf, bits);
        proof {
            assert(samples@.take(i + 1).drop_last() =~= samples@.take(i as int));
            assert(samples@.take(i + 1).last() == samples@[i as int]);
        }
        i = i + 1;
    }
    proof {
        assert(samples@.take(n as int) =~= samples@);
        lemma_payload_len(samples@);
    }
    buf
}

} // verus!
