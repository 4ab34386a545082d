use dictato::pcm::decode_pcm16;
use dictato::pcm::encode_pcm16;
use dictato::pcm::sample_to_pcm16;
use dictato::pcm::SAMPLE_SCALE;
use dictato::wav::create_wav_header;

fn le32(bytes: &[u8]) -> u32 {
    u32::from_le_bytes([bytes[0], bytes[1], bytes[2], bytes[3]])
}

fn le16(bytes: &[u8]) -> u16 {
    u16::from_le_bytes([bytes[0], bytes[1]])
}

#[test]
fn pcm16_full_scale_mapping() {
    assert_eq!(sample_to_pcm16(SAMPLE_SCALE), 32767);
    assert_eq!(sample_to_pcm16(-SAMPLE_SCALE), -32768);
    assert_eq!(sample_to_pcm16(0), 0);
}

#[test]
fn pcm16_clamps_out_of_range() {
    assert_eq!(sample_to_pcm16(100000), 32767);
    assert_eq!(sample_to_pcm16(i32::MAX), 32767);
    assert_eq!(sample_to_pcm16(-100000), -32768);
    assert_eq!(sample_to_pcm16(i32::MIN), -32768);
}

#[test]
fn pcm16_truncates_toward_zero() {
    // half scale: 16384 * 32767 / 32768 truncates to 16383
    assert_eq!(sample_to_pcm16(16384), 16383);
    assert_eq!(sample_to_pcm16(-5), -5);
    assert_eq!(sample_to_pcm16(1), 0);
}

#[test]
fn encode_pcm16_little_endian() {
    let samples = vec![0i32, SAMPLE_SCALE, -SAMPLE_SCALE];
    let bytes = encode_pcm16(&samples);
    assert_eq!(bytes, vec![0x00, 0x00, 0xFF, 0x7F, 0x00, 0x80]);
}

#[test]
fn decode_pcm16_reads_pairs() {
    let samples = decode_pcm16(&vec![0xFF, 0x7F, 0x00, 0x80, 0x07]);
    assert_eq!(samples, vec![32767, -32768]);
}

#[test]
fn wav_header_size_fields() {
    let d: u32 = 1000;
    let h = create_wav_header(d, 24000, 1, 16);
    assert_eq!(h.len(), 44);
    assert_eq!(le32(&h[4..8]), d + 36);
    assert_eq!(le32(&h[40..44]), d);
}

#[test]
fn wav_header_layout() {
    let h = create_wav_header(512, 24000, 1, 16);
    assert_eq!(&h[0..4], b"RIFF");
    assert_eq!(&h[8..12], b"WAVE");
    assert_eq!(&h[12..16], b"fmt ");
    assert_eq!(le32(&h[16..20]), 16);
    assert_eq!(le16(&h[20..22]), 1); // PCM format tag
    assert_eq!(le16(&h[22..24]), 1); // channels
    assert_eq!(le32(&h[24..28]), 24000); // sample rate
    assert_eq!(le32(&h[28..32]), 48000); // byte rate
    assert_eq!(le16(&h[32..34]), 2); // block align
    assert_eq!(le16(&h[34..36]), 16); // bits per sample
    assert_eq!(&h[36..40], b"data");
}
