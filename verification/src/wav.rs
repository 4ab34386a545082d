//! Minimal RIFF/WAVE container framing for a PCM payload.
//!
//! The 44-byte header declares PCM format tag 1, the channel count, sample
//! rate, byte rate, block align and bits per sample; its data-chunk size
//! field equals the payload length and the outer RIFF size equals the
//! payload length plus 36.

use vstd::prelude::*;
use vstd::bytes::spec_u16_to_le_bytes;
use vstd::bytes::spec_u32_to_le_bytes;
use vstd::bytes::spec_u32_from_le_bytes;
use vstd::bytes::lemma_auto_spec_u16_to_from_le_bytes;
use vstd::bytes::lemma_auto_spec_u32_to_from_le_bytes;
use vstd::bytes::u16_to_le_bytes;
use vstd::bytes::u32_to_le_bytes;

verus! {

/// Fixed target rate of the canonical PCM stream handed to the backends.
pub const TARGET_SAMPLE_RATE: u32 = 24000;

/// The canonical stream is mono.
pub const WAV_CHANNELS: u16 = 1;

/// The canonical stream is 16-bit.
pub const WAV_BITS_PER_SAMPLE: u16 = 16;

/// Bytes consumed per second of audio at the declared format.
pub open spec fn spec_byte_rate(sample_rate: int, channels: int, bits_per_sample: int) -> int {
    sample_rate * channels * bits_per_sample / 8
}

/// Bytes per sample frame at the declared format.
pub open spec fn spec_block_align(channels: int, bits_per_sample: int) -> int {
    channels * bits_per_sample / 8
}

/// The exact 44 header bytes for a payload of `data_len` bytes: "RIFF",
/// outer size `data_len + 36`, "WAVE", the 16-byte "fmt " chunk with PCM
/// format tag 1, then "data" and the payload length.
pub open spec fn spec_wav_header(
    data_len: u32,
    sample_rate: u32,
    channels: u16,
    bits_per_sample: u16,
) -> Seq<u8> {
    seq![82u8, 73u8, 70u8, 70u8] + spec_u32_to_le_bytes((data_len + 36) as u32) + seq![
        87u8,
        65u8,
        86u8,
        69u8,
        102u8,
        109u8,
        116u8,
        32u8,
    ] + spec_u32_to_le_bytes(16u32) + spec_u16_to_le_bytes(1u16) + spec_u16_to_le_bytes(channels)
        + spec_u32_to_le_bytes(sample_rate) + spec_u32_to_le_bytes(
        spec_byte_rate(sample_rate as int, channels as int, bits_per_sample as int) as u32,
    ) + spec_u16_to_le_bytes(spec_block_align(channels as int, bits_per_sample as int) as u16)
        + spec_u16_to_le_bytes(bits_per_sample) + seq![100u8, 97u8, 116u8, 97u8]
        + spec_u32_to_le_bytes(data_len)
}

/// Build the 44-byte container header declaring the format and payload size.
pub fn create_wav_header(
    data_len: u32,
    sample_rate: u32,
    channels: u16,
    bits_per_sample: u16,
) -> (header: Vec<u8>)
    requires
        data_len + 36 <= u32::MAX,
        sample_rate * channels <= u32::MAX,
        sample_rate * channels * bits_per_sample <= u32::MAX,
        channels * bits_per_sample <= u16::MAX,
    ensures
        header@ == spec_wav_header(data_len, sample_rate, channels, bits_per_sample),
        header@.len() == 44,
{
    proof {
        lemma_auto_spec_u16_to_from_le_bytes();
        lemma_auto_spec_u32_to_from_le_bytes();
    }
    let byte_rate: u32 = sample_rate * (channels as u32) * (bits_per_sample as u32) / 8;
    let block_align: u16 = channels * bits_per_sample / 8;
    let chunk_size: u32 = 36 + data_len;

    let mut header: Vec<u8> = Vec::new();
    header.push(82);
    header.push(73);
    header.push(70);
    header.push(70);
    let mut part = u32_to_le_bytes(chunk_size);
    header.append(&mut part);
    header.push(87);
    header.push(65);
    header.push(86);
    header.push(69);
    header.push(102);
    header.push(109);
    header.push(116);
    header.push(32);
    let mut part = u32_to_le_bytes(16);
    header.append(&mut part);
    let mut part = u16_to_le_bytes(1);
    header.append(&mut part);
    let mut part = u16_to_le_bytes(channels);
    header.append(&mut part);
    let mut part = u32_to_le_bytes(sample_rate);
    header.append(&mut part);
    let mut part = u32_to_le_bytes(byte_rate);
    header.append(&mut part);
    let mut part = u16_to_le_bytes(block_align);
    header.append(&mut part);
    let mut part = u16_to_le_bytes(bits_per_sample);
    header.append(&mut part);
    header.push(100);
    header.push(97);
    header.push(116);
    header.push(97);
    let mut part = u32_to_le_bytes(data_len);
    header.append(&mut part);
    proof {
        assert(header@ =~= spec_wav_header(data_len, sample_rate, channels, bits_per_sample));
    }
    header
}

/// For a payload of `data_len` bytes, the outer RIFF size field (bytes 4-7,
/// little-endian) reads `data_len + 36` and the data-chunk size field
/// (bytes 40-43) reads `data_len`.
pub proof fn lemma_wav_header_size_fields(
    data_len: u32,
    sample_rate: u32,
    channels: u16,
    bits_per_sample: u16,
)
    requires
        data_len + 36 <= u32::MAX,
    ensures
        spec_u32_from_le_bytes(
            spec_wav_header(data_len, sample_rate, channels, bits_per_sample).subrange(4, 8),
        ) == data_len + 36,
        spec_u32_from_le_bytes(
            spec_wav_header(data_len, sample_rate, channels, bits_per_sample).subrange(40, 44),
        ) == data_len,
{
    lemma_auto_spec_u16_to_from_le_bytes();
    lemma_auto_spec_u32_to_from_le_bytes();
    let h = spec_wav_header(data_len, sample_rate, channels, bits_per_sample);
    assert(h.subrange(4, 8) =~= spec_u32_to_le_bytes((data_len + 36) as u32));
    assert(h.subrange(40, 44) =~= spec_u32_to_le_bytes(data_len));
}

} // verus!
