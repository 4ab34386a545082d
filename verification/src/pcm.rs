//! PCM16 encoding of fixed-point mono samples.
//!
//! A sample is an `i32` in fixed point with full scale `SAMPLE_SCALE`:
//! the value `v` stands for the real amplitude `v / 32768`. A full-scale
//! positive sample (amplitude 1.0) is `32768`, a full-scale negative one
//! (amplitude -1.0) is `-32768`. Encoding clamps to full scale, scales the
//! amplitude by 32767 for non-negative values and by 32768 for negative
//! values, truncating toward zero, which matches the asymmetric signed
//! 16-bit range and never wraps.

use vstd::prelude::*;
use vstd::bytes::spec_u16_to_le_bytes;
use vstd::bytes::spec_u16_from_le_bytes;
use vstd::bytes::u16_to_le_bytes;
use vstd::bytes::u16_from_le_bytes;

verus! {

/// Fixed-point full scale: this sample value stands for amplitude 1.0.
pub const SAMPLE_SCALE: i32 = 32768;

/// Amplitudes outside [-1.0, 1.0] are clamped to full scale before encoding.
pub open spec fn spec_clamp_sample(s: int) -> int {
    if s > 32768 {
        32768
    } else if s < -32768 {
        -32768
    } else {
        s
    }
}

/// The PCM16 value of a fixed-point sample: clamp, then scale the amplitude
/// by 32767 (non-negative) or 32768 (negative), truncating toward zero.
/// In fixed point with scale 32768 the negative case is the identity on the
/// clamped value.
pub open spec fn spec_sample_to_pcm16(s: int) -> int {
    let c = spec_clamp_sample(s);
    if c >= 0 {
        (c * 32767) / 32768
    } else {
        c
    }
}

pub proof fn lemma_pcm16_in_range(s: int)
    ensures
        -32768 <= spec_sample_to_pcm16(s) <= 32767,
{
    let c = spec_clamp_sample(s);
    if c >= 0 {
        assert((c * 32767) / 32768 <= 32767 && (c * 32767) / 32768 >= 0) by (nonlinear_arith)
            requires
                0 <= c <= 32768,
        ;
    }
}

/// Convert one fixed-point sample to its PCM16 value.
pub fn sample_to_pcm16(s: i32) -> (r: i16)
    ensures
        r as int == spec_sample_to_pcm16(s as int),
{
    let c: i32 = if s > SAMPLE_SCALE {
        SAMPLE_SCALE
    } else if s < -SAMPLE_SCALE {
        -SAMPLE_SCALE
    } else {
        s
    };
    proof {
        lemma_pcm16_in_range(s as int);
    }
    if c >= 0 {
        assert((c * 32767) / 32768 == spec_sample_to_pcm16(s as int));
        ((c * 32767) / 32768) as i16
    } else {
        c as i16
    }
}

/// The little-endian byte pair of one encoded sample.
pub open spec fn spec_pcm16_bytes(s: int) -> Seq<u8> {
    spec_u16_to_le_bytes(spec_sample_to_pcm16(s) as u16)
}

/// The PCM16 wire form of a block of samples: each sample's little-endian
/// byte pair, in sample order.
pub open spec fn spec_encode_pcm16(samples: Seq<i32>) -> Seq<u8>
    decreases samples.len(),
{
    if samples.len() == 0 {
        Seq::<u8>::empty()
    } else {
        spec_pcm16_bytes(samples[0] as int) + spec_encode_pcm16(samples.drop_first())
    }
}

pub proof fn lemma_encode_pcm16_len(samples: Seq<i32>)
    ensures
        spec_encode_pcm16(samples).len() == 2 * samples.len(),
    decreases samples.len(),
{
    vstd::bytes::lemma_auto_spec_u16_to_from_le_bytes();
    if samples.len() > 0 {
        lemma_encode_pcm16_len(samples.drop_first());
    }
}

pub proof fn lemma_encode_pcm16_push(samples: Seq<i32>, s: i32)
    ensures
        spec_encode_pcm16(samples.push(s)) == spec_encode_pcm16(samples) + spec_pcm16_bytes(
            s as int,
        ),
    decreases samples.len(),
{
    vstd::bytes::lemma_auto_spec_u16_to_from_le_bytes();
    if samples.len() == 0 {
        assert(samples.push(s)[0] == s);
        assert(samples.push(s).drop_first() =~= Seq::<i32>::empty());
        assert(spec_encode_pcm16(samples.push(s)) == spec_pcm16_bytes(s as int)
            + spec_encode_pcm16(Seq::<i32>::empty()));
        assert(spec_encode_pcm16(samples.push(s)) =~= spec_pcm16_bytes(s as int));
        assert(spec_encode_pcm16(samples) + spec_pcm16_bytes(s as int) =~= spec_pcm16_bytes(
            s as int,
        ));
    } else {
        assert(samples.push(s).drop_first() =~= samples.drop_first().push(s));
        lemma_encode_pcm16_push(samples.drop_first(), s);
        assert(spec_encode_pcm16(samples.push(s)) =~= spec_encode_pcm16(samples)
            + spec_pcm16_bytes(s as int));
    }
}

/// Encoding distributes over block boundaries: the bytes of a
/// concatenation are the concatenated bytes, so chunking audio into
/// blocks never changes the emitted stream, and the total emitted bytes
/// are twice the total samples.
pub proof fn lemma_encode_pcm16_concat(a: Seq<i32>, b: Seq<i32>)
    ensures
        spec_encode_pcm16(a + b) == spec_encode_pcm16(a) + spec_encode_pcm16(b),
    decreases b.len(),
{
    if b.len() == 0 {
        assert(a + b =~= a);
        assert(spec_encode_pcm16(b) =~= Seq::<u8>::empty());
        assert(spec_encode_pcm16(a) + spec_encode_pcm16(b) =~= spec_encode_pcm16(a));
    } else {
        assert(a + b.drop_last() =~= (a + b).drop_last());
        assert((a + b).last() == b.last());
        lemma_encode_pcm16_concat(a, b.drop_last());
        assert(a + b =~= (a + b.drop_last()).push(b.last()));
        assert(b =~= b.drop_last().push(b.last()));
        lemma_encode_pcm16_push(a + b.drop_last(), b.last());
        lemma_encode_pcm16_push(b.drop_last(), b.last());
        assert(spec_encode_pcm16(a) + (spec_encode_pcm16(b.drop_last()) + spec_pcm16_bytes(
            b.last() as int,
        )) =~= (spec_encode_pcm16(a) + spec_encode_pcm16(b.drop_last())) + spec_pcm16_bytes(
            b.last() as int,
        ));
    }
}

/// Encode a block of fixed-point samples as little-endian PCM16 bytes.
pub fn encode_pcm16(samples: &Vec<i32>) -> (r: Vec<u8>)
    ensures
        r@ == spec_encode_pcm16(samples@),
        r@.len() == 2 * samples@.len(),
{
    let mut out: Vec<u8> = Vec::new();
    let mut i: usize = 0;
    while i < samples.len()
        invariant
            i <= samples@.len(),
            out@ == spec_encode_pcm16(samples@.subrange(0, i as int)),
            out@.len() == 2 * i,
        decreases samples@.len() - i,
    {
        let v = sample_to_pcm16(samples[i]);
        let pair = u16_to_le_bytes(v as u16);
        proof {
            assert(samples@.subrange(0, i + 1) =~= samples@.subrange(0, i as int).push(
                samples@[i as int],
            ));
            lemma_encode_pcm16_push(samples@.subrange(0, i as int), samples@[i as int]);
            lemma_encode_pcm16_len(samples@.subrange(0, i + 1));
        }
        out.push(pair[0]);
        out.push(pair[1]);
        proof {
            assert(out@ =~= spec_encode_pcm16(samples@.subrange(0, i as int)) + spec_pcm16_bytes(
                samples@[i as int] as int,
            ));
        }
        i = i + 1;
    }
    proof {
        assert(samples@.subrange(0, samples@.len() as int) =~= samples@);
    }
    out
}

/// The fixed-point sample a stored PCM16 value stands for: the identity on
/// the signed 16-bit value, widened.
pub open spec fn spec_decode_pcm16(bytes: Seq<u8>) -> Seq<i32>
    decreases bytes.len(),
{
    if bytes.len() < 2 {
        Seq::<i32>::empty()
    } else {
        seq![spec_u16_from_le_bytes(bytes.take(2)) as i16 as i32] + spec_decode_pcm16(
            bytes.skip(2),
        )
    }
}

/// Decode little-endian PCM16 bytes back into fixed-point samples; a
/// trailing odd byte is dropped.
pub fn decode_pcm16(bytes: &Vec<u8>) -> (r: Vec<i32>)
    ensures
        r@ == spec_decode_pcm16(bytes@),
{
    let mut out: Vec<i32> = Vec::new();
    let mut i: usize = 0;
    proof {
        assert(bytes@.skip(0) =~= bytes@);
        assert(Seq::<i32>::empty() + spec_decode_pcm16(bytes@) =~= spec_decode_pcm16(bytes@));
    }
    while bytes.len() >= 2 && i <= bytes.len() - 2
        invariant
            i % 2 == 0,
            i <= bytes@.len(),
            spec_decode_pcm16(bytes@) == out@ + spec_decode_pcm16(bytes@.skip(i as int)),
        decreases bytes@.len() - i,
    {
        let mut pair: Vec<u8> = Vec::new();
        pair.push(bytes[i]);
        pair.push(bytes[i + 1]);
        let v = u16_from_le_bytes(pair.as_slice());
        proof {
            assert(pair@ =~= bytes@.skip(i as int).take(2));
            assert(bytes@.skip(i as int).skip(2) =~= bytes@.skip(i + 2));
            assert(spec_decode_pcm16(bytes@.skip(i as int)) == seq![
                spec_u16_from_le_bytes(bytes@.skip(i as int).take(2)) as i16 as i32,
            ] + spec_decode_pcm16(bytes@.skip(i + 2)));
        }
        out.push(v as i16 as i32);
        proof {
            assert(spec_decode_pcm16(bytes@) =~= out@ + spec_decode_pcm16(bytes@.skip(i + 2)));
        }
        i = i + 2;
    }
    proof {
        assert(spec_decode_pcm16(bytes@.skip(i as int)).len() == 0);
        assert(out@ =~= out@ + spec_decode_pcm16(bytes@.skip(i as int)));
    }
    out
}

} // verus!
