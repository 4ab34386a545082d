//! The batch transcription path: container framing, request fields,
//! response interpretation and chunked-file transcript assembly.
//!
//! An empty buffer short-circuits to an empty transcript without any
//! network call. A non-empty buffer is framed as a minimal WAV container
//! and uploaded as a multipart request with a model and response-format
//! field; the language field is included only when not auto-detect.
//! Files over the direct-upload cap are split externally into fixed-length
//! segments whose transcripts are joined with single spaces, in order.

use vstd::prelude::*;
use vstd::string::StrSliceExecFns;
use vstd::string::StringExecFns;
use crate::errors::TranscribeError;
use crate::text::str_eq;
use crate::wav::TARGET_SAMPLE_RATE;
use crate::wav::WAV_BITS_PER_SAMPLE;
use crate::wav::WAV_CHANNELS;
use crate::wav::create_wav_header;
use crate::wav::spec_wav_header;

verus! {

/// Largest file uploaded in one request; larger inputs are segmented.
pub const MAX_DIRECT_UPLOAD_SIZE: u64 = 25165824;

/// Seconds per segment when a large file is split.
pub const CHUNK_DURATION_SECONDS: u32 = 600;

/// Whether a file of this size must be split before upload.
pub fn needs_chunking(size: u64) -> (r: bool)
    ensures
        r == (size > MAX_DIRECT_UPLOAD_SIZE),
{
    size > MAX_DIRECT_UPLOAD_SIZE
}

/// Whether a language tag selects a concrete language: empty and "auto"
/// mean auto-detect, and the field is then omitted from the request.
pub open spec fn spec_language_included(lang: Seq<char>) -> bool {
    lang.len() > 0 && lang != "auto"@
}

/// One prepared batch upload: the framed payload and the multipart
/// fields sent with it.
pub struct BatchRequest {
    /// WAV-framed PCM payload, sent as the file part.
    pub body: Vec<u8>,
    /// Transcription model identifier field.
    pub model: String,
    /// Response format field.
    pub response_format: String,
    /// Language field; absent for auto-detect.
    pub language: Option<String>,
}

/// Prepare the upload for an aggregated PCM buffer: `None` for an empty
/// buffer (the transcript is empty and no network call is made),
/// otherwise the WAV-framed payload at the canonical format together with
/// the model, response-format and optional language fields.
pub fn build_batch_request(audio: &Vec<u8>, language: &str) -> (r: Option<BatchRequest>)
    requires
        audio@.len() + 36 <= u32::MAX,
    ensures
        (r matches Option::None) <==> audio@.len() == 0,
        r matches Option::Some(req) ==> {
            &&& req.body@ == spec_wav_header(
                audio@.len() as u32,
                TARGET_SAMPLE_RATE,
                WAV_CHANNELS,
                WAV_BITS_PER_SAMPLE,
            ) + audio@
            &&& req.model@ == "whisper-large-v3-turbo"@
            &&& req.response_format@ == "json"@
            &&& (req.language matches Option::Some(l) && l@ == language@)
                <==> spec_language_included(language@)
        },
{
    if audio.len() == 0 {
        return Option::None;
    }
    let mut body = create_wav_header(
        audio.len() as u32,
        TARGET_SAMPLE_RATE,
        WAV_CHANNELS,
        WAV_BITS_PER_SAMPLE,
    );
    let mut payload = audio.clone();
    body.append(&mut payload);
    let language_field: Option<String> = if language.unicode_len() == 0 || str_eq(
        language,
        "auto",
    ) {
        Option::None
    } else {
        Option::Some(language.to_owned())
    };
    Option::Some(
        BatchRequest {
            body,
            model: String::from_str("whisper-large-v3-turbo"),
            response_format: String::from_str("json"),
            language: language_field,
        },
    )
}

/// Interpret a batch response: a 2xx status with a parsed transcript is
/// the transcript; a 2xx body without one is a parse error; any other
/// status surfaces the status and body.
pub fn batch_outcome(status: u16, body: String, parsed_text: Option<String>) -> (r: Result<
    String,
    TranscribeError,
>)
    ensures
        200 <= status < 300 ==> match parsed_text {
            Option::Some(text) => r matches Result::Ok(t) && t == text,
            Option::None => r matches Result::Err(TranscribeError::Parse),
        },
        !(200 <= status < 300) ==> (r matches Result::Err(TranscribeError::Http {
            status: st,
            body: b,
        }) && st == status && b == body),
{
    if 200 <= status && status < 300 {
        match parsed_text {
            Option::Some(text) => Result::Ok(text),
            Option::None => Result::Err(TranscribeError::Parse),
        }
    } else {
        Result::Err(TranscribeError::Http { status, body })
    }
}

/// Per-segment transcripts joined with single spaces, in segment order.
pub open spec fn spec_join_spaced(parts: Seq<Seq<char>>) -> Seq<char>
    decreases parts.len(),
{
    if parts.len() == 0 {
        Seq::<char>::empty()
    } else if parts.len() == 1 {
        parts[0]
    } else {
        parts[0] + seq![' '] + spec_join_spaced(parts.drop_first())
    }
}

proof fn lemma_join_push(parts: Seq<Seq<char>>, x: Seq<char>)
    ensures
        spec_join_spaced(parts.push(x)) == if parts.len() == 0 {
            x
        } else {
            spec_join_spaced(parts) + seq![' '] + x
        },
    decreases parts.len(),
{
    if parts.len() == 0 {
        assert(parts.push(x)[0] == x);
    } else if parts.len() == 1 {
        assert(parts.push(x)[0] == parts[0]);
        assert(parts.push(x).drop_first() =~= seq![x]);
        assert(spec_join_spaced(seq![x]) == x);
    } else {
        assert(parts.push(x)[0] == parts[0]);
        assert(parts.push(x).drop_first() =~= parts.drop_first().push(x));
        lemma_join_push(parts.drop_first(), x);
        assert(parts[0] + seq![' '] + (spec_join_spaced(parts.drop_first()) + seq![' '] + x) =~= (
        parts[0] + seq![' '] + spec_join_spaced(parts.drop_first())) + seq![' '] + x);
    }
}

/// Join per-segment transcripts with single spaces, preserving segment
/// order: the final transcript of a chunked large file.
pub fn join_transcripts(parts: &Vec<String>) -> (r: String)
    ensures
        r@ == spec_join_spaced(parts@.map_values(|p: String| p@)),
{
    let ghost gparts = parts@.map_values(|p: String| p@);
    let mut acc = String::new();
    let mut i: usize = 0;
    while i < parts.len()
        invariant
            i <= parts@.len(),
            gparts == parts@.map_values(|p: String| p@),
            acc@ == spec_join_spaced(gparts.take(i as int)),
        decreases parts@.len() - i,
    {
        proof {
            reveal_strlit(" ");
            assert(" "@ =~= seq![' ']);
            assert(gparts.take(i + 1) =~= gparts.take(i as int).push(gparts[i as int]));
            lemma_join_push(gparts.take(i as int), gparts[i as int]);
        }
        if i > 0 {
            acc.append(" ");
        }
        acc.append(parts[i].as_str());
        i = i + 1;
    }
    proof {
        assert(gparts.take(parts@.len() as int) =~= gparts);
    }
    acc
}

} // verus!
