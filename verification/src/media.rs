//! Media-file checks for the batch path: file-extension parsing, the
//! supported audio and video formats, URL validation for the external
//! downloader, and the fixed audio-encoding arguments handed to the
//! external encoder.

use vstd::prelude::*;
use vstd::string::StrSliceExecFns;
use vstd::string::StringExecFns;
use crate::text::eq_ignore_ascii_case;
use crate::text::match_at;
use crate::text::spec_match_at;
use crate::text::spec_lower;

verus! {

/// The rightmost position of `c` in `s`, or -1 if absent.
pub open spec fn spec_rlast(s: Seq<char>, c: char) -> int
    decreases s.len(),
{
    if s.len() == 0 {
        -1
    } else if s[s.len() - 1] == c {
        s.len() - 1
    } else {
        spec_rlast(s.drop_last(), c)
    }
}

proof fn lemma_rlast_at(s: Seq<char>, c: char, i: int)
    requires
        0 <= i < s.len(),
        s[i] == c,
        forall|j: int| i < j < s.len() ==> s[j] != c,
    ensures
        spec_rlast(s, c) == i,
    decreases s.len(),
{
    if i == s.len() - 1 {
    } else {
        lemma_rlast_at(s.drop_last(), c, i);
    }
}

proof fn lemma_rlast_none(s: Seq<char>, c: char)
    requires
        forall|j: int| 0 <= j < s.len() ==> s[j] != c,
    ensures
        spec_rlast(s, c) == -1,
    decreases s.len(),
{
    if s.len() > 0 {
        lemma_rlast_none(s.drop_last(), c);
    }
}

/// The extension of a path: the part of the file name after its last
/// dot, provided that dot is not the name's leading character; the file
/// name is what follows the last path separator.
pub open spec fn spec_extension(s: Seq<char>) -> Option<Seq<char>> {
    let name_start = spec_rlast(s, '/') + 1;
    let dot = spec_rlast(s, '.');
    if dot > name_start {
        Option::Some(s.skip(dot + 1))
    } else {
        Option::None
    }
}

/// Find the rightmost position of `c` in `path`, if any.
fn rfind_char(path: &str, c: char) -> (r: Option<usize>)
    ensures
        match r {
            Option::Some(i) => i < path@.len() && spec_rlast(path@, c) == i,
            Option::None => spec_rlast(path@, c) == -1,
        },
{
    let len = path.unicode_len();
    let mut i: usize = len;
    while i > 0
        invariant
            i <= len == path@.len(),
            forall|j: int| i <= j < len ==> path@[j] != c,
        decreases i,
    {
        i = i - 1;
        if path.get_char(i) == c {
            proof {
                lemma_rlast_at(path@, c, i as int);
            }
            return Option::Some(i);
        }
    }
    proof {
        lemma_rlast_none(path@, c);
    }
    Option::None
}

/// The file extension of a path, if it has one; comparisons against the
/// supported formats ignore ASCII case.
pub fn get_extension(path: &str) -> (r: Option<String>)
    ensures
        match r {
            Option::Some(e) => spec_extension(path@) matches Option::Some(x) && e@ == x,
            Option::None => spec_extension(path@) matches Option::None,
        },
{
    let len = path.unicode_len();
    let name_start: usize = match rfind_char(path, '/') {
        Option::Some(i) => i + 1,
        Option::None => 0,
    };
    match rfind_char(path, '.') {
        Option::Some(dot) => {
            if dot > name_start {
                let ext = path.substring_char(dot + 1, len);
                proof {
                    assert(path@.subrange(dot + 1, len as int) =~= path@.skip(dot + 1));
                }
                Option::Some(ext.to_owned())
            } else {
                Option::None
            }
        },
        Option::None => Option::None,
    }
}

/// Whether an extension matches one of a family, ignoring ASCII case.
pub open spec fn spec_ext_is(e: Seq<char>, lit: Seq<char>) -> bool {
    spec_lower(e) == spec_lower(lit)
}

/// The audio formats the batch endpoint accepts directly.
pub open spec fn spec_is_supported_audio(s: Seq<char>) -> bool {
    match spec_extension(s) {
        Option::Some(e) => spec_ext_is(e, "mp3"@) || spec_ext_is(e, "wav"@) || spec_ext_is(
            e,
            "m4a"@,
        ) || spec_ext_is(e, "ogg"@) || spec_ext_is(e, "flac"@) || spec_ext_is(e, "webm"@),
        Option::None => false,
    }
}

/// The video formats whose audio is first extracted.
pub open spec fn spec_is_supported_video(s: Seq<char>) -> bool {
    match spec_extension(s) {
        Option::Some(e) => spec_ext_is(e, "mp4"@) || spec_ext_is(e, "mov"@) || spec_ext_is(
            e,
            "avi"@,
        ) || spec_ext_is(e, "mkv"@) || spec_ext_is(e, "webm"@),
        Option::None => false,
    }
}

/// Whether the file is a supported audio format.
pub fn is_supported_audio(path: &str) -> (r: bool)
    ensures
        r == spec_is_supported_audio(path@),
{
    match get_extension(path) {
        Option::Some(e) => {
            let ext = e.as_str();
            eq_ignore_ascii_case(ext, "mp3") || eq_ignore_ascii_case(ext, "wav")
                || eq_ignore_ascii_case(ext, "m4a") || eq_ignore_ascii_case(ext, "ogg")
                || eq_ignore_ascii_case(ext, "flac") || eq_ignore_ascii_case(ext, "webm")
        },
        Option::None => false,
    }
}

/// Whether the file is a supported video format (audio is extracted
/// first).
pub fn is_supported_video(path: &str) -> (r: bool)
    ensures
        r == spec_is_supported_video(path@),
{
    match get_extension(path) {
        Option::Some(e) => {
            let ext = e.as_str();
            eq_ignore_ascii_case(ext, "mp4") || eq_ignore_ascii_case(ext, "mov")
                || eq_ignore_ascii_case(ext, "avi") || eq_ignore_ascii_case(ext, "mkv")
                || eq_ignore_ascii_case(ext, "webm")
        },
        Option::None => false,
    }
}

/// Whether the file can be transcribed at all: a supported audio or
/// video format.
pub fn is_supported_format(path: &str) -> (r: bool)
    ensures
        r == (spec_is_supported_audio(path@) || spec_is_supported_video(path@)),
{
    is_supported_audio(path) || is_supported_video(path)
}

/// The MIME type an upload declares for a file: by its extension,
/// ignoring ASCII case, with a generic audio type as the fallback.
pub open spec fn spec_mime_for(s: Seq<char>) -> Seq<char> {
    match spec_extension(s) {
        Option::Some(e) => if spec_ext_is(e, "mp3"@) {
            "audio/mpeg"@
        } else if spec_ext_is(e, "wav"@) {
            "audio/wav"@
        } else if spec_ext_is(e, "m4a"@) {
            "audio/mp4"@
        } else if spec_ext_is(e, "ogg"@) {
            "audio/ogg"@
        } else if spec_ext_is(e, "flac"@) {
            "audio/flac"@
        } else if spec_ext_is(e, "webm"@) {
            "audio/webm"@
        } else {
            "audio/mpeg"@
        },
        Option::None => "audio/mpeg"@,
    }
}

/// The MIME type to declare when uploading this file.
pub fn mime_for_path(path: &str) -> (m: String)
    ensures
        m@ == spec_mime_for(path@),
{
    match get_extension(path) {
        Option::Some(e) => {
            let ext = e.as_str();
            if eq_ignore_ascii_case(ext, "mp3") {
                String::from_str("audio/mpeg")
            } else if eq_ignore_ascii_case(ext, "wav") {
                String::from_str("audio/wav")
            } else if eq_ignore_ascii_case(ext, "m4a") {
                String::from_str("audio/mp4")
            } else if eq_ignore_ascii_case(ext, "ogg") {
                String::from_str("audio/ogg")
            } else if eq_ignore_ascii_case(ext, "flac") {
                String::from_str("audio/flac")
            } else if eq_ignore_ascii_case(ext, "webm") {
                String::from_str("audio/webm")
            } else {
                String::from_str("audio/mpeg")
            }
        },
        Option::None => String::from_str("audio/mpeg"),
    }
}

/// A word character of a video identifier: a letter, digit, underscore
/// or hyphen.
pub open spec fn spec_is_word_char(c: char) -> bool {
    (97 <= c as u32 <= 122) || (65 <= c as u32 <= 90) || (48 <= c as u32 <= 57) || c == '_' || c
        == '-'
}

fn is_word_char(c: char) -> (r: bool)
    ensures
        r == spec_is_word_char(c),
{
    let v = c as u32;
    (97 <= v && v <= 122) || (65 <= v && v <= 90) || (48 <= v && v <= 57) || c == '_' || c == '-'
}

/// The start of the host part: past an optional scheme, then past an
/// optional "www.".
pub open spec fn spec_url_host_start(s: Seq<char>) -> int {
    let after_scheme: int = if spec_match_at(s, 0, "https://"@) {
        8
    } else if spec_match_at(s, 0, "http://"@) {
        7
    } else {
        0
    };
    if spec_match_at(s, after_scheme, "www."@) {
        after_scheme + 4
    } else {
        after_scheme
    }
}

/// A well-formed video URL: an optional scheme and optional "www.",
/// then a watch, shorts or short-host path, then at least one word
/// character of the video identifier; trailing characters are free.
pub open spec fn spec_is_valid_youtube_url(s: Seq<char>) -> bool {
    let h = spec_url_host_start(s);
    ||| (spec_match_at(s, h, "youtube.com/watch?v="@) && h + 20 < s.len() && spec_is_word_char(
        s[h + 20],
    ))
    ||| (spec_match_at(s, h, "youtube.com/shorts/"@) && h + 19 < s.len() && spec_is_word_char(
        s[h + 19],
    ))
    ||| (spec_match_at(s, h, "youtu.be/"@) && h + 9 < s.len() && spec_is_word_char(s[h + 9]))
}

/// Validate a video URL for the external downloader: standard watch
/// URLs, short URLs and shorts.
pub fn is_valid_youtube_url(url: &str) -> (r: bool)
    ensures
        r == spec_is_valid_youtube_url(url@),
{
    proof {
        reveal_strlit("https://");
        reveal_strlit("http://");
        reveal_strlit("www.");
        reveal_strlit("youtube.com/watch?v=");
        reveal_strlit("youtube.com/shorts/");
        reveal_strlit("youtu.be/");
        assert("https://"@.len() == 8);
        assert("http://"@.len() == 7);
        assert("www."@.len() == 4);
        assert("youtube.com/watch?v="@.len() == 20);
        assert("youtube.com/shorts/"@.len() == 19);
        assert("youtu.be/"@.len() == 9);
    }
    let len = url.unicode_len();
    let mut off: usize = 0;
    if match_at(url, 0, "https://") {
        off = 8;
    } else if match_at(url, 0, "http://") {
        off = 7;
    }
    if match_at(url, off, "www.") {
        off = off + 4;
    }
    proof {
        assert(off as int == spec_url_host_start(url@));
    }
    (match_at(url, off, "youtube.com/watch?v=") && off + 20 < len && is_word_char(
        url.get_char(off + 20),
    )) || (match_at(url, off, "youtube.com/shorts/") && off + 19 < len && is_word_char(
        url.get_char(off + 19),
    )) || (match_at(url, off, "youtu.be/") && off + 9 < len && is_word_char(url.get_char(off + 9)))
}

/// Status of the external downloader and encoder tools.
#[derive(Debug, Clone)]
pub struct DependencyStatus {
    /// Whether the downloader is installed.
    pub yt_dlp_installed: bool,
    /// Whether the encoder is installed.
    pub ffmpeg_installed: bool,
    /// The downloader's reported version, when installed.
    pub yt_dlp_version: Option<String>,
    /// The encoder's reported version, when installed.
    pub ffmpeg_version: Option<String>,
}

/// Assemble the dependency report from the two probes' results.
pub fn check_dependencies(yt_dlp: (bool, Option<String>), ffmpeg: (bool, Option<String>)) -> (r:
    DependencyStatus)
    ensures
        r.yt_dlp_installed == yt_dlp.0,
        r.yt_dlp_version == yt_dlp.1,
        r.ffmpeg_installed == ffmpeg.0,
        r.ffmpeg_version == ffmpeg.1,
{
    DependencyStatus {
        yt_dlp_installed: yt_dlp.0,
        ffmpeg_installed: ffmpeg.0,
        yt_dlp_version: yt_dlp.1,
        ffmpeg_version: ffmpeg.1,
    }
}

/// The fixed audio-encoding arguments handed to the external encoder:
/// mono MP3 at the canonical rate, quality level 2.
pub fn get_audio_encoding_args() -> (args: Vec<String>)
    ensures
        args@.len() == 8,
        args@[0]@ == "-acodec"@,
        args@[1]@ == "libmp3lame"@,
        args@[2]@ == "-ar"@,
        args@[3]@ == "24000"@,
        args@[4]@ == "-ac"@,
        args@[5]@ == "1"@,
        args@[6]@ == "-q:a"@,
        args@[7]@ == "2"@,
{
    let mut args: Vec<String> = Vec::new();
    args.push(String::from_str("-acodec"));
    args.push(String::from_str("libmp3lame"));
    args.push(String::from_str("-ar"));
    args.push(String::from_str("24000"));
    args.push(String::from_str("-ac"));
    args.push(String::from_str("1"));
    args.push(String::from_str("-q:a"));
    args.push(String::from_str("2"));
    args
}

} // verus!
