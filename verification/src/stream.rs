//! The duplex streaming transcription session.
//!
//! After open, one session-configuration message declares the modalities,
//! transcription model and voice-activity mode; audio chunks are then
//! base64-encoded and framed as append messages. Incoming events grow an
//! accumulated transcript: a completed segment appends its fragment plus a
//! trailing space, a delta appends in place, and each growth republishes
//! the trimmed accumulator. The transcript only grows; close returns it
//! trimmed.

use vstd::prelude::*;
use vstd::string::StringExecFns;
use base64::Engine;
use crate::text::spec_trim;
use crate::text::str_eq;
use crate::text::trim;

verus! {

/// What the standard base64 alphabet encodes a byte sequence to; the
/// result depends on the bytes alone.
pub uninterp spec fn base64_of(bytes: Seq<u8>) -> Seq<char>;

/// Relies on base64's STANDARD engine (RFC 4648 alphabet, padded): the
/// encoding is a pure function of the input bytes, four characters per
/// three-byte group.
#[verifier::external_body]
fn base64_encode(bytes: &Vec<u8>) -> (r: String)
    ensures
        r@ == base64_of(bytes@),
        r@.len() == 4 * ((bytes@.len() + 2) / 3),
{
    base64::engine::general_purpose::STANDARD.encode(bytes.as_slice())
}

/// The streaming endpoint, with the realtime model pinned in the query.
pub fn realtime_endpoint() -> (r: String)
    ensures
        r@ == "wss://api.openai.com/v1/realtime?model=gpt-4o-mini-realtime-preview"@,
{
    String::from_str("wss://api.openai.com/v1/realtime?model=gpt-4o-mini-realtime-preview")
}

/// The one session-configuration message sent at open: text modality, the
/// transcription model, and server-side voice-activity turn detection.
pub fn session_update_message() -> (r: String)
    ensures
        r@
            == "{\"type\":\"session.update\",\"session\":{\"modalities\":[\"text\"],\"input_audio_transcription\":{\"model\":\"whisper-1\"},\"turn_detection\":{\"type\":\"server_vad\"}}}"@,
{
    String::from_str(
        "{\"type\":\"session.update\",\"session\":{\"modalities\":[\"text\"],\"input_audio_transcription\":{\"model\":\"whisper-1\"},\"turn_detection\":{\"type\":\"server_vad\"}}}",
    )
}

/// The wire form of one audio chunk: an append message holding the
/// chunk's base64 encoding.
pub open spec fn spec_append_message(bytes: Seq<u8>) -> Seq<char> {
    "{\"type\":\"input_audio_buffer.append\",\"audio\":\""@ + base64_of(bytes) + "\"}"@
}

/// Frame one audio chunk as an append message.
pub fn audio_append_message(audio: &Vec<u8>) -> (r: String)
    ensures
        r@ == spec_append_message(audio@),
{
    let mut msg = String::from_str("{\"type\":\"input_audio_buffer.append\",\"audio\":\"");
    let encoded = base64_encode(audio);
    msg.append(encoded.as_str());
    msg.append("\"}");
    msg
}

/// A typed server event, as extracted from one incoming message.
pub enum ServerEvent {
    /// The session was created or updated; informational.
    SessionReady,
    /// A completed transcription segment with its transcript fragment.
    Completed { transcript: String },
    /// An incremental transcript delta.
    Delta { delta: String },
    /// Speech detected in the input buffer.
    SpeechStarted,
    /// End of speech detected.
    SpeechStopped,
    /// An error event with its message.
    ErrorEvent { message: String },
    /// Any unrecognized or incomplete event: a forward-compatible no-op.
    Ignored,
}

/// Classify one incoming event from its type tag and optional payload
/// fields; unknown types, and known types missing their payload, are
/// ignored.
pub fn classify_event(
    event_type: &str,
    transcript: Option<String>,
    delta: Option<String>,
    error_message: Option<String>,
) -> (ev: ServerEvent)
    ensures
        (event_type@ == "session.created"@ || event_type@ == "session.updated"@) ==> ev
            matches ServerEvent::SessionReady,
        event_type@ == "conversation.item.input_audio_transcription.completed"@ ==> match transcript {
            Option::Some(t) => ev matches ServerEvent::Completed { transcript: got } && got == t,
            Option::None => ev matches ServerEvent::Ignored,
        },
        event_type@ == "response.audio_transcript.delta"@ ==> match delta {
            Option::Some(d) => ev matches ServerEvent::Delta { delta: got } && got == d,
            Option::None => ev matches ServerEvent::Ignored,
        },
        event_type@ == "input_audio_buffer.speech_started"@ ==> ev
            matches ServerEvent::SpeechStarted,
        event_type@ == "input_audio_buffer.speech_stopped"@ ==> ev
            matches ServerEvent::SpeechStopped,
        event_type@ == "error"@ ==> match error_message {
            Option::Some(m) => ev matches ServerEvent::ErrorEvent { message: got } && got == m,
            Option::None => ev matches ServerEvent::Ignored,
        },
        (event_type@ != "session.created"@ && event_type@ != "session.updated"@ && event_type@
            != "conversation.item.input_audio_transcription.completed"@ && event_type@
            != "response.audio_transcript.delta"@ && event_type@
            != "input_audio_buffer.speech_started"@ && event_type@
            != "input_audio_buffer.speech_stopped"@ && event_type@ != "error"@) ==> ev
            matches ServerEvent::Ignored,
{
    proof {
        reveal_strlit("session.created");
        reveal_strlit("session.updated");
        reveal_strlit("conversation.item.input_audio_transcription.completed");
        reveal_strlit("response.audio_transcript.delta");
        reveal_strlit("input_audio_buffer.speech_started");
        reveal_strlit("input_audio_buffer.speech_stopped");
        reveal_strlit("error");
    }
    proof {
        assert("session.created"@.len() == 15);
        assert("session.updated"@.len() == 15);
        assert("conversation.item.input_audio_transcription.completed"@.len() == 53);
        assert("response.audio_transcript.delta"@.len() == 31);
        assert("input_audio_buffer.speech_started"@.len() == 33);
        assert("input_audio_buffer.speech_stopped"@.len() == 33);
        assert("error"@.len() == 5);
        assert("input_audio_buffer.speech_started"@[28] == 'a');
        assert("input_audio_buffer.speech_stopped"@[28] == 'o');
    }
    if str_eq(event_type, "session.created") || str_eq(event_type, "session.updated") {
        ServerEvent::SessionReady
    } else if str_eq(event_type, "conversation.item.input_audio_transcription.completed") {
        match transcript {
            Option::Some(t) => ServerEvent::Completed { transcript: t },
            Option::None => ServerEvent::Ignored,
        }
    } else if str_eq(event_type, "response.audio_transcript.delta") {
        match delta {
            Option::Some(d) => ServerEvent::Delta { delta: d },
            Option::None => ServerEvent::Ignored,
        }
    } else if str_eq(event_type, "input_audio_buffer.speech_started") {
        ServerEvent::SpeechStarted
    } else if str_eq(event_type, "input_audio_buffer.speech_stopped") {
        ServerEvent::SpeechStopped
    } else if str_eq(event_type, "error") {
        match error_message {
            Option::Some(m) => ServerEvent::ErrorEvent { message: m },
            Option::None => ServerEvent::Ignored,
        }
    } else {
        ServerEvent::Ignored
    }
}

/// A notice the session republishes to its consumer.
pub enum SessionNotice {
    /// The trimmed accumulated transcript after a growth step.
    TranscriptUpdate { text: String },
    /// Speech began.
    SpeechStarted,
    /// Speech ended.
    SpeechStopped,
    /// An error event's message.
    ErrorNotice { message: String },
}

/// The state of one duplex streaming session: a connection flag, the
/// outbound audio queue, and the accumulated transcript.
pub struct StreamingSession {
    connected: bool,
    transcript: String,
    outbound: Vec<Vec<u8>>,
}

impl StreamingSession {
    /// Whether a session is open.
    pub closed spec fn spec_connected(&self) -> bool {
        self.connected
    }

    /// The accumulated transcript.
    pub closed spec fn spec_transcript(&self) -> Seq<char> {
        self.transcript@
    }

    /// Audio chunks queued for the send loop, in arrival order.
    pub closed spec fn spec_outbound(&self) -> Seq<Seq<u8>> {
        self.outbound@.map_values(|c: Vec<u8>| c@)
    }

    /// A session that is not yet open.
    pub fn new() -> (s: Self)
        ensures
            !s.spec_connected(),
            s.spec_transcript() == Seq::<char>::empty(),
            s.spec_outbound() == Seq::<Seq<u8>>::empty(),
    {
        let s = StreamingSession { connected: false, transcript: String::new(), outbound: Vec::new() };
        proof {
            assert(s.spec_outbound() =~= Seq::<Seq<u8>>::empty());
        }
        s
    }

    /// Whether a session is currently open.
    pub fn is_connected(&self) -> (r: bool)
        ensures
            r == self.spec_connected(),
    {
        self.connected
    }

    /// Establish the session: the transcript restarts empty and the
    /// connection flag is set. The host sends the session-configuration
    /// message on the fresh connection.
    pub fn open(&mut self)
        ensures
            final(self).spec_connected(),
            final(self).spec_transcript() == Seq::<char>::empty(),
            final(self).spec_outbound() == Seq::<Seq<u8>>::empty(),
    {
        self.connected = true;
        self.transcript = String::new();
        self.outbound = Vec::new();
        proof {
            assert(self.spec_outbound() =~= Seq::<Seq<u8>>::empty());
        }
    }

    /// Queue one audio chunk for the send loop if a session is open; a
    /// no-op otherwise.
    pub fn send(&mut self, chunk: Vec<u8>)
        ensures
            old(self).spec_connected() ==> final(self).spec_outbound() == old(
                self,
            ).spec_outbound().push(chunk@),
            !old(self).spec_connected() ==> final(self).spec_outbound() == old(
                self,
            ).spec_outbound(),
            final(self).spec_connected() == old(self).spec_connected(),
            final(self).spec_transcript() == old(self).spec_transcript(),
    {
        if self.connected {
            self.outbound.push(chunk);
            proof {
                assert(self.spec_outbound() =~= old(self).spec_outbound().push(chunk@));
            }
        }
    }

    /// Take every queued chunk, in order, for forwarding on the wire;
    /// capture order is preserved.
    pub fn take_outbound(&mut self) -> (chunks: Vec<Vec<u8>>)
        ensures
            chunks@.map_values(|c: Vec<u8>| c@) == old(self).spec_outbound(),
            final(self).spec_outbound() == Seq::<Seq<u8>>::empty(),
            final(self).spec_connected() == old(self).spec_connected(),
            final(self).spec_transcript() == old(self).spec_transcript(),
    {
        let mut taken: Vec<Vec<u8>> = Vec::new();
        core::mem::swap(&mut taken, &mut self.outbound);
        proof {
            assert(self.spec_outbound() =~= Seq::<Seq<u8>>::empty());
        }
        taken
    }

    /// The send or receive loop observed a transport failure or close:
    /// the connection flag drops; the transcript is kept.
    pub fn mark_disconnected(&mut self)
        ensures
            !final(self).spec_connected(),
            final(self).spec_transcript() == old(self).spec_transcript(),
            final(self).spec_outbound() == old(self).spec_outbound(),
    {
        self.connected = false;
    }

    /// React to one typed server event. The transcript only grows: a
    /// completed segment appends its fragment verbatim plus a trailing
    /// space, a delta appends in place, and both republish the trimmed
    /// accumulator; speech boundaries and errors are republished as
    /// notices; everything else is a no-op.
    pub fn apply_event(&mut self, ev: ServerEvent) -> (notice: Option<SessionNotice>)
        ensures
            old(self).spec_transcript().is_prefix_of(final(self).spec_transcript()),
            final(self).spec_connected() == old(self).spec_connected(),
            final(self).spec_outbound() == old(self).spec_outbound(),
            match ev {
                ServerEvent::Completed { transcript: t } => final(self).spec_transcript() == old(
                    self,
                ).spec_transcript() + t@ + " "@ && (notice matches Option::Some(
                    SessionNotice::TranscriptUpdate { text },
                ) && text@ == spec_trim(final(self).spec_transcript())),
                ServerEvent::Delta { delta: d } => final(self).spec_transcript() == old(
                    self,
                ).spec_transcript() + d@ && (notice matches Option::Some(
                    SessionNotice::TranscriptUpdate { text },
                ) && text@ == spec_trim(final(self).spec_transcript())),
                ServerEvent::SpeechStarted => notice == Option::Some(SessionNotice::SpeechStarted)
                    && final(self).spec_transcript() == old(self).spec_transcript(),
                ServerEvent::SpeechStopped => notice == Option::Some(SessionNotice::SpeechStopped)
                    && final(self).spec_transcript() == old(self).spec_transcript(),
                ServerEvent::ErrorEvent { message: m } => (notice matches Option::Some(
                    SessionNotice::ErrorNotice { message },
                ) && message == m) && final(self).spec_transcript() == old(self).spec_transcript(),
                _ => notice matches Option::None && final(self).spec_transcript() == old(
                    self,
                ).spec_transcript(),
            },
    {
        match ev {
            ServerEvent::Completed { transcript: t } => {
                self.transcript.append(t.as_str());
                self.transcript.append(" ");
                let trimmed = trim(self.transcript.as_str());
                proof {
                    assert(old(self).spec_transcript().is_prefix_of(self.spec_transcript()));
                }
                Option::Some(SessionNotice::TranscriptUpdate { text: trimmed })
            },
            ServerEvent::Delta { delta: d } => {
                self.transcript.append(d.as_str());
                let trimmed = trim(self.transcript.as_str());
                proof {
                    assert(old(self).spec_transcript().is_prefix_of(self.spec_transcript()));
                }
                Option::Some(SessionNotice::TranscriptUpdate { text: trimmed })
            },
            ServerEvent::SpeechStarted => Option::Some(SessionNotice::SpeechStarted),
            ServerEvent::SpeechStopped => Option::Some(SessionNotice::SpeechStopped),
            ServerEvent::ErrorEvent { message: m } => Option::Some(
                SessionNotice::ErrorNotice { message: m },
            ),
            _ => Option::None,
        }
    }

    /// End the session: the outbound queue is dropped (ending the send
    /// loop), the connection flag falls, and the trimmed accumulated
    /// transcript is returned.
    pub fn close(&mut self) -> (transcript: String)
        ensures
            !final(self).spec_connected(),
            final(self).spec_outbound() == Seq::<Seq<u8>>::empty(),
            transcript@ == spec_trim(old(self).spec_transcript()),
            final(self).spec_transcript() == old(self).spec_transcript(),
    {
        self.connected = false;
        self.outbound = Vec::new();
        proof {
            assert(self.spec_outbound() =~= Seq::<Seq<u8>>::empty());
        }
        trim(self.transcript.as_str())
    }
}

} // verus!
