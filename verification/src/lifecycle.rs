//! The recording lifecycle: the orchestrator driving capture and exactly
//! one of the two transcription backends through start, stop and cancel.
//!
//! Stopping runs Recording → Draining → Transcribing → PostProcessing →
//! Done; cancel discards buffered audio without transcribing and returns
//! at once; a transcription error is terminal but a fresh start is always
//! allowed from Done, Cancelled and Error.

use vstd::prelude::*;
use crate::aggregate::GroqState;
use crate::errors::BufferError;
use crate::errors::TranscribeError;
use crate::stream::StreamingSession;
use crate::text::spec_trim;
use crate::text::str_eq;

verus! {

/// The configured speech-to-text provider.
#[derive(Debug, Clone, Copy, PartialEq, Eq, Structural)]
pub enum SttProvider {
    /// The hosted batch endpoint.
    Groq,
    /// The local model.
    Parakeet,
}

impl SttProvider {
    /// The provider a stored settings value selects; anything but
    /// "parakeet" falls back to the hosted provider.
    pub fn from_store_value(s: &str) -> (p: Self)
        ensures
            p == (if s@ == "parakeet"@ {
                SttProvider::Parakeet
            } else {
                SttProvider::Groq
            }),
    {
        if str_eq(s, "parakeet") {
            SttProvider::Parakeet
        } else {
            SttProvider::Groq
        }
    }
}

/// The transcription backend chosen at start.
#[derive(Debug, Clone, Copy, PartialEq, Eq, Structural)]
pub enum Backend {
    /// Aggregate PCM and upload once at stop.
    Batch,
    /// Forward chunks over a duplex session as they arrive.
    Streaming,
}

/// The backend a configured provider name selects: the batch uploader for
/// "groq", the streaming session otherwise.
pub fn backend_for(provider: &str) -> (b: Backend)
    ensures
        b == (if provider@ == "groq"@ {
            Backend::Batch
        } else {
            Backend::Streaming
        }),
{
    if str_eq(provider, "groq") {
        Backend::Batch
    } else {
        Backend::Streaming
    }
}

/// The lifecycle states of one recording.
#[derive(Debug, Clone, Copy, PartialEq, Eq, Structural)]
pub enum RecordingState {
    Idle,
    Recording,
    Draining,
    Transcribing,
    PostProcessing,
    Done,
    Cancelled,
    Error,
}

/// An action the host performs for the lifecycle, in order.
#[derive(Debug, Clone, Copy, PartialEq, Eq, Structural)]
pub enum LifecycleAction {
    /// Open the capture actor on the chosen device.
    StartCapture,
    /// Stop the capture actor (and let in-flight chunks settle).
    StopCapture,
    /// Connect the streaming session and send its configuration message.
    OpenSession,
}

/// A start attempt while a recording is already underway is rejected.
#[derive(Debug, Clone, PartialEq, Eq, Structural)]
pub enum LifecycleError {
    Busy,
}

/// What the Transcribing stage is given.
pub enum TranscribeInput {
    /// The aggregated PCM of the batch backend.
    Batch { audio: Vec<u8> },
    /// The streaming session's final trimmed transcript.
    Streaming { transcript: String },
}

/// Whether a fresh start is allowed from a state: from Idle and from
/// every terminal state, never while a recording is underway.
pub open spec fn spec_can_start(s: RecordingState) -> bool {
    s == RecordingState::Idle || s == RecordingState::Done || s == RecordingState::Cancelled || s
        == RecordingState::Error
}

/// One recording session: its lifecycle state, the chosen backend, both
/// backends' buffers, and the raw transcript of the last run.
pub struct RecordingLifecycle {
    /// Current lifecycle state.
    pub state: RecordingState,
    /// Backend chosen at the last start.
    pub backend: Backend,
    /// The batch backend's aggregation buffer.
    pub batch: GroqState,
    /// The streaming backend's session.
    pub session: StreamingSession,
    /// The raw transcript produced by the last Transcribing stage.
    pub raw_transcript: String,
    /// The error that moved the lifecycle to Error, if any.
    pub last_error: Option<TranscribeError>,
}

impl RecordingLifecycle {
    /// A fresh, idle lifecycle with the batch backend and empty buffers.
    pub fn new() -> (lc: Self)
        ensures
            lc.state == RecordingState::Idle,
            lc.backend == Backend::Batch,
            lc.batch@ == Seq::<u8>::empty(),
            !lc.session.spec_connected(),
            lc.raw_transcript@ == Seq::<char>::empty(),
            lc.last_error matches Option::None,
    {
        RecordingLifecycle {
            state: RecordingState::Idle,
            backend: Backend::Batch,
            batch: GroqState::default(),
            session: StreamingSession::new(),
            raw_transcript: String::new(),
            last_error: Option::None,
        }
    }

    /// Start a recording: allowed from Idle and from any terminal state,
    /// rejected (unchanged) while one is underway. Any previous buffer or
    /// session is cleared, capture is opened, and the chosen backend is
    /// readied — the streaming session is opened only for the streaming
    /// backend.
    pub fn start(&mut self, provider: &str) -> (r: Result<Vec<LifecycleAction>, LifecycleError>)
        ensures
            !spec_can_start(old(self).state) ==> r == Err::<Vec<LifecycleAction>, LifecycleError>(
                LifecycleError::Busy,
            ) && *final(self) == *old(self),
            spec_can_start(old(self).state) ==> {
                &&& final(self).state == RecordingState::Recording
                &&& final(self).backend == (if provider@ == "groq"@ {
                    Backend::Batch
                } else {
                    Backend::Streaming
                })
                &&& final(self).batch@ == Seq::<u8>::empty()
                &&& final(self).session.spec_connected() == (final(self).backend
                    == Backend::Streaming)
                &&& final(self).backend == Backend::Streaming ==> final(self).session.spec_transcript() == Seq::<char>::empty()
                &&& (r matches Ok(actions) && actions@ == (if final(self).backend
                    == Backend::Streaming {
                    seq![LifecycleAction::StartCapture, LifecycleAction::OpenSession]
                } else {
                    seq![LifecycleAction::StartCapture]
                }))
            },
    {
        match self.state {
            RecordingState::Idle | RecordingState::Done | RecordingState::Cancelled
                | RecordingState::Error => {},
            _ => {
                return Err(LifecycleError::Busy);
            },
        }
        self.backend = backend_for(provider);
        self.batch.clear_buffer();
        self.state = RecordingState::Recording;
        let mut actions: Vec<LifecycleAction> = Vec::new();
        actions.push(LifecycleAction::StartCapture);
        match self.backend {
            Backend::Streaming => {
                self.session.open();
                actions.push(LifecycleAction::OpenSession);
                proof {
                    assert(actions@ =~= seq![
                        LifecycleAction::StartCapture,
                        LifecycleAction::OpenSession,
                    ]);
                }
            },
            Backend::Batch => {
                self.session.mark_disconnected();
                proof {
                    assert(actions@ =~= seq![LifecycleAction::StartCapture]);
                }
            },
        }
        Ok(actions)
    }

    /// Whether a recording is underway.
    pub fn get_recording_state(&self) -> (r: bool)
        ensures
            r == (self.state == RecordingState::Recording),
    {
        match self.state {
            RecordingState::Recording => true,
            _ => false,
        }
    }

    /// Route one encoded chunk to the chosen backend while recording: the
    /// batch buffer rejects a chunk that would exceed its cap (buffer
    /// unchanged); the streaming session queues it if open. Outside
    /// Recording the chunk is dropped.
    pub fn append_chunk(&mut self, audio: Vec<u8>) -> (r: Result<(), BufferError>)
        ensures
            final(self).state == old(self).state,
            final(self).backend == old(self).backend,
            old(self).state != RecordingState::Recording ==> r == Ok::<(), BufferError>(())
                && final(self).batch@ == old(self).batch@ && final(self).session.spec_outbound()
                == old(self).session.spec_outbound(),
            old(self).state == RecordingState::Recording && old(self).backend == Backend::Batch
                ==> {
                &&& old(self).batch@.len() + audio@.len()
                    > crate::aggregate::MAX_BUFFER_SIZE ==> r == Err::<(), BufferError>(
                    BufferError::Overflow,
                ) && final(self).batch@ == old(self).batch@
                &&& old(self).batch@.len() + audio@.len()
                    <= crate::aggregate::MAX_BUFFER_SIZE ==> r == Ok::<(), BufferError>(())
                    && final(self).batch@ == old(self).batch@ + audio@
            },
            old(self).state == RecordingState::Recording && old(self).backend == Backend::Streaming
                ==> r == Ok::<(), BufferError>(()) && final(self).batch@ == old(self).batch@ && (
            if old(self).session.spec_connected() {
                final(self).session.spec_outbound() == old(self).session.spec_outbound().push(
                    audio@,
                )
            } else {
                final(self).session.spec_outbound() == old(self).session.spec_outbound()
            }),
    {
        if !self.get_recording_state() {
            return Ok(());
        }
        match self.backend {
            Backend::Batch => self.batch.append_audio(audio),
            Backend::Streaming => {
                self.session.send(audio);
                Ok(())
            },
        }
    }

    /// Begin stopping: Recording → Draining. The host stops capture and
    /// waits a short settle interval for in-flight chunks before reading
    /// the final buffer or session transcript.
    pub fn begin_stop(&mut self) -> (actions: Vec<LifecycleAction>)
        requires
            old(self).state == RecordingState::Recording,
        ensures
            final(self).state == RecordingState::Draining,
            final(self).backend == old(self).backend,
            final(self).batch@ == old(self).batch@,
            final(self).session.spec_transcript() == old(self).session.spec_transcript(),
            actions@ == seq![LifecycleAction::StopCapture],
    {
        self.state = RecordingState::Draining;
        let mut actions: Vec<LifecycleAction> = Vec::new();
        actions.push(LifecycleAction::StopCapture);
        proof {
            assert(actions@ =~= seq![LifecycleAction::StopCapture]);
        }
        actions
    }

    /// End draining: Draining → Transcribing. Yields what the chosen
    /// backend transcribes — the aggregated PCM (the buffer is then
    /// empty) or the closed session's trimmed transcript.
    pub fn finish_drain(&mut self) -> (input: TranscribeInput)
        requires
            old(self).state == RecordingState::Draining,
        ensures
            final(self).state == RecordingState::Transcribing,
            final(self).backend == old(self).backend,
            final(self).batch@ == Seq::<u8>::empty(),
            !final(self).session.spec_connected(),
            old(self).backend == Backend::Batch ==> (input matches TranscribeInput::Batch { audio }
                && audio@ == old(self).batch@),
            old(self).backend == Backend::Streaming ==> (input
                matches TranscribeInput::Streaming { transcript } && transcript@ == spec_trim(
                old(self).session.spec_transcript(),
            )),
    {
        self.state = RecordingState::Transcribing;
        match self.backend {
            Backend::Batch => {
                let audio = self.batch.get_buffer();
                self.batch.clear_buffer();
                self.session.mark_disconnected();
                TranscribeInput::Batch { audio }
            },
            Backend::Streaming => {
                let transcript = self.session.close();
                self.batch.clear_buffer();
                TranscribeInput::Streaming { transcript }
            },
        }
    }

    /// Record the Transcribing outcome: success carries the raw
    /// transcript into PostProcessing; an error is terminal, keeping the
    /// (possibly empty) raw transcript and the error, and a later start
    /// is still allowed.
    pub fn finish_transcription(&mut self, outcome: Result<String, TranscribeError>)
        requires
            old(self).state == RecordingState::Transcribing,
        ensures
            final(self).backend == old(self).backend,
            outcome matches Ok(text) ==> final(self).state == RecordingState::PostProcessing
                && final(self).raw_transcript == text && final(self).last_error
                matches Option::None,
            outcome matches Err(e) ==> final(self).state == RecordingState::Error && (final(self).last_error matches Option::Some(err) && err == e),
    {
        match outcome {
            Ok(text) => {
                self.raw_transcript = text;
                self.last_error = Option::None;
                self.state = RecordingState::PostProcessing;
            },
            Err(e) => {
                self.last_error = Option::Some(e);
                self.state = RecordingState::Error;
            },
        }
    }

    /// Record the post-processing outcome: PostProcessing → Done. On
    /// failure of the external text transform the raw transcript is the
    /// result and the failure is surfaced as a non-fatal notice.
    pub fn finish_post_processing(&mut self, transformed: Result<String, String>) -> (r: (
        String,
        Option<String>,
    ))
        requires
            old(self).state == RecordingState::PostProcessing,
        ensures
            final(self).state == RecordingState::Done,
            final(self).backend == old(self).backend,
            transformed matches Ok(text) ==> r.0 == text && r.1 matches Option::None,
            transformed matches Err(notice) ==> r.0 == old(self).raw_transcript && (r.1
                matches Option::Some(n) && n == notice),
    {
        self.state = RecordingState::Done;
        match transformed {
            Ok(text) => (text, Option::None),
            Err(notice) => {
                let raw = self.raw_transcript.clone();
                (raw, Option::Some(notice))
            },
        }
    }

    /// Cancel before Transcribing: capture stops, every buffered or
    /// streamed byte is discarded without transcribing — the aggregation
    /// buffer ends empty, the session closes, and no transcription is
    /// requested (the returned actions hold StopCapture alone).
    pub fn cancel(&mut self) -> (actions: Vec<LifecycleAction>)
        requires
            old(self).state == RecordingState::Recording || old(self).state
                == RecordingState::Draining,
        ensures
            final(self).state == RecordingState::Cancelled,
            final(self).backend == old(self).backend,
            final(self).batch@ == Seq::<u8>::empty(),
            !final(self).session.spec_connected(),
            final(self).session.spec_outbound() == Seq::<Seq<u8>>::empty(),
            actions@ == seq![LifecycleAction::StopCapture],
    {
        self.batch.clear_buffer();
        let _discarded = self.session.close();
        self.state = RecordingState::Cancelled;
        let mut actions: Vec<LifecycleAction> = Vec::new();
        actions.push(LifecycleAction::StopCapture);
        proof {
            assert(actions@ =~= seq![LifecycleAction::StopCapture]);
        }
        actions
    }
}

} // verus!
