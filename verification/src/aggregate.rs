//! Size-capped aggregation of encoded PCM bytes for batch transmission.
//!
//! Chunks arriving from the capture pipeline are appended until the next
//! append would exceed the cap; such an append is rejected whole and the
//! buffer keeps its prior contents.

use vstd::prelude::*;
use crate::errors::BufferError;

verus! {

/// Aggregation cap in bytes; stays under the batch provider's upload limit.
pub const MAX_BUFFER_SIZE: usize = 25165824;

/// The aggregation buffer of the batch backend.
pub struct GroqState {
    audio_buffer: Vec<u8>,
}

impl View for GroqState {
    type V = Seq<u8>;

    closed spec fn view(&self) -> Seq<u8> {
        self.audio_buffer@
    }
}

impl Default for GroqState {
    /// A fresh, empty aggregation buffer.
    fn default() -> (s: Self)
        ensures
            s@ == Seq::<u8>::empty(),
    {
        GroqState { audio_buffer: Vec::new() }
    }
}

impl GroqState {
    /// Append one chunk, rejecting it whole if it would push the buffer
    /// past the cap; on rejection the buffer is unchanged.
    pub fn append_audio(&mut self, chunk: Vec<u8>) -> (r: Result<(), BufferError>)
        ensures
            old(self)@.len() + chunk@.len() > MAX_BUFFER_SIZE ==> r == Err::<(), BufferError>(
                BufferError::Overflow,
            ) && final(self)@ == old(self)@,
            old(self)@.len() + chunk@.len() <= MAX_BUFFER_SIZE ==> r == Ok::<(), BufferError>(())
                && final(self)@ == old(self)@ + chunk@,
    {
        if chunk.len() > MAX_BUFFER_SIZE || self.audio_buffer.len() > MAX_BUFFER_SIZE
            - chunk.len() {
            return Err(BufferError::Overflow);
        }
        let mut chunk = chunk;
        self.audio_buffer.append(&mut chunk);
        Ok(())
    }

    /// Discard everything buffered so far.
    pub fn clear_buffer(&mut self)
        ensures
            final(self)@ == Seq::<u8>::empty(),
    {
        self.audio_buffer.clear();
    }

    /// A copy of everything buffered so far, in arrival order.
    pub fn get_buffer(&self) -> (r: Vec<u8>)
        ensures
            r@ == self@,
    {
        self.audio_buffer.clone()
    }

    /// How many bytes are buffered.
    pub fn buffer_size(&self) -> (n: usize)
        ensures
            n == self@.len(),
    {
        self.audio_buffer.len()
    }
}

} // verus!
