use vstd::prelude::*;

use crate::errors::CoreError;
use crate::ports::VoiceSynthesizer;

verus! {

/// Use case: delegate text to the voice synthesizer and return the raw audio
/// bytes. A direct pass-through: no caching and no chunking of long text —
/// the entire input is synthesized as one request.
pub struct SpeakService<T: VoiceSynthesizer> {
    synthesizer: T,
}

impl<T: VoiceSynthesizer> SpeakService<T> {
    /// The held synthesizer, for contracts that trace audio to its calls.
    pub closed spec fn spec_synthesizer(&self) -> T {
        self.synthesizer
    }

    pub fn new(synthesizer: T) -> (r: Self)
        ensures
            r.spec_synthesizer() == synthesizer,
    {
        Self { synthesizer }
    }

    /// Synthesize `text` with exactly one call to the port and return its
    /// byte result unmodified; a failure is propagated unchanged in kind.
    /// The result is exactly one outcome of the synthesizer on `text`
    /// itself: an identity pass-through, not a re-encoding.
    pub fn synthesize_speech(&self, text: &str) -> (r: Result<Vec<u8>, CoreError>)
        ensures
            r matches Err(e) ==> e == CoreError::SynthesisError,
            call_ensures(T::synthesize, (&self.spec_synthesizer(), text), r),
    {
        self.synthesizer.synthesize(text)
    }
}

} // verus!
