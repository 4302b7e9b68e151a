use vstd::prelude::*;

use crate::character::{Character, CharacterName};
use crate::errors::CoreError;

verus! {

/// Port over a text-to-speech engine producing raw audio bytes.
///
/// The port makes no assumption about voice selection beyond a fixed default
/// owned by the implementation.
pub trait VoiceSynthesizer {
    /// Synthesize the entire `text` as one request, returning a single
    /// encoded audio clip. Fails only with `SynthesisError`: an engine
    /// failure, or input the engine cannot process.
    fn synthesize(&self, text: &str) -> (r: Result<Vec<u8>, CoreError>)
        ensures
            r matches Err(e) ==> e == CoreError::SynthesisError,
    ;
}

/// Port over a conversational text-completion provider, parameterized by a
/// target character and a user message.
pub trait TextGenerator {
    /// Generate a reply as `target` to `request`. The implementation must
    /// give the provider enough context to role-play `target`'s personality.
    /// One blocking unit of work with no partial results. Fails only with
    /// `GenerationError`: a transport failure, a non-success provider status,
    /// or malformed provider output — never silently empty text.
    fn generate(&self, target: Character, request: String) -> (r: Result<String, CoreError>)
        ensures
            r matches Err(e) ==> e == CoreError::GenerationError,
    ;
}

/// Port for looking up and persisting characters.
///
/// The store keeps character names unique. `create` and `update` must be
/// atomic: either both the identity record and the personality record are
/// durably written, or neither is.
pub trait CharacterRepository {
    /// Look a character up by its stored identifier. Fails with `NotFound`
    /// when no record matches and with `StorageError` on a transport or
    /// query failure.
    fn find_by_id(&self, id: u64) -> (r: Result<Character, CoreError>)
        ensures
            r matches Err(e) ==> (e == CoreError::NotFound || e == CoreError::StorageError),
    ;

    /// Look a character up by name. Fails with `NotFound` when no record
    /// matches and with `StorageError` on a transport or query failure.
    fn find_by_name(&self, name: &CharacterName) -> (r: Result<Character, CoreError>)
        ensures
            r matches Err(e) ==> (e == CoreError::NotFound || e == CoreError::StorageError),
    ;

    /// Persist a new character and its personality atomically, returning the
    /// persisted representation (which may normalize fields). Fails with
    /// `Conflict` when the name already exists and with `StorageError`
    /// otherwise.
    fn create(&mut self, character: &Character) -> (r: Result<Character, CoreError>)
        ensures
            r matches Err(e) ==> (e == CoreError::Conflict || e == CoreError::StorageError),
    ;

    /// Replace the stored record matched by `before`'s name with `after`'s
    /// fields, atomically across both sub-records. Fails with `NotFound` when
    /// `before` matches no stored record, with `Conflict` when `after`'s name
    /// collides with a different existing record, and with `StorageError` on
    /// a transport or query failure.
    fn update(&mut self, before: &Character, after: &Character) -> (r: Result<Character, CoreError>)
        ensures
            r matches Err(e) ==> (e == CoreError::NotFound || e == CoreError::Conflict
                || e == CoreError::StorageError),
    ;
}

} // verus!
