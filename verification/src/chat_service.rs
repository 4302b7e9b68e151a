use std::sync::Arc;

use vstd::prelude::*;

use crate::character::Character;
use crate::errors::CoreError;
use crate::ports::{CharacterRepository, TextGenerator};

verus! {

/// The fixed identifier under which "the" character of a deployment is
/// stored. Target resolution is deliberately by fixed id: the service is
/// single-character per process, not multi-tenant, and resolving by name or
/// by a caller-supplied character was rejected in favour of one explicit
/// configuration constant.
pub const SENTINEL_CHARACTER_ID: u64 = 1;

/// The decision the chat flow takes once the repository lookup has returned:
/// either delegate to the generator with the resolved target and the user's
/// message, or fail with exactly the lookup's failure and never invoke the
/// generator.
pub enum ChatStep {
    /// The lookup succeeded: generate with this target and message.
    Generate { target: Character, message: String },
    /// The lookup failed: return this error; the generator must not run.
    Fail { error: CoreError },
}

/// Decide how the chat flow continues after the character lookup.
///
/// A successful lookup hands the resolved character and the user's message,
/// both unchanged, to the generation step; a failed lookup becomes a failure
/// carrying exactly the repository's error, so no generation step can run.
pub fn chat_plan(lookup: Result<Character, CoreError>, message: String) -> (r: ChatStep)
    ensures
        (match lookup {
            Ok(target) => r == (ChatStep::Generate { target, message }),
            Err(error) => r == (ChatStep::Fail { error }),
        }),
{
    match lookup {
        Ok(target) => ChatStep::Generate { target, message },
        Err(error) => ChatStep::Fail { error },
    }
}

/// Use case: resolve the deployment's character, delegate to the text
/// generator, and return the generated reply. Holds shared read-only
/// references to its two ports; no mutable state.
pub struct ChatService<T: TextGenerator, CR: CharacterRepository> {
    generator: Arc<T>,
    repository: Arc<CR>,
}

impl<T: TextGenerator, CR: CharacterRepository> ChatService<T, CR> {
    /// The held generator, for contracts that trace a reply to its calls.
    pub closed spec fn spec_generator(&self) -> T {
        *self.generator
    }

    /// The held repository, for contracts that trace a reply to its calls.
    pub closed spec fn spec_repository(&self) -> CR {
        *self.repository
    }

    /// One lookup outcome and one generation outcome that explain `r`: the
    /// lookup resolved `target` under the sentinel id and the generator
    /// answered `r` for `target` and `request`.
    pub open spec fn explained_by_generation(
        &self,
        request: String,
        target: Character,
        r: Result<String, CoreError>,
    ) -> bool {
        &&& call_ensures(
            CR::find_by_id,
            (&self.spec_repository(), SENTINEL_CHARACTER_ID),
            Ok::<Character, CoreError>(target),
        )
        &&& call_ensures(T::generate, (&self.spec_generator(), target, request), r)
    }

    pub fn new(generator: Arc<T>, repository: Arc<CR>) -> (r: Self)
        ensures
            r.spec_generator() == *generator,
            r.spec_repository() == *repository,
    {
        Self { generator, repository }
    }

    /// Resolve the target character via `find_by_id` with the sentinel id,
    /// delegate the resolved character and `request` to the generator, and
    /// return the reply text unchanged — or propagate the first failure
    /// unmodified in kind, with no retry and no fallback text.
    ///
    /// The result always traces back to the ports: a reply is what the
    /// generator answered for the resolved character and `request`, and a
    /// failure is either the lookup's own failure or the generator's.
    pub fn generate_text(&self, request: String) -> (r: Result<String, CoreError>)
        ensures
            r matches Err(e) ==> (e == CoreError::NotFound || e == CoreError::StorageError
                || e == CoreError::GenerationError),
            r is Ok ==> exists|target: Character|
                #[trigger] self.explained_by_generation(request, target, r),
            r matches Err(e) ==> call_ensures(
                CR::find_by_id,
                (&self.spec_repository(), SENTINEL_CHARACTER_ID),
                Err::<Character, CoreError>(e),
            ) || exists|target: Character|
                #[trigger] self.explained_by_generation(request, target, r),
    {
        let ghost requested = request;
        let lookup = self.repository.find_by_id(SENTINEL_CHARACTER_ID);
        let ghost looked_up = lookup;
        match chat_plan(lookup, request) {
            ChatStep::Generate { target, message } => {
                let ghost resolved = target;
                let result = self.generator.generate(target, message);
                proof {
                    assert(looked_up == Ok::<Character, CoreError>(resolved));
                    assert(self.explained_by_generation(requested, resolved, result));
                }
                result
            },
            ChatStep::Fail { error } => Err(error),
        }
    }
}

} // verus!
