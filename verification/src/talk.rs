use vstd::prelude::*;

use crate::character::Character;
use crate::chat_service::{ChatService, SENTINEL_CHARACTER_ID};
use crate::errors::CoreError;
use crate::ports::{CharacterRepository, TextGenerator, VoiceSynthesizer};
use crate::speak_service::SpeakService;

verus! {

/// The decision the composed talk flow takes once text generation has
/// returned: either synthesize the generated reply, or fail with exactly the
/// generation failure — never masked as a synthesis failure — and never
/// invoke the synthesizer.
pub enum TalkStep {
    /// Generation succeeded: synthesize this reply text.
    Synthesize { text: String },
    /// Generation failed: return this error; the synthesizer must not run.
    Fail { error: CoreError },
}

/// Decide how the talk flow continues after text generation.
///
/// A generated reply is handed unchanged to the synthesis step; a generation
/// failure becomes a failure carrying exactly the generation error, so no
/// synthesis step can run.
pub fn talk_plan(generated: Result<String, CoreError>) -> (r: TalkStep)
    ensures
        (match generated {
            Ok(text) => r == (TalkStep::Synthesize { text }),
            Err(error) => r == (TalkStep::Fail { error }),
        }),
{
    match generated {
        Ok(text) => TalkStep::Synthesize { text },
        Err(error) => TalkStep::Fail { error },
    }
}

/// A port history that explains a talk failure `e`: the lookup itself failed
/// with `e`; or generation failed with `e` for a resolved target; or
/// generation succeeded and the synthesizer failed with `e` on the reply
/// itself. A generation failure thus propagates as the generation failure
/// and is never masked as a synthesis failure.
pub open spec fn talk_failure_explained<
    T: TextGenerator,
    CR: CharacterRepository,
    VS: VoiceSynthesizer,
>(
    chat: &ChatService<T, CR>,
    speak: &SpeakService<VS>,
    message: String,
    e: CoreError,
) -> bool {
    ||| call_ensures(
        CR::find_by_id,
        (&chat.spec_repository(), SENTINEL_CHARACTER_ID),
        Err::<Character, CoreError>(e),
    )
    ||| exists|target: Character|
        #[trigger] chat.explained_by_generation(message, target, Err::<String, CoreError>(e))
    ||| exists|target: Character, reply: String, spoken: &str|
        #![trigger chat.explained_by_generation(message, target, Ok::<String, CoreError>(reply)),
            call_ensures(VS::synthesize, (&speak.spec_synthesizer(), spoken), Err::<Vec<u8>, CoreError>(e))]
        {
            &&& chat.explained_by_generation(message, target, Ok::<String, CoreError>(reply))
            &&& spoken@ == reply@
            &&& call_ensures(
                VS::synthesize,
                (&speak.spec_synthesizer(), spoken),
                Err::<Vec<u8>, CoreError>(e),
            )
        }
}

/// Composed flow: feed the chat service's generated reply directly into the
/// speak service and return audio of the reply. The composition holds no
/// state of its own; if generation fails the synthesis step does not run and
/// the failure propagates as the generation failure.
///
/// The result always traces back to the ports: a reply is audio the
/// synthesizer produced for a generated reply itself, and a failure is the
/// lookup's, the generator's, or — only after generation succeeded — the
/// synthesizer's, each unchanged.
pub fn talk<T: TextGenerator, CR: CharacterRepository, VS: VoiceSynthesizer>(
    chat: &ChatService<T, CR>,
    speak: &SpeakService<VS>,
    message: String,
) -> (r: Result<Vec<u8>, CoreError>)
    ensures
        r matches Err(e) ==> e != CoreError::Conflict,
        r matches Err(e) ==> talk_failure_explained(chat, speak, message, e),
        r is Ok ==> exists|target: Character, reply: String, spoken: &str|
            #![trigger chat.explained_by_generation(message, target, Ok::<String, CoreError>(reply)),
                call_ensures(VS::synthesize, (&speak.spec_synthesizer(), spoken), r)]
            {
                &&& chat.explained_by_generation(message, target, Ok::<String, CoreError>(reply))
                &&& spoken@ == reply@
                &&& call_ensures(VS::synthesize, (&speak.spec_synthesizer(), spoken), r)
            },
{
    let ghost requested = message;
    let generated = chat.generate_text(message);
    let ghost outcome = generated;
    match talk_plan(generated) {
        TalkStep::Synthesize { text } => {
            let ghost generated_text = text;
            let spoken = text.as_str();
            let ghost spoken_text = spoken;
            let result = speak.synthesize_speech(spoken);
            proof {
                assert(outcome == Ok::<String, CoreError>(generated_text));
                let resolved = choose|target: Character|
                    chat.explained_by_generation(
                        requested,
                        target,
                        Ok::<String, CoreError>(generated_text),
                    );
                assert(chat.explained_by_generation(
                    requested,
                    resolved,
                    Ok::<String, CoreError>(generated_text),
                ));
                assert(spoken_text@ == generated_text@);
                assert(call_ensures(
                    VS::synthesize,
                    (&speak.spec_synthesizer(), spoken_text),
                    result,
                ));
                if result is Err {
                    let e = result->Err_0;
                    assert(result == Err::<Vec<u8>, CoreError>(e));
                    assert(talk_failure_explained(chat, speak, requested, e));
                }
            }
            result
        },
        TalkStep::Fail { error } => {
            proof {
                assert(outcome == Err::<String, CoreError>(error));
                assert(talk_failure_explained(chat, speak, requested, error));
            }
            Err(error)
        },
    }
}

} // verus!
