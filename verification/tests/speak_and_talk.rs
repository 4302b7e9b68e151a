use std::cell::{Cell, RefCell};
use std::rc::Rc;
use std::sync::Arc;

use character_chat::character::{Character, CharacterName, Personality};
use character_chat::chat_service::ChatService;
use character_chat::errors::CoreError;
use character_chat::ports::{CharacterRepository, TextGenerator, VoiceSynthesizer};
use character_chat::speak_service::SpeakService;
use character_chat::talk::talk;

struct StubSynthesizer {
    audio: Result<Vec<u8>, CoreError>,
    calls: Rc<Cell<u32>>,
    last_input: Rc<RefCell<Option<String>>>,
}

impl StubSynthesizer {
    fn returning(audio: Result<Vec<u8>, CoreError>) -> (Self, Rc<Cell<u32>>, Rc<RefCell<Option<String>>>) {
        let calls = Rc::new(Cell::new(0));
        let last_input = Rc::new(RefCell::new(None));
        let stub = Self { audio, calls: calls.clone(), last_input: last_input.clone() };
        (stub, calls, last_input)
    }
}

impl VoiceSynthesizer for StubSynthesizer {
    fn synthesize(&self, text: &str) -> Result<Vec<u8>, CoreError> {
        self.calls.set(self.calls.get() + 1);
        *self.last_input.borrow_mut() = Some(text.to_string());
        self.audio.clone()
    }
}

struct StubGenerator {
    reply: Result<String, CoreError>,
}

impl TextGenerator for StubGenerator {
    fn generate(&self, _target: Character, _request: String) -> Result<String, CoreError> {
        self.reply.clone()
    }
}

struct StubRepository {
    record: Result<Character, CoreError>,
}

impl CharacterRepository for StubRepository {
    fn find_by_id(&self, _id: u64) -> Result<Character, CoreError> {
        self.record.clone()
    }

    fn find_by_name(&self, _name: &CharacterName) -> Result<Character, CoreError> {
        self.record.clone()
    }

    fn create(&mut self, _character: &Character) -> Result<Character, CoreError> {
        Err(CoreError::StorageError)
    }

    fn update(&mut self, _before: &Character, _after: &Character) -> Result<Character, CoreError> {
        Err(CoreError::StorageError)
    }
}

fn some_character() -> Character {
    Character::new(&CharacterName::new("Rin"), &Personality::new("cheerful"))
}

#[test]
fn speech_is_a_single_identity_pass_through() {
    // For a non-empty input the synthesizer runs exactly once, with the
    // input unchanged, and its bytes come back unmodified.
    let (stub, calls, last_input) = StubSynthesizer::returning(Ok(vec![82, 73, 70, 70]));
    let service = SpeakService::new(stub);

    let result = service.synthesize_speech("hello");

    assert_eq!(result.unwrap(), vec![82, 73, 70, 70]);
    assert_eq!(calls.get(), 1);
    assert_eq!(last_input.borrow().as_deref(), Some("hello"));
}

#[test]
fn synthesis_failure_is_returned_unchanged() {
    let (stub, _calls, _last) = StubSynthesizer::returning(Err(CoreError::SynthesisError));
    let service = SpeakService::new(stub);
    assert_eq!(service.synthesize_speech("hello").unwrap_err(), CoreError::SynthesisError);
}

#[test]
fn talk_speaks_the_generated_reply() {
    let chat = ChatService::new(
        Arc::new(StubGenerator { reply: Ok(String::from("hi there!")) }),
        Arc::new(StubRepository { record: Ok(some_character()) }),
    );
    let (stub, calls, last_input) = StubSynthesizer::returning(Ok(vec![1, 2, 3]));
    let speak = SpeakService::new(stub);

    let result = talk(&chat, &speak, String::from("hello"));

    assert_eq!(result.unwrap(), vec![1, 2, 3]);
    assert_eq!(calls.get(), 1);
    assert_eq!(last_input.borrow().as_deref(), Some("hi there!"));
}

#[test]
fn talk_does_not_synthesize_when_generation_fails() {
    let chat = ChatService::new(
        Arc::new(StubGenerator { reply: Err(CoreError::GenerationError) }),
        Arc::new(StubRepository { record: Ok(some_character()) }),
    );
    let (stub, calls, _last) = StubSynthesizer::returning(Ok(vec![1, 2, 3]));
    let speak = SpeakService::new(stub);

    let result = talk(&chat, &speak, String::from("hello"));

    // The failure is the generation failure, never masked as synthesis.
    assert_eq!(result.unwrap_err(), CoreError::GenerationError);
    assert_eq!(calls.get(), 0);
}

#[test]
fn talk_reports_a_synthesis_failure_as_such() {
    let chat = ChatService::new(
        Arc::new(StubGenerator { reply: Ok(String::from("hi there!")) }),
        Arc::new(StubRepository { record: Ok(some_character()) }),
    );
    let (stub, calls, last_input) = StubSynthesizer::returning(Err(CoreError::SynthesisError));
    let speak = SpeakService::new(stub);

    let result = talk(&chat, &speak, String::from("hello"));

    assert_eq!(result.unwrap_err(), CoreError::SynthesisError);
    assert_eq!(calls.get(), 1);
    assert_eq!(last_input.borrow().as_deref(), Some("hi there!"));
}

#[test]
fn talk_does_not_synthesize_when_lookup_fails() {
    let chat = ChatService::new(
        Arc::new(StubGenerator { reply: Ok(String::from("unreached")) }),
        Arc::new(StubRepository { record: Err(CoreError::NotFound) }),
    );
    let (stub, calls, _last) = StubSynthesizer::returning(Ok(vec![1, 2, 3]));
    let speak = SpeakService::new(stub);

    let result = talk(&chat, &speak, String::from("hello"));

    assert_eq!(result.unwrap_err(), CoreError::NotFound);
    assert_eq!(calls.get(), 0);
}
