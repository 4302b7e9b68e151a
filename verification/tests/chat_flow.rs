use std::cell::Cell;
use std::sync::Arc;

use character_chat::character::{Character, CharacterName, Personality};
use character_chat::chat_service::ChatService;
use character_chat::errors::CoreError;
use character_chat::memory_repository::InMemoryCharacterRepository;
use character_chat::ports::{CharacterRepository, TextGenerator};

struct StubGenerator {
    expected_target: Option<Character>,
    expected_request: Option<String>,
    reply: Result<String, CoreError>,
    calls: Cell<u32>,
}

impl StubGenerator {
    fn returning(reply: Result<String, CoreError>) -> Self {
        Self { expected_target: None, expected_request: None, reply, calls: Cell::new(0) }
    }
}

impl TextGenerator for StubGenerator {
    fn generate(&self, target: Character, request: String) -> Result<String, CoreError> {
        self.calls.set(self.calls.get() + 1);
        if let Some(expected) = &self.expected_target {
            assert_eq!(&target, expected);
        }
        if let Some(expected) = &self.expected_request {
            assert_eq!(&request, expected);
        }
        self.reply.clone()
    }
}

struct StubRepository {
    record: Result<Character, CoreError>,
    finds: Cell<u32>,
}

impl CharacterRepository for StubRepository {
    fn find_by_id(&self, id: u64) -> Result<Character, CoreError> {
        self.finds.set(self.finds.get() + 1);
        assert_eq!(id, 1);
        self.record.clone()
    }

    fn find_by_name(&self, _name: &CharacterName) -> Result<Character, CoreError> {
        self.record.clone()
    }

    fn create(&mut self, _character: &Character) -> Result<Character, CoreError> {
        Err(CoreError::StorageError)
    }

    fn update(&mut self, _before: &Character, _after: &Character) -> Result<Character, CoreError> {
        Err(CoreError::StorageError)
    }
}

#[test]
fn test_chat_service() {
    // Setup
    let character_name = CharacterName::new("Test Name");
    let character_personality = Personality::new("Test Personality");
    let character = Character::new(&character_name, &character_personality);

    let request = String::from("Request");

    let mock_generator = StubGenerator {
        expected_target: Some(character.clone()),
        expected_request: Some(String::from("Request")),
        reply: Ok(String::from("Generated text")),
        calls: Cell::new(0),
    };
    let mock_generator_arc = Arc::new(mock_generator);

    let mock_repo = StubRepository {
        record: Ok(Character::new(&character_name, &character_personality)),
        finds: Cell::new(0),
    };
    let mock_repo_arc = Arc::new(mock_repo);

    let chat_service = ChatService::new(mock_generator_arc, mock_repo_arc);

    // Exercise
    let result = chat_service.generate_text(request);

    // Verify
    assert!(result.is_ok());
    assert_eq!(result.unwrap(), "Generated text");
}

#[test]
fn chat_calls_each_port_exactly_once_on_success() {
    let character = Character::new(&CharacterName::new("Rin"), &Personality::new("cheerful"));

    let generator = Arc::new(StubGenerator {
        expected_target: Some(character.clone()),
        expected_request: Some(String::from("hello")),
        reply: Ok(String::from("hi there!")),
        calls: Cell::new(0),
    });
    let repository = Arc::new(StubRepository { record: Ok(character), finds: Cell::new(0) });

    let service = ChatService::new(generator.clone(), repository.clone());
    let result = service.generate_text(String::from("hello"));

    assert_eq!(result.unwrap(), "hi there!");
    assert_eq!(repository.finds.get(), 1);
    assert_eq!(generator.calls.get(), 1);
}

#[test]
fn chat_returns_the_generated_reply() {
    // Character "Rin"/"cheerful", message "hello", generator stub "hi there!".
    let character = Character::new(&CharacterName::new("Rin"), &Personality::new("cheerful"));
    let generator = Arc::new(StubGenerator::returning(Ok(String::from("hi there!"))));
    let repository = Arc::new(StubRepository { record: Ok(character), finds: Cell::new(0) });

    let service = ChatService::new(generator, repository);
    assert_eq!(service.generate_text(String::from("hello")).unwrap(), "hi there!");
}

#[test]
fn lookup_failure_skips_the_generator() {
    let generator = Arc::new(StubGenerator::returning(Ok(String::from("unreached"))));
    let repository = Arc::new(StubRepository {
        record: Err(CoreError::StorageError),
        finds: Cell::new(0),
    });

    let service = ChatService::new(generator.clone(), repository.clone());
    let result = service.generate_text(String::from("hello"));

    assert_eq!(result.unwrap_err(), CoreError::StorageError);
    assert_eq!(repository.finds.get(), 1);
    assert_eq!(generator.calls.get(), 0);
}

#[test]
fn empty_repository_yields_not_found_and_no_generation() {
    // A store with no record under the sentinel id.
    let generator = Arc::new(StubGenerator::returning(Ok(String::from("unreached"))));
    let repository = Arc::new(InMemoryCharacterRepository::new());

    let service = ChatService::new(generator.clone(), repository);
    let result = service.generate_text(String::from("hello"));

    assert_eq!(result.unwrap_err(), CoreError::NotFound);
    assert_eq!(generator.calls.get(), 0);
}

#[test]
fn generation_failure_is_returned_unchanged() {
    let character = Character::new(&CharacterName::new("Rin"), &Personality::new("cheerful"));
    let generator = Arc::new(StubGenerator::returning(Err(CoreError::GenerationError)));
    let repository = Arc::new(StubRepository { record: Ok(character), finds: Cell::new(0) });

    let service = ChatService::new(generator.clone(), repository);
    let result = service.generate_text(String::from("hello"));

    assert_eq!(result.unwrap_err(), CoreError::GenerationError);
    assert_eq!(generator.calls.get(), 1);
}

#[test]
fn chat_works_against_the_memory_store() {
    let character = Character::new(&CharacterName::new("Rin"), &Personality::new("cheerful"));
    let mut repo = InMemoryCharacterRepository::new();
    repo.create(&character).unwrap();

    let generator = Arc::new(StubGenerator {
        expected_target: Some(character),
        expected_request: Some(String::from("hello")),
        reply: Ok(String::from("hi there!")),
        calls: Cell::new(0),
    });

    let service = ChatService::new(generator.clone(), Arc::new(repo));
    assert_eq!(service.generate_text(String::from("hello")).unwrap(), "hi there!");
    assert_eq!(generator.calls.get(), 1);
}
