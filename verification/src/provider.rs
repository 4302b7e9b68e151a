use vstd::prelude::*;

use crate::character::Character;
use crate::errors::CoreError;
use crate::json::{json_doc_of, lookup, parse_json_text, spec_lookup, JsonValue};

verus! {

/// A credential for the text-generation provider, carried opaquely to the
/// transport layer.
#[derive(Debug)]
pub struct ApiKey(String);

impl View for ApiKey {
    type V = Seq<char>;

    closed spec fn view(&self) -> Seq<char> {
        self.0@
    }
}

impl ApiKey {
    pub fn new(key: &str) -> (r: Self)
        ensures
            r@ == key@,
    {
        Self(key.to_owned())
    }

    pub fn as_str(&self) -> (r: &str)
        ensures
            r@ == self@,
    {
        self.0.as_str()
    }
}

impl Clone for ApiKey {
    fn clone(&self) -> (r: Self)
        ensures
            r@ == self@,
    {
        Self(self.0.clone())
    }
}

/// One provider call's inputs: the personality text that conditions the
/// reply and the user's message.
#[derive(Debug)]
pub struct ChatRequest {
    personality_message: String,
    content_message: String,
}

impl ChatRequest {
    /// The personality text this request carries.
    pub closed spec fn spec_personality(&self) -> Seq<char> {
        self.personality_message@
    }

    /// The user message this request carries.
    pub closed spec fn spec_content(&self) -> Seq<char> {
        self.content_message@
    }

    pub fn new(personality_message: &str, content_message: &str) -> (r: Self)
        ensures
            r.spec_personality() == personality_message@,
            r.spec_content() == content_message@,
    {
        Self {
            personality_message: personality_message.to_owned(),
            content_message: content_message.to_owned(),
        }
    }

    pub fn personality_message(&self) -> (r: &str)
        ensures
            r@ == self.spec_personality(),
    {
        self.personality_message.as_str()
    }

    pub fn content_message(&self) -> (r: &str)
        ensures
            r@ == self.spec_content(),
    {
        self.content_message.as_str()
    }
}

impl Clone for ChatRequest {
    fn clone(&self) -> (r: Self)
        ensures
            r.spec_personality() == self.spec_personality(),
            r.spec_content() == self.spec_content(),
    {
        Self {
            personality_message: self.personality_message.clone(),
            content_message: self.content_message.clone(),
        }
    }
}

/// The inputs of one provider call for a chat: the personality of `target`
/// taken verbatim, and `request` as the user message.
pub fn chat_request_for(target: &Character, request: &str) -> (r: ChatRequest)
    ensures
        r.spec_personality() == target.personality@,
        r.spec_content() == request@,
{
    ChatRequest::new(target.personality.as_str(), request)
}

/// The conversational role a prompt message is sent under.
#[derive(Debug, Clone, Copy, PartialEq, Eq, Structural)]
pub enum Role {
    System,
    User,
    Assistant,
}

/// One message of the prompt handed to the provider.
#[derive(Debug)]
pub struct PromptMessage {
    pub role: Role,
    pub content: String,
}

/// Everything the transport layer needs for one provider call: the prompt
/// messages in order, and whether a constrained JSON-object reply is
/// demanded of the provider.
#[derive(Debug)]
pub struct ProviderRequest {
    pub messages: Vec<PromptMessage>,
    pub structured_output: bool,
}

/// Build the provider call for a chat request: a system-role instruction
/// carrying the personality text verbatim, then a user-role message carrying
/// the user's text, with a structured JSON-object reply demanded.
pub fn build_provider_request(request: &ChatRequest) -> (r: ProviderRequest)
    ensures
        r.messages@.len() == 2,
        r.messages@[0].role == Role::System,
        r.messages@[0].content@ == request.spec_personality(),
        r.messages@[1].role == Role::User,
        r.messages@[1].content@ == request.spec_content(),
        r.structured_output,
{
    let system = PromptMessage { role: Role::System, content: request.personality_message.clone() };
    let user = PromptMessage { role: Role::User, content: request.content_message.clone() };
    let mut messages: Vec<PromptMessage> = Vec::new();
    messages.push(system);
    messages.push(user);
    ProviderRequest { messages, structured_output: true }
}

/// A reply that met the structured-output contract.
#[derive(Debug)]
pub struct ChatResponse {
    pub message: String,
}

/// The reply text the structured-output contract accepts from a parsed
/// provider payload: the string under "message" in the top-level object, and
/// nothing else — no extraction from any other shape.
pub open spec fn spec_message_field(doc: JsonValue) -> Option<Seq<char>> {
    match doc {
        JsonValue::Object(entries) => match spec_lookup(entries@, "message"@) {
            Some(JsonValue::Text(s)) => Some(s@),
            _ => None,
        },
        _ => None,
    }
}

/// The reply text a raw provider payload yields under the structured-output
/// contract, or `None` where the payload is not JSON or has the wrong shape.
pub open spec fn spec_structured_reply(s: Seq<char>) -> Option<Seq<char>> {
    match json_doc_of(s) {
        Some(doc) => spec_message_field(doc),
        None => None,
    }
}

/// Apply the structured-output contract to a parsed payload: the reply is
/// the string under "message" in a top-level object. Any deviation — not an
/// object, the key missing, its value not a string — is a `GenerationError`,
/// never a best-effort extraction.
pub fn extract_reply(doc: &JsonValue) -> (r: Result<ChatResponse, CoreError>)
    ensures
        (match spec_message_field(*doc) {
            Some(m) => r matches Ok(resp) && resp.message@ == m,
            None => r == Err::<ChatResponse, CoreError>(CoreError::GenerationError),
        }),
{
    match doc {
        JsonValue::Object(entries) => match lookup(entries, "message") {
            Some(JsonValue::Text(s)) => Ok(ChatResponse { message: s.clone() }),
            _ => Err(CoreError::GenerationError),
        },
        _ => Err(CoreError::GenerationError),
    }
}

/// Parse a raw provider completion under the structured-output contract:
/// the payload must be a JSON object carrying the reply under "message".
/// Text that is not JSON, or JSON of any other shape, is a
/// `GenerationError`.
pub fn parse_structured_reply(payload: &str) -> (r: Result<ChatResponse, CoreError>)
    ensures
        (match spec_structured_reply(payload@) {
            Some(m) => r matches Ok(resp) && resp.message@ == m,
            None => r == Err::<ChatResponse, CoreError>(CoreError::GenerationError),
        }),
{
    match parse_json_text(payload) {
        Some(doc) => extract_reply(&doc),
        None => Err(CoreError::GenerationError),
    }
}

} // verus!
