use vstd::prelude::*;

verus! {

/// Body of a chat request: the user's message text.
#[derive(Debug, Clone)]
pub struct ChatSimpleRequest {
    pub message: String,
}

/// Body of a chat response: the generated reply text.
#[derive(Debug, Clone)]
pub struct ChatSimpleResponse {
    pub message: String,
}

/// Body of a diagnostic echo request.
#[derive(Debug, Clone)]
pub struct EchoPayload {
    pub message: String,
}

/// Body of a diagnostic echo response.
#[derive(Debug, Clone)]
pub struct EchoResponse {
    pub message: String,
}

/// Body of a speech request: the text to synthesize.
#[derive(Debug, Clone)]
pub struct SpeakRequest {
    pub message: String,
}

/// Body of a talk request: the message to converse about and speak.
#[derive(Debug, Clone)]
pub struct TalkRequest {
    pub message: String,
}

/// The diagnostic passthrough: the response carries the payload's message
/// unchanged.
pub fn echo_response(payload: &EchoPayload) -> (r: EchoResponse)
    ensures
        r.message@ == payload.message@,
{
    EchoResponse { message: payload.message.clone() }
}

} // verus!
