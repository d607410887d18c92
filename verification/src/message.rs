//! Role-tagged chat messages and the two fixed system instructions.

use vstd::prelude::*;
use vstd::string::*;

verus! {

/// The role a chat message is tagged with when it is sent upstream.
#[derive(Debug, Clone, Copy, PartialEq, Eq, Structural)]
pub enum Role {
    System,
    User,
}

/// One role-tagged message of a prompt. Produced fresh per request and never
/// mutated after construction.
#[derive(Debug, Clone)]
pub struct ChatMessage {
    pub role: Role,
    pub content: String,
}

/// The fixed instruction that sets the upstream service up to classify
/// intent and answer with a JSON object holding `reason` and `is_roadmap`.
pub open spec fn detection_prompt() -> Seq<char> {
    "You are an intent classifier. Decide whether the user's message is asking for a roadmap: a step-by-step plan towards a goal. Reply with nothing but a JSON object of the shape {\"reason\": <string explaining your decision>, \"is_roadmap\": <boolean>}."@
}

/// The fixed instruction that sets the upstream service up to produce a
/// roadmap as free-form text.
pub open spec fn creation_prompt() -> Seq<char> {
    "You are a roadmap writer. Produce a clear, numbered, step-by-step roadmap that takes the user from where they are to the goal described in their message. Reply with the roadmap as plain text and nothing else."@
}

/// The system instruction for the detection (intent classification) path.
pub fn system_message_detection() -> (m: ChatMessage)
    ensures
        m.role == Role::System,
        m.content@ == detection_prompt(),
{
    ChatMessage {
        role: Role::System,
        content: String::from_str(
            "You are an intent classifier. Decide whether the user's message is asking for a roadmap: a step-by-step plan towards a goal. Reply with nothing but a JSON object of the shape {\"reason\": <string explaining your decision>, \"is_roadmap\": <boolean>}.",
        ),
    }
}

/// The system instruction for the creation (roadmap generation) path.
pub fn system_message_creation() -> (m: ChatMessage)
    ensures
        m.role == Role::System,
        m.content@ == creation_prompt(),
{
    ChatMessage {
        role: Role::System,
        content: String::from_str(
            "You are a roadmap writer. Produce a clear, numbered, step-by-step roadmap that takes the user from where they are to the goal described in their message. Reply with the roadmap as plain text and nothing else.",
        ),
    }
}

/// Wraps an assembled prompt buffer as the user-role message of a request.
pub fn user_message(message: String) -> (m: ChatMessage)
    ensures
        m.role == Role::User,
        m.content == message,
{
    ChatMessage { role: Role::User, content: message }
}

} // verus!
