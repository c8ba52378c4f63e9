//! The wording of what is sent to the text and chat generators, and of what
//! is made of their answers.

use crate::openai::{Message, MessageView};
use vstd::prelude::*;
use vstd::string::*;

verus! {

/// What introduces the user profile to the chat model.
pub const PROFILE_CONTEXT_HEAD: &'static str = "The following is information about MC you have gathered from previous conversations. ";

/// What introduces a recalled memory to the chat model, up to its age.
pub const MEMORY_CONTEXT_HEAD: &'static str = "You believe you may need additional information to respond. Here is a related memory from ";

/// What stands between the age of a recalled memory and its conversation.
pub const MEMORY_CONTEXT_JOINT: &'static str = " ago: ";

/// The manual memory check prompt up to the user profile.
pub const MANUAL_CHECK_PROMPT_HEAD: &'static str = "\n            \
    In the following conversation, you are 'assistant' (or Monikai).\n            \
    Decide and return JSON on whether based on the user profile and current conversation if you have the context to answer.\n            \
    If not, create a phrase to rack your memory for. For instance, if the user wants to know about a car recommendation:\n\
    \n            \
    Example:\n            \
    {\n                \
    \"needs_memory_check\": true,\n                \
    \"memory_check_phrase\": \"car recommendations\"\n            \
    }\n\
    \n            \
    USER PROFILE:\n            ";

/// What stands between the user profile and the recent conversation in both
/// memory check prompts.
pub const CHECK_PROMPT_JOINT: &'static str = "\n\
    \n            \
    RECENT CONVERSATION:\n            ";

/// The end of the manual memory check prompt, which opens the answer.
pub const MANUAL_CHECK_PROMPT_TAIL: &'static str = "\n\
    \n            \
    Response:\n            \
    {\n            ";

/// The automatic memory check prompt up to the user profile.
pub const AUTOMATIC_CHECK_PROMPT_HEAD: &'static str = "\n            \
    In the following conversation, you are the 'assistant' (or Monikai).\n            \
    Generate an incredibly short phrase to check your memory embeddings for similar things to the current conversation.\n\
    \n            \
    Example:\n            \
    {\n                \
    \"needs_memory_check\": true,\n                \
    \"memory_check_phrase\": \"car recommendations\"\n            \
    }\n\
    \n            \
    USER PROFILE:\n            ";

/// The end of the automatic memory check prompt, which opens the answer.
pub const AUTOMATIC_CHECK_PROMPT_TAIL: &'static str = "\n\
    \n            \
    Response:\n            \
    {\n                \
    \"needs_memory_check\": true,\n            ";

/// What the manual memory check prompt has already opened of the answer.
pub const MANUAL_CHECK_OPENING: &'static str = "{";

/// What the automatic memory check prompt has already opened of the answer.
pub const AUTOMATIC_CHECK_OPENING: &'static str = "{\"needs_memory_check\": true, ";

/// What the emotion prompt says before the description.
pub const EMOTION_PROMPT_HEAD: &'static str = "\n                ";

/// The task of the emotion prompt, between the description and the
/// conversation.
pub const EMOTION_PROMPT_TASK: &'static str = "\n\
    \n                \
    Based on the conversation, create an meotion (NEUTRAL | SAD | CRYING | LAUGHING | CONCERNED) that pairs well with your.\n\
    \n                \
    Example:\n                \
    {\n                    \
    \"message\": \"blah blah blah\",\n                    \
    \"emotion\": \"NEUTRAL | SAD | CRYING | LAUGHING | CONCERNED\"\n                \
    }\n\
    \n                \
    CONVERSATION:\n                ";

/// What stands between the conversation and the next response in the emotion
/// prompt.
pub const EMOTION_PROMPT_NEXT: &'static str = "\n\
    \n                \
    NEXT RESPONSE:\n                ";

/// What opens the answer of the emotion prompt, up to the repeated response.
pub const EMOTION_PROMPT_OPENING: &'static str = "\n\
    \n                \
    {\"message\":\"";

/// The end of the emotion prompt.
pub const EMOTION_PROMPT_TAIL: &'static str = "\",\"emotion\":\n            ";

/// What a reply sent to a client says before the response.
pub const REPLY_HEAD: &'static str = "{\"message\": \"";

/// What stands between the response and the emotion in a reply sent to a
/// client.
pub const REPLY_JOINT: &'static str = "\",\"emotion\":";

/// The turn that tells the chat model what is known of the counterpart.
pub open spec fn profile_context_view(user_profile: Seq<char>) -> MessageView {
    MessageView { role: "system"@, content: PROFILE_CONTEXT_HEAD@ + user_profile }
}

/// The turn that hands the chat model a recalled conversation and its age.
pub open spec fn memory_context_view(age: Seq<char>, conversation: Seq<char>) -> MessageView {
    MessageView {
        role: "system"@,
        content: MEMORY_CONTEXT_HEAD@ + age + MEMORY_CONTEXT_JOINT@ + conversation,
    }
}

/// The prompt that asks whether a memory is needed to answer, and for which
/// phrase to search.
pub open spec fn manual_memory_check_prompt_text(
    user_profile: Seq<char>,
    recent: Seq<char>,
) -> Seq<char> {
    MANUAL_CHECK_PROMPT_HEAD@ + user_profile + CHECK_PROMPT_JOINT@ + recent
        + MANUAL_CHECK_PROMPT_TAIL@
}

/// The prompt that asks for a phrase to search the memories for.
pub open spec fn automatic_memory_check_prompt_text(
    user_profile: Seq<char>,
    recent: Seq<char>,
) -> Seq<char> {
    AUTOMATIC_CHECK_PROMPT_HEAD@ + user_profile + CHECK_PROMPT_JOINT@ + recent
        + AUTOMATIC_CHECK_PROMPT_TAIL@
}

/// The prompt that asks for the emotion that goes with `response`.
pub open spec fn emotion_prompt_text(
    description: Seq<char>,
    conversation: Seq<char>,
    response: Seq<char>,
) -> Seq<char> {
    EMOTION_PROMPT_HEAD@ + description + EMOTION_PROMPT_TASK@ + conversation
        + EMOTION_PROMPT_NEXT@ + response + EMOTION_PROMPT_OPENING@ + response
        + EMOTION_PROMPT_TAIL@
}

/// The turn that tells the chat model what is known of the counterpart.
pub fn profile_context(user_profile: &str) -> (turn: Message)
    ensures
        turn@ == profile_context_view(user_profile@),
{
    let mut content = String::from_str(PROFILE_CONTEXT_HEAD);
    content.append(user_profile);
    Message::new("system", content)
}

/// The turn that hands the chat model a recalled conversation and its age.
pub fn memory_context(age: &str, conversation: &str) -> (turn: Message)
    ensures
        turn@ == memory_context_view(age@, conversation@),
{
    let mut content = String::from_str(MEMORY_CONTEXT_HEAD);
    content.append(age);
    content.append(MEMORY_CONTEXT_JOINT);
    content.append(conversation);
    Message::new("system", content)
}

/// The prompt that asks the text generator whether a memory is needed to
/// answer `recent`, given `user_profile`.
pub fn manual_memory_check_prompt(user_profile: &str, recent: &str) -> (prompt: String)
    ensures
        prompt@ == manual_memory_check_prompt_text(user_profile@, recent@),
{
    let mut prompt = String::from_str(MANUAL_CHECK_PROMPT_HEAD);
    prompt.append(user_profile);
    prompt.append(CHECK_PROMPT_JOINT);
    prompt.append(recent);
    prompt.append(MANUAL_CHECK_PROMPT_TAIL);
    prompt
}

/// The prompt that asks the text generator for a phrase by which to search
/// the memories, given `user_profile` and `recent`.
pub fn automatic_memory_check_prompt(user_profile: &str, recent: &str) -> (prompt: String)
    ensures
        prompt@ == automatic_memory_check_prompt_text(user_profile@, recent@),
{
    let mut prompt = String::from_str(AUTOMATIC_CHECK_PROMPT_HEAD);
    prompt.append(user_profile);
    prompt.append(CHECK_PROMPT_JOINT);
    prompt.append(recent);
    prompt.append(AUTOMATIC_CHECK_PROMPT_TAIL);
    prompt
}

/// Completes the answer to a manual memory check prompt to the document that
/// the prompt opened.
pub fn manual_memory_check(answer: &str) -> (document: String)
    ensures
        document@ == MANUAL_CHECK_OPENING@ + answer@,
{
    let mut document = String::from_str(MANUAL_CHECK_OPENING);
    document.append(answer);
    document
}

/// Completes the answer to an automatic memory check prompt to the document
/// that the prompt opened.
pub fn automatic_memory_check(answer: &str) -> (document: String)
    ensures
        document@ == AUTOMATIC_CHECK_OPENING@ + answer@,
{
    let mut document = String::from_str(AUTOMATIC_CHECK_OPENING);
    document.append(answer);
    document
}

/// The prompt that asks the text generator for the emotion that goes with
/// `response`, the latest turn of `conversation`.
pub fn emotion_prompt(description: &str, conversation: &str, response: &str) -> (prompt: String)
    ensures
        prompt@ == emotion_prompt_text(description@, conversation@, response@),
{
    let mut prompt = String::from_str(EMOTION_PROMPT_HEAD);
    prompt.append(description);
    prompt.append(EMOTION_PROMPT_TASK);
    prompt.append(conversation);
    prompt.append(EMOTION_PROMPT_NEXT);
    prompt.append(response);
    prompt.append(EMOTION_PROMPT_OPENING);
    prompt.append(response);
    prompt.append(EMOTION_PROMPT_TAIL);
    prompt
}

/// What is sent to a client: the response, and the emotion as the text
/// generator completed it.
pub fn response_with_emotion(response: &str, emotion: &str) -> (reply: String)
    ensures
        reply@ == REPLY_HEAD@ + response@ + REPLY_JOINT@ + emotion@,
{
    let mut reply = String::from_str(REPLY_HEAD);
    reply.append(response);
    reply.append(REPLY_JOINT);
    reply.append(emotion);
    reply
}

} // verus!
