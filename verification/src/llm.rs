//! Request and response shapes of the external completion service, and the
//! verified part of the completion client: assembling the request payload and
//! extracting the answer text from a decoded response.

use vstd::prelude::*;
use vstd::string::StringExecFns;
use crate::text::{trim_spec, trim_text, is_space_char, lemma_trim_nonempty, lemma_trim_idempotent};

verus! {

/// One role-tagged message sent to the completion service.
#[derive(Debug)]
pub struct Message {
    pub role: String,
    pub content: String,
}

impl Clone for Message {
    fn clone(&self) -> (r: Self)
        ensures
            r == *self,
    {
        Message { role: self.role.clone(), content: self.content.clone() }
    }
}

/// The request payload: model identifier, ordered messages, and the sampling
/// temperature in tenths (the service takes the value divided by ten; it is
/// held here as an integer so the payload stays a plain value).
#[derive(Debug)]
pub struct ChatCompletion {
    pub model: String,
    pub messages: Vec<Message>,
    pub temperature_tenths: u8,
}

/// The answer message inside one returned choice.
#[derive(Debug)]
pub struct APIMessage {
    pub content: String,
    pub role: String,
}

/// One returned choice.  `logprobs` is carried as opaque text; the library
/// never reads into it.
#[derive(Debug)]
pub struct APIChoice {
    pub message: APIMessage,
    pub finish_reason: Option<String>,
    pub logprobs: Option<String>,
}

/// Token-usage counters of one completion call.
#[derive(Debug)]
pub struct Usage {
    pub prompt_tokens: usize,
    pub completion_tokens: usize,
    pub total_tokens: usize,
}

/// A decoded completion response.
#[derive(Debug)]
pub struct APIResponse {
    pub choices: Vec<APIChoice>,
    pub usage: Option<Usage>,
}

/// Why a single completion call failed.
#[derive(Debug, Clone, Copy, PartialEq, Eq, Structural)]
pub enum CompletionError {
    /// The service was unreachable or answered malformed data.
    Transport,
    /// The credentials for the service were missing or rejected.
    Auth,
    /// The service answered, but with an empty list of choices.
    EmptyResponse,
}

/// The model identifier every request is sent with.
pub open spec fn model_name() -> Seq<char> {
    "gpt-4-turbo-2024-04-09"@
}

/// Assembles the request payload: the fixed model, the given messages, and
/// the fixed low sampling temperature of one tenth.
pub fn build_chat_completion(messages: Vec<Message>) -> (c: ChatCompletion)
    ensures
        c.model@ == model_name(),
        c.messages == messages,
        c.temperature_tenths == 1u8,
{
    ChatCompletion {
        model: String::from_str("gpt-4-turbo-2024-04-09"),
        messages,
        temperature_tenths: 1,
    }
}

/// The instruction text built around a prompt template's output: it names
/// the function, forbids commentary, and demands only the function's
/// computed output for the given input.
pub open spec fn extended_message_text(ai_function_text: Seq<char>, func_input: Seq<char>) -> Seq<
    char,
> {
    "FUNCTION: "@ + ai_function_text
        + "\nINSTRUCTIONS: You are a function printer. You ONLY print the results of functions. Nothing else. No commentary. Here is the input to the function: "@
        + func_input + ".\nPrint out what the function will return."@
}

/// Builds the system-level instruction message for one task request: applies
/// the prompt template to the input and wraps what it printed in an
/// instruction that forbids commentary and demands only the function's
/// computed output.
pub fn extend_ai_function<F: Fn(&str) -> String>(ai_funct: F, func_input: &str) -> (msg: Message)
    requires
        call_requires(ai_funct, (func_input,)),
    ensures
        msg.role@ == "system"@,
        exists|out: String|
            call_ensures(ai_funct, (func_input,), out) && msg.content@ == extended_message_text(
                out@,
                func_input@,
            ),
{
    let ai_function_str = ai_funct(func_input);
    let mut content = String::from_str("FUNCTION: ");
    content.append(ai_function_str.as_str());
    content.append(
        "\nINSTRUCTIONS: You are a function printer. You ONLY print the results of functions. Nothing else. No commentary. Here is the input to the function: ",
    );
    content.append(func_input);
    content.append(".\nPrint out what the function will return.");
    let msg = Message { role: String::from_str("system"), content };
    proof {
        assert(call_ensures(ai_funct, (func_input,), ai_function_str) && msg.content@
            == extended_message_text(ai_function_str@, func_input@));
    }
    msg
}

/// What extracting an answer from a decoded response yields: the first
/// choice's content with surrounding whitespace removed, or
/// `EmptyResponse` when the service returned no choices.
pub open spec fn extract_response_spec(res: APIResponse) -> Result<Seq<char>, CompletionError> {
    if res.choices@.len() == 0 {
        Err(CompletionError::EmptyResponse)
    } else {
        Ok(trim_spec(res.choices@[0].message.content@))
    }
}

/// Extracts the answer text of a decoded completion response: the first
/// choice's content, trimmed of surrounding whitespace.
pub fn extract_response(res: &APIResponse) -> (r: Result<String, CompletionError>)
    ensures
        r is Ok <==> res.choices@.len() > 0,
        r is Ok ==> r->Ok_0@ == trim_spec(res.choices@[0].message.content@),
        r is Err ==> r->Err_0 == CompletionError::EmptyResponse,
{
    if res.choices.len() == 0 {
        Err(CompletionError::EmptyResponse)
    } else {
        let first = &res.choices[0];
        Ok(trim_text(first.message.content.as_str()))
    }
}

/// A successful completion call answers with non-empty trimmed text whenever
/// the first returned choice holds any non-whitespace character, and an empty
/// choices list always yields `EmptyResponse`.
pub proof fn lemma_completion_extraction(res: APIResponse)
    ensures
        res.choices@.len() == 0 ==> extract_response_spec(res) == Err::<Seq<char>,
            CompletionError,
        >(CompletionError::EmptyResponse),
        res.choices@.len() > 0 ==> extract_response_spec(res) == Ok::<Seq<char>,
            CompletionError,
        >(trim_spec(res.choices@[0].message.content@)),
        res.choices@.len() > 0 ==> trim_spec(extract_response_spec(res)->Ok_0)
            == extract_response_spec(res)->Ok_0,
        res.choices@.len() > 0 && (exists|j: int|
            0 <= j < res.choices@[0].message.content@.len() && !is_space_char(
                res.choices@[0].message.content@[j],
            )) ==> extract_response_spec(res)->Ok_0.len() > 0,
{
    if res.choices@.len() > 0 {
        let content = res.choices@[0].message.content@;
        lemma_trim_idempotent(content);
        if exists|j: int| 0 <= j < content.len() && !is_space_char(content[j]) {
            lemma_trim_nonempty(content);
        }
    }
}

} // verus!
