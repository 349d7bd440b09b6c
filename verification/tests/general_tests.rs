//! Tests of the prompt-message builder and the task request retry policy.

use autodev::llm::{
    extend_ai_function, build_chat_completion, extract_response, APIChoice, APIMessage,
    APIResponse, CompletionError, Message,
};
use autodev::task::{TaskRequestPolicy, TaskStep};

fn convert_user_input_to_goal(user_request: &str) -> String {
    format!("print_user_input_to_goal({})", user_request)
}

#[test]
fn tests_extending_ai_function() {
    let extended_msg: Message = extend_ai_function(convert_user_input_to_goal, "dummy input");
    assert!(
        extended_msg.role == "system".to_string(),
        "The role should be system"
    );
}

#[test]
fn test_extended_message_mentions_input() {
    let msg = extend_ai_function(convert_user_input_to_goal, "dummy input");
    assert!(msg.content.starts_with("FUNCTION: print_user_input_to_goal(dummy input)"));
    assert!(msg.content.contains("You are a function printer"));
    assert!(msg.content.contains("Here is the input to the function: dummy input."));
}

#[test]
fn test_build_chat_completion_fixed_parameters() {
    let messages = vec![Message { role: "user".to_string(), content: "hi".to_string() }];
    let payload = build_chat_completion(messages);
    assert_eq!(payload.model, "gpt-4-turbo-2024-04-09");
    assert_eq!(payload.temperature_tenths, 1);
    assert_eq!(payload.messages.len(), 1);
    assert_eq!(payload.messages[0].content, "hi");
}

fn one_choice_response(content: &str) -> APIResponse {
    APIResponse {
        choices: vec![APIChoice {
            message: APIMessage { content: content.to_string(), role: "assistant".to_string() },
            finish_reason: None,
            logprobs: None,
        }],
        usage: None,
    }
}

#[test]
fn test_extract_response_trims_first_choice() {
    let res = one_choice_response("  fn main() {}\n\n");
    assert_eq!(extract_response(&res), Ok("fn main() {}".to_string()));
}

#[test]
fn test_extract_response_empty_choices_is_error() {
    let res = APIResponse { choices: vec![], usage: None };
    assert_eq!(extract_response(&res), Err(CompletionError::EmptyResponse));
}

#[test]
fn test_retry_policy_first_success_is_one_call() {
    let mut policy = TaskRequestPolicy::new();
    let step = policy.record_outcome(Ok("answer".to_string()));
    assert!(matches!(step, TaskStep::Deliver(t) if t == "answer"));
    assert_eq!(policy.attempts_made, 1);
}

#[test]
fn test_retry_policy_retries_exactly_once() {
    let mut policy = TaskRequestPolicy::new();
    let step = policy.record_outcome(Err(CompletionError::Transport));
    assert!(matches!(step, TaskStep::CallAgain));
    let step = policy.record_outcome(Ok("second answer".to_string()));
    assert!(matches!(step, TaskStep::Deliver(t) if t == "second answer"));
    // exactly two underlying calls were made
    assert_eq!(policy.attempts_made, 2);
}

#[test]
fn test_retry_policy_two_failures_are_fatal() {
    let mut policy = TaskRequestPolicy::new();
    let step = policy.record_outcome(Err(CompletionError::Auth));
    assert!(matches!(step, TaskStep::CallAgain));
    let step = policy.record_outcome(Err(CompletionError::EmptyResponse));
    assert!(matches!(step, TaskStep::FailFatal));
    assert_eq!(policy.attempts_made, 2);
}
