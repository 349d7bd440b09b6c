//! Tests of the statement colors and the safety-confirmation reading.

use autodev::command_line::{
    classify_confirmation, ConfirmAnswer, PrintCommand, StatementColor,
};

#[test]
fn test_statement_colors() {
    assert_eq!(PrintCommand::AICall.statement_color(), StatementColor::Cyan);
    assert_eq!(PrintCommand::UnitTest.statement_color(), StatementColor::Magenta);
    assert_eq!(PrintCommand::Issue.statement_color(), StatementColor::Red);
}

#[test]
fn test_confirmation_affirmative_answers() {
    for answer in ["1", "yes", "y", "continue", "c", "ok"] {
        assert_eq!(classify_confirmation(answer), ConfirmAnswer::Affirm, "answer: {}", answer);
    }
}

#[test]
fn test_confirmation_negative_answers() {
    for answer in ["2", "no", "n", "exit", "e"] {
        assert_eq!(classify_confirmation(answer), ConfirmAnswer::Decline, "answer: {}", answer);
    }
}

#[test]
fn test_confirmation_ignores_case_and_whitespace() {
    assert_eq!(classify_confirmation("  YES \n"), ConfirmAnswer::Affirm);
    assert_eq!(classify_confirmation("Continue"), ConfirmAnswer::Affirm);
    assert_eq!(classify_confirmation("\tNo"), ConfirmAnswer::Decline);
    assert_eq!(classify_confirmation(" EXIT "), ConfirmAnswer::Decline);
}

#[test]
fn test_confirmation_unrecognized_answers() {
    for answer in ["maybe", "", "yess", "0", "quit"] {
        assert_eq!(
            classify_confirmation(answer),
            ConfirmAnswer::Unrecognized,
            "answer: {}",
            answer
        );
    }
}
