//! Tests of the backend developer agent's state machine: the happy path, the
//! repair loop, endpoint filtering and the abort conditions.

use autodev::agent_backend::{
    filter_probe_routes, fix_code_context, improved_code_context, initial_code_context,
    extract_endpoints_context, render_fact_sheet, AbortReason, AgentAction, AgentBackendDeveloper,
    AgentEvent, PromptKind,
};
use autodev::agent_traits::{FactSheet, ProjectScope, RouteObject};
use autodev::basic_agent::AgentState;

fn fresh_fact_sheet(description: &str) -> FactSheet {
    FactSheet {
        project_description: description.to_string(),
        project_scope: None,
        external_urls: None,
        backend_code: None,
        api_endpoint_schema: None,
    }
}

fn route(method: &str, dynamic: bool, path: &str) -> RouteObject {
    RouteObject {
        is_route_dynamic: dynamic,
        method: method.to_string(),
        request_body: "null".to_string(),
        response: "null".to_string(),
        route: path.to_string(),
    }
}

#[test]
fn test_new_agent_attributes() {
    let agent = AgentBackendDeveloper::new();
    let attributes = agent.get_attributes_from_agent();
    assert_eq!(attributes.objective, "Develops backend code for webserver and json database");
    assert_eq!(attributes.position, "Backend Developer");
    assert_eq!(attributes.state, AgentState::Discovery);
    assert!(attributes.memory.is_empty());
    assert_eq!(agent.bug_count, 0);
    assert!(agent.bug_errors.is_none());
    assert!(!agent.server_running);
}

#[test]
fn test_endpoint_filtering_keeps_static_get_routes_only() {
    let routes = vec![
        route("get", false, "/time"),
        route("post", false, "/time"),
        route("get", true, "/users/:id"),
    ];
    let filtered = filter_probe_routes(&routes);
    assert_eq!(filtered.len(), 1);
    assert_eq!(filtered[0].route, "/time");
    assert_eq!(filtered[0].method, "get");
    assert!(!filtered[0].is_route_dynamic);
}

/// Drives a fresh agent up to the first build, answering every request with
/// canned outcomes.  Returns the agent and the fact sheet at the point where
/// the build was just asked for.
fn drive_to_first_build(description: &str) -> (AgentBackendDeveloper, FactSheet) {
    let mut agent = AgentBackendDeveloper::new();
    let mut fs = fresh_fact_sheet(description);

    let a = agent.step(&mut fs, AgentEvent::Proceed);
    assert!(matches!(a, AgentAction::ReadCodeTemplate));

    let a = agent.step(
        &mut fs,
        AgentEvent::FileRead { contents: "fn main() { /* template */ }".to_string() },
    );
    match a {
        AgentAction::RequestCompletion { kind, context } => {
            assert_eq!(kind, PromptKind::InitialCode);
            assert!(context.contains(description));
        },
        other => panic!("expected a completion request, got {:?}", other),
    }

    let a = agent.step(
        &mut fs,
        AgentEvent::CompletionDelivered { text: "```rust\nfn main() { serve(); }\n```".to_string() },
    );
    match a {
        AgentAction::PersistCode { code } => {
            assert_eq!(code, "\nfn main() { serve(); }\n");
        },
        other => panic!("expected a code persist, got {:?}", other),
    }
    assert_eq!(agent.get_attributes_from_agent().state, AgentState::Working);
    assert_eq!(fs.backend_code.as_deref(), Some("\nfn main() { serve(); }\n"));

    let a = agent.step(&mut fs, AgentEvent::Proceed);
    match a {
        AgentAction::RequestCompletion { kind, .. } => {
            assert_eq!(kind, PromptKind::ImproveCode);
        },
        other => panic!("expected a refinement request, got {:?}", other),
    }

    let a = agent.step(
        &mut fs,
        AgentEvent::CompletionDelivered { text: "```rust\nfn main() { serve_well(); }\n```".to_string() },
    );
    assert!(matches!(a, AgentAction::PersistCode { .. }));
    assert_eq!(agent.get_attributes_from_agent().state, AgentState::UnitTesting);

    let a = agent.step(&mut fs, AgentEvent::Proceed);
    assert!(matches!(a, AgentAction::AskConfirmation));

    let a = agent.step(&mut fs, AgentEvent::ConfirmationAnswered { safe: true });
    assert!(matches!(a, AgentAction::RunBuild));

    (agent, fs)
}

/// Drives an agent whose build just succeeded through endpoint extraction,
/// probing and teardown, to Finished.
fn drive_validation(
    agent: &mut AgentBackendDeveloper,
    fs: &mut FactSheet,
    routes: Vec<RouteObject>,
    expected_probes: &[&str],
) {
    let a = agent.step(fs, AgentEvent::BuildFinished { success: true, stderr: String::new() });
    assert!(matches!(a, AgentAction::ReadGeneratedCode));
    assert_eq!(agent.bug_count, 0);

    let a = agent.step(
        fs,
        AgentEvent::FileRead { contents: "fn main() { serve_well(); }".to_string() },
    );
    match a {
        AgentAction::RequestCompletion { kind, context } => {
            assert_eq!(kind, PromptKind::ExtractEndpoints);
            assert!(context.starts_with("CODE_INPUT: "));
        },
        other => panic!("expected an extraction request, got {:?}", other),
    }

    let schema_text = "[{\"method\":\"get\"}]".to_string();
    let a = agent.step(fs, AgentEvent::CompletionDelivered { text: schema_text.clone() });
    match a {
        AgentAction::DecodeEndpoints { text } => assert_eq!(text, schema_text),
        other => panic!("expected a decode, got {:?}", other),
    }

    let full_len = routes.len();
    let a = agent.step(fs, AgentEvent::EndpointsDecoded { routes });
    assert!(matches!(a, AgentAction::SpawnServer));
    // the full unfiltered schema is what the fact sheet stores
    assert_eq!(fs.api_endpoint_schema.as_ref().map(|r| r.len()), Some(full_len));

    let a = agent.step(fs, AgentEvent::Proceed);
    assert!(matches!(a, AgentAction::WaitWarmup));
    assert!(agent.server_running);

    let mut a = agent.step(fs, AgentEvent::Proceed);
    for expected in expected_probes {
        match a {
            AgentAction::Probe { ref url } => {
                assert_eq!(url, &format!("http://localhost:8080{}", expected));
            },
            ref other => panic!("expected a probe of {}, got {:?}", expected, other),
        }
        a = agent.step(fs, AgentEvent::ProbeResponded { status: 200 });
    }
    match a {
        AgentAction::PersistEndpoints { text } => assert_eq!(text, schema_text),
        other => panic!("expected the schema persist, got {:?}", other),
    }

    let a = agent.step(fs, AgentEvent::Proceed);
    assert!(matches!(a, AgentAction::KillServer));

    let a = agent.step(fs, AgentEvent::Proceed);
    assert!(matches!(a, AgentAction::Finish));
    assert_eq!(agent.get_attributes_from_agent().state, AgentState::Finished);
    assert!(!agent.server_running);
}

#[test]
fn tests_writing_backend_code() {
    // a successful run over a one-endpoint time-of-day service:
    // Discovery -> Working -> UnitTesting -> Finished, code and schema
    // populated, no server process left behind
    let (mut agent, mut fs) = drive_to_first_build("time-of-day service");
    let routes = vec![
        route("get", false, "/time"),
        route("post", false, "/time"),
        route("get", true, "/users/:id"),
    ];
    drive_validation(&mut agent, &mut fs, routes, &["/time"]);
    assert!(fs.backend_code.is_some());
    assert!(fs.api_endpoint_schema.is_some());
    assert_eq!(fs.api_endpoint_schema.as_ref().unwrap().len(), 3);
}

#[test]
fn test_repair_loop_two_failures_then_success() {
    let (mut agent, mut fs) = drive_to_first_build("time-of-day service");

    // first failure: one repair cycle
    let a = agent.step(
        &mut fs,
        AgentEvent::BuildFinished { success: false, stderr: "error: missing semicolon".to_string() },
    );
    match a {
        AgentAction::RequestCompletion { kind, context } => {
            assert_eq!(kind, PromptKind::FixBugs);
            assert!(context.contains("error: missing semicolon"));
        },
        other => panic!("expected a repair request, got {:?}", other),
    }
    assert_eq!(agent.get_attributes_from_agent().state, AgentState::Working);
    assert_eq!(agent.bug_count, 1);

    let a = agent.step(
        &mut fs,
        AgentEvent::CompletionDelivered { text: "fn main() { fixed_once(); }".to_string() },
    );
    assert!(matches!(a, AgentAction::PersistCode { .. }));
    let a = agent.step(&mut fs, AgentEvent::Proceed);
    assert!(matches!(a, AgentAction::AskConfirmation));
    let a = agent.step(&mut fs, AgentEvent::ConfirmationAnswered { safe: true });
    assert!(matches!(a, AgentAction::RunBuild));

    // second failure: second repair cycle
    let a = agent.step(
        &mut fs,
        AgentEvent::BuildFinished { success: false, stderr: "error: type mismatch".to_string() },
    );
    assert!(matches!(a, AgentAction::RequestCompletion { kind: PromptKind::FixBugs, .. }));
    assert_eq!(agent.bug_count, 2);

    let a = agent.step(
        &mut fs,
        AgentEvent::CompletionDelivered { text: "fn main() { fixed_twice(); }".to_string() },
    );
    assert!(matches!(a, AgentAction::PersistCode { .. }));
    let a = agent.step(&mut fs, AgentEvent::Proceed);
    assert!(matches!(a, AgentAction::AskConfirmation));
    let a = agent.step(&mut fs, AgentEvent::ConfirmationAnswered { safe: true });
    assert!(matches!(a, AgentAction::RunBuild));

    // the third build succeeds: the post-build steps are reached, the
    // failure count resets, and exactly two repair cycles were spent
    let a = agent.step(&mut fs, AgentEvent::BuildFinished { success: true, stderr: String::new() });
    assert!(matches!(a, AgentAction::ReadGeneratedCode));
    assert_eq!(agent.bug_count, 0);
}

#[test]
fn test_third_build_failure_aborts() {
    let (mut agent, mut fs) = drive_to_first_build("time-of-day service");

    for expected_count in [1u8, 2] {
        let a = agent.step(
            &mut fs,
            AgentEvent::BuildFinished { success: false, stderr: "error".to_string() },
        );
        assert!(matches!(a, AgentAction::RequestCompletion { kind: PromptKind::FixBugs, .. }));
        assert_eq!(agent.bug_count, expected_count);
        assert!(agent.bug_count <= 2);

        let a = agent.step(
            &mut fs,
            AgentEvent::CompletionDelivered { text: "fn main() {}".to_string() },
        );
        assert!(matches!(a, AgentAction::PersistCode { .. }));
        let a = agent.step(&mut fs, AgentEvent::Proceed);
        assert!(matches!(a, AgentAction::AskConfirmation));
        let a = agent.step(&mut fs, AgentEvent::ConfirmationAnswered { safe: true });
        assert!(matches!(a, AgentAction::RunBuild));
    }

    // a third consecutive failure aborts instead of looping again
    let a = agent.step(
        &mut fs,
        AgentEvent::BuildFinished { success: false, stderr: "error".to_string() },
    );
    assert!(matches!(a, AgentAction::Abort { reason: AbortReason::TooManyBugs }));
    assert!(agent.bug_count <= 2);
}

#[test]
fn test_declined_confirmation_aborts() {
    let mut agent = AgentBackendDeveloper::new();
    let mut fs = fresh_fact_sheet("time-of-day service");
    agent.step(&mut fs, AgentEvent::Proceed);
    agent.step(&mut fs, AgentEvent::FileRead { contents: "template".to_string() });
    agent.step(&mut fs, AgentEvent::CompletionDelivered { text: "code".to_string() });
    agent.step(&mut fs, AgentEvent::Proceed);
    agent.step(&mut fs, AgentEvent::CompletionDelivered { text: "better code".to_string() });
    let a = agent.step(&mut fs, AgentEvent::Proceed);
    assert!(matches!(a, AgentAction::AskConfirmation));
    let a = agent.step(&mut fs, AgentEvent::ConfirmationAnswered { safe: false });
    assert!(matches!(a, AgentAction::Abort { reason: AbortReason::UserDeclined }));
}

#[test]
fn test_decode_failure_aborts() {
    let (mut agent, mut fs) = drive_to_first_build("time-of-day service");
    let a = agent.step(&mut fs, AgentEvent::BuildFinished { success: true, stderr: String::new() });
    assert!(matches!(a, AgentAction::ReadGeneratedCode));
    agent.step(&mut fs, AgentEvent::FileRead { contents: "code".to_string() });
    agent.step(&mut fs, AgentEvent::CompletionDelivered { text: "not json".to_string() });
    let a = agent.step(&mut fs, AgentEvent::DecodeFailed);
    assert!(matches!(a, AgentAction::Abort { reason: AbortReason::DecodeFailed }));
}

#[test]
fn test_completion_failure_aborts() {
    let mut agent = AgentBackendDeveloper::new();
    let mut fs = fresh_fact_sheet("time-of-day service");
    agent.step(&mut fs, AgentEvent::Proceed);
    agent.step(&mut fs, AgentEvent::FileRead { contents: "template".to_string() });
    let a = agent.step(&mut fs, AgentEvent::CompletionFailed);
    assert!(matches!(a, AgentAction::Abort { reason: AbortReason::CompletionFailed }));
}

#[test]
fn test_probe_transport_failure_kills_server_and_stops_probing() {
    let (mut agent, mut fs) = drive_to_first_build("time-of-day service");
    let a = agent.step(&mut fs, AgentEvent::BuildFinished { success: true, stderr: String::new() });
    assert!(matches!(a, AgentAction::ReadGeneratedCode));
    agent.step(&mut fs, AgentEvent::FileRead { contents: "code".to_string() });
    agent.step(&mut fs, AgentEvent::CompletionDelivered { text: "[]".to_string() });
    let routes = vec![route("get", false, "/a"), route("get", false, "/b")];
    agent.step(&mut fs, AgentEvent::EndpointsDecoded { routes });
    agent.step(&mut fs, AgentEvent::Proceed);
    let a = agent.step(&mut fs, AgentEvent::Proceed);
    assert!(matches!(a, AgentAction::Probe { .. }));

    // the first probe fails at the transport level: the server is shut down
    // at once and the remaining probe is given up
    let a = agent.step(&mut fs, AgentEvent::ProbeFailed);
    assert!(matches!(a, AgentAction::KillServer));
    let a = agent.step(&mut fs, AgentEvent::Proceed);
    assert!(matches!(a, AgentAction::PersistEndpoints { .. }));
    assert!(!agent.server_running);
    let a = agent.step(&mut fs, AgentEvent::Proceed);
    assert!(matches!(a, AgentAction::Finish));
    assert_eq!(agent.get_attributes_from_agent().state, AgentState::Finished);
    assert!(!agent.server_running);
}

#[test]
fn test_non_200_probe_answer_is_not_fatal() {
    let (mut agent, mut fs) = drive_to_first_build("time-of-day service");
    let a = agent.step(&mut fs, AgentEvent::BuildFinished { success: true, stderr: String::new() });
    assert!(matches!(a, AgentAction::ReadGeneratedCode));
    agent.step(&mut fs, AgentEvent::FileRead { contents: "code".to_string() });
    agent.step(&mut fs, AgentEvent::CompletionDelivered { text: "[]".to_string() });
    let routes = vec![route("get", false, "/a"), route("get", false, "/b")];
    agent.step(&mut fs, AgentEvent::EndpointsDecoded { routes });
    agent.step(&mut fs, AgentEvent::Proceed);
    let a = agent.step(&mut fs, AgentEvent::Proceed);
    assert!(matches!(a, AgentAction::Probe { url } if url == "http://localhost:8080/a"));

    // a 404 is only warned about: probing continues with the next route
    let a = agent.step(&mut fs, AgentEvent::ProbeResponded { status: 404 });
    assert!(matches!(a, AgentAction::Probe { url } if url == "http://localhost:8080/b"));
    let a = agent.step(&mut fs, AgentEvent::ProbeResponded { status: 200 });
    assert!(matches!(a, AgentAction::PersistEndpoints { .. }));
    assert!(agent.server_running);
}

#[test]
fn test_unmatched_event_is_a_no_op() {
    let mut agent = AgentBackendDeveloper::new();
    let mut fs = fresh_fact_sheet("time-of-day service");
    let a = agent.step(&mut fs, AgentEvent::ProbeFailed);
    assert!(matches!(a, AgentAction::Hold));
    assert_eq!(agent.get_attributes_from_agent().state, AgentState::Discovery);
    assert!(fs.backend_code.is_none());
}

#[test]
fn test_context_builders_exact_text() {
    let fs = FactSheet {
        project_description: "time-of-day service".to_string(),
        project_scope: Some(ProjectScope {
            is_crud_required: false,
            is_user_login_and_logout: false,
            is_external_urls_required: true,
        }),
        external_urls: Some(vec!["http://a.example".to_string(), "http://b.example".to_string()]),
        backend_code: Some("fn main() {}".to_string()),
        api_endpoint_schema: None,
    };
    assert_eq!(
        initial_code_context("TPL", &fs),
        "CODE TEMPLATE: TPL \n PROJECT_DESCRIPTION: time-of-day service \n"
    );
    assert_eq!(
        render_fact_sheet(&fs),
        "PROJECT DESCRIPTION: time-of-day service\
         \nPROJECT SCOPE: crud: false, login: false, external urls: true\
         \nEXTERNAL URLS: http://a.example, http://b.example\
         \nBACKEND CODE: fn main() {}\
         \nAPI ENDPOINT SCHEMA: none"
    );
    assert_eq!(
        improved_code_context(&fs),
        format!(
            "CODE TEMPLATE: fn main() {{}} \n PROJECT_DESCRIPTION: {} \n",
            render_fact_sheet(&fs)
        )
    );
    assert_eq!(
        fix_code_context(&fs, &Some("error text".to_string())),
        "BROKEN_CODE: fn main() {} \n ERROR_BUGS: error text \n THIS FUNCTION ONLY OUTPUTS CODE. JUST OUTPUT THE CODE."
    );
    assert_eq!(extract_endpoints_context("CODE"), "CODE_INPUT: CODE");
}

#[test]
fn test_abort_messages() {
    assert_eq!(AbortReason::TooManyBugs.message(), "too many bugs found in code");
    assert_eq!(AbortReason::UserDeclined.message(), "user declined to run the generated code");
}
