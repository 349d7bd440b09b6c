//! The backend developer agent: the state machine that drives code
//! synthesis, the bounded repair loop on build failure, and the subprocess
//! and endpoint-verification protocol.
//!
//! The machine is a pure decision core.  Each call to [`AgentBackendDeveloper::step`]
//! consumes one event — the reported outcome of the previous action — and
//! answers with the next action.  The unverified driver performs the action
//! (a completion call, a build, a probe, a file write) and reports back; the
//! driver performs no decision of its own.

use vstd::prelude::*;
use vstd::string::StringExecFns;
use crate::agent_traits::{
    FactSheet, FactSheetView, ProjectScope, RouteObject, RouteObjectView, opt_string_view,
    opt_text, routes_view,
};
use crate::basic_agent::{AgentState, BasicAgent};
use crate::llm::Message;
use crate::text::strip_fences_spec;
use crate::text::strip_code_fences;

verus! {

// --- prompt contexts ---

/// `true` or `false`, as a scope flag is written into a prompt.
pub open spec fn bool_text_spec(b: bool) -> Seq<char> {
    if b {
        "true"@
    } else {
        "false"@
    }
}

/// The texts joined with the separator between consecutive items.
pub open spec fn join_texts_spec(items: Seq<Seq<char>>, sep: Seq<char>) -> Seq<char>
    decreases items.len(),
{
    if items.len() == 0 {
        Seq::empty()
    } else if items.len() == 1 {
        items[0]
    } else {
        join_texts_spec(items.drop_last(), sep) + sep + items.last()
    }
}

/// One line per discovered route: its method and its path.
pub open spec fn route_lines_spec(routes: Seq<RouteObjectView>) -> Seq<char>
    decreases routes.len(),
{
    if routes.len() == 0 {
        Seq::empty()
    } else {
        route_lines_spec(routes.drop_last()) + routes.last().method + " "@ + routes.last().route
            + "\n"@
    }
}

/// How the scope flags are written into a prompt.
pub open spec fn render_scope_spec(scope: Option<ProjectScope>) -> Seq<char> {
    match scope {
        Some(s) => "crud: "@ + bool_text_spec(s.is_crud_required) + ", login: "@ + bool_text_spec(
            s.is_user_login_and_logout,
        ) + ", external urls: "@ + bool_text_spec(s.is_external_urls_required),
        None => "none"@,
    }
}

/// How the external URL list is written into a prompt.
pub open spec fn render_urls_spec(urls: Option<Seq<Seq<char>>>) -> Seq<char> {
    match urls {
        Some(us) => join_texts_spec(us, ", "@),
        None => "none"@,
    }
}

/// How the route list is written into a prompt.
pub open spec fn render_routes_spec(routes: Option<Seq<RouteObjectView>>) -> Seq<char> {
    match routes {
        Some(rs) => route_lines_spec(rs),
        None => "none"@,
    }
}

/// The whole fact sheet written out as text, field by field, for the
/// refinement prompt.
pub open spec fn render_fact_sheet_spec(fs: FactSheetView) -> Seq<char> {
    "PROJECT DESCRIPTION: "@ + fs.project_description + "\nPROJECT SCOPE: "@ + render_scope_spec(
        fs.project_scope,
    ) + "\nEXTERNAL URLS: "@ + render_urls_spec(fs.external_urls) + "\nBACKEND CODE: "@ + opt_text(
        fs.backend_code,
    ) + "\nAPI ENDPOINT SCHEMA: "@ + render_routes_spec(fs.api_endpoint_schema)
}

/// The context of the initial generation request: the code template seed and
/// the project description.
pub open spec fn initial_code_context_spec(template: Seq<char>, description: Seq<char>) -> Seq<
    char,
> {
    "CODE TEMPLATE: "@ + template + " \n PROJECT_DESCRIPTION: "@ + description + " \n"@
}

/// The context of the refinement request: the current code and the whole
/// fact sheet.
pub open spec fn improved_code_context_spec(fs: FactSheetView) -> Seq<char> {
    "CODE TEMPLATE: "@ + opt_text(fs.backend_code) + " \n PROJECT_DESCRIPTION: "@
        + render_fact_sheet_spec(fs) + " \n"@
}

/// The context of the repair request: the broken code and the captured build
/// error text.
pub open spec fn fix_code_context_spec(code: Option<Seq<char>>, errors: Option<Seq<char>>) -> Seq<
    char,
> {
    "BROKEN_CODE: "@ + opt_text(code) + " \n ERROR_BUGS: "@ + opt_text(errors)
        + " \n THIS FUNCTION ONLY OUTPUTS CODE. JUST OUTPUT THE CODE."@
}

/// The context of the endpoint-extraction request: the generated source.
pub open spec fn extract_endpoints_context_spec(code: Seq<char>) -> Seq<char> {
    "CODE_INPUT: "@ + code
}

/// The URL a static read-only route is probed at.
pub open spec fn probe_url_spec(route: Seq<char>) -> Seq<char> {
    "http://localhost:8080"@ + route
}

fn append_bool(out: &mut String, b: bool)
    ensures
        final(out)@ == old(out)@ + bool_text_spec(b),
{
    if b {
        out.append("true");
    } else {
        out.append("false");
    }
}

fn join_urls(urls: &Vec<String>) -> (r: String)
    ensures
        r@ == join_texts_spec(urls@.map_values(|u: String| u@), ", "@),
{
    let ghost items = urls@.map_values(|u: String| u@);
    let mut out = String::new();
    let mut i: usize = 0;
    while i < urls.len()
        invariant
            0 <= i <= urls.len(),
            items == urls@.map_values(|u: String| u@),
            out@ == join_texts_spec(items.take(i as int), ", "@),
        decreases urls.len() - i,
    {
        if i > 0 {
            out.append(", ");
        }
        out.append(urls[i].as_str());
        proof {
            let pre = items.take(i as int);
            let nxt = items.take(i as int + 1);
            assert(nxt.drop_last() =~= pre);
            assert(nxt.last() == items[i as int]);
            if i == 0 {
                assert(nxt.len() == 1);
                assert(out@ == nxt[0]);
            }
        }
        i = i + 1;
    }
    proof {
        assert(items.take(urls@.len() as int) =~= items);
    }
    out
}

fn render_route_lines(routes: &Vec<RouteObject>) -> (r: String)
    ensures
        r@ == route_lines_spec(routes_view(routes@)),
{
    let ghost items = routes_view(routes@);
    let mut out = String::new();
    let mut i: usize = 0;
    while i < routes.len()
        invariant
            0 <= i <= routes.len(),
            items == routes_view(routes@),
            out@ == route_lines_spec(items.take(i as int)),
        decreases routes.len() - i,
    {
        out.append(routes[i].method.as_str());
        out.append(" ");
        out.append(routes[i].route.as_str());
        out.append("\n");
        proof {
            let pre = items.take(i as int);
            let nxt = items.take(i as int + 1);
            assert(nxt.drop_last() =~= pre);
            assert(nxt.last() == items[i as int]);
        }
        i = i + 1;
    }
    proof {
        assert(items.take(routes@.len() as int) =~= items);
    }
    out
}

/// Writes the whole fact sheet out as text, for the refinement prompt.
pub fn render_fact_sheet(fs: &FactSheet) -> (r: String)
    ensures
        r@ == render_fact_sheet_spec(fs@),
{
    let mut out = String::from_str("PROJECT DESCRIPTION: ");
    out.append(fs.project_description.as_str());
    out.append("\nPROJECT SCOPE: ");
    match &fs.project_scope {
        Some(s) => {
            out.append("crud: ");
            append_bool(&mut out, s.is_crud_required);
            out.append(", login: ");
            append_bool(&mut out, s.is_user_login_and_logout);
            out.append(", external urls: ");
            append_bool(&mut out, s.is_external_urls_required);
        },
        None => {
            out.append("none");
        },
    }
    out.append("\nEXTERNAL URLS: ");
    match &fs.external_urls {
        Some(urls) => {
            let joined = join_urls(urls);
            out.append(joined.as_str());
        },
        None => {
            out.append("none");
        },
    }
    out.append("\nBACKEND CODE: ");
    match &fs.backend_code {
        Some(code) => {
            out.append(code.as_str());
        },
        None => {},
    }
    out.append("\nAPI ENDPOINT SCHEMA: ");
    match &fs.api_endpoint_schema {
        Some(routes) => {
            let lines = render_route_lines(routes);
            out.append(lines.as_str());
        },
        None => {
            out.append("none");
        },
    }
    out
}

/// Builds the context of the initial generation request from the code
/// template seed and the fact sheet's project description.
pub fn initial_code_context(template: &str, fs: &FactSheet) -> (r: String)
    ensures
        r@ == initial_code_context_spec(template@, fs.project_description@),
{
    let mut out = String::from_str("CODE TEMPLATE: ");
    out.append(template);
    out.append(" \n PROJECT_DESCRIPTION: ");
    out.append(fs.project_description.as_str());
    out.append(" \n");
    out
}

/// Builds the context of the refinement request: the current code and the
/// whole fact sheet written out.
pub fn improved_code_context(fs: &FactSheet) -> (r: String)
    ensures
        r@ == improved_code_context_spec(fs@),
{
    let mut out = String::from_str("CODE TEMPLATE: ");
    match &fs.backend_code {
        Some(code) => {
            out.append(code.as_str());
        },
        None => {},
    }
    out.append(" \n PROJECT_DESCRIPTION: ");
    let rendered = render_fact_sheet(fs);
    out.append(rendered.as_str());
    out.append(" \n");
    out
}

/// Builds the context of the repair request: the broken code and the last
/// captured build error text.
pub fn fix_code_context(fs: &FactSheet, bug_errors: &Option<String>) -> (r: String)
    ensures
        r@ == fix_code_context_spec(opt_string_view(fs.backend_code), opt_string_view(*bug_errors)),
{
    let mut out = String::from_str("BROKEN_CODE: ");
    match &fs.backend_code {
        Some(code) => {
            out.append(code.as_str());
        },
        None => {},
    }
    out.append(" \n ERROR_BUGS: ");
    match bug_errors {
        Some(errors) => {
            out.append(errors.as_str());
        },
        None => {},
    }
    out.append(" \n THIS FUNCTION ONLY OUTPUTS CODE. JUST OUTPUT THE CODE.");
    out
}

/// Builds the context of the endpoint-extraction request from the generated
/// source.
pub fn extract_endpoints_context(code: &str) -> (r: String)
    ensures
        r@ == extract_endpoints_context_spec(code@),
{
    let mut out = String::from_str("CODE_INPUT: ");
    out.append(code);
    out
}

fn probe_url(route: &str) -> (r: String)
    ensures
        r@ == probe_url_spec(route@),
{
    let mut out = String::from_str("http://localhost:8080");
    out.append(route);
    out
}

// --- endpoint filtering ---

/// The routes safe to probe automatically: method GET with a fixed,
/// non-parameterized path — exercised with no request body and no side
/// effects.
pub open spec fn is_probe_route(r: RouteObjectView) -> bool {
    r.method == "get"@ && !r.is_route_dynamic
}

/// Keeps exactly the static read-only routes, in their original order; the
/// full unfiltered list is what the fact sheet stores.
pub fn filter_probe_routes(routes: &Vec<RouteObject>) -> (out: Vec<RouteObject>)
    ensures
        routes_view(out@) == routes_view(routes@).filter(|r: RouteObjectView| is_probe_route(r)),
{
    let ghost items = routes_view(routes@);
    let get_word = String::from_str("get");
    let mut out: Vec<RouteObject> = Vec::new();
    let mut i: usize = 0;
    proof {
        reveal_with_fuel(Seq::filter, 2);
        assert(items.take(0) =~= Seq::<RouteObjectView>::empty());
        assert(routes_view(out@) =~= Seq::<RouteObjectView>::empty());
    }
    while i < routes.len()
        invariant
            0 <= i <= routes.len(),
            items == routes_view(routes@),
            get_word@ == "get"@,
            routes_view(out@) == items.take(i as int).filter(|r: RouteObjectView| is_probe_route(r)),
        decreases routes.len() - i,
    {
        let keep = !routes[i].is_route_dynamic && routes[i].method == get_word;
        proof {
            assert(keep == is_probe_route(items[i as int]));
        }
        let ghost out_pre = routes_view(out@);
        if keep {
            out.push(routes[i].clone());
            proof {
                assert(routes_view(out@) =~= out_pre.push(items[i as int]));
            }
        }
        proof {
            reveal_with_fuel(Seq::filter, 2);
            let pre = items.take(i as int);
            let nxt = items.take(i as int + 1);
            assert(nxt.drop_last() =~= pre);
            assert(nxt.last() == items[i as int]);
            assert(nxt.filter(|r: RouteObjectView| is_probe_route(r)) == if is_probe_route(
                items[i as int],
            ) {
                pre.filter(|r: RouteObjectView| is_probe_route(r)).push(items[i as int])
            } else {
                pre.filter(|r: RouteObjectView| is_probe_route(r))
            });
        }
        i = i + 1;
    }
    proof {
        assert(items.take(routes@.len() as int) =~= items);
    }
    out
}

// --- the state machine ---

/// Where the agent stands inside its current lifecycle state: which action
/// is out with the driver and which event is awaited next.
#[derive(Debug, Clone, Copy, PartialEq, Eq, Structural)]
pub enum Phase {
    Ready,
    AwaitTemplate,
    AwaitInitialCode,
    AwaitCodePersisted,
    AwaitImprovedCode,
    AwaitFixedCode,
    AwaitConfirmation,
    AwaitBuild,
    AwaitGeneratedCode,
    AwaitEndpointsText,
    AwaitDecode,
    AwaitSpawn,
    AwaitWarmup,
    Probing,
    AwaitProbeKill,
    AwaitPersistEndpoints,
    AwaitFinalKill,
    Halted,
}

/// Which prompt template the driver applies to a requested completion's
/// context.
#[derive(Debug, Clone, Copy, PartialEq, Eq, Structural)]
pub enum PromptKind {
    InitialCode,
    ImproveCode,
    FixBugs,
    ExtractEndpoints,
}

/// The unrecoverable stop conditions: each aborts the whole run.
#[derive(Debug, Clone, Copy, PartialEq, Eq, Structural)]
pub enum AbortReason {
    /// The user declined the safety confirmation.
    UserDeclined,
    /// The build failed more than twice in a row.
    TooManyBugs,
    /// A completion call failed twice in a row.
    CompletionFailed,
    /// The endpoint schema answered by the completion service did not decode.
    DecodeFailed,
}

/// What each stop condition says when it is reported.
pub open spec fn abort_message_spec(r: AbortReason) -> Seq<char> {
    match r {
        AbortReason::UserDeclined => "user declined to run the generated code"@,
        AbortReason::TooManyBugs => "too many bugs found in code"@,
        AbortReason::CompletionFailed => "the completion service failed twice in a row"@,
        AbortReason::DecodeFailed => "failed to decode the endpoint schema"@,
    }
}

impl AbortReason {
    /// The reported wording of this stop condition.
    pub fn message(&self) -> (r: String)
        ensures
            r@ == abort_message_spec(*self),
    {
        match self {
            AbortReason::UserDeclined => String::from_str(
                "user declined to run the generated code",
            ),
            AbortReason::TooManyBugs => String::from_str("too many bugs found in code"),
            AbortReason::CompletionFailed => String::from_str(
                "the completion service failed twice in a row",
            ),
            AbortReason::DecodeFailed => String::from_str("failed to decode the endpoint schema"),
        }
    }
}

/// What the driver reports back to the machine: the outcome of the action it
/// was last asked to perform.
#[derive(Debug)]
pub enum AgentEvent {
    /// A side effect (a persist, a spawn, a kill, the warm-up delay) is done.
    Proceed,
    /// A requested file read finished with these contents.
    FileRead { contents: String },
    /// A requested completion (after the wrapper's retry policy) delivered
    /// this text.
    CompletionDelivered { text: String },
    /// Both completion attempts failed.
    CompletionFailed,
    /// The safety confirmation was answered.
    ConfirmationAnswered { safe: bool },
    /// The build toolchain exited; `stderr` is its captured error text.
    BuildFinished { success: bool, stderr: String },
    /// The endpoint schema text decoded into these routes.
    EndpointsDecoded { routes: Vec<RouteObject> },
    /// The endpoint schema text did not decode.
    DecodeFailed,
    /// The probed endpoint answered with this HTTP status.
    ProbeResponded { status: u16 },
    /// The probe failed at the transport level.
    ProbeFailed,
}

/// The mathematical value of an [`AgentEvent`].
#[verifier::ext_equal]
pub enum EventView {
    Proceed,
    FileRead { contents: Seq<char> },
    CompletionDelivered { text: Seq<char> },
    CompletionFailed,
    ConfirmationAnswered { safe: bool },
    BuildFinished { success: bool, stderr: Seq<char> },
    EndpointsDecoded { routes: Seq<RouteObjectView> },
    DecodeFailed,
    ProbeResponded { status: u16 },
    ProbeFailed,
}

impl View for AgentEvent {
    type V = EventView;

    open spec fn view(&self) -> EventView {
        match self {
            AgentEvent::Proceed => EventView::Proceed,
            AgentEvent::FileRead { contents } => EventView::FileRead { contents: contents@ },
            AgentEvent::CompletionDelivered { text } => EventView::CompletionDelivered {
                text: text@,
            },
            AgentEvent::CompletionFailed => EventView::CompletionFailed,
            AgentEvent::ConfirmationAnswered { safe } => EventView::ConfirmationAnswered {
                safe: *safe,
            },
            AgentEvent::BuildFinished { success, stderr } => EventView::BuildFinished {
                success: *success,
                stderr: stderr@,
            },
            AgentEvent::EndpointsDecoded { routes } => EventView::EndpointsDecoded {
                routes: routes_view(routes@),
            },
            AgentEvent::DecodeFailed => EventView::DecodeFailed,
            AgentEvent::ProbeResponded { status } => EventView::ProbeResponded { status: *status },
            AgentEvent::ProbeFailed => EventView::ProbeFailed,
        }
    }
}

/// What the machine asks the driver to perform next.
#[derive(Debug)]
pub enum AgentAction {
    /// Read the fixed-path code template seed.
    ReadCodeTemplate,
    /// Apply the named prompt template to the context, wrap it as a system
    /// message, and call the completion service under the retry policy.
    RequestCompletion { kind: PromptKind, context: String },
    /// Write the (already fence-stripped) code to the backend source
    /// location.
    PersistCode { code: String },
    /// Ask the blocking yes/no safety confirmation.
    AskConfirmation,
    /// Invoke the native build toolchain and capture its outcome.
    RunBuild,
    /// Re-read the generated source from the backend source location.
    ReadGeneratedCode,
    /// Decode the endpoint schema text into routes.
    DecodeEndpoints { text: String },
    /// Spawn the generated server as a long-lived child process.
    SpawnServer,
    /// Wait the fixed warm-up delay before probing.
    WaitWarmup,
    /// Issue an HTTP GET with a bounded timeout against this URL.
    Probe { url: String },
    /// Terminate the spawned server process.
    KillServer,
    /// Persist the unfiltered endpoint schema text to durable storage.
    PersistEndpoints { text: String },
    /// Stop the whole run: an unrecoverable condition.
    Abort { reason: AbortReason },
    /// The run finished normally.
    Finish,
    /// Nothing to do: the event did not belong to the current state.
    Hold,
}

/// The mathematical value of an [`AgentAction`].
#[verifier::ext_equal]
pub enum ActionView {
    ReadCodeTemplate,
    RequestCompletion { kind: PromptKind, context: Seq<char> },
    PersistCode { code: Seq<char> },
    AskConfirmation,
    RunBuild,
    ReadGeneratedCode,
    DecodeEndpoints { text: Seq<char> },
    SpawnServer,
    WaitWarmup,
    Probe { url: Seq<char> },
    KillServer,
    PersistEndpoints { text: Seq<char> },
    Abort { reason: AbortReason },
    Finish,
    Hold,
}

impl View for AgentAction {
    type V = ActionView;

    open spec fn view(&self) -> ActionView {
        match self {
            AgentAction::ReadCodeTemplate => ActionView::ReadCodeTemplate,
            AgentAction::RequestCompletion { kind, context } => ActionView::RequestCompletion {
                kind: *kind,
                context: context@,
            },
            AgentAction::PersistCode { code } => ActionView::PersistCode { code: code@ },
            AgentAction::AskConfirmation => ActionView::AskConfirmation,
            AgentAction::RunBuild => ActionView::RunBuild,
            AgentAction::ReadGeneratedCode => ActionView::ReadGeneratedCode,
            AgentAction::DecodeEndpoints { text } => ActionView::DecodeEndpoints { text: text@ },
            AgentAction::SpawnServer => ActionView::SpawnServer,
            AgentAction::WaitWarmup => ActionView::WaitWarmup,
            AgentAction::Probe { url } => ActionView::Probe { url: url@ },
            AgentAction::KillServer => ActionView::KillServer,
            AgentAction::PersistEndpoints { text } => ActionView::PersistEndpoints { text: text@ },
            AgentAction::Abort { reason } => ActionView::Abort { reason: *reason },
            AgentAction::Finish => ActionView::Finish,
            AgentAction::Hold => ActionView::Hold,
        }
    }
}

/// The mathematical state of the backend developer agent's machine.
#[verifier::ext_equal]
pub struct AgentView {
    pub state: AgentState,
    pub phase: Phase,
    pub bug_count: int,
    pub bug_errors: Option<Seq<char>>,
    pub endpoints_text: Option<Seq<char>>,
    pub probe_routes: Seq<RouteObjectView>,
    pub probe_index: int,
    pub server_running: bool,
}

/// The backend developer agent: its identity, the repair-loop bug state, and
/// the machine bookkeeping for the validation phase.
#[derive(Debug)]
pub struct AgentBackendDeveloper {
    pub attributes: BasicAgent,
    pub bug_errors: Option<String>,
    pub bug_count: u8,
    pub phase: Phase,
    pub endpoints_text: Option<String>,
    pub probe_routes: Vec<RouteObject>,
    pub probe_index: usize,
    pub server_running: bool,
}

impl View for AgentBackendDeveloper {
    type V = AgentView;

    open spec fn view(&self) -> AgentView {
        AgentView {
            state: self.attributes.state,
            phase: self.phase,
            bug_count: self.bug_count as int,
            bug_errors: opt_string_view(self.bug_errors),
            endpoints_text: opt_string_view(self.endpoints_text),
            probe_routes: routes_view(self.probe_routes@),
            probe_index: self.probe_index as int,
            server_running: self.server_running,
        }
    }
}

/// What always holds of the machine between steps: the failure count never
/// exceeds its ceiling of 2, the probe position stays inside the probe list,
/// the server runs only during the validation phases that own it, and a
/// finished agent has no server left running.
pub open spec fn agent_wf(a: AgentView) -> bool {
    &&& 0 <= a.bug_count <= 2
    &&& 0 <= a.probe_index <= a.probe_routes.len()
    &&& (a.phase == Phase::Probing ==> a.probe_index < a.probe_routes.len())
    &&& (a.server_running ==> a.state == AgentState::UnitTesting && (a.phase == Phase::AwaitWarmup
        || a.phase == Phase::Probing || a.phase == Phase::AwaitProbeKill || a.phase
        == Phase::AwaitPersistEndpoints || a.phase == Phase::AwaitFinalKill))
    &&& (a.state == AgentState::Finished ==> a.phase == Phase::Halted && !a.server_running)
}

/// The fresh agent: in Discovery, no failures recorded, nothing probed, no
/// server running.
pub open spec fn initial_agent_view() -> AgentView {
    AgentView {
        state: AgentState::Discovery,
        phase: Phase::Ready,
        bug_count: 0,
        bug_errors: None,
        endpoints_text: None,
        probe_routes: Seq::empty(),
        probe_index: 0,
        server_running: false,
    }
}

/// The static read-only routes of a discovered schema, in order.
pub open spec fn probe_filter(routes: Seq<RouteObjectView>) -> Seq<RouteObjectView> {
    routes.filter(|r: RouteObjectView| is_probe_route(r))
}

/// Probing advances: either the next filtered route is probed, or — the list
/// exhausted — the unfiltered schema text is persisted.
pub open spec fn next_probe_move(a: AgentView) -> (AgentView, ActionView) {
    if a.probe_index < a.probe_routes.len() {
        (
            AgentView { phase: Phase::Probing, ..a },
            ActionView::Probe { url: probe_url_spec(a.probe_routes[a.probe_index].route) },
        )
    } else {
        (
            AgentView { phase: Phase::AwaitPersistEndpoints, ..a },
            ActionView::PersistEndpoints { text: opt_text(a.endpoints_text) },
        )
    }
}

pub open spec fn next_probe_spec(a: AgentView, fs: FactSheetView) -> (AgentView, FactSheetView, ActionView) {
    (next_probe_move(a).0, fs, next_probe_move(a).1)
}

/// The whole transition relation of the backend developer agent: from the
/// machine state, the fact sheet and the reported event to the next machine
/// state, the updated fact sheet and the next action.  Any event that does
/// not belong to the current state is a no-op.
pub open spec fn step_spec(a: AgentView, fs: FactSheetView, ev: EventView) -> (AgentView, FactSheetView, ActionView) {
    match (a.state, a.phase, ev) {
        (AgentState::Discovery, Phase::Ready, EventView::Proceed) => (
            AgentView { phase: Phase::AwaitTemplate, ..a },
            fs,
            ActionView::ReadCodeTemplate,
        ),
        (AgentState::Discovery, Phase::AwaitTemplate, EventView::FileRead { contents }) => (
            AgentView { phase: Phase::AwaitInitialCode, ..a },
            fs,
            ActionView::RequestCompletion {
                kind: PromptKind::InitialCode,
                context: initial_code_context_spec(contents, fs.project_description),
            },
        ),
        (AgentState::Discovery, Phase::AwaitInitialCode, EventView::CompletionDelivered { text }) => (
            AgentView { state: AgentState::Working, phase: Phase::AwaitCodePersisted, ..a },
            FactSheetView { backend_code: Some(strip_fences_spec(text)), ..fs },
            ActionView::PersistCode { code: strip_fences_spec(text) },
        ),
        (AgentState::Working, Phase::AwaitCodePersisted, EventView::Proceed) => if a.bug_count
            == 0 {
            (
                AgentView { phase: Phase::AwaitImprovedCode, ..a },
                fs,
                ActionView::RequestCompletion {
                    kind: PromptKind::ImproveCode,
                    context: improved_code_context_spec(fs),
                },
            )
        } else {
            (
                AgentView { phase: Phase::AwaitFixedCode, ..a },
                fs,
                ActionView::RequestCompletion {
                    kind: PromptKind::FixBugs,
                    context: fix_code_context_spec(fs.backend_code, a.bug_errors),
                },
            )
        },
        (AgentState::Working, Phase::AwaitImprovedCode, EventView::CompletionDelivered { text }) => (
            AgentView { state: AgentState::UnitTesting, phase: Phase::AwaitCodePersisted, ..a },
            FactSheetView { backend_code: Some(strip_fences_spec(text)), ..fs },
            ActionView::PersistCode { code: strip_fences_spec(text) },
        ),
        (AgentState::Working, Phase::AwaitFixedCode, EventView::CompletionDelivered { text }) => (
            AgentView { state: AgentState::UnitTesting, phase: Phase::AwaitCodePersisted, ..a },
            FactSheetView { backend_code: Some(strip_fences_spec(text)), ..fs },
            ActionView::PersistCode { code: strip_fences_spec(text) },
        ),
        (AgentState::UnitTesting, Phase::AwaitCodePersisted, EventView::Proceed) => (
            AgentView { phase: Phase::AwaitConfirmation, ..a },
            fs,
            ActionView::AskConfirmation,
        ),
        (
            AgentState::UnitTesting,
            Phase::AwaitConfirmation,
            EventView::ConfirmationAnswered { safe },
        ) => if safe {
            (AgentView { phase: Phase::AwaitBuild, ..a }, fs, ActionView::RunBuild)
        } else {
            (
                AgentView { phase: Phase::Halted, ..a },
                fs,
                ActionView::Abort { reason: AbortReason::UserDeclined },
            )
        },
        (
            AgentState::UnitTesting,
            Phase::AwaitBuild,
            EventView::BuildFinished { success, stderr },
        ) => if success {
            (
                AgentView { bug_count: 0, phase: Phase::AwaitGeneratedCode, ..a },
                fs,
                ActionView::ReadGeneratedCode,
            )
        } else if a.bug_count < 2 {
            (
                AgentView {
                    state: AgentState::Working,
                    phase: Phase::AwaitFixedCode,
                    bug_count: a.bug_count + 1,
                    bug_errors: Some(stderr),
                    ..a
                },
                fs,
                ActionView::RequestCompletion {
                    kind: PromptKind::FixBugs,
                    context: fix_code_context_spec(fs.backend_code, Some(stderr)),
                },
            )
        } else {
            (
                AgentView { phase: Phase::Halted, bug_errors: Some(stderr), ..a },
                fs,
                ActionView::Abort { reason: AbortReason::TooManyBugs },
            )
        },
        (AgentState::UnitTesting, Phase::AwaitGeneratedCode, EventView::FileRead { contents }) => (
            AgentView { phase: Phase::AwaitEndpointsText, ..a },
            fs,
            ActionView::RequestCompletion {
                kind: PromptKind::ExtractEndpoints,
                context: extract_endpoints_context_spec(contents),
            },
        ),
        (
            AgentState::UnitTesting,
            Phase::AwaitEndpointsText,
            EventView::CompletionDelivered { text },
        ) => (
            AgentView { phase: Phase::AwaitDecode, endpoints_text: Some(text), ..a },
            fs,
            ActionView::DecodeEndpoints { text },
        ),
        (AgentState::UnitTesting, Phase::AwaitDecode, EventView::EndpointsDecoded { routes }) => (
            AgentView {
                phase: Phase::AwaitSpawn,
                probe_routes: probe_filter(routes),
                probe_index: 0,
                ..a
            },
            FactSheetView { api_endpoint_schema: Some(routes), ..fs },
            ActionView::SpawnServer,
        ),
        (AgentState::UnitTesting, Phase::AwaitDecode, EventView::DecodeFailed) => (
            AgentView { phase: Phase::Halted, ..a },
            fs,
            ActionView::Abort { reason: AbortReason::DecodeFailed },
        ),
        (AgentState::UnitTesting, Phase::AwaitSpawn, EventView::Proceed) => (
            AgentView { phase: Phase::AwaitWarmup, server_running: true, ..a },
            fs,
            ActionView::WaitWarmup,
        ),
        (AgentState::UnitTesting, Phase::AwaitWarmup, EventView::Proceed) => next_probe_spec(a, fs),
        (AgentState::UnitTesting, Phase::Probing, EventView::ProbeResponded { .. }) =>
        // any status: a non-200 answer is only warned about by the driver
        next_probe_spec(AgentView { probe_index: a.probe_index + 1, ..a }, fs),
        (AgentState::UnitTesting, Phase::Probing, EventView::ProbeFailed) => (
            // a transport-level failure: the server under test is shut down
            // at once and the remaining probes are given up
            AgentView { phase: Phase::AwaitProbeKill, ..a },
            fs,
            ActionView::KillServer,
        ),
        (AgentState::UnitTesting, Phase::AwaitProbeKill, EventView::Proceed) => (
            AgentView { phase: Phase::AwaitPersistEndpoints, server_running: false, ..a },
            fs,
            ActionView::PersistEndpoints { text: opt_text(a.endpoints_text) },
        ),
        (AgentState::UnitTesting, Phase::AwaitPersistEndpoints, EventView::Proceed) => if a.server_running {
            (AgentView { phase: Phase::AwaitFinalKill, ..a }, fs, ActionView::KillServer)
        } else {
            (
                AgentView { state: AgentState::Finished, phase: Phase::Halted, ..a },
                fs,
                ActionView::Finish,
            )
        },
        (AgentState::UnitTesting, Phase::AwaitFinalKill, EventView::Proceed) => (
            AgentView {
                state: AgentState::Finished,
                phase: Phase::Halted,
                server_running: false,
                ..a
            },
            fs,
            ActionView::Finish,
        ),
        (_, Phase::AwaitInitialCode, EventView::CompletionFailed)
        | (_, Phase::AwaitImprovedCode, EventView::CompletionFailed)
        | (_, Phase::AwaitFixedCode, EventView::CompletionFailed)
        | (_, Phase::AwaitEndpointsText, EventView::CompletionFailed) => (
            AgentView { phase: Phase::Halted, ..a },
            fs,
            ActionView::Abort { reason: AbortReason::CompletionFailed },
        ),
        _ => (a, fs, ActionView::Hold),
    }
}

impl AgentBackendDeveloper {
    /// A fresh backend developer agent in Discovery, with its fixed identity
    /// and an empty message history.
    pub fn new() -> (agent: AgentBackendDeveloper)
        ensures
            agent@ == initial_agent_view(),
            agent.attributes.objective@ == "Develops backend code for webserver and json database"@,
            agent.attributes.position@ == "Backend Developer"@,
            agent.attributes.memory@ == Seq::<Message>::empty(),
            agent_wf(agent@),
    {
        let attributes = BasicAgent {
            objective: String::from_str("Develops backend code for webserver and json database"),
            position: String::from_str("Backend Developer"),
            state: AgentState::Discovery,
            memory: Vec::new(),
        };
        let agent = AgentBackendDeveloper {
            attributes,
            bug_errors: None,
            bug_count: 0,
            phase: Phase::Ready,
            endpoints_text: None,
            probe_routes: Vec::new(),
            probe_index: 0,
            server_running: false,
        };
        proof {
            assert(routes_view(agent.probe_routes@) =~= Seq::<RouteObjectView>::empty());
            assert(agent@ =~= initial_agent_view());
        }
        agent
    }

    /// The read-only view of the agent's identity, as the orchestrator reads
    /// it through the capability contract.
    pub fn get_attributes_from_agent(&self) -> (r: &BasicAgent)
        ensures
            *r == self.attributes,
    {
        &self.attributes
    }

    /// One transition of the machine: consumes the reported outcome of the
    /// previous action and answers with the next action, advancing the
    /// lifecycle state and the fact sheet exactly as [`step_spec`] says.
    pub fn step(&mut self, factsheet: &mut FactSheet, event: AgentEvent) -> (action: AgentAction)
        requires
            agent_wf(old(self)@),
        ensures
            final(self)@ == step_spec(old(self)@, old(factsheet)@, event@).0,
            final(factsheet)@ == step_spec(old(self)@, old(factsheet)@, event@).1,
            action@ == step_spec(old(self)@, old(factsheet)@, event@).2,
            agent_wf(final(self)@),
            final(self).attributes.objective == old(self).attributes.objective,
            final(self).attributes.position == old(self).attributes.position,
            final(self).attributes.memory == old(self).attributes.memory,
    {
        let ghost a0 = self@;
        let ghost f0 = factsheet@;
        let ghost ev0 = event@;
        let state = self.attributes.state;
        let phase = self.phase;
        let action = match (state, phase, event) {
            (AgentState::Discovery, Phase::Ready, AgentEvent::Proceed) => {
                self.phase = Phase::AwaitTemplate;
                AgentAction::ReadCodeTemplate
            },
            (AgentState::Discovery, Phase::AwaitTemplate, AgentEvent::FileRead { contents }) => {
                self.phase = Phase::AwaitInitialCode;
                let context = initial_code_context(contents.as_str(), factsheet);
                AgentAction::RequestCompletion { kind: PromptKind::InitialCode, context }
            },
            (
                AgentState::Discovery,
                Phase::AwaitInitialCode,
                AgentEvent::CompletionDelivered { text },
            ) => {
                let code = strip_code_fences(text.as_str());
                factsheet.backend_code = Some(code.clone());
                self.attributes.state = AgentState::Working;
                self.phase = Phase::AwaitCodePersisted;
                AgentAction::PersistCode { code }
            },
            (AgentState::Working, Phase::AwaitCodePersisted, AgentEvent::Proceed) => {
                if self.bug_count == 0 {
                    self.phase = Phase::AwaitImprovedCode;
                    let context = improved_code_context(factsheet);
                    AgentAction::RequestCompletion { kind: PromptKind::ImproveCode, context }
                } else {
                    self.phase = Phase::AwaitFixedCode;
                    let context = fix_code_context(factsheet, &self.bug_errors);
                    AgentAction::RequestCompletion { kind: PromptKind::FixBugs, context }
                }
            },
            (
                AgentState::Working,
                Phase::AwaitImprovedCode,
                AgentEvent::CompletionDelivered { text },
            ) => {
                let code = strip_code_fences(text.as_str());
                factsheet.backend_code = Some(code.clone());
                self.attributes.state = AgentState::UnitTesting;
                self.phase = Phase::AwaitCodePersisted;
                AgentAction::PersistCode { code }
            },
            (
                AgentState::Working,
                Phase::AwaitFixedCode,
                AgentEvent::CompletionDelivered { text },
            ) => {
                let code = strip_code_fences(text.as_str());
                factsheet.backend_code = Some(code.clone());
                self.attributes.state = AgentState::UnitTesting;
                self.phase = Phase::AwaitCodePersisted;
                AgentAction::PersistCode { code }
            },
            (AgentState::UnitTesting, Phase::AwaitCodePersisted, AgentEvent::Proceed) => {
                self.phase = Phase::AwaitConfirmation;
                AgentAction::AskConfirmation
            },
            (
                AgentState::UnitTesting,
                Phase::AwaitConfirmation,
                AgentEvent::ConfirmationAnswered { safe },
            ) => {
                if safe {
                    self.phase = Phase::AwaitBuild;
                    AgentAction::RunBuild
                } else {
                    self.phase = Phase::Halted;
                    AgentAction::Abort { reason: AbortReason::UserDeclined }
                }
            },
            (
                AgentState::UnitTesting,
                Phase::AwaitBuild,
                AgentEvent::BuildFinished { success, stderr },
            ) => {
                if success {
                    self.bug_count = 0;
                    self.phase = Phase::AwaitGeneratedCode;
                    AgentAction::ReadGeneratedCode
                } else if self.bug_count < 2 {
                    self.bug_count = self.bug_count + 1;
                    self.bug_errors = Some(stderr);
                    self.attributes.state = AgentState::Working;
                    self.phase = Phase::AwaitFixedCode;
                    let context = fix_code_context(factsheet, &self.bug_errors);
                    AgentAction::RequestCompletion { kind: PromptKind::FixBugs, context }
                } else {
                    self.bug_errors = Some(stderr);
                    self.phase = Phase::Halted;
                    AgentAction::Abort { reason: AbortReason::TooManyBugs }
                }
            },
            (
                AgentState::UnitTesting,
                Phase::AwaitGeneratedCode,
                AgentEvent::FileRead { contents },
            ) => {
                self.phase = Phase::AwaitEndpointsText;
                let context = extract_endpoints_context(contents.as_str());
                AgentAction::RequestCompletion { kind: PromptKind::ExtractEndpoints, context }
            },
            (
                AgentState::UnitTesting,
                Phase::AwaitEndpointsText,
                AgentEvent::CompletionDelivered { text },
            ) => {
                self.phase = Phase::AwaitDecode;
                self.endpoints_text = Some(text.clone());
                AgentAction::DecodeEndpoints { text }
            },
            (
                AgentState::UnitTesting,
                Phase::AwaitDecode,
                AgentEvent::EndpointsDecoded { routes },
            ) => {
                self.phase = Phase::AwaitSpawn;
                self.probe_routes = filter_probe_routes(&routes);
                self.probe_index = 0;
                factsheet.api_endpoint_schema = Some(routes);
                AgentAction::SpawnServer
            },
            (AgentState::UnitTesting, Phase::AwaitDecode, AgentEvent::DecodeFailed) => {
                self.phase = Phase::Halted;
                AgentAction::Abort { reason: AbortReason::DecodeFailed }
            },
            (AgentState::UnitTesting, Phase::AwaitSpawn, AgentEvent::Proceed) => {
                self.phase = Phase::AwaitWarmup;
                self.server_running = true;
                AgentAction::WaitWarmup
            },
            (AgentState::UnitTesting, Phase::AwaitWarmup, AgentEvent::Proceed) => {
                self.advance_probe()
            },
            (AgentState::UnitTesting, Phase::Probing, AgentEvent::ProbeResponded { .. }) => {
                let n = self.probe_routes.len();
                proof {
                    // while probing, the probe position is strictly inside
                    // the probe list
                    assert(self.probe_index < n);
                }
                self.probe_index = self.probe_index + 1;
                self.advance_probe()
            },
            (AgentState::UnitTesting, Phase::Probing, AgentEvent::ProbeFailed) => {
                self.phase = Phase::AwaitProbeKill;
                AgentAction::KillServer
            },
            (AgentState::UnitTesting, Phase::AwaitProbeKill, AgentEvent::Proceed) => {
                self.phase = Phase::AwaitPersistEndpoints;
                self.server_running = false;
                let text = self.endpoints_text_or_empty();
                AgentAction::PersistEndpoints { text }
            },
            (AgentState::UnitTesting, Phase::AwaitPersistEndpoints, AgentEvent::Proceed) => {
                if self.server_running {
                    self.phase = Phase::AwaitFinalKill;
                    AgentAction::KillServer
                } else {
                    self.attributes.state = AgentState::Finished;
                    self.phase = Phase::Halted;
                    AgentAction::Finish
                }
            },
            (AgentState::UnitTesting, Phase::AwaitFinalKill, AgentEvent::Proceed) => {
                self.attributes.state = AgentState::Finished;
                self.phase = Phase::Halted;
                self.server_running = false;
                AgentAction::Finish
            },
            (_, Phase::AwaitInitialCode, AgentEvent::CompletionFailed)
            | (_, Phase::AwaitImprovedCode, AgentEvent::CompletionFailed)
            | (_, Phase::AwaitFixedCode, AgentEvent::CompletionFailed)
            | (_, Phase::AwaitEndpointsText, AgentEvent::CompletionFailed) => {
                self.phase = Phase::Halted;
                AgentAction::Abort { reason: AbortReason::CompletionFailed }
            },
            _ => AgentAction::Hold,
        };
        proof {
            let out = step_spec(a0, f0, ev0);
            assert(self@ =~= out.0);
            assert(factsheet@ =~= out.1);
            assert(action@ =~= out.2);
        }
        action
    }

    /// The next probing move: probe the next filtered route, or persist the
    /// schema text once the list is exhausted.
    fn advance_probe(&mut self) -> (action: AgentAction)
        requires
            0 <= old(self)@.probe_index <= old(self)@.probe_routes.len(),
        ensures
            final(self)@ == next_probe_move(old(self)@).0,
            action@ == next_probe_move(old(self)@).1,
            final(self).attributes == old(self).attributes,
            final(self).bug_errors == old(self).bug_errors,
            final(self).bug_count == old(self).bug_count,
            final(self).endpoints_text == old(self).endpoints_text,
            final(self).probe_routes == old(self).probe_routes,
            final(self).probe_index == old(self).probe_index,
            final(self).server_running == old(self).server_running,
    {
        if self.probe_index < self.probe_routes.len() {
            self.phase = Phase::Probing;
            let url = probe_url(self.probe_routes[self.probe_index].route.as_str());
            AgentAction::Probe { url }
        } else {
            self.phase = Phase::AwaitPersistEndpoints;
            let text = self.endpoints_text_or_empty();
            AgentAction::PersistEndpoints { text }
        }
    }

    fn endpoints_text_or_empty(&self) -> (r: String)
        ensures
            r@ == opt_text(self@.endpoints_text),
    {
        match &self.endpoints_text {
            Some(t) => t.clone(),
            None => String::new(),
        }
    }
}

// --- laws of the machine ---

/// Every step keeps the machine well formed: the failure count stays within
/// its ceiling of 2, and once the agent is Finished no server is left
/// running, whatever events arrive.
pub proof fn lemma_step_preserves_wf(a: AgentView, fs: FactSheetView, ev: EventView)
    requires
        agent_wf(a),
    ensures
        agent_wf(step_spec(a, fs, ev).0),
{
}

/// The fact sheet fills monotonically: no step erases a previously filled
/// field, and the project description and scope are never touched by this
/// agent at all.
pub proof fn lemma_fact_sheet_monotonic(a: AgentView, fs: FactSheetView, ev: EventView)
    ensures
        ({
            let fs2 = step_spec(a, fs, ev).1;
            &&& fs2.project_description == fs.project_description
            &&& fs2.project_scope == fs.project_scope
            &&& fs2.external_urls == fs.external_urls
            &&& fs.backend_code is Some ==> fs2.backend_code is Some
            &&& fs.api_endpoint_schema is Some ==> fs2.api_endpoint_schema is Some
        }),
{
}

/// What one build outcome does to the repair loop.  A success resets the
/// failure count to 0 and enters the post-build steps.  A failure below the
/// ceiling returns the agent to Working for one more repair cycle with the
/// count incremented.  A failure with the count already at 2 aborts the run
/// as unrecoverable instead of looping again; the count never exceeds 2.
pub proof fn lemma_build_outcome(a: AgentView, fs: FactSheetView, success: bool, stderr: Seq<char>)
    requires
        agent_wf(a),
        a.state == AgentState::UnitTesting,
        a.phase == Phase::AwaitBuild,
    ensures
        ({
            let (a2, fs2, act) = step_spec(a, fs, EventView::BuildFinished { success, stderr });
            &&& success ==> a2.bug_count == 0 && act == ActionView::ReadGeneratedCode
            &&& !success && a.bug_count < 2 ==> a2.bug_count == a.bug_count + 1 && a2.state
                == AgentState::Working && act == ActionView::RequestCompletion {
                kind: PromptKind::FixBugs,
                context: fix_code_context_spec(fs.backend_code, Some(stderr)),
            }
            &&& !success && a.bug_count == 2 ==> act == ActionView::Abort {
                reason: AbortReason::TooManyBugs,
            } && a2.phase == Phase::Halted
            &&& a2.bug_count <= 2
            &&& fs2 == fs
        }),
{
}

/// Probes are issued one at a time, in the filtered schema's order.  While
/// probing, an HTTP answer — whatever its status — advances the position by
/// exactly one and probes the next route, or, with the list exhausted, moves
/// on to persisting the schema; only a transport failure leaves this path.
pub proof fn lemma_probe_order(a: AgentView, fs: FactSheetView, status: u16)
    requires
        agent_wf(a),
        a.state == AgentState::UnitTesting,
        a.phase == Phase::Probing,
    ensures
        ({
            let s = step_spec(a, fs, EventView::ProbeResponded { status });
            &&& s.0.probe_index == a.probe_index + 1
            &&& a.probe_index + 1 < a.probe_routes.len() ==> s.0.phase == Phase::Probing && s.2
                == ActionView::Probe {
                url: probe_url_spec(a.probe_routes[a.probe_index + 1].route),
            }
            &&& a.probe_index + 1 == a.probe_routes.len() ==> s.0.phase
                == Phase::AwaitPersistEndpoints && s.2 == ActionView::PersistEndpoints {
                text: opt_text(a.endpoints_text),
            }
        }),
{
}

/// A build that fails twice and then succeeds on the third attempt drives
/// the agent through exactly two repair cycles in Working — each one a
/// fix-bugs completion, a persisted rewrite, a fresh confirmation and a
/// rebuild — and reaches the post-build steps exactly once, on the third
/// build, with the failure count back at zero.
pub proof fn lemma_repair_loop(
    a: AgentView,
    fs: FactSheetView,
    err1: Seq<char>,
    fix1: Seq<char>,
    err2: Seq<char>,
    fix2: Seq<char>,
)
    requires
        agent_wf(a),
        a.state == AgentState::UnitTesting,
        a.phase == Phase::AwaitBuild,
        a.bug_count == 0,
    ensures
        ({
            let s1 = step_spec(a, fs, EventView::BuildFinished { success: false, stderr: err1 });
            let s2 = step_spec(s1.0, s1.1, EventView::CompletionDelivered { text: fix1 });
            let s3 = step_spec(s2.0, s2.1, EventView::Proceed);
            let s4 = step_spec(s3.0, s3.1, EventView::ConfirmationAnswered { safe: true });
            let s5 = step_spec(s4.0, s4.1, EventView::BuildFinished { success: false, stderr: err2 });
            let s6 = step_spec(s5.0, s5.1, EventView::CompletionDelivered { text: fix2 });
            let s7 = step_spec(s6.0, s6.1, EventView::Proceed);
            let s8 = step_spec(s7.0, s7.1, EventView::ConfirmationAnswered { safe: true });
            let s9 = step_spec(s8.0, s8.1, EventView::BuildFinished {
                success: true,
                stderr: Seq::empty(),
            });
            // first repair cycle
            &&& s1.0.state == AgentState::Working && s1.0.bug_count == 1
            &&& s1.2 == ActionView::RequestCompletion {
                kind: PromptKind::FixBugs,
                context: fix_code_context_spec(fs.backend_code, Some(err1)),
            }
            &&& s2.0.state == AgentState::UnitTesting && s2.2 == ActionView::PersistCode {
                code: strip_fences_spec(fix1),
            }
            &&& s3.2 == ActionView::AskConfirmation
            &&& s4.2 == ActionView::RunBuild
            // second repair cycle
            &&& s5.0.state == AgentState::Working && s5.0.bug_count == 2
            &&& s5.2 == ActionView::RequestCompletion {
                kind: PromptKind::FixBugs,
                context: fix_code_context_spec(s4.1.backend_code, Some(err2)),
            }
            &&& s6.0.state == AgentState::UnitTesting && s6.2 == ActionView::PersistCode {
                code: strip_fences_spec(fix2),
            }
            &&& s7.2 == ActionView::AskConfirmation
            &&& s8.2 == ActionView::RunBuild
            // the third build succeeds: the post-build steps are entered now
            // and not before, with the failure count reset
            &&& s9.0.bug_count == 0 && s9.2 == ActionView::ReadGeneratedCode
            &&& s1.2 != ActionView::ReadGeneratedCode && s2.2 != ActionView::ReadGeneratedCode
                && s3.2 != ActionView::ReadGeneratedCode && s4.2 != ActionView::ReadGeneratedCode
                && s5.2 != ActionView::ReadGeneratedCode && s6.2 != ActionView::ReadGeneratedCode
                && s7.2 != ActionView::ReadGeneratedCode && s8.2 != ActionView::ReadGeneratedCode
            // Working is visited exactly in the two repair cycles
            &&& s3.0.state != AgentState::Working && s4.0.state != AgentState::Working && s7.0.state
                != AgentState::Working && s8.0.state != AgentState::Working && s9.0.state
                != AgentState::Working
        }),
{
}

} // verus!
