//! Verified core of an autonomous developer agent.
//!
//! The agent turns a natural-language project description into a backend
//! service by iterating a generation-build-test-repair loop against an
//! external completion service.  Everything that decides — the agent state
//! machine, the bounded repair loop, the single-retry policy for completion
//! calls, code-fence stripping, response extraction and endpoint filtering —
//! lives here and is verified.  The surrounding process: HTTP transport,
//! terminal prompts, file reads and writes, process spawning, is performed by
//! an unverified driver that executes the actions this library emits and
//! reports each outcome back as an event.

pub mod agent_traits;
pub mod agent_backend;
pub mod basic_agent;
pub mod command_line;
pub mod llm;
pub mod task;
pub mod text;
