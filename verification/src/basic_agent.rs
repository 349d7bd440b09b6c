//! Identity and lifecycle state shared by every specialized agent.

use vstd::prelude::*;
use crate::llm::Message;

verus! {

/// Lifecycle state of an agent.  The progression is linear:
/// `Discovery -> Working -> UnitTesting -> Finished`; no other transition is
/// legal.
#[derive(Debug, Clone, Copy, PartialEq, Eq, Structural)]
pub enum AgentState {
    Discovery,
    Working,
    UnitTesting,
    Finished,
}

/// Identity of a specialized agent: what it is for, the role label used in
/// logs and prompts, its lifecycle state, and the ordered history of prior
/// exchanged messages (reserved; not replayed yet).
#[derive(Debug)]
pub struct BasicAgent {
    pub objective: String,
    pub position: String,
    pub state: AgentState,
    pub memory: Vec<Message>,
}

} // verus!
