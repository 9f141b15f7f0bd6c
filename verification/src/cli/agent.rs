//! Arguments of `agent`.

use vstd::prelude::*;

verus! {

pub enum AgentCommand {
    /// Start the agent.
    Start { socket: Option<String>, config: Option<String>, foreground: bool },
    /// Stop the agent (or every agent).
    Stop { socket: Option<String>, all: bool },
    /// Show whether the agent runs.
    Status { socket: Option<String> },
}

} // verus!
