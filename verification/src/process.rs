//! How processes are started for those who call tools.

use vstd::prelude::*;

verus! {

/// How the server starts processes.
#[derive(Debug, Clone, Copy, PartialEq, Eq, Structural)]
pub enum ProcessLaunchConfig {
    /// As its own children.
    Direct,
    /// As a service that is installed starts them for its clients.
    InstalledService,
}

impl Default for ProcessLaunchConfig {
    fn default() -> (r: ProcessLaunchConfig)
        ensures
            r == ProcessLaunchConfig::Direct,
    {
        ProcessLaunchConfig::Direct
    }
}

impl ProcessLaunchConfig {
    /// How a service that is installed starts processes.
    pub fn installed_service_default() -> (r: ProcessLaunchConfig)
        ensures
            r == ProcessLaunchConfig::InstalledService,
    {
        ProcessLaunchConfig::InstalledService
    }
}

/// Who calls a tool.
#[derive(Debug, Clone, Copy, PartialEq, Eq, Structural)]
pub struct ToolCallContext {
    /// The process of the client.
    pub peer_pid: Option<u32>,
    /// The session of the machine that the client is in.
    pub peer_session_id: Option<u32>,
}

impl Default for ToolCallContext {
    fn default() -> (r: ToolCallContext)
        ensures
            r.peer_pid is None,
            r.peer_session_id is None,
    {
        ToolCallContext { peer_pid: None, peer_session_id: None }
    }
}

/// How a process is started, and for whom.
#[derive(Debug, Clone, Copy, PartialEq, Eq, Structural)]
pub struct ProcessLaunchContext {
    pub config: ProcessLaunchConfig,
    pub tool_call: ToolCallContext,
}

impl ProcessLaunchContext {
    /// How a process is started, and for whom.
    pub fn new(config: ProcessLaunchConfig, tool_call: ToolCallContext) -> (r: ProcessLaunchContext)
        ensures
            r.config == config,
            r.tool_call == tool_call,
    {
        ProcessLaunchContext { config, tool_call }
    }
}

} // verus!
