//! The process supervisor's state machine: at most one managed backend
//! process, whose port and resolved command are recorded together with it.
//!
//! The child process handle itself lives with the shell, which probes its
//! liveness and performs the spawn and the kill; every decision — when the
//! recorded triple is cleared, when a start may spawn, what each operation
//! reports — is made here over plain values.

use vstd::prelude::*;

use crate::preflight::BackendPreflight;

verus! {

/// The derived view of the supervisor: what a status query reports.
pub struct BackendStatus {
    pub running: bool,
    pub port: Option<u16>,
    pub managed: bool,
}

/// The supervisor's record of the managed process: whether a child is
/// tracked, and the port and command it was started with. The three parts
/// are set together on a confirmed spawn and cleared together.
pub struct BackendState {
    pub child_tracked: bool,
    pub port: Option<u16>,
    pub command: Option<String>,
}

/// The state with nothing managed.
pub open spec fn spec_idle() -> BackendState {
    BackendState { child_tracked: false, port: Option::None, command: Option::None }
}

/// The status reported while nothing is managed.
pub open spec fn idle_status() -> BackendStatus {
    BackendStatus { running: false, port: Option::None, managed: false }
}

/// The state after a liveness check: unchanged while the tracked child is
/// alive, otherwise cleared to idle.
pub open spec fn spec_refresh(s: BackendState, child_alive: bool) -> BackendState {
    if s.child_tracked && child_alive {
        s
    } else {
        spec_idle()
    }
}

/// The status derived from a state after its liveness check.
pub open spec fn spec_status(s: BackendState, child_alive: bool) -> BackendStatus {
    let t = spec_refresh(s, child_alive);
    BackendStatus { running: t.child_tracked, port: t.port, managed: t.child_tracked }
}

impl BackendState {
    /// The triple invariant: the child, the port and the command are present
    /// together or absent together.
    pub open spec fn wf(self) -> bool {
        &&& self.child_tracked <==> self.port is Some
        &&& self.child_tracked <==> self.command is Some
    }

    /// A supervisor with nothing managed.
    pub fn new() -> (s: BackendState)
        ensures
            s == spec_idle(),
            s.wf(),
    {
        BackendState { child_tracked: false, port: Option::None, command: Option::None }
    }

    /// Re-validates liveness: `child_alive` is the shell's probe of the
    /// tracked child (false where none is tracked). A dead or absent child
    /// clears the whole triple; the result says whether the managed process
    /// is running.
    pub fn refresh_child_state(&mut self, child_alive: bool) -> (running: bool)
        requires
            old(self).wf(),
        ensures
            final(self).wf(),
            *final(self) == spec_refresh(*old(self), child_alive),
            running == final(self).child_tracked,
    {
        if self.child_tracked && child_alive {
            true
        } else {
            self.child_tracked = false;
            self.port = Option::None;
            self.command = Option::None;
            false
        }
    }

    /// Reports the current status, re-validating liveness first. Mutates
    /// nothing beyond clearing a dead triple.
    pub fn backend_status(&mut self, child_alive: bool) -> (st: BackendStatus)
        requires
            old(self).wf(),
        ensures
            final(self).wf(),
            *final(self) == spec_refresh(*old(self), child_alive),
            st == spec_status(*old(self), child_alive),
    {
        let running = self.refresh_child_state(child_alive);
        BackendStatus { running: running, port: self.port, managed: running }
    }

    /// Records a spawn the platform confirmed: sets the whole triple at once
    /// and reports the running status. Only an idle supervisor may record a
    /// spawn — a running one never reaches this step.
    pub fn commit_spawn(&mut self, preferred_port: u16, command: String) -> (st: BackendStatus)
        requires
            old(self).wf(),
            !old(self).child_tracked,
        ensures
            final(self).wf(),
            final(self).child_tracked,
            final(self).port == Some(preferred_port),
            final(self).command == Some(command),
            st == spec_status(*final(self), true),
            st.running && st.managed,
            st.port == Some(preferred_port),
    {
        self.child_tracked = true;
        self.port = Option::Some(preferred_port);
        self.command = Option::Some(command);
        BackendStatus { running: true, port: self.port, managed: true }
    }

    /// Stops supervision: clears the whole triple unconditionally and reports
    /// the idle status. Killing and reaping the child is the shell's
    /// best-effort work; its outcome cannot change this result.
    pub fn stop_backend(&mut self) -> (st: BackendStatus)
        ensures
            final(self).wf(),
            *final(self) == spec_idle(),
            st == idle_status(),
            !st.running && st.port is None && !st.managed,
    {
        self.child_tracked = false;
        self.port = Option::None;
        self.command = Option::None;
        BackendStatus { running: false, port: Option::None, managed: false }
    }
}

/// What the shell must spawn: the resolved command, in server mode on the
/// given port.
pub struct SpawnRequest {
    pub command: String,
    pub port: u16,
}

/// The step between preflight and spawn: a failed preflight blocks the start
/// and surfaces the preflight's message as the operation's error; a passing
/// one yields the spawn request for the resolved command on the requested
/// port.
pub fn plan_spawn(preferred_port: u16, preflight: BackendPreflight) -> (r: Result<
    SpawnRequest,
    String,
>)
    ensures
        preflight.ok ==> (r matches Ok(req) && req.command@ == preflight.backend_command@
            && req.port == preferred_port),
        !preflight.ok ==> (r matches Err(m) && m@ == preflight.message@),
{
    if preflight.ok {
        Result::Ok(SpawnRequest { command: preflight.backend_command, port: preferred_port })
    } else {
        Result::Err(preflight.message)
    }
}

/// The error reported when the platform refuses to spawn the resolved
/// command: it names the attempted command and the underlying error.
pub open spec fn spawn_failure_spec(command: Seq<char>, os_error: Seq<char>) -> Seq<char> {
    "Failed to spawn backend '"@ + command + "': "@ + os_error
        + ". Set 'Backend Command' to a valid executable path if needed."@
}

/// Renders the spawn-failure error for the attempted command.
pub fn spawn_failure_message(command: &str, os_error: &str) -> (m: String)
    ensures
        m@ == spawn_failure_spec(command@, os_error@),
{
    let mut m = String::from_str("Failed to spawn backend '");
    m.append(command);
    m.append("': ");
    m.append(os_error);
    m.append(". Set 'Backend Command' to a valid executable path if needed.");
    m
}

/// Law: while the managed child is alive, a repeated start request changes no
/// state and observes the same status each time — the spawn step is never
/// reached, so exactly one process is ever spawned.
pub proof fn lemma_start_idempotent_while_running(s: BackendState)
    requires
        s.wf(),
        s.child_tracked,
    ensures
        spec_refresh(s, true) == s,
        spec_status(s, true).running,
        spec_status(spec_refresh(s, true), true) == spec_status(s, true),
{
}

/// Law: after a stop the supervisor is idle, and every later status report
/// shows not running, with no port and nothing managed, whatever the
/// platform's liveness probe answers.
pub proof fn lemma_stop_then_status(child_alive: bool)
    ensures
        !spec_status(spec_idle(), child_alive).running,
        spec_status(spec_idle(), child_alive).port is None,
        !spec_status(spec_idle(), child_alive).managed,
{
}

} // verus!
