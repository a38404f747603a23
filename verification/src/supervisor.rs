//! The start/stop state machine around the debug-adapter-protocol server.
//!
//! The supervisor owns the user-editable port text and the lifecycle status.
//! It decides, synchronously and without blocking, whether a backend must be
//! spawned or torn down; the surrounding application performs the spawning,
//! the killing and the reaping of the actual child, guided by the values
//! returned here.

use vstd::prelude::*;
use crate::port::{PortSpec, port_of_text};

verus! {

/// Lifecycle of the supervised server. The port is recorded only while an
/// instance is running.
#[derive(PartialEq, Eq, Structural, Clone, Copy, Debug)]
pub enum DapServerStatus {
    Running(u16),
    Stopped,
}

impl Default for DapServerStatus {
    fn default() -> (r: Self)
        ensures
            r == DapServerStatus::Stopped,
    {
        DapServerStatus::Stopped
    }
}

/// The errors that `start` reports synchronously. Everything that goes wrong
/// later inside a running backend is reported as log lines instead.
#[derive(PartialEq, Eq, Structural, Clone, Copy, Debug)]
pub enum StartError {
    /// The port text does not denote a usable port number.
    InvalidPort,
    /// The external debug-server tool is not discoverable on this machine.
    ToolNotFound,
}

/// What a successful `start` asks of the caller: spawn the backend bound to
/// the returned port, or nothing, because an instance is already running.
#[derive(PartialEq, Eq, Structural, Clone, Copy, Debug)]
pub enum StartAction {
    SpawnBackend(u16),
    AlreadyRunning,
}

/// The transition `start` makes: a running supervisor is left alone; a
/// stopped one validates the port text, rejects port zero as reserved,
/// requires the tool to be present, and only then moves to `Running`.
pub open spec fn start_step(
    status: DapServerStatus,
    port_text: Seq<char>,
    tool_installed: bool,
) -> (DapServerStatus, Result<StartAction, StartError>) {
    if status is Running {
        (status, Ok(StartAction::AlreadyRunning))
    } else {
        match port_of_text(port_text) {
            Some(p) => if p == 0 {
                (status, Err(StartError::InvalidPort))
            } else if !tool_installed {
                (status, Err(StartError::ToolNotFound))
            } else {
                (DapServerStatus::Running(p), Ok(StartAction::SpawnBackend(p)))
            },
            None => (status, Err(StartError::InvalidPort)),
        }
    }
}

/// The transition `stop` makes: stopping a stopped supervisor reports
/// `false` and changes nothing; stopping a running one reports `true` and is
/// immediately `Stopped`, before the backend has finished tearing down.
pub open spec fn stop_step(status: DapServerStatus) -> (DapServerStatus, bool) {
    match status {
        DapServerStatus::Stopped => (DapServerStatus::Stopped, false),
        DapServerStatus::Running(_) => (DapServerStatus::Stopped, true),
    }
}

/// Starting while already running changes neither the status nor the
/// recorded port, and asks for no second backend.
pub proof fn lemma_start_while_running_is_noop(port: u16, port_text: Seq<char>, tool: bool)
    ensures
        start_step(DapServerStatus::Running(port), port_text, tool) == (
            DapServerStatus::Running(port),
            Ok::<StartAction, StartError>(StartAction::AlreadyRunning),
        ),
{
}

/// A successful start records exactly the port the text denotes, and asks
/// for exactly one backend on that port.
pub proof fn lemma_start_success(port_text: Seq<char>, port: u16)
    requires
        port_of_text(port_text) == Some(port),
        port != 0,
    ensures
        start_step(DapServerStatus::Stopped, port_text, true) == (
            DapServerStatus::Running(port),
            Ok::<StartAction, StartError>(StartAction::SpawnBackend(port)),
        ),
{
}

/// Stopping while stopped reports that nothing happened and changes nothing.
pub proof fn lemma_stop_while_stopped_is_noop()
    ensures
        stop_step(DapServerStatus::Stopped) == (DapServerStatus::Stopped, false),
{
}

/// Stopping a running supervisor reports `Stopped` at once, whatever the
/// backend is still doing.
pub proof fn lemma_stop_is_immediate(port: u16)
    ensures
        stop_step(DapServerStatus::Running(port)) == (DapServerStatus::Stopped, true),
{
}

/// The supervisor handle for the debug-adapter-protocol server: the
/// user-editable port text, and the lifecycle status.
pub struct ProbeRsDapServer {
    /// The port field as the user typed it; re-validated on every start.
    pub port: String,
    /// The lifecycle status; `Stopped`, or `Running` with the recorded port.
    pub status: DapServerStatus,
}

impl ProbeRsDapServer {
    /// A pure read of the lifecycle status.
    pub fn status(&self) -> (r: DapServerStatus)
        ensures
            r == self.status,
    {
        self.status
    }

    /// Tries to move the supervisor to `Running`, exactly as `start_step`
    /// says. Editing the port text afterwards has no effect on the recorded
    /// port. Port zero is treated as reserved and rejected. The caller hands
    /// in whether the external tool was found, and spawns the backend only
    /// when `StartAction::SpawnBackend` asks it to.
    pub fn start(&mut self, tool_installed: bool) -> (r: Result<StartAction, StartError>)
        ensures
            final(self).port == old(self).port,
            (final(self).status, r) == start_step(
                old(self).status,
                old(self).port@,
                tool_installed,
            ),
    {
        if let DapServerStatus::Running(_) = self.status {
            return Ok(StartAction::AlreadyRunning);
        }
        let port = match PortSpec::parse(self.port.as_str()) {
            Ok(p) => p,
            Err(e) => {
                return Err(e);
            },
        };
        if port == 0 {
            return Err(StartError::InvalidPort);
        }
        if !tool_installed {
            return Err(StartError::ToolNotFound);
        }
        self.status = DapServerStatus::Running(port);
        Ok(StartAction::SpawnBackend(port))
    }

    /// Moves the supervisor to `Stopped`, exactly as `stop_step` says, and
    /// reports whether a stop actually occurred. The status reads `Stopped`
    /// immediately; killing and reaping the backend is the caller's
    /// asynchronous business.
    pub fn stop(&mut self) -> (r: bool)
        ensures
            final(self).port == old(self).port,
            (final(self).status, r) == stop_step(old(self).status),
    {
        if let DapServerStatus::Stopped = self.status {
            return false;
        }
        self.status = DapServerStatus::Stopped;
        true
    }
}

impl Default for ProbeRsDapServer {
    /// A fresh supervisor: stopped, with the customary default port text.
    fn default() -> (r: Self)
        ensures
            r.port@ == "50001"@,
            r.status == DapServerStatus::Stopped,
    {
        ProbeRsDapServer { port: String::from_str("50001"), status: DapServerStatus::Stopped }
    }
}

/// How many of the given process names are the one looked for.
pub open spec fn occurrences(names: Seq<String>, target: Seq<char>) -> nat
    decreases names.len(),
{
    if names.len() == 0 {
        0
    } else {
        occurrences(names.drop_last(), target) + if names.last()@ == target {
            1nat
        } else {
            0nat
        }
    }
}

/// The decision half of the application-startup singleton check: given every
/// running process's name, whether a second instance of the application is
/// already running. The supervisor itself never sees this; it is checked once
/// at startup.
pub fn is_duplicate_instance(process_names: &Vec<String>, app_name: &str) -> (r: bool)
    ensures
        r == (occurrences(process_names@, app_name@) >= 2),
{
    let target = String::from_str(app_name);
    let n = process_names.len();
    let mut count: usize = 0;
    let mut i: usize = 0;
    while i < n
        invariant
            0 <= i <= n,
            n == process_names@.len(),
            target@ == app_name@,
            count == occurrences(process_names@.subrange(0, i as int), app_name@),
            count <= i,
        decreases n - i,
    {
        if process_names[i] == target {
            count = count + 1;
        }
        proof {
            assert(process_names@.subrange(0, i + 1).drop_last() =~= process_names@.subrange(
                0,
                i as int,
            ));
        }
        i += 1;
    }
    proof {
        assert(process_names@.subrange(0, n as int) =~= process_names@);
    }
    count >= 2
}

/// Where the first line of a piece of text ends: the index of the first line
/// feed, or the length when there is none.
pub open spec fn first_line_end(s: Seq<char>) -> int
    decreases s.len(),
{
    if s.len() == 0 {
        0
    } else if s[0] == '\n' {
        0
    } else {
        1 + first_line_end(s.drop_first())
    }
}

proof fn lemma_first_line_end_unique(s: Seq<char>, j: int)
    requires
        0 <= j <= s.len(),
        forall|k: int| 0 <= k < j ==> s[k] != '\n',
        j < s.len() ==> s[j] == '\n',
    ensures
        j == first_line_end(s),
    decreases s.len(),
{
    if s.len() == 0 {
    } else if s[0] == '\n' {
        assert(j == 0);
    } else {
        assert(j >= 1);
        let t = s.drop_first();
        assert forall|k: int| 0 <= k < j - 1 implies t[k] != '\n' by {
            assert(t[k] == s[k + 1]);
        }
        lemma_first_line_end_unique(t, j - 1);
    }
}

/// What the tool probe reads from captured output: the first line, or nothing
/// when there was no output at all. A carriage return that closed the line is
/// not part of it.
pub open spec fn first_output_line(s: Seq<char>) -> Option<Seq<char>> {
    if s.len() == 0 {
        None
    } else {
        let j = first_line_end(s);
        if j == s.len() {
            Some(s)
        } else {
            let line = s.subrange(0, j);
            if line.len() > 0 && line.last() == '\r' {
                Some(line.drop_last())
            } else {
                Some(line)
            }
        }
    }
}

/// The decision half of the tool-availability probe: given what `--version`
/// printed, a present first line means the tool is launchable; no output at
/// all means it is not. Launchability is all this checks — it says nothing
/// about the version being right.
pub fn probe_version_line(output: &str) -> (r: Option<String>)
    ensures
        match r {
            Some(line) => first_output_line(output@) == Some(line@),
            None => first_output_line(output@) is None,
        },
{
    let n = output.unicode_len();
    if n == 0 {
        return None;
    }
    let mut j: usize = 0;
    while j < n && output.get_char(j) != '\n'
        invariant
            0 <= j <= n,
            n == output@.len(),
            forall|k: int| 0 <= k < j ==> output@[k] != '\n',
        decreases n - j,
    {
        j += 1;
    }
    proof {
        lemma_first_line_end_unique(output@, j as int);
    }
    if j == n {
        Some(String::from_str(output))
    } else if j > 0 && output.get_char(j - 1) == '\r' {
        let line = output.substring_char(0, j - 1);
        proof {
            assert(output@.subrange(0, j as int).drop_last() =~= output@.subrange(0, j - 1));
        }
        Some(String::from_str(line))
    } else {
        let line = output.substring_char(0, j);
        Some(String::from_str(line))
    }
}

} // verus!
