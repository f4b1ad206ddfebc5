//! Supervision of the long-running helper that serves the private local
//! API: when it may be started, what its output means, and how its exit is
//! told from a crash.

use crate::decimal::{push_signed, signed_digits};
use crate::events::{json_bool, opt_event, push_json_bool, AppEvent, AppEventView};
use crate::json::opt_text;
use crate::text::owned;
use vstd::prelude::*;
use vstd::string::StringExecFns;

verus! {

/// How often a stopping helper is asked whether it has exited before it is
/// killed.
pub const STOP_POLL_LIMIT: u32 = 50;

/// The same, when the application itself is shutting down.
pub const CLEANUP_POLL_LIMIT: u32 = 10;

/// How often the released port is probed before `stop` returns.
pub const PORT_RELEASE_POLL_LIMIT: u32 = 30;

/// Milliseconds between two polls.
pub const POLL_INTERVAL_MS: u64 = 100;

/// Where the helper stands in its life.
#[derive(Debug, Clone, Copy, PartialEq, Eq, Structural)]
pub enum SidecarPhase {
    Stopped,
    Starting,
    Running,
    Stopping,
    Crashed,
}

/// What the user interface is told about the helper.
#[derive(Debug, Clone, Copy, PartialEq, Eq, Structural)]
pub struct PersonalServerStatus {
    pub running: bool,
    pub port: Option<u16>,
}

/// Whether a start has to spawn.
#[derive(Debug, Clone, Copy, PartialEq, Eq, Structural)]
pub enum StartDecision {
    /// A helper is tracked or being started: nothing is spawned.
    AlreadyRunning(PersonalServerStatus),
    /// The caller spawns a helper and reports back.
    Spawn,
}

/// What the supervisor tracks.
pub struct SidecarSupervisor {
    phase: SidecarPhase,
    pid: Option<u32>,
    port: Option<u16>,
    stop_requested: bool,
    dev_token: Option<String>,
}

pub ghost struct SupervisorView {
    pub phase: SidecarPhase,
    pub pid: Option<u32>,
    pub port: Option<u16>,
    pub stop_requested: bool,
    pub dev_token: Option<Seq<char>>,
}

/// Nothing tracked, in the given phase.
pub open spec fn cleared(phase: SidecarPhase, stop_requested: bool) -> SupervisorView {
    SupervisorView { phase, pid: None, port: None, stop_requested, dev_token: None }
}

/// The state after a start was asked for.
pub open spec fn after_begin_start(s: SupervisorView) -> SupervisorView {
    match s.phase {
        SidecarPhase::Starting | SidecarPhase::Running => SupervisorView {
            stop_requested: false,
            ..s
        },
        _ => SupervisorView { phase: SidecarPhase::Starting, stop_requested: false, ..s },
    }
}

pub open spec fn start_decision(s: SupervisorView) -> StartDecision {
    match s.phase {
        SidecarPhase::Starting | SidecarPhase::Running => StartDecision::AlreadyRunning(
            PersonalServerStatus { running: true, port: s.port },
        ),
        _ => StartDecision::Spawn,
    }
}

/// How an observed end of the helper's output is to be taken.
#[derive(Debug, Clone, Copy, PartialEq, Eq, Structural)]
pub enum ExitOutcome {
    /// The operator had asked for the stop.
    GracefulStop,
    /// The helper ended on its own.
    Exited { exit_code: Option<i32>, crashed: bool },
}

/// An exit counts as a crash unless the exit code is known to be 0.
pub open spec fn is_crash(exit_code: Option<i32>) -> bool {
    exit_code != Some(0i32)
}

pub open spec fn exit_outcome(stop_requested: bool, exit_code: Option<i32>) -> ExitOutcome {
    if stop_requested {
        ExitOutcome::GracefulStop
    } else {
        ExitOutcome::Exited { exit_code, crashed: is_crash(exit_code) }
    }
}

/// Tells an operator's stop from an exit of the helper's own.
pub fn observe_exit(stop_requested: bool, exit_code: Option<i32>) -> (r: ExitOutcome)
    ensures
        r == exit_outcome(stop_requested, exit_code),
{
    if stop_requested {
        ExitOutcome::GracefulStop
    } else {
        let crashed = match exit_code {
            Some(code) => code != 0,
            None => true,
        };
        ExitOutcome::Exited { exit_code, crashed }
    }
}

/// The state after the helper's output ended.
pub open spec fn after_exit(s: SupervisorView, exit_code: Option<i32>) -> SupervisorView {
    if s.stop_requested {
        s
    } else if is_crash(exit_code) {
        cleared(SidecarPhase::Crashed, false)
    } else {
        cleared(SidecarPhase::Stopped, false)
    }
}

pub open spec fn json_opt_code(code: Option<i32>) -> Seq<char> {
    match code {
        Some(c) => signed_digits(c as int),
        None => "null"@,
    }
}

/// The event that tells that the helper ended on its own.
pub open spec fn exited_event_of(exit_code: Option<i32>) -> AppEventView {
    AppEventView {
        name: "sidecar-exited"@,
        payload: "{\"exitCode\":"@ + json_opt_code(exit_code) + ",\"crashed\":"@ + json_bool(
            is_crash(exit_code),
        ) + "}"@,
    }
}

/// The event for an observed exit: none for a stop that was asked for.
pub open spec fn exit_event(outcome: ExitOutcome) -> Option<AppEventView> {
    match outcome {
        ExitOutcome::GracefulStop => None,
        ExitOutcome::Exited { exit_code, crashed } => Some(
            AppEventView {
                name: "sidecar-exited"@,
                payload: "{\"exitCode\":"@ + json_opt_code(exit_code) + ",\"crashed\":"@
                    + json_bool(crashed) + "}"@,
            },
        ),
    }
}

fn push_opt_code(out: &mut String, code: Option<i32>)
    ensures
        final(out)@ == old(out)@ + json_opt_code(code),
{
    match code {
        Some(c) => push_signed(out, c as i64),
        None => out.append("null"),
    }
}

pub fn exited_event(outcome: ExitOutcome) -> (r: Option<AppEvent>)
    ensures
        opt_event(r) == exit_event(outcome),
{
    match outcome {
        ExitOutcome::GracefulStop => None,
        ExitOutcome::Exited { exit_code, crashed } => {
            let mut out = String::new();
            out.append("{\"exitCode\":");
            push_opt_code(&mut out, exit_code);
            out.append(",\"crashed\":");
            push_json_bool(&mut out, crashed);
            out.append("}");
            assert(out@ =~= exit_event(outcome)->0.payload);
            Some(AppEvent { name: owned("sidecar-exited"), payload: out })
        },
    }
}

/// What the liveness probe of the tracked process found.
#[derive(Debug, Clone, Copy, PartialEq, Eq, Structural)]
pub enum ProcessProbe {
    Exited,
    Alive,
    /// The probe itself failed.
    Unknown,
}

pub open spec fn status_of(s: SupervisorView, probe: ProcessProbe) -> PersonalServerStatus {
    if s.pid is Some && probe == ProcessProbe::Alive {
        PersonalServerStatus { running: true, port: s.port }
    } else {
        PersonalServerStatus { running: false, port: None }
    }
}

/// The state after the status was asked for: a process found exited is no
/// longer tracked.
pub open spec fn after_status(s: SupervisorView, probe: ProcessProbe) -> SupervisorView {
    if s.pid is Some && probe == ProcessProbe::Exited {
        SupervisorView {
            pid: None,
            phase: if s.phase == SidecarPhase::Running {
                SidecarPhase::Stopped
            } else {
                s.phase
            },
            ..s
        }
    } else {
        s
    }
}

/// The state after a stop was asked for: the process is handed to the
/// caller for termination, and its exit will count as asked for.
pub open spec fn after_begin_stop(s: SupervisorView) -> SupervisorView {
    SupervisorView { phase: SidecarPhase::Stopping, pid: None, stop_requested: true, ..s }
}

/// The state after a stop was carried out.
pub open spec fn after_finish_stop(s: SupervisorView) -> SupervisorView {
    SupervisorView {
        phase: if s.phase == SidecarPhase::Stopping {
            SidecarPhase::Stopped
        } else {
            s.phase
        },
        port: None,
        dev_token: None,
        ..s
    }
}

/// What to do next with a process that was asked to terminate.
#[derive(Debug, Clone, Copy, PartialEq, Eq, Structural)]
pub enum StopStep {
    /// It has exited.
    Done,
    /// Sleep for one interval and probe again.
    Wait,
    /// It outlived the grace period: kill it.
    ForceKill,
}

/// After `polls` probes of which the last found the process `exited` or not:
/// done once it has exited, a wait while the limit is not reached, a kill
/// after that.
pub open spec fn stop_step(polls: u32, exited: bool, limit: u32) -> StopStep {
    if exited {
        StopStep::Done
    } else if polls < limit {
        StopStep::Wait
    } else {
        StopStep::ForceKill
    }
}

pub fn next_stop_step(polls: u32, exited: bool, limit: u32) -> (r: StopStep)
    ensures
        r == stop_step(polls, exited, limit),
{
    if exited {
        StopStep::Done
    } else if polls < limit {
        StopStep::Wait
    } else {
        StopStep::ForceKill
    }
}

impl SidecarSupervisor {
    pub closed spec fn view(&self) -> SupervisorView {
        SupervisorView {
            phase: self.phase,
            pid: self.pid,
            port: self.port,
            stop_requested: self.stop_requested,
            dev_token: opt_text(self.dev_token),
        }
    }

    /// A supervisor that tracks nothing.
    pub fn new() -> (r: Self)
        ensures
            r@ == cleared(SidecarPhase::Stopped, false),
    {
        SidecarSupervisor {
            phase: SidecarPhase::Stopped,
            pid: None,
            port: None,
            stop_requested: false,
            dev_token: None,
        }
    }

    pub fn phase(&self) -> (r: SidecarPhase)
        ensures
            r == self@.phase,
    {
        self.phase
    }

    pub fn port(&self) -> (r: Option<u16>)
        ensures
            r == self@.port,
    {
        self.port
    }

    pub fn stop_requested(&self) -> (r: bool)
        ensures
            r == self@.stop_requested,
    {
        self.stop_requested
    }

    pub fn dev_token(&self) -> (r: Option<String>)
        ensures
            opt_text(r) == self@.dev_token,
    {
        self.dev_token.clone()
    }

    /// Keeps the token that the helper announced.
    pub fn remember_dev_token(&mut self, token: String)
        ensures
            final(self)@ == (SupervisorView { dev_token: Some(token@), ..old(self)@ }),
    {
        self.dev_token = Some(token);
    }

    /// Asks for a start. While a helper is tracked or being started, the
    /// answer is its status and nothing is to be spawned.
    pub fn begin_start(&mut self) -> (r: StartDecision)
        ensures
            r == start_decision(old(self)@),
            final(self)@ == after_begin_start(old(self)@),
    {
        self.stop_requested = false;
        match self.phase {
            SidecarPhase::Starting | SidecarPhase::Running => StartDecision::AlreadyRunning(
                PersonalServerStatus { running: true, port: self.port },
            ),
            _ => {
                self.phase = SidecarPhase::Starting;
                StartDecision::Spawn
            },
        }
    }

    /// Records the helper that was spawned.
    pub fn record_spawned(&mut self, pid: u32, port: u16) -> (r: PersonalServerStatus)
        ensures
            r == (PersonalServerStatus { running: true, port: Some(port) }),
            final(self)@ == (SupervisorView {
                phase: SidecarPhase::Running,
                pid: Some(pid),
                port: Some(port),
                ..old(self)@
            }),
    {
        self.phase = SidecarPhase::Running;
        self.pid = Some(pid);
        self.port = Some(port);
        PersonalServerStatus { running: true, port: Some(port) }
    }

    /// Records that no helper could be spawned.
    pub fn record_spawn_failed(&mut self)
        ensures
            final(self)@ == (SupervisorView {
                phase: if old(self)@.phase == SidecarPhase::Starting {
                    SidecarPhase::Stopped
                } else {
                    old(self)@.phase
                },
                ..old(self)@
            }),
    {
        if self.phase == SidecarPhase::Starting {
            self.phase = SidecarPhase::Stopped;
        }
    }

    /// Takes note that the helper's output has ended. After a stop that was
    /// asked for nothing changes and nothing is published; otherwise
    /// everything tracked is dropped, so that a start can follow, and the
    /// exit is published.
    pub fn on_output_closed(&mut self, exit_code: Option<i32>) -> (r: Option<AppEvent>)
        ensures
            opt_event(r) == exit_event(exit_outcome(old(self)@.stop_requested, exit_code)),
            final(self)@ == after_exit(old(self)@, exit_code),
    {
        let outcome = observe_exit(self.stop_requested, exit_code);
        match outcome {
            ExitOutcome::GracefulStop => {},
            ExitOutcome::Exited { exit_code, crashed } => {
                self.pid = None;
                self.port = None;
                self.dev_token = None;
                self.phase = if crashed {
                    SidecarPhase::Crashed
                } else {
                    SidecarPhase::Stopped
                };
            },
        }
        exited_event(outcome)
    }

    /// Asks for a stop and hands out the process to terminate, if one is
    /// tracked.
    pub fn begin_stop(&mut self) -> (r: Option<u32>)
        ensures
            r == old(self)@.pid,
            final(self)@ == after_begin_stop(old(self)@),
    {
        self.stop_requested = true;
        self.phase = SidecarPhase::Stopping;
        let pid = self.pid;
        self.pid = None;
        pid
    }

    /// Ends a stop and hands out the port whose release is to be awaited.
    pub fn finish_stop(&mut self) -> (r: Option<u16>)
        ensures
            r == old(self)@.port,
            final(self)@ == after_finish_stop(old(self)@),
    {
        let port = self.port;
        self.port = None;
        self.dev_token = None;
        if self.phase == SidecarPhase::Stopping {
            self.phase = SidecarPhase::Stopped;
        }
        port
    }

    /// The status of the helper, from the liveness probe of its process.
    pub fn status(&mut self, probe: ProcessProbe) -> (r: PersonalServerStatus)
        ensures
            r == status_of(old(self)@, probe),
            final(self)@ == after_status(old(self)@, probe),
    {
        match self.pid {
            Some(_) => match probe {
                ProcessProbe::Exited => {
                    self.pid = None;
                    if self.phase == SidecarPhase::Running {
                        self.phase = SidecarPhase::Stopped;
                    }
                    PersonalServerStatus { running: false, port: None }
                },
                ProcessProbe::Alive => PersonalServerStatus { running: true, port: self.port },
                ProcessProbe::Unknown => PersonalServerStatus { running: false, port: None },
            },
            None => PersonalServerStatus { running: false, port: None },
        }
    }
}

/// Starting is idempotent: a second start, with no stop or exit between,
/// spawns nothing and reports the status of the first, whether or not the
/// first has spawned yet.
pub proof fn lemma_start_is_idempotent(s: SupervisorView, pid: u32, port: u16)
    ensures
        start_decision(after_begin_start(s)) == StartDecision::AlreadyRunning(
            PersonalServerStatus { running: true, port: s.port },
        ),
        after_begin_start(after_begin_start(s)) == after_begin_start(s),
        start_decision(
            SupervisorView {
                phase: SidecarPhase::Running,
                pid: Some(pid),
                port: Some(port),
                ..after_begin_start(s)
            },
        ) == StartDecision::AlreadyRunning(PersonalServerStatus { running: true, port: Some(port) }),
{
}

/// An exit that was not asked for leaves nothing behind that would keep a
/// start from spawning, and is published as a crash unless the exit code is
/// 0; an exit after a stop that was asked for publishes nothing.
pub proof fn lemma_exit_handling(s: SupervisorView, exit_code: Option<i32>)
    ensures
        !s.stop_requested ==> start_decision(after_exit(s, exit_code)) == StartDecision::Spawn,
        !s.stop_requested ==> after_exit(s, exit_code).pid is None && after_exit(
            s,
            exit_code,
        ).port is None,
        !s.stop_requested ==> exit_event(exit_outcome(s.stop_requested, exit_code))
            == Some(exited_event_of(exit_code)),
        s.stop_requested ==> exit_event(exit_outcome(s.stop_requested, exit_code)) is None,
        exit_event(exit_outcome(true, exit_code)) is None,
{
}

} // verus!
