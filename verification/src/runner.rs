//! The per-protocol lifecycle state machine.
//!
//! One runner task per protocol subscribes to the control bus, filters for
//! its own protocol, and moves between `Idle`, `Connected` and `Exited` as
//! commands arrive.  The decision on each command is the pure function
//! `runner_step`; the surrounding task performs the returned action
//! (launching or tearing down the daemon) and hands back the next command.

use vstd::prelude::*;
use vstd::string::*;

use crate::errors::QuickServeError;
use crate::messages::CommandMsg;
use crate::messages::Intent;
use crate::protocol::Protocol;
use crate::validation::addr_ok;
use crate::validation::addr_reject_message;
use crate::validation::ensure_trailing_slash;
use crate::validation::path_ok;
use crate::validation::path_reject_message;
use crate::validation::port_allowed;
use crate::validation::valid_ip_literal;
use crate::validation::validate_ip_port;
use crate::validation::validate_path;
use crate::validation::with_trailing_slash;
use crate::validation::PathStat;

verus! {

/// A validated, immutable configuration snapshot, derived from a command
/// once its start request has passed validation, and used to launch exactly
/// one daemon instance.
#[derive(Clone, Debug)]
pub struct ServerConfig {
    /// The protocol the daemon speaks.
    pub protocol: Protocol,
    /// The validated IP literal to bind.
    pub bind_address: String,
    /// The validated port to bind.
    pub port: u16,
    /// The validated served directory, with a trailing separator.
    pub served_path: String,
}

/// The mathematical content of a configuration.
pub ghost struct ConfigView {
    pub protocol: Protocol,
    pub bind_address: Seq<char>,
    pub port: u16,
    pub served_path: Seq<char>,
}

impl View for ServerConfig {
    type V = ConfigView;

    open spec fn view(&self) -> ConfigView {
        ConfigView {
            protocol: self.protocol,
            bind_address: self.bind_address@,
            port: self.port,
            served_path: self.served_path@,
        }
    }
}

impl ServerConfig {
    /// A well-formed configuration: the address passed validation and the
    /// served path ends with a separator.
    pub open spec fn wf(self) -> bool {
        &&& valid_ip_literal(self.bind_address@)
        &&& self.port != 0
        &&& port_allowed(self.port)
        &&& self.served_path@.len() > 0
        &&& self.served_path@[self.served_path@.len() - 1] == '/'
    }
}

/// Whether a start request with this command and this filesystem snapshot
/// passes validation.
pub open spec fn start_allowed(cmd: CommandMsg, stat: PathStat) -> bool {
    &&& path_ok(stat)
    &&& addr_ok(cmd.bind_ip@, cmd.port)
}

/// The message with which a start request is rejected: the served path is
/// checked first, then the address.
pub open spec fn start_reject_message(cmd: CommandMsg, stat: PathStat) -> Seq<char> {
    if !path_ok(stat) {
        path_reject_message(stat)
    } else {
        addr_reject_message(cmd.bind_ip@, cmd.port)
    }
}

/// The configuration derived from an accepted start request: the command's
/// bind address and port, and the validated path with a trailing separator.
pub open spec fn spec_config(cmd: CommandMsg, stat: PathStat) -> ConfigView {
    ConfigView {
        protocol: cmd.protocol,
        bind_address: cmd.bind_ip@,
        port: cmd.port,
        served_path: with_trailing_slash(stat.path@),
    }
}

impl ServerConfig {
    /// Derives the validated configuration from a start command and the
    /// filesystem snapshot of its served path, or rejects it with the
    /// message of the first failing check.
    pub fn from_command(cmd: &CommandMsg, stat: &PathStat) -> (r: Result<
        ServerConfig,
        QuickServeError,
    >)
        ensures
            r is Ok <==> start_allowed(*cmd, *stat),
            r matches Ok(c) ==> c@ == spec_config(*cmd, *stat) && c.wf(),
            r matches Err(e) ==> e matches QuickServeError::Validation(m) && m@
                == start_reject_message(*cmd, *stat),
    {
        if let Err(e) = validate_path(stat) {
            return Err(e);
        }
        if let Err(e) = validate_ip_port(cmd.bind_ip.as_str(), cmd.port) {
            return Err(e);
        }
        let served_path = ensure_trailing_slash(stat.path.as_str());
        let c = ServerConfig {
            protocol: cmd.protocol,
            bind_address: cmd.bind_ip.clone(),
            port: cmd.port,
            served_path,
        };
        proof {
            crate::validation::lemma_with_trailing_slash(stat.path@);
        }
        Ok(c)
    }
}

/// Where a runner stands in its lifecycle.
#[derive(Clone, Copy, Debug, PartialEq, Eq, Structural)]
pub enum RunnerState {
    /// No daemon runs; the runner waits for a start.
    Idle,
    /// A daemon runs; the runner waits for a stop or a terminate.
    Connected,
    /// The runner has ended for good; nothing is processed any more.
    Exited,
}

/// What the runner task must do after a step.
#[derive(Debug)]
pub enum RunnerAction {
    /// Nothing: the command was not addressed here, or changes nothing.
    Ignore,
    /// Launch the daemon described by the configuration as a child task.
    Launch(ServerConfig),
    /// Report the rejected start request and keep waiting.
    Reject(QuickServeError),
    /// Tear the running daemon down.
    StopDaemon,
}

/// The mathematical content of a runner action.
pub ghost enum StepAction {
    Ignore,
    Launch(ConfigView),
    Reject(Seq<char>),
    StopDaemon,
}

/// The message text carried by an error, whatever its category.
pub open spec fn spec_error_message(e: QuickServeError) -> Seq<char> {
    match e {
        QuickServeError::Network(m) => m@,
        QuickServeError::Validation(m) => m@,
        QuickServeError::ServerLifecycle(m) => m@,
        QuickServeError::Io(m) => m@,
    }
}

impl View for RunnerAction {
    type V = StepAction;

    open spec fn view(&self) -> StepAction {
        match *self {
            RunnerAction::Ignore => StepAction::Ignore,
            RunnerAction::Launch(c) => StepAction::Launch(c@),
            RunnerAction::Reject(e) => StepAction::Reject(spec_error_message(e)),
            RunnerAction::StopDaemon => StepAction::StopDaemon,
        }
    }
}

/// The transition relation of the lifecycle state machine: given the
/// runner's own protocol, its state, the received command and the
/// filesystem snapshot of the command's served path, the next state and the
/// action the task must perform.
pub open spec fn spec_step(p: Protocol, state: RunnerState, cmd: CommandMsg, stat: PathStat) -> (
    RunnerState,
    StepAction,
) {
    if cmd.protocol != p {
        (state, StepAction::Ignore)
    } else {
        match state {
            RunnerState::Idle => match cmd.intent {
                Intent::Start => if start_allowed(cmd, stat) {
                    (RunnerState::Connected, StepAction::Launch(spec_config(cmd, stat)))
                } else {
                    (RunnerState::Idle, StepAction::Reject(start_reject_message(cmd, stat)))
                },
                _ => (RunnerState::Idle, StepAction::Ignore),
            },
            RunnerState::Connected => match cmd.intent {
                Intent::Start => (RunnerState::Connected, StepAction::Ignore),
                Intent::Stop => (RunnerState::Idle, StepAction::StopDaemon),
                Intent::Terminate => (RunnerState::Exited, StepAction::StopDaemon),
            },
            RunnerState::Exited => (RunnerState::Exited, StepAction::Ignore),
        }
    }
}

/// One decision of the lifecycle state machine.
///
/// Implements `spec_step` exactly: commands for other protocols are
/// ignored; a start while idle passes validation and launches, or is rejected
/// with a validation error and the runner stays idle; a start while
/// connected is an idempotent no-op; a stop tears the daemon down and
/// returns to idle; a terminate tears it down and ends the runner; an
/// exited runner processes nothing.
pub fn runner_step(p: &Protocol, state: RunnerState, cmd: &CommandMsg, stat: &PathStat) -> (r: (
    RunnerState,
    RunnerAction,
))
    ensures
        r.0 == spec_step(*p, state, *cmd, *stat).0,
        r.1@ == spec_step(*p, state, *cmd, *stat).1,
        r.1 matches RunnerAction::Reject(e) ==> e matches QuickServeError::Validation(_),
        r.1 matches RunnerAction::Launch(c) ==> c.wf(),
{
    if cmd.protocol != *p {
        return (state, RunnerAction::Ignore);
    }
    match state {
        RunnerState::Idle => match cmd.intent {
            Intent::Start => match ServerConfig::from_command(cmd, stat) {
                Ok(c) => (RunnerState::Connected, RunnerAction::Launch(c)),
                Err(e) => (RunnerState::Idle, RunnerAction::Reject(e)),
            },
            _ => (RunnerState::Idle, RunnerAction::Ignore),
        },
        RunnerState::Connected => match cmd.intent {
            Intent::Start => (RunnerState::Connected, RunnerAction::Ignore),
            Intent::Stop => (RunnerState::Idle, RunnerAction::StopDaemon),
            Intent::Terminate => (RunnerState::Exited, RunnerAction::StopDaemon),
        },
        RunnerState::Exited => (RunnerState::Exited, RunnerAction::Ignore),
    }
}

/// Routing isolation: a command addressed to another protocol never changes
/// a runner's state and asks for no action, whatever the state and the
/// snapshot.
pub proof fn lemma_routing_isolation(
    p: Protocol,
    state: RunnerState,
    cmd: CommandMsg,
    stat: PathStat,
)
    requires
        cmd.protocol != p,
    ensures
        spec_step(p, state, cmd, stat) == (state, StepAction::Ignore),
{
}

/// Idempotent restart: a valid start connects an idle runner and launches
/// one daemon; a stop returns it to idle and tears the daemon down; the
/// same start then connects it again with the identical configuration.
pub proof fn lemma_restart_cycle(
    p: Protocol,
    start_cmd: CommandMsg,
    stop_cmd: CommandMsg,
    stat: PathStat,
    stop_stat: PathStat,
)
    requires
        start_cmd.protocol == p,
        start_cmd.intent == Intent::Start,
        start_allowed(start_cmd, stat),
        stop_cmd.protocol == p,
        stop_cmd.intent == Intent::Stop,
    ensures
        spec_step(p, RunnerState::Idle, start_cmd, stat) == (
            RunnerState::Connected,
            StepAction::Launch(spec_config(start_cmd, stat)),
        ),
        spec_step(p, RunnerState::Connected, stop_cmd, stop_stat) == (
            RunnerState::Idle,
            StepAction::StopDaemon,
        ),
        spec_step(p, RunnerState::Idle, start_cmd, stat) == spec_step(
            p,
            spec_step(p, RunnerState::Connected, stop_cmd, stop_stat).0,
            start_cmd,
            stat,
        ),
{
}

/// Duplicate starts are no-ops: a start received while already connected
/// launches nothing and keeps the one running daemon.
pub proof fn lemma_duplicate_start(p: Protocol, cmd: CommandMsg, stat: PathStat)
    requires
        cmd.protocol == p,
        cmd.intent == Intent::Start,
    ensures
        spec_step(p, RunnerState::Connected, cmd, stat) == (
            RunnerState::Connected,
            StepAction::Ignore,
        ),
{
}

/// Termination is final: a terminate received while connected tears the
/// daemon down and exits the runner, and an exited runner processes no
/// further command of any kind.
pub proof fn lemma_terminate_final(p: Protocol, cmd: CommandMsg, stat: PathStat)
    requires
        cmd.protocol == p,
        cmd.intent == Intent::Terminate,
    ensures
        spec_step(p, RunnerState::Connected, cmd, stat) == (
            RunnerState::Exited,
            StepAction::StopDaemon,
        ),
        forall|c: CommandMsg, st: PathStat| #[trigger] spec_step(p, RunnerState::Exited, c, st) == (
            RunnerState::Exited,
            StepAction::Ignore,
        ),
{
}

} // verus!
