//! The decisions a device session takes: what each command from the Leddy
//! API does to the session's state, what the agent answers, and what each
//! frame tick asks of the renderer and the sink.
//!
//! The caller owns the socket, the clock, the renderer and the sink: it hands
//! each decoded command or tick to these functions, then carries out the
//! returned actions in order, ending the session on the first failure.

use vstd::prelude::*;
use crate::config::{ConfigError, DisplayConfig, spec_validate, validate_supported_config};

verus! {

/// The message on show, with its id and the time (in milliseconds on the
/// caller's monotonic clock) at which its animation started.
pub struct ActiveMessage<M> {
    pub message: M,
    pub id: String,
    pub started_ms: u64,
}

/// What a session keeps between events: the display configuration and the
/// message on show, if any.
pub struct SessionState<M> {
    pub config: DisplayConfig,
    pub active: Option<ActiveMessage<M>>,
}

/// A command from the Leddy API, decoded.
pub enum Command<M> {
    /// Show `message`, whose id is `id`; `validation` is the verdict of the
    /// message's own validation.
    Show { message: M, id: String, validation: Result<(), String> },
    /// Blank the display and drop the message on show.
    Clear,
    /// Switch to another display configuration; `validation` is the verdict
    /// of the shared display contracts' own validation of it.
    Configure { config: DisplayConfig, validation: Result<(), String> },
    /// Answer with the same nonce.
    Ping { nonce: String },
}

/// Something the caller must do, in the order given.
pub enum Action {
    /// Blank the physical display.
    ClearSink,
    /// Acknowledge the command with this id.
    SendAck { command_id: String },
    /// Answer a ping.
    SendPong { nonce: String },
    /// Present the frame that the renderer just produced.
    Present,
}

/// Why a session ends on a command.
#[derive(Debug)]
pub enum SessionError {
    /// The message to show failed its validation.
    InvalidMessage { reason: String },
    /// The configuration asked for was refused by its validation.
    UnsupportedConfig { error: ConfigError },
}

/// What a command asks of the caller once it is accepted.
pub enum CommandStep {
    /// Carry out these actions.
    Respond { actions: Vec<Action> },
    /// Store this configuration durably, then call `apply_configuration`
    /// with it; the session state is unchanged until then.
    Persist { config: DisplayConfig },
}

/// What a frame tick asks of the caller.
pub enum TickStep {
    /// No message is on show: nothing to render.
    Idle,
    /// Render the message on show at this point of its animation.
    Render { elapsed_ms: u64 },
}

/// Whether `a` acknowledges the command with id `id`.
pub open spec fn is_ack(a: Action, id: Seq<char>) -> bool {
    a matches Action::SendAck { command_id } && command_id@ == id
}

/// Whether `actions` are exactly: blank the sink, then acknowledge `id`.
pub open spec fn is_clear_then_ack(actions: Seq<Action>, id: Seq<char>) -> bool {
    &&& actions.len() == 2
    &&& actions[0] is ClearSink
    &&& is_ack(actions[1], id)
}

/// The acknowledgement id of a clear command.
pub open spec fn clear_ack_id() -> Seq<char> {
    seq!['c', 'l', 'e', 'a', 'r']
}

/// The acknowledgement id of a configure command.
pub open spec fn configure_ack_id() -> Seq<char> {
    seq!['c', 'o', 'n', 'f', 'i', 'g', 'u', 'r', 'e']
}

/// The message on show after a configuration change: the same message, its
/// animation restarted at `now_ms`.
pub open spec fn restarted<M>(active: Option<ActiveMessage<M>>, now_ms: u64) -> Option<
    ActiveMessage<M>,
> {
    match active {
        Some(a) => Some(ActiveMessage { message: a.message, id: a.id, started_ms: now_ms }),
        None => None,
    }
}

/// How far the animation of a message started at `started_ms` has run at
/// `now_ms`.
pub open spec fn spec_elapsed(started_ms: u64, now_ms: u64) -> u64 {
    if now_ms >= started_ms {
        (now_ms - started_ms) as u64
    } else {
        0
    }
}

/// The session state after `command` is accepted at `now_ms`, before any
/// configuration it carries is applied.
pub open spec fn spec_after_command<M>(
    state: SessionState<M>,
    command: Command<M>,
    now_ms: u64,
) -> SessionState<M> {
    match command {
        Command::Show { message, id, validation } => if validation is Ok {
            SessionState {
                config: state.config,
                active: Some(ActiveMessage { message, id, started_ms: now_ms }),
            }
        } else {
            state
        },
        Command::Clear => SessionState { config: state.config, active: None },
        Command::Configure { .. } => state,
        Command::Ping { nonce } => state,
    }
}

/// The session state after the configuration `config` is applied at `now_ms`.
pub open spec fn spec_after_configuration<M>(
    state: SessionState<M>,
    config: DisplayConfig,
    now_ms: u64,
) -> SessionState<M> {
    SessionState { config, active: restarted(state.active, now_ms) }
}

/// Whether `actions` are exactly one acknowledgement of `id`.
pub open spec fn is_single_ack(actions: Seq<Action>, id: Seq<char>) -> bool {
    actions.len() == 1 && is_ack(actions[0], id)
}

/// Whether `actions` are exactly one answer to the ping `nonce`.
pub open spec fn is_single_pong(actions: Seq<Action>, nonce: String) -> bool {
    &&& actions.len() == 1
    &&& match actions[0] {
        Action::SendPong { nonce: n } => n == nonce,
        _ => false,
    }
}

/// The actions a step asks for, if it asks for actions.
pub open spec fn step_actions(r: Result<CommandStep, SessionError>) -> Option<Seq<Action>> {
    match r {
        Ok(CommandStep::Respond { actions }) => Some(actions@),
        _ => None,
    }
}

/// Whether `r` is the answer to `command`: the effect on the caller that
/// each command has.
pub open spec fn is_command_answer<M>(command: Command<M>, r: Result<CommandStep, SessionError>) -> bool {
    match command {
        Command::Show { message, id, validation } => match validation {
            Ok(_) => match step_actions(r) {
                Some(actions) => is_single_ack(actions, id@),
                None => false,
            },
            Err(reason) => match r {
                Err(SessionError::InvalidMessage { reason: got }) => got == reason,
                _ => false,
            },
        },
        Command::Clear => match step_actions(r) {
            Some(actions) => is_clear_then_ack(actions, clear_ack_id()),
            None => false,
        },
        Command::Configure { config, validation } => match spec_validate(config, validation) {
            Ok(_) => match r {
                Ok(CommandStep::Persist { config: c }) => c == config,
                _ => false,
            },
            Err(expected) => match r {
                Err(SessionError::UnsupportedConfig { error }) => error == expected,
                _ => false,
            },
        },
        Command::Ping { nonce } => match step_actions(r) {
            Some(actions) => is_single_pong(actions, nonce),
            None => false,
        },
    }
}

impl<M> SessionState<M> {
    /// A fresh session running `config`, with nothing on show.
    pub fn new(config: DisplayConfig) -> (s: Self)
        ensures
            s.config == config,
            s.active is None,
    {
        SessionState { config, active: None }
    }

    /// The id of the message on show, reported in telemetry.
    pub fn current_message_id(&self) -> (id: Option<String>)
        ensures
            match self.active {
                Some(a) => id == Some(a.id),
                None => id is None,
            },
    {
        match &self.active {
            Some(a) => Some(a.id.clone()),
            None => None,
        }
    }
}

/// Applies one command at `now_ms`. A message to show replaces the one on
/// show and is acknowledged under its id; a clear drops it, blanks the sink
/// and is acknowledged as `clear`; a ping is answered with its nonce; a
/// configuration that passes `validate_supported_config` must be persisted
/// before `apply_configuration`, and one that does not ends the session. A refused
/// command leaves the state as it was.
pub fn handle_command<M>(
    state: &mut SessionState<M>,
    command: Command<M>,
    now_ms: u64,
) -> (r: Result<CommandStep, SessionError>)
    ensures
        *final(state) == spec_after_command(*old(state), command, now_ms),
        is_command_answer(command, r),
        match command {
            Command::Show { message, id, validation } => validation is Ok ==> {
                &&& final(state).active == Some(
                    ActiveMessage { message, id, started_ms: now_ms },
                )
                &&& final(state).config == old(state).config
            },
            _ => true,
        },
        command is Clear ==> final(state).active is None && final(state).config == old(
            state,
        ).config,
        r is Err ==> *final(state) == *old(state),
{
    match command {
        Command::Show { message, id, validation } => {
            match validation {
                Ok(()) => {
                    let ack_id = id.clone();
                    state.active = Some(ActiveMessage { message, id, started_ms: now_ms });
                    let mut actions: Vec<Action> = Vec::new();
                    actions.push(Action::SendAck { command_id: ack_id });
                    assert(is_ack(actions@[0], id@));
                    Ok(CommandStep::Respond { actions })
                },
                Err(reason) => Err(SessionError::InvalidMessage { reason }),
            }
        },
        Command::Clear => {
            state.active = None;
            let mut actions: Vec<Action> = Vec::new();
            actions.push(Action::ClearSink);
            let command_id = "clear".to_owned();
            proof {
                reveal_strlit("clear");
            }
            assert(command_id@ == clear_ack_id());
            actions.push(Action::SendAck { command_id });
            assert(actions@[0] is ClearSink);
            assert(is_ack(actions@[1], clear_ack_id()));
            Ok(CommandStep::Respond { actions })
        },
        Command::Configure { config, validation } => {
            match validate_supported_config(&config, validation) {
                Ok(()) => Ok(CommandStep::Persist { config }),
                Err(error) => Err(SessionError::UnsupportedConfig { error }),
            }
        },
        Command::Ping { nonce } => {
            let mut actions: Vec<Action> = Vec::new();
            let ghost n = nonce;
            actions.push(Action::SendPong { nonce });
            assert(is_single_pong(actions@, n));
            Ok(CommandStep::Respond { actions })
        },
    }
}

/// Switches the session to `config` once it is persisted: the message on
/// show restarts its animation at `now_ms`, the sink is blanked, and the
/// command is acknowledged as `configure`.
pub fn apply_configuration<M>(
    state: &mut SessionState<M>,
    config: DisplayConfig,
    now_ms: u64,
) -> (actions: Vec<Action>)
    ensures
        *final(state) == spec_after_configuration(*old(state), config, now_ms),
        is_clear_then_ack(actions@, configure_ack_id()),
        final(state).config == config,
        match old(state).active {
            Some(a) => final(state).active == Some(
                ActiveMessage { message: a.message, id: a.id, started_ms: now_ms },
            ),
            None => final(state).active is None,
        },
{
    state.config = config;
    let active = state.active.take();
    state.active = match active {
        Some(a) => Some(ActiveMessage { message: a.message, id: a.id, started_ms: now_ms }),
        None => None,
    };
    let mut actions: Vec<Action> = Vec::new();
    actions.push(Action::ClearSink);
    let command_id = "configure".to_owned();
    proof {
        reveal_strlit("configure");
    }
    assert(command_id@ == configure_ack_id());
    actions.push(Action::SendAck { command_id });
    assert(actions@[0] is ClearSink);
    assert(is_ack(actions@[1], configure_ack_id()));
    actions
}

/// What a frame tick at `now_ms` asks for: nothing when no message is on
/// show, otherwise a rendering of it at its elapsed time.
pub fn on_frame_tick<M>(state: &SessionState<M>, now_ms: u64) -> (step: TickStep)
    ensures
        match state.active {
            Some(a) => step == TickStep::Render { elapsed_ms: spec_elapsed(a.started_ms, now_ms) },
            None => step == TickStep::Idle,
        },
        match state.active {
            Some(a) => if now_ms >= a.started_ms {
                step == (TickStep::Render { elapsed_ms: (now_ms - a.started_ms) as u64 })
            } else {
                step == (TickStep::Render { elapsed_ms: 0 })
            },
            None => true,
        },
{
    match &state.active {
        Some(a) => {
            let elapsed_ms = if now_ms >= a.started_ms {
                now_ms - a.started_ms
            } else {
                0
            };
            TickStep::Render { elapsed_ms }
        },
        None => TickStep::Idle,
    }
}

/// What follows a rendering: a frame is presented; a finished message is
/// dropped and the sink blanked.
pub fn on_rendered<M>(state: &mut SessionState<M>, finished: bool) -> (actions: Vec<Action>)
    ensures
        finished ==> final(state).config == old(state).config && final(state).active is None
            && actions@.len() == 1 && actions@[0] is ClearSink,
        !finished ==> *final(state) == *old(state) && actions@.len() == 1
            && actions@[0] is Present,
{
    let mut actions: Vec<Action> = Vec::new();
    if finished {
        state.active = None;
        actions.push(Action::ClearSink);
    } else {
        actions.push(Action::Present);
    }
    actions
}

/// The configuration of a session is always a supported one: no accepted
/// command, applied configuration or rendering takes it out of the range.
pub proof fn lemma_config_stays_supported<M>(
    state: SessionState<M>,
    command: Command<M>,
    r: Result<CommandStep, SessionError>,
    now_ms: u64,
)
    requires
        state.config.is_supported(),
        is_command_answer(command, r),
    ensures
        spec_after_command(state, command, now_ms).config.is_supported(),
        r matches Ok(CommandStep::Persist { config }) ==> spec_after_configuration(
            spec_after_command(state, command, now_ms),
            config,
            now_ms,
        ).config.is_supported(),
{
}

/// A refused command changes nothing, and a ping changes nothing either.
pub proof fn lemma_refusal_leaves_state<M>(
    state: SessionState<M>,
    command: Command<M>,
    r: Result<CommandStep, SessionError>,
    now_ms: u64,
)
    requires
        is_command_answer(command, r),
        r is Err || command is Ping,
    ensures
        spec_after_command(state, command, now_ms) == state,
{
}

/// An accepted message always replaces whatever is on show: whatever the
/// prior state, the message on show afterwards is the new one, with its id,
/// started at the time the command arrived, and the configuration stays.
pub proof fn lemma_show_replaces<M>(
    state: SessionState<M>,
    message: M,
    id: String,
    now_ms: u64,
)
    ensures
        ({
            let next = spec_after_command(
                state,
                Command::Show { message, id, validation: Ok(()) },
                now_ms,
            );
            &&& next.active == Some(ActiveMessage { message, id, started_ms: now_ms })
            &&& next.config == state.config
        }),
{
}

/// Applying a persisted configuration always makes it the running one,
/// whatever changed (geometry, brightness, wiring or origin), and restarts the
/// message on show, if any, at that moment.
pub proof fn lemma_configuration_takes_effect<M>(
    state: SessionState<M>,
    config: DisplayConfig,
    now_ms: u64,
)
    ensures
        spec_after_configuration(state, config, now_ms).config == config,
        spec_after_configuration(state, config, now_ms).active is Some <==> state.active is Some,
        state.active matches Some(a) ==> spec_after_configuration(state, config, now_ms).active
            == Some(ActiveMessage { message: a.message, id: a.id, started_ms: now_ms }),
{
}

/// The animation time of a message is the full time since it started, with
/// no wrap-around: it grows by exactly as much as the clock does.
pub proof fn lemma_elapsed_is_exact(started_ms: u64, now_ms: u64, later_ms: u64)
    requires
        started_ms <= now_ms <= later_ms,
    ensures
        spec_elapsed(started_ms, now_ms) == now_ms - started_ms,
        spec_elapsed(started_ms, later_ms) - spec_elapsed(started_ms, now_ms) == later_ms
            - now_ms,
{
}

} // verus!
