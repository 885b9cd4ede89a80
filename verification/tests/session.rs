use leddy_rasp_pi::config::{ConfigError, DisplayConfig, PixelOrigin};
use leddy_rasp_pi::session::{
    apply_configuration, handle_command, on_frame_tick, on_rendered, Action, Command,
    CommandStep, SessionError, SessionState, TickStep,
};

fn config() -> DisplayConfig {
    DisplayConfig {
        width: 100,
        height: 10,
        brightness: 96,
        serpentine: true,
        origin: PixelOrigin::TopLeft,
    }
}

fn acked(step: CommandStep) -> Vec<String> {
    match step {
        CommandStep::Respond { actions } => actions
            .into_iter()
            .map(|a| match a {
                Action::ClearSink => "clear-sink".to_string(),
                Action::SendAck { command_id } => format!("ack:{command_id}"),
                Action::SendPong { nonce } => format!("pong:{nonce}"),
                Action::Present => "present".to_string(),
            })
            .collect(),
        CommandStep::Persist { .. } => vec!["persist".to_string()],
    }
}

#[test]
fn show_is_acknowledged_and_becomes_active() {
    let mut state: SessionState<&str> = SessionState::new(config());
    let step = handle_command(
        &mut state,
        Command::Show { message: "hello", id: "m-1".to_string(), validation: Ok(()) },
        1_000,
    )
    .expect("accepted");
    assert_eq!(acked(step), vec!["ack:m-1"]);
    assert_eq!(state.current_message_id(), Some("m-1".to_string()));
    assert!(matches!(on_frame_tick(&state, 1_250), TickStep::Render { elapsed_ms: 250 }));
}

#[test]
fn invalid_message_ends_session_without_change() {
    let mut state: SessionState<&str> = SessionState::new(config());
    let error = handle_command(
        &mut state,
        Command::Show { message: "x", id: "m-2".to_string(), validation: Err("empty".to_string()) },
        0,
    )
    .err()
    .expect("refused");
    assert!(matches!(error, SessionError::InvalidMessage { reason } if reason == "empty"));
    assert!(state.active.is_none());
    assert!(matches!(on_frame_tick(&state, 5), TickStep::Idle));
}

#[test]
fn clear_drops_message_blanks_and_acknowledges() {
    let mut state: SessionState<u8> = SessionState::new(config());
    handle_command(&mut state, Command::Show { message: 1, id: "a".to_string(), validation: Ok(()) }, 0)
        .expect("shown");
    let step = handle_command(&mut state, Command::Clear, 10).expect("cleared");
    assert_eq!(acked(step), vec!["clear-sink", "ack:clear"]);
    assert!(state.active.is_none());
    assert_eq!(state.current_message_id(), None);
}

#[test]
fn ping_is_answered_with_its_nonce() {
    let mut state: SessionState<u8> = SessionState::new(config());
    let step = handle_command(&mut state, Command::Ping { nonce: "n-42".to_string() }, 0).expect("pong");
    assert_eq!(acked(step), vec!["pong:n-42"]);
}

#[test]
fn configure_persists_then_restarts_the_message() {
    let mut state: SessionState<u8> = SessionState::new(config());
    handle_command(&mut state, Command::Show { message: 1, id: "a".to_string(), validation: Ok(()) }, 100)
        .expect("shown");
    let mut next = config();
    next.width = 300;
    next.height = 20;
    let step = handle_command(&mut state, Command::Configure { config: next, validation: Ok(()) }, 500).expect("accepted");
    match step {
        CommandStep::Persist { config } => assert_eq!(config, next),
        CommandStep::Respond { .. } => panic!("expected persist"),
    }
    assert_eq!(state.config, config());
    let actions = apply_configuration(&mut state, next, 700);
    assert_eq!(acked(CommandStep::Respond { actions }), vec!["clear-sink", "ack:configure"]);
    assert_eq!(state.config, next);
    assert_eq!(state.active.as_ref().map(|a| a.started_ms), Some(700));
}

#[test]
fn unsupported_configure_is_refused() {
    let mut state: SessionState<u8> = SessionState::new(config());
    let mut next = config();
    next.height = 21;
    let error = handle_command(&mut state, Command::Configure { config: next, validation: Ok(()) }, 0).err().expect("refused");
    assert!(matches!(error, SessionError::UnsupportedConfig { .. }));
    assert_eq!(state.config, config());
}

#[test]
fn finished_message_is_dropped_and_sink_blanked() {
    let mut state: SessionState<u8> = SessionState::new(config());
    handle_command(&mut state, Command::Show { message: 1, id: "a".to_string(), validation: Ok(()) }, 0)
        .expect("shown");
    let present = on_rendered(&mut state, false);
    assert!(matches!(present.as_slice(), [Action::Present]));
    assert!(state.active.is_some());
    let done = on_rendered(&mut state, true);
    assert!(matches!(done.as_slice(), [Action::ClearSink]));
    assert!(state.active.is_none());
}

#[test]
fn clock_going_backwards_renders_from_the_start() {
    let mut state: SessionState<u8> = SessionState::new(config());
    handle_command(&mut state, Command::Show { message: 1, id: "a".to_string(), validation: Ok(()) }, 900)
        .expect("shown");
    assert!(matches!(on_frame_tick(&state, 800), TickStep::Render { elapsed_ms: 0 }));
}

#[test]
fn configure_refused_by_shared_validation_changes_nothing() {
    let mut state: SessionState<u8> = SessionState::new(config());
    let error = handle_command(
        &mut state,
        Command::Configure { config: config(), validation: Err("bad origin".to_string()) },
        0,
    )
    .err()
    .expect("refused");
    assert!(matches!(
        error,
        SessionError::UnsupportedConfig { error: ConfigError::SharedValidation { reason } } if reason == "bad origin"
    ));
    assert_eq!(state.config, config());
}
