use alarm_protocol::alarm::{AlarmState, ArmState, Event, Step};
use alarm_protocol::errors::{classify, ErrorClass, HandlerError, TransportError};
use alarm_protocol::frame::{Frame, FrameKind};
use alarm_protocol::setup::{SetupReader, SetupStep};
use alarm_protocol::CONNECTION_TIMEOUT_MS;
use alarm_protocol::DEFUSE_TIMEOUT_MS;
use alarm_protocol::UPDATE_SIZE;

fn message(code: u8) -> Frame {
    let mut payload = vec![0u8; UPDATE_SIZE];
    payload[0] = code;
    for (i, b) in payload.iter_mut().enumerate().skip(1) {
        *b = i as u8;
    }
    Frame {
        kind: FrameKind::Binary,
        fin: true,
        payload,
    }
}

#[test]
fn initial_state_holds_sentinel() {
    let state = AlarmState::new(1_000);
    assert_eq!(state.last_message, vec![0xffu8; UPDATE_SIZE]);
    assert_eq!(state.arm, ArmState::Idle);
    assert_eq!(state.connection_deadline_ms, 1_000 + CONNECTION_TIMEOUT_MS);
    assert_eq!(state.next_deadline_ms(), 1_000 + CONNECTION_TIMEOUT_MS);
}

#[test]
fn last_message_tracks_latest_payload() {
    let mut state = AlarmState::new(0);
    let first = message(1);
    let second = message(0);
    assert_eq!(
        state.handle_event(&Event::Delivery(first), 100),
        Step::Continue
    );
    assert_eq!(state.last_message, message(1).payload);
    assert_eq!(
        state.handle_event(&Event::Delivery(second), 200),
        Step::Continue
    );
    assert_eq!(state.last_message, message(0).payload);
}

#[test]
fn accepted_message_resets_connection_deadline() {
    let mut state = AlarmState::new(0);
    state.handle_event(&Event::Delivery(message(0)), 4_000);
    assert_eq!(state.connection_deadline_ms, 4_000 + CONNECTION_TIMEOUT_MS);
}

#[test]
fn arming_sets_defuse_deadline_once() {
    let mut state = AlarmState::new(0);
    assert_eq!(
        state.handle_event(&Event::Delivery(message(1)), 1_000),
        Step::Continue
    );
    assert_eq!(
        state.arm,
        ArmState::Armed {
            defuse_deadline_ms: 1_000 + DEFUSE_TIMEOUT_MS
        }
    );
    // Re-arming later does not move the deadline.
    assert_eq!(
        state.handle_event(&Event::Delivery(message(1)), 5_000),
        Step::Continue
    );
    assert_eq!(
        state.arm,
        ArmState::Armed {
            defuse_deadline_ms: 1_000 + DEFUSE_TIMEOUT_MS
        }
    );
}

#[test]
fn disarm_clears_defuse_deadline() {
    let mut state = AlarmState::new(0);
    state.handle_event(&Event::Delivery(message(1)), 1_000);
    assert_eq!(
        state.handle_event(&Event::Delivery(message(0)), 2_000),
        Step::Continue
    );
    assert_eq!(state.arm, ArmState::Idle);
    // Only the connection deadline remains pending.
    assert_eq!(state.next_deadline_ms(), state.connection_deadline_ms);
}

#[test]
fn elapsed_deadline_alerts() {
    let mut state = AlarmState::new(0);
    assert_eq!(
        state.handle_event(&Event::DeadlineElapsed, 10_000),
        Step::Terminal(true)
    );
}

#[test]
fn armed_wakeup_is_defuse_deadline_when_earlier() {
    let mut state = AlarmState::new(0);
    // Accepting the arm message pushes the connection deadline to 11_000,
    // while the defuse deadline lands at 11_000 too; arm again earlier.
    state.handle_event(&Event::Delivery(message(1)), 500);
    // defuse = 10_500, connection deadline = 10_500; send a keep-alive so
    // the connection deadline moves past the defuse deadline.
    state.handle_event(&Event::Delivery(message(1)), 4_000);
    assert_eq!(state.connection_deadline_ms, 14_000);
    assert_eq!(
        state.arm,
        ArmState::Armed {
            defuse_deadline_ms: 10_500
        }
    );
    assert_eq!(state.next_deadline_ms(), 10_500);
}

#[test]
fn manual_alert_terminates_true() {
    let mut state = AlarmState::new(0);
    state.handle_event(&Event::Delivery(message(1)), 100);
    assert_eq!(
        state.handle_event(&Event::Delivery(message(2)), 200),
        Step::Terminal(true)
    );
    assert_eq!(state.last_message, message(2).payload);
}

#[test]
fn safe_stop_terminates_false() {
    let mut state = AlarmState::new(0);
    state.handle_event(&Event::Delivery(message(1)), 100);
    assert_eq!(
        state.handle_event(&Event::Delivery(message(3)), 200),
        Step::Terminal(false)
    );
    assert_eq!(state.last_message, message(3).payload);
}

#[test]
fn wrong_length_payload_is_fatal() {
    let mut state = AlarmState::new(0);
    let frame = Frame {
        kind: FrameKind::Binary,
        fin: true,
        payload: vec![0u8; 16],
    };
    assert_eq!(
        state.handle_event(&Event::Delivery(frame), 100),
        Step::Fatal(HandlerError::WrongLength(16))
    );
    // The state is untouched by a fatal message.
    assert_eq!(state.last_message, vec![0xffu8; UPDATE_SIZE]);
    assert_eq!(state.connection_deadline_ms, CONNECTION_TIMEOUT_MS);
}

#[test]
fn unrecognized_code_is_fatal() {
    let mut state = AlarmState::new(0);
    assert_eq!(
        state.handle_event(&Event::Delivery(message(9)), 100),
        Step::Fatal(HandlerError::UnrecognizedCode(9))
    );
    assert_eq!(state.last_message, vec![0xffu8; UPDATE_SIZE]);
}

#[test]
fn text_frame_in_steady_state_is_fatal() {
    let mut state = AlarmState::new(0);
    let frame = Frame {
        kind: FrameKind::Text,
        fin: true,
        payload: b"hello".to_vec(),
    };
    assert_eq!(
        state.handle_event(&Event::Delivery(frame), 100),
        Step::Fatal(HandlerError::UnexpectedFrame(FrameKind::Text))
    );
}

#[test]
fn close_frame_terminates_true() {
    let mut state = AlarmState::new(0);
    let frame = Frame {
        kind: FrameKind::Close,
        fin: true,
        payload: Vec::new(),
    };
    assert_eq!(
        state.handle_event(&Event::Delivery(frame), 100),
        Step::Terminal(true)
    );
}

#[test]
fn benign_transport_errors_terminate_true() {
    for e in [
        TransportError::ConnectionClosed,
        TransportError::UnexpectedEof,
        TransportError::IoError,
    ] {
        assert_eq!(classify(&e), ErrorClass::BenignClose);
        let mut state = AlarmState::new(0);
        assert_eq!(
            state.handle_event(&Event::Transport(e), 100),
            Step::Terminal(true)
        );
    }
}

#[test]
fn fatal_transport_errors_abort() {
    for e in [
        TransportError::InvalidFragment,
        TransportError::InvalidUtf8,
        TransportError::InvalidContinuationFrame,
        TransportError::InvalidStatusCode,
        TransportError::InvalidUpgradeHeader,
        TransportError::InvalidConnectionHeader,
        TransportError::InvalidCloseFrame,
        TransportError::InvalidCloseCode,
        TransportError::ReservedBitsNotZero,
        TransportError::ControlFrameFragmented,
        TransportError::PingFrameTooLarge,
        TransportError::FrameTooLarge,
        TransportError::InvalidSecWebsocketVersion,
        TransportError::InvalidValue,
        TransportError::MissingSecWebSocketKey,
        TransportError::HttpError,
    ] {
        assert_eq!(classify(&e), ErrorClass::Fatal);
        let mut state = AlarmState::new(0);
        assert_eq!(
            state.handle_event(&Event::Transport(e), 100),
            Step::Fatal(HandlerError::Transport(e))
        );
    }
}

#[test]
fn setup_concatenates_fragments_in_order() {
    let mut reader = SetupReader::new();
    let first = Frame {
        kind: FrameKind::Binary,
        fin: false,
        payload: vec![1, 2],
    };
    let second = Frame {
        kind: FrameKind::Continuation,
        fin: true,
        payload: vec![3, 4, 5],
    };
    assert_eq!(reader.feed(&first), SetupStep::Continue);
    assert_eq!(reader.feed(&second), SetupStep::Done);
    assert_eq!(reader.buf, vec![1, 2, 3, 4, 5]);
}

#[test]
fn setup_rejects_other_frame_kinds() {
    let mut reader = SetupReader::new();
    let frame = Frame {
        kind: FrameKind::Ping,
        fin: true,
        payload: Vec::new(),
    };
    assert_eq!(
        reader.feed(&frame),
        SetupStep::Fatal(HandlerError::UnexpectedSetupFrame(FrameKind::Ping))
    );
    assert!(reader.buf.is_empty());
}

#[test]
fn scenario_arm_then_silence_escalates() {
    // Setup: one final binary frame with a 5-byte opaque payload.
    let mut reader = SetupReader::new();
    let setup_frame = Frame {
        kind: FrameKind::Binary,
        fin: true,
        payload: vec![9, 8, 7, 6, 5],
    };
    assert_eq!(reader.feed(&setup_frame), SetupStep::Done);
    assert_eq!(reader.buf, vec![9, 8, 7, 6, 5]);

    // Steady state: an arm message, then nothing.
    let mut state = AlarmState::new(0);
    assert_eq!(
        state.handle_event(&Event::Delivery(message(1)), 1_000),
        Step::Continue
    );
    assert_eq!(
        state.arm,
        ArmState::Armed {
            defuse_deadline_ms: 1_000 + DEFUSE_TIMEOUT_MS
        }
    );
    // The defuse deadline is the earliest wakeup; once it elapses the run
    // ends with an alert.
    assert_eq!(state.next_deadline_ms(), 11_000);
    assert_eq!(
        state.handle_event(&Event::DeadlineElapsed, 11_000),
        Step::Terminal(true)
    );
}

#[test]
fn scenario_close_right_after_arming_alerts() {
    let mut state = AlarmState::new(0);
    state.handle_event(&Event::Delivery(message(1)), 1_000);
    let close = Frame {
        kind: FrameKind::Close,
        fin: true,
        payload: Vec::new(),
    };
    assert_eq!(
        state.handle_event(&Event::Delivery(close), 1_500),
        Step::Terminal(true)
    );
}

#[test]
fn scenario_safe_stop_overrides_armed_deadline() {
    let mut state = AlarmState::new(0);
    state.handle_event(&Event::Delivery(message(1)), 1_000);
    assert_eq!(
        state.handle_event(&Event::Delivery(message(3)), 2_000),
        Step::Terminal(false)
    );
}
