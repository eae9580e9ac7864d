use transfer_engine::connection::{ConnectionAction, ConnectionEvent, ConnectionState};
use transfer_engine::timeline::{Timeline, TimelineEntry};
use transfer_engine::transfer::{
    TransferAction, TransferError, TransferEvent, TransferState,
};

#[test]
fn test_connection_with_actions() {
    let mut timeline = Timeline::new(100);
    let mut state = ConnectionState::Disconnected;

    // Connect
    let result = state
        .transition(
            ConnectionEvent::Connect {
                device_id: "test-device".to_string(),
            },
            timeline.next_sequence(),
        )
        .unwrap();

    state = result.new_state;
    timeline.record(result.timeline_entry);

    // Check state
    assert!(matches!(state, ConnectionState::Connecting { attempt: 1, .. }));

    // Check actions
    assert!(result
        .actions
        .iter()
        .any(|a| matches!(a, ConnectionAction::StartConnection { .. })));
    assert!(result
        .actions
        .iter()
        .any(|a| matches!(a, ConnectionAction::EmitUiEvent { .. })));

    // Connection established
    let result = state
        .transition(ConnectionEvent::ConnectionEstablished, timeline.next_sequence())
        .unwrap();

    state = result.new_state;
    timeline.record(result.timeline_entry);

    assert!(matches!(state, ConnectionState::Connected { .. }));
    assert!(result
        .actions
        .iter()
        .any(|a| matches!(a, ConnectionAction::StartHeartbeat { .. })));

    // Check timeline
    assert_eq!(timeline.entries().len(), 2);
}

#[test]
fn test_transfer_with_auto_retry() {
    let mut timeline = Timeline::new(100);
    let mut state = TransferState::Idle;

    // Start
    let result = state
        .transition(
            TransferEvent::Start {
                transfer_id: "t1".to_string(),
                url: "http://test".to_string(),
                total_bytes: 10000,
            },
            timeline.next_sequence(),
        )
        .unwrap();
    state = result.new_state;
    timeline.record(result.timeline_entry);

    // Ready
    let result = state
        .transition(TransferEvent::Ready { total_bytes: 10000 }, timeline.next_sequence())
        .unwrap();
    state = result.new_state;
    timeline.record(result.timeline_entry);

    // Progress
    let result = state
        .transition(
            TransferEvent::Progress {
                bytes: 5000,
                speed: 1000,
            },
            timeline.next_sequence(),
        )
        .unwrap();
    state = result.new_state;
    timeline.record(result.timeline_entry);

    // Error (retryable)
    let result = state
        .transition(
            TransferEvent::Error {
                error: TransferError {
                    code: "CONNECTION_LOST".to_string(),
                    message: "Connection lost".to_string(),
                    is_retryable: true,
                },
            },
            timeline.next_sequence(),
        )
        .unwrap();
    state = result.new_state;
    timeline.record(result.timeline_entry);

    // Should be in Resuming state with retry scheduled
    assert!(matches!(
        state,
        TransferState::Resuming {
            from_offset: 5000,
            attempt: 1,
            ..
        }
    ));
    assert!(result
        .actions
        .iter()
        .any(|a| matches!(a, TransferAction::ScheduleRetry { .. })));

    // Dump timeline
    println!("Timeline:\n{}", timeline.dump_json());
}

#[test]
fn test_timeline_dump() {
    let mut timeline = Timeline::new(10);

    timeline.record(TimelineEntry {
        timestamp: 1000,
        sequence: 1,
        event_type: "Connect".to_string(),
        from_state: "Disconnected".to_string(),
        to_state: "Connecting".to_string(),
        actions_produced: vec!["StartConnection".to_string()],
        data: None,
    });

    let json = timeline.dump_json();
    assert!(json.contains("Connect"));
    assert!(json.contains("Disconnected"));
}

#[test]
fn test_timeline_dump_exact_json() {
    let mut timeline = Timeline::new(10);
    timeline.record(TimelineEntry {
        timestamp: -7,
        sequence: 42,
        event_type: "Say \"hi\"".to_string(),
        from_state: "A".to_string(),
        to_state: "B".to_string(),
        actions_produced: vec!["X".to_string(), "Y".to_string()],
        data: Some("line\nbreak".to_string()),
    });
    let json = timeline.dump_json();
    assert_eq!(
        json,
        "[{\"timestamp\":-7,\"sequence\":42,\"event_type\":\"Say \\\"hi\\\"\",\
         \"from_state\":\"A\",\"to_state\":\"B\",\"actions_produced\":[\"X\",\"Y\"],\
         \"data\":\"line\\nbreak\"}]"
    );
}

#[test]
fn test_timeline_eviction() {
    let mut timeline = Timeline::new(3);
    for k in 0..5i64 {
        timeline.record(TimelineEntry {
            timestamp: k,
            sequence: k as u64,
            event_type: "E".to_string(),
            from_state: "F".to_string(),
            to_state: "T".to_string(),
            actions_produced: vec![],
            data: None,
        });
    }
    // Capacity 3: entries 0 and 1 were evicted, 2..4 remain in order.
    assert_eq!(timeline.entries().len(), 3);
    assert_eq!(timeline.entries()[0].timestamp, 2);
    assert_eq!(timeline.entries()[2].timestamp, 4);
    timeline.clear();
    assert_eq!(timeline.entries().len(), 0);
}

#[test]
fn test_timeline_dump_copies_entries() {
    let mut timeline = Timeline::new(10);
    timeline.record(TimelineEntry {
        timestamp: 1,
        sequence: 1,
        event_type: "Start".to_string(),
        from_state: "Idle".to_string(),
        to_state: "Preparing".to_string(),
        actions_produced: vec!["StartTransfer".to_string()],
        data: Some("extra".to_string()),
    });
    let dumped = timeline.dump();
    assert_eq!(dumped.len(), 1);
    assert_eq!(dumped[0].timestamp, 1);
    assert_eq!(dumped[0].event_type, "Start");
    assert_eq!(dumped[0].actions_produced, vec!["StartTransfer".to_string()]);
    assert_eq!(dumped[0].data, Some("extra".to_string()));
    // The timeline itself is untouched.
    assert_eq!(timeline.entries().len(), 1);
}

#[test]
fn test_current_timestamp_positive() {
    // The wall clock reads after the epoch on any sane machine.
    assert!(transfer_engine::clock::current_timestamp() > 0);
}

#[test]
fn test_timeline_sequence_increases() {
    let mut timeline = Timeline::new(10);
    assert_eq!(timeline.next_sequence(), 1);
    assert_eq!(timeline.next_sequence(), 2);
    assert_eq!(timeline.next_sequence(), 3);
}

#[test]
fn test_invalid_transition_is_error() {
    // No rule covers (Disconnected, HeartbeatReceived).
    let state = ConnectionState::Disconnected;
    let r = state.transition(ConnectionEvent::HeartbeatReceived, 1);
    assert!(r.is_err());
    let msg = r.err().unwrap().message();
    assert_eq!(msg, "Invalid transition from Disconnected with event HeartbeatReceived");

    // No rule covers (Idle, Pause).
    let state = TransferState::Idle;
    let r = state.transition(TransferEvent::Pause, 1);
    assert!(r.is_err());
    let msg = r.err().unwrap().message();
    assert_eq!(msg, "Invalid transition from Idle with event Pause");
}

#[test]
fn test_connect_retry_ceiling_scenario() {
    // Three consecutive failures from a fresh connect end in Failed; fewer
    // stay in Connecting with the attempt count incremented.
    let mut state = ConnectionState::Disconnected;
    let mut seq = 0u64;
    let mut step = |state: &ConnectionState, event: ConnectionEvent| {
        seq += 1;
        state.transition(event, seq).unwrap().new_state
    };
    state = step(
        &state,
        ConnectionEvent::Connect {
            device_id: "dev".to_string(),
        },
    );
    assert!(matches!(state, ConnectionState::Connecting { attempt: 1, .. }));
    state = step(
        &state,
        ConnectionEvent::ConnectionFailed {
            reason: "boom".to_string(),
        },
    );
    assert!(matches!(state, ConnectionState::Connecting { attempt: 2, .. }));
    state = step(
        &state,
        ConnectionEvent::ConnectionFailed {
            reason: "boom".to_string(),
        },
    );
    assert!(matches!(state, ConnectionState::Connecting { attempt: 3, .. }));
    state = step(
        &state,
        ConnectionEvent::ConnectionFailed {
            reason: "boom".to_string(),
        },
    );
    assert!(matches!(state, ConnectionState::Failed { .. }));
}

#[test]
fn test_connect_backoff_is_linear() {
    // The retry delay grows linearly: attempt 2 schedules a 2000 ms delay
    // before attempt 3.
    let state = ConnectionState::Connecting {
        device_id: "dev".to_string(),
        attempt: 2,
        started_at: 0,
    };
    let result = state
        .transition(
            ConnectionEvent::ConnectionFailed {
                reason: "boom".to_string(),
            },
            1,
        )
        .unwrap();
    assert!(matches!(
        result.actions[0],
        ConnectionAction::ScheduleReconnect {
            delay_ms: 2000,
            attempt: 3
        }
    ));
}

#[test]
fn test_reconnect_retry_ceiling_scenario() {
    // From Connected, a loss and five straight failures end in Failed;
    // fewer keep reconnecting with a 2000 ms-per-attempt backoff.
    let mut state = ConnectionState::Connected {
        device_id: "dev".to_string(),
        connected_at: 5,
        last_heartbeat: 5,
    };
    let mut seq = 0u64;
    seq += 1;
    let result = state.transition(ConnectionEvent::ConnectionLost, seq).unwrap();
    state = result.new_state;
    assert!(matches!(state, ConnectionState::Reconnecting { attempt: 1, .. }));
    for expected_attempt in 2..=5u32 {
        seq += 1;
        let result = state
            .transition(
                ConnectionEvent::ConnectionFailed {
                    reason: "still down".to_string(),
                },
                seq,
            )
            .unwrap();
        state = result.new_state;
        match &state {
            ConnectionState::Reconnecting { attempt, .. } => {
                assert_eq!(*attempt, expected_attempt)
            }
            other => panic!("expected Reconnecting, got {:?}", other),
        }
        // Backoff is 2000 ms per already-spent attempt.
        match &result.actions[0] {
            ConnectionAction::ScheduleReconnect { delay_ms, attempt } => {
                assert_eq!(*delay_ms, 2000 * (expected_attempt as u64 - 1));
                assert_eq!(*attempt, expected_attempt);
            }
            other => panic!("expected ScheduleReconnect, got {:?}", other),
        }
    }
    seq += 1;
    let result = state
        .transition(
            ConnectionEvent::ConnectionFailed {
                reason: "gone".to_string(),
            },
            seq,
        )
        .unwrap();
    assert!(matches!(result.new_state, ConnectionState::Failed { .. }));
}

#[test]
fn test_connection_lost_enters_reconnecting() {
    // A heartbeat loss never jumps straight to Disconnected.
    let state = ConnectionState::Connected {
        device_id: "dev".to_string(),
        connected_at: 10,
        last_heartbeat: 10,
    };
    let result = state.transition(ConnectionEvent::ConnectionLost, 1).unwrap();
    assert!(matches!(
        result.new_state,
        ConnectionState::Reconnecting { attempt: 1, .. }
    ));
    assert!(!matches!(result.new_state, ConnectionState::Disconnected));
    assert!(result
        .actions
        .iter()
        .any(|a| matches!(a, ConnectionAction::StopHeartbeat)));
    assert!(result.actions.iter().any(|a| matches!(
        a,
        ConnectionAction::ScheduleReconnect {
            delay_ms: 1000,
            attempt: 1
        }
    )));
}

#[test]
fn test_failed_connect_reuses_device_id_when_empty() {
    let state = ConnectionState::Failed {
        device_id: "remembered".to_string(),
        reason: "gone".to_string(),
        failed_at: 3,
    };
    let result = state
        .transition(
            ConnectionEvent::Connect {
                device_id: "".to_string(),
            },
            1,
        )
        .unwrap();
    match result.new_state {
        ConnectionState::Connecting {
            device_id, attempt, ..
        } => {
            assert_eq!(device_id, "remembered");
            assert_eq!(attempt, 1);
        }
        other => panic!("expected Connecting, got {:?}", other),
    }
}

#[test]
fn test_resume_offset_scenario() {
    // A 10,000-byte transfer interrupted at 5000 bytes by a retryable error
    // resumes from exactly 5000, with the retry scheduled from that offset.
    let mut state = TransferState::Idle;
    let mut seq = 0u64;
    seq += 1;
    state = state
        .transition(
            TransferEvent::Start {
                transfer_id: "t1".to_string(),
                url: "http://test".to_string(),
                total_bytes: 10000,
            },
            seq,
        )
        .unwrap()
        .new_state;
    seq += 1;
    state = state
        .transition(TransferEvent::Ready { total_bytes: 10000 }, seq)
        .unwrap()
        .new_state;
    seq += 1;
    state = state
        .transition(
            TransferEvent::Progress {
                bytes: 5000,
                speed: 2048,
            },
            seq,
        )
        .unwrap()
        .new_state;
    seq += 1;
    let result = state
        .transition(
            TransferEvent::Error {
                error: TransferError {
                    code: "CONNECTION_LOST".to_string(),
                    message: "Connection lost".to_string(),
                    is_retryable: true,
                },
            },
            seq,
        )
        .unwrap();
    assert!(matches!(
        result.new_state,
        TransferState::Resuming {
            from_offset: 5000,
            attempt: 1,
            ..
        }
    ));
    assert!(result.actions.iter().any(|a| matches!(
        a,
        TransferAction::ScheduleRetry {
            from_offset: 5000,
            ..
        }
    )));
}

#[test]
fn test_transfer_non_retryable_error_fails() {
    let state = TransferState::Transferring {
        transfer_id: "t1".to_string(),
        started_at: 0,
        bytes_transferred: 700,
        total_bytes: 10000,
        speed_bps: 10,
    };
    let result = state
        .transition(
            TransferEvent::Error {
                error: TransferError {
                    code: "CHECKSUM".to_string(),
                    message: "Checksum mismatch".to_string(),
                    is_retryable: false,
                },
            },
            1,
        )
        .unwrap();
    match result.new_state {
        TransferState::Failed {
            bytes_at_failure, ..
        } => assert_eq!(bytes_at_failure, 700),
        other => panic!("expected Failed, got {:?}", other),
    }
    assert!(result.actions.iter().any(|a| matches!(
        a,
        TransferAction::NotifyFailed {
            can_retry: false,
            ..
        }
    )));
}

#[test]
fn test_resume_backoff_is_exponential() {
    // Resume attempt 1 backs off 2000 ms, attempt 2 backs off 4000 ms, and
    // the third failure is terminal.
    let mut state = TransferState::Resuming {
        transfer_id: "t1".to_string(),
        from_offset: 4096,
        total_bytes: 10000,
        attempt: 1,
    };
    let err = || TransferEvent::Error {
        error: TransferError {
            code: "TIMEOUT".to_string(),
            message: "timed out".to_string(),
            is_retryable: true,
        },
    };
    let result = state.transition(err(), 1).unwrap();
    assert!(matches!(
        result.actions[0],
        TransferAction::ScheduleRetry {
            delay_ms: 2000,
            attempt: 2,
            from_offset: 4096
        }
    ));
    state = result.new_state;
    let result = state.transition(err(), 2).unwrap();
    assert!(matches!(
        result.actions[0],
        TransferAction::ScheduleRetry {
            delay_ms: 4000,
            attempt: 3,
            from_offset: 4096
        }
    ));
    state = result.new_state;
    let result = state.transition(err(), 3).unwrap();
    match result.new_state {
        TransferState::Failed {
            bytes_at_failure, ..
        } => assert_eq!(bytes_at_failure, 4096),
        other => panic!("expected Failed, got {:?}", other),
    }
}

#[test]
fn test_completed_duration_from_timestamps() {
    // transition_at takes the clock value explicitly, so the duration is
    // exactly the difference of the two timestamps.
    let state = TransferState::Transferring {
        transfer_id: "t1".to_string(),
        started_at: 1000,
        bytes_transferred: 10000,
        total_bytes: 10000,
        speed_bps: 0,
    };
    let result = state.transition_at(TransferEvent::Done, 1, 4500).unwrap();
    match result.new_state {
        TransferState::Completed {
            duration_ms,
            completed_at,
            total_bytes,
            ..
        } => {
            assert_eq!(duration_ms, 3500);
            assert_eq!(completed_at, 4500);
            assert_eq!(total_bytes, 10000);
        }
        other => panic!("expected Completed, got {:?}", other),
    }
}

#[test]
fn test_pause_resume_cancel_round_trip() {
    let state = TransferState::Transferring {
        transfer_id: "t1".to_string(),
        started_at: 0,
        bytes_transferred: 2500,
        total_bytes: 10000,
        speed_bps: 99,
    };
    assert!(state.can_pause());
    let result = state.transition(TransferEvent::Pause, 1).unwrap();
    let paused = result.new_state;
    assert!(matches!(
        paused,
        TransferState::Paused {
            bytes_transferred: 2500,
            ..
        }
    ));
    assert!(paused.can_resume());
    assert!(!paused.is_terminal());
    let result = paused.transition(TransferEvent::Resume, 2).unwrap();
    assert!(matches!(
        result.new_state,
        TransferState::Resuming {
            from_offset: 2500,
            attempt: 1,
            ..
        }
    ));
    assert!(result.actions.iter().any(|a| matches!(
        a,
        TransferAction::ResumeTransfer {
            from_offset: 2500,
            ..
        }
    )));
    // Cancelling from Paused goes back to Idle.
    let paused2 = TransferState::Paused {
        transfer_id: "t1".to_string(),
        paused_at: 0,
        bytes_transferred: 2500,
        total_bytes: 10000,
    };
    let result = paused2.transition(TransferEvent::Cancel, 3).unwrap();
    assert!(matches!(result.new_state, TransferState::Idle));
}

#[test]
fn test_manual_retry_after_failure() {
    let failed = TransferState::Failed {
        transfer_id: "t1".to_string(),
        failed_at: 9,
        bytes_at_failure: 3000,
        error: TransferError {
            code: "TIMEOUT".to_string(),
            message: "timed out".to_string(),
            is_retryable: true,
        },
    };
    assert!(failed.is_terminal());
    assert!(failed.can_resume());
    let result = failed
        .transition(
            TransferEvent::Retry {
                url: "http://test".to_string(),
            },
            1,
        )
        .unwrap();
    assert!(matches!(
        result.new_state,
        TransferState::Resuming {
            from_offset: 3000,
            attempt: 1,
            ..
        }
    ));
    assert!(result.actions.iter().any(|a| matches!(
        a,
        TransferAction::StartTransfer { offset: 3000, .. }
    )));

    // Without surviving progress the manual retry is not a defined rule.
    let failed_at_zero = TransferState::Failed {
        transfer_id: "t1".to_string(),
        failed_at: 9,
        bytes_at_failure: 0,
        error: TransferError {
            code: "TIMEOUT".to_string(),
            message: "timed out".to_string(),
            is_retryable: true,
        },
    };
    assert!(failed_at_zero
        .transition(
            TransferEvent::Retry {
                url: "http://test".to_string(),
            },
            2,
        )
        .is_err());
}

#[test]
fn test_transfer_id_and_kind() {
    let state = TransferState::Preparing {
        transfer_id: "abc".to_string(),
        started_at: 0,
    };
    assert_eq!(state.transfer_id(), Some("abc"));
    assert!(TransferState::Idle.transfer_id().is_none());
    assert!(!TransferState::Idle.can_pause());
    assert!(!TransferState::Idle.can_resume());
    let default_state = TransferState::default();
    assert!(matches!(default_state, TransferState::Idle));
    let default_conn = ConnectionState::default();
    assert!(matches!(default_conn, ConnectionState::Disconnected));
}

#[test]
fn test_resuming_ready_keeps_known_total() {
    // A Resuming state that already knows the total keeps it; one that does
    // not adopts the newly announced total.
    let knows = TransferState::Resuming {
        transfer_id: "t1".to_string(),
        from_offset: 500,
        total_bytes: 10000,
        attempt: 1,
    };
    let result = knows
        .transition(TransferEvent::Ready { total_bytes: 777 }, 1)
        .unwrap();
    match result.new_state {
        TransferState::Transferring {
            bytes_transferred,
            total_bytes,
            ..
        } => {
            assert_eq!(bytes_transferred, 500);
            assert_eq!(total_bytes, 10000);
        }
        other => panic!("expected Transferring, got {:?}", other),
    }
    let unknown = TransferState::Resuming {
        transfer_id: "t1".to_string(),
        from_offset: 500,
        total_bytes: 0,
        attempt: 1,
    };
    let result = unknown
        .transition(TransferEvent::Ready { total_bytes: 777 }, 2)
        .unwrap();
    match result.new_state {
        TransferState::Transferring { total_bytes, .. } => assert_eq!(total_bytes, 777),
        other => panic!("expected Transferring, got {:?}", other),
    }
}
