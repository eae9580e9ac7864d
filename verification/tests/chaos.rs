use transfer_engine::chaos::{
    run_chaos_transfer, ChaosConnectionSimulator, ChaosTransferSimulator, ChunkResult,
    ConnectionAttemptResult, HeartbeatResult,
};
use transfer_engine::connection::{ConnectionEvent, ConnectionState};
use transfer_engine::transfer::{TransferError, TransferEvent, TransferState};

#[test]
fn test_drop_every_3_packets() {
    let mut sim = ChaosTransferSimulator::new(10000).drop_every(3);

    // Start transfer
    sim.process_event(TransferEvent::Start {
        transfer_id: "chaos1".to_string(),
        url: "http://test".to_string(),
        total_bytes: 10000,
    })
    .unwrap();

    sim.process_event(TransferEvent::Ready { total_bytes: 10000 }).unwrap();

    let mut drops = 0;
    let mut successes = 0;

    // Simulate 20 chunks
    for _ in 0..20 {
        match sim.receive_chunk() {
            ChunkResult::Dropped { packet_number } => {
                drops += 1;
                // Handle drop - trigger error
                sim.process_event(TransferEvent::Error {
                    error: TransferError {
                        code: "PACKET_DROPPED".to_string(),
                        message: format!("Packet {} dropped", packet_number),
                        is_retryable: true,
                    },
                })
                .ok();
            }
            ChunkResult::Success { offset, bytes: _ } => {
                successes += 1;
                sim.process_event(TransferEvent::Progress {
                    bytes: offset,
                    speed: 1000,
                })
                .ok();
            }
            ChunkResult::Complete { .. } => {
                sim.process_event(TransferEvent::Done).ok();
                break;
            }
            _ => {}
        }
    }

    // Should have dropped some packets
    assert!(drops > 0, "Should have dropped at least some packets");
    println!("Drops: {}, Successes: {}", drops, successes);
    println!("Final state: {:?}", sim.state().kind());
}

#[test]
fn test_wrong_offset_recovery() {
    let mut sim = ChaosTransferSimulator::new(10000).wrong_offset_per_mille(300);

    sim.process_event(TransferEvent::Start {
        transfer_id: "chaos2".to_string(),
        url: "http://test".to_string(),
        total_bytes: 10000,
    })
    .unwrap();

    sim.process_event(TransferEvent::Ready { total_bytes: 10000 }).unwrap();

    let mut wrong_offsets = 0;

    for _ in 0..50 {
        match sim.receive_chunk() {
            ChunkResult::WrongOffset { expected, received } => {
                wrong_offsets += 1;
                // Handle wrong offset - this should trigger a resume
                println!("Wrong offset! Expected: {}, Got: {}", expected, received);

                // Simulate error and retry
                sim.process_event(TransferEvent::Error {
                    error: TransferError {
                        code: "WRONG_OFFSET".to_string(),
                        message: format!("Expected {}, got {}", expected, received),
                        is_retryable: true,
                    },
                })
                .ok();

                // Resume from correct offset
                sim.resume_from(expected);
            }
            ChunkResult::Success { offset, .. } => {
                sim.process_event(TransferEvent::Progress {
                    bytes: offset,
                    speed: 1000,
                })
                .ok();
            }
            ChunkResult::Complete { .. } => {
                sim.process_event(TransferEvent::Done).ok();
                break;
            }
            _ => {}
        }
    }

    println!("Wrong offsets handled: {}", wrong_offsets);
    println!("Final state: {:?}", sim.state().kind());
}

#[test]
fn test_disconnect_during_transfer() {
    let mut transfer_sim = ChaosTransferSimulator::new(10000).random_disconnect_per_mille(150);

    transfer_sim
        .process_event(TransferEvent::Start {
            transfer_id: "chaos3".to_string(),
            url: "http://test".to_string(),
            total_bytes: 10000,
        })
        .unwrap();

    transfer_sim
        .process_event(TransferEvent::Ready { total_bytes: 10000 })
        .unwrap();

    let mut disconnects = 0;
    let mut last_good_offset = 0;

    for iteration in 0..100 {
        match transfer_sim.receive_chunk() {
            ChunkResult::Disconnected { at_offset } => {
                disconnects += 1;
                println!("Iteration {}: Disconnected at offset {}", iteration, at_offset);

                // Trigger error
                transfer_sim
                    .process_event(TransferEvent::Error {
                        error: TransferError {
                            code: "DISCONNECTED".to_string(),
                            message: "Connection lost".to_string(),
                            is_retryable: true,
                        },
                    })
                    .ok();

                // Simulate reconnection and resume
                transfer_sim.resume_from(last_good_offset);

                // Re-ready event
                transfer_sim
                    .process_event(TransferEvent::Ready {
                        total_bytes: 10000 - last_good_offset,
                    })
                    .ok();
            }
            ChunkResult::Success { offset, .. } => {
                last_good_offset = offset;
                transfer_sim
                    .process_event(TransferEvent::Progress {
                        bytes: offset,
                        speed: 1000,
                    })
                    .ok();
            }
            ChunkResult::Complete { total_bytes } => {
                transfer_sim.process_event(TransferEvent::Done).ok();
                println!("Completed! Total: {} bytes", total_bytes);
                break;
            }
            _ => {}
        }
    }

    println!("Disconnects handled: {}", disconnects);
    println!("Final state: {:?}", transfer_sim.state().kind());

    // Should have handled disconnects
    assert!(disconnects >= 0, "Test ran successfully");
}

#[test]
fn test_connection_retry_resilience() {
    let mut sim = ChaosConnectionSimulator::new().fail_first_n(2); // Fail first 2 attempts

    // Start connection
    sim.process_event(ConnectionEvent::Connect {
        device_id: "test-device".to_string(),
    })
    .unwrap();

    // Process connection attempts
    for _ in 0..5 {
        match sim.try_connect("test-device") {
            ConnectionAttemptResult::Failed { attempt, reason } => {
                println!("Attempt {} failed: {}", attempt, reason);
                sim.process_event(ConnectionEvent::ConnectionFailed { reason }).ok();
            }
            ConnectionAttemptResult::Success { attempt } => {
                println!("Attempt {} succeeded!", attempt);
                sim.process_event(ConnectionEvent::ConnectionEstablished).unwrap();
                break;
            }
        }
    }

    // Should be connected after retries
    assert!(
        matches!(sim.state(), ConnectionState::Connected { .. }),
        "Should be connected after retries, but was: {:?}",
        sim.state()
    );
}

#[test]
fn test_heartbeat_disconnect() {
    let mut sim = ChaosConnectionSimulator::new().disconnect_after_heartbeats(3);

    // Connect
    sim.process_event(ConnectionEvent::Connect {
        device_id: "test-device".to_string(),
    })
    .unwrap();
    sim.process_event(ConnectionEvent::ConnectionEstablished).unwrap();

    // Simulate heartbeats
    for _ in 0..5 {
        match sim.heartbeat() {
            HeartbeatResult::Success { count: _ } => {
                sim.process_event(ConnectionEvent::HeartbeatReceived).ok();
            }
            HeartbeatResult::Disconnected { after_heartbeats } => {
                println!("Disconnected after {} heartbeats", after_heartbeats);
                sim.process_event(ConnectionEvent::ConnectionLost).unwrap();
                break;
            }
        }
    }

    // Should be in Reconnecting state
    assert!(
        matches!(sim.state(), ConnectionState::Reconnecting { .. }),
        "Should be reconnecting, but was: {:?}",
        sim.state()
    );
}

#[test]
fn test_ultimate_chaos() {
    let mut sim = ChaosTransferSimulator::new(50000)
        .drop_every(5)
        .wrong_offset_per_mille(100)
        .random_disconnect_per_mille(100);

    sim.process_event(TransferEvent::Start {
        transfer_id: "ultimate".to_string(),
        url: "http://test".to_string(),
        total_bytes: 50000,
    })
    .unwrap();

    sim.process_event(TransferEvent::Ready { total_bytes: 50000 }).unwrap();

    let mut drops = 0u32;
    let mut disconnects = 0u32;
    let mut wrong_offsets = 0u32;
    let mut successes = 0u32;
    let mut completed = false;
    let mut last_good_offset = 0;

    for _iteration in 0..500 {
        match sim.receive_chunk() {
            ChunkResult::Dropped { .. } => {
                drops += 1;
                sim.process_event(TransferEvent::Error {
                    error: TransferError {
                        code: "DROP".to_string(),
                        message: "Dropped".to_string(),
                        is_retryable: true,
                    },
                })
                .ok();
                sim.resume_from(last_good_offset);
                sim.process_event(TransferEvent::Ready {
                    total_bytes: 50000 - last_good_offset,
                })
                .ok();
            }
            ChunkResult::Disconnected { at_offset: _ } => {
                disconnects += 1;
                sim.process_event(TransferEvent::Error {
                    error: TransferError {
                        code: "DISCONNECT".to_string(),
                        message: "Disconnected".to_string(),
                        is_retryable: true,
                    },
                })
                .ok();
                sim.resume_from(last_good_offset);
                sim.process_event(TransferEvent::Ready {
                    total_bytes: 50000 - last_good_offset,
                })
                .ok();
            }
            ChunkResult::WrongOffset { expected, .. } => {
                wrong_offsets += 1;
                sim.resume_from(expected);
            }
            ChunkResult::Success { offset, .. } => {
                successes += 1;
                last_good_offset = offset;
                sim.process_event(TransferEvent::Progress {
                    bytes: offset,
                    speed: 1000,
                })
                .ok();
            }
            ChunkResult::Complete { total_bytes: _ } => {
                completed = true;
                sim.process_event(TransferEvent::Done).ok();
                break;
            }
        }
    }

    println!("\n=== Ultimate Chaos Test Results ===");
    println!("Drops: {}", drops);
    println!("Disconnects: {}", disconnects);
    println!("Wrong offsets: {}", wrong_offsets);
    println!("Successes: {}", successes);
    println!("Completed: {}", completed);
    println!("Final state: {:?}", sim.state().kind());
    println!("Timeline entries: {}", sim.timeline().entries().len());

    // The test passes if we either completed or are in a recoverable state
    assert!(
        completed
            || matches!(
                sim.state(),
                TransferState::Transferring { .. }
                    | TransferState::Resuming { .. }
                    | TransferState::Paused { .. }
            ),
        "Should complete or be in recoverable state"
    );
}

#[test]
fn test_chaos_driver_never_ends_failed() {
    // The verified driver: 500 chunks against a 50,000-byte transfer under
    // all three fault modes must end Completed or still recoverable.
    let sim = run_chaos_transfer(50000, 500, 5, 100, 100);
    assert!(
        matches!(
            sim.state(),
            TransferState::Completed { .. } | TransferState::Transferring { .. }
        ),
        "Final state: {:?}",
        sim.state().kind()
    );
    assert!(!matches!(sim.state(), TransferState::Failed { .. }));
    println!("Driver timeline:\n{}", sim.dump_timeline());
}

#[test]
fn test_chaos_driver_completes_without_faults() {
    // 10,000 bytes in 1024-byte chunks need 10 chunks; with no faults
    // configured the driver must finish the transfer.
    let sim = run_chaos_transfer(10000, 20, 0, 0, 0);
    assert!(matches!(sim.state(), TransferState::Completed { .. }));
}

#[test]
fn test_heartbeat_counter_reset() {
    let mut sim = ChaosConnectionSimulator::new().disconnect_after_heartbeats(3);
    assert!(matches!(sim.heartbeat(), HeartbeatResult::Success { count: 1 }));
    assert!(matches!(sim.heartbeat(), HeartbeatResult::Success { count: 2 }));
    sim.reset_heartbeat();
    assert!(matches!(sim.heartbeat(), HeartbeatResult::Success { count: 1 }));
    assert!(matches!(sim.heartbeat(), HeartbeatResult::Success { count: 2 }));
    assert!(matches!(
        sim.heartbeat(),
        HeartbeatResult::Disconnected { after_heartbeats: 3 }
    ));
}

#[test]
fn test_chaos_process_event_rejects_invalid() {
    let mut sim = ChaosTransferSimulator::new(1000);
    // Pause is not defined on Idle; the driver reports the message and the
    // state is unchanged.
    let r = sim.process_event(TransferEvent::Pause);
    assert!(r.is_err());
    assert_eq!(
        r.err().unwrap(),
        "Invalid transition from Idle with event Pause"
    );
    assert!(matches!(sim.state(), TransferState::Idle));
}
