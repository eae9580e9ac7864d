use transfer_engine::runtime::{BackendRuntime, RuntimeCommand, RuntimeState, TransferStatus};

#[test]
fn test_transfer_lifecycle() {
    let mut runtime = BackendRuntime::new();

    // Register
    let id = "test-transfer-1".to_string();
    let cancel_rx = runtime.register_transfer(id.clone(), Some(1000));
    assert!(cancel_rx.is_some());

    // Update progress
    runtime.update_progress(&id, 500);

    // Check active
    let active = runtime.get_active_transfers();
    assert_eq!(active.len(), 1);
    assert_eq!(active[0].2, 500); // bytes transferred

    // Complete
    runtime.complete_transfer(&id);

    // Cleanup
    runtime.cleanup_finished();
    assert_eq!(runtime.get_active_transfers().len(), 0);
}

#[test]
fn test_cancel_transfer() {
    let mut runtime = BackendRuntime::new();
    let id = "test-cancel".to_string();
    let cancel_rx = runtime.register_transfer(id.clone(), None);
    assert!(cancel_rx.is_some());
    let mut cancel_rx = cancel_rx.unwrap();

    // Cancel
    assert!(runtime.cancel_transfer(&id));

    // Should receive cancel signal
    assert!(cancel_rx.try_recv().is_ok());
}

#[test]
fn test_shutdown_rejects_new_transfers() {
    let mut runtime = BackendRuntime::new();

    // Should accept before shutdown
    let result = runtime.register_transfer("before".to_string(), None);
    assert!(result.is_some());

    // Shutdown
    runtime.shutdown();
    assert!(runtime.is_stopping());

    // Should reject after shutdown
    let result = runtime.register_transfer("after".to_string(), None);
    assert!(result.is_none());
}

#[test]
fn test_runtime_state() {
    let mut runtime = BackendRuntime::new();
    assert_eq!(runtime.state(), RuntimeState::Running);

    // Start a transfer
    let _rx = runtime.register_transfer("test".to_string(), None);

    // Shutdown cancels the active transfer, so the runtime is already
    // Stopped rather than Stopping.
    runtime.shutdown();
    assert_eq!(runtime.state(), RuntimeState::Stopped);
}

#[test]
fn test_registry_shutdown_scenario() {
    // Register one transfer, shut down, then try to register another: the
    // late registration must be refused and the runtime must report Stopped
    // once every earlier handle is cancelled.
    let mut runtime = BackendRuntime::new();
    let before = runtime.register_transfer("before".to_string(), Some(4096));
    assert!(before.is_some());

    runtime.shutdown();

    let after = runtime.register_transfer("after".to_string(), Some(4096));
    assert!(after.is_none());

    // The only handle was cancelled by the shutdown sweep.
    assert_eq!(runtime.get_active_transfers().len(), 0);
    assert_eq!(runtime.state(), RuntimeState::Stopped);
}

#[test]
fn test_shutdown_is_idempotent() {
    let mut runtime = BackendRuntime::new();
    let _rx = runtime.register_transfer("t".to_string(), None);
    runtime.shutdown();
    runtime.shutdown();
    assert!(runtime.is_stopping());
    assert_eq!(runtime.state(), RuntimeState::Stopped);
}

#[test]
fn test_pause_and_resume_toggle() {
    let mut runtime = BackendRuntime::new();
    let id = "toggle".to_string();
    let _rx = runtime.register_transfer(id.clone(), Some(100));

    // A pending transfer cannot pause; progress moves it to InProgress.
    assert!(!runtime.pause_transfer(&id));
    runtime.update_progress(&id, 10);
    assert!(runtime.pause_transfer(&id));
    assert_eq!(runtime.get_active_transfers()[0].1, TransferStatus::Paused);

    // Only a paused transfer resumes, and only once.
    assert!(runtime.resume_transfer(&id));
    assert!(!runtime.resume_transfer(&id));
    assert_eq!(runtime.get_active_transfers()[0].1, TransferStatus::InProgress);

    // Resuming is refused while stopping.
    runtime.pause_transfer(&id);
    runtime.shutdown();
    assert!(!runtime.resume_transfer(&id));
}

#[test]
fn test_missing_handle_degrades_to_noop() {
    let mut runtime = BackendRuntime::new();
    let ghost_id = "never-registered".to_string();
    runtime.update_progress(&ghost_id, 5);
    runtime.complete_transfer(&ghost_id);
    runtime.fail_transfer(&ghost_id);
    assert!(!runtime.cancel_transfer(&ghost_id));
    assert!(!runtime.pause_transfer(&ghost_id));
    assert!(!runtime.resume_transfer(&ghost_id));
    assert_eq!(runtime.get_active_transfers().len(), 0);
}

#[test]
fn test_fail_transfer_and_cleanup() {
    let mut runtime = BackendRuntime::new();
    let good = "good".to_string();
    let bad = "bad".to_string();
    let _rx1 = runtime.register_transfer(good.clone(), Some(10));
    let _rx2 = runtime.register_transfer(bad.clone(), Some(10));
    runtime.update_progress(&good, 1);
    runtime.fail_transfer(&bad);

    let active = runtime.get_active_transfers();
    assert_eq!(active.len(), 1);
    assert_eq!(active[0].0, "good");

    runtime.cleanup_finished();
    // The failed handle is purged, the in-progress one survives.
    let active = runtime.get_active_transfers();
    assert_eq!(active.len(), 1);
    assert_eq!(active[0].0, "good");
    assert_eq!(active[0].1, TransferStatus::InProgress);
    assert_eq!(active[0].3, Some(10));
}

#[test]
fn test_register_same_id_replaces() {
    let mut runtime = BackendRuntime::new();
    let id = "dup".to_string();
    let _rx1 = runtime.register_transfer(id.clone(), Some(100));
    runtime.update_progress(&id, 42);
    // Re-registering the same id resets the handle.
    let rx2 = runtime.register_transfer(id.clone(), Some(200));
    assert!(rx2.is_some());
    let active = runtime.get_active_transfers();
    assert_eq!(active.len(), 1);
    assert_eq!(active[0].1, TransferStatus::Pending);
    assert_eq!(active[0].2, 0);
    assert_eq!(active[0].3, Some(200));
}

#[test]
fn test_send_command_cancel_all() {
    let mut runtime = BackendRuntime::new();
    let _rx1 = runtime.register_transfer("a".to_string(), None);
    let _rx2 = runtime.register_transfer("b".to_string(), None);
    let mut command_rx = runtime.subscribe_commands();
    runtime.send_command(RuntimeCommand::CancelAllTransfers);
    assert_eq!(runtime.get_active_transfers().len(), 0);
    // Not a shutdown: new registrations are still accepted.
    assert!(!runtime.is_stopping());
    assert!(runtime.register_transfer("c".to_string(), None).is_some());
    // The command was also broadcast to subscribers.
    assert!(matches!(
        command_rx.try_recv(),
        Ok(RuntimeCommand::CancelAllTransfers)
    ));
}

#[test]
fn test_send_command_shutdown_signals_subscribers() {
    let mut runtime = BackendRuntime::new();
    let mut shutdown_rx = runtime.subscribe_shutdown();
    runtime.send_command(RuntimeCommand::Shutdown);
    assert!(runtime.is_stopping());
    assert!(shutdown_rx.try_recv().is_ok());
}

#[test]
fn test_send_command_cancel_one() {
    let mut runtime = BackendRuntime::new();
    let rx = runtime.register_transfer("one".to_string(), None);
    let mut rx = rx.unwrap();
    let _rx2 = runtime.register_transfer("two".to_string(), None);
    runtime.send_command(RuntimeCommand::CancelTransfer("one".to_string()));
    assert!(rx.try_recv().is_ok());
    let active = runtime.get_active_transfers();
    assert_eq!(active.len(), 1);
    assert_eq!(active[0].0, "two");
}

#[test]
fn test_runtime_default_is_running() {
    let runtime = BackendRuntime::default();
    assert!(!runtime.is_stopping());
    assert_eq!(runtime.state(), RuntimeState::Running);
    assert_eq!(runtime.get_active_transfers().len(), 0);
}
