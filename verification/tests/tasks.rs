use atb::tasks::{Shutdown, TaskService};

#[test]
fn shutdown_is_remembered() {
    let (tx, rx) = tokio::sync::broadcast::channel::<()>(1);
    let mut s = Shutdown::new(rx);
    assert!(!s.is_shutdown());
    assert!(s.needs_wait());
    tx.send(()).unwrap();
    assert!(s.notify.try_recv().is_ok());
    s.mark_received();
    assert!(s.is_shutdown());
    assert!(!s.needs_wait());
}

#[test]
fn service_hands_out_signals_and_completion_once() {
    let mut service: TaskService<u8> = TaskService::new();
    service.add_task(1);
    service.add_task(2);
    let (mut shutdown, complete) = service.signals();
    assert!(!shutdown.is_shutdown());
    assert!(service.has_completion_receiver());
    let mut rx = service.take_completion_receiver();
    assert!(!service.has_completion_receiver());
    let (tasks, notify, tx, maybe_rx) = service.into_parts();
    assert_eq!(tasks, vec![1, 2]);
    assert!(maybe_rx.is_none());
    notify.send(()).unwrap();
    assert!(shutdown.notify.try_recv().is_ok());
    drop(complete);
    drop(tx);
    // Every completion sender is gone: the receiver sees the channel closed.
    assert!(matches!(rx.try_recv(), Err(tokio::sync::mpsc::error::TryRecvError::Disconnected)));
}
