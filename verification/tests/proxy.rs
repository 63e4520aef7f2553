use rust_playground::proxy::{proxy_continues, proxy_step, BackendStreamError, ProxyAction, WorkerRegistry};
use rust_playground::stream::{StatusCode, StreamEvent};

#[test]
fn registration_hands_out_increasing_ids() {
    let mut registry: WorkerRegistry<&'static str> = WorkerRegistry::new();
    assert_eq!(registry.len(), 0);
    assert_eq!(registry.register_worker("w0"), 0);
    assert_eq!(registry.register_worker("w1"), 1);
    assert_eq!(registry.register_worker("w2"), 2);
    assert_eq!(registry.len(), 3);
    assert_eq!(registry.get(1), Some(&"w1"));
}

#[test]
fn unregistered_ids_are_not_reused() {
    let mut registry: WorkerRegistry<u8> = WorkerRegistry::new();
    let a = registry.register_worker(10);
    registry.unregister_worker(a);
    assert_eq!(registry.get(a), None);
    let b = registry.register_worker(11);
    assert_ne!(a, b);
    assert_eq!(b, 1);
    assert_eq!(registry.len(), 1);
}

#[test]
fn unregister_after_register_restores_workers() {
    let mut registry: WorkerRegistry<u8> = WorkerRegistry::new();
    registry.register_worker(1);
    let before = registry.worker_ids();
    let id = registry.register_worker(2);
    registry.unregister_worker(id);
    assert_eq!(registry.worker_ids(), before);
}

#[test]
fn unregistering_unknown_id_changes_nothing() {
    let mut registry: WorkerRegistry<u8> = WorkerRegistry::new();
    registry.register_worker(1);
    registry.unregister_worker(42);
    assert_eq!(registry.len(), 1);
}

#[test]
fn broadcast_targets_every_connected_worker() {
    let mut registry: WorkerRegistry<u32> = WorkerRegistry::new();
    for s in 0..5u32 {
        registry.register_worker(s * 10);
    }
    registry.unregister_worker(2);
    let mut ids = registry.worker_ids();
    ids.sort();
    assert_eq!(ids, vec![0, 1, 3, 4]);
    let senders: Vec<u32> = ids.iter().map(|id| *registry.get(*id).unwrap()).collect();
    assert_eq!(senders, vec![0, 10, 30, 40]);
}

#[test]
fn proxy_forwards_requests_and_stops_on_failure() {
    let forward = proxy_step::<u32, String>(StreamEvent::Received(7u32));
    match &forward {
        ProxyAction::Forward(r) => assert_eq!(*r, 7),
        ProxyAction::Stop(_) => panic!("should forward"),
    }
    assert!(proxy_continues(&forward, false));
    assert!(!proxy_continues(&forward, true));
    let stop = proxy_step::<u32, String>(StreamEvent::Failed("reset".to_string()));
    match &stop {
        ProxyAction::Stop(e) => assert_eq!(e, "reset"),
        ProxyAction::Forward(_) => panic!("should stop"),
    }
    assert!(!proxy_continues(&stop, false));
}

#[test]
fn backend_error_messages() {
    assert_eq!(BackendStreamError::Ended.message(""), "Backend stream ended unexpectedly");
    assert_eq!(
        BackendStreamError::StartFailed.message("connection refused"),
        "Failed to start backend stream: connection refused"
    );
    let s = BackendStreamError::Ended.status("");
    assert_eq!(s.code, StatusCode::Internal);
    assert_eq!(s.message, "Backend stream ended unexpectedly");
    let s = BackendStreamError::StartFailed.status("refused");
    assert_eq!(s.code, StatusCode::Internal);
    assert_eq!(s.message, "Failed to start backend stream: refused");
}
