use block_engine::channel::SendOutcome;
use block_engine::event::{Bundle, Event, EventKind, PacketBatch};
use block_engine::event::packet_from_bytes;
use block_engine::forwarder::Forwarder;
use block_engine::ingest::{BundleIngest, SubmitError};
use block_engine::registry::{deliver_to_snapshot, Registry};

fn bundle_with_payload(payload: &[u8]) -> Bundle {
    Bundle { packets: vec![packet_from_bytes(payload.to_vec())] }
}

fn batch_with_payload(payload: &[u8]) -> PacketBatch {
    PacketBatch { packets: vec![packet_from_bytes(payload.to_vec())] }
}

#[test]
fn registry_assigns_distinct_ids() {
    let mut reg = Registry::new(EventKind::Packet);
    let (a, _rx_a) = reg.register().expect("registers");
    let (b, _rx_b) = reg.register().expect("registers");
    assert_ne!(a, b);
    assert_eq!(reg.len(), 2);
    assert!(reg.contains(a));
    assert!(reg.contains(b));
}

#[test]
fn registry_evict_is_idempotent() {
    let mut reg = Registry::new(EventKind::Bundle);
    let (a, _rx) = reg.register().expect("registers");
    reg.evict(a);
    assert!(!reg.contains(a));
    assert_eq!(reg.len(), 0);
    reg.evict(a);
    assert!(!reg.contains(a));
    assert_eq!(reg.len(), 0);
}

#[test]
fn snapshot_pass_attempts_every_subscriber_once() {
    let mut reg = Registry::new(EventKind::Packet);
    let (a, _rx_a) = reg.register_with_capacity(4).expect("registers");
    let (b, _rx_b) = reg.register_with_capacity(4).expect("registers");
    let (c, _rx_c) = reg.register_with_capacity(4).expect("registers");
    let ev = Event::PacketBatchEvent { batch: batch_with_payload(b"p") };
    let snapshot = reg.snapshot();
    assert_eq!(snapshot.len(), 3);
    let attempts = deliver_to_snapshot(&snapshot, &ev);
    assert_eq!(attempts.len(), 3);
    for (i, (sid, outcome)) in attempts.iter().enumerate() {
        assert_eq!(*sid, [a, b, c][i]);
        assert_eq!(*outcome, SendOutcome::Delivered);
    }
    reg.apply_pass(&ev, &attempts);
    assert_eq!(reg.len(), 3, "a delivered pass evicts nobody");
}

#[test]
fn snapshot_pass_delivers_through_cloned_handles() {
    let mut reg = Registry::new(EventKind::Bundle);
    let (_a, mut rx) = reg.register_with_capacity(4).expect("registers");
    let ev = Event::BundleEvent {
        bundle: bundle_with_payload(b"via-snapshot"),
        correlation_id: dummy_correlation_id(),
    };
    let snapshot = reg.snapshot();
    let attempts = deliver_to_snapshot(&snapshot, &ev);
    assert_eq!(attempts[0].1, SendOutcome::Delivered);
    match rx.try_recv().expect("delivered") {
        Event::BundleEvent { bundle, .. } => {
            assert_eq!(bundle, bundle_with_payload(b"via-snapshot"))
        }
        Event::PacketBatchEvent { .. } => panic!("wrong kind delivered"),
    }
}

#[test]
fn registered_subscriber_receives_one_copy() {
    let mut fw = Forwarder::new();
    let (_id, mut rx) = fw
        .packet_subscriptions
        .register_with_capacity(8)
        .expect("registers");
    let attempts = fw.forward_packets(batch_with_payload(b"batch-1"));
    assert_eq!(attempts.len(), 1);
    assert_eq!(attempts[0].1, SendOutcome::Delivered);
    match rx.try_recv().expect("one event") {
        Event::PacketBatchEvent { batch } => assert_eq!(batch, batch_with_payload(b"batch-1")),
        Event::BundleEvent { .. } => panic!("wrong kind delivered"),
    }
    assert!(rx.try_recv().is_err(), "exactly one copy is delivered");
}

#[test]
fn closed_subscriber_evicted_within_one_pass_and_id_never_reused() {
    let mut fw = Forwarder::new();
    let (gone, rx) = fw
        .packet_subscriptions
        .register_with_capacity(4)
        .expect("registers");
    drop(rx);
    let attempts = fw.forward_packets(batch_with_payload(b"x"));
    assert_eq!(attempts.len(), 1);
    assert_eq!(attempts[0].0, gone);
    assert_eq!(attempts[0].1, SendOutcome::Closed);
    assert!(!fw.packet_subscriptions.contains(gone));
    assert_eq!(fw.packet_subscriptions.len(), 0);
    let (fresh, _rx) = fw
        .packet_subscriptions
        .register_with_capacity(4)
        .expect("registers");
    assert_ne!(fresh, gone, "an evicted identity never reappears");
}

#[test]
fn eviction_keeps_every_other_subscriber() {
    let mut fw = Forwarder::new();
    let (gone, rx_gone) = fw
        .packet_subscriptions
        .register_with_capacity(4)
        .expect("registers");
    let (kept, mut rx_kept) = fw
        .packet_subscriptions
        .register_with_capacity(4)
        .expect("registers");
    drop(rx_gone);
    fw.forward_packets(batch_with_payload(b"x"));
    assert!(!fw.packet_subscriptions.contains(gone));
    assert!(fw.packet_subscriptions.contains(kept));
    assert!(rx_kept.try_recv().is_ok(), "the live subscriber still got the event");
}

#[test]
fn bundle_events_observed_in_fifo_order() {
    let mut fw = Forwarder::new();
    let (_id, mut rx) = fw
        .bundle_subscriptions
        .register_with_capacity(8)
        .expect("registers");
    let (tx, mut ingress) = tokio::sync::mpsc::channel::<Event>(8);
    let mut front = BundleIngest::new(tx);
    let u1 = front.submit_bundle(Some(bundle_with_payload(b"E1"))).expect("accepted");
    let u2 = front.submit_bundle(Some(bundle_with_payload(b"E2"))).expect("accepted");
    let u3 = front.submit_bundle(Some(bundle_with_payload(b"E3"))).expect("accepted");
    for _ in 0..3 {
        let ev = ingress.try_recv().expect("ingested");
        fw.handle_event(ev);
    }
    let expected = [(b"E1".to_vec(), u1), (b"E2".to_vec(), u2), (b"E3".to_vec(), u3)];
    for (payload, uid) in expected {
        match rx.try_recv().expect("delivered in order") {
            Event::BundleEvent { bundle, correlation_id } => {
                assert_eq!(bundle, bundle_with_payload(&payload));
                assert_eq!(correlation_id, uid);
            }
            Event::PacketBatchEvent { .. } => panic!("wrong kind delivered"),
        }
    }
}

#[test]
fn full_bundle_subscriber_never_delays_packet_delivery() {
    let mut fw = Forwarder::new();
    let (slow, _rx_slow) = fw
        .bundle_subscriptions
        .register_with_capacity(1)
        .expect("registers");
    let (_fast, mut rx_fast) = fw
        .packet_subscriptions
        .register_with_capacity(8)
        .expect("registers");
    let first = fw.forward_bundle(bundle_with_payload(b"b1"), dummy_correlation_id());
    assert_eq!(first[0].1, SendOutcome::Delivered);
    let second = fw.forward_bundle(bundle_with_payload(b"b2"), dummy_correlation_id());
    assert_eq!(second[0].1, SendOutcome::Full, "the slow subscriber's queue is full");
    assert!(fw.bundle_subscriptions.contains(slow), "a full queue is no reason to evict");
    let attempts = fw.forward_packets(batch_with_payload(b"p1"));
    assert_eq!(attempts[0].1, SendOutcome::Delivered);
    assert!(rx_fast.try_recv().is_ok(), "packet delivery is unaffected by the bundle side");
}

// A throwaway ingest front over a throwaway queue, used only to mint an id.
fn dummy_correlation_id() -> block_engine::ids::CorrelationId {
    let (tx, _rx) = tokio::sync::mpsc::channel::<Event>(1);
    let mut front = BundleIngest::new(tx);
    front.submit_bundle(Some(Bundle { packets: vec![] })).expect("accepted")
}

#[test]
fn sequential_submissions_yield_pairwise_distinct_ids() {
    let (tx, _rx) = tokio::sync::mpsc::channel::<Event>(64);
    let mut front = BundleIngest::new(tx);
    let mut ids = Vec::new();
    for i in 0..5u8 {
        let id = front
            .submit_bundle(Some(bundle_with_payload(&[i])))
            .expect("accepted");
        ids.push(id);
    }
    for i in 0..ids.len() {
        for j in 0..ids.len() {
            if i != j {
                assert_ne!(ids[i], ids[j]);
            }
        }
    }
}

#[test]
fn submitted_bundle_reaches_subscriber_with_its_id() {
    let mut fw = Forwarder::new();
    let (_a, mut rx_a) = fw
        .bundle_subscriptions
        .register_with_capacity(8)
        .expect("registers");
    let (tx, mut ingress) = tokio::sync::mpsc::channel::<Event>(8);
    let mut front = BundleIngest::new(tx);
    let u1 = front.submit_bundle(Some(bundle_with_payload(b"B1"))).expect("accepted");
    let ev = ingress.try_recv().expect("ingested");
    fw.handle_event(ev);
    match rx_a.try_recv().expect("delivered") {
        Event::BundleEvent { bundle, correlation_id } => {
            assert_eq!(bundle, bundle_with_payload(b"B1"));
            assert_eq!(correlation_id, u1);
        }
        Event::PacketBatchEvent { .. } => panic!("wrong kind delivered"),
    }
}

#[test]
fn subscriber_saturation_is_not_a_submission_failure() {
    let mut fw = Forwarder::new();
    let (b, mut rx_b) = fw
        .bundle_subscriptions
        .register_with_capacity(1)
        .expect("registers");
    let (tx, mut ingress) = tokio::sync::mpsc::channel::<Event>(8);
    let mut front = BundleIngest::new(tx);
    let u1 = front.submit_bundle(Some(bundle_with_payload(b"first"))).expect("accepted");
    let u2 = front.submit_bundle(Some(bundle_with_payload(b"second"))).expect("accepted");
    assert_ne!(u1, u2);
    for _ in 0..2 {
        let ev = ingress.try_recv().expect("ingested");
        fw.handle_event(ev);
    }
    match rx_b.try_recv().expect("holds the first event") {
        Event::BundleEvent { bundle, correlation_id } => {
            assert_eq!(bundle, bundle_with_payload(b"first"));
            assert_eq!(correlation_id, u1);
        }
        Event::PacketBatchEvent { .. } => panic!("wrong kind delivered"),
    }
    assert!(rx_b.try_recv().is_err(), "the second event was dropped for this subscriber only");
    assert!(fw.bundle_subscriptions.contains(b), "saturation is no reason to evict");
}

#[test]
fn forwarder_shuts_down_when_both_sources_close() {
    let (ptx, mut prx) = tokio::sync::mpsc::channel::<Event>(4);
    let (btx, mut brx) = tokio::sync::mpsc::channel::<Event>(4);
    drop(ptx);
    drop(btx);
    let mut fw = Forwarder::new();
    loop {
        if fw.should_shutdown() {
            break;
        }
        match prx.try_recv() {
            Ok(ev) => {
                fw.handle_event(ev);
            }
            Err(tokio::sync::mpsc::error::TryRecvError::Disconnected) => {
                fw.on_packet_source_closed();
            }
            Err(tokio::sync::mpsc::error::TryRecvError::Empty) => {}
        }
        match brx.try_recv() {
            Ok(ev) => {
                fw.handle_event(ev);
            }
            Err(tokio::sync::mpsc::error::TryRecvError::Disconnected) => {
                fw.on_bundle_source_closed();
            }
            Err(tokio::sync::mpsc::error::TryRecvError::Empty) => {}
        }
    }
    assert!(fw.should_shutdown());
}

#[test]
fn pushed_packet_batch_reaches_packet_subscriber() {
    let mut fw = Forwarder::new();
    let (_id, mut rx) = fw
        .packet_subscriptions
        .register_with_capacity(4)
        .expect("registers");
    let (tx, mut ingress) = tokio::sync::mpsc::channel::<Event>(4);
    let mut front = block_engine::ingest::PacketIngest::new(tx);
    assert!(front.push_packet_batch(batch_with_payload(b"raw")));
    let ev = ingress.try_recv().expect("ingested");
    fw.handle_event(ev);
    match rx.try_recv().expect("delivered") {
        Event::PacketBatchEvent { batch } => assert_eq!(batch, batch_with_payload(b"raw")),
        Event::BundleEvent { .. } => panic!("wrong kind delivered"),
    }
}

#[test]
fn push_packet_batch_reports_a_refused_queue() {
    let (tx, _rx) = tokio::sync::mpsc::channel::<Event>(1);
    let mut front = block_engine::ingest::PacketIngest::new(tx);
    assert!(front.push_packet_batch(batch_with_payload(b"a")));
    assert!(!front.push_packet_batch(batch_with_payload(b"b")));
    let (tx2, rx2) = tokio::sync::mpsc::channel::<Event>(1);
    drop(rx2);
    let mut closed_front = block_engine::ingest::PacketIngest::new(tx2);
    assert!(!closed_front.push_packet_batch(batch_with_payload(b"c")));
}

#[test]
fn both_streams_are_served_while_both_produce() {
    let mut fw = Forwarder::new();
    let (_p, mut rx_p) = fw
        .packet_subscriptions
        .register_with_capacity(8)
        .expect("registers");
    let (_b, mut rx_b) = fw
        .bundle_subscriptions
        .register_with_capacity(8)
        .expect("registers");
    for i in 0..3u8 {
        fw.forward_packets(batch_with_payload(&[i]));
        fw.forward_bundle(bundle_with_payload(&[i]), dummy_correlation_id());
    }
    for _ in 0..3 {
        assert!(rx_p.try_recv().is_ok(), "packet stream is served");
        assert!(rx_b.try_recv().is_ok(), "bundle stream is served");
    }
}

#[test]
fn submit_bundle_rejects_missing_payload() {
    let (tx, _rx) = tokio::sync::mpsc::channel::<Event>(4);
    let mut front = BundleIngest::new(tx);
    assert_eq!(front.submit_bundle(None), Err(SubmitError::InvalidInput));
}

#[test]
fn submit_bundle_fails_fast_on_full_ingress() {
    let (tx, _rx) = tokio::sync::mpsc::channel::<Event>(1);
    let mut front = BundleIngest::new(tx);
    assert!(front.submit_bundle(Some(bundle_with_payload(b"a"))).is_ok());
    assert_eq!(
        front.submit_bundle(Some(bundle_with_payload(b"b"))),
        Err(SubmitError::ResourceExhausted),
        "a full ingress queue fails the producer fast instead of blocking"
    );
}

#[test]
fn submit_bundle_fails_on_closed_ingress() {
    let (tx, rx) = tokio::sync::mpsc::channel::<Event>(4);
    drop(rx);
    let mut front = BundleIngest::new(tx);
    assert_eq!(
        front.submit_bundle(Some(bundle_with_payload(b"a"))),
        Err(SubmitError::ResourceExhausted)
    );
}
