use message_facade::buffer::{IngestionBuffer, StoredEvent, DEFAULT_CAPACITY};
use message_facade::consumer::{step, LoopAction, LoopEvent, LoopState};
use message_facade::retry::RetryPolicy;

fn event(n: usize) -> StoredEvent {
    StoredEvent::new(format!("k{}", n), format!("v{}", n))
}

fn keys(buffer: &IngestionBuffer) -> Vec<String> {
    let mut out: Vec<String> = Vec::new();
    for e in buffer.snapshot() {
        out.push(e.key);
    }
    out
}

#[test]
fn new_buffer_is_empty_with_default_capacity() {
    let buffer = IngestionBuffer::new();
    assert_eq!(buffer.len(), 0usize);
    assert_eq!(buffer.capacity(), 1000usize);
    assert_eq!(DEFAULT_CAPACITY, 1000usize);
    assert!(buffer.snapshot().is_empty());
}

#[test]
fn push_within_capacity_keeps_all_in_order() {
    let mut buffer = IngestionBuffer::with_capacity(3);
    buffer.push(event(1));
    buffer.push(event(2));
    assert_eq!(keys(&buffer), vec!["k1".to_string(), "k2".to_string()]);
    let snap = buffer.snapshot();
    assert_eq!(snap[0].value, "v1");
    assert_eq!(snap[1].value, "v2");
}

#[test]
fn push_beyond_capacity_evicts_oldest() {
    let mut buffer = IngestionBuffer::with_capacity(3);
    for n in 1usize..=5 {
        buffer.push(event(n));
        assert!(buffer.len() <= 3);
        assert_eq!(buffer.len(), n.min(3));
    }
    assert_eq!(
        keys(&buffer),
        vec!["k3".to_string(), "k4".to_string(), "k5".to_string()]
    );
}

#[test]
fn push_at_exact_capacity_evicts_nothing() {
    let mut buffer = IngestionBuffer::with_capacity(2);
    buffer.push(event(1));
    buffer.push(event(2));
    assert_eq!(keys(&buffer), vec!["k1".to_string(), "k2".to_string()]);
}

#[test]
fn zero_capacity_buffer_stays_empty() {
    let mut buffer = IngestionBuffer::with_capacity(0);
    buffer.push(event(1));
    buffer.push(event(2));
    assert_eq!(buffer.len(), 0usize);
    assert!(buffer.snapshot().is_empty());
}

#[test]
fn snapshot_is_an_independent_copy() {
    let mut buffer = IngestionBuffer::with_capacity(2);
    buffer.push(event(1));
    let before = buffer.snapshot();
    buffer.push(event(2));
    buffer.push(event(3));
    assert_eq!(before.len(), 1usize);
    assert_eq!(before[0].key, "k1");
    assert_eq!(keys(&buffer), vec!["k2".to_string(), "k3".to_string()]);
}

#[test]
fn snapshot_never_exceeds_capacity_between_pushes() {
    let mut buffer = IngestionBuffer::with_capacity(7);
    for n in 0usize..50 {
        buffer.push(event(n));
        let snap = buffer.snapshot();
        assert!(snap.len() <= 7);
        for e in snap.iter() {
            assert!(e.key.starts_with('k'));
            assert!(e.value.starts_with('v'));
            assert_eq!(e.key[1..], e.value[1..]);
        }
    }
}

#[test]
fn duplicate_copies_both_fields() {
    let first = StoredEvent::new("id".to_string(), "text".to_string());
    let copy = first.duplicate();
    assert_eq!(copy.key, "id");
    assert_eq!(copy.value, "text");
    assert_eq!(first.key, "id");
}

#[test]
fn consuming_1500_messages_leaves_the_last_1000() {
    let policy = RetryPolicy { max_retries: 5, delay_secs: 5 };
    let mut buffer = IngestionBuffer::new();
    let mut state = LoopState::Consuming;
    for n in 0usize..1500 {
        let event = LoopEvent::Message {
            key: Some(format!("id-{}", n).into_bytes()),
            payload: Some(format!("text-{}", n).into_bytes()),
        };
        let next = step(policy, state, event, &mut buffer);
        assert_eq!(next.0, LoopState::Consuming);
        assert_eq!(next.1, LoopAction::Receive);
        state = next.0;
    }
    let snap = buffer.snapshot();
    assert_eq!(snap.len(), 1000usize);
    for (i, e) in snap.iter().enumerate() {
        assert_eq!(e.key, format!("id-{}", i + 500));
        assert_eq!(e.value, format!("text-{}", i + 500));
    }
}
