use recorder::bridge::{PushOutcome, SampleBridge};

#[test]
fn accepts_until_full_then_drops() {
    let mut b = SampleBridge::new(2);
    assert_eq!(b.try_push(vec![1, 2]), PushOutcome::Accepted);
    assert_eq!(b.try_push(vec![3]), PushOutcome::Accepted);
    // Saturated: the call returns at once with a Dropped indication.
    assert_eq!(b.try_push(vec![4]), PushOutcome::Dropped);
    assert_eq!(b.len(), 2);
}

#[test]
fn delivery_preserves_arrival_order() {
    let mut b = SampleBridge::new(3);
    b.try_push(vec![1]);
    b.try_push(vec![2, 3]);
    b.try_push(vec![4]);
    assert_eq!(b.pop(), Some(vec![1]));
    assert_eq!(b.pop(), Some(vec![2, 3]));
    assert_eq!(b.pop(), Some(vec![4]));
    assert_eq!(b.pop(), None);
}

#[test]
fn dropped_batch_is_absent_and_stream_continues() {
    let mut b = SampleBridge::new(1);
    assert_eq!(b.try_push(vec![10]), PushOutcome::Accepted);
    assert_eq!(b.try_push(vec![20]), PushOutcome::Dropped);
    assert_eq!(b.pop(), Some(vec![10]));
    // After draining, later batches go through untouched.
    assert_eq!(b.try_push(vec![30]), PushOutcome::Accepted);
    assert_eq!(b.pop(), Some(vec![30]));
    assert_eq!(b.pop(), None);
}

#[test]
fn closed_bridge_accepts_nothing_but_still_drains() {
    let mut b = SampleBridge::new(2);
    assert_eq!(b.try_push(vec![1]), PushOutcome::Accepted);
    b.close();
    assert_eq!(b.try_push(vec![2]), PushOutcome::Dropped);
    assert_eq!(b.pop(), Some(vec![1]));
    assert_eq!(b.pop(), None);
}

#[test]
fn pop_on_empty_is_none() {
    let mut b = SampleBridge::new(4);
    assert_eq!(b.pop(), None);
    assert_eq!(b.len(), 0);
}
