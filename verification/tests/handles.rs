//! Tests of the producer and consumer handles: the wait decisions of the
//! two step functions, drain-then-close, and the full concrete scenario
//! of a slow consumer behind a capacity-three queue.

use buffered_queue_rs::{buffered_queue, PopStep, PushStep};

#[test]
fn push_reports_wait_only_when_full() {
    let (mut queue, mut producer, mut consumer) = buffered_queue(2);
    assert_eq!(producer.push(&mut queue, 1), PushStep::Pushed);
    assert_eq!(producer.push(&mut queue, 2), PushStep::Pushed);
    assert_eq!(producer.push(&mut queue, 3), PushStep::Wait);
    assert_eq!(producer.len(&queue), 2);
    assert_eq!(consumer.pop(&mut queue), PopStep::Item(1));
    assert_eq!(producer.push(&mut queue, 3), PushStep::Pushed);
}

#[test]
fn pop_waits_while_stream_is_open_and_empty() {
    let (mut queue, mut producer, mut consumer) = buffered_queue(2);
    assert_eq!(consumer.pop(&mut queue), PopStep::<i32>::Wait);
    assert_eq!(producer.push(&mut queue, 5), PushStep::Pushed);
    assert_eq!(consumer.pop(&mut queue), PopStep::Item(5));
    assert_eq!(consumer.pop(&mut queue), PopStep::Wait);
}

#[test]
fn blocked_push_is_unblocked_by_one_pop() {
    let (mut queue, mut producer, mut consumer) = buffered_queue(1);
    assert_eq!(producer.push(&mut queue, 10), PushStep::Pushed);
    assert_eq!(producer.push(&mut queue, 11), PushStep::Wait);
    assert_eq!(consumer.pop(&mut queue), PopStep::Item(10));
    assert_eq!(producer.push(&mut queue, 11), PushStep::Pushed);
}

#[test]
fn blocked_pop_is_unblocked_by_one_push() {
    let (mut queue, mut producer, mut consumer) = buffered_queue(1);
    assert_eq!(consumer.pop(&mut queue), PopStep::Wait);
    assert_eq!(producer.push(&mut queue, 9), PushStep::Pushed);
    assert_eq!(consumer.pop(&mut queue), PopStep::Item(9));
}

#[test]
fn both_handles_report_the_same_length() {
    let (mut queue, mut producer, mut consumer) = buffered_queue(3);
    assert_eq!(producer.len(&queue), 0);
    assert_eq!(consumer.len(&queue), 0);
    producer.push(&mut queue, 1);
    producer.push(&mut queue, 2);
    assert_eq!(producer.len(&queue), 2);
    assert_eq!(consumer.len(&queue), 2);
    consumer.pop(&mut queue);
    assert_eq!(producer.len(&queue), 1);
    assert_eq!(consumer.len(&queue), 1);
}

#[test]
fn consumer_observes_push_order() {
    let (mut queue, mut producer, mut consumer) = buffered_queue(3);
    let values = [2, 3, 5, 7, 11, 13];
    let mut received: Vec<i32> = Vec::new();
    let mut next: usize = 0;
    while received.len() < values.len() {
        if next < values.len() {
            if let PushStep::Pushed = producer.push(&mut queue, values[next]) {
                next += 1;
            }
        }
        if let PopStep::Item(v) = consumer.pop(&mut queue) {
            received.push(v);
        }
    }
    assert_eq!(received, values);
}

#[test]
fn capacity_clamp_still_moves_elements() {
    let (mut queue, mut producer, mut consumer) = buffered_queue(0);
    assert_eq!(queue.capacity(), 1);
    assert_eq!(producer.push(&mut queue, 1), PushStep::Pushed);
    assert_eq!(producer.push(&mut queue, 2), PushStep::Wait);
    assert_eq!(consumer.pop(&mut queue), PopStep::Item(1));
    assert_eq!(producer.push(&mut queue, 2), PushStep::Pushed);
    assert_eq!(consumer.pop(&mut queue), PopStep::Item(2));
}

#[test]
fn early_release_with_nonempty_buffer_drains_in_order() {
    let (mut queue, mut producer, mut consumer) = buffered_queue(3);
    assert_eq!(producer.push(&mut queue, 100), PushStep::Pushed);
    assert_eq!(producer.push(&mut queue, 200), PushStep::Pushed);
    producer.release(&mut queue);
    assert_eq!(consumer.pop(&mut queue), PopStep::Item(100));
    assert_eq!(consumer.pop(&mut queue), PopStep::Item(200));
    assert_eq!(consumer.pop(&mut queue), PopStep::EndOfStream);
    assert_eq!(consumer.pop(&mut queue), PopStep::EndOfStream);
}

#[test]
fn release_on_empty_queue_ends_stream_at_once() {
    let (mut queue, producer, mut consumer) = buffered_queue::<i32>(2);
    producer.release(&mut queue);
    assert_eq!(consumer.pop(&mut queue), PopStep::EndOfStream);
    assert_eq!(consumer.pop(&mut queue), PopStep::EndOfStream);
}

#[test]
fn scenario_cubes_through_capacity_three() {
    let (mut queue, mut producer, mut consumer) = buffered_queue::<i64>(3);
    let cubes: Vec<i64> = (1..=10i64).map(|n| n * n * n).collect();
    let mut received: Vec<i64> = Vec::new();

    for (i, &cube) in cubes.iter().enumerate() {
        loop {
            match producer.push(&mut queue, cube) {
                PushStep::Pushed => break,
                PushStep::Wait => {
                    // only the fourth and later pushes find the queue
                    // full, and stay refused until a pop makes room
                    assert!(i >= 3);
                    assert_eq!(producer.len(&queue), 3);
                    match consumer.pop(&mut queue) {
                        PopStep::Item(v) => received.push(v),
                        other => panic!("expected a buffered element, got {:?}", other),
                    }
                }
            }
        }
    }
    producer.release(&mut queue);
    loop {
        match consumer.pop(&mut queue) {
            PopStep::Item(v) => received.push(v),
            PopStep::EndOfStream => break,
            PopStep::Wait => panic!("pop must not wait once the stream is complete"),
        }
    }
    assert_eq!(received, cubes);
    assert_eq!(consumer.pop(&mut queue), PopStep::EndOfStream);
}
