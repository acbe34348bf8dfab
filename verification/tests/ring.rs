use petalsonic::engine::{render_budget, samples_to_generate};
use petalsonic::ring::{
    device_ring_buffer, pop_frames, push_frames, ring_buffer, ring_capacity_frames,
    ring_occupied_len, ring_try_pop, ring_try_push, ring_vacant_len, StereoFrame,
};

fn frame(left: f32, right: f32) -> StereoFrame {
    StereoFrame {
        left: left.to_bits(),
        right: right.to_bits(),
    }
}

#[test]
fn capacity_rule_has_a_floor_of_100000() {
    assert_eq!(ring_capacity_frames(1024), 100000);
    assert_eq!(ring_capacity_frames(12500), 100000);
    assert_eq!(ring_capacity_frames(12501), 100008);
    assert_eq!(ring_capacity_frames(20000), 160000);
}

// The occupied and vacant counts always partition the capacity.
#[test]
fn occupied_plus_vacant_is_the_capacity() {
    let (mut producer, _consumer) = ring_buffer(8);
    assert_eq!(ring_occupied_len(&producer), 0);
    assert_eq!(ring_vacant_len(&producer), 8);
    for i in 0..5 {
        assert!(ring_try_push(&mut producer, frame(i as f32, 0.0)));
        assert_eq!(ring_occupied_len(&producer) + ring_vacant_len(&producer), 8);
    }
    assert_eq!(ring_occupied_len(&producer), 5);
    assert_eq!(ring_vacant_len(&producer), 3);
}

#[test]
fn frames_come_out_in_push_order() {
    let (mut producer, mut consumer) = ring_buffer(4);
    let frames = vec![frame(0.1, -0.1), frame(0.2, -0.2), frame(0.3, -0.3)];
    assert_eq!(push_frames(&mut producer, &frames), 3);
    let popped = pop_frames(&mut consumer, 16);
    assert_eq!(popped, frames);
    assert!(ring_try_pop(&mut consumer).is_none());
}

#[test]
fn push_stops_at_a_full_ring() {
    let (mut producer, mut consumer) = ring_buffer(2);
    let frames = vec![frame(1.0, 1.0); 5];
    assert_eq!(push_frames(&mut producer, &frames), 2);
    assert!(!ring_try_push(&mut producer, frame(2.0, 2.0)));
    // After the consumer drains one frame, one place is free again.
    assert!(ring_try_pop(&mut consumer).is_some());
    assert!(ring_try_push(&mut producer, frame(2.0, 2.0)));
}

#[test]
fn pop_reports_an_underrun_by_coming_up_short() {
    let (mut producer, mut consumer) = ring_buffer(8);
    push_frames(&mut producer, &vec![frame(0.5, 0.5); 3]);
    let popped = pop_frames(&mut consumer, 10);
    // Three frames of ten: the device callback writes silence for the
    // other seven.
    assert_eq!(popped.len(), 3);
}

#[test]
fn device_ring_buffer_uses_the_capacity_rule() {
    let (producer, _consumer) = device_ring_buffer(1024);
    assert_eq!(ring_vacant_len(&producer), 100000);
}

#[test]
fn default_frame_is_silence() {
    let silence = StereoFrame::default();
    assert_eq!(silence.left, 0);
    assert_eq!(silence.right, 0);
    assert_eq!(f32::from_bits(silence.left), 0.0);
}

// Backpressure and budget: at or above four blocks of occupancy the
// render loop generates nothing; otherwise up to two blocks, bounded
// by the free space. A full ring buffer (no vacancy) stops all
// generation, so no mixer pass runs and no cursor advances.
#[test]
fn render_budget_follows_occupancy() {
    assert_eq!(samples_to_generate(4096, 95904, 1024), 0);
    assert_eq!(samples_to_generate(5000, 95000, 1024), 0);
    assert_eq!(samples_to_generate(4095, 95905, 1024), 2048);
    assert_eq!(samples_to_generate(0, 100000, 1024), 2048);
    assert_eq!(samples_to_generate(0, 1000, 1024), 1000);
    assert_eq!(samples_to_generate(100000, 0, 1024), 0);
    assert_eq!(samples_to_generate(0, 0, 1024), 0);

    let (mut producer, _consumer) = ring_buffer(16);
    assert_eq!(render_budget(&producer, 4), 8);
    push_frames(&mut producer, &vec![frame(0.0, 0.0); 16]);
    assert_eq!(render_budget(&producer, 4), 0);
}
