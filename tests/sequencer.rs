use gesture_training::sequencer::{ConfigError, DrawOutcome, DrawSequencer, ImageCoordinate};

fn drawn(outcome: DrawOutcome) -> ImageCoordinate {
    match outcome {
        DrawOutcome::Drawn(c) => c,
        other => panic!("expected a draw, got {:?}", other),
    }
}

#[test]
fn sequencer_refuses_sessions_without_images() {
    assert!(matches!(DrawSequencer::new(vec![], 3), Err(ConfigError::NoImageSource)));
    assert!(matches!(DrawSequencer::new(vec![0, 0], 3), Err(ConfigError::NoImage)));
    assert!(DrawSequencer::new(vec![0, 2], 3).is_ok());
}

#[test]
fn draws_do_not_repeat_within_ten() {
    for _ in 0..20 {
        let mut s = DrawSequencer::new(vec![40, 0, 60], 10).unwrap();
        let mut seen: Vec<ImageCoordinate> = Vec::new();
        for _ in 0..10 {
            let c = drawn(s.next());
            assert!(c.image_source_index == 0 || c.image_source_index == 2);
            let count = if c.image_source_index == 0 { 40 } else { 60 };
            assert!(c.image_index < count);
            assert!(!seen.contains(&c));
            seen.push(c);
        }
        assert_eq!(s.image_history(), &seen);
    }
}

#[test]
fn empty_source_is_never_drawn() {
    let mut s = DrawSequencer::new(vec![0, 1, 0], 5).unwrap();
    let c = drawn(s.next());
    assert_eq!(c, ImageCoordinate { image_source_index: 1, image_index: 0 });
}

#[test]
fn single_image_repeats_after_the_bound() {
    let mut s = DrawSequencer::new(vec![1], 2).unwrap();
    let a = drawn(s.next());
    let b = drawn(s.next());
    assert_eq!(a, b);
    assert_eq!(s.history_len(), 2);
}

#[test]
fn history_replay_is_deterministic() {
    let mut s = DrawSequencer::new(vec![1000], 5).unwrap();
    let a = drawn(s.next());
    let b = drawn(s.next());
    let c = drawn(s.next());
    assert_eq!(s.previous(), Some(b));
    assert_eq!(s.previous(), Some(a));
    assert_eq!(s.previous(), None);
    assert_eq!(s.history_cursor(), 2);
    assert_eq!(s.next(), DrawOutcome::Replayed(b));
    assert_eq!(s.previous(), Some(a));
    assert_eq!(s.next(), DrawOutcome::Replayed(b));
    assert_eq!(s.next(), DrawOutcome::Replayed(c));
    assert_eq!(s.history_cursor(), 0);
    assert_eq!(s.history_len(), 3);
    assert!(matches!(s.next(), DrawOutcome::Drawn(_)));
}

#[test]
fn previous_on_empty_history_is_a_no_op() {
    let mut s = DrawSequencer::new(vec![3], 2).unwrap();
    assert_eq!(s.previous(), None);
    assert_eq!(s.history_len(), 0);
}

#[test]
fn completion_comes_after_image_count_draws() {
    let mut s = DrawSequencer::new(vec![12], 3).unwrap();
    drawn(s.next());
    drawn(s.next());
    drawn(s.next());
    assert_eq!(s.next(), DrawOutcome::Completed);
    assert_eq!(s.next(), DrawOutcome::Completed);
    assert_eq!(s.history_len(), 3);
}

#[test]
fn zero_image_session_completes_at_once() {
    let mut s = DrawSequencer::new(vec![12], 0).unwrap();
    assert_eq!(s.next(), DrawOutcome::Completed);
}
