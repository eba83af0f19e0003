use sprite_animation::playback::{ConfigError, Playback};

fn frames_from_start(frame_count: usize, steps: usize) -> Vec<usize> {
    let mut playback = Playback::new(frame_count).unwrap();
    let mut seen = vec![playback.current_frame()];
    for _ in 0..steps {
        playback.advance();
        seen.push(playback.current_frame());
    }
    seen
}

#[test]
fn new_starts_on_first_frame_moving_forwards() {
    let playback = Playback::new(4).unwrap();
    assert_eq!(playback.frame_count(), 4);
    assert_eq!(playback.current_frame(), 0);
    assert!(!playback.is_reversed());
}

#[test]
fn new_rejects_empty_strip() {
    assert_eq!(Playback::new(0), Err(ConfigError::ZeroFrameCount));
}

#[test]
fn new_accepts_single_frame_and_largest_strip() {
    assert!(Playback::new(1).is_ok());
    let playback = Playback::new(usize::MAX).unwrap();
    assert_eq!(playback.frame_count(), usize::MAX);
    assert_eq!(playback.current_frame(), 0);
}

#[test]
fn four_frames_play_up_and_down() {
    assert_eq!(
        frames_from_start(4, 15),
        vec![0, 1, 2, 3, 3, 2, 1, 0, 1, 2, 3, 3, 2, 1, 0, 1]
    );
}

#[test]
fn four_frames_turn_round_at_both_ends() {
    let mut playback = Playback::new(4).unwrap();
    let mut directions = vec![playback.is_reversed()];
    for _ in 0..8 {
        playback.advance();
        directions.push(playback.is_reversed());
    }
    assert_eq!(
        directions,
        vec![false, false, false, false, true, true, true, false, false]
    );
}

#[test]
fn two_frames_play_up_and_down() {
    assert_eq!(frames_from_start(2, 7), vec![0, 1, 1, 0, 1, 1, 0, 1]);
}

#[test]
fn single_frame_never_moves() {
    let mut playback = Playback::new(1).unwrap();
    for _ in 0..10 {
        playback.advance();
        assert_eq!(playback.current_frame(), 0);
    }
}

#[test]
fn single_frame_only_swaps_direction() {
    let mut playback = Playback::new(1).unwrap();
    playback.advance();
    assert_eq!(playback.current_frame(), 0);
    assert!(playback.is_reversed());
    playback.advance();
    assert_eq!(playback.current_frame(), 0);
    assert!(!playback.is_reversed());
}

#[test]
fn advance_from_last_frame_stays_and_reverses() {
    let mut playback = Playback::new(3).unwrap();
    playback.advance();
    playback.advance();
    assert_eq!(playback.current_frame(), 2);
    assert!(!playback.is_reversed());
    playback.advance();
    assert_eq!(playback.current_frame(), 2);
    assert!(playback.is_reversed());
    playback.advance();
    assert_eq!(playback.current_frame(), 1);
    assert!(playback.is_reversed());
}

#[test]
fn advance_onto_first_frame_turns_forwards() {
    let mut playback = Playback::new(3).unwrap();
    for _ in 0..4 {
        playback.advance();
    }
    assert_eq!(playback.current_frame(), 1);
    assert!(playback.is_reversed());
    playback.advance();
    assert_eq!(playback.current_frame(), 0);
    assert!(!playback.is_reversed());
}

#[test]
fn shown_frame_stays_inside_strip() {
    for frame_count in 1..9 {
        let mut playback = Playback::new(frame_count).unwrap();
        for _ in 0..100 {
            playback.advance();
            assert!(playback.current_frame() < playback.frame_count());
            assert_eq!(playback.frame_count(), frame_count);
        }
    }
}

#[test]
fn playback_returns_to_start_after_one_period() {
    for frame_count in 2..9 {
        let start = Playback::new(frame_count).unwrap();
        let mut playback = start;
        for step in 1..(2 * frame_count - 1) {
            playback.advance();
            assert_ne!(playback, start, "came back early after {} steps", step);
        }
        playback.advance();
        assert_eq!(playback, start);
    }
}

#[test]
fn frames_repeat_with_the_period() {
    for frame_count in 1..7 {
        let period = 2 * frame_count - 1;
        let seen = frames_from_start(frame_count, 4 * period);
        for n in 0..(3 * period) {
            assert_eq!(seen[n + period], seen[n]);
        }
    }
}

#[test]
fn frame_after_n_steps_follows_the_cycle() {
    let frame_count = 5;
    let period = 2 * frame_count - 1;
    let seen = frames_from_start(frame_count, 40);
    for (n, frame) in seen.iter().enumerate() {
        let phase = n % period;
        let expected = if phase < frame_count { phase } else { period - phase };
        assert_eq!(*frame, expected);
    }
}

#[test]
fn update_without_elapsed_period_changes_nothing() {
    let mut playback = Playback::new(4).unwrap();
    playback.advance();
    let before = playback;
    assert!(!playback.update(false));
    assert_eq!(playback, before);
    assert_eq!(playback.current_frame(), 1);
}

#[test]
fn update_with_elapsed_period_takes_one_step() {
    let mut playback = Playback::new(4).unwrap();
    assert!(!playback.update(false));
    assert_eq!(playback.current_frame(), 0);
    assert!(playback.update(true));
    assert_eq!(playback.current_frame(), 1);
    assert!(!playback.is_reversed());
}

#[test]
fn update_matches_advance() {
    let mut ticked = Playback::new(3).unwrap();
    let mut stepped = ticked;
    for _ in 0..12 {
        assert!(ticked.update(true));
        stepped.advance();
        assert_eq!(ticked, stepped);
    }
}

#[test]
fn getters_do_not_change_the_playback() {
    let mut playback = Playback::new(4).unwrap();
    playback.advance();
    let before = playback;
    let _ = playback.current_frame();
    let _ = playback.frame_count();
    let _ = playback.is_reversed();
    assert_eq!(playback, before);
}
