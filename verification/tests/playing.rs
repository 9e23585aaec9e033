use polyglot::playback::{
    frame_count, playback_ring, Gate, HoldState, PlaybackState, TARGET_SAMPLE_RATE,
};
use polyglot::ring::SampleRing;

fn filled(samples: &[i16]) -> SampleRing {
    let mut ring = playback_ring();
    assert_eq!(ring.enqueue(samples), 0);
    ring
}

#[test]
fn queue_is_first_in_first_out() {
    let mut ring = filled(&[1, 2, 3]);
    assert_eq!(ring.enqueue(&[4]), 0);
    assert_eq!(ring.buffered(), 4);
    assert_eq!(HoldState::new().hold_block(5, TARGET_SAMPLE_RATE, &mut ring), vec![1, 2, 3, 4, 0]);
    assert_eq!(ring.buffered(), 0);
}

#[test]
fn full_queue_drops_what_comes_last() {
    let mut ring = SampleRing::with_capacity(3);
    assert_eq!(ring.enqueue(&[1, 2]), 0);
    assert_eq!(ring.enqueue(&[3, 4, 5]), 2);
    assert_eq!(ring.enqueue(&[6]), 1);
    assert_eq!(HoldState::new().hold_block(4, TARGET_SAMPLE_RATE, &mut ring), vec![1, 2, 3, 0]);
}

#[test]
fn session_queue_holds_five_seconds() {
    let mut ring = playback_ring();
    assert_eq!(ring.enqueue(&vec![1i16; 120_001]), 1);
    assert_eq!(ring.buffered(), 120_000);
}

#[test]
fn sample_is_held_at_twice_the_rate() {
    let mut ring = filled(&[5, 6, 7]);
    assert_eq!(HoldState::new().hold_block(5, 48_000, &mut ring), vec![5, 5, 6, 6, 7]);
    assert_eq!(ring.buffered(), 0);
}

#[test]
fn uneven_and_low_rates_round_the_hold_down() {
    let mut ring = filled(&[1, 2, 3, 4]);
    let mut hold = HoldState::new();
    assert_eq!(hold.hold_block(2, 44_100, &mut ring), vec![1, 2]);
    assert_eq!(hold.hold_block(2, 8_000, &mut ring), vec![3, 4]);
    assert_eq!(hold.hold_block(1, 0, &mut ring), vec![0]);
}

#[test]
fn sample_is_held_across_blocks() {
    let mut ring = filled(&[100, 200, 300, 400]);
    let mut hold = HoldState::new();
    assert_eq!(hold.hold_block(3, 48_000, &mut ring), vec![100, 100, 200]);
    assert_eq!(hold, HoldState { left: 1, current: 200 });
    assert_eq!(ring.buffered(), 2);
    assert_eq!(hold.hold_block(3, 48_000, &mut ring), vec![200, 300, 300]);
    assert_eq!(hold, HoldState { left: 0, current: 300 });
    assert_eq!(hold.hold_block(3, 48_000, &mut ring), vec![400, 400, 0]);
    assert_eq!(hold, HoldState { left: 1, current: 0 });
    ring.enqueue(&[500]);
    assert_eq!(hold.hold_block(3, 48_000, &mut ring), vec![0, 500, 500]);
}

#[test]
fn held_blocks_join() {
    for rate in [0, 24_000, 44_100, 48_000, 96_000] {
        let samples: Vec<i16> = (1..20).collect();
        let mut whole_ring = filled(&samples);
        let whole = HoldState::new().hold_block(24, rate, &mut whole_ring);
        let factor = ((rate / TARGET_SAMPLE_RATE) as usize).max(1);
        let expected: Vec<i16> =
            (0..24).map(|k| samples.get(k / factor).copied().unwrap_or(0)).collect();
        assert_eq!(whole, expected);
        for size in [1, 2, 3, 5, 7, 24] {
            let mut ring = filled(&samples);
            let mut hold = HoldState::new();
            let mut pieces: Vec<i16> = Vec::new();
            while pieces.len() < 24 {
                let frames = size.min(24 - pieces.len());
                pieces.extend(hold.hold_block(frames, rate, &mut ring));
            }
            assert_eq!(pieces, whole);
            assert_eq!(ring.buffered(), whole_ring.buffered());
        }
    }
}

#[test]
fn frames_are_counted_whole() {
    assert_eq!(frame_count(8, 2), 4);
    assert_eq!(frame_count(7, 2), 4);
    assert_eq!(frame_count(5, 0), 5);
    assert_eq!(frame_count(0, 2), 0);
}

#[test]
fn player_starts_at_a_quarter_second() {
    let mut state = PlaybackState::new();
    let mut ring = filled(&vec![9i16; 5_999]);
    assert_eq!(state.begin_block(&ring), Gate::Unchanged);
    assert!(!state.playing);
    ring.enqueue(&[9]);
    assert_eq!(state.begin_block(&ring), Gate::Started);
    assert!(state.playing);
    assert_eq!(state.last_idx, -1);
    assert_eq!(state.callbacks, 2);
    assert_eq!(state.underruns, 0);
}

#[test]
fn player_pauses_below_sixty_milliseconds_and_waits_for_a_quarter_second() {
    let mut state = PlaybackState::new();
    let mut ring = filled(&vec![9i16; 6_000]);
    assert_eq!(state.begin_block(&ring), Gate::Started);
    let mut next: i64 = 0;
    while ring.buffered() > 1_440 {
        state.sample_at(next, &mut ring);
        next += 1;
    }
    assert_eq!(state.begin_block(&ring), Gate::Unchanged);
    assert!(state.playing);
    state.sample_at(next, &mut ring);
    assert_eq!(ring.buffered(), 1_439);
    assert_eq!(state.begin_block(&ring), Gate::Paused);
    assert!(!state.playing);
    assert_eq!(state.underruns, 1);
    ring.enqueue(&vec![9i16; 4_560]);
    assert_eq!(state.begin_block(&ring), Gate::Unchanged);
    ring.enqueue(&[9]);
    assert_eq!(state.begin_block(&ring), Gate::Started);
    assert_eq!(state.callbacks, 5);
}

#[test]
fn silent_player_takes_nothing() {
    let mut state = PlaybackState::new();
    let mut ring = filled(&[1, 2, 3]);
    assert_eq!(state.play_block(&[0, 1, 2], &mut ring), vec![0, 0, 0]);
    assert_eq!(ring.buffered(), 3);
    assert_eq!(state, PlaybackState::new());
}

fn started() -> PlaybackState {
    let mut state = PlaybackState::new();
    state.playing = true;
    state
}

#[test]
fn frames_play_their_positions() {
    let mut state = started();
    let mut ring = filled(&[10, 20, 30, 40]);
    assert_eq!(state.play_block(&[0, 0, 1, 3, 3, 5], &mut ring), vec![10, 10, 20, 40, 40, 0]);
    assert_eq!(state.last_idx, 5);
    assert_eq!(ring.buffered(), 0);
}

#[test]
fn blocks_join() {
    let positions: Vec<i64> = (0..10).map(|frame| frame / 2).collect();
    let samples = [1, 2, 3, 4, 5];
    let mut whole_state = started();
    let mut whole_ring = filled(&samples);
    let whole = whole_state.play_block(&positions, &mut whole_ring);
    let mut state = started();
    let mut ring = filled(&samples);
    let mut parts = state.play_block(&positions[..3], &mut ring);
    parts.extend(state.play_block(&positions[3..], &mut ring));
    assert_eq!(parts, whole);
    assert_eq!(state, whole_state);
    assert_eq!(whole, vec![1, 1, 2, 2, 3, 3, 4, 4, 5, 5]);
}

#[test]
fn later_audio_waits() {
    let mut state = started();
    let mut ring = filled(&[1, 2]);
    ring.enqueue(&[3]);
    assert_eq!(state.play_block(&[0, 1], &mut ring), vec![1, 2]);
    assert_eq!(ring.buffered(), 1);
    assert_eq!(state.play_block(&[2], &mut ring), vec![3]);
}

#[test]
fn unit_rate_plays_the_queue() {
    let mut state = started();
    let mut ring = filled(&[4, 5, 6]);
    assert_eq!(state.play_block(&[0, 1, 2], &mut ring), vec![4, 5, 6]);
}

#[test]
fn earlier_position_repeats_the_sample() {
    let mut state = started();
    let mut ring = filled(&[1, 2, 3]);
    assert_eq!(state.sample_at(1, &mut ring), 2);
    assert_eq!(state.sample_at(0, &mut ring), 2);
    assert_eq!(ring.buffered(), 1);
}

#[test]
fn player_goes_on_while_the_buffer_is_filled() {
    let mut state = started();
    let ring = filled(&vec![1i16; 1_440]);
    for _ in 0..10 {
        assert_eq!(state.begin_block(&ring), Gate::Unchanged);
        assert!(state.playing);
    }
    let mut state = PlaybackState::new();
    let ring = filled(&vec![1i16; 5_999]);
    for _ in 0..10 {
        assert_eq!(state.begin_block(&ring), Gate::Unchanged);
        assert!(!state.playing);
    }
    assert_eq!((state.callbacks, state.underruns), (10, 0));
}
