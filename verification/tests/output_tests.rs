use granulator::grain::GrainSettings;
use granulator::output::OutputStreamState;

fn settings(num: usize, len_min: usize, len_max: usize, jitter: usize) -> GrainSettings {
    GrainSettings {
        num_grains: num,
        grain_length_min: len_min,
        grain_length_max: len_max,
        cursor_spawn_jitter: jitter,
        stereo_width: 0,
    }
}

#[test]
fn default_state_is_empty_and_silent() {
    let mut state = OutputStreamState::default();
    assert_eq!(state.play_buffer.len(), 0);
    assert_eq!(state.cursor, 0);
    assert!(state.range.is_none());
    assert_eq!(state.grains.grains.len(), 0);
    let mut data: Vec<i64> = vec![77; 32];
    state.process(&mut data);
    assert_eq!(data, vec![0; 32]);
    assert_eq!(state.grains.grains.len(), 0);
}

#[test]
fn first_render_spawns_target_grains_in_range() {
    // Loop range (1000, 5000), three grains of exactly 800 samples, no
    // jitter: the cursor wraps to 4064, and all three grains spawn
    // there and advance by the 64 mixed frames.
    let mut state = OutputStreamState::default();
    state.set_play_buffer(vec![10000; 6000]);
    state.set_play_range(Some(1000), Some(5000));
    state.set_grain_settings(settings(3, 800, 800, 0));
    let mut data: Vec<i64> = vec![0; 128];
    state.process(&mut data);

    assert_eq!(state.cursor, 4064);
    assert_eq!(state.grains.grains.len(), 3);
    for g in state.grains.grains.iter() {
        assert_eq!(g.end - g.start, 800);
        assert!(g.start >= 1000 && g.start <= 5000);
        assert_eq!(g.start, 4064);
        assert_eq!(g.position, 4064 + 64);
        assert_eq!(g.pan, 0);
    }
    // Each grain contributes trunc(10000 * x * 1500 / 4_000_000) at ramp
    // position x; three identical grains triple it.
    assert_eq!(data[0], 0);
    assert_eq!(data[1], 0);
    assert_eq!(data[2], 9);
    assert_eq!(data[3], 9);
    assert_eq!(data[4], 21);
    assert_eq!(data[6], 33);
    assert_eq!(data[20], 111);
}

#[test]
fn cursor_renormalization_is_idempotent_with_no_frames() {
    let mut state = OutputStreamState::default();
    state.set_play_buffer(vec![0; 6000]);
    state.set_play_range(Some(1000), Some(5000));
    state.set_grain_settings(settings(0, 800, 800, 0));
    let mut data: Vec<i64> = Vec::new();
    state.process(&mut data);
    assert_eq!(state.cursor, 4000);
    state.process(&mut data);
    assert_eq!(state.cursor, 4000);
}

#[test]
fn replacing_buffer_resets_everything() {
    let mut state = OutputStreamState::default();
    state.set_play_buffer(vec![10000; 6000]);
    state.set_play_range(Some(1000), Some(5000));
    state.set_grain_settings(settings(4, 800, 800, 0));
    let mut data: Vec<i64> = vec![0; 64];
    state.process(&mut data);
    assert_eq!(state.grains.grains.len(), 4);
    assert_ne!(state.cursor, 0);

    state.set_play_buffer(vec![1, 2, 3]);
    assert_eq!(state.play_buffer, vec![1, 2, 3]);
    assert_eq!(state.cursor, 0);
    assert!(state.range.is_none());
    assert_eq!(state.grains.grains.len(), 0);
}

#[test]
fn clear_leaves_silence_and_spawns_nothing() {
    let mut state = OutputStreamState::default();
    state.set_play_buffer(vec![10000; 6000]);
    state.set_play_range(Some(1000), Some(5000));
    state.set_grain_settings(settings(3, 800, 800, 0));
    let mut data: Vec<i64> = vec![0; 64];
    state.process(&mut data);
    assert_eq!(state.grains.grains.len(), 3);
    let cursor_before = state.cursor;

    state.clear_play_buffer();
    assert_eq!(state.play_buffer.len(), 0);

    let mut data2: Vec<i64> = vec![55; 64];
    state.process(&mut data2);
    assert_eq!(data2, vec![0; 64]);
    assert_eq!(state.grains.grains.len(), 3);
    assert_eq!(state.cursor, cursor_before);
}

#[test]
fn degenerate_ranges_render_silence() {
    let mut state = OutputStreamState::default();
    state.set_play_buffer(vec![30000; 100]);
    state.set_grain_settings(settings(3, 800, 800, 0));

    state.set_play_range(Some(50), Some(10));
    let mut data: Vec<i64> = vec![9; 16];
    state.process(&mut data);
    assert_eq!(data, vec![0; 16]);
    assert_eq!(state.grains.grains.len(), 0);

    state.set_play_range(Some(0), Some(101));
    let mut data2: Vec<i64> = vec![9; 16];
    state.process(&mut data2);
    assert_eq!(data2, vec![0; 16]);
    assert_eq!(state.grains.grains.len(), 0);
}

#[test]
fn unset_range_bounds_default_to_whole_buffer() {
    let mut state = OutputStreamState::default();
    state.set_play_buffer(vec![0; 42]);
    state.set_play_range(None, None);
    assert_eq!(state.range, Some((0, 42)));
    state.set_play_range(Some(7), None);
    assert_eq!(state.range, Some((7, 42)));
    state.set_play_range(None, Some(13));
    assert_eq!(state.range, Some((0, 13)));
}

#[test]
fn play_cursor_reads_current_cursor() {
    let mut state = OutputStreamState::default();
    state.set_play_buffer(vec![0; 6000]);
    state.set_play_range(Some(1000), Some(5000));
    state.set_grain_settings(settings(0, 800, 800, 0));
    let mut data: Vec<i64> = vec![0; 128];
    state.process(&mut data);
    assert_eq!(state.play_cursor(), 4064);
}
