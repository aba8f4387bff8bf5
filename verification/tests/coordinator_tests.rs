use granulator::coordinator::Coordinator;
use granulator::coordinator::PlaySettings;
use granulator::grain::GrainSettings;
use rubato::InterpolationParameters;
use rubato::InterpolationType;
use rubato::Resampler;
use rubato::SincFixedIn;
use rubato::WindowFunction;

fn grain_settings() -> GrainSettings {
    GrainSettings {
        num_grains: 2,
        grain_length_min: 800,
        grain_length_max: 800,
        cursor_spawn_jitter: 0,
        stereo_width: 0,
    }
}

#[test]
fn default_coordinator_is_idle() {
    let c = Coordinator::default();
    assert!(!c.input.record_buffer.is_some());
    assert_eq!(c.output.play_buffer.len(), 0);
    assert_eq!(c.output.cursor, 0);
    assert!(c.output.range.is_none());
    let d = c.display_state();
    assert_eq!(d.play_buffer.len(), 0);
    assert_eq!(d.cursor, 0);
    assert!(!d.is_recording);
}

#[test]
fn record_capture_install_flow() {
    let mut c = Coordinator::default();
    c.start_record();
    assert!(c.display_state().is_recording);

    c.input.process(&vec![1, 2, 3]);
    c.input.process(&vec![4, 5]);

    let captured = c.stop_record();
    assert_eq!(captured, Some(vec![1, 2, 3, 4, 5]));

    c.install_play_buffer(vec![5, 6, 7]);
    assert_eq!(c.output.play_buffer, vec![5, 6, 7]);
    assert_eq!(c.output.cursor, 0);
    assert!(c.output.range.is_none());
    assert_eq!(c.output.grains.grains.len(), 0);
    assert_eq!(c.display_state().play_buffer, vec![5, 6, 7]);
    assert!(!c.display_state().is_recording);
}

#[test]
fn stop_record_when_idle_returns_nothing() {
    let mut c = Coordinator::default();
    assert_eq!(c.stop_record(), None);
}

#[test]
fn capture_callback_is_noop_when_idle() {
    let mut c = Coordinator::default();
    c.input.process(&vec![1, 2, 3]);
    assert_eq!(c.stop_record(), None);
}

#[test]
fn set_settings_pushes_range_and_grain_settings() {
    let mut c = Coordinator::default();
    c.install_play_buffer(vec![0; 42]);
    c.set_settings(PlaySettings {
        grain: grain_settings(),
        range_start: Some(2),
        range_end: None,
    });
    assert_eq!(c.output.range, Some((2, 42)));
    assert_eq!(c.output.grains.settings, grain_settings());
}

#[test]
fn clear_play_buffer_empties_playback() {
    let mut c = Coordinator::default();
    c.install_play_buffer(vec![9; 100]);
    c.clear_play_buffer();
    assert_eq!(c.output.play_buffer.len(), 0);
}

#[test]
fn tick_republishes_cursor() {
    let mut c = Coordinator::default();
    c.install_play_buffer(vec![0; 6000]);
    c.set_settings(PlaySettings {
        grain: grain_settings(),
        range_start: Some(1000),
        range_end: Some(5000),
    });
    let mut data: Vec<i64> = vec![0; 128];
    c.output.process(&mut data);
    assert_eq!(c.output.cursor, 4064);
    assert_eq!(c.display_state().cursor, 0);
    c.tick();
    assert_eq!(c.display_state().cursor, 4064);
}

#[test]
fn resampled_recording_installs_with_expected_length() {
    // Capture 48000 mono samples at 48 kHz, convert for a 44100 Hz
    // output device: the installed buffer is about 44100 samples long,
    // the range is unset, the cursor is at the origin and no grain is
    // active.
    let mut c = Coordinator::default();
    c.start_record();
    let wave: Vec<i32> = (0..48000)
        .map(|i| ((i as f32 * 2.0 * std::f32::consts::PI * 440.0 / 48000.0).sin() * 20000.0) as i32)
        .collect();
    c.input.process(&wave);
    let captured = c.stop_record().unwrap();
    assert_eq!(captured.len(), 48000);

    let float_wave: Vec<f32> = captured.iter().map(|s| *s as f32 / 32768.0).collect();
    let params = InterpolationParameters {
        sinc_len: 256,
        f_cutoff: 0.95,
        interpolation: InterpolationType::Linear,
        oversampling_factor: 256,
        window: WindowFunction::BlackmanHarris2,
    };
    let mut resampler =
        SincFixedIn::<f32>::new(44100.0 / 48000.0, 2.0, params, float_wave.len(), 1).unwrap();
    let waves_in = vec![float_wave];
    let mut waves_out = resampler.process(&waves_in, None).unwrap();
    let converted: Vec<i32> =
        waves_out.remove(0).iter().map(|s| (s * 32768.0) as i32).collect();

    assert!(converted.len() >= 43000 && converted.len() <= 45200);

    c.install_play_buffer(converted.clone());
    assert_eq!(c.output.play_buffer.len(), converted.len());
    assert!(c.output.range.is_none());
    assert_eq!(c.output.cursor, 0);
    assert_eq!(c.output.grains.grains.len(), 0);
    assert_eq!(c.display_state().play_buffer.len(), converted.len());
    assert!(!c.display_state().is_recording);
}
