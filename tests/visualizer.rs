use sound_engine::effects::EffectManager;
use sound_engine::visualizer::{SineTable, WaveformVisualizer};

fn flat_sines(n: usize, base: i32, harmonic: i32, echo: i32) -> SineTable {
    SineTable { base: vec![base; n], harmonic: vec![harmonic; n], echo: vec![echo; n] }
}

#[test]
fn new_display_is_silent() {
    let v = WaveformVisualizer::new(100);
    assert_eq!(v.waveform_values.len(), 100);
    assert!(v.waveform_values.iter().all(|&x| x == 0));
    assert!(v.audio_samples.is_empty());
}

#[test]
fn idle_decay_scales_and_snaps() {
    let mut v = WaveformVisualizer::new(3);
    v.waveform_values = vec![10000, 110, 100];
    let fx = EffectManager::new();
    let sines = flat_sines(3, 0, 0, 0);
    v.update(false, None, 0, false, &fx, &sines);
    assert_eq!(v.waveform_values, vec![9000, 0, 0]);
}

#[test]
fn idle_decay_reaches_silence() {
    let mut v = WaveformVisualizer::new(100);
    v.waveform_values = vec![10000; 100];
    let fx = EffectManager::new();
    let sines = flat_sines(100, 0, 0, 0);
    for _ in 0..43 {
        v.update(false, Some(0), 6000, false, &fx, &sines);
    }
    assert!(v.waveform_values.iter().all(|&x| x > 0));
    v.update(false, Some(0), 6000, false, &fx, &sines);
    assert!(v.waveform_values.iter().all(|&x| x == 0));
}

#[test]
fn recent_play_keeps_display_from_idle_decay() {
    let mut v = WaveformVisualizer::new(2);
    v.waveform_values = vec![10000, 10000];
    let fx = EffectManager::new();
    let sines = flat_sines(2, 10000, 0, 0);
    v.update(false, Some(1000), 3000, true, &fx, &sines);
    assert_eq!(v.waveform_values, vec![7000, 7000]);
}

#[test]
fn fade_when_nothing_plays_with_device() {
    let mut v = WaveformVisualizer::new(2);
    v.waveform_values = vec![10000, 105];
    let fx = EffectManager::new();
    let sines = flat_sines(2, 10000, 0, 0);
    v.update(false, Some(1000), 3000, false, &fx, &sines);
    assert_eq!(v.waveform_values, vec![9500, 0]);
}

#[test]
fn synthetic_level_values() {
    let mut v = WaveformVisualizer::new(1);
    let mut fx = EffectManager::new();
    v.simulate_waveform(true, false, &fx, &flat_sines(1, 10000, 0, 0));
    assert_eq!(v.waveform_values, vec![7000]);
    v.simulate_waveform(true, false, &fx, &flat_sines(1, 0, 10000, 0));
    // |0.3| * 1.0 * 0.7
    assert_eq!(v.waveform_values, vec![2100]);
    fx.toggle_reverb();
    v.simulate_waveform(true, false, &fx, &flat_sines(1, 0, 0, -10000));
    // |-1 * 0.3 * 1.0| * 0.7
    assert_eq!(v.waveform_values, vec![2100]);
    fx.lowpass_cutoff = 10000;
    fx.reverb_enabled = false;
    v.simulate_waveform(true, false, &fx, &flat_sines(1, 0, 10000, 0));
    // |0.3 * 0.5| * 0.7
    assert_eq!(v.waveform_values, vec![1050]);
    fx.volume = 20;
    fx.lowpass_cutoff = 20000;
    v.simulate_waveform(true, false, &fx, &flat_sines(1, 10000, 10000, 0));
    assert_eq!(v.waveform_values, vec![10000]);
}

#[test]
fn sample_driven_levels() {
    let mut v = WaveformVisualizer::new(2);
    v.push_sample(5000);
    let mut fx = EffectManager::new();
    v.update_from_samples(true, &fx);
    assert_eq!(v.waveform_values, vec![5000, 5000]);
    fx.lowpass_cutoff = 10000;
    v.update_from_samples(true, &fx);
    assert_eq!(v.waveform_values, vec![2500, 2500]);
    fx.lowpass_cutoff = 20000;
    fx.reverb_enabled = true;
    v.update_from_samples(true, &fx);
    assert_eq!(v.waveform_values, vec![6500, 6500]);
    v.update_from_samples(false, &fx);
    assert_eq!(v.waveform_values, vec![6175, 6175]);
}

#[test]
fn sample_index_mapping() {
    let mut v = WaveformVisualizer::new(4);
    for m in [1000u32, 2000, 3000, 4000, 5000, 6000, 7000, 8000] {
        v.push_sample(m);
    }
    let fx = EffectManager::new();
    v.update_from_samples(true, &fx);
    assert_eq!(v.waveform_values, vec![1000, 3000, 5000, 7000]);
}

#[test]
fn sample_ring_is_bounded() {
    let mut v = WaveformVisualizer::new(1);
    for i in 0..5000u32 {
        v.push_sample(i);
    }
    assert_eq!(v.audio_samples.len(), 4096);
    assert_eq!(v.audio_samples[0], 5000 - 4096);
    assert_eq!(*v.audio_samples.last().unwrap(), 4999);
}

#[test]
fn empty_display_is_allowed() {
    let mut v = WaveformVisualizer::new(0);
    assert!(v.waveform_values.is_empty());
    let fx = EffectManager::new();
    v.update(true, Some(0), 0, false, &fx, &flat_sines(0, 0, 0, 0));
    v.push_sample(10);
    v.update_from_samples(true, &fx);
    assert!(v.waveform_values.is_empty());
}
