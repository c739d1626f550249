use sound_engine::engine::AudioPlayer;
use sound_engine::mixing::{mix_plan, EchoPlan, MixJob, MixPlan};
use sound_engine::visualizer::SineTable;

/// A short mono 16-bit PCM WAV file.
fn wav_bytes(samples: usize) -> Vec<u8> {
    let data_len = (samples * 2) as u32;
    let mut b = Vec::new();
    b.extend_from_slice(b"RIFF");
    b.extend_from_slice(&(36 + data_len).to_le_bytes());
    b.extend_from_slice(b"WAVE");
    b.extend_from_slice(b"fmt ");
    b.extend_from_slice(&16u32.to_le_bytes());
    b.extend_from_slice(&1u16.to_le_bytes());
    b.extend_from_slice(&1u16.to_le_bytes());
    b.extend_from_slice(&44100u32.to_le_bytes());
    b.extend_from_slice(&(44100u32 * 2).to_le_bytes());
    b.extend_from_slice(&2u16.to_le_bytes());
    b.extend_from_slice(&16u16.to_le_bytes());
    b.extend_from_slice(b"data");
    b.extend_from_slice(&data_len.to_le_bytes());
    for i in 0..samples {
        b.extend_from_slice(&((i as i16).wrapping_mul(97)).to_le_bytes());
    }
    b
}

fn with_device() -> AudioPlayer {
    AudioPlayer::new(true)
}

/// Starts a sound the way the application does: the decoder is asked first.
fn play(p: &mut AudioPlayer, path: &str, contents: Option<Vec<u8>>, looping: bool, now: u64) -> Option<MixJob> {
    let decodes = contents
        .as_ref()
        .map_or(false, |b| rodio::Decoder::new(std::io::Cursor::new(b.clone())).is_ok());
    p.play_sound(path, contents, decodes, looping, now).map(|start| start.job)
}

fn silent_sines() -> SineTable {
    SineTable { base: vec![0; 100], harmonic: vec![0; 100], echo: vec![0; 100] }
}

#[test]
fn missing_file_is_logged_not_fatal() {
    let mut p = with_device();
    for _ in 0..3 {
        p.change_volume(true);
    }
    assert_eq!(p.effect_manager.get_volume(), 13);
    for _ in 0..10 {
        p.change_volume(true);
    }
    assert_eq!(p.effect_manager.get_volume(), 20);
    let job = play(&mut p, "missing.wav", None, false, 100);
    assert!(job.is_none());
    assert_eq!(p.messages, vec!["Error opening file: Make sure missing.wav exists!".to_string()]);
    assert!(p.active_sinks.is_empty());
    assert_eq!(p.last_played, None);
}

#[test]
fn undecodable_source_is_logged() {
    let mut p = with_device();
    let job = play(&mut p, "noise.wav", Some(vec![1, 2, 3, 4, 5]), false, 100);
    assert!(job.is_none());
    assert_eq!(p.messages, vec!["Error decoding audio file".to_string()]);
    assert!(p.active_sinks.is_empty());
    assert!(!p.is_playing());
}

#[test]
fn message_log_keeps_last_five() {
    let mut p = with_device();
    for i in 0..7 {
        p.add_message(format!("m{}", i));
    }
    assert_eq!(p.messages, vec!["m2", "m3", "m4", "m5", "m6"]);
}

#[test]
fn play_adds_session_with_plan() {
    let mut p = with_device();
    let job = play(&mut p, "tone.wav", Some(wav_bytes(64)), false, 250).unwrap();
    assert_eq!(job.session, 0);
    assert_eq!(job.plan, MixPlan { speed: 10, gain: 100, echo: None, lowpass: None });
    assert_eq!(p.active_sinks.len(), 1);
    assert!(!p.active_sinks[0].is_looping);
    assert_eq!(p.last_played, Some(250));
    assert!(p.messages.is_empty());
    assert!(p.is_playing());
}

#[test]
fn plan_follows_parameters() {
    let mut p = with_device();
    p.toggle_reverb();
    p.change_lowpass(false);
    p.change_pitch(true);
    p.change_volume(false);
    let plan = mix_plan(&p.effect_manager);
    assert_eq!(
        plan,
        MixPlan {
            speed: 11,
            gain: 90,
            echo: Some(EchoPlan { gain: 36, delay_ms: 60 }),
            lowpass: Some(19500),
        }
    );
    let job = play(&mut p, "tone.wav", Some(wav_bytes(64)), true, 5).unwrap();
    assert_eq!(job.plan, plan);
}

#[test]
fn drained_one_shot_session_is_removed() {
    let mut p = with_device();
    play(&mut p, "tone.wav", Some(wav_bytes(64)), false, 0).unwrap();
    // Nothing was queued on the sink, so it has drained.
    assert!(p.is_playing());
    p.cleanup_finished();
    assert!(p.active_sinks.is_empty());
    assert!(!p.is_playing());
}

#[test]
fn drained_loop_is_refilled_and_kept() {
    let mut p = with_device();
    play(&mut p, "a.wav", Some(wav_bytes(64)), false, 0).unwrap();
    play(&mut p, "b.wav", Some(wav_bytes(32)), true, 0).unwrap();
    let jobs = p.update_looping_sounds();
    assert_eq!(jobs.len(), 1);
    assert_eq!(jobs[0].session, 1);
    p.update(10, &silent_sines());
    assert_eq!(p.active_sinks.len(), 1);
    assert!(p.active_sinks[0].is_looping);
    assert!(p.is_playing());
    p.cleanup_finished();
    assert_eq!(p.active_sinks.len(), 1);
}

#[test]
fn refill_drained_picks_drained_loops_only() {
    let mut p = with_device();
    play(&mut p, "a.wav", Some(wav_bytes(8)), true, 0).unwrap();
    play(&mut p, "b.wav", Some(wav_bytes(8)), false, 0).unwrap();
    play(&mut p, "c.wav", Some(wav_bytes(8)), true, 0).unwrap();
    let jobs = p.refill_drained(&vec![false, true, true]);
    assert_eq!(jobs.len(), 1);
    assert_eq!(jobs[0].session, 2);
    p.remove_finished(&vec![true, true, false]);
    assert_eq!(p.active_sinks.len(), 2);
    assert!(p.active_sinks.iter().all(|s| s.is_looping));
}

#[test]
fn visual_only_mode_always_plays() {
    let mut p = AudioPlayer::new(false);
    assert!(p.visual_only_mode);
    assert!(p.is_playing());
    let job = play(&mut p, "missing.wav", None, true, 42);
    assert!(job.is_none());
    assert_eq!(p.last_played, Some(42));
    assert!(p.messages.is_empty());
    assert!(p.active_sinks.is_empty());
    assert!(p.is_playing());
    assert!(p.update_looping_sounds().is_empty());
    p.update(43, &silent_sines());
    assert!(p.is_playing());
}

#[test]
fn idle_engine_decays_display() {
    let mut p = with_device();
    p.visualizer.waveform_values = vec![5000; 100];
    p.update_waveform(0, &silent_sines());
    assert!(p.visualizer.waveform_values.iter().all(|&v| v == 4500));
}

#[test]
fn decoded_source_gets_a_session_and_queue() {
    let mut p = with_device();
    let start = p.play_sound("tone.wav", Some(wav_bytes(16)), true, true, 9).unwrap();
    assert_eq!(start.job.session, 0);
    assert_eq!(p.active_sinks.len(), 1);
    assert!(p.active_sinks[0].is_looping);
    assert_eq!(p.active_sinks[0].source, wav_bytes(16));
    assert!(p.active_sinks[0].sink.empty());
    drop(start.queue);
}

#[test]
fn rejected_decode_starts_nothing() {
    let mut p = with_device();
    assert!(p.play_sound("tone.wav", Some(wav_bytes(16)), false, false, 9).is_none());
    assert_eq!(p.messages, vec!["Error decoding audio file".to_string()]);
    assert!(p.active_sinks.is_empty());
    assert_eq!(p.last_played, None);
}
