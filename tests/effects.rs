use sound_engine::effects::{EffectManager, ParamKind};

#[test]
fn starts_at_defaults() {
    let m = EffectManager::new();
    assert_eq!(m.get_playback_speed(), 10);
    assert_eq!(m.get_volume(), 10);
    assert_eq!(m.get_lowpass_cutoff(), 20000);
    assert!(!m.is_reverb_enabled());
    assert_eq!(m.get_reverb_delay(), 60);
}

#[test]
fn volume_steps_and_saturates() {
    let mut m = EffectManager::new();
    for _ in 0..3 {
        m.change_volume(true);
    }
    assert_eq!(m.get_volume(), 13);
    for _ in 0..10 {
        m.change_volume(true);
    }
    assert_eq!(m.get_volume(), 20);
    for _ in 0..30 {
        m.change_volume(false);
    }
    assert_eq!(m.get_volume(), 0);
}

#[test]
fn speed_stays_in_range() {
    let mut m = EffectManager::new();
    for _ in 0..40 {
        m.change_pitch(true);
    }
    assert_eq!(m.get_playback_speed(), 30);
    for _ in 0..40 {
        m.change_pitch(false);
    }
    assert_eq!(m.get_playback_speed(), 1);
}

#[test]
fn lowpass_steps_by_500() {
    let mut m = EffectManager::new();
    m.change_lowpass(true);
    assert_eq!(m.get_lowpass_cutoff(), 20000);
    m.change_lowpass(false);
    assert_eq!(m.get_lowpass_cutoff(), 19500);
    for _ in 0..100 {
        m.change_lowpass(false);
    }
    assert_eq!(m.get_lowpass_cutoff(), 500);
}

#[test]
fn adjust_returns_new_value() {
    let mut m = EffectManager::new();
    assert_eq!(m.adjust(ParamKind::Volume, true), 11);
    assert_eq!(m.adjust(ParamKind::Speed, false), 9);
    assert_eq!(m.adjust(ParamKind::Lowpass, false), 19500);
    assert_eq!(m.get_volume(), 11);
}

#[test]
fn mixed_adjustments_stay_in_range() {
    let mut m = EffectManager::new();
    let kinds = [ParamKind::Speed, ParamKind::Volume, ParamKind::Lowpass];
    for i in 0..200u32 {
        let kind = kinds[(i % 3) as usize];
        m.adjust(kind, (i / 7) % 2 == 0);
        assert!(m.get_playback_speed() >= 1 && m.get_playback_speed() <= 30);
        assert!(m.get_volume() <= 20);
        assert!(m.get_lowpass_cutoff() >= 500 && m.get_lowpass_cutoff() <= 20000);
        assert_eq!(m.get_lowpass_cutoff() % 500, 0);
    }
}

#[test]
fn toggle_reverb_twice_restores() {
    let mut m = EffectManager::new();
    m.toggle_reverb();
    assert!(m.is_reverb_enabled());
    m.toggle_reverb();
    assert!(!m.is_reverb_enabled());
}
