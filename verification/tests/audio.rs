use soundboard::audio::{AudioManager, Level, Voice};
use soundboard::gain::Gain;

fn gain(v: f32) -> Gain {
    Gain::from_bits(v.to_bits())
}

fn voice(id: u64, clip: &str, level: Level) -> Voice {
    Voice { id, clip: clip.to_string(), level }
}

#[test]
fn a_new_engine_plays_nothing() {
    let m = AudioManager::new();
    assert_eq!(m.active_count(), 0);
    assert_eq!(m.master_volume(), gain(1.0));
    assert!(m.active_voices().is_empty());
}

#[test]
fn play_sound_registers_a_voice_at_the_product_of_both_gains() {
    let mut m = AudioManager::new();
    m.set_master_volume(gain(0.5));
    let v = m.play_sound("clip-a".to_string(), gain(1.5));
    assert_eq!(v, Some(0));
    assert_eq!(
        m.active_voices(),
        vec![voice(0, "clip-a", Level::Scaled { clip: gain(1.5), master: gain(0.5) })]
    );
    let w = m.play_sound("clip-a".to_string(), gain(1.0));
    assert_eq!(w, Some(1));
    assert_eq!(m.active_count(), 2);
}

#[test]
fn voices_of_two_clips_end_independently() {
    let mut m = AudioManager::new();
    let a = m.play_sound("c1".to_string(), gain(1.0)).unwrap();
    let b = m.play_sound("c2".to_string(), gain(0.5)).unwrap();
    assert_ne!(a, b);
    assert!(m.reap(a));
    assert_eq!(
        m.active_voices(),
        vec![voice(b, "c2", Level::Scaled { clip: gain(0.5), master: gain(1.0) })]
    );
    assert!(!m.reap(a));
    assert!(m.reap(b));
    assert_eq!(m.active_count(), 0);
}

#[test]
fn stopping_one_clip_leaves_the_other() {
    let mut m = AudioManager::new();
    let a1 = m.play_sound("c1".to_string(), gain(1.0)).unwrap();
    let b = m.play_sound("c2".to_string(), gain(0.5)).unwrap();
    let a2 = m.play_sound("c1".to_string(), gain(1.0)).unwrap();
    assert_eq!(m.stop_sound("c1"), vec![a1, a2]);
    assert_eq!(
        m.active_voices(),
        vec![voice(b, "c2", Level::Scaled { clip: gain(0.5), master: gain(1.0) })]
    );
    assert_eq!(m.stop_sound("c1"), Vec::<u64>::new());
    assert_eq!(m.stop_sound("unknown"), Vec::<u64>::new());
    assert_eq!(m.active_count(), 1);
}

#[test]
fn stop_all_on_nothing_is_a_no_op() {
    let mut m = AudioManager::new();
    m.set_master_volume(gain(0.75));
    assert_eq!(m.stop_all(), Vec::<u64>::new());
    assert_eq!(m.active_count(), 0);
    assert_eq!(m.master_volume(), gain(0.75));
    assert_eq!(m.stop_all(), Vec::<u64>::new());
}

#[test]
fn stop_all_halts_every_voice() {
    let mut m = AudioManager::new();
    let a = m.play_sound("c1".to_string(), gain(1.0)).unwrap();
    let b = m.play_sound("c2".to_string(), gain(1.0)).unwrap();
    assert_eq!(m.stop_all(), vec![a, b]);
    assert_eq!(m.active_count(), 0);
    // a voice that ends after it was halted is simply not there any more
    assert!(!m.reap(a));
}

#[test]
fn a_voice_that_played_to_its_end_is_gone() {
    let mut m = AudioManager::new();
    let v = m.play_sound("c".to_string(), gain(1.0)).unwrap();
    assert_eq!(m.active_count(), 1);
    assert!(m.reap(v));
    assert_eq!(m.active_count(), 0);
    assert_eq!(m.stop_all(), Vec::<u64>::new());
}

#[test]
fn voice_numbers_are_not_used_again() {
    let mut m = AudioManager::new();
    let a = m.play_sound("c".to_string(), gain(1.0)).unwrap();
    m.reap(a);
    let b = m.play_sound("c".to_string(), gain(1.0)).unwrap();
    m.stop_all();
    let c = m.play_sound("c".to_string(), gain(1.0)).unwrap();
    assert_eq!((a, b, c), (0, 1, 2));
}

#[test]
fn master_volume_is_clamped_and_overwrites_the_level_of_active_voices() {
    let mut m = AudioManager::new();
    let a = m.play_sound("c1".to_string(), gain(0.25)).unwrap();
    assert_eq!(m.set_master_volume(gain(7.0)), gain(2.0));
    assert_eq!(m.master_volume(), gain(2.0));
    assert_eq!(m.active_voices(), vec![voice(a, "c1", Level::Master(gain(2.0)))]);
    let b = m.play_sound("c2".to_string(), gain(0.25)).unwrap();
    assert_eq!(m.set_master_volume(gain(-3.0)), gain(0.0));
    assert_eq!(
        m.active_voices(),
        vec![voice(a, "c1", Level::Master(gain(0.0))), voice(b, "c2", Level::Master(gain(0.0)))]
    );
    assert_eq!(m.set_master_volume(gain(0.5)), gain(0.5));
    let c = m.play_sound("c3".to_string(), gain(1.5)).unwrap();
    assert_eq!(
        m.active_voices()[2],
        voice(c, "c3", Level::Scaled { clip: gain(1.5), master: gain(0.5) })
    );
}

#[test]
fn output_devices_without_a_name_are_left_out() {
    let m = AudioManager::new();
    assert_eq!(
        m.list_output_devices(vec![Some("Speakers".to_string()), None, Some("HDMI".to_string())]),
        vec!["Speakers".to_string(), "HDMI".to_string()]
    );
    assert_eq!(m.list_output_devices(Vec::new()), Vec::<String>::new());
    assert_eq!(m.list_output_devices(vec![None]), Vec::<String>::new());
}
