use soundboard::gain::Gain;
use soundboard::sound_manager::{is_audio_extension, FolderEntry, Sound, SoundManager};

fn gain(v: f32) -> Gain {
    Gain::from_bits(v.to_bits())
}

fn value(g: Gain) -> f32 {
    f32::from_bits(g.to_bits())
}

fn file(path: &str) -> FolderEntry {
    FolderEntry { path: path.to_string(), is_file: true }
}

fn looks_like_a_uuid(id: &str) -> bool {
    let b = id.as_bytes();
    b.len() == 36
        && b.iter().enumerate().all(|(i, c)| match i {
            8 | 13 | 18 | 23 => *c == b'-',
            _ => c.is_ascii_digit() || (b'a'..=b'f').contains(c),
        })
        && b[14] == b'4'
        && matches!(b[19], b'8' | b'9' | b'a' | b'b')
}

#[test]
fn a_new_soundboard_is_empty() {
    let m = SoundManager::new();
    let state = m.get_state();
    assert!(state.sounds.is_empty());
    assert_eq!(state.current_folder, None);
    assert_eq!(value(state.master_volume), 1.0);
    assert!(!state.system_audio_routing_enabled);
    assert!(m.get_all_sounds().is_empty());
}

#[test]
fn load_folder_takes_the_audio_files() {
    let mut m = SoundManager::new();
    m.load_folder(
        "/sounds".to_string(),
        vec![file("/sounds/a.mp3"), file("/sounds/b.txt"), file("/sounds/c.WAV")],
    );
    let sounds = m.get_all_sounds();
    assert_eq!(sounds.len(), 2);
    assert_eq!(sounds[0].name, "a");
    assert_eq!(sounds[0].path, "/sounds/a.mp3");
    assert_eq!(sounds[1].name, "c");
    assert_eq!(sounds[1].path, "/sounds/c.WAV");
    for s in &sounds {
        assert_eq!(value(s.volume), 1.0);
        assert_eq!(s.hotkey, None);
        assert!(looks_like_a_uuid(&s.id), "{}", s.id);
    }
    assert_ne!(sounds[0].id, sounds[1].id);
    assert_eq!(m.get_state().current_folder, Some("/sounds".to_string()));
}

#[test]
fn load_folder_knows_six_extensions_in_any_case() {
    let mut m = SoundManager::new();
    m.load_folder(
        "d".to_string(),
        vec![
            file("d/1.mp3"),
            file("d/2.wav"),
            file("d/3.ogg"),
            file("d/4.flac"),
            file("d/5.m4a"),
            file("d/6.aac"),
            file("d/7.Mp3"),
            file("d/8.FLAC"),
            file("d/9.mp4"),
            file("d/10.wave"),
            file("d/mp3"),
            file("d/.mp3"),
            file("d/11.mp3.bak"),
            file("d/12.tar.ogg"),
            FolderEntry { path: "d/13.mp3".to_string(), is_file: false },
        ],
    );
    let names: Vec<String> = m.get_all_sounds().into_iter().map(|s| s.name).collect();
    assert_eq!(names, vec!["1", "2", "3", "4", "5", "6", "7", "8", "12.tar"]);
}

#[test]
fn load_folder_replaces_what_was_there() {
    let mut m = SoundManager::new();
    m.set_master_volume(gain(0.25));
    m.set_system_audio_routing(true);
    m.add_sound("x/old.mp3".to_string());
    m.load_folder("y".to_string(), vec![file("y/new.ogg")]);
    let state = m.get_state();
    assert_eq!(state.sounds.len(), 1);
    assert_eq!(state.sounds[0].name, "new");
    assert_eq!(value(state.master_volume), 0.25);
    assert!(state.system_audio_routing_enabled);
    m.load_folder("unreadable".to_string(), Vec::new());
    let state = m.get_state();
    assert!(state.sounds.is_empty());
    assert_eq!(state.current_folder, Some("unreadable".to_string()));
}

#[test]
fn audio_extensions() {
    for e in ["mp3", "wav", "ogg", "flac", "m4a", "aac"] {
        assert!(is_audio_extension(e));
    }
    for e in ["MP3", "mp4", "", "mp", "mp33", "wave"] {
        assert!(!is_audio_extension(e));
    }
    assert!(file("a/b.OGG").is_clip());
    assert!(!file("a.ogg/b").is_clip());
    assert!(!FolderEntry { path: "b.ogg".to_string(), is_file: false }.is_clip());
}

#[test]
fn add_sound_appends_a_clip_whatever_its_extension() {
    let mut m = SoundManager::new();
    let a = m.add_sound("/music/one.track.flac".to_string());
    let b = m.add_sound("notes.txt".to_string());
    assert_eq!(a.name, "one.track");
    assert_eq!(a.path, "/music/one.track.flac");
    assert_eq!(value(a.volume), 1.0);
    assert_eq!(a.hotkey, None);
    assert!(looks_like_a_uuid(&a.id));
    assert_eq!(b.name, "notes");
    assert_ne!(a.id, b.id);
    assert_eq!(m.get_all_sounds(), vec![a.clone(), b.clone()]);
    assert_eq!(m.get_sound(&a.id), Some(a));
    assert_eq!(m.get_sound("no such id"), None);
}

#[test]
fn from_path_builds_the_clip_for_a_given_id() {
    let s = Sound::from_path("id-1".to_string(), "/x/y/z.tar.gz".to_string());
    assert_eq!(
        s,
        Sound {
            id: "id-1".to_string(),
            name: "z.tar".to_string(),
            path: "/x/y/z.tar.gz".to_string(),
            volume: gain(1.0),
            hotkey: None,
        }
    );
    assert_eq!(s.duplicate(), s);
}

#[test]
fn remove_sound_takes_the_clip_out() {
    let mut m = SoundManager::new();
    let a = m.add_sound("a.mp3".to_string());
    let b = m.add_sound("b.mp3".to_string());
    let c = m.add_sound("c.mp3".to_string());
    m.remove_sound(&b.id);
    assert_eq!(m.get_all_sounds(), vec![a.clone(), c.clone()]);
    m.remove_sound("no such id");
    assert_eq!(m.get_all_sounds(), vec![a, c]);
}

#[test]
fn update_sound_clamps_the_gain() {
    let mut m = SoundManager::new();
    let a = m.add_sound("a.mp3".to_string());
    m.update_sound(&a.id, None, Some(gain(3.5)), None);
    assert_eq!(value(m.get_sound(&a.id).unwrap().volume), 2.0);
    m.update_sound(&a.id, None, Some(gain(-0.5)), None);
    assert_eq!(value(m.get_sound(&a.id).unwrap().volume), 0.0);
    m.update_sound(&a.id, None, Some(gain(0.75)), None);
    assert_eq!(value(m.get_sound(&a.id).unwrap().volume), 0.75);
}

#[test]
fn update_sound_with_an_empty_hotkey_takes_the_hotkey_away() {
    let mut m = SoundManager::new();
    let a = m.add_sound("a.mp3".to_string());
    m.update_sound(&a.id, None, None, Some("Ctrl+A".to_string()));
    assert_eq!(m.get_sound(&a.id).unwrap().hotkey, Some("Ctrl+A".to_string()));
    m.update_sound(&a.id, None, None, None);
    assert_eq!(m.get_sound(&a.id).unwrap().hotkey, Some("Ctrl+A".to_string()));
    m.update_sound(&a.id, None, None, Some(String::new()));
    assert_eq!(m.get_sound(&a.id).unwrap().hotkey, None);
}

#[test]
fn update_sound_changes_only_what_is_given_and_only_that_clip() {
    let mut m = SoundManager::new();
    let a = m.add_sound("a.mp3".to_string());
    let b = m.add_sound("b.mp3".to_string());
    m.update_sound(&b.id, Some("Boom".to_string()), None, None);
    let now = m.get_sound(&b.id).unwrap();
    assert_eq!(now.name, "Boom");
    assert_eq!(now.path, "b.mp3");
    assert_eq!(value(now.volume), 1.0);
    assert_eq!(m.get_sound(&a.id), Some(a.clone()));
    m.update_sound("no such id", Some("x".to_string()), Some(gain(0.0)), Some("a".to_string()));
    assert_eq!(m.get_all_sounds(), vec![a, now]);
}

#[test]
fn revise_is_the_update_of_one_clip() {
    let s = Sound::from_path("i".to_string(), "p.wav".to_string());
    let r = s.revise(Some("n".to_string()), Some(gain(9.0)), Some("f1".to_string()));
    assert_eq!(r.id, "i");
    assert_eq!(r.name, "n");
    assert_eq!(r.path, "p.wav");
    assert_eq!(value(r.volume), 2.0);
    assert_eq!(r.hotkey, Some("f1".to_string()));
    assert_eq!(r.revise(None, None, None), r);
}

#[test]
fn master_volume_is_clamped() {
    let mut m = SoundManager::new();
    m.set_master_volume(gain(5.0));
    assert_eq!(value(m.get_state().master_volume), 2.0);
    m.set_master_volume(gain(-5.0));
    assert_eq!(value(m.get_state().master_volume), 0.0);
    m.set_master_volume(gain(1.25));
    assert_eq!(value(m.get_state().master_volume), 1.25);
}

#[test]
fn routing_intent_is_stored() {
    let mut m = SoundManager::new();
    m.set_system_audio_routing(true);
    assert!(m.get_state().system_audio_routing_enabled);
    m.set_system_audio_routing(false);
    assert!(!m.get_state().system_audio_routing_enabled);
}

#[test]
fn a_hotkey_press_plays_the_first_clip_that_has_a_hotkey() {
    let mut m = SoundManager::new();
    assert_eq!(m.hotkey_target(), None);
    let a = m.add_sound("a.mp3".to_string());
    let b = m.add_sound("b.mp3".to_string());
    let c = m.add_sound("c.mp3".to_string());
    assert_eq!(m.hotkey_target(), None);
    m.update_sound(&c.id, None, None, Some("f3".to_string()));
    assert_eq!(m.hotkey_target().map(|s| s.id), Some(c.id.clone()));
    m.update_sound(&b.id, None, None, Some("f2".to_string()));
    assert_eq!(m.hotkey_target().map(|s| s.id), Some(b.id));
    assert_eq!(m.get_sound(&a.id).unwrap().hotkey, None);
}

#[test]
fn clips_are_named_after_the_final_component_of_their_path() {
    let mut m = SoundManager::new();
    assert_eq!(m.add_sound("sounds/".to_string()).name, "sounds");
    assert_eq!(m.add_sound("a/..".to_string()).name, "");
    assert_eq!(m.add_sound("clips/boom.wav/.".to_string()).name, "boom");
    assert_eq!(m.add_sound("".to_string()).name, "");
    assert!(file("clips/boom.wav/").is_clip());
    assert!(!file("clips/boom.wav/..").is_clip());
}
