use soundboard::hotkeys::{
    assemble, classify, hotkey_change, key_code_for, modifier_for, parse_hotkey, parse_key_code,
    Hotkey, HotkeyChange, HotkeyError, HotkeyManager, KeyCode, Modifier, Modifiers, Part,
};

fn mods(control: bool, alt: bool, shift: bool, super_key: bool) -> Modifiers {
    Modifiers { control, alt, shift, super_key }
}

#[test]
fn every_key_name_has_its_key() {
    let table = [
        ("a", KeyCode::KeyA),
        ("b", KeyCode::KeyB),
        ("c", KeyCode::KeyC),
        ("d", KeyCode::KeyD),
        ("e", KeyCode::KeyE),
        ("f", KeyCode::KeyF),
        ("g", KeyCode::KeyG),
        ("h", KeyCode::KeyH),
        ("i", KeyCode::KeyI),
        ("j", KeyCode::KeyJ),
        ("k", KeyCode::KeyK),
        ("l", KeyCode::KeyL),
        ("m", KeyCode::KeyM),
        ("n", KeyCode::KeyN),
        ("o", KeyCode::KeyO),
        ("p", KeyCode::KeyP),
        ("q", KeyCode::KeyQ),
        ("r", KeyCode::KeyR),
        ("s", KeyCode::KeyS),
        ("t", KeyCode::KeyT),
        ("u", KeyCode::KeyU),
        ("v", KeyCode::KeyV),
        ("w", KeyCode::KeyW),
        ("x", KeyCode::KeyX),
        ("y", KeyCode::KeyY),
        ("z", KeyCode::KeyZ),
        ("0", KeyCode::Digit0),
        ("1", KeyCode::Digit1),
        ("2", KeyCode::Digit2),
        ("3", KeyCode::Digit3),
        ("4", KeyCode::Digit4),
        ("5", KeyCode::Digit5),
        ("6", KeyCode::Digit6),
        ("7", KeyCode::Digit7),
        ("8", KeyCode::Digit8),
        ("9", KeyCode::Digit9),
        ("f1", KeyCode::F1),
        ("f2", KeyCode::F2),
        ("f3", KeyCode::F3),
        ("f4", KeyCode::F4),
        ("f5", KeyCode::F5),
        ("f6", KeyCode::F6),
        ("f7", KeyCode::F7),
        ("f8", KeyCode::F8),
        ("f9", KeyCode::F9),
        ("f10", KeyCode::F10),
        ("f11", KeyCode::F11),
        ("f12", KeyCode::F12),
        ("space", KeyCode::Space),
        ("enter", KeyCode::Enter),
        ("return", KeyCode::Enter),
        ("escape", KeyCode::Escape),
        ("esc", KeyCode::Escape),
        ("backspace", KeyCode::Backspace),
        ("tab", KeyCode::Tab),
        ("up", KeyCode::ArrowUp),
        ("down", KeyCode::ArrowDown),
        ("left", KeyCode::ArrowLeft),
        ("right", KeyCode::ArrowRight),
    ];
    for (name, key) in table {
        assert_eq!(key_code_for(name), Some(key), "{}", name);
        assert_eq!(parse_key_code(name), Ok(key), "{}", name);
        assert_eq!(parse_key_code(&name.to_uppercase()), Ok(key), "{}", name);
    }
}

#[test]
fn key_lookup_takes_lower_case_only() {
    assert_eq!(key_code_for("A"), None);
    assert_eq!(key_code_for("F1"), None);
    assert_eq!(key_code_for(""), None);
    assert_eq!(key_code_for("f13"), None);
    assert_eq!(key_code_for("aa"), None);
    assert_eq!(key_code_for(" a"), None);
}

#[test]
fn parse_key_code_lowers_its_argument() {
    assert_eq!(parse_key_code("Escape"), Ok(KeyCode::Escape));
    assert_eq!(parse_key_code("F12"), Ok(KeyCode::F12));
    // the Kelvin sign lowers to the letter k
    assert_eq!(parse_key_code("\u{212a}"), Ok(KeyCode::KeyK));
}

#[test]
fn parse_key_code_reports_the_name_as_given() {
    assert_eq!(parse_key_code("Bogus"), Err(HotkeyError::UnknownKey("Bogus".to_string())));
    assert_eq!(parse_key_code(""), Err(HotkeyError::UnknownKey("".to_string())));
}

#[test]
fn modifier_names() {
    assert_eq!(modifier_for("ctrl"), Some(Modifier::Control));
    assert_eq!(modifier_for("control"), Some(Modifier::Control));
    assert_eq!(modifier_for("alt"), Some(Modifier::Alt));
    assert_eq!(modifier_for("shift"), Some(Modifier::Shift));
    assert_eq!(modifier_for("super"), Some(Modifier::Super));
    assert_eq!(modifier_for("meta"), Some(Modifier::Super));
    assert_eq!(modifier_for("win"), Some(Modifier::Super));
    assert_eq!(modifier_for("Ctrl"), None);
    assert_eq!(modifier_for("a"), None);
    assert_eq!(modifier_for(""), None);
}

#[test]
fn classify_tells_modifiers_keys_and_the_rest_apart() {
    assert_eq!(classify("shift"), Part::Modifier(Modifier::Shift));
    assert_eq!(classify("tab"), Part::Key(KeyCode::Tab));
    assert_eq!(classify("tabs"), Part::Unknown("tabs".to_string()));
}

#[test]
fn parse_hotkey_reads_modifiers_and_key() {
    assert_eq!(
        parse_hotkey("Ctrl+Alt+A"),
        Ok(Hotkey { modifiers: mods(true, true, false, false), key: KeyCode::KeyA })
    );
    assert_eq!(
        parse_hotkey("a"),
        Ok(Hotkey { modifiers: mods(false, false, false, false), key: KeyCode::KeyA })
    );
    assert_eq!(
        parse_hotkey(" SHIFT + f5 "),
        Ok(Hotkey { modifiers: mods(false, false, true, false), key: KeyCode::F5 })
    );
    assert_eq!(
        parse_hotkey("win+control+shift+alt+space"),
        Ok(Hotkey { modifiers: mods(true, true, true, true), key: KeyCode::Space })
    );
    assert_eq!(
        parse_hotkey("Meta+Up"),
        Ok(Hotkey { modifiers: mods(false, false, false, true), key: KeyCode::ArrowUp })
    );
}

#[test]
fn parse_hotkey_does_not_mind_order_or_repetition() {
    let want = Ok(Hotkey { modifiers: mods(true, false, true, false), key: KeyCode::Digit7 });
    assert_eq!(parse_hotkey("ctrl+shift+7"), want);
    assert_eq!(parse_hotkey("shift+ctrl+7"), want);
    assert_eq!(parse_hotkey("7+shift+ctrl"), want);
    assert_eq!(parse_hotkey("ctrl+7+shift+ctrl"), want);
}

#[test]
fn parse_hotkey_wants_exactly_one_key() {
    assert_eq!(parse_hotkey("ctrl"), Err(HotkeyError::MissingKey("ctrl".to_string())));
    assert_eq!(
        parse_hotkey("Ctrl+Shift"),
        Err(HotkeyError::MissingKey("Ctrl+Shift".to_string()))
    );
    assert_eq!(parse_hotkey("a+b"), Err(HotkeyError::MultipleKeys("a+b".to_string())));
    assert_eq!(parse_hotkey("a+foo"), Err(HotkeyError::MultipleKeys("a+foo".to_string())));
    assert_eq!(parse_hotkey("a+ctrl+a"), Err(HotkeyError::MultipleKeys("a+ctrl+a".to_string())));
}

#[test]
fn parse_hotkey_reports_the_first_unknown_word_in_lower_case() {
    assert_eq!(parse_hotkey("Foo+a"), Err(HotkeyError::UnknownKey("foo".to_string())));
    assert_eq!(parse_hotkey(""), Err(HotkeyError::UnknownKey("".to_string())));
    assert_eq!(parse_hotkey("ctrl+"), Err(HotkeyError::UnknownKey("".to_string())));
    assert_eq!(parse_hotkey("ctrl + F13"), Err(HotkeyError::UnknownKey("f13".to_string())));
    assert_eq!(parse_hotkey("x y+z"), Err(HotkeyError::UnknownKey("x y".to_string())));
}

#[test]
fn assemble_works_on_given_parts() {
    assert_eq!(assemble(&Vec::new(), "nothing"), Err(HotkeyError::MissingKey("nothing".to_string())));
    let parts = vec![Part::Modifier(Modifier::Alt), Part::Key(KeyCode::KeyQ)];
    assert_eq!(
        assemble(&parts, "alt+q"),
        Ok(Hotkey { modifiers: mods(false, true, false, false), key: KeyCode::KeyQ })
    );
    let parts = vec![Part::Unknown("zz".to_string()), Part::Key(KeyCode::KeyQ)];
    assert_eq!(assemble(&parts, "zz+q"), Err(HotkeyError::UnknownKey("zz".to_string())));
    let parts = vec![Part::Key(KeyCode::KeyQ), Part::Unknown("zz".to_string())];
    assert_eq!(assemble(&parts, "q+zz"), Err(HotkeyError::MultipleKeys("q+zz".to_string())));
}

#[test]
fn hotkey_errors_have_their_messages() {
    assert_eq!(
        HotkeyError::MultipleKeys("a+b".to_string()).message(),
        "Multiple key codes in hotkey: a+b"
    );
    assert_eq!(HotkeyError::MissingKey("ctrl".to_string()).message(), "No key code in hotkey: ctrl");
    assert_eq!(HotkeyError::UnknownKey("foo".to_string()).message(), "Unknown key: foo");
}

#[test]
fn modifiers_collect() {
    let m = Modifiers::none();
    assert_eq!(m, mods(false, false, false, false));
    assert_eq!(m.with(Modifier::Super), mods(false, false, false, true));
    assert_eq!(m.with(Modifier::Alt).with(Modifier::Control), mods(true, true, false, false));
    assert_eq!(m.with(Modifier::Shift).with(Modifier::Shift), mods(false, false, true, false));
}

#[test]
fn registry_remembers_one_hotkey_per_clip() {
    let f1 = Hotkey { modifiers: mods(false, false, false, false), key: KeyCode::F1 };
    let f2 = Hotkey { modifiers: mods(true, false, false, false), key: KeyCode::F2 };
    let mut reg = HotkeyManager::new();
    assert_eq!(reg.lookup("one"), None);
    reg.record("one".to_string(), f1);
    reg.record("two".to_string(), f2);
    assert_eq!(reg.lookup("one"), Some(f1));
    assert_eq!(reg.lookup("two"), Some(f2));
    reg.record("one".to_string(), f2);
    assert_eq!(reg.lookup("one"), Some(f2));
    assert_eq!(reg.unregister("one"), Some(f2));
    assert_eq!(reg.unregister("one"), None);
    assert_eq!(reg.lookup("one"), None);
    assert_eq!(reg.lookup("two"), Some(f2));
}

#[test]
fn register_plans_without_recording() {
    let f1 = Hotkey { modifiers: mods(false, false, false, false), key: KeyCode::F1 };
    let mut reg = HotkeyManager::new();
    let plan = reg.register("one", "F1");
    assert_eq!(plan.release, None);
    assert_eq!(plan.claim, Ok(f1));
    assert_eq!(reg.lookup("one"), None);
    reg.record("one".to_string(), f1);
    let plan = reg.register("one", "ctrl+nothing");
    assert_eq!(plan.release, Some(f1));
    assert_eq!(plan.claim, Err(HotkeyError::UnknownKey("nothing".to_string())));
    assert_eq!(reg.lookup("one"), Some(f1));
}

#[test]
fn an_update_keeps_releases_or_claims_the_hotkey() {
    assert_eq!(hotkey_change(&None), HotkeyChange::Keep);
    assert_eq!(hotkey_change(&Some(String::new())), HotkeyChange::Release);
    assert_eq!(hotkey_change(&Some("Ctrl+A".to_string())), HotkeyChange::Claim);
    assert_eq!(hotkey_change(&Some(" ".to_string())), HotkeyChange::Claim);
}
