//! Hotkey descriptions such as `Ctrl+Alt+A`: the grammar, the key table and
//! the registry that remembers which clip holds which hotkey.
use vstd::prelude::*;
use crate::text::{
    chars_are, chars_of, lowercase_of, pieces_of, same_text, split, to_lowercase, trim, trim_of,
    views,
};

verus! {

/// A key that can close a hotkey.
#[derive(Clone, Copy, Debug, PartialEq, Eq, Structural)]
pub enum KeyCode {
    KeyA,
    KeyB,
    KeyC,
    KeyD,
    KeyE,
    KeyF,
    KeyG,
    KeyH,
    KeyI,
    KeyJ,
    KeyK,
    KeyL,
    KeyM,
    KeyN,
    KeyO,
    KeyP,
    KeyQ,
    KeyR,
    KeyS,
    KeyT,
    KeyU,
    KeyV,
    KeyW,
    KeyX,
    KeyY,
    KeyZ,
    Digit0,
    Digit1,
    Digit2,
    Digit3,
    Digit4,
    Digit5,
    Digit6,
    Digit7,
    Digit8,
    Digit9,
    F1,
    F2,
    F3,
    F4,
    F5,
    F6,
    F7,
    F8,
    F9,
    F10,
    F11,
    F12,
    Space,
    Enter,
    Escape,
    Backspace,
    Tab,
    ArrowUp,
    ArrowDown,
    ArrowLeft,
    ArrowRight,
}

/// A modifier key.
#[derive(Clone, Copy, Debug, PartialEq, Eq, Structural)]
pub enum Modifier {
    Control,
    Alt,
    Shift,
    Super,
}

/// The set of modifiers that a hotkey asks for.
#[derive(Clone, Copy, Debug, PartialEq, Eq, Structural)]
pub struct Modifiers {
    pub control: bool,
    pub alt: bool,
    pub shift: bool,
    pub super_key: bool,
}

/// A key together with the modifiers held while it is pressed.
#[derive(Clone, Copy, Debug, PartialEq, Eq, Structural)]
pub struct Hotkey {
    pub modifiers: Modifiers,
    pub key: KeyCode,
}

/// The letter key that a lower-case name stands for.
pub open spec fn letter_named(word: Seq<char>) -> Option<KeyCode> {
    if word == "a"@ {
        Some(KeyCode::KeyA)
    } else if word == "b"@ {
        Some(KeyCode::KeyB)
    } else if word == "c"@ {
        Some(KeyCode::KeyC)
    } else if word == "d"@ {
        Some(KeyCode::KeyD)
    } else if word == "e"@ {
        Some(KeyCode::KeyE)
    } else if word == "f"@ {
        Some(KeyCode::KeyF)
    } else if word == "g"@ {
        Some(KeyCode::KeyG)
    } else if word == "h"@ {
        Some(KeyCode::KeyH)
    } else if word == "i"@ {
        Some(KeyCode::KeyI)
    } else if word == "j"@ {
        Some(KeyCode::KeyJ)
    } else if word == "k"@ {
        Some(KeyCode::KeyK)
    } else if word == "l"@ {
        Some(KeyCode::KeyL)
    } else if word == "m"@ {
        Some(KeyCode::KeyM)
    } else if word == "n"@ {
        Some(KeyCode::KeyN)
    } else if word == "o"@ {
        Some(KeyCode::KeyO)
    } else if word == "p"@ {
        Some(KeyCode::KeyP)
    } else if word == "q"@ {
        Some(KeyCode::KeyQ)
    } else if word == "r"@ {
        Some(KeyCode::KeyR)
    } else if word == "s"@ {
        Some(KeyCode::KeyS)
    } else if word == "t"@ {
        Some(KeyCode::KeyT)
    } else if word == "u"@ {
        Some(KeyCode::KeyU)
    } else if word == "v"@ {
        Some(KeyCode::KeyV)
    } else if word == "w"@ {
        Some(KeyCode::KeyW)
    } else if word == "x"@ {
        Some(KeyCode::KeyX)
    } else if word == "y"@ {
        Some(KeyCode::KeyY)
    } else if word == "z"@ {
        Some(KeyCode::KeyZ)
    } else {
        None
    }
}

/// The digit key that a name stands for.
pub open spec fn digit_named(word: Seq<char>) -> Option<KeyCode> {
    if word == "0"@ {
        Some(KeyCode::Digit0)
    } else if word == "1"@ {
        Some(KeyCode::Digit1)
    } else if word == "2"@ {
        Some(KeyCode::Digit2)
    } else if word == "3"@ {
        Some(KeyCode::Digit3)
    } else if word == "4"@ {
        Some(KeyCode::Digit4)
    } else if word == "5"@ {
        Some(KeyCode::Digit5)
    } else if word == "6"@ {
        Some(KeyCode::Digit6)
    } else if word == "7"@ {
        Some(KeyCode::Digit7)
    } else if word == "8"@ {
        Some(KeyCode::Digit8)
    } else if word == "9"@ {
        Some(KeyCode::Digit9)
    } else {
        None
    }
}

/// The function key that a lower-case name stands for.
pub open spec fn function_key_named(word: Seq<char>) -> Option<KeyCode> {
    if word == "f1"@ {
        Some(KeyCode::F1)
    } else if word == "f2"@ {
        Some(KeyCode::F2)
    } else if word == "f3"@ {
        Some(KeyCode::F3)
    } else if word == "f4"@ {
        Some(KeyCode::F4)
    } else if word == "f5"@ {
        Some(KeyCode::F5)
    } else if word == "f6"@ {
        Some(KeyCode::F6)
    } else if word == "f7"@ {
        Some(KeyCode::F7)
    } else if word == "f8"@ {
        Some(KeyCode::F8)
    } else if word == "f9"@ {
        Some(KeyCode::F9)
    } else if word == "f10"@ {
        Some(KeyCode::F10)
    } else if word == "f11"@ {
        Some(KeyCode::F11)
    } else if word == "f12"@ {
        Some(KeyCode::F12)
    } else {
        None
    }
}

/// The editing or navigation key that a lower-case name stands for.
pub open spec fn control_key_named(word: Seq<char>) -> Option<KeyCode> {
    if word == "space"@ {
        Some(KeyCode::Space)
    } else if word == "enter"@ {
        Some(KeyCode::Enter)
    } else if word == "return"@ {
        Some(KeyCode::Enter)
    } else if word == "escape"@ {
        Some(KeyCode::Escape)
    } else if word == "esc"@ {
        Some(KeyCode::Escape)
    } else if word == "backspace"@ {
        Some(KeyCode::Backspace)
    } else if word == "tab"@ {
        Some(KeyCode::Tab)
    } else if word == "up"@ {
        Some(KeyCode::ArrowUp)
    } else if word == "down"@ {
        Some(KeyCode::ArrowDown)
    } else if word == "left"@ {
        Some(KeyCode::ArrowLeft)
    } else if word == "right"@ {
        Some(KeyCode::ArrowRight)
    } else {
        None
    }
}

/// The key that a lower-case name stands for, if any.
pub open spec fn key_named(word: Seq<char>) -> Option<KeyCode> {
    if letter_named(word) is Some {
        letter_named(word)
    } else if digit_named(word) is Some {
        digit_named(word)
    } else if function_key_named(word) is Some {
        function_key_named(word)
    } else {
        control_key_named(word)
    }
}

/// The modifier that a lower-case name stands for, if any.
pub open spec fn modifier_named(word: Seq<char>) -> Option<Modifier> {
    if word == "ctrl"@ || word == "control"@ {
        Some(Modifier::Control)
    } else if word == "alt"@ {
        Some(Modifier::Alt)
    } else if word == "shift"@ {
        Some(Modifier::Shift)
    } else if word == "super"@ || word == "meta"@ || word == "win"@ {
        Some(Modifier::Super)
    } else {
        None
    }
}

/// Looks a letter key up by its lower-case name.
fn letter_for(word: &Vec<char>) -> (r: Option<KeyCode>)
    ensures
        r == letter_named(word@),
{
    if chars_are(word, "a") {
        return Some(KeyCode::KeyA);
    }
    if chars_are(word, "b") {
        return Some(KeyCode::KeyB);
    }
    if chars_are(word, "c") {
        return Some(KeyCode::KeyC);
    }
    if chars_are(word, "d") {
        return Some(KeyCode::KeyD);
    }
    if chars_are(word, "e") {
        return Some(KeyCode::KeyE);
    }
    if chars_are(word, "f") {
        return Some(KeyCode::KeyF);
    }
    if chars_are(word, "g") {
        return Some(KeyCode::KeyG);
    }
    if chars_are(word, "h") {
        return Some(KeyCode::KeyH);
    }
    if chars_are(word, "i") {
        return Some(KeyCode::KeyI);
    }
    if chars_are(word, "j") {
        return Some(KeyCode::KeyJ);
    }
    if chars_are(word, "k") {
        return Some(KeyCode::KeyK);
    }
    if chars_are(word, "l") {
        return Some(KeyCode::KeyL);
    }
    if chars_are(word, "m") {
        return Some(KeyCode::KeyM);
    }
    if chars_are(word, "n") {
        return Some(KeyCode::KeyN);
    }
    if chars_are(word, "o") {
        return Some(KeyCode::KeyO);
    }
    if chars_are(word, "p") {
        return Some(KeyCode::KeyP);
    }
    if chars_are(word, "q") {
        return Some(KeyCode::KeyQ);
    }
    if chars_are(word, "r") {
        return Some(KeyCode::KeyR);
    }
    if chars_are(word, "s") {
        return Some(KeyCode::KeyS);
    }
    if chars_are(word, "t") {
        return Some(KeyCode::KeyT);
    }
    if chars_are(word, "u") {
        return Some(KeyCode::KeyU);
    }
    if chars_are(word, "v") {
        return Some(KeyCode::KeyV);
    }
    if chars_are(word, "w") {
        return Some(KeyCode::KeyW);
    }
    if chars_are(word, "x") {
        return Some(KeyCode::KeyX);
    }
    if chars_are(word, "y") {
        return Some(KeyCode::KeyY);
    }
    if chars_are(word, "z") {
        return Some(KeyCode::KeyZ);
    }
    None
}

/// Looks a digit key up by its name.
fn digit_for(word: &Vec<char>) -> (r: Option<KeyCode>)
    ensures
        r == digit_named(word@),
{
    if chars_are(word, "0") {
        return Some(KeyCode::Digit0);
    }
    if chars_are(word, "1") {
        return Some(KeyCode::Digit1);
    }
    if chars_are(word, "2") {
        return Some(KeyCode::Digit2);
    }
    if chars_are(word, "3") {
        return Some(KeyCode::Digit3);
    }
    if chars_are(word, "4") {
        return Some(KeyCode::Digit4);
    }
    if chars_are(word, "5") {
        return Some(KeyCode::Digit5);
    }
    if chars_are(word, "6") {
        return Some(KeyCode::Digit6);
    }
    if chars_are(word, "7") {
        return Some(KeyCode::Digit7);
    }
    if chars_are(word, "8") {
        return Some(KeyCode::Digit8);
    }
    if chars_are(word, "9") {
        return Some(KeyCode::Digit9);
    }
    None
}

/// Looks a function key up by its lower-case name.
fn function_key_for(word: &Vec<char>) -> (r: Option<KeyCode>)
    ensures
        r == function_key_named(word@),
{
    if chars_are(word, "f1") {
        return Some(KeyCode::F1);
    }
    if chars_are(word, "f2") {
        return Some(KeyCode::F2);
    }
    if chars_are(word, "f3") {
        return Some(KeyCode::F3);
    }
    if chars_are(word, "f4") {
        return Some(KeyCode::F4);
    }
    if chars_are(word, "f5") {
        return Some(KeyCode::F5);
    }
    if chars_are(word, "f6") {
        return Some(KeyCode::F6);
    }
    if chars_are(word, "f7") {
        return Some(KeyCode::F7);
    }
    if chars_are(word, "f8") {
        return Some(KeyCode::F8);
    }
    if chars_are(word, "f9") {
        return Some(KeyCode::F9);
    }
    if chars_are(word, "f10") {
        return Some(KeyCode::F10);
    }
    if chars_are(word, "f11") {
        return Some(KeyCode::F11);
    }
    if chars_are(word, "f12") {
        return Some(KeyCode::F12);
    }
    None
}

/// Looks an editing or navigation key up by its lower-case name.
fn control_key_for(word: &Vec<char>) -> (r: Option<KeyCode>)
    ensures
        r == control_key_named(word@),
{
    if chars_are(word, "space") {
        return Some(KeyCode::Space);
    }
    if chars_are(word, "enter") {
        return Some(KeyCode::Enter);
    }
    if chars_are(word, "return") {
        return Some(KeyCode::Enter);
    }
    if chars_are(word, "escape") {
        return Some(KeyCode::Escape);
    }
    if chars_are(word, "esc") {
        return Some(KeyCode::Escape);
    }
    if chars_are(word, "backspace") {
        return Some(KeyCode::Backspace);
    }
    if chars_are(word, "tab") {
        return Some(KeyCode::Tab);
    }
    if chars_are(word, "up") {
        return Some(KeyCode::ArrowUp);
    }
    if chars_are(word, "down") {
        return Some(KeyCode::ArrowDown);
    }
    if chars_are(word, "left") {
        return Some(KeyCode::ArrowLeft);
    }
    if chars_are(word, "right") {
        return Some(KeyCode::ArrowRight);
    }
    None
}

/// The key that the lower-case name `lowered` stands for.
pub fn key_code_for(lowered: &str) -> (r: Option<KeyCode>)
    ensures
        r == key_named(lowered@),
{
    let word = chars_of(lowered);
    let letter = letter_for(&word);
    if letter.is_some() {
        return letter;
    }
    let digit = digit_for(&word);
    if digit.is_some() {
        return digit;
    }
    let function_key = function_key_for(&word);
    if function_key.is_some() {
        return function_key;
    }
    control_key_for(&word)
}

/// The modifier that the lower-case name `lowered` stands for.
pub fn modifier_for(lowered: &str) -> (r: Option<Modifier>)
    ensures
        r == modifier_named(lowered@),
{
    let word = chars_of(lowered);
    if chars_are(&word, "ctrl") || chars_are(&word, "control") {
        Some(Modifier::Control)
    } else if chars_are(&word, "alt") {
        Some(Modifier::Alt)
    } else if chars_are(&word, "shift") {
        Some(Modifier::Shift)
    } else if chars_are(&word, "super") || chars_are(&word, "meta") || chars_are(&word, "win") {
        Some(Modifier::Super)
    } else {
        None
    }
}

/// Why a hotkey description was turned down.
#[derive(Debug, PartialEq, Eq)]
pub enum HotkeyError {
    /// The description names a second key; holds the whole description.
    MultipleKeys(String),
    /// The description names modifiers only; holds the whole description.
    MissingKey(String),
    /// A word is neither a modifier nor a key; holds that word.
    UnknownKey(String),
}

/// A `HotkeyError` with its text as a character sequence.
pub enum HotkeyErrorView {
    MultipleKeys(Seq<char>),
    MissingKey(Seq<char>),
    UnknownKey(Seq<char>),
}

impl View for HotkeyError {
    type V = HotkeyErrorView;

    open spec fn view(&self) -> HotkeyErrorView {
        match self {
            HotkeyError::MultipleKeys(s) => HotkeyErrorView::MultipleKeys(s@),
            HotkeyError::MissingKey(s) => HotkeyErrorView::MissingKey(s@),
            HotkeyError::UnknownKey(s) => HotkeyErrorView::UnknownKey(s@),
        }
    }
}

/// The text shown for an error.
pub open spec fn message_of(e: HotkeyErrorView) -> Seq<char> {
    match e {
        HotkeyErrorView::MultipleKeys(s) => "Multiple key codes in hotkey: "@ + s,
        HotkeyErrorView::MissingKey(s) => "No key code in hotkey: "@ + s,
        HotkeyErrorView::UnknownKey(s) => "Unknown key: "@ + s,
    }
}

impl HotkeyError {
    /// The text shown for this error.
    pub fn message(&self) -> (r: String)
        ensures
            r@ == message_of(self@),
    {
        match self {
            HotkeyError::MultipleKeys(s) => String::from_str("Multiple key codes in hotkey: ").concat(
                s.as_str(),
            ),
            HotkeyError::MissingKey(s) => String::from_str("No key code in hotkey: ").concat(
                s.as_str(),
            ),
            HotkeyError::UnknownKey(s) => String::from_str("Unknown key: ").concat(s.as_str()),
        }
    }
}

/// A result with its error as a view.
pub open spec fn outcome_view<T>(r: Result<T, HotkeyError>) -> Result<T, HotkeyErrorView> {
    match r {
        Ok(v) => Ok(v),
        Err(e) => Err(e@),
    }
}

/// What one word of a hotkey description turned out to be.
#[derive(Debug, PartialEq, Eq)]
pub enum Part {
    Modifier(Modifier),
    Key(KeyCode),
    /// Neither; holds the word.
    Unknown(String),
}

/// A `Part` with its text as a character sequence.
pub enum PartView {
    Modifier(Modifier),
    Key(KeyCode),
    Unknown(Seq<char>),
}

impl View for Part {
    type V = PartView;

    open spec fn view(&self) -> PartView {
        match self {
            Part::Modifier(m) => PartView::Modifier(*m),
            Part::Key(k) => PartView::Key(*k),
            Part::Unknown(s) => PartView::Unknown(s@),
        }
    }
}

/// The views of a list of parts.
pub open spec fn part_views(parts: Seq<Part>) -> Seq<PartView> {
    Seq::new(parts.len(), |i: int| parts[i]@)
}

impl Modifiers {
    /// No modifier at all.
    pub open spec fn none_spec() -> Modifiers {
        Modifiers { control: false, alt: false, shift: false, super_key: false }
    }

    /// Whether `m` is among the modifiers.
    pub open spec fn has(self, m: Modifier) -> bool {
        match m {
            Modifier::Control => self.control,
            Modifier::Alt => self.alt,
            Modifier::Shift => self.shift,
            Modifier::Super => self.super_key,
        }
    }

    /// No modifier at all.
    pub fn none() -> (r: Modifiers)
        ensures
            r == Modifiers::none_spec(),
    {
        Modifiers { control: false, alt: false, shift: false, super_key: false }
    }

    /// The modifiers with `m` added.
    pub fn with(self, m: Modifier) -> (r: Modifiers)
        ensures
            forall|x: Modifier| r.has(x) == (self.has(x) || x == m),
    {
        match m {
            Modifier::Control => Modifiers { control: true, ..self },
            Modifier::Alt => Modifiers { alt: true, ..self },
            Modifier::Shift => Modifiers { shift: true, ..self },
            Modifier::Super => Modifiers { super_key: true, ..self },
        }
    }
}

/// What a trimmed, lower-case word of a description is: a modifier if it
/// names one, else the key that its lower-case form names, else unknown.
pub open spec fn classify_spec(word: Seq<char>) -> PartView {
    match modifier_named(word) {
        Some(m) => PartView::Modifier(m),
        None => match key_named(lowercase_of(word)) {
            Some(k) => PartView::Key(k),
            None => PartView::Unknown(word),
        },
    }
}

/// The parts of a description: its pieces between `+` signs, each trimmed,
/// put in lower case and classified.
pub open spec fn parts_of(s: Seq<char>) -> Seq<PartView> {
    let pieces = pieces_of(s, '+');
    Seq::new(pieces.len(), |k: int| classify_spec(lowercase_of(trim_of(pieces[k]))))
}

/// The position of the first part at or after `i` that is no modifier, or
/// the number of parts when there is none.
pub open spec fn first_key_from(parts: Seq<PartView>, i: int) -> int
    decreases parts.len() - i,
{
    if 0 <= i < parts.len() && parts[i] is Modifier {
        first_key_from(parts, i + 1)
    } else {
        i
    }
}

/// Whether one of the first `n` parts is the modifier `m`.
pub open spec fn asks_for(parts: Seq<PartView>, m: Modifier, n: int) -> bool {
    exists|k: int| 0 <= k < n && k < parts.len() && parts[k] == PartView::Modifier(m)
}

/// The modifiers named among the first `n` parts.
pub open spec fn modifiers_of(parts: Seq<PartView>, n: int) -> Modifiers {
    Modifiers {
        control: asks_for(parts, Modifier::Control, n),
        alt: asks_for(parts, Modifier::Alt, n),
        shift: asks_for(parts, Modifier::Shift, n),
        super_key: asks_for(parts, Modifier::Super, n),
    }
}

/// The hotkey that a list of parts describes. The first part that is no
/// modifier must be a key, and no second such part may follow; the
/// modifiers are those named anywhere, in any order and any number of
/// times. `whole` is the description, for the error.
pub open spec fn hotkey_of(parts: Seq<PartView>, whole: Seq<char>) -> Result<
    Hotkey,
    HotkeyErrorView,
> {
    let first = first_key_from(parts, 0);
    if !(0 <= first < parts.len()) {
        Err(HotkeyErrorView::MissingKey(whole))
    } else {
        match parts[first] {
            PartView::Modifier(_) => Err(HotkeyErrorView::MissingKey(whole)),
            PartView::Unknown(word) => Err(HotkeyErrorView::UnknownKey(word)),
            PartView::Key(key) => if first_key_from(parts, first + 1) < parts.len() {
                Err(HotkeyErrorView::MultipleKeys(whole))
            } else {
                Ok(Hotkey { modifiers: modifiers_of(parts, parts.len() as int), key })
            },
        }
    }
}

/// The key that the name `s` stands for, in whatever case it is written.
pub fn parse_key_code(s: &str) -> (r: Result<KeyCode, HotkeyError>)
    ensures
        outcome_view(r) == match key_named(lowercase_of(s@)) {
            Some(k) => Ok::<KeyCode, HotkeyErrorView>(k),
            None => Err(HotkeyErrorView::UnknownKey(s@)),
        },
{
    let lowered = to_lowercase(s);
    match key_code_for(lowered.as_str()) {
        Some(k) => Ok(k),
        None => Err(HotkeyError::UnknownKey(String::from_str(s))),
    }
}

/// Classifies one trimmed, lower-case word of a description.
pub fn classify(word: &str) -> (r: Part)
    ensures
        r@ == classify_spec(word@),
{
    match modifier_for(word) {
        Some(m) => Part::Modifier(m),
        None => match parse_key_code(word) {
            Ok(k) => Part::Key(k),
            Err(_) => Part::Unknown(String::from_str(word)),
        },
    }
}

/// Puts classified parts together into a hotkey.
pub fn assemble(parts: &Vec<Part>, whole: &str) -> (r: Result<Hotkey, HotkeyError>)
    ensures
        outcome_view(r) == hotkey_of(part_views(parts@), whole@),
{
    let ghost pv = part_views(parts@);
    let n = parts.len();
    let mut modifiers = Modifiers::none();
    let mut key: Option<KeyCode> = None;
    let mut i: usize = 0;
    while i < n
        invariant
            pv == part_views(parts@),
            n == parts@.len(),
            i <= n,
            modifiers == modifiers_of(pv, i as int),
            key is None ==> first_key_from(pv, 0) == first_key_from(pv, i as int),
            key is Some ==> ({
                let f = first_key_from(pv, 0);
                &&& 0 <= f < i
                &&& pv[f] == PartView::Key(key->0)
                &&& first_key_from(pv, f + 1) == first_key_from(pv, i as int)
            }),
        decreases n - i,
    {
        match &parts[i] {
            Part::Modifier(m) => {
                modifiers = modifiers.with(*m);
                assert(modifiers.has(Modifier::Control) == asks_for(pv, Modifier::Control, i + 1));
                assert(modifiers.has(Modifier::Alt) == asks_for(pv, Modifier::Alt, i + 1));
                assert(modifiers.has(Modifier::Shift) == asks_for(pv, Modifier::Shift, i + 1));
                assert(modifiers.has(Modifier::Super) == asks_for(pv, Modifier::Super, i + 1));
            },
            Part::Key(k) => {
                if key.is_some() {
                    return Err(HotkeyError::MultipleKeys(String::from_str(whole)));
                }
                key = Some(*k);
            },
            Part::Unknown(word) => {
                if key.is_some() {
                    return Err(HotkeyError::MultipleKeys(String::from_str(whole)));
                }
                return Err(HotkeyError::UnknownKey(word.clone()));
            },
        }
        i = i + 1;
    }
    match key {
        Some(k) => Ok(Hotkey { modifiers, key: k }),
        None => Err(HotkeyError::MissingKey(String::from_str(whole))),
    }
}

/// Reads a hotkey description such as `Ctrl+Alt+A`: words separated by `+`,
/// each a modifier or a key, in any case and with any blanks around them.
pub fn parse_hotkey(s: &str) -> (r: Result<Hotkey, HotkeyError>)
    ensures
        outcome_view(r) == hotkey_of(parts_of(s@), s@),
{
    let pieces = split(s, '+');
    let n = pieces.len();
    let mut parts: Vec<Part> = Vec::new();
    let mut i: usize = 0;
    while i < n
        invariant
            views(pieces@) == pieces_of(s@, '+'),
            n == pieces@.len(),
            i <= n,
            parts@.len() == i,
            forall|k: int|
                0 <= k < i ==> (#[trigger] parts@[k])@ == classify_spec(
                    lowercase_of(trim_of(pieces@[k]@)),
                ),
        decreases n - i,
    {
        let lowered = to_lowercase(trim(pieces[i].as_str()));
        parts.push(classify(lowered.as_str()));
        i = i + 1;
    }
    assert(part_views(parts@) =~= parts_of(s@));
    assemble(&parts, s)
}

/// What an update of a clip means for the hotkey that the clip holds.
#[derive(Clone, Copy, Debug, PartialEq, Eq, Structural)]
pub enum HotkeyChange {
    /// The update says nothing about the hotkey.
    Keep,
    /// The update takes the hotkey away.
    Release,
    /// The update names a hotkey to register.
    Claim,
}

/// What an update with the hotkey description `hotkey` means: none given
/// keeps the hotkey, an empty one takes it away, any other is to be
/// registered.
pub open spec fn change_for(hotkey: Option<Seq<char>>) -> HotkeyChange {
    match hotkey {
        None => HotkeyChange::Keep,
        Some(description) => if description.len() == 0 {
            HotkeyChange::Release
        } else {
            HotkeyChange::Claim
        },
    }
}

/// What an update of a clip with the hotkey description `hotkey` means for
/// the hotkey that the clip holds.
pub fn hotkey_change(hotkey: &Option<String>) -> (r: HotkeyChange)
    ensures
        r == change_for(
            match *hotkey {
                Some(description) => Some(description@),
                None => None,
            },
        ),
{
    match hotkey {
        None => HotkeyChange::Keep,
        Some(description) => if description.as_str().is_empty() {
            HotkeyChange::Release
        } else {
            HotkeyChange::Claim
        },
    }
}

/// One entry of the registry: the clip and the hotkey it holds.
#[derive(Debug, PartialEq, Eq)]
pub struct Binding {
    pub id: String,
    pub hotkey: Hotkey,
}

/// What the host has to do with the system's hotkey service for one
/// request to register.
#[derive(Debug, PartialEq, Eq)]
pub struct Registration {
    /// The hotkey that the clip held so far. The host gives it up first and
    /// ignores a failure to do so.
    pub release: Option<Hotkey>,
    /// The hotkey to claim, or why the description was turned down. Once
    /// the system has accepted the claim the host calls `record`.
    pub claim: Result<Hotkey, HotkeyError>,
}

/// Whether no two entries are for the same clip.
pub open spec fn distinct_ids(entries: Seq<Binding>) -> bool {
    forall|i: int, j: int|
        0 <= i < j < entries.len() ==> (#[trigger] entries[i]).id@ != (#[trigger] entries[j]).id@
}

/// Whether some entry is for the clip `id`.
pub open spec fn has_entry(entries: Seq<Binding>, id: Seq<char>) -> bool {
    exists|i: int| 0 <= i < entries.len() && (#[trigger] entries[i]).id@ == id
}

/// The position of an entry for the clip `id`.
pub open spec fn entry_of(entries: Seq<Binding>, id: Seq<char>) -> int {
    choose|i: int| 0 <= i < entries.len() && (#[trigger] entries[i]).id@ == id
}

/// The entries as a map from clip to hotkey.
pub open spec fn bindings_of(entries: Seq<Binding>) -> Map<Seq<char>, Hotkey> {
    Map::new(
        |id: Seq<char>| has_entry(entries, id),
        |id: Seq<char>| entries[entry_of(entries, id)].hotkey,
    )
}

/// Which clip holds which hotkey.
pub struct HotkeyManager {
    registered: Vec<Binding>,
}

impl View for HotkeyManager {
    type V = Map<Seq<char>, Hotkey>;

    closed spec fn view(&self) -> Map<Seq<char>, Hotkey> {
        bindings_of(self.registered@)
    }
}

impl HotkeyManager {
    #[verifier::type_invariant]
    spec fn well_formed(self) -> bool {
        distinct_ids(self.registered@)
    }

    /// A registry without entries.
    pub fn new() -> (r: HotkeyManager)
        ensures
            r@ == Map::<Seq<char>, Hotkey>::empty(),
    {
        let r = HotkeyManager { registered: Vec::new() };
        r
    }

    fn position(&self, id: &str) -> (r: Option<usize>)
        ensures
            match r {
                Some(k) => k < self.registered@.len() && self.registered@[k as int].id@ == id@,
                None => !has_entry(self.registered@, id@),
            },
            r is Some == self@.contains_key(id@),
    {
        let n = self.registered.len();
        let mut i: usize = 0;
        while i < n
            invariant
                n == self.registered@.len(),
                i <= n,
                forall|k: int| 0 <= k < i ==> (#[trigger] self.registered@[k]).id@ != id@,
            decreases n - i,
        {
            if same_text(self.registered[i].id.as_str(), id) {
                return Some(i);
            }
            i = i + 1;
        }
        None
    }

    /// The hotkey that the clip `id` holds.
    pub fn lookup(&self, id: &str) -> (r: Option<Hotkey>)
        ensures
            r == (if self@.contains_key(id@) {
                Some(self@[id@])
            } else {
                None
            }),
    {
        proof {
            use_type_invariant(self);
        }
        match self.position(id) {
            Some(k) => {
                Some(self.registered[k].hotkey)
            },
            None => None,
        }
    }

    /// Plans the registration of the hotkey described by `hotkey_string`
    /// for the clip `id`. The registry itself is not changed: a hotkey that
    /// the clip held is given up at the system but stays recorded until
    /// `record` replaces it.
    pub fn register(&self, id: &str, hotkey_string: &str) -> (r: Registration)
        ensures
            r.release == (if self@.contains_key(id@) {
                Some(self@[id@])
            } else {
                None
            }),
            outcome_view(r.claim) == hotkey_of(parts_of(hotkey_string@), hotkey_string@),
    {
        let release = self.lookup(id);
        let claim = parse_hotkey(hotkey_string);
        Registration { release, claim }
    }

    /// Records that the clip `id` now holds `hotkey`, in place of whatever
    /// it held before.
    pub fn record(&mut self, id: String, hotkey: Hotkey)
        ensures
            final(self)@ == old(self)@.insert(id@, hotkey),
    {
        proof {
            use_type_invariant(&*self);
        }
        let ghost before = self.registered@;
        let ghost key = id@;
        let found = self.position(id.as_str());
        let mut entries: Vec<Binding> = Vec::new();
        std::mem::swap(&mut self.registered, &mut entries);
        match found {
            Some(k) => {
                entries.set(k, Binding { id, hotkey });
            },
            None => {
                entries.push(Binding { id, hotkey });
            },
        }
        proof {
            let after = entries@;
            assert forall|x: Seq<char>| has_entry(after, x) == (x == key || has_entry(
                before,
                x,
            )) by {
                if has_entry(before, x) {
                    let j = entry_of(before, x);
                    assert(after[j].id@ == before[j].id@);
                }
                if x == key && !has_entry(before, key) {
                    assert(after[after.len() - 1].id@ == key);
                }
            }
        }
        self.registered = entries;
    }

    /// Forgets the hotkey of the clip `id` and returns it, for the host to
    /// give it up at the system.
    pub fn unregister(&mut self, id: &str) -> (r: Option<Hotkey>)
        ensures
            final(self)@ == old(self)@.remove(id@),
            r == (if old(self)@.contains_key(id@) {
                Some(old(self)@[id@])
            } else {
                None
            }),
    {
        proof {
            use_type_invariant(&*self);
        }
        let ghost before = self.registered@;
        match self.position(id) {
            Some(k) => {
                let mut entries: Vec<Binding> = Vec::new();
                std::mem::swap(&mut self.registered, &mut entries);
                let gone = entries.remove(k);
                proof {
                    let after = entries@;
                    assert forall|x: Seq<char>| has_entry(after, x) == (x != id@ && has_entry(
                        before,
                        x,
                    )) by {
                        if x != id@ && has_entry(before, x) {
                            let b = entry_of(before, x);
                            let j = if b < k { b } else { b - 1 };
                            assert(after[j] == before[b]);
                        }
                    }
                }
                self.registered = entries;
                Some(gone.hotkey)
            },
            None => {
                None
            },
        }
    }
}

} // verus!
