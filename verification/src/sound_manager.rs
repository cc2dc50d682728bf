//! The clips of the soundboard and the settings that go with them.
//!
//! Everything lives in memory: the list is built by scanning a folder or by
//! adding clips one by one, and is gone when the program ends.
use vstd::prelude::*;
use crate::gain::{Gain, UNITY_BITS};
use crate::paths::{path_extension, path_extension_of, path_stem, path_stem_of};
use crate::text::{chars_are, chars_of, lowercase_of, same_text, to_lowercase};

verus! {

/// One clip.
#[derive(Clone, Debug, PartialEq, Eq)]
pub struct Sound {
    pub id: String,
    /// The name shown for the clip.
    pub name: String,
    /// Where the audio file is.
    pub path: String,
    /// The clip's own gain.
    pub volume: Gain,
    /// The description of the clip's hotkey, if it has one.
    pub hotkey: Option<String>,
}

/// A `Sound` with its text as character sequences.
pub struct SoundView {
    pub id: Seq<char>,
    pub name: Seq<char>,
    pub path: Seq<char>,
    pub volume: Gain,
    pub hotkey: Option<Seq<char>>,
}

/// The view of a text that may be absent.
pub open spec fn text_view(t: Option<String>) -> Option<Seq<char>> {
    match t {
        Some(s) => Some(s@),
        None => None,
    }
}

impl View for Sound {
    type V = SoundView;

    open spec fn view(&self) -> SoundView {
        SoundView {
            id: self.id@,
            name: self.name@,
            path: self.path@,
            volume: self.volume,
            hotkey: text_view(self.hotkey),
        }
    }
}

/// The views of a list of clips.
pub open spec fn sound_views(v: Seq<Sound>) -> Seq<SoundView> {
    Seq::new(v.len(), |i: int| v[i]@)
}

/// Everything the soundboard remembers.
#[derive(Clone, Debug, PartialEq, Eq)]
pub struct SoundboardState {
    pub sounds: Vec<Sound>,
    /// The folder that was scanned last.
    pub current_folder: Option<String>,
    pub master_volume: Gain,
    /// Whether system audio is meant to be passed into the virtual
    /// microphone.
    pub system_audio_routing_enabled: bool,
}

/// A `SoundboardState` with its text as character sequences.
pub struct SoundboardStateView {
    pub sounds: Seq<SoundView>,
    pub current_folder: Option<Seq<char>>,
    pub master_volume: Gain,
    pub system_audio_routing_enabled: bool,
}

impl View for SoundboardState {
    type V = SoundboardStateView;

    open spec fn view(&self) -> SoundboardStateView {
        SoundboardStateView {
            sounds: sound_views(self.sounds@),
            current_folder: text_view(self.current_folder),
            master_volume: self.master_volume,
            system_audio_routing_enabled: self.system_audio_routing_enabled,
        }
    }
}

/// One entry of a folder, as the host found it.
#[derive(Clone, Debug, PartialEq, Eq)]
pub struct FolderEntry {
    /// The path of the entry, the folder included.
    pub path: String,
    /// Whether the entry is a regular file.
    pub is_file: bool,
}

/// A `FolderEntry` with its text as a character sequence.
pub struct FolderEntryView {
    pub path: Seq<char>,
    pub is_file: bool,
}

impl View for FolderEntry {
    type V = FolderEntryView;

    open spec fn view(&self) -> FolderEntryView {
        FolderEntryView { path: self.path@, is_file: self.is_file }
    }
}

/// The views of a list of folder entries.
pub open spec fn entry_views(v: Seq<FolderEntry>) -> Seq<FolderEntryView> {
    Seq::new(v.len(), |i: int| v[i]@)
}

/// Whether a lower-case extension is that of an audio file.
pub open spec fn audio_extension(lowered: Seq<char>) -> bool {
    ||| lowered == "mp3"@
    ||| lowered == "wav"@
    ||| lowered == "ogg"@
    ||| lowered == "flac"@
    ||| lowered == "m4a"@
    ||| lowered == "aac"@
}

/// Whether a folder entry becomes a clip: a regular file whose extension,
/// in whatever case, is that of an audio file.
pub open spec fn is_clip(entry: FolderEntryView) -> bool {
    entry.is_file && match path_extension_of(entry.path) {
        Some(e) => audio_extension(lowercase_of(e)),
        None => false,
    }
}

/// The paths of the entries from `i` on that become clips, in order.
pub open spec fn clips_from(entries: Seq<FolderEntryView>, i: int) -> Seq<Seq<char>>
    decreases entries.len() - i,
{
    if 0 <= i < entries.len() {
        if is_clip(entries[i]) {
            seq![entries[i].path] + clips_from(entries, i + 1)
        } else {
            clips_from(entries, i + 1)
        }
    } else {
        seq![]
    }
}

/// The paths of the entries that become clips, in order.
pub open spec fn clips_of(entries: Seq<FolderEntryView>) -> Seq<Seq<char>> {
    clips_from(entries, 0)
}

/// The clip that a file becomes: named after the stem of its path, at unity
/// gain and without a hotkey.
pub open spec fn fresh_clip(id: Seq<char>, path: Seq<char>) -> SoundView {
    SoundView {
        id,
        name: path_stem_of(path),
        path,
        volume: Gain { bits: UNITY_BITS },
        hotkey: None,
    }
}

/// The paths of a list of clips.
pub open spec fn clip_paths(sounds: Seq<SoundView>) -> Seq<Seq<char>> {
    Seq::new(sounds.len(), |i: int| sounds[i].path)
}

/// Whether `c` is a digit or one of the letters `a` to `f`.
pub open spec fn is_lower_hex(c: char) -> bool {
    let n = c as u32;
    (0x30 <= n <= 0x39) || (0x61 <= n <= 0x66)
}

/// Whether a text has the form of a random identifier: thirty-two
/// lower-case hexadecimal digits in groups of 8, 4, 4, 4 and 12 with
/// hyphens between them, the third group beginning with `4` and the fourth
/// with `8`, `9`, `a` or `b`.
pub open spec fn is_uuid_text(s: Seq<char>) -> bool {
    &&& s.len() == 36
    &&& forall|i: int|
        0 <= i < 36 ==> if i == 8 || i == 13 || i == 18 || i == 23 {
            #[trigger] s[i] == '-'
        } else {
            is_lower_hex(s[i])
        }
    &&& s[14] == '4'
    &&& (s[19] == '8' || s[19] == '9' || s[19] == 'a' || s[19] == 'b')
}

/// The position of the first clip at or after `i` with the given id, or
/// the number of clips when there is none.
pub open spec fn position_from(sounds: Seq<SoundView>, id: Seq<char>, i: int) -> int
    decreases sounds.len() - i,
{
    if 0 <= i < sounds.len() && sounds[i].id != id {
        position_from(sounds, id, i + 1)
    } else {
        i
    }
}

/// The position of the first clip with the given id, or the number of
/// clips when there is none.
pub open spec fn position_of(sounds: Seq<SoundView>, id: Seq<char>) -> int {
    position_from(sounds, id, 0)
}

/// The position of the first clip at or after `i` that has a hotkey, or
/// the number of clips when there is none.
pub open spec fn hotkey_position_from(sounds: Seq<SoundView>, i: int) -> int
    decreases sounds.len() - i,
{
    if 0 <= i < sounds.len() && sounds[i].hotkey is None {
        hotkey_position_from(sounds, i + 1)
    } else {
        i
    }
}

/// A clip after an update: a name, a gain or a hotkey that is given
/// replaces the old one, the gain limited to `[0, 2]`, and an empty hotkey
/// description takes the hotkey away.
pub open spec fn revised(
    sound: SoundView,
    name: Option<Seq<char>>,
    volume: Option<Gain>,
    hotkey: Option<Seq<char>>,
) -> SoundView {
    SoundView {
        id: sound.id,
        name: match name {
            Some(n) => n,
            None => sound.name,
        },
        path: sound.path,
        volume: match volume {
            Some(v) => v.clamped_spec(),
            None => sound.volume,
        },
        hotkey: match hotkey {
            Some(h) => if h.len() == 0 {
                None
            } else {
                Some(h)
            },
            None => sound.hotkey,
        },
    }
}

/// The clips without those that have the given id.
pub open spec fn without(sounds: Seq<SoundView>, id: Seq<char>) -> Seq<SoundView> {
    sounds.filter(|s: SoundView| s.id != id)
}

/// `uuid::Uuid::new_v4`, written out by its `Display`. The identifier is
/// drawn from the operating system's random numbers, so two calls are
/// unrelated and nothing promises that they differ. Whatever is drawn, the
/// text has the hyphenated lower-case form with the version digit `4` and
/// a variant digit of `8` to `b`. The call panics if the operating system
/// cannot supply random bytes.
#[verifier::external_body]
fn fresh_id() -> (r: String)
    ensures
        is_uuid_text(r@),
{
    uuid::Uuid::new_v4().to_string()
}

/// Whether a lower-case extension is that of an audio file.
pub fn is_audio_extension(lowered: &str) -> (r: bool)
    ensures
        r == audio_extension(lowered@),
{
    let e = chars_of(lowered);
    chars_are(&e, "mp3") || chars_are(&e, "wav") || chars_are(&e, "ogg") || chars_are(&e, "flac")
        || chars_are(&e, "m4a") || chars_are(&e, "aac")
}

fn copy_of(t: &Option<String>) -> (r: Option<String>)
    ensures
        text_view(r) == text_view(*t),
{
    match t {
        Some(s) => Some(s.clone()),
        None => None,
    }
}

impl FolderEntry {
    /// Whether the entry becomes a clip.
    pub fn is_clip(&self) -> (r: bool)
        ensures
            r == is_clip(self@),
    {
        if !self.is_file {
            return false;
        }
        match path_extension(self.path.as_str()) {
            Some(e) => {
                let lowered = to_lowercase(e);
                is_audio_extension(lowered.as_str())
            },
            None => false,
        }
    }
}

impl Sound {
    /// The clip that the file at `path` becomes under the identifier `id`.
    pub fn from_path(id: String, path: String) -> (r: Sound)
        ensures
            r@ == fresh_clip(id@, path@),
    {
        let name = String::from_str(path_stem(path.as_str()));
        Sound { id, name, path, volume: Gain::unity(), hotkey: None }
    }

    /// A copy of the clip.
    pub fn duplicate(&self) -> (r: Sound)
        ensures
            r@ == self@,
    {
        Sound {
            id: self.id.clone(),
            name: self.name.clone(),
            path: self.path.clone(),
            volume: self.volume,
            hotkey: copy_of(&self.hotkey),
        }
    }

    /// The clip after an update.
    pub fn revise(&self, name: Option<String>, volume: Option<Gain>, hotkey: Option<String>) -> (r:
        Sound)
        ensures
            r@ == revised(self@, text_view(name), volume, text_view(hotkey)),
    {
        let name = match name {
            Some(n) => n,
            None => self.name.clone(),
        };
        let volume = match volume {
            Some(v) => v.clamped(),
            None => self.volume,
        };
        let hotkey = match hotkey {
            Some(h) => if h.as_str().is_empty() {
                None
            } else {
                Some(h)
            },
            None => copy_of(&self.hotkey),
        };
        Sound { id: self.id.clone(), name, path: self.path.clone(), volume, hotkey }
    }
}

fn copy_sounds(sounds: &Vec<Sound>) -> (r: Vec<Sound>)
    ensures
        sound_views(r@) == sound_views(sounds@),
{
    let n = sounds.len();
    let mut r: Vec<Sound> = Vec::new();
    let mut i: usize = 0;
    while i < n
        invariant
            n == sounds@.len(),
            i <= n,
            r@.len() == i,
            forall|k: int| 0 <= k < i ==> (#[trigger] r@[k])@ == sounds@[k]@,
        decreases n - i,
    {
        r.push(sounds[i].duplicate());
        i = i + 1;
    }
    r
}

/// The keeper of the soundboard's state.
pub struct SoundManager {
    state: SoundboardState,
}

impl View for SoundManager {
    type V = SoundboardStateView;

    closed spec fn view(&self) -> SoundboardStateView {
        self.state@
    }
}

impl SoundManager {
    /// A soundboard without clips, at unity master gain, with the
    /// passthrough of system audio off.
    pub fn new() -> (r: SoundManager)
        ensures
            r@ == (SoundboardStateView {
                sounds: seq![],
                current_folder: None,
                master_volume: Gain { bits: UNITY_BITS },
                system_audio_routing_enabled: false,
            }),
    {
        let r = SoundManager {
            state: SoundboardState {
                sounds: Vec::new(),
                current_folder: None,
                master_volume: Gain::unity(),
                system_audio_routing_enabled: false,
            },
        };
        assert(r@.sounds =~= seq![]);
        r
    }

    /// Replaces the clips by those found in `folder`. `entries` is what
    /// the host read there, without descending, in the order in which the
    /// clips are to appear; it is empty when the folder could not be read.
    /// Every entry that is a regular file with an audio extension becomes
    /// a clip with an identifier of its own.
    pub fn load_folder(&mut self, folder: String, entries: Vec<FolderEntry>)
        ensures
            clip_paths(final(self)@.sounds) == clips_of(entry_views(entries@)),
            forall|k: int|
                0 <= k < final(self)@.sounds.len() ==> {
                    let s = #[trigger] final(self)@.sounds[k];
                    s == fresh_clip(s.id, s.path) && is_uuid_text(s.id)
                },
            final(self)@.current_folder == Some(folder@),
            final(self)@.master_volume == old(self)@.master_volume,
            final(self)@.system_audio_routing_enabled == old(self)@.system_audio_routing_enabled,
    {
        let ghost ev = entry_views(entries@);
        let n = entries.len();
        let mut sounds: Vec<Sound> = Vec::new();
        let mut i: usize = 0;
        while i < n
            invariant
                ev == entry_views(entries@),
                n == entries@.len(),
                i <= n,
                clip_paths(sound_views(sounds@)) + clips_from(ev, i as int) == clips_of(ev),
                forall|k: int|
                    0 <= k < sounds@.len() ==> {
                        let s = (#[trigger] sounds@[k])@;
                        s == fresh_clip(s.id, s.path) && is_uuid_text(s.id)
                    },
            decreases n - i,
        {
            if entries[i].is_clip() {
                let ghost before = clip_paths(sound_views(sounds@));
                let sound = Sound::from_path(fresh_id(), entries[i].path.clone());
                sounds.push(sound);
                assert(before + clips_from(ev, i as int) =~= clip_paths(sound_views(sounds@))
                    + clips_from(ev, i + 1));
            }
            i = i + 1;
        }
        assert(clip_paths(sound_views(sounds@)) =~= clip_paths(sound_views(sounds@)) + clips_from(
            ev,
            n as int,
        ));
        self.state.sounds = sounds;
        self.state.current_folder = Some(folder);
    }

    /// Adds the file at `path` as a clip with an identifier of its own and
    /// returns a copy of the clip.
    pub fn add_sound(&mut self, path: String) -> (r: Sound)
        ensures
            r@ == fresh_clip(r@.id, path@),
            is_uuid_text(r@.id),
            final(self)@ == (SoundboardStateView {
                sounds: old(self)@.sounds.push(r@),
                ..old(self)@
            }),
    {
        let sound = Sound::from_path(fresh_id(), path);
        let copy = sound.duplicate();
        self.state.sounds.push(sound);
        assert(self@.sounds =~= old(self)@.sounds.push(copy@));
        copy
    }

    /// Removes every clip with the identifier `id`.
    pub fn remove_sound(&mut self, id: &str)
        ensures
            final(self)@ == (SoundboardStateView {
                sounds: without(old(self)@.sounds, id@),
                ..old(self)@
            }),
    {
        let ghost all = self@.sounds;
        let ghost keep = |s: SoundView| s.id != id@;
        let n = self.state.sounds.len();
        let mut kept: Vec<Sound> = Vec::new();
        let mut i: usize = 0;
        while i < n
            invariant
                all == sound_views(self.state.sounds@),
                *self == *old(self),
                keep == |s: SoundView| s.id != id@,
                n == self.state.sounds@.len(),
                i <= n,
                sound_views(kept@) == all.take(i as int).filter(keep),
            decreases n - i,
        {
            proof {
                reveal(Seq::filter);
                assert(all.take(i + 1).drop_last() =~= all.take(i as int));
            }
            if !same_text(self.state.sounds[i].id.as_str(), id) {
                kept.push(self.state.sounds[i].duplicate());
            }
            i = i + 1;
        }
        assert(all.take(n as int) =~= all);
        self.state.sounds = kept;
    }

    /// Updates the first clip with the identifier `id`; without such a clip
    /// nothing happens.
    pub fn update_sound(
        &mut self,
        id: &str,
        name: Option<String>,
        volume: Option<Gain>,
        hotkey: Option<String>,
    )
        ensures
            final(self)@ == (SoundboardStateView {
                sounds: ({
                    let k = position_of(old(self)@.sounds, id@);
                    if 0 <= k < old(self)@.sounds.len() {
                        old(self)@.sounds.update(
                            k,
                            revised(old(self)@.sounds[k], text_view(name), volume, text_view(hotkey)),
                        )
                    } else {
                        old(self)@.sounds
                    }
                }),
                ..old(self)@
            }),
    {
        match self.position(id) {
            Some(k) => {
                let sound = self.state.sounds[k].revise(name, volume, hotkey);
                self.state.sounds.set(k, sound);
                assert(self@.sounds =~= old(self)@.sounds.update(k as int, sound@));
            },
            None => {},
        }
    }

    fn position(&self, id: &str) -> (r: Option<usize>)
        ensures
            match r {
                Some(k) => k < self@.sounds.len() && k == position_of(self@.sounds, id@),
                None => position_of(self@.sounds, id@) >= self@.sounds.len(),
            },
    {
        let ghost all = self@.sounds;
        let n = self.state.sounds.len();
        let mut i: usize = 0;
        while i < n
            invariant
                all == sound_views(self.state.sounds@),
                n == self.state.sounds@.len(),
                i <= n,
                position_from(all, id@, i as int) == position_of(all, id@),
            decreases n - i,
        {
            if same_text(self.state.sounds[i].id.as_str(), id) {
                return Some(i);
            }
            i = i + 1;
        }
        None
    }

    /// A copy of the first clip with the identifier `id`.
    pub fn get_sound(&self, id: &str) -> (r: Option<Sound>)
        ensures
            match r {
                Some(s) => {
                    let k = position_of(self@.sounds, id@);
                    0 <= k < self@.sounds.len() && s@ == self@.sounds[k]
                },
                None => position_of(self@.sounds, id@) >= self@.sounds.len(),
            },
    {
        match self.position(id) {
            Some(k) => {
                Some(self.state.sounds[k].duplicate())
            },
            None => None,
        }
    }

    /// A copy of the clip that the press of a hotkey plays: the first clip
    /// that has a hotkey, whichever hotkey was pressed.
    pub fn hotkey_target(&self) -> (r: Option<Sound>)
        ensures
            match r {
                Some(s) => {
                    let k = hotkey_position_from(self@.sounds, 0);
                    0 <= k < self@.sounds.len() && s@ == self@.sounds[k]
                },
                None => hotkey_position_from(self@.sounds, 0) >= self@.sounds.len(),
            },
    {
        let ghost all = self@.sounds;
        let n = self.state.sounds.len();
        let mut i: usize = 0;
        while i < n
            invariant
                all == sound_views(self.state.sounds@),
                n == self.state.sounds@.len(),
                i <= n,
                hotkey_position_from(all, i as int) == hotkey_position_from(all, 0),
            decreases n - i,
        {
            if self.state.sounds[i].hotkey.is_some() {
                return Some(self.state.sounds[i].duplicate());
            }
            i = i + 1;
        }
        None
    }

    /// Copies of all clips, in order.
    pub fn get_all_sounds(&self) -> (r: Vec<Sound>)
        ensures
            sound_views(r@) == self@.sounds,
    {
        copy_sounds(&self.state.sounds)
    }

    /// A copy of the whole state.
    pub fn get_state(&self) -> (r: SoundboardState)
        ensures
            r@ == self@,
    {
        SoundboardState {
            sounds: copy_sounds(&self.state.sounds),
            current_folder: copy_of(&self.state.current_folder),
            master_volume: self.state.master_volume,
            system_audio_routing_enabled: self.state.system_audio_routing_enabled,
        }
    }

    /// Stores the master gain, limited to `[0, 2]`.
    pub fn set_master_volume(&mut self, volume: Gain)
        ensures
            final(self)@ == (SoundboardStateView {
                master_volume: volume.clamped_spec(),
                ..old(self)@
            }),
            !volume.is_nan() ==> final(self)@.master_volume.in_range(),
    {
        self.state.master_volume = volume.clamped();
    }

    /// Stores whether system audio is meant to be passed into the virtual
    /// microphone.
    pub fn set_system_audio_routing(&mut self, enabled: bool)
        ensures
            final(self)@ == (SoundboardStateView {
                system_audio_routing_enabled: enabled,
                ..old(self)@
            }),
    {
        self.state.system_audio_routing_enabled = enabled;
    }
}

} // verus!
