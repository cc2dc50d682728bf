//! The playback engine's bookkeeping: which voices are playing, and how
//! loud.
//!
//! The host owns the output device and the decoders. It tells the engine
//! when a voice starts and when one has played to its end; the engine tells
//! the host which voices to halt and which level each one has.
use vstd::prelude::*;
use crate::gain::{Gain, UNITY_BITS};
use crate::text::{same_text, views};

verus! {

/// How loud a voice plays.
#[derive(Clone, Copy, Debug, PartialEq, Eq, Structural)]
pub enum Level {
    /// The product of the clip's own gain and the master gain that was in
    /// force when the voice started.
    Scaled { clip: Gain, master: Gain },
    /// A master gain that was set while the voice was playing. It replaces
    /// the product altogether: the clip's own gain no longer counts.
    Master(Gain),
}

/// One playback of one clip.
#[derive(Clone, Debug, PartialEq, Eq)]
pub struct Voice {
    /// The number that the engine gave the voice when it started.
    pub id: u64,
    /// The identifier of the clip, as the caller gave it.
    pub clip: String,
    pub level: Level,
}

/// A `Voice` with its text as a character sequence.
pub struct VoiceView {
    pub id: u64,
    pub clip: Seq<char>,
    pub level: Level,
}

impl View for Voice {
    type V = VoiceView;

    open spec fn view(&self) -> VoiceView {
        VoiceView { id: self.id, clip: self.clip@, level: self.level }
    }
}

/// The views of a list of voices.
pub open spec fn voice_views(v: Seq<Voice>) -> Seq<VoiceView> {
    Seq::new(v.len(), |i: int| v[i]@)
}

/// The numbers of a list of voices.
pub open spec fn voice_ids(v: Seq<VoiceView>) -> Seq<u64> {
    Seq::new(v.len(), |i: int| v[i].id)
}

/// The voices other than the one with the number `id`.
pub open spec fn without_voice(voices: Seq<VoiceView>, id: u64) -> Seq<VoiceView> {
    voices.filter(|v: VoiceView| v.id != id)
}

/// The voices that do not play the clip `clip`.
pub open spec fn without_clip(voices: Seq<VoiceView>, clip: Seq<char>) -> Seq<VoiceView> {
    voices.filter(|v: VoiceView| v.clip != clip)
}

/// The voices that play the clip `clip`.
pub open spec fn of_clip(voices: Seq<VoiceView>, clip: Seq<char>) -> Seq<VoiceView> {
    voices.filter(|v: VoiceView| v.clip == clip)
}

/// The voices, each at the level `Master(gain)`.
pub open spec fn levelled(voices: Seq<VoiceView>, gain: Gain) -> Seq<VoiceView> {
    Seq::new(
        voices.len(),
        |i: int| VoiceView { id: voices[i].id, clip: voices[i].clip, level: Level::Master(gain) },
    )
}

/// The names that could be read among those from `i` on, in order.
pub open spec fn readable_from(names: Seq<Option<String>>, i: int) -> Seq<Seq<char>>
    decreases names.len() - i,
{
    if 0 <= i < names.len() {
        match names[i] {
            Some(name) => seq![name@] + readable_from(names, i + 1),
            None => readable_from(names, i + 1),
        }
    } else {
        seq![]
    }
}

/// What the engine knows.
pub struct AudioManagerView {
    /// The voices that are playing, oldest first.
    pub voices: Seq<VoiceView>,
    pub master_volume: Gain,
    /// The number that the next voice gets.
    pub next_voice: u64,
}

/// The playback engine.
pub struct AudioManager {
    active_sounds: Vec<Voice>,
    master_volume: Gain,
    next_voice: u64,
}

impl View for AudioManager {
    type V = AudioManagerView;

    closed spec fn view(&self) -> AudioManagerView {
        AudioManagerView {
            voices: voice_views(self.active_sounds@),
            master_volume: self.master_volume,
            next_voice: self.next_voice,
        }
    }
}

/// The voice that starts when the clip `clip` is played at its own gain
/// `volume` in the state `before`.
pub open spec fn voice_started(before: AudioManagerView, clip: Seq<char>, volume: Gain) -> VoiceView {
    VoiceView {
        id: before.next_voice,
        clip,
        level: Level::Scaled { clip: volume, master: before.master_volume },
    }
}

/// The state after the clip `clip` has been started at its own gain
/// `volume` in the state `before`, while a voice number is left: the new
/// voice joins the others, which are as they were.
pub open spec fn started(before: AudioManagerView, clip: Seq<char>, volume: Gain) -> AudioManagerView {
    AudioManagerView {
        voices: before.voices.push(voice_started(before, clip, volume)),
        master_volume: before.master_volume,
        next_voice: (before.next_voice + 1) as u64,
    }
}

/// Whether every voice has a number below `next`.
pub open spec fn numbered_below(voices: Seq<VoiceView>, next: u64) -> bool {
    forall|k: int| 0 <= k < voices.len() ==> (#[trigger] voices[k]).id < next
}

impl AudioManager {
    #[verifier::type_invariant]
    spec fn well_formed(self) -> bool {
        numbered_below(voice_views(self.active_sounds@), self.next_voice)
    }

    /// An engine in which nothing plays, at unity master gain.
    pub fn new() -> (r: AudioManager)
        ensures
            r@ == (AudioManagerView {
                voices: seq![],
                master_volume: Gain { bits: UNITY_BITS },
                next_voice: 0,
            }),
    {
        let r = AudioManager {
            active_sounds: Vec::new(),
            master_volume: Gain::unity(),
            next_voice: 0,
        };
        assert(r@.voices =~= seq![]);
        r
    }

    /// The display names of the output devices. `names` holds, for each
    /// device that the host found, its name if the device gave one. Devices
    /// without a name are left out; no device at all is no error.
    pub fn list_output_devices(&self, names: Vec<Option<String>>) -> (r: Vec<String>)
        ensures
            views(r@) == readable_from(names@, 0),
    {
        let n = names.len();
        let mut r: Vec<String> = Vec::new();
        let mut i: usize = 0;
        while i < n
            invariant
                n == names@.len(),
                i <= n,
                views(r@) + readable_from(names@, i as int) == readable_from(names@, 0),
            decreases n - i,
        {
            let ghost before = views(r@);
            match &names[i] {
                Some(name) => {
                    r.push(name.clone());
                    assert(before + readable_from(names@, i as int) =~= views(r@) + readable_from(
                        names@,
                        i + 1,
                    ));
                },
                None => {},
            }
            i = i + 1;
        }
        r
    }

    /// The master gain.
    pub fn master_volume(&self) -> (r: Gain)
        ensures
            r == self@.master_volume,
    {
        self.master_volume
    }

    /// How many voices are playing.
    pub fn active_count(&self) -> (r: usize)
        ensures
            r == self@.voices.len(),
    {
        self.active_sounds.len()
    }

    /// Copies of the voices that are playing, oldest first.
    pub fn active_voices(&self) -> (r: Vec<Voice>)
        ensures
            voice_views(r@) == self@.voices,
    {
        let n = self.active_sounds.len();
        let mut r: Vec<Voice> = Vec::new();
        let mut i: usize = 0;
        while i < n
            invariant
                n == self.active_sounds@.len(),
                i <= n,
                r@.len() == i,
                forall|k: int| 0 <= k < i ==> (#[trigger] r@[k])@ == self.active_sounds@[k]@,
            decreases n - i,
        {
            let v = &self.active_sounds[i];
            r.push(Voice { id: v.id, clip: v.clip.clone(), level: v.level });
            i = i + 1;
        }
        r
    }

    /// Registers a voice that has just started playing the clip `id` with
    /// the clip's own gain `volume`, and returns the number of the voice.
    /// The voice plays at the product of `volume` and the master gain.
    /// Other voices are not touched. `None`, with nothing changed, only
    /// when all numbers are used up.
    pub fn play_sound(&mut self, id: String, volume: Gain) -> (r: Option<u64>)
        ensures
            match r {
                Some(voice) => {
                    &&& voice == old(self)@.next_voice
                    &&& final(self)@ == started(old(self)@, id@, volume)
                    &&& forall|k: int|
                        0 <= k < old(self)@.voices.len() ==> (#[trigger] old(self)@.voices[k]).id
                            != voice
                },
                None => final(self)@ == old(self)@,
            },
            r is Some <==> old(self)@.next_voice < u64::MAX,
    {
        proof {
            use_type_invariant(&*self);
        }
        if self.next_voice == u64::MAX {
            return None;
        }
        let voice = self.next_voice;
        let level = Level::Scaled { clip: volume, master: self.master_volume };
        let mut voices: Vec<Voice> = Vec::new();
        std::mem::swap(&mut self.active_sounds, &mut voices);
        let ghost before = voice_views(voices@);
        let ghost entry = VoiceView { id: voice, clip: id@, level };
        voices.push(Voice { id: voice, clip: id, level });
        assert(voice_views(voices@) =~= before.push(entry));
        self.next_voice = voice + 1;
        self.active_sounds = voices;
        Some(voice)
    }

    /// Takes the voice with the number `voice` out of the active set,
    /// because it has played to its end. Returns whether it was there.
    /// Other voices are not touched.
    pub fn reap(&mut self, voice: u64) -> (r: bool)
        ensures
            final(self)@ == (AudioManagerView {
                voices: without_voice(old(self)@.voices, voice),
                ..old(self)@
            }),
            r == (final(self)@.voices.len() < old(self)@.voices.len()),
    {
        proof {
            use_type_invariant(&*self);
        }
        let ghost all = self@.voices;
        let ghost keep = |v: VoiceView| v.id != voice;
        let n = self.active_sounds.len();
        let mut kept: Vec<Voice> = Vec::new();
        let mut i: usize = 0;
        while i < n
            invariant
                all == voice_views(self.active_sounds@),
                *self == *old(self),
                keep == |v: VoiceView| v.id != voice,
                n == self.active_sounds@.len(),
                i <= n,
                kept@.len() <= i,
                voice_views(kept@) == all.take(i as int).filter(keep),
                numbered_below(voice_views(kept@), self.next_voice),
                numbered_below(all, self.next_voice),
            decreases n - i,
        {
            proof {
                reveal(Seq::filter);
                assert(all.take(i + 1).drop_last() =~= all.take(i as int));
            }
            let ghost before = voice_views(kept@);
            let v = &self.active_sounds[i];
            if v.id != voice {
                kept.push(Voice { id: v.id, clip: v.clip.clone(), level: v.level });
                assert(voice_views(kept@) =~= before.push(all[i as int]));
            }
            i = i + 1;
        }
        assert(all.take(n as int) =~= all);
        let found = kept.len() < n;
        self.active_sounds = kept;
        found
    }

    /// Takes every voice that plays the clip `id` out of the active set and
    /// returns their numbers, oldest first, for the host to halt them.
    /// Voices of other clips are not touched.
    pub fn stop_sound(&mut self, id: &str) -> (r: Vec<u64>)
        ensures
            final(self)@ == (AudioManagerView {
                voices: without_clip(old(self)@.voices, id@),
                ..old(self)@
            }),
            r@ == voice_ids(of_clip(old(self)@.voices, id@)),
    {
        proof {
            use_type_invariant(&*self);
        }
        let ghost all = self@.voices;
        let ghost keep = |v: VoiceView| v.clip != id@;
        let ghost halt = |v: VoiceView| v.clip == id@;
        let n = self.active_sounds.len();
        let mut kept: Vec<Voice> = Vec::new();
        let mut halted: Vec<u64> = Vec::new();
        let mut i: usize = 0;
        while i < n
            invariant
                all == voice_views(self.active_sounds@),
                *self == *old(self),
                keep == |v: VoiceView| v.clip != id@,
                halt == |v: VoiceView| v.clip == id@,
                n == self.active_sounds@.len(),
                i <= n,
                voice_views(kept@) == all.take(i as int).filter(keep),
                halted@ == voice_ids(all.take(i as int).filter(halt)),
                numbered_below(voice_views(kept@), self.next_voice),
                numbered_below(all, self.next_voice),
            decreases n - i,
        {
            proof {
                reveal(Seq::filter);
                assert(all.take(i + 1).drop_last() =~= all.take(i as int));
            }
            let ghost gone = all.take(i as int).filter(halt);
            let v = &self.active_sounds[i];
            if same_text(v.clip.as_str(), id) {
                halted.push(v.id);
                assert(halted@ =~= voice_ids(gone.push(all[i as int])));
            } else {
                kept.push(Voice { id: v.id, clip: v.clip.clone(), level: v.level });
            }
            i = i + 1;
        }
        assert(all.take(n as int) =~= all);
        self.active_sounds = kept;
        halted
    }

    /// Empties the active set and returns the numbers of the voices that
    /// were in it, oldest first, for the host to halt them. With nothing
    /// playing this changes nothing and returns nothing.
    pub fn stop_all(&mut self) -> (r: Vec<u64>)
        ensures
            final(self)@ == (AudioManagerView { voices: seq![], ..old(self)@ }),
            r@ == voice_ids(old(self)@.voices),
            old(self)@.voices.len() == 0 ==> final(self)@ == old(self)@ && r@.len() == 0,
    {
        let ghost all = self@.voices;
        let n = self.active_sounds.len();
        let mut halted: Vec<u64> = Vec::new();
        let mut i: usize = 0;
        while i < n
            invariant
                all == voice_views(self.active_sounds@),
                *self == *old(self),
                n == self.active_sounds@.len(),
                i <= n,
                halted@ == voice_ids(all.take(i as int)),
            decreases n - i,
        {
            halted.push(self.active_sounds[i].id);
            i = i + 1;
        }
        self.active_sounds = Vec::new();
        assert(self@.voices =~= seq![]);
        assert(all.len() == 0 ==> all =~= seq![]);
        halted
    }

    /// Stores the master gain, limited to `[0, 2]`, and puts every voice
    /// that is playing at exactly that level, whatever its clip's own gain
    /// is. Returns the level, for the host to apply it.
    pub fn set_master_volume(&mut self, volume: Gain) -> (r: Gain)
        ensures
            r == volume.clamped_spec(),
            !volume.is_nan() ==> r.in_range(),
            final(self)@ == (AudioManagerView {
                voices: levelled(old(self)@.voices, r),
                master_volume: r,
                next_voice: old(self)@.next_voice,
            }),
    {
        proof {
            use_type_invariant(&*self);
        }
        let level = volume.clamped();
        let ghost all = self@.voices;
        let n = self.active_sounds.len();
        let mut voices: Vec<Voice> = Vec::new();
        let mut i: usize = 0;
        while i < n
            invariant
                all == voice_views(self.active_sounds@),
                *self == *old(self),
                n == self.active_sounds@.len(),
                i <= n,
                voices@.len() == i,
                forall|k: int| 0 <= k < i ==> (#[trigger] voices@[k])@ == levelled(all, level)[k],
                numbered_below(all, self.next_voice),
            decreases n - i,
        {
            let v = &self.active_sounds[i];
            voices.push(Voice { id: v.id, clip: v.clip.clone(), level: Level::Master(level) });
            i = i + 1;
        }
        assert(voice_views(voices@) =~= levelled(all, level));
        self.master_volume = level;
        self.active_sounds = voices;
        level
    }
}

/// Filtering by a condition and then by a stronger one is filtering by the
/// stronger one alone.
proof fn lemma_filter_within<A>(s: Seq<A>, p: spec_fn(A) -> bool, q: spec_fn(A) -> bool)
    requires
        forall|x: A| #[trigger] q(x) ==> p(x),
    ensures
        s.filter(p).filter(q) == s.filter(q),
    decreases s.len(),
{
    reveal(Seq::filter);
    if s.len() > 0 {
        let t = s.drop_last();
        let x = s.last();
        lemma_filter_within(t, p, q);
        if p(x) {
            assert(t.filter(p).push(x).drop_last() =~= t.filter(p));
        }
    }
}

/// Filtering by two conditions gives the same whichever comes first.
proof fn lemma_filter_commutes<A>(s: Seq<A>, p: spec_fn(A) -> bool, q: spec_fn(A) -> bool)
    ensures
        s.filter(p).filter(q) == s.filter(q).filter(p),
    decreases s.len(),
{
    reveal(Seq::filter);
    if s.len() > 0 {
        let t = s.drop_last();
        let x = s.last();
        lemma_filter_commutes(t, p, q);
        if p(x) {
            assert(t.filter(p).push(x).drop_last() =~= t.filter(p));
        }
        if q(x) {
            assert(t.filter(q).push(x).drop_last() =~= t.filter(q));
        }
    }
}

/// A filter that everything passes changes nothing.
proof fn lemma_filter_keeps_all<A>(s: Seq<A>, p: spec_fn(A) -> bool)
    requires
        forall|k: int| 0 <= k < s.len() ==> p(#[trigger] s[k]),
    ensures
        s.filter(p) == s,
    decreases s.len(),
{
    reveal(Seq::filter);
    if s.len() > 0 {
        lemma_filter_keeps_all(s.drop_last(), p);
    }
}

/// Voices end independently of one another. When a clip is stopped, the
/// voices of any other clip are what they were, in number, order and
/// level. When a voice has played to its end, every other voice is still
/// there. And when two voices end, it does not matter which is taken out
/// first.
pub proof fn voices_end_independently(
    voices: Seq<VoiceView>,
    stopped: Seq<char>,
    other: Seq<char>,
    ended: u64,
    also_ended: u64,
)
    requires
        stopped != other,
    ensures
        of_clip(without_clip(voices, stopped), other) == of_clip(voices, other),
        forall|k: int|
            0 <= k < voices.len() && voices[k].id != ended ==> without_voice(
                voices,
                ended,
            ).contains(#[trigger] voices[k]),
        forall|k: int|
            0 <= k < without_voice(voices, ended).len() ==> {
                let v = #[trigger] without_voice(voices, ended)[k];
                v.id != ended && voices.contains(v)
            },
        without_voice(without_voice(voices, ended), also_ended) == without_voice(
            without_voice(voices, also_ended),
            ended,
        ),
{
    lemma_filter_within(voices, |v: VoiceView| v.clip != stopped, |v: VoiceView| v.clip == other);
    lemma_filter_commutes(
        voices,
        |v: VoiceView| v.id != ended,
        |v: VoiceView| v.id != also_ended,
    );
    let keep = |v: VoiceView| v.id != ended;
    assert forall|k: int| 0 <= k < without_voice(voices, ended).len() implies {
        let v = #[trigger] without_voice(voices, ended)[k];
        v.id != ended && voices.contains(v)
    } by {
        let v = voices.filter(keep)[k];
        voices.lemma_filter_contains_rev(keep, v);
    }
}

/// A voice that started and then played to its end leaves the active set
/// as it was before the voice started. In particular, if nothing else was
/// playing, nothing is playing afterwards, and stopping everything halts
/// nothing.
pub proof fn a_finished_voice_leaves_no_trace(voices: Seq<VoiceView>, voice: VoiceView)
    requires
        forall|k: int| 0 <= k < voices.len() ==> (#[trigger] voices[k]).id != voice.id,
    ensures
        without_voice(voices.push(voice), voice.id) == voices,
        voices.len() == 0 ==> voice_ids(without_voice(voices.push(voice), voice.id)).len() == 0,
{
    reveal(Seq::filter);
    let keep = |v: VoiceView| v.id != voice.id;
    assert(voices.push(voice).drop_last() =~= voices);
    lemma_filter_keeps_all(voices, keep);
}

/// Two clips that are started one after the other, while a voice number
/// is left for each, play side by side. Both voices are in the active set
/// at once, after those that were playing, which are untouched. The first
/// keeps the level it started with when the second starts. The two have
/// different numbers, and when either has played to its end the other is
/// still there, as it was. Stopping the first clip leaves the voices of
/// the second as they were.
pub proof fn two_clips_play_side_by_side(
    before: AudioManagerView,
    first: Seq<char>,
    first_gain: Gain,
    second: Seq<char>,
    second_gain: Gain,
)
    requires
        numbered_below(before.voices, before.next_voice),
        before.next_voice + 1 < u64::MAX,
        first != second,
    ensures
        ({
            let one = started(before, first, first_gain);
            let both = started(one, second, second_gain);
            let a = voice_started(before, first, first_gain);
            let b = voice_started(one, second, second_gain);
            &&& both.voices == before.voices.push(a).push(b)
            &&& a.level == (Level::Scaled { clip: first_gain, master: before.master_volume })
            &&& b.level == (Level::Scaled { clip: second_gain, master: before.master_volume })
            &&& a.id != b.id
            &&& numbered_below(both.voices, both.next_voice)
            &&& without_voice(both.voices, a.id) == before.voices.push(b)
            &&& without_voice(both.voices, b.id) == before.voices.push(a)
            &&& of_clip(without_clip(both.voices, first), second) == of_clip(both.voices, second)
        }),
{
    let one = started(before, first, first_gain);
    let both = started(one, second, second_gain);
    let a = voice_started(before, first, first_gain);
    let b = voice_started(one, second, second_gain);
    let not_a = |v: VoiceView| v.id != a.id;
    let not_b = |v: VoiceView| v.id != b.id;
    reveal(Seq::filter);
    lemma_filter_keeps_all(before.voices, not_a);
    lemma_filter_keeps_all(before.voices, not_b);
    assert(before.voices.push(a).drop_last() =~= before.voices);
    assert(both.voices.drop_last() =~= before.voices.push(a));
    assert(before.voices.push(a).filter(not_b) == before.voices.push(a));
    voices_end_independently(both.voices, first, second, a.id, b.id);
}

} // verus!
