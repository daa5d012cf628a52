use vstd::prelude::*;
use crate::taus88::{Taus88, TausState, seeded_state};
use crate::draws::{random_ratio, random_range, ratio_outcome, range_outcome};

verus! {

/// Length of the fade-in and fade-out ramps, in samples.
pub const FADE_SAMPLES: u64 = 64;
/// Length of the pitch glide into a new tone, in samples.
pub const GLIDE_SAMPLES: u32 = 64;
/// A drawn segment is a silence with chance `SILENCE_NUMERATOR / SILENCE_DENOMINATOR`.
pub const SILENCE_NUMERATOR: u32 = 1;
pub const SILENCE_DENOMINATOR: u32 = 10;
/// Bounds, in milliseconds, of a drawn segment's length.
pub const SEGMENT_MIN_MS: i32 = 150;
pub const SEGMENT_MAX_MS: i32 = 400;
/// Length of the silence that a session opens with, in milliseconds.
pub const STARTUP_PAUSE_MS: u64 = 500;
/// The lowest sample rate at which the shortest segment still lasts a sample.
pub const MIN_SAMPLE_RATE: u32 = 7;

/// Where the sequencer stands within a segment.
#[derive(PartialEq, Eq, Structural, Clone, Copy, Debug)]
pub enum AudioPhase {
    FadingIn,
    Playing,
    FadingOut,
    Paused,
}

/// A freshly drawn segment: a tone at a MIDI note, or a silence; both with
/// a length in samples.
#[derive(PartialEq, Eq, Structural, Clone, Copy, Debug)]
pub enum Segment {
    Tone { midi: i32, duration: u64 },
    Silence { duration: u64 },
}

/// How loud one frame is, before the output gain is applied.
#[derive(PartialEq, Eq, Structural, Clone, Copy, Debug)]
pub enum Level {
    /// Nothing sounds and the oscillator is not advanced.
    Silent,
    /// The oscillator sounds at `step / (FADE_SAMPLES - 1)` of the gain.
    Ramp(u64),
    /// The oscillator sounds at the full gain.
    Full,
}

/// What one frame of output is: its level, and the MIDI note that the
/// oscillator must glide to before sounding it, where a tone begins here.
#[derive(PartialEq, Eq, Structural, Clone, Copy, Debug)]
pub struct Frame {
    pub level: Level,
    pub glide_to: Option<i32>,
}

/// The sequencer's state as plain values.
pub struct SeqModel {
    pub phase: AudioPhase,
    pub tone_left: u64,
    pub pause_left: u64,
    pub fade_left: u64,
    pub rng: TausState,
    pub sample_rate: u32,
}

/// Number of samples in `ms` milliseconds at `rate` samples per second.
pub open spec fn samples_for_ms(ms: int, rate: u32) -> u64 {
    (ms * rate / 1000) as u64
}

pub open spec fn low_note(lo: i32, hi: i32) -> i32 {
    if lo <= hi { lo } else { hi }
}

pub open spec fn high_note(lo: i32, hi: i32) -> i32 {
    if lo <= hi { hi } else { lo }
}

/// The segment drawn from generator state `s`, and the state left behind:
/// first whether it is a silence, then for a tone its note between the two
/// bounds (taken in either order), then its length.
pub open spec fn drawn_segment(s: TausState, rate: u32, lo: i32, hi: i32) -> (Segment, TausState) {
    let (silent, s1) = ratio_outcome(s, SILENCE_NUMERATOR, SILENCE_DENOMINATOR);
    if silent {
        let (ms, s2) = range_outcome(s1, SEGMENT_MIN_MS, SEGMENT_MAX_MS);
        (Segment::Silence { duration: samples_for_ms(ms as int, rate) }, s2)
    } else {
        let (note, s2) = range_outcome(s1, low_note(lo, hi), high_note(lo, hi));
        let (ms, s3) = range_outcome(s2, SEGMENT_MIN_MS, SEGMENT_MAX_MS);
        (Segment::Tone { midi: note, duration: samples_for_ms(ms as int, rate) }, s3)
    }
}

pub open spec fn segment_duration(g: Segment) -> u64 {
    match g {
        Segment::Tone { duration, .. } => duration,
        Segment::Silence { duration } => duration,
    }
}

/// Whether the next frame starts a new segment.
pub open spec fn needs_draw(m: SeqModel) -> bool {
    (m.phase == AudioPhase::Paused && m.pause_left == 0) || (m.phase == AudioPhase::FadingOut
        && m.fade_left == 0)
}

/// The state once the transition that precedes a frame has been taken,
/// with the note to glide to where a tone was drawn.
pub open spec fn transition(m: SeqModel, lo: i32, hi: i32) -> (SeqModel, Option<i32>) {
    if needs_draw(m) {
        let (seg, r) = drawn_segment(m.rng, m.sample_rate, lo, hi);
        match seg {
            Segment::Tone { midi, duration } => (
                SeqModel {
                    phase: AudioPhase::FadingIn,
                    tone_left: duration,
                    fade_left: FADE_SAMPLES,
                    rng: r,
                    ..m
                },
                Some(midi),
            ),
            Segment::Silence { duration } => (
                SeqModel { phase: AudioPhase::Paused, pause_left: duration, rng: r, ..m },
                None,
            ),
        }
    } else if m.phase == AudioPhase::FadingIn && m.fade_left == 0 {
        (SeqModel { phase: AudioPhase::Playing, ..m }, None)
    } else if m.phase == AudioPhase::Playing && m.tone_left == 0 {
        (SeqModel { phase: AudioPhase::FadingOut, fade_left: FADE_SAMPLES, ..m }, None)
    } else {
        (m, None)
    }
}

/// The level of a frame sounded in state `m`, and the state after it.
pub open spec fn sound(m: SeqModel) -> (SeqModel, Level) {
    match m.phase {
        AudioPhase::Paused => (SeqModel { pause_left: (m.pause_left - 1) as u64, ..m }, Level::Silent),
        AudioPhase::FadingIn => (
            SeqModel { fade_left: (m.fade_left - 1) as u64, ..m },
            Level::Ramp((FADE_SAMPLES - m.fade_left) as u64),
        ),
        AudioPhase::Playing => (SeqModel { tone_left: (m.tone_left - 1) as u64, ..m }, Level::Full),
        AudioPhase::FadingOut => (
            SeqModel { fade_left: (m.fade_left - 1) as u64, ..m },
            Level::Ramp((m.fade_left - 1) as u64),
        ),
    }
}

/// A fade step never exceeds the full gain: its fraction of the gain,
/// `step / (FADE_SAMPLES - 1)`, lies in [0, 1].
pub open spec fn level_in_range(l: Level) -> bool {
    l matches Level::Ramp(k) ==> k <= FADE_SAMPLES - 1
}

/// One frame of the state machine: the transition, then the frame.
pub open spec fn step(m: SeqModel, lo: i32, hi: i32) -> (SeqModel, Frame) {
    let (t, glide) = transition(m, lo, hi);
    let (n, level) = sound(t);
    (n, Frame { level, glide_to: glide })
}

/// What the state machine keeps true between frames.
pub open spec fn model_wf(m: SeqModel) -> bool {
    &&& m.sample_rate >= MIN_SAMPLE_RATE
    &&& m.fade_left <= FADE_SAMPLES
    &&& m.phase == AudioPhase::FadingIn ==> m.tone_left >= 1
    &&& (m.phase == AudioPhase::Paused || m.phase == AudioPhase::Playing) ==> m.fade_left == 0
}

/// The state in which a session opens: a half-second pause.
pub open spec fn initial_model(rate: u32) -> SeqModel {
    SeqModel {
        phase: AudioPhase::Paused,
        tone_left: 0,
        pause_left: (rate / 2) as u64,
        fade_left: 0,
        rng: seeded_state(seq![0u8, 0, 0, 0, 0, 0, 0, 0, 0, 0, 0, 0]),
        sample_rate: rate,
    }
}

/// The rendering state of one playback session: the segment state machine
/// and the generator that picks its segments.
pub struct AudioState {
    state: AudioPhase,
    tone_samples_left: u64,
    pause_samples_left: u64,
    fade_samples_left: u64,
    rng: Taus88,
    sample_rate: u32,
}

impl AudioState {
    pub closed spec fn model(&self) -> SeqModel {
        SeqModel {
            phase: self.state,
            tone_left: self.tone_samples_left,
            pause_left: self.pause_samples_left,
            fade_left: self.fade_samples_left,
            rng: self.rng@,
            sample_rate: self.sample_rate,
        }
    }

    /// A session at `sample_rate` samples per second, opening with a
    /// half-second pause and a generator seeded with zeros.
    pub fn new(sample_rate: u32) -> (r: Self)
        requires
            sample_rate >= MIN_SAMPLE_RATE,
        ensures
            r.model() == initial_model(sample_rate),
            r.wf(),
    {
        AudioState {
            state: AudioPhase::Paused,
            tone_samples_left: 0,
            pause_samples_left: sample_rate as u64 * STARTUP_PAUSE_MS / 1000,
            fade_samples_left: 0,
            rng: Taus88::from_seed([0u8; 12]),
            sample_rate,
        }
    }
}

impl AudioState {
    /// The length in samples of a drawn length in milliseconds.
    fn ms_to_samples(ms: i32, rate: u32) -> (r: u64)
        requires
            SEGMENT_MIN_MS <= ms <= SEGMENT_MAX_MS,
            rate >= MIN_SAMPLE_RATE,
        ensures
            r == samples_for_ms(ms as int, rate),
            r >= 1,
    {
        let m = ms as u64;
        assert(m * rate as u64 <= 400 * 0xFFFF_FFFFu64) by (nonlinear_arith)
            requires m <= 400;
        assert(m * rate as u64 >= 1000) by (nonlinear_arith)
            requires m >= 150, rate >= 7;
        m * (rate as u64) / 1000
    }

    /// Draws the next segment from `rng`: a silence with chance one in
    /// ten, else a tone at a note between the two bounds (in either order);
    /// its length between 150 and 400 ms.
    pub fn randomize_params(rng: &mut Taus88, sample_rate: u32, min_midi: i32, max_midi: i32) -> (r:
        Segment)
        requires
            sample_rate >= MIN_SAMPLE_RATE,
        ensures
            (r, final(rng)@) == drawn_segment(old(rng)@, sample_rate, min_midi, max_midi),
            segment_duration(r) >= 1,
            segment_duration(r) >= samples_for_ms(SEGMENT_MIN_MS as int, sample_rate),
            segment_duration(r) <= samples_for_ms(SEGMENT_MAX_MS as int, sample_rate),
            r matches Segment::Tone { midi, .. } ==> low_note(min_midi, max_midi) <= midi
                <= high_note(min_midi, max_midi),
    {
        let silent = random_ratio(rng, SILENCE_NUMERATOR, SILENCE_DENOMINATOR);
        if silent {
            let ms = random_range(rng, SEGMENT_MIN_MS, SEGMENT_MAX_MS);
            let duration = Self::ms_to_samples(ms, sample_rate);
            proof { lemma_samples_monotone(ms as int, sample_rate); }
            Segment::Silence { duration }
        } else {
            let lo = if min_midi <= max_midi { min_midi } else { max_midi };
            let hi = if min_midi <= max_midi { max_midi } else { min_midi };
            let midi = random_range(rng, lo, hi);
            let ms = random_range(rng, SEGMENT_MIN_MS, SEGMENT_MAX_MS);
            let duration = Self::ms_to_samples(ms, sample_rate);
            proof { lemma_samples_monotone(ms as int, sample_rate); }
            Segment::Tone { midi, duration }
        }
    }
}

/// Whether `frames` frames can be rendered in bulk from state `m`: a pause
/// or a steady tone with at least that many samples left, so no segment
/// boundary falls among them.
pub open spec fn fast_path_ok(m: SeqModel, frames: u64) -> bool {
    (m.phase == AudioPhase::Paused && m.pause_left >= frames) || (m.phase == AudioPhase::Playing
        && m.tone_left >= frames)
}

/// The state after `frames` frames rendered in bulk.
pub open spec fn bulk_model(m: SeqModel, frames: u64) -> SeqModel {
    if m.phase == AudioPhase::Paused {
        SeqModel { pause_left: (m.pause_left - frames) as u64, ..m }
    } else {
        SeqModel { tone_left: (m.tone_left - frames) as u64, ..m }
    }
}

/// The level of every frame rendered in bulk.
pub open spec fn bulk_level(m: SeqModel) -> Level {
    if m.phase == AudioPhase::Paused {
        Level::Silent
    } else {
        Level::Full
    }
}

impl AudioState {
    /// What the state machine keeps true between frames.
    pub closed spec fn wf(&self) -> bool {
        model_wf(self.model())
    }

    /// Renders one frame through the full state machine: takes the
    /// transition due (drawing a new segment between the given note bounds
    /// where one is due), then says how loud the frame is.
    pub fn next_frame(&mut self, min_midi: i32, max_midi: i32) -> (r: Frame)
        requires
            old(self).wf(),
        ensures
            final(self).wf(),
            (final(self).model(), r) == step(old(self).model(), min_midi, max_midi),
            level_in_range(r.level),
    {
        let mut glide_to: Option<i32> = None;
        if (self.state == AudioPhase::Paused && self.pause_samples_left == 0) || (self.state
            == AudioPhase::FadingOut && self.fade_samples_left == 0) {
            let seg = Self::randomize_params(&mut self.rng, self.sample_rate, min_midi, max_midi);
            match seg {
                Segment::Tone { midi, duration } => {
                    glide_to = Some(midi);
                    self.tone_samples_left = duration;
                    self.state = AudioPhase::FadingIn;
                    self.fade_samples_left = FADE_SAMPLES;
                },
                Segment::Silence { duration } => {
                    self.pause_samples_left = duration;
                    self.state = AudioPhase::Paused;
                },
            }
        } else if self.state == AudioPhase::FadingIn && self.fade_samples_left == 0 {
            self.state = AudioPhase::Playing;
        } else if self.state == AudioPhase::Playing && self.tone_samples_left == 0 {
            self.state = AudioPhase::FadingOut;
            self.fade_samples_left = FADE_SAMPLES;
        }
        let level = match self.state {
            AudioPhase::Paused => {
                self.pause_samples_left = self.pause_samples_left - 1;
                Level::Silent
            },
            AudioPhase::FadingIn => {
                let step = FADE_SAMPLES - self.fade_samples_left;
                self.fade_samples_left = self.fade_samples_left - 1;
                Level::Ramp(step)
            },
            AudioPhase::Playing => {
                self.tone_samples_left = self.tone_samples_left - 1;
                Level::Full
            },
            AudioPhase::FadingOut => {
                self.fade_samples_left = self.fade_samples_left - 1;
                Level::Ramp(self.fade_samples_left)
            },
        };
        Frame { level, glide_to }
    }

    /// The phase of the segment under way.
    pub fn phase(&self) -> (r: AudioPhase)
        ensures
            r == self.model().phase,
    {
        self.state
    }

    /// Samples left of the tone, of the pause and of the fade, in that order.
    pub fn samples_left(&self) -> (r: (u64, u64, u64))
        ensures
            r == (self.model().tone_left, self.model().pause_left, self.model().fade_left),
    {
        (self.tone_samples_left, self.pause_samples_left, self.fade_samples_left)
    }

    /// Whether `frames` frames can be rendered in bulk: the session is in a
    /// pause or a steady tone with at least that many samples left.
    pub fn fast_path_applies(&self, frames: u64) -> (r: bool)
        ensures
            r == fast_path_ok(self.model(), frames),
    {
        (self.state == AudioPhase::Paused && self.pause_samples_left >= frames) || (self.state
            == AudioPhase::Playing && self.tone_samples_left >= frames)
    }

    /// Renders `frames` frames at once where no segment boundary falls
    /// among them; every one of them has the returned level.
    pub fn advance_bulk(&mut self, frames: u64) -> (r: Level)
        requires
            old(self).wf(),
            fast_path_ok(old(self).model(), frames),
        ensures
            final(self).wf(),
            final(self).model() == bulk_model(old(self).model(), frames),
            r == bulk_level(old(self).model()),
    {
        if self.state == AudioPhase::Paused {
            self.pause_samples_left = self.pause_samples_left - frames;
            Level::Silent
        } else {
            self.tone_samples_left = self.tone_samples_left - frames;
            Level::Full
        }
    }
}

/// The state and frames after `n` frames of the full state machine, the
/// note bounds held at `lo` and `hi`.
pub open spec fn run(m: SeqModel, n: nat, lo: i32, hi: i32) -> (SeqModel, Seq<Frame>)
    decreases n,
{
    if n == 0 {
        (m, Seq::empty())
    } else {
        let (m1, fs) = run(m, (n - 1) as nat, lo, hi);
        let (m2, f) = step(m1, lo, hi);
        (m2, fs.push(f))
    }
}

/// The bulk path is only a faster way to the same result: wherever it
/// applies, rendering `frames` frames one by one through the full state
/// machine gives the same frames, one after another, and the same state.
pub proof fn lemma_fast_path_matches_slow_path(m: SeqModel, frames: u64, lo: i32, hi: i32)
    requires
        model_wf(m),
        fast_path_ok(m, frames),
    ensures
        run(m, frames as nat, lo, hi) == (
            bulk_model(m, frames),
            Seq::new(frames as nat, |i: int| Frame { level: bulk_level(m), glide_to: None }),
        ),
{
    lemma_bulk_prefix(m, frames, frames, lo, hi);
}

proof fn lemma_bulk_prefix(m: SeqModel, frames: u64, k: u64, lo: i32, hi: i32)
    requires
        model_wf(m),
        fast_path_ok(m, frames),
        k <= frames,
    ensures
        run(m, k as nat, lo, hi) == (
            bulk_model(m, k),
            Seq::new(k as nat, |i: int| Frame { level: bulk_level(m), glide_to: None }),
        ),
    decreases k,
{
    let f = Frame { level: bulk_level(m), glide_to: None };
    if k == 0 {
        assert(bulk_model(m, 0) == m);
        assert(Seq::new(0, |i: int| f) =~= Seq::<Frame>::empty());
    } else {
        lemma_bulk_prefix(m, frames, (k - 1) as u64, lo, hi);
        let prev = bulk_model(m, (k - 1) as u64);
        assert(!needs_draw(prev));
        assert(transition(prev, lo, hi) == (prev, None::<i32>));
        assert(sound(prev).0 == bulk_model(m, k));
        assert(Seq::new((k - 1) as nat, |i: int| f).push(f) =~= Seq::new(k as nat, |i: int| f));
    }
}

impl AudioState {
    /// Plans one buffer of `plan.len()` frames, the note bounds read once
    /// for the buffer: in bulk where no segment boundary can fall inside
    /// it, else frame by frame through the full state machine. Either way
    /// the frames and the state are those of the full state machine.
    pub fn fill(&mut self, plan: &mut [Frame], min_midi: i32, max_midi: i32)
        requires
            old(self).wf(),
        ensures
            final(self).wf(),
            final(plan)@.len() == old(plan)@.len(),
            (final(self).model(), final(plan)@) == run(
                old(self).model(),
                old(plan)@.len(),
                min_midi,
                max_midi,
            ),
    {
        let n = plan.len();
        let ghost m0 = self.model();
        if self.fast_path_applies(n as u64) {
            proof {
                lemma_fast_path_matches_slow_path(m0, n as u64, min_midi, max_midi);
            }
            let level = self.advance_bulk(n as u64);
            let frame = Frame { level, glide_to: None };
            let mut i: usize = 0;
            while i < n
                invariant
                    plan@.len() == n,
                    i <= n,
                    frame == (Frame { level: bulk_level(m0), glide_to: None }),
                    forall|j: int| 0 <= j < i ==> plan@[j] == frame,
                decreases n - i,
            {
                plan[i] = frame;
                i = i + 1;
            }
            assert(plan@ =~= Seq::new(n as nat, |i: int| Frame { level: bulk_level(m0), glide_to: None }));
        } else {
            let mut i: usize = 0;
            while i < n
                invariant
                    plan@.len() == n,
                    i <= n,
                    self.wf(),
                    (self.model(), plan@.subrange(0, i as int)) == run(m0, i as nat, min_midi, max_midi),
                decreases n - i,
            {
                let ghost before = plan@;
                let f = self.next_frame(min_midi, max_midi);
                plan[i] = f;
                assert(plan@.subrange(0, i + 1) =~= before.subrange(0, i as int).push(f));
                i = i + 1;
            }
            assert(plan@.subrange(0, n as int) =~= plan@);
        }
    }
}

/// Writes one stereo frame of an interleaved buffer: the left channel gets
/// `silent`, the right channel `value`; nothing else changes. The signal is
/// monaural and sits on the right channel only.
pub fn write_stereo<T: Copy>(data: &mut [T], frame: usize, silent: T, value: T)
    requires
        2 * frame + 1 < old(data)@.len(),
    ensures
        final(data)@ == old(data)@.update(2 * frame as int, silent).update(2 * frame + 1, value),
{
    let len = data.len();
    assert(2 * frame + 1 < len);
    data[2 * frame] = silent;
    data[2 * frame + 1] = value;
}

/// Whatever note bounds each frame is given, a frame never sounds louder
/// than the gain: from any state whose fade count is at most
/// `FADE_SAMPLES`, a frame's fade fraction lies in [0, 1] and the next
/// state again has a fade count of at most `FADE_SAMPLES`.
pub proof fn lemma_level_never_exceeds_gain(m: SeqModel, lo: i32, hi: i32)
    requires
        m.fade_left <= FADE_SAMPLES,
    ensures
        level_in_range(step(m, lo, hi).1.level),
        step(m, lo, hi).0.fade_left <= FADE_SAMPLES,
{
}

proof fn lemma_samples_monotone(ms: int, rate: u32)
    requires
        SEGMENT_MIN_MS <= ms <= SEGMENT_MAX_MS,
    ensures
        samples_for_ms(SEGMENT_MIN_MS as int, rate) <= samples_for_ms(ms, rate) <= samples_for_ms(
            SEGMENT_MAX_MS as int,
            rate,
        ),
{
    assert(150 * rate <= ms * rate <= 400 * rate) by (nonlinear_arith)
        requires 150 <= ms <= 400, rate >= 0;
    assert(400 * rate <= 400 * 0xFFFF_FFFF) by (nonlinear_arith)
        requires rate <= 0xFFFF_FFFF;
    vstd::arithmetic::div_mod::lemma_div_is_ordered(150 * rate, ms * rate, 1000);
    vstd::arithmetic::div_mod::lemma_div_is_ordered(ms * rate, 400 * rate, 1000);
}

} // verus!
