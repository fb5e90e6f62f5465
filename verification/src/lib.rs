//! Text-reveal animation core.
//!
//! A [`TextAnimator`] owns a piece of text, a normalized progress clock and a
//! reveal mode, and on each frame computes which characters (or what
//! per-character opacity) should be visible. The host UI drives it: once per
//! frame it reports the elapsed time through [`TextAnimator::process_animation`]
//! and asks for the styled run through [`TextAnimator::visible_run`].
//!
//! All timing and opacity values are fixed-point integers in units of
//! [`PROGRESS_SCALE`]: a progress or opacity of `PROGRESS_SCALE` means `1.0`
//! (fully elapsed, fully opaque). The host converts its real-valued clock and
//! colors at the boundary.

use vstd::prelude::*;

verus! {

use vstd::arithmetic::div_mod::{
    lemma_basic_div,
    lemma_div_is_ordered,
    lemma_div_multiples_vanish,
    lemma_div_pos_is_pos,
    lemma_small_mod,
};
use vstd::arithmetic::mul::{lemma_mul_inequality, lemma_mul_nonnegative};

/// Number of fixed-point units that make up `1.0` of normalized progress,
/// of animation speed, and of per-character opacity.
pub const PROGRESS_SCALE: u64 = 1_000_000;

/// The available reveal strategies.
#[derive(Clone, Copy, Debug, PartialEq, Eq)]
pub enum AnimationType {
    /// Characters gradually fade in from transparent to fully opaque.
    FadeIn,
    /// Characters appear one by one, simulating a typewriter effect.
    Typewriter,
}

/// One element of a visible run: a character together with the opacity it
/// should be painted at, in units of [`PROGRESS_SCALE`] (`PROGRESS_SCALE`
/// means fully opaque, `0` fully transparent).
#[derive(Clone, Copy, Debug, PartialEq, Eq)]
pub struct RunChar {
    pub ch: char,
    pub opacity: u64,
}

impl RunChar {
    /// Pairs a character with the opacity it should be painted at.
    pub fn new(ch: char, opacity: u64) -> (r: Self)
        ensures
            r == (RunChar { ch, opacity }),
    {
        RunChar { ch, opacity }
    }
}

/// Number of fully opaque characters at progress `p` over `n` characters:
/// the integer part of `p * n`, where `p` is in units of [`PROGRESS_SCALE`].
pub open spec fn full_count(p: int, n: int) -> int {
    (p * n) / (PROGRESS_SCALE as int)
}

/// Opacity of the one partially revealed character at progress `p` over `n`
/// characters: the fractional part of `p * n`, in units of [`PROGRESS_SCALE`].
pub open spec fn frac_units(p: int, n: int) -> int {
    (p * n) % (PROGRESS_SCALE as int)
}

/// Opacity of the character at index `i` in the fade-in mode: fully opaque
/// below the integer part of `p * n`, the fractional part exactly at it,
/// transparent above it.
pub open spec fn fade_opacity(p: int, n: int, i: int) -> int {
    if i < full_count(p, n) {
        PROGRESS_SCALE as int
    } else if i == full_count(p, n) {
        frac_units(p, n)
    } else {
        0
    }
}

/// The element the fade-in mode emits for the character at index `i`: the
/// character itself, at its [`fade_opacity`].
pub open spec fn fade_char(text: Seq<char>, p: int, i: int) -> RunChar {
    RunChar { ch: text[i], opacity: fade_opacity(p, text.len() as int, i) as u64 }
}

/// The run the fade-in mode emits at progress `p`: every character of the
/// text, each at its [`fade_opacity`]. Transparent characters are present so
/// that layout positions stay stable across frames.
pub open spec fn fade_run(text: Seq<char>, p: int) -> Seq<RunChar> {
    Seq::new(text.len(), |i: int| fade_char(text, p, i))
}

/// The element the typewriter mode emits for the character at index `i`: the
/// character itself, fully opaque.
pub open spec fn typewriter_char(text: Seq<char>, i: int) -> RunChar {
    RunChar { ch: text[i], opacity: PROGRESS_SCALE }
}

/// The run the typewriter mode emits at progress `p`: only the first
/// `full_count` characters, each fully opaque; the rest are omitted entirely.
pub open spec fn typewriter_run(text: Seq<char>, p: int) -> Seq<RunChar> {
    Seq::new(full_count(p, text.len() as int) as nat, |i: int| typewriter_char(text, i))
}

/// The run emitted at progress `p` under the given mode.
pub open spec fn revealed_run(mode: AnimationType, text: Seq<char>, p: int) -> Seq<RunChar> {
    match mode {
        AnimationType::FadeIn => fade_run(text, p),
        AnimationType::Typewriter => typewriter_run(text, p),
    }
}

/// Progress after one advance step: the elapsed time `dt` is scaled by
/// `speed` (both in units of [`PROGRESS_SCALE`]) and the sum is clamped to
/// full progress.
pub open spec fn stepped_progress(p: int, speed: int, dt: int) -> int {
    let advanced = p + (dt * speed) / (PROGRESS_SCALE as int);
    if advanced >= PROGRESS_SCALE as int {
        PROGRESS_SCALE as int
    } else {
        advanced
    }
}

/// Mathematical state of a [`TextAnimator`]: the text as a sequence of
/// characters, the progress clock and speed in units of [`PROGRESS_SCALE`],
/// the cached finished flag, and the reveal mode.
pub ghost struct AnimatorModel {
    pub text: Seq<char>,
    pub progress: int,
    pub speed: int,
    pub finished: bool,
    pub mode: AnimationType,
}

/// A text-reveal animator: a progress clock over a fixed text, advanced once
/// per frame by the host, and queried for the currently visible styled run.
pub struct TextAnimator {
    text: Vec<char>,
    progress: u64,
    speed: u64,
    animation_finished: bool,
    animation_type: AnimationType,
}

impl View for TextAnimator {
    type V = AnimatorModel;

    closed spec fn view(&self) -> AnimatorModel {
        AnimatorModel {
            text: self.text@,
            progress: self.progress as int,
            speed: self.speed as int,
            finished: self.animation_finished,
            mode: self.animation_type,
        }
    }
}

impl TextAnimator {
    /// State invariant: progress stays inside `[0, PROGRESS_SCALE]`, and the
    /// cached finished flag is set exactly when progress has reached the top.
    pub open spec fn inv(&self) -> bool {
        &&& 0 <= self@.progress <= PROGRESS_SCALE as int
        &&& (self@.finished <==> self@.progress == PROGRESS_SCALE as int)
    }

    /// Creates an animator for `text` with the given fixed-point `speed` and
    /// reveal mode, starting fully unrevealed.
    pub fn new(text: Vec<char>, speed: u64, animation_type: AnimationType) -> (r: Self)
        ensures
            r.inv(),
            r@.text == text@,
            r@.speed == speed as int,
            r@.mode == animation_type,
            r@.progress == 0,
            !r@.finished,
    {
        TextAnimator { text, progress: 0, speed, animation_finished: false, animation_type }
    }

    /// Replaces the speed multiplier; everything else is untouched.
    pub fn set_speed(&mut self, speed: u64)
        ensures
            final(self)@ == (AnimatorModel { speed: speed as int, ..old(self)@ }),
            old(self).inv() ==> final(self).inv(),
    {
        self.speed = speed;
    }

    /// Restarts the animation: progress returns to zero and the finished flag
    /// clears. Text, speed and mode are untouched. This is the only way out
    /// of the finished state.
    pub fn reset(&mut self)
        ensures
            final(self)@ == (AnimatorModel { progress: 0, finished: false, ..old(self)@ }),
            final(self).inv(),
    {
        self.progress = 0;
        self.animation_finished = false;
    }

    /// Advances the progress clock by `dt` (elapsed seconds in units of
    /// [`PROGRESS_SCALE`]), scaled by the configured speed and clamped to
    /// full progress. Once finished, further calls leave the animator
    /// untouched until [`TextAnimator::reset`]; progress never decreases.
    pub fn process_animation(&mut self, dt: u64)
        requires
            old(self).inv(),
        ensures
            final(self).inv(),
            final(self)@.text == old(self)@.text,
            final(self)@.speed == old(self)@.speed,
            final(self)@.mode == old(self)@.mode,
            old(self)@.finished ==> final(self)@ == old(self)@,
            !old(self)@.finished ==> final(self)@.progress == stepped_progress(
                old(self)@.progress,
                old(self)@.speed,
                dt as int,
            ),
            final(self)@.progress >= old(self)@.progress,
    {
        if self.animation_finished {
            return;
        }
        proof {
            let m: int = 0xffff_ffff_ffff_ffff;
            lemma_mul_inequality(dt as int, m, self.speed as int);
            lemma_mul_inequality(self.speed as int, m, m);
            lemma_mul_nonnegative(dt as int, self.speed as int);
            lemma_div_pos_is_pos((dt as int) * (self.speed as int), PROGRESS_SCALE as int);
        }
        let increment: u128 = ((dt as u128) * (self.speed as u128)) / (PROGRESS_SCALE as u128);
        let room: u64 = PROGRESS_SCALE - self.progress;
        if increment >= room as u128 {
            self.progress = PROGRESS_SCALE;
            self.animation_finished = true;
        } else {
            self.progress = self.progress + (increment as u64);
        }
    }

    /// Returns the cached finished flag.
    pub fn is_animation_finished(&self) -> (r: bool)
        ensures
            r == self@.finished,
    {
        self.animation_finished
    }

    /// Returns the current progress in units of [`PROGRESS_SCALE`].
    pub fn progress_units(&self) -> (r: u64)
        ensures
            r as int == self@.progress,
    {
        self.progress
    }

    /// Returns the number of characters in the animated text.
    pub fn char_count(&self) -> (n: usize)
        ensures
            n as int == self@.text.len(),
    {
        self.text.len()
    }

    /// Splits `progress * n` into its integer part (the number of fully
    /// opaque characters) and its fractional part (the opacity of the
    /// character at the boundary), in units of [`PROGRESS_SCALE`].
    fn raw_parts(progress: u64, n: usize) -> (r: (usize, u64))
        requires
            progress <= PROGRESS_SCALE,
        ensures
            r.0 as int == full_count(progress as int, n as int),
            r.1 as int == frac_units(progress as int, n as int),
            r.0 <= n,
    {
        proof {
            lemma_mul_inequality(progress as int, PROGRESS_SCALE as int, n as int);
            lemma_mul_inequality(n as int, 0xffff_ffff_ffff_ffff, PROGRESS_SCALE as int);
            lemma_mul_nonnegative(progress as int, n as int);
            lemma_div_is_ordered(
                (progress as int) * (n as int),
                (PROGRESS_SCALE as int) * (n as int),
                PROGRESS_SCALE as int,
            );
            lemma_div_multiples_vanish(n as int, PROGRESS_SCALE as int);
        }
        let raw: u128 = (progress as u128) * (n as u128);
        let full: u128 = raw / (PROGRESS_SCALE as u128);
        let frac: u128 = raw % (PROGRESS_SCALE as u128);
        (full as usize, frac as u64)
    }

    /// The fade-in run at the current progress: every character of the text,
    /// paired with its opacity. The run's length always equals the text's
    /// character count, so layout positions stay stable across frames.
    pub fn fade_in_text(&self) -> (r: Vec<RunChar>)
        requires
            self.inv(),
        ensures
            r@ == fade_run(self@.text, self@.progress),
            r@.len() == self@.text.len(),
    {
        let n: usize = self.text.len();
        let (full, frac) = Self::raw_parts(self.progress, n);
        let mut run: Vec<RunChar> = Vec::new();
        let mut i: usize = 0;
        while i < n
            invariant
                i <= n,
                n == self@.text.len(),
                n == self.text.len(),
                self.inv(),
                full as int == full_count(self@.progress, n as int),
                frac as int == frac_units(self@.progress, n as int),
                run@.len() == i as int,
                forall|j: int| 0 <= j < i as int ==> run@[j] == fade_run(self@.text, self@.progress)[j],
            decreases n - i,
        {
            let opacity: u64 = if i < full {
                PROGRESS_SCALE
            } else if i == full {
                frac
            } else {
                0
            };
            run.push(RunChar::new(self.text[i], opacity));
            i = i + 1;
        }
        proof {
            assert(run@ =~= fade_run(self@.text, self@.progress));
        }
        run
    }

    /// The typewriter run at the current progress: the first `full_count`
    /// characters at full opacity; the characters not yet reached are omitted
    /// entirely, so the visible text grows left to right.
    pub fn typewriter_text(&self) -> (r: Vec<RunChar>)
        requires
            self.inv(),
        ensures
            r@ == typewriter_run(self@.text, self@.progress),
            r@.len() == full_count(self@.progress, self@.text.len() as int),
    {
        let n: usize = self.text.len();
        let (full, _frac) = Self::raw_parts(self.progress, n);
        let mut run: Vec<RunChar> = Vec::new();
        let mut i: usize = 0;
        while i < full
            invariant
                i <= full,
                full <= n,
                n == self@.text.len(),
                n == self.text.len(),
                full as int == full_count(self@.progress, n as int),
                run@.len() == i as int,
                forall|j: int| 0 <= j < i as int ==> run@[j] == typewriter_run(self@.text, self@.progress)[j],
            decreases full - i,
        {
            run.push(RunChar::new(self.text[i], PROGRESS_SCALE));
            i = i + 1;
        }
        proof {
            assert(run@ =~= typewriter_run(self@.text, self@.progress));
        }
        run
    }

    /// The run to paint this frame, under the animator's reveal mode.
    pub fn visible_run(&self) -> (r: Vec<RunChar>)
        requires
            self.inv(),
        ensures
            r@ == revealed_run(self@.mode, self@.text, self@.progress),
    {
        match self.animation_type {
            AnimationType::FadeIn => self.fade_in_text(),
            AnimationType::Typewriter => self.typewriter_text(),
        }
    }
}

impl Default for TextAnimator {
    /// The default animator: a greeting text, a speed of two and a half in
    /// units of [`PROGRESS_SCALE`], and the fade-in mode.
    fn default() -> (r: Self)
        ensures
            r.inv(),
            r@.text == "Hello, World!"@,
            r@.speed == 2_500_000,
            r@.mode == AnimationType::FadeIn,
            r@.progress == 0,
            !r@.finished,
    {
        let mut text: Vec<char> = Vec::new();
        text.push('H');
        text.push('e');
        text.push('l');
        text.push('l');
        text.push('o');
        text.push(',');
        text.push(' ');
        text.push('W');
        text.push('o');
        text.push('r');
        text.push('l');
        text.push('d');
        text.push('!');
        proof {
            reveal_strlit("Hello, World!");
            assert(text@ =~= "Hello, World!"@);
        }
        TextAnimator::new(text, 2_500_000, AnimationType::FadeIn)
    }
}

/// Law: the fade run always contains one element per character of the text,
/// whatever the progress value, so layout positions never move.
pub proof fn lemma_fade_run_length(text: Seq<char>, p: int)
    ensures
        fade_run(text, p).len() == text.len(),
{
}

/// Law: the typewriter run at progress `p` holds exactly the integer part of
/// `p * n` characters, where `n` is the text's character count.
pub proof fn lemma_typewriter_run_length(text: Seq<char>, p: int)
    requires
        0 <= p,
    ensures
        typewriter_run(text, p).len() == full_count(p, text.len() as int),
{
    lemma_mul_nonnegative(p, text.len() as int);
    lemma_div_pos_is_pos(p * (text.len() as int), PROGRESS_SCALE as int);
}

/// Law: the typewriter run never shrinks as progress grows.
pub proof fn lemma_typewriter_monotone(text: Seq<char>, p1: int, p2: int)
    requires
        0 <= p1 <= p2,
    ensures
        typewriter_run(text, p1).len() <= typewriter_run(text, p2).len(),
{
    let n: int = text.len() as int;
    lemma_mul_nonnegative(p1, n);
    lemma_div_pos_is_pos(p1 * n, PROGRESS_SCALE as int);
    lemma_mul_nonnegative(p2, n);
    lemma_div_pos_is_pos(p2 * n, PROGRESS_SCALE as int);
    lemma_mul_inequality(p1, p2, n);
    lemma_div_is_ordered(p1 * n, p2 * n, PROGRESS_SCALE as int);
}

/// Law (boundary agreement at the start): at zero progress the fade run
/// still holds every character, but each one fully transparent, while the
/// typewriter run is empty.
pub proof fn lemma_boundary_start(text: Seq<char>)
    ensures
        fade_run(text, 0).len() == text.len(),
        forall|i: int| 0 <= i < text.len() ==> (#[trigger] fade_run(text, 0)[i]) == (RunChar {
            ch: text[i],
            opacity: 0,
        }),
        typewriter_run(text, 0).len() == 0,
{
    lemma_basic_div(0, PROGRESS_SCALE as int);
    lemma_small_mod(0nat, PROGRESS_SCALE as nat);
}

/// Law (boundary agreement at the finish): at full progress both modes emit
/// every character of the text at full opacity — the very same run.
pub proof fn lemma_boundary_finish(text: Seq<char>)
    ensures
        fade_run(text, PROGRESS_SCALE as int).len() == text.len(),
        typewriter_run(text, PROGRESS_SCALE as int) == fade_run(text, PROGRESS_SCALE as int),
        forall|i: int| 0 <= i < text.len() ==> (#[trigger] fade_run(
            text,
            PROGRESS_SCALE as int,
        )[i]) == (RunChar { ch: text[i], opacity: PROGRESS_SCALE }),
{
    let n: int = text.len() as int;
    let s: int = PROGRESS_SCALE as int;
    lemma_div_multiples_vanish(n, s);
    assert(full_count(s, n) == n);
    assert(typewriter_run(text, s) =~= fade_run(text, s));
}

/// Law: the visible run is a function of text, mode and progress alone, so
/// after a restart the next run is exactly the run of a freshly built
/// animator with the same text and mode.
pub proof fn lemma_restart_matches_fresh(restarted: TextAnimator, fresh: TextAnimator)
    requires
        restarted@.text == fresh@.text,
        restarted@.mode == fresh@.mode,
        restarted@.progress == 0,
        fresh@.progress == 0,
    ensures
        revealed_run(restarted@.mode, restarted@.text, restarted@.progress) == revealed_run(
            fresh@.mode,
            fresh@.text,
            fresh@.progress,
        ),
{
}

} // verus!
