use egui_text_animation::{AnimationType, RunChar, TextAnimator, PROGRESS_SCALE};

fn ab_animator(mode: AnimationType) -> TextAnimator {
    TextAnimator::new(vec!['A', 'B'], PROGRESS_SCALE, mode)
}

fn opacities(run: &[RunChar]) -> Vec<u64> {
    run.iter().map(|rc| rc.opacity).collect()
}

fn chars(run: &[RunChar]) -> Vec<char> {
    run.iter().map(|rc| rc.ch).collect()
}

#[test]
fn runs_at_zero_progress() {
    let fade = ab_animator(AnimationType::FadeIn);
    let run = fade.visible_run();
    assert_eq!(chars(&run), vec!['A', 'B']);
    assert_eq!(opacities(&run), vec![0, 0]);

    let typewriter = ab_animator(AnimationType::Typewriter);
    assert!(typewriter.visible_run().is_empty());
}

#[test]
fn runs_at_half_progress() {
    let mut fade = ab_animator(AnimationType::FadeIn);
    fade.process_animation(500_000);
    assert_eq!(fade.progress_units(), 500_000);
    let run = fade.visible_run();
    assert_eq!(chars(&run), vec!['A', 'B']);
    assert_eq!(opacities(&run), vec![PROGRESS_SCALE, 0]);

    let mut typewriter = ab_animator(AnimationType::Typewriter);
    typewriter.process_animation(500_000);
    let run = typewriter.visible_run();
    assert_eq!(chars(&run), vec!['A']);
    assert_eq!(opacities(&run), vec![PROGRESS_SCALE]);
}

#[test]
fn runs_at_three_quarters_progress() {
    let mut fade = ab_animator(AnimationType::FadeIn);
    fade.process_animation(750_000);
    let run = fade.visible_run();
    assert_eq!(chars(&run), vec!['A', 'B']);
    assert_eq!(opacities(&run), vec![PROGRESS_SCALE, 500_000]);

    let mut typewriter = ab_animator(AnimationType::Typewriter);
    typewriter.process_animation(750_000);
    assert_eq!(chars(&typewriter.visible_run()), vec!['A']);
}

#[test]
fn runs_at_full_progress() {
    let mut fade = ab_animator(AnimationType::FadeIn);
    fade.process_animation(1_000_000);
    assert!(fade.is_animation_finished());
    let run = fade.visible_run();
    assert_eq!(chars(&run), vec!['A', 'B']);
    assert_eq!(opacities(&run), vec![PROGRESS_SCALE, PROGRESS_SCALE]);

    let mut typewriter = ab_animator(AnimationType::Typewriter);
    typewriter.process_animation(1_000_000);
    assert!(typewriter.is_animation_finished());
    let run = typewriter.visible_run();
    assert_eq!(chars(&run), vec!['A', 'B']);
    assert_eq!(opacities(&run), vec![PROGRESS_SCALE, PROGRESS_SCALE]);
}

#[test]
fn dt_sequence_finishes_on_fourth_call() {
    let mut a = ab_animator(AnimationType::FadeIn);
    let expected = [300_000u64, 600_000, 900_000, 1_000_000];
    for (step, want) in expected.iter().enumerate() {
        a.process_animation(300_000);
        assert_eq!(a.progress_units(), *want);
        assert_eq!(a.is_animation_finished(), step == 3);
    }
}

#[test]
fn progress_is_monotonic_and_clamped() {
    let mut a = TextAnimator::new(vec!['x', 'y', 'z'], 777_777, AnimationType::Typewriter);
    let mut last = a.progress_units();
    for dt in [0u64, 1, 250_000, 3, 0, 900_000, u64::MAX, 12] {
        a.process_animation(dt);
        let now = a.progress_units();
        assert!(now >= last);
        assert!(now <= PROGRESS_SCALE);
        last = now;
    }
}

#[test]
fn finished_advance_is_noop() {
    let mut a = ab_animator(AnimationType::FadeIn);
    a.process_animation(2_000_000);
    assert!(a.is_animation_finished());
    let run_at_finish = a.visible_run();
    for dt in [0u64, 1, 1_000_000, u64::MAX] {
        a.process_animation(dt);
        assert_eq!(a.progress_units(), PROGRESS_SCALE);
        assert!(a.is_animation_finished());
        assert_eq!(a.visible_run(), run_at_finish);
    }
}

#[test]
fn restart_resets_cleanly() {
    let fresh = ab_animator(AnimationType::Typewriter);
    let fresh_run = fresh.visible_run();

    let mut a = ab_animator(AnimationType::Typewriter);
    a.process_animation(2_000_000);
    assert!(a.is_animation_finished());
    a.reset();
    assert!(!a.is_animation_finished());
    assert_eq!(a.progress_units(), 0);
    assert_eq!(a.visible_run(), fresh_run);
}

#[test]
fn fade_run_length_is_stable() {
    let text: Vec<char> = "héllo, 世界!".chars().collect();
    let n = text.len();
    let mut a = TextAnimator::new(text, PROGRESS_SCALE, AnimationType::FadeIn);
    assert_eq!(a.char_count(), n);
    assert_eq!(a.visible_run().len(), n);
    for _ in 0..7 {
        a.process_animation(170_000);
        assert_eq!(a.visible_run().len(), n);
    }
}

#[test]
fn typewriter_run_grows_by_floor() {
    let mut a = TextAnimator::new(vec!['a', 'b', 'c', 'd'], PROGRESS_SCALE, AnimationType::Typewriter);
    // expected length is floor(progress * 4 / PROGRESS_SCALE)
    let steps = [
        (250_000u64, 1usize), // progress 0.25 -> 1.0 characters
        (50_000, 1),          // progress 0.30 -> 1.2
        (200_000, 2),         // progress 0.50 -> 2.0
        (400_000, 3),         // progress 0.90 -> 3.6
        (100_000, 4),         // progress 1.00 -> 4.0
    ];
    let mut last_len = a.visible_run().len();
    assert_eq!(last_len, 0);
    for (dt, want) in steps {
        a.process_animation(dt);
        let len = a.visible_run().len();
        assert_eq!(len, want);
        assert!(len >= last_len);
        last_len = len;
    }
}

#[test]
fn empty_text_degenerates_to_empty_runs() {
    let mut fade = TextAnimator::new(Vec::new(), PROGRESS_SCALE, AnimationType::FadeIn);
    assert!(fade.visible_run().is_empty());
    fade.process_animation(1_000_000);
    assert!(fade.is_animation_finished());
    assert!(fade.visible_run().is_empty());

    let typewriter = TextAnimator::new(Vec::new(), PROGRESS_SCALE, AnimationType::Typewriter);
    assert!(typewriter.visible_run().is_empty());
}

#[test]
fn zero_speed_never_finishes() {
    let mut a = TextAnimator::new(vec!['A', 'B'], 0, AnimationType::Typewriter);
    for _ in 0..5 {
        a.process_animation(u64::MAX);
        assert_eq!(a.progress_units(), 0);
        assert!(!a.is_animation_finished());
    }
}

#[test]
fn set_speed_changes_the_rate() {
    // speed 2.5: a fifth of a second advances progress by half
    let mut a = TextAnimator::new(vec!['A', 'B'], 2_500_000, AnimationType::FadeIn);
    a.process_animation(200_000);
    assert_eq!(a.progress_units(), 500_000);
    // speed 0.5: the same fifth of a second now advances by a tenth
    a.set_speed(500_000);
    a.process_animation(200_000);
    assert_eq!(a.progress_units(), 600_000);
}

#[test]
fn default_animator_is_fade_in_greeting() {
    let a = TextAnimator::default();
    assert_eq!(a.char_count(), "Hello, World!".chars().count());
    assert_eq!(a.progress_units(), 0);
    assert!(!a.is_animation_finished());
    let run = a.visible_run();
    assert_eq!(run.len(), 13);
    assert_eq!(chars(&run).into_iter().collect::<String>(), "Hello, World!");
    assert!(run.iter().all(|rc| rc.opacity == 0));
}

#[test]
fn fractional_boundary_character_is_never_double_counted() {
    // progress 0.5 over two characters gives raw = 1.0 exactly: the first
    // character is fully opaque and the boundary character gets fraction 0,
    // never a second full-opacity character.
    let mut a = ab_animator(AnimationType::FadeIn);
    a.process_animation(500_000);
    let run = a.visible_run();
    assert_eq!(opacities(&run), vec![PROGRESS_SCALE, 0]);
}
