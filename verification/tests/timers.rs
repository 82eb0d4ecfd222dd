use arcade_runner::awards::AwardTimer;
use arcade_runner::effects::{PeriodicInvisibility, VisualEffect, VisualEffects};
use arcade_runner::systems::gameplay::cleanup_effects;
use arcade_runner::systems::visual_effects::run_visual_effects;
use arcade_runner::effects::{ActiveEffects, EntityEffects};
use arcade_runner::timer::Timer;

#[test]
fn one_shot_timer_latches() {
    let mut t = Timer::new(10_000, false);
    assert_eq!(
        t,
        Timer { duration: 10_000, elapsed: 0, repeating: false, finished: false, times_finished: 0 }
    );
    t.tick(250);
    assert_eq!(t.elapsed, 250);
    assert!(!t.finished());
    assert!(!t.just_finished());
    t.tick(500_000);
    assert_eq!(t.elapsed, 10_000);
    assert!(t.finished());
    assert!(t.just_finished());
    assert_eq!(t.times_finished, 1);
    t.tick(1_000);
    assert_eq!(t.elapsed, 10_000);
    assert!(t.finished());
    assert!(!t.just_finished());
    t.reset();
    assert_eq!(
        t,
        Timer { duration: 10_000, elapsed: 0, repeating: false, finished: false, times_finished: 0 }
    );
}

#[test]
fn repeating_timer_starts_over() {
    let mut t = Timer::new(2_000, true);
    t.tick(750);
    assert_eq!(t.elapsed, 750);
    assert!(!t.finished());
    t.tick(1_500);
    assert_eq!(t.elapsed, 250);
    assert!(t.finished());
    assert!(t.just_finished());
    assert_eq!(t.times_finished, 1);
    t.tick(1_000);
    assert_eq!(t.elapsed, 1_250);
    assert!(!t.finished());
    assert!(!t.just_finished());
    t.tick(7_000);
    assert_eq!(t.elapsed, 250);
    assert_eq!(t.times_finished, 4);
    assert!(t.finished());
}

#[test]
fn timer_finishes_exactly_at_its_duration() {
    let mut t = Timer::new(100, false);
    t.tick(99);
    assert!(!t.finished());
    t.tick(1);
    assert!(t.finished());
    let mut r = Timer::new(100, true);
    r.tick(100);
    assert!(r.finished());
    assert_eq!(r.elapsed, 0);
    assert_eq!(r.times_finished, 1);
}

#[test]
fn timer_without_duration_fires_at_every_tick() {
    let mut r = Timer::new(0, true);
    r.tick(0);
    assert!(r.finished());
    assert!(r.just_finished());
    assert_eq!(r.times_finished, u32::MAX);
    assert_eq!(r.elapsed, 0);
    r.tick(16);
    assert!(r.finished());
    assert!(r.just_finished());
    assert_eq!(r.times_finished, u32::MAX);
    assert_eq!(r.elapsed, 0);
    let mut o = Timer::new(0, false);
    o.tick(0);
    assert!(o.finished());
    assert!(o.just_finished());
}

#[test]
fn timer_takes_the_longest_times() {
    let mut r = Timer::new(1, true);
    r.tick(u64::MAX);
    assert_eq!(r.times_finished, u32::MAX);
    assert_eq!(r.elapsed, 0);
    let mut t = Timer::new(u64::MAX, true);
    t.tick(u64::MAX - 1);
    assert!(!t.finished());
    t.tick(u64::MAX);
    assert!(t.finished());
    assert_eq!(t.elapsed, 18_446_744_073_707);
    assert_eq!(t.times_finished, 1);
    let mut wrapped = Timer::new(1, true);
    wrapped.tick(1 << 32);
    assert!(wrapped.finished());
    assert!(!wrapped.just_finished());
    assert_eq!(wrapped.times_finished, 0);
    let mut exact = Timer::new(18_446_744_073_709, true);
    exact.tick(18_446_744_073_708);
    exact.tick(18_446_744_073_709);
    assert_eq!(exact.elapsed, 18_446_744_073_708);
    assert_eq!(exact.times_finished, 1);
}

fn next(seed: &mut u64) -> u64 {
    *seed = seed.wrapping_mul(6364136223846793005).wrapping_add(1442695040888963407);
    *seed ^ (*seed >> 29)
}

fn sized(seed: &mut u64) -> u64 {
    let value = next(seed);
    match next(seed) % 4 {
        0 => value % 100,
        1 => value % 100_000_000,
        2 => value >> 16,
        _ => value,
    }
}

#[test]
fn tick_is_what_its_contract_says() {
    let mut seed: u64 = 11;
    for round in 0..20_000 {
        let duration = sized(&mut seed);
        let elapsed = sized(&mut seed);
        let delta = sized(&mut seed);
        let repeating = round % 2 == 0;
        let mut timer =
            Timer { duration, elapsed, repeating, finished: false, times_finished: 7 };
        timer.tick(delta);
        let total = elapsed as u128 + delta as u128;
        let expected = if total < duration as u128 {
            (total as u64, false, 0)
        } else if !repeating {
            (duration, true, 1)
        } else if duration == 0 {
            (0, true, u32::MAX)
        } else {
            let left = (total % duration as u128) * 1_000_000 % (1u128 << 64) / 1_000_000;
            let cycles = (total / duration as u128) % (1u128 << 32);
            (left as u64, true, cycles as u32)
        };
        assert_eq!((timer.elapsed, timer.finished, timer.times_finished), expected);
        assert_eq!(timer.duration, duration);
        assert_eq!(timer.repeating, repeating);
    }
}

#[test]
fn finished_one_shot_timer_only_forgets_that_it_just_finished() {
    let mut timer =
        Timer { duration: 50, elapsed: 20, repeating: false, finished: true, times_finished: 1 };
    timer.tick(1_000);
    assert_eq!(
        timer,
        Timer { duration: 50, elapsed: 20, repeating: false, finished: true, times_finished: 0 }
    );
}

#[test]
fn set_duration_keeps_progress() {
    let mut t = Timer::new(1_000, true);
    t.tick(400);
    t.set_duration(300);
    assert_eq!(t.elapsed, 400);
    assert_eq!(t.duration, 300);
    t.tick(0);
    assert!(t.finished());
    assert_eq!(t.elapsed, 100);
}

#[test]
fn award_timer_draws_from_its_range() {
    for _ in 0..200 {
        let timer = AwardTimer::new(5_000, 15_000);
        assert!(5_000 <= timer.timer.duration && timer.timer.duration < 15_000);
        assert!(timer.timer.repeating);
        assert_eq!(timer.timer.elapsed, 0);
        assert!(!timer.timer.finished);
        assert_eq!(timer.min_time, 5_000);
        assert_eq!(timer.max_time, 15_000);
    }
}

#[test]
fn award_timer_with_one_choice() {
    let mut timer = AwardTimer::new(7, 8);
    assert_eq!(timer.timer.duration, 7);
    timer.timer.tick(3);
    timer.min_time = 40;
    timer.max_time = 41;
    timer.refill();
    assert_eq!(timer.timer.duration, 40);
    assert_eq!(timer.timer.elapsed, 3);
    timer.refill_with(9);
    assert_eq!(timer.timer.duration, 9);
    assert_eq!(timer.timer.elapsed, 3);
}

#[test]
fn award_timer_draws_differ() {
    let first = AwardTimer::new(0, u64::MAX).timer.duration;
    let mut differed = false;
    for _ in 0..50 {
        if AwardTimer::new(0, u64::MAX).timer.duration != first {
            differed = true;
        }
    }
    assert!(differed);
}

#[test]
fn blinking_flips_and_settles() {
    let mut effect = PeriodicInvisibility::new(200, 3_000);
    let mut visible = true;
    effect.tick(100);
    effect.apply(&mut visible);
    assert!(visible);
    effect.tick(100);
    effect.apply(&mut visible);
    assert!(!visible);
    effect.tick(100);
    effect.apply(&mut visible);
    assert!(!visible);
    effect.tick(100);
    effect.apply(&mut visible);
    assert!(visible);
    assert!(!effect.is_expired());
    effect.tick(200);
    effect.apply(&mut visible);
    assert!(!visible);
    effect.tick(2_400);
    effect.apply(&mut visible);
    assert!(visible);
    assert!(effect.is_expired());
    visible = false;
    effect.tick(200);
    effect.apply(&mut visible);
    assert!(visible);
}

#[test]
fn visual_effects_run_and_leave() {
    let mut visual_effects = VisualEffects::new();
    visual_effects
        .effects
        .push(VisualEffect::PeriodicInvisibility(PeriodicInvisibility::new(200, 1_000)));
    visual_effects
        .effects
        .push(VisualEffect::PeriodicInvisibility(PeriodicInvisibility::new(300, 400)));
    let mut effects = ActiveEffects::new();
    let mut entity_effects = EntityEffects::default();
    let mut visible = true;

    run_visual_effects(200, &mut visual_effects, &mut visible);
    assert!(!visible);
    cleanup_effects(200, &mut entity_effects, &mut effects, &mut visual_effects);
    assert_eq!(visual_effects.effects.len(), 2);

    run_visual_effects(200, &mut visual_effects, &mut visible);
    assert!(visible);
    cleanup_effects(200, &mut entity_effects, &mut effects, &mut visual_effects);
    assert_eq!(visual_effects.effects.len(), 1);
    assert_eq!(
        visual_effects.effects[0],
        VisualEffect::PeriodicInvisibility(PeriodicInvisibility {
            local_timer: Timer {
                duration: 200,
                elapsed: 0,
                repeating: true,
                finished: true,
                times_finished: 1
            },
            global_timer: Timer {
                duration: 1_000,
                elapsed: 400,
                repeating: false,
                finished: false,
                times_finished: 0
            },
        })
    );

    run_visual_effects(600, &mut visual_effects, &mut visible);
    assert!(visible);
    assert!(visual_effects.effects[0].is_expired());
    visual_effects.cleanup();
    assert_eq!(visual_effects.effects.len(), 0);
}
