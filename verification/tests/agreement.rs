use arcade_runner::timer::Timer;
use bevy::time::TimerMode;
use std::time::Duration;

fn next(seed: &mut u64) -> u64 {
    *seed = seed.wrapping_mul(6364136223846793005).wrapping_add(1442695040888963407);
    *seed >> 33
}

fn agree(ours: &Timer, theirs: &bevy::time::Timer) {
    assert_eq!(ours.finished(), theirs.finished());
    assert_eq!(ours.just_finished(), theirs.just_finished());
    assert_eq!(ours.times_finished, theirs.times_finished_this_tick());
    assert_eq!(ours.elapsed as u128, theirs.elapsed().as_millis());
    assert_eq!(ours.duration as u128, theirs.duration().as_millis());
}

#[test]
fn timer_ticks_like_the_engine_timer() {
    let mut seed: u64 = 7;
    for round in 0..400 {
        let duration = next(&mut seed) % 50;
        let repeating = round % 2 == 0;
        let mode = if repeating { TimerMode::Repeating } else { TimerMode::Once };
        let mut ours = Timer::new(duration, repeating);
        let mut theirs = bevy::time::Timer::new(Duration::from_millis(duration), mode);
        agree(&ours, &theirs);
        for step in 0..40 {
            let delta = next(&mut seed) % 120;
            ours.tick(delta);
            theirs.tick(Duration::from_millis(delta));
            agree(&ours, &theirs);
            if step % 13 == 12 {
                let changed = next(&mut seed) % 50;
                ours.set_duration(changed);
                theirs.set_duration(Duration::from_millis(changed));
                agree(&ours, &theirs);
            }
            if step % 17 == 16 {
                ours.reset();
                theirs.reset();
                agree(&ours, &theirs);
            }
        }
    }
}
