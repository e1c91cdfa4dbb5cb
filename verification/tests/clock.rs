use flappy_bird::clock::FrameClock;
use flappy_bird::clock::NANOS_PER_SECOND;
use flappy_bird::clock::STEPS_PER_SECOND;

#[test]
fn one_second_pays_out_the_full_rate() {
    let mut c = FrameClock::new();
    assert_eq!(c.steps_due(NANOS_PER_SECOND), STEPS_PER_SECOND);
    assert_eq!(c.residual, 0);
}

#[test]
fn a_short_frame_pays_nothing_and_carries_the_remainder() {
    let mut c = FrameClock::new();
    // Just under one sixtieth of a second: no step due yet.
    assert_eq!(c.steps_due(16_666_666), 0);
    assert_eq!(c.residual, 999_999_960);
    // The next frame's time adds to the carried remainder.
    assert_eq!(c.steps_due(16_666_667), 1);
    assert_eq!(c.residual, 999_999_980);
}

#[test]
fn uneven_frames_lose_no_time() {
    let mut c = FrameClock::new();
    let frames = [3_000_000u64, 40_000_000, 1, 16_666_666, 250_000_000, 7];
    let mut paid = 0u64;
    let mut total = 0u64;
    for &f in frames.iter() {
        paid += c.steps_due(f);
        total += f;
    }
    // Steps paid out so far are exactly the whole sixtieths in the total.
    assert_eq!(paid, total * STEPS_PER_SECOND / NANOS_PER_SECOND);
    assert_eq!(c.residual, total * STEPS_PER_SECOND % NANOS_PER_SECOND);
}
