use sprite_anim::cycle::{cycle_tick, next_frame};
use sprite_anim::timer::RepeatTimer;

#[test]
fn frames_advance_one_by_one() {
    assert_eq!(next_frame(0, 15), 1);
    assert_eq!(next_frame(7, 15), 8);
}

#[test]
fn the_last_frame_wraps_to_the_first() {
    assert_eq!(next_frame(14, 15), 0);
}

#[test]
fn a_single_frame_sheet_stays_on_its_frame() {
    assert_eq!(next_frame(0, 1), 0);
}

#[test]
fn a_full_lap_returns_to_the_start() {
    let start: u32 = 6;
    let mut frame: u32 = start;
    for _ in 0..15 {
        frame = next_frame(frame, 15);
    }
    assert_eq!(frame, start);
}

#[test]
fn cycle_tick_keeps_the_frame_until_the_period_ends() {
    let mut timer = RepeatTimer::new(100_000);
    let frame = cycle_tick(&mut timer, 3, 15, 99_999);
    assert_eq!(frame, 3);
    assert_eq!(timer.elapsed, 99_999);
}

#[test]
fn cycle_tick_moves_on_when_the_period_ends() {
    let mut timer = RepeatTimer::new(100_000);
    let frame = cycle_tick(&mut timer, 3, 15, 100_000);
    assert_eq!(frame, 4);
    assert_eq!(timer.elapsed, 0);
}

#[test]
fn cycle_ticks_play_the_whole_sheet_in_order() {
    let mut timer = RepeatTimer::new(10);
    let mut frame: u32 = 0;
    let mut seen: Vec<u32> = Vec::new();
    for _ in 0..30 {
        frame = cycle_tick(&mut timer, frame, 15, 10);
        seen.push(frame);
    }
    let mut expected: Vec<u32> = Vec::new();
    for i in 1..=30u32 {
        expected.push(i % 15);
    }
    assert_eq!(seen, expected);
}
