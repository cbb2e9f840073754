use sprite_anim::timer::RepeatTimer;

#[test]
fn a_new_timer_has_nothing_elapsed() {
    let t = RepeatTimer::new(100);
    assert_eq!(t.period, 100);
    assert_eq!(t.elapsed, 0);
}

#[test]
fn short_ticks_accumulate_without_finishing() {
    let mut t = RepeatTimer::new(100);
    assert_eq!(t.tick(30), 0);
    assert_eq!(t.tick(30), 0);
    assert_eq!(t.tick(30), 0);
    assert_eq!(t.elapsed, 90);
}

#[test]
fn the_remainder_carries_over_a_finished_period() {
    let mut t = RepeatTimer::new(100);
    assert_eq!(t.tick(130), 1);
    assert_eq!(t.elapsed, 30);
}

#[test]
fn one_tick_can_finish_several_periods() {
    let mut t = RepeatTimer::new(10);
    assert_eq!(t.tick(25), 2);
    assert_eq!(t.elapsed, 5);
}

#[test]
fn a_tick_landing_on_the_boundary_leaves_nothing_over() {
    let mut t = RepeatTimer::new(100);
    assert_eq!(t.tick(60), 0);
    assert_eq!(t.tick(40), 1);
    assert_eq!(t.elapsed, 0);
}

#[test]
fn a_period_of_one_finishes_every_unit() {
    let mut t = RepeatTimer::new(1);
    assert_eq!(t.tick(5), 5);
    assert_eq!(t.elapsed, 0);
}
