use sprite_anim::input::{bound_action, Action, ActionInput};
use sprite_anim::loading::LoadState;
use sprite_anim::movement::horizontal_step;

#[test]
fn pressed_reads_the_matching_flag() {
    let input = ActionInput { charge: true, right: false, left: true };
    assert!(input.pressed(Action::Charge));
    assert!(!input.pressed(Action::Right));
    assert!(input.pressed(Action::Left));
}

#[test]
fn right_moves_one_unit_right() {
    let input = ActionInput { charge: false, right: true, left: false };
    assert_eq!(horizontal_step(&input), 1);
}

#[test]
fn left_moves_one_unit_left() {
    let input = ActionInput { charge: false, right: false, left: true };
    assert_eq!(horizontal_step(&input), -1);
}

#[test]
fn right_wins_when_both_directions_are_held() {
    let input = ActionInput { charge: true, right: true, left: true };
    assert_eq!(horizontal_step(&input), 1);
}

#[test]
fn nothing_pressed_stands_still() {
    let input = ActionInput { charge: true, right: false, left: false };
    assert_eq!(horizontal_step(&input), 0);
}

#[test]
fn the_three_demo_keys_are_bound() {
    assert_eq!(bound_action('o'), Some(Action::Charge));
    assert_eq!(bound_action('a'), Some(Action::Left));
    assert_eq!(bound_action('d'), Some(Action::Right));
}

#[test]
fn other_keys_are_unbound() {
    assert_eq!(bound_action('w'), None);
    assert_eq!(bound_action('O'), None);
    assert_eq!(bound_action(' '), None);
}

#[test]
fn loading_starts_by_loading_assets() {
    assert!(matches!(LoadState::default(), LoadState::AssetLoading));
}

#[test]
fn loading_continues_to_the_running_state_and_stays() {
    let s = LoadState::default().advance();
    assert!(matches!(s, LoadState::Next));
    assert!(matches!(s.advance(), LoadState::Next));
}
