use gpui_tetris::game::input::GameAction;
use gpui_tetris::ui::input::{InputState, PadAxis, PadButton};

#[test]
fn keyboard_press_emits_single_move() {
    let mut input = InputState::new();
    let actions = input.set_keyboard_left(true);

    assert_eq!(actions.len(), 1);
    assert_eq!(actions[0].action, GameAction::MoveLeft);
    assert!(actions[0].record);
}

#[test]
fn repeat_emits_after_das_and_arr() {
    let mut input = InputState::new();
    let _ = input.set_keyboard_left(true);

    let actions = input.apply_repeats(150, true);
    assert!(actions.is_empty());

    let actions = input.apply_repeats(50, true);
    assert_eq!(actions.len(), 1);
    assert_eq!(actions[0].action, GameAction::MoveLeft);
}

#[test]
fn last_pressed_direction_wins_when_both_held() {
    let mut input = InputState::new();
    let _ = input.set_keyboard_left(true);
    let actions = input.set_keyboard_right(true);
    assert_eq!(actions.len(), 1);
    assert_eq!(actions[0].action, GameAction::MoveRight);
    // both held: the direction remembered is left (the last one held alone)
    let actions = input.apply_repeats(200, true);
    assert_eq!(actions.len(), 1);
    assert!(actions.iter().all(|a| a.action == GameAction::MoveLeft));
}

#[test]
fn repeats_stop_while_input_is_not_accepted() {
    let mut input = InputState::new();
    let _ = input.set_keyboard_left(true);
    assert!(input.apply_repeats(1000, false).is_empty());
    assert!(input.apply_repeats(1000, true).is_empty());
}

#[test]
fn gamepad_buttons_fire_silent_actions_and_holds() {
    let mut input = InputState::new();
    let actions = input.handle_controller_button(PadButton::North, true);
    assert_eq!(actions.len(), 1);
    assert_eq!(actions[0].action, GameAction::HardDrop);
    assert!(!actions[0].record);

    assert!(input.handle_controller_button(PadButton::North, false).is_empty());

    let actions = input.handle_controller_button(PadButton::DPadDown, true);
    assert_eq!(actions.len(), 1);
    assert_eq!(actions[0].action, GameAction::SoftDrop);
    let actions = input.apply_repeats(100, true);
    assert_eq!(actions.len(), 2);

    let actions = input.handle_controller_axis(PadAxis::LeftStickX, false, true);
    assert_eq!(actions.len(), 1);
    assert_eq!(actions[0].action, GameAction::MoveRight);

    input.clear_focus_state();
    assert!(input.apply_repeats(1000, true).is_empty());
}
