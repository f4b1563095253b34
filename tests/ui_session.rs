use gpui_tetris::game::input::GameAction;
use gpui_tetris::game::state::GameState;
use gpui_tetris::ui::ui_state::{action_label, UiState};

#[test]
fn start_game_sets_started_and_unpauses() {
    let state = GameState::new(1, Default::default());
    let mut ui = UiState::new(state);

    ui.start_game();

    assert!(ui.started);
    assert!(!ui.show_settings);
    assert!(!ui.state.paused);
}

#[test]
fn toggle_settings_pauses_when_opened() {
    let state = GameState::new(1, Default::default());
    let mut ui = UiState::new(state);
    ui.started = true;

    ui.toggle_settings();

    assert!(ui.show_settings);
    assert!(ui.state.paused);
}

#[test]
fn receive_action_records_last_action() {
    let state = GameState::new(1, Default::default());
    let mut ui = UiState::new(state);

    ui.receive_action(GameAction::Pause);

    assert_eq!(ui.last_action, Some(GameAction::Pause));
}

#[test]
fn title_screen_starts_only_on_restart_or_hard_drop() {
    let mut ui = UiState::new(GameState::new(1, Default::default()));
    ui.apply_action(GameAction::MoveLeft, false);
    assert!(!ui.started);
    assert_eq!(ui.last_action, None);
    assert_eq!(ui.status_label(), "Title");
    ui.apply_action(GameAction::HardDrop, true);
    assert!(ui.started);
    assert_eq!(ui.state.score, 0);
    assert_eq!(ui.status_label(), "Playing");
    assert!(ui.can_accept_game_input());
}

#[test]
fn settings_screen_swallows_actions() {
    let mut ui = UiState::new(GameState::new(1, Default::default()));
    ui.start_game();
    ui.toggle_settings();
    let x = ui.state.active.x;
    ui.receive_action(GameAction::MoveLeft);
    assert_eq!(ui.state.active.x, x);
    assert_eq!(ui.status_label(), "Settings");
    ui.close_settings();
    assert_eq!(ui.status_label(), "Paused");
}

#[test]
fn volume_stays_between_zero_and_hundred() {
    let mut ui = UiState::new(GameState::new(1, Default::default()));
    assert_eq!(ui.effective_volume_percent(), 70);
    ui.toggle_mute();
    assert_eq!(ui.effective_volume_percent(), 0);
    ui.adjust_volume(50);
    assert!(!ui.sfx_muted);
    assert_eq!(ui.sfx_volume_percent, 100);
    ui.adjust_volume(-250);
    assert_eq!(ui.sfx_volume_percent, 0);
    ui.reset_settings();
    assert_eq!(ui.sfx_volume_percent, 70);
}

#[test]
fn focus_loss_pauses_a_running_game() {
    let mut ui = UiState::new(GameState::new(1, Default::default()));
    ui.pause_from_focus_loss();
    assert!(!ui.state.paused);
    ui.start_game();
    ui.pause_from_focus_loss();
    assert!(ui.state.paused);
    assert_eq!(ui.ruleset_label(), "Classic");
    assert_eq!(action_label(&GameAction::RotateCcw), "Rotate CCW");
}
