use gpui_tetris::audio::sound_event_to_asset;
use gpui_tetris::game::board::{Board, Cell, BOARD_HEIGHT, BOARD_WIDTH};
use gpui_tetris::game::input::{GameAction, RepeatConfig, RepeatState};
use gpui_tetris::game::pieces::{Rotation, Tetromino, TetrominoType};
use gpui_tetris::game::rng::{ensure_queue, refill_bag, SimpleRng};
use gpui_tetris::game::state::{GameConfig, GameState, Ruleset, SoundEvent, TSpinKind};

const ALL_KINDS: [TetrominoType; 7] = [
    TetrominoType::I,
    TetrominoType::O,
    TetrominoType::T,
    TetrominoType::S,
    TetrominoType::Z,
    TetrominoType::J,
    TetrominoType::L,
];

fn modern() -> GameConfig {
    GameConfig {
        ruleset: Ruleset::Modern,
        ..GameConfig::default()
    }
}

fn fill(board: &mut Board, x: usize, y: usize) {
    board.cells[y][x].filled = true;
    board.cells[y][x].kind = Some(TetrominoType::Z);
}

#[test]
fn generator_returns_high_bits_of_state() {
    let mut rng = SimpleRng::new(1);
    assert_eq!(rng.next_u32(), 0);
    assert_eq!(rng.state, 1015568748);
    assert_eq!(rng.next_u32(), 393586);
    assert_eq!(rng.next_u32(), 2299322318);
    assert_eq!(rng.state, 9875514160938615166);
}

#[test]
fn next_range_of_zero_draws_nothing() {
    let mut rng = SimpleRng::new(42);
    assert_eq!(rng.next_range(0), 0);
    assert_eq!(rng.state, 42);
    let v = rng.next_range(7);
    assert!(v < 7);
    assert_ne!(rng.state, 42);
}

#[test]
fn every_refill_is_a_permutation_of_the_seven_kinds() {
    for seed in 0..200u64 {
        let mut rng = SimpleRng::new(seed.wrapping_mul(0x9E37_79B9_7F4A_7C15));
        let mut queue = vec![TetrominoType::O, TetrominoType::O];
        refill_bag(&mut rng, &mut queue);
        assert_eq!(queue.len(), 9);
        for kind in ALL_KINDS.iter() {
            assert_eq!(queue[2..].iter().filter(|k| *k == kind).count(), 1);
        }
    }
}

#[test]
fn ensure_queue_adds_one_bag_only_when_short() {
    let mut rng = SimpleRng::new(9);
    let mut queue = vec![TetrominoType::I; 5];
    ensure_queue(&mut rng, &mut queue);
    assert_eq!(queue.len(), 5);
    assert_eq!(rng.state, 9);

    let mut queue = vec![TetrominoType::I; 4];
    ensure_queue(&mut rng, &mut queue);
    assert_eq!(queue.len(), 11);
}

#[test]
fn queue_keeps_lookahead_through_many_spawns() {
    for seed in 0..20u64 {
        let mut state = GameState::new(seed, GameConfig::default());
        assert!(state.next_queue.len() >= 5);
        for _ in 0..40 {
            let expected = state.next_queue[0];
            state.board = Board::new();
            state.spawn_next();
            assert_eq!(state.active.kind, expected);
            assert!(state.next_queue.len() >= 5);
        }
    }
}

#[test]
fn same_seed_gives_same_pieces() {
    let a = GameState::new(77, GameConfig::default());
    let b = GameState::new(77, GameConfig::default());
    assert_eq!(a.active, b.active);
    assert_eq!(a.next_queue, b.next_queue);
}

#[test]
fn drop_interval_table_and_floors() {
    let mut state = GameState::new(1, GameConfig::default());
    let expected = [1000u64, 800, 650, 500, 400, 320, 250, 200, 160, 120, 120];
    let mut previous = u64::MAX;
    for (level, want) in expected.iter().enumerate() {
        state.level = level as u32;
        let got = state.drop_interval_ms(false);
        assert_eq!(got, *want);
        assert!(got <= previous);
        previous = got;
    }
    state.level = 0;
    assert_eq!(state.drop_interval_ms(true), 100);
    state.soft_drop_multiplier = 0;
    assert_eq!(state.drop_interval_ms(true), 1000);
    state.soft_drop_multiplier = 5000;
    assert_eq!(state.drop_interval_ms(true), 1);
    state.base_drop_ms = 50;
    assert_eq!(state.drop_interval_ms(false), 100);
}

#[test]
fn lock_happens_exactly_at_the_delay() {
    let config = GameConfig {
        lock_delay_ms: 500,
        ..GameConfig::default()
    };
    let mut state = GameState::new(3, config);
    state.active = Tetromino::new(TetrominoType::O, 3, BOARD_HEIGHT as i32 - 2);
    state.tick(499, false);
    assert_eq!(state.lock_timer_ms, 499);
    assert!(!state.board.cells[BOARD_HEIGHT - 1][4].filled);
    state.tick(1, false);
    assert_eq!(state.lock_timer_ms, 0);
    assert!(state.board.cells[BOARD_HEIGHT - 1][4].filled);
    assert_eq!(state.board.cells[BOARD_HEIGHT - 1][4].kind, Some(TetrominoType::O));
    assert_eq!(state.active.y, 0);
    assert!(state.landing_flash_active());
}

#[test]
fn back_to_back_with_level_multiplier() {
    let mut state = GameState::new(2, modern());
    state.level = 1;
    state.lines = 10;
    state.apply_line_clear(4, TSpinKind::NoSpin);
    assert_eq!(state.score, 2400);
    state.apply_line_clear(4, TSpinKind::NoSpin);
    // second clear: (1200 * 3 / 2 + 50) * 2
    assert_eq!(state.score, 2400 + 3700);
    assert!(state.back_to_back);
    assert_eq!(state.combo, 1);
    assert_eq!(state.lines, 18);
}

#[test]
fn non_clearing_lock_breaks_combo_and_back_to_back() {
    let mut state = GameState::new(2, modern());
    state.apply_line_clear(4, TSpinKind::NoSpin);
    assert_eq!(state.combo, 0);
    state.apply_line_clear(0, TSpinKind::NoSpin);
    assert_eq!(state.combo, -1);
    assert!(!state.back_to_back);
    assert_eq!(state.score, 1200);
    assert!(state.take_sound_events().contains(&SoundEvent::LineClear(4)));
}

#[test]
fn classic_rules_ignore_t_spins_and_combos() {
    let mut state = GameState::new(2, GameConfig::default());
    state.apply_line_clear(1, TSpinKind::Full);
    state.apply_line_clear(1, TSpinKind::Full);
    assert_eq!(state.score, 80);
    assert_eq!(state.combo, -1);
    assert!(!state.back_to_back);
}

#[test]
fn full_t_spin_single_scores_its_table() {
    let mut state = GameState::new(2, modern());
    state.apply_line_clear(1, TSpinKind::Full);
    assert_eq!(state.score, 800);
    assert!(state.back_to_back);
    assert_eq!(state.line_clear_timer_ms, 180);
}

#[test]
fn t_spin_kind_needs_a_rotation_first() {
    let mut state = GameState::new(3, modern());
    state.active = Tetromino::new(TetrominoType::T, 3, BOARD_HEIGHT as i32 - 3);
    state.active.rotation = Rotation::East;
    fill(&mut state.board, 5, BOARD_HEIGHT - 3);
    fill(&mut state.board, 5, BOARD_HEIGHT - 1);
    fill(&mut state.board, 3, BOARD_HEIGHT - 3);
    state.last_action_rotate = false;
    assert_eq!(state.t_spin_kind(), TSpinKind::NoSpin);
    state.last_action_rotate = true;
    assert_eq!(state.t_spin_kind(), TSpinKind::Full);
}

#[test]
fn rotate_cw_then_ccw_returns_to_start() {
    for kind in ALL_KINDS.iter() {
        let mut state = GameState::new(8, GameConfig::default());
        state.board = Board::new();
        state.active = Tetromino::new(*kind, 3, 5);
        let before = state.active;
        state.apply_action(GameAction::RotateCw);
        state.apply_action(GameAction::RotateCcw);
        assert_eq!(state.active, before);
    }
}

#[test]
fn rotation_results_always_fit_inside() {
    for kind in ALL_KINDS.iter() {
        for x in -1..9 {
            let mut state = GameState::new(8, GameConfig::default());
            state.board = Board::new();
            fill(&mut state.board, 5, 3);
            state.active = Tetromino::new(*kind, x, 2);
            if !state.board.can_place(&state.active, x, 2, Rotation::North) {
                continue;
            }
            let before = state.active;
            state.apply_action(GameAction::RotateCw);
            let a = state.active;
            assert!(state.board.can_place(&a, a.x, a.y, a.rotation));
            if a.rotation == Rotation::North {
                assert_eq!(a, before);
            }
        }
    }
}

#[test]
fn restart_from_any_state_is_a_fresh_game() {
    let mut state = GameState::new(5, modern());
    state.apply_action(GameAction::HardDrop);
    state.apply_action(GameAction::Pause);
    state.apply_action(GameAction::Restart);
    assert_eq!(state.score, 0);
    assert_eq!(state.lines, 0);
    assert_eq!(state.level, 0);
    assert!(!state.paused);
    assert!(!state.game_over);
    assert_eq!(state.ruleset, Ruleset::Modern);
    assert_eq!(state.combo, -1);
    assert!(state.board.cells.iter().flatten().all(|c| !c.filled));
    assert!(state.next_queue.len() >= 5);
}

#[test]
fn hold_rearms_after_the_next_spawn() {
    let mut state = GameState::new(3, GameConfig::default());
    state.active = Tetromino::new(TetrominoType::I, 3, 0);
    state.next_queue = vec![TetrominoType::O, TetrominoType::T];
    state.apply_action(GameAction::Hold);
    assert!(!state.can_hold);
    state.apply_action(GameAction::HardDrop);
    assert!(state.can_hold);
    assert_eq!(state.active.kind, TetrominoType::T);
    state.apply_action(GameAction::Hold);
    assert_eq!(state.hold, Some(TetrominoType::T));
    assert_eq!(state.active.kind, TetrominoType::I);
}

#[test]
fn paused_game_ignores_moves_but_not_pause() {
    let mut state = GameState::new(3, GameConfig::default());
    state.apply_action(GameAction::Pause);
    let x = state.active.x;
    state.apply_action(GameAction::MoveLeft);
    assert_eq!(state.active.x, x);
    assert!(state.take_sound_events().is_empty());
    state.apply_action(GameAction::Pause);
    assert!(!state.paused);
}

#[test]
fn clear_lines_compacts_rows_in_order() {
    let mut board = Board::new();
    for x in 0..BOARD_WIDTH {
        fill(&mut board, x, 19);
        fill(&mut board, x, 17);
    }
    fill(&mut board, 2, 18);
    fill(&mut board, 7, 16);
    board.cells[15][0] = Cell {
        filled: true,
        kind: Some(TetrominoType::L),
    };
    assert_eq!(board.clear_lines(), 2);
    assert!(board.cells[19][2].filled);
    assert_eq!(board.cells[19].iter().filter(|c| c.filled).count(), 1);
    assert!(board.cells[18][7].filled);
    assert_eq!(board.cells[17][0].kind, Some(TetrominoType::L));
    assert!(board.cells[..17].iter().flatten().all(|c| !c.filled && c.kind.is_none()));
}

#[test]
fn is_occupied_treats_outside_as_occupied() {
    let board = Board::new();
    assert!(board.is_occupied(-1, 0));
    assert!(board.is_occupied(10, 0));
    assert!(board.is_occupied(0, 20));
    assert!(!board.is_occupied(9, 19));
    assert!(board.is_inside(0, 0));
    assert!(!board.is_inside(0, -1));
}

#[test]
fn ghost_stops_above_a_blocker() {
    let mut state = GameState::new(4, GameConfig::default());
    state.board = Board::new();
    fill(&mut state.board, 4, 12);
    state.active = Tetromino::new(TetrominoType::O, 3, 0);
    let ghost = state.ghost_blocks();
    assert_eq!(ghost, [(4, 10), (5, 10), (4, 11), (5, 11)]);
}

#[test]
fn larger_clears_share_the_four_line_sound() {
    assert_eq!(sound_event_to_asset(&SoundEvent::LineClear(7)), Some("line_clear_4"));
    assert_eq!(sound_event_to_asset(&SoundEvent::LineClear(0)), Some("line_clear_4"));
}

#[test]
fn repeat_without_period_never_fires() {
    let config = RepeatConfig { das_ms: 0, arr_ms: 0 };
    let mut state = RepeatState::new();
    state.press();
    assert_eq!(state.tick(1000, &config), 0);
    assert!(state.is_held());
    state.release();
    assert!(!state.is_held());
    let defaults = RepeatConfig::default();
    assert_eq!((defaults.das_ms, defaults.arr_ms), (150, 50));
}

#[test]
fn take_sound_events_empties_the_outbox() {
    let mut state = GameState::new(1, GameConfig::default());
    state.apply_action(GameAction::MoveLeft);
    state.apply_action(GameAction::Hold);
    assert_eq!(state.take_sound_events(), vec![SoundEvent::Move, SoundEvent::Hold]);
    assert!(state.take_sound_events().is_empty());
}
