use vstd::prelude::*;

use crate::game::board::{cleared, fits, full_count, lemma_fits_bounds, locked};
use crate::game::input::GameAction;
use crate::game::kicks::{kick_table, lemma_kick_table_shape, srs_kicks};
use crate::game::pieces::{rotation_ccw, rotation_cw, shape, Rotation, Tetromino};
use crate::game::scoring::{after_line_clear, sat_u32, t_spin_of};
use crate::game::state::{
    after_reset, after_spawn_check, after_spawn_next, spawned, GameState, GameView,
};
use crate::game::types::{Ruleset, SoundEvent, TSpinKind};

verus! {

/// How long the cells of a freshly locked piece flash.
pub const LANDING_FLASH_MS: u64 = 120;

/// The active piece could move one row down.
pub open spec fn can_descend(s: GameView) -> bool {
    fits(s.board, s.active.kind, s.active.rotation, s.active.x as int, s.active.y + 1)
}

/// Lock-delay bookkeeping after a successful move or rotation: a free piece clears
/// the lock timer and the reset count; a supported one clears the timer and counts a
/// reset, unless the limit is reached.
pub open spec fn after_lock_reset(s: GameView) -> GameView {
    if can_descend(s) {
        GameView { lock_timer_ms: 0, lock_reset_count: 0, ..s }
    } else if s.lock_reset_count < s.lock_reset_limit {
        GameView { lock_timer_ms: 0, lock_reset_count: (s.lock_reset_count + 1) as u32, ..s }
    } else {
        s
    }
}

/// The active piece fits when moved by (dx, dy).
pub open spec fn shift_ok(s: GameView, dx: int, dy: int) -> bool {
    fits(s.board, s.active.kind, s.active.rotation, s.active.x + dx, s.active.y + dy)
}

pub open spec fn after_shift(s: GameView, dx: int, dy: int) -> GameView {
    if shift_ok(s, dx, dy) {
        after_lock_reset(
            GameView {
                active: Tetromino {
                    x: (s.active.x + dx) as i32,
                    y: (s.active.y + dy) as i32,
                    ..s.active
                },
                ..s
            },
        )
    } else {
        s
    }
}

pub open spec fn next_rotation(r: Rotation, clockwise: bool) -> Rotation {
    if clockwise {
        rotation_cw(r)
    } else {
        rotation_ccw(r)
    }
}

/// Index of the first kick, from `i` on, that makes the active piece fit in
/// orientation `to`; 5 when none does.
pub open spec fn first_fitting_kick(s: GameView, to: Rotation, kicks: Seq<(i32, i32)>, i: int) -> int
    decreases 5 - i,
{
    if i < 0 || i >= 5 {
        5
    } else if fits(s.board, s.active.kind, to, s.active.x + kicks[i].0, s.active.y + kicks[i].1) {
        i
    } else {
        first_fitting_kick(s, to, kicks, i + 1)
    }
}

pub open spec fn rotation_kick(s: GameView, clockwise: bool) -> int {
    let to = next_rotation(s.active.rotation, clockwise);
    first_fitting_kick(s, to, kick_table(s.active.kind, s.active.rotation, to), 0)
}

pub open spec fn rotate_ok(s: GameView, clockwise: bool) -> bool {
    rotation_kick(s, clockwise) < 5
}

/// The piece turned and moved by the first kick that fits, or unchanged when none does.
pub open spec fn after_rotate(s: GameView, clockwise: bool) -> GameView {
    let to = next_rotation(s.active.rotation, clockwise);
    let k = kick_table(s.active.kind, s.active.rotation, to)[rotation_kick(s, clockwise)];
    if rotate_ok(s, clockwise) {
        after_lock_reset(
            GameView {
                active: Tetromino {
                    rotation: to,
                    x: (s.active.x + k.0) as i32,
                    y: (s.active.y + k.1) as i32,
                    ..s.active
                },
                ..s
            },
        )
    } else {
        s
    }
}

/// The four board squares of a piece.
pub open spec fn abs_cells(p: Tetromino) -> Seq<(i32, i32)> {
    Seq::new(
        4,
        |i: int|
            (
                (p.x + shape(p.kind, p.rotation)[i].0) as i32,
                (p.y + shape(p.kind, p.rotation)[i].1) as i32,
            ),
    )
}

/// Locks the active piece: classify a T-spin (modern rules only), record the flash
/// cells, write the piece into the grid, clear full rows, score, spawn the next piece.
pub open spec fn after_lock(s: GameView) -> GameView {
    let t = if s.ruleset == Ruleset::Modern {
        t_spin_of(s)
    } else {
        TSpinKind::NoSpin
    };
    let g = locked(s.board, s.active);
    let s1 = GameView {
        last_lock_cells: abs_cells(s.active),
        landing_flash_timer_ms: LANDING_FLASH_MS,
        board: cleared(g),
        ..s
    };
    GameView {
        last_action_rotate: false,
        ..after_spawn_next(after_line_clear(s1, full_count(g), t))
    }
}

/// Moves the piece down row by row until it is blocked: the state then, and the rows moved.
pub open spec fn hard_drop_path(s: GameView) -> (GameView, nat)
    decreases 20 - s.active.y,
{
    if s.active.y < 20 && shift_ok(s, 0, 1) {
        let next = after_shift(s, 0, 1);
        if next.active.y > s.active.y {
            let (t, n) = hard_drop_path(next);
            (t, n + 1)
        } else {
            (s, 0)
        }
    } else {
        (s, 0)
    }
}

pub open spec fn with_sound(s: GameView, e: SoundEvent) -> GameView {
    GameView { sound_events: s.sound_events.push(e), ..s }
}

pub open spec fn after_hard_drop(s: GameView) -> GameView {
    let (s1, n) = hard_drop_path(s);
    let s2 = with_sound(GameView { score: sat_u32(s1.score + 2 * n), ..s1 }, SoundEvent::HardDrop);
    GameView { lock_timer_ms: 0, drop_timer_ms: 0, ..after_lock(s2) }
}

pub open spec fn after_soft_drop(s: GameView) -> GameView {
    let s1 = after_shift(s, 0, 1);
    with_sound(
        GameView {
            score: if shift_ok(s, 0, 1) {
                sat_u32(s1.score + 1)
            } else {
                s1.score
            },
            soft_drop_active: true,
            soft_drop_timeout_ms: s1.soft_drop_grace_ms,
            last_action_rotate: false,
            ..s1
        },
        SoundEvent::SoftDrop,
    )
}

/// Swaps the active kind into the hold slot: the held kind comes back at the spawn
/// position, or, with the slot empty, the next queued piece spawns. Once per spawn.
pub open spec fn after_hold(s: GameView) -> GameView {
    if !s.can_hold {
        s
    } else {
        let s0 = GameView { hold: Some(s.active.kind), ..s };
        let s1 = match s.hold {
            Some(h) => GameView { active: spawned(h), ..after_spawn_check(s0, h) },
            None => after_spawn_next(s0),
        };
        with_sound(
            GameView { can_hold: false, last_action_rotate: false, ..s1 },
            SoundEvent::Hold,
        )
    }
}

/// The effect of one player action.
pub open spec fn after_action(s: GameView, a: GameAction) -> GameView {
    if s.game_over && a != GameAction::Restart {
        s
    } else if s.paused && a != GameAction::Pause && a != GameAction::Restart {
        s
    } else {
        match a {
            GameAction::MoveLeft => with_sound(
                GameView { last_action_rotate: false, ..after_shift(s, -1, 0) },
                SoundEvent::Move,
            ),
            GameAction::MoveRight => with_sound(
                GameView { last_action_rotate: false, ..after_shift(s, 1, 0) },
                SoundEvent::Move,
            ),
            GameAction::SoftDrop => after_soft_drop(s),
            GameAction::HardDrop => after_hard_drop(s),
            GameAction::RotateCw => with_sound(
                GameView { last_action_rotate: rotate_ok(s, true), ..after_rotate(s, true) },
                SoundEvent::Rotate,
            ),
            GameAction::RotateCcw => with_sound(
                GameView { last_action_rotate: rotate_ok(s, false), ..after_rotate(s, false) },
                SoundEvent::Rotate,
            ),
            GameAction::Hold => after_hold(s),
            GameAction::Pause => GameView { paused: !s.paused, ..s },
            GameAction::Restart => after_reset(s),
        }
    }
}

/// The lowest row the active piece's origin can fall to from row `y`.
pub open spec fn landing_row(s: GameView, y: int) -> int
    decreases 20 - y,
{
    if y < 20 && fits(s.board, s.active.kind, s.active.rotation, s.active.x as int, y + 1) {
        landing_row(s, y + 1)
    } else {
        y
    }
}

/// Where the active piece's squares would land.
pub open spec fn ghost_cells(s: GameView) -> Seq<(i32, i32)> {
    let y = landing_row(s, s.active.y as int);
    Seq::new(
        4,
        |i: int|
            (
                (s.active.x + shape(s.active.kind, s.active.rotation)[i].0) as i32,
                (y + shape(s.active.kind, s.active.rotation)[i].1) as i32,
            ),
    )
}

impl GameState {
    pub(crate) fn can_move_down(&self) -> (r: bool)
        ensures
            r == can_descend(self@),
    {
        self.board.fits_at(
            self.active.kind,
            self.active.rotation,
            self.active.x as i64,
            self.active.y as i64 + 1,
        )
    }

    pub fn is_grounded(&self) -> (r: bool)
        ensures
            r == !can_descend(self@),
    {
        !self.can_move_down()
    }

    /// Grounded, with more than half of the lock delay gone.
    pub fn lock_warning_active(&self) -> (r: bool)
        ensures
            r == (!can_descend(self@) && self.lock_timer_ms * 2 > self.lock_delay_ms),
    {
        self.is_grounded() && (self.lock_timer_ms as u128) * 2 > self.lock_delay_ms as u128
    }

    pub(crate) fn handle_lock_reset(&mut self)
        ensures
            final(self)@ == after_lock_reset(old(self)@),
    {
        if self.can_move_down() {
            self.lock_timer_ms = 0;
            self.lock_reset_count = 0;
            return;
        }
        if self.lock_reset_count < self.lock_reset_limit {
            self.lock_timer_ms = 0;
            self.lock_reset_count += 1;
        }
    }

    pub(crate) fn try_move(&mut self, dx: i32, dy: i32) -> (r: bool)
        requires
            -2 <= dx <= 2,
            -2 <= dy <= 2,
        ensures
            r == shift_ok(old(self)@, dx as int, dy as int),
            final(self)@ == after_shift(old(self)@, dx as int, dy as int),
    {
        let new_x = self.active.x as i64 + dx as i64;
        let new_y = self.active.y as i64 + dy as i64;
        if self.board.fits_at(self.active.kind, self.active.rotation, new_x, new_y) {
            proof {
                lemma_fits_bounds(self@.board, self.active.kind, self.active.rotation, new_x as int, new_y as int);
            }
            self.active.x = new_x as i32;
            self.active.y = new_y as i32;
            self.handle_lock_reset();
            return true;
        }
        false
    }

    pub(crate) fn try_rotate(&mut self, clockwise: bool) -> (r: bool)
        ensures
            r == rotate_ok(old(self)@, clockwise),
            final(self)@ == after_rotate(old(self)@, clockwise),
    {
        let target = if clockwise {
            self.active.rotation.cw()
        } else {
            self.active.rotation.ccw()
        };
        let kicks = srs_kicks(self.active.kind, self.active.rotation, target);
        let ghost s0 = self@;
        proof {
            lemma_kick_table_shape(self.active.kind, self.active.rotation, target);
        }
        let mut i: usize = 0;
        while i < 5
            invariant
                0 <= i <= 5,
                self@ == s0,
                s0 == old(self)@,
                target == next_rotation(s0.active.rotation, clockwise),
                kicks@ == kick_table(s0.active.kind, s0.active.rotation, target),
                kicks@.len() == 5,
                forall|k: int| 0 <= k < 5 ==> -2 <= #[trigger] kicks@[k].0 <= 2 && -2 <= kicks@[k].1 <= 2,
                first_fitting_kick(s0, target, kicks@, i as int) == rotation_kick(s0, clockwise),
            decreases 5 - i,
        {
            let (dx, dy) = kicks[i];
            let new_x = self.active.x as i64 + dx as i64;
            let new_y = self.active.y as i64 + dy as i64;
            if self.board.fits_at(self.active.kind, target, new_x, new_y) {
                proof {
                    lemma_fits_bounds(self@.board, self.active.kind, target, new_x as int, new_y as int);
                }
                self.active.x = new_x as i32;
                self.active.y = new_y as i32;
                self.active.rotation = target;
                assert(first_fitting_kick(s0, target, kicks@, i as int) == i);
                assert(kicks@[i as int] == (dx, dy));
                self.handle_lock_reset();
                return true;
            }
            i += 1;
        }
        false
    }

    pub fn activate_soft_drop(&mut self)
        ensures
            final(self)@ == (GameView {
                soft_drop_active: true,
                soft_drop_timeout_ms: old(self).soft_drop_grace_ms,
                ..old(self)@
            }),
    {
        self.soft_drop_active = true;
        self.soft_drop_timeout_ms = self.soft_drop_grace_ms;
    }

    pub(crate) fn set_landing_flash(&mut self)
        ensures
            final(self)@ == (GameView {
                last_lock_cells: abs_cells(old(self).active),
                landing_flash_timer_ms: LANDING_FLASH_MS,
                ..old(self)@
            }),
    {
        let blocks = self.active.blocks(self.active.rotation);
        let ghost s0 = self@;
        let mut cells: [(i32, i32); 4] = [(0, 0), (0, 0), (0, 0), (0, 0)];
        let mut i: usize = 0;
        while i < 4
            invariant
                0 <= i <= 4,
                self@ == s0,
                blocks@ == shape(self.active.kind, self.active.rotation),
                forall|k: int| 0 <= k < i ==> #[trigger] cells@[k] == abs_cells(self.active)[k],
            decreases 4 - i,
        {
            let (dx, dy) = blocks[i];
            let cx = self.active.x as i64 + dx as i64;
            let cy = self.active.y as i64 + dy as i64;
            cells[i] = (#[verifier::truncate] (cx as i32), #[verifier::truncate] (cy as i32));
            i += 1;
        }
        assert(cells@ =~= abs_cells(self.active));
        self.last_lock_cells = cells;
        self.landing_flash_timer_ms = LANDING_FLASH_MS;
    }

    pub(crate) fn lock_active_piece(&mut self)
        requires
            old(self).rules.b2b_bonus_den > 0,
        ensures
            final(self)@ == after_lock(old(self)@),
    {
        let t_spin = if self.ruleset == Ruleset::Modern {
            self.t_spin_kind()
        } else {
            TSpinKind::NoSpin
        };
        self.set_landing_flash();
        self.board.lock_piece(&self.active);
        let cleared = self.board.clear_lines();
        self.apply_line_clear(cleared, t_spin);
        self.spawn_next();
        self.last_action_rotate = false;
    }

    fn hard_drop(&mut self)
        requires
            old(self).rules.b2b_bonus_den > 0,
        ensures
            final(self)@ == after_hard_drop(old(self)@),
    {
        let ghost s0 = self@;
        let mut dropped: u32 = 0;
        let mut moved = self.try_move(0, 1);
        proof {
            if moved {
                lemma_fits_bounds(s0.board, s0.active.kind, s0.active.rotation, s0.active.x as int, s0.active.y + 1);
            }
        }
        while moved
            invariant
                self.rules == s0.rules,
                dropped <= 23,
                moved ==> -3 + dropped <= self.active.y <= 19,
                moved ==> hard_drop_path(s0).0 == hard_drop_path(self@).0 && hard_drop_path(s0).1 == hard_drop_path(self@).1 + dropped + 1,
                !moved ==> hard_drop_path(s0).0 == self@ && hard_drop_path(s0).1 == dropped,
            decreases 20 - self.active.y + (if moved { 1int } else { 0 }),
        {
            dropped += 1;
            let ghost before = self@;
            moved = self.try_move(0, 1);
            proof {
                if moved {
                    lemma_fits_bounds(before.board, before.active.kind, before.active.rotation, before.active.x as int, before.active.y + 1);
                }
            }
        }
        if dropped > 0 {
            self.score = self.score.saturating_add(dropped * 2);
        }
        self.sound_events.push(SoundEvent::HardDrop);
        self.lock_active_piece();
        self.lock_timer_ms = 0;
        self.drop_timer_ms = 0;
    }

    #[verifier::rlimit(40)]
    fn hold_piece(&mut self)
        ensures
            final(self)@ == after_hold(old(self)@),
    {
        if !self.can_hold {
            return;
        }
        let current_kind = self.active.kind;
        if let Some(held_kind) = self.hold {
            self.hold = Some(current_kind);
            self.active = self.spawn_piece(held_kind);
        } else {
            self.hold = Some(current_kind);
            self.spawn_next();
        }
        self.can_hold = false;
        self.last_action_rotate = false;
        self.sound_events.push(SoundEvent::Hold);
    }

    /// Applies one player action; see `after_action`.
    pub fn apply_action(&mut self, action: GameAction)
        requires
            old(self).rules.b2b_bonus_den > 0,
        ensures
            final(self)@ == after_action(old(self)@, action),
    {
        if self.game_over && action != GameAction::Restart {
            return;
        }
        if self.paused && action != GameAction::Pause && action != GameAction::Restart {
            return;
        }
        match action {
            GameAction::MoveLeft => {
                self.try_move(-1, 0);
                self.last_action_rotate = false;
                self.sound_events.push(SoundEvent::Move);
            },
            GameAction::MoveRight => {
                self.try_move(1, 0);
                self.last_action_rotate = false;
                self.sound_events.push(SoundEvent::Move);
            },
            GameAction::SoftDrop => {
                if self.try_move(0, 1) {
                    self.score = self.score.saturating_add(1);
                }
                self.activate_soft_drop();
                self.last_action_rotate = false;
                self.sound_events.push(SoundEvent::SoftDrop);
            },
            GameAction::HardDrop => {
                self.hard_drop();
            },
            GameAction::RotateCw => {
                self.last_action_rotate = self.try_rotate(true);
                self.sound_events.push(SoundEvent::Rotate);
            },
            GameAction::RotateCcw => {
                self.last_action_rotate = self.try_rotate(false);
                self.sound_events.push(SoundEvent::Rotate);
            },
            GameAction::Hold => {
                self.hold_piece();
            },
            GameAction::Pause => {
                self.paused = !self.paused;
            },
            GameAction::Restart => {
                self.reset();
            },
        }
    }

    /// Squares where the active piece would land if dropped straight down.
    pub fn ghost_blocks(&self) -> (r: [(i32, i32); 4])
        ensures
            r@ == ghost_cells(self@),
    {
        let mut ghost_y = self.active.y as i64;
        while self.board.fits_at(self.active.kind, self.active.rotation, self.active.x as i64, ghost_y + 1)
            invariant
                self.active.y <= ghost_y,
                ghost_y > self.active.y ==> ghost_y <= 19,
                landing_row(self@, ghost_y as int) == landing_row(self@, self.active.y as int),
            decreases 20 - ghost_y,
        {
            proof {
                lemma_fits_bounds(self@.board, self.active.kind, self.active.rotation, self.active.x as int, ghost_y + 1);
            }
            ghost_y += 1;
        }
        let blocks = self.active.blocks(self.active.rotation);
        let mut cells: [(i32, i32); 4] = [(0, 0), (0, 0), (0, 0), (0, 0)];
        let mut i: usize = 0;
        while i < 4
            invariant
                0 <= i <= 4,
                ghost_y == landing_row(self@, self.active.y as int),
                self.active.y <= ghost_y,
                ghost_y == self.active.y || ghost_y <= 19,
                blocks@ == shape(self.active.kind, self.active.rotation),
                forall|k: int| 0 <= k < i ==> #[trigger] cells@[k] == ghost_cells(self@)[k],
            decreases 4 - i,
        {
            let (dx, dy) = blocks[i];
            let cx = self.active.x as i64 + dx as i64;
            let cy = ghost_y + dy as i64;
            cells[i] = (#[verifier::truncate] (cx as i32), #[verifier::truncate] (cy as i32));
            i += 1;
        }
        assert(cells@ =~= ghost_cells(self@));
        cells
    }
}

} // verus!
