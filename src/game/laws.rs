use vstd::prelude::*;

use crate::game::actions::{
    after_action, after_rotate, after_shift, can_descend, hard_drop_path, next_rotation,
    rotate_ok, rotation_kick,
};
use crate::game::board::{cleared, empty_grid, fits, grid_consistent, lemma_consistency_kept, locked};
use crate::game::input::GameAction;
use crate::game::kicks::lemma_kick_table_shape;
use crate::game::pieces::{lemma_cw_ccw_inverse, rotation_ccw, rotation_cw, TetrominoType};
use crate::game::rng::{
    drawn_bag, is_bag, lemma_drawn_bag_is_permutation, topped_up, NEXT_QUEUE_SIZE,
};
use crate::game::scoring::{
    after_line_clear, front_corners_occupied, occupied_corners, sat_u32, t_spin_of,
};
use crate::game::state::{after_spawn_next, initial, GameView};
use crate::game::timing::{after_tick, drop_interval, gravity, level_interval};
use crate::game::types::{GameConfig, Ruleset, TSpinKind};

verus! {

/// Topping up leaves the queue as it was, or appends exactly one bag, and the result
/// holds at least the lookahead.
pub proof fn lemma_top_up(q: Seq<TetrominoType>, state: u64)
    ensures
        topped_up(q, state).0 == q || (topped_up(q, state).0 == q + drawn_bag(state) && is_bag(
            drawn_bag(state),
        )),
        topped_up(q, state).0.len() >= NEXT_QUEUE_SIZE,
{
    lemma_drawn_bag_is_permutation(state);
}

/// The queue holds at least five upcoming kinds after a new game and after every spawn.
pub proof fn lemma_queue_lookahead(seed: u64, c: GameConfig, s: GameView)
    ensures
        initial(seed, c).next_queue.len() >= NEXT_QUEUE_SIZE,
        after_spawn_next(s).next_queue.len() >= NEXT_QUEUE_SIZE,
{
    lemma_drawn_bag_is_permutation(seed);
    let (q1, r1) = topped_up(s.next_queue, s.rng);
    lemma_top_up(s.next_queue, s.rng);
    lemma_top_up(q1.drop_first(), r1);
    let (first, after_first) = topped_up(drawn_bag(seed), crate::game::rng::state_after_bag(seed));
    lemma_top_up(first.drop_first(), after_first);
}

/// Level 0 drops once a second when the configured base allows it.
pub proof fn lemma_drop_interval_level_zero(base: u64, multiplier: u64)
    requires
        base >= 1000,
    ensures
        drop_interval(0, base, multiplier, false) == 1000,
{
}

/// The gravity period never grows with the level, and strictly shrinks from one level
/// to the next up to level 9 when the base does not cap it; from level 9 on it stays at
/// the 120 ms entry (or the cap or 100 ms floor below it).
pub proof fn lemma_drop_interval_monotone(l1: u32, l2: u32, base: u64, multiplier: u64)
    ensures
        l1 <= l2 ==> drop_interval(l2, base, multiplier, false) <= drop_interval(l1, base, multiplier, false),
        base >= 1000 && l1 < l2 <= 9 ==> drop_interval(l2, base, multiplier, false) < drop_interval(
            l1,
            base,
            multiplier,
            false,
        ),
        l1 >= 9 ==> drop_interval(l1, base, multiplier, false) == if base < 100 {
            100
        } else if base < 120 {
            base
        } else {
            120
        },
{
    assert(l1 <= l2 ==> level_interval(l2) <= level_interval(l1));
}

/// With soft drop engaged the period is the normal one divided by the multiplier
/// (0 counts as 1), and never below 1 ms.
pub proof fn lemma_soft_drop_interval(level: u32, base: u64, multiplier: u64)
    ensures
        drop_interval(level, base, multiplier, true) as int == {
            let n = drop_interval(level, base, multiplier, false) as int;
            let m = if multiplier == 0 {
                1
            } else {
                multiplier as int
            };
            if n / m < 1 {
                1
            } else {
                n / m
            }
        },
{
}

/// Gravity on a grounded piece changes only the drop timer.
proof fn lemma_gravity_grounded(s: GameView, interval: u64)
    requires
        !can_descend(s),
    ensures
        gravity(s, interval) == (GameView { drop_timer_ms: gravity(s, interval).drop_timer_ms, ..s }),
    decreases s.drop_timer_ms,
{
    if interval != 0 && s.drop_timer_ms >= interval {
        let s0 = GameView { drop_timer_ms: (s.drop_timer_ms - interval) as u64, ..s };
        assert(after_shift(s0, 0, 1) == s0);
        if s0.drop_timer_ms < s.drop_timer_ms {
            lemma_gravity_grounded(s0, interval);
        }
    }
}

/// Lock delay: a grounded piece, outside a clear pause, stays unlocked while the lock
/// timer plus the elapsed time is below the delay (and the timer then holds that sum);
/// once it reaches the delay the piece is written into the grid and the timer is 0.
pub proof fn lemma_lock_delay(s: GameView, elapsed_ms: u64, soft_drop: bool)
    requires
        !s.game_over,
        !s.paused,
        s.line_clear_timer_ms == 0,
        !can_descend(s),
    ensures
        s.lock_timer_ms + elapsed_ms < s.lock_delay_ms ==> after_tick(s, elapsed_ms, soft_drop).lock_timer_ms
            == s.lock_timer_ms + elapsed_ms && after_tick(s, elapsed_ms, soft_drop).board == s.board
            && after_tick(s, elapsed_ms, soft_drop).active == s.active,
        s.lock_timer_ms + elapsed_ms >= s.lock_delay_ms ==> after_tick(s, elapsed_ms, soft_drop).lock_timer_ms
            == 0 && after_tick(s, elapsed_ms, soft_drop).board == cleared(locked(s.board, s.active)),
{
    let s1 = GameView {
        landing_flash_timer_ms: s.landing_flash_timer_ms.saturating_sub(elapsed_ms),
        ..s
    };
    let s2 = GameView { line_clear_timer_ms: 0, ..s1 };
    let timeout = s2.soft_drop_timeout_ms.saturating_sub(elapsed_ms);
    let s3 = GameView {
        drop_timer_ms: s2.drop_timer_ms.saturating_add(elapsed_ms),
        soft_drop_timeout_ms: timeout,
        soft_drop_active: if s2.soft_drop_timeout_ms > 0 && timeout == 0 {
            false
        } else {
            s2.soft_drop_active
        },
        ..s2
    };
    let interval = drop_interval(s3.level, s3.base_drop_ms, s3.soft_drop_multiplier, soft_drop || s3.soft_drop_active);
    assert(!can_descend(s3));
    lemma_gravity_grounded(s3, interval);
}

/// Corner rule for a T piece whose last action was a rotation.
pub proof fn lemma_t_spin_classification(s: GameView)
    requires
        s.active.kind == TetrominoType::T,
        s.last_action_rotate,
    ensures
        occupied_corners(s) >= 3 && front_corners_occupied(s) ==> t_spin_of(s) == TSpinKind::Full,
        occupied_corners(s) >= 3 && !front_corners_occupied(s) ==> t_spin_of(s) == TSpinKind::Mini,
        occupied_corners(s) < 3 ==> t_spin_of(s) == TSpinKind::NoSpin,
{
}

/// A T-spin that clears no line, without a running back-to-back, scores the first
/// entry of its table times (level + 1): 400 and 100 with the default tables at level 0.
pub proof fn lemma_t_spin_without_lines(s: GameView)
    requires
        s.ruleset == Ruleset::Modern,
        !s.back_to_back,
    ensures
        after_line_clear(s, 0, TSpinKind::Full).score == sat_u32(
            s.score + s.rules.t_spin_full@[0] * (s.level + 1),
        ),
        after_line_clear(s, 0, TSpinKind::Mini).score == sat_u32(
            s.score + s.rules.t_spin_mini@[0] * (s.level + 1),
        ),
        !after_line_clear(s, 0, TSpinKind::Full).back_to_back,
{
}

/// A rotation either leaves the piece where it fits, inside the board, in the new
/// orientation, or fails and changes nothing.
pub proof fn lemma_rotation_lands_inside(s: GameView, clockwise: bool)
    ensures
        rotate_ok(s, clockwise) ==> fits(
            after_rotate(s, clockwise).board,
            after_rotate(s, clockwise).active.kind,
            after_rotate(s, clockwise).active.rotation,
            after_rotate(s, clockwise).active.x as int,
            after_rotate(s, clockwise).active.y as int,
        ) && after_rotate(s, clockwise).active.rotation == next_rotation(s.active.rotation, clockwise),
        !rotate_ok(s, clockwise) ==> after_rotate(s, clockwise) == s,
{
    if rotate_ok(s, clockwise) {
        let to = next_rotation(s.active.rotation, clockwise);
        lemma_kick_table_shape(s.active.kind, s.active.rotation, to);
        lemma_first_kick_fits(s, clockwise);
        let k = crate::game::kicks::kick_table(s.active.kind, s.active.rotation, to)[rotation_kick(s, clockwise)];
        crate::game::board::lemma_fits_bounds(s.board, s.active.kind, to, s.active.x + k.0, s.active.y + k.1);
    }
}

proof fn lemma_first_kick_fits(s: GameView, clockwise: bool)
    requires
        rotate_ok(s, clockwise),
    ensures
        ({
            let to = next_rotation(s.active.rotation, clockwise);
            let kicks = crate::game::kicks::kick_table(s.active.kind, s.active.rotation, to);
            let i = rotation_kick(s, clockwise);
            0 <= i < 5 && fits(s.board, s.active.kind, to, s.active.x + kicks[i].0, s.active.y + kicks[i].1)
        }),
{
    let to = next_rotation(s.active.rotation, clockwise);
    let kicks = crate::game::kicks::kick_table(s.active.kind, s.active.rotation, to);
    lemma_first_fitting_kick(s, to, kicks, 0);
}

proof fn lemma_first_fitting_kick(s: GameView, to: crate::game::pieces::Rotation, kicks: Seq<(i32, i32)>, i: int)
    requires
        0 <= i,
    ensures
        crate::game::actions::first_fitting_kick(s, to, kicks, i) < 5 ==> {
            let j = crate::game::actions::first_fitting_kick(s, to, kicks, i);
            i <= j < 5 && fits(s.board, s.active.kind, to, s.active.x + kicks[j].0, s.active.y + kicks[j].1)
        },
    decreases 5 - i,
{
    if i < 5 && !fits(s.board, s.active.kind, to, s.active.x + kicks[i].0, s.active.y + kicks[i].1) {
        lemma_first_fitting_kick(s, to, kicks, i + 1);
    }
}

/// From an unobstructed position, turning clockwise and then counterclockwise brings
/// the piece back to its orientation and position.
pub proof fn lemma_rotate_round_trip(s: GameView)
    requires
        !s.game_over,
        !s.paused,
        fits(s.board, s.active.kind, s.active.rotation, s.active.x as int, s.active.y as int),
        fits(s.board, s.active.kind, rotation_cw(s.active.rotation), s.active.x as int, s.active.y as int),
    ensures
        after_action(after_action(s, GameAction::RotateCw), GameAction::RotateCcw).active == s.active,
{
    lemma_cw_ccw_inverse(s.active.rotation);
    let to = rotation_cw(s.active.rotation);
    lemma_kick_table_shape(s.active.kind, s.active.rotation, to);
    assert(rotation_kick(s, true) == 0);
    let s1 = after_action(s, GameAction::RotateCw);
    assert(s1.active.rotation == to);
    assert(s1.active.x == s.active.x && s1.active.y == s.active.y);
    assert(s1.board == s.board);
    lemma_kick_table_shape(s1.active.kind, to, rotation_ccw(to));
    assert(rotation_kick(s1, false) == 0);
}

/// Restart always gives a fresh, running game with no score.
pub proof fn lemma_restart_clears(s: GameView)
    ensures
        after_action(s, GameAction::Restart).score == 0,
        after_action(s, GameAction::Restart).lines == 0,
        after_action(s, GameAction::Restart).level == 0,
        !after_action(s, GameAction::Restart).paused,
        !after_action(s, GameAction::Restart).game_over,
{
}

/// Hold works at most once per spawn: a second hold right after the first changes nothing.
pub proof fn lemma_hold_once_per_spawn(s: GameView)
    ensures
        after_action(after_action(s, GameAction::Hold), GameAction::Hold) == after_action(
            s,
            GameAction::Hold,
        ),
{
}

/// Dropping row by row moves only the piece.
proof fn lemma_hard_drop_path_board(s: GameView)
    ensures
        hard_drop_path(s).0.board == s.board,
        hard_drop_path(s).0.rules == s.rules,
    decreases 20 - s.active.y,
{
    if s.active.y < 20 && crate::game::actions::shift_ok(s, 0, 1) {
        let next = after_shift(s, 0, 1);
        if next.active.y > s.active.y {
            lemma_hard_drop_path_board(next);
        }
    }
}

/// Gravity moves only the piece.
proof fn lemma_gravity_board(s: GameView, interval: u64)
    ensures
        gravity(s, interval).board == s.board,
    decreases s.drop_timer_ms,
{
    if interval != 0 && s.drop_timer_ms >= interval {
        let s1 = after_shift(GameView { drop_timer_ms: (s.drop_timer_ms - interval) as u64, ..s }, 0, 1);
        if s1.drop_timer_ms < s.drop_timer_ms {
            lemma_gravity_board(s1, interval);
        }
    }
}

/// Every filled cell names the kind that filled it, in every state that actions and
/// frames lead to from a state where that holds.
pub proof fn lemma_cells_stay_consistent(s: GameView, a: GameAction, elapsed_ms: u64, soft_drop: bool)
    requires
        grid_consistent(s.board),
    ensures
        grid_consistent(after_action(s, a).board),
        grid_consistent(after_tick(s, elapsed_ms, soft_drop).board),
{
    lemma_consistency_kept(s.board, s.active);
    lemma_consistency_kept(locked(s.board, s.active), s.active);
    assert(grid_consistent(empty_grid()));
    let (s1, n) = hard_drop_path(s);
    lemma_hard_drop_path_board(s);
    lemma_consistency_kept(s1.board, s1.active);
    lemma_consistency_kept(locked(s1.board, s1.active), s1.active);
    if !s.game_over && !s.paused {
        let s1 = GameView {
            landing_flash_timer_ms: s.landing_flash_timer_ms.saturating_sub(elapsed_ms),
            ..s
        };
        let pause = s1.line_clear_timer_ms.saturating_sub(elapsed_ms);
        let s2 = GameView { line_clear_timer_ms: pause, ..s1 };
        let timeout = s2.soft_drop_timeout_ms.saturating_sub(elapsed_ms);
        let s3 = GameView {
            drop_timer_ms: s2.drop_timer_ms.saturating_add(elapsed_ms),
            soft_drop_timeout_ms: timeout,
            soft_drop_active: if s2.soft_drop_timeout_ms > 0 && timeout == 0 {
                false
            } else {
                s2.soft_drop_active
            },
            ..s2
        };
        let interval = drop_interval(s3.level, s3.base_drop_ms, s3.soft_drop_multiplier, soft_drop || s3.soft_drop_active);
        let g = gravity(s3, interval);
        lemma_gravity_board(s3, interval);
        lemma_consistency_kept(g.board, g.active);
        lemma_consistency_kept(locked(g.board, g.active), g.active);
    }
}

} // verus!
