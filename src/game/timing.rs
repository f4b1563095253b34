use vstd::prelude::*;

use crate::game::actions::{after_lock, after_shift, can_descend};
use crate::game::state::{GameState, GameView};

verus! {

/// Gravity period of a level before the configured cap and the floor.
pub open spec fn level_interval(level: u32) -> u64 {
    if level == 0 {
        1000
    } else if level == 1 {
        800
    } else if level == 2 {
        650
    } else if level == 3 {
        500
    } else if level == 4 {
        400
    } else if level == 5 {
        320
    } else if level == 6 {
        250
    } else if level == 7 {
        200
    } else if level == 8 {
        160
    } else {
        120
    }
}

/// Shortest gravity period.
pub const MIN_DROP_MS: u64 = 100;

/// The gravity period: the level's entry, capped by `base`, at least 100 ms; with soft
/// drop engaged, divided by the multiplier (0 counts as 1), at least 1 ms.
pub open spec fn drop_interval(level: u32, base: u64, multiplier: u64, soft_drop: bool) -> u64 {
    let capped = if level_interval(level) < base {
        level_interval(level)
    } else {
        base
    };
    let interval = if capped < MIN_DROP_MS {
        MIN_DROP_MS
    } else {
        capped
    };
    if soft_drop {
        let m = if multiplier < 1 {
            1
        } else {
            multiplier
        };
        let adjusted = interval / m;
        if adjusted < 1 {
            1
        } else {
            adjusted
        }
    } else {
        interval
    }
}

/// Gravity: while the drop timer holds a full period, take the period off and try to
/// move the piece down one row.
pub open spec fn gravity(s: GameView, interval: u64) -> GameView
    decreases s.drop_timer_ms,
{
    if interval == 0 || s.drop_timer_ms < interval {
        s
    } else {
        let s1 = after_shift(GameView { drop_timer_ms: (s.drop_timer_ms - interval) as u64, ..s }, 0, 1);
        if s1.drop_timer_ms < s.drop_timer_ms {
            gravity(s1, interval)
        } else {
            s
        }
    }
}

/// Lock timing after gravity: a free piece clears the lock timer and reset count; a
/// grounded one accumulates time and locks once the lock delay is reached.
pub open spec fn after_lock_timer(s: GameView, elapsed_ms: u64) -> GameView {
    if can_descend(s) {
        GameView { lock_timer_ms: 0, lock_reset_count: 0, ..s }
    } else {
        let t = s.lock_timer_ms.saturating_add(elapsed_ms);
        if t >= s.lock_delay_ms {
            after_lock(GameView { lock_timer_ms: 0, drop_timer_ms: 0, ..s })
        } else {
            GameView { lock_timer_ms: t, ..s }
        }
    }
}

/// One frame of `elapsed_ms`: nothing while over or paused; the landing flash decays;
/// a running clear pause counts down and, while it lasts, freezes the rest; then the
/// drop timer and soft-drop grace advance, gravity runs, and the lock timer is updated.
pub open spec fn after_tick(s: GameView, elapsed_ms: u64, soft_drop: bool) -> GameView {
    if s.game_over || s.paused {
        s
    } else {
        let s1 = GameView {
            landing_flash_timer_ms: s.landing_flash_timer_ms.saturating_sub(elapsed_ms),
            ..s
        };
        let pause = s1.line_clear_timer_ms.saturating_sub(elapsed_ms);
        let s2 = GameView { line_clear_timer_ms: pause, ..s1 };
        if s1.line_clear_timer_ms > 0 && pause > 0 {
            s2
        } else {
            let timeout = s2.soft_drop_timeout_ms.saturating_sub(elapsed_ms);
            let s3 = GameView {
                drop_timer_ms: s2.drop_timer_ms.saturating_add(elapsed_ms),
                soft_drop_timeout_ms: timeout,
                soft_drop_active: if s2.soft_drop_timeout_ms > 0 && timeout == 0 {
                    false
                } else {
                    s2.soft_drop_active
                },
                ..s2
            };
            let interval = drop_interval(
                s3.level,
                s3.base_drop_ms,
                s3.soft_drop_multiplier,
                soft_drop || s3.soft_drop_active,
            );
            after_lock_timer(gravity(s3, interval), elapsed_ms)
        }
    }
}

impl GameState {
    /// The current gravity period; see `drop_interval`.
    pub fn drop_interval_ms(&self, soft_drop: bool) -> (r: u64)
        ensures
            r == drop_interval(self.level, self.base_drop_ms, self.soft_drop_multiplier, soft_drop),
    {
        let mut interval: u64 = match self.level {
            0 => 1000,
            1 => 800,
            2 => 650,
            3 => 500,
            4 => 400,
            5 => 320,
            6 => 250,
            7 => 200,
            8 => 160,
            _ => 120,
        };
        interval = if interval < self.base_drop_ms {
            interval
        } else {
            self.base_drop_ms
        };
        interval = if interval < MIN_DROP_MS {
            MIN_DROP_MS
        } else {
            interval
        };
        if soft_drop {
            let m = if self.soft_drop_multiplier < 1 {
                1
            } else {
                self.soft_drop_multiplier
            };
            let adjusted = interval / m;
            return if adjusted < 1 {
                1
            } else {
                adjusted
            };
        }
        interval
    }

    fn step_landing_flash(&mut self, elapsed_ms: u64)
        ensures
            final(self)@ == (GameView {
                landing_flash_timer_ms: old(self).landing_flash_timer_ms.saturating_sub(elapsed_ms),
                ..old(self)@
            }),
    {
        if self.landing_flash_timer_ms > 0 {
            self.landing_flash_timer_ms = self.landing_flash_timer_ms.saturating_sub(elapsed_ms);
        }
    }

    /// Counts the clear pause down; true while it still runs.
    fn step_line_clear_pause(&mut self, elapsed_ms: u64) -> (r: bool)
        ensures
            final(self)@ == (GameView {
                line_clear_timer_ms: old(self).line_clear_timer_ms.saturating_sub(elapsed_ms),
                ..old(self)@
            }),
            r == (old(self).line_clear_timer_ms > 0 && final(self).line_clear_timer_ms > 0),
    {
        if self.line_clear_timer_ms > 0 {
            self.line_clear_timer_ms = self.line_clear_timer_ms.saturating_sub(elapsed_ms);
            return self.line_clear_timer_ms > 0;
        }
        false
    }

    fn update_drop_timers(&mut self, elapsed_ms: u64)
        ensures
            final(self)@ == (GameView {
                drop_timer_ms: old(self).drop_timer_ms.saturating_add(elapsed_ms),
                soft_drop_timeout_ms: old(self).soft_drop_timeout_ms.saturating_sub(elapsed_ms),
                soft_drop_active: if old(self).soft_drop_timeout_ms > 0
                    && old(self).soft_drop_timeout_ms.saturating_sub(elapsed_ms) == 0 {
                    false
                } else {
                    old(self).soft_drop_active
                },
                ..old(self)@
            }),
    {
        self.drop_timer_ms = self.drop_timer_ms.saturating_add(elapsed_ms);
        if self.soft_drop_timeout_ms > 0 {
            self.soft_drop_timeout_ms = self.soft_drop_timeout_ms.saturating_sub(elapsed_ms);
            if self.soft_drop_timeout_ms == 0 {
                self.soft_drop_active = false;
            }
        }
    }

    fn apply_gravity_steps(&mut self, soft_drop: bool)
        ensures
            final(self).rules == old(self).rules,
            final(self)@ == gravity(
                old(self)@,
                drop_interval(
                    old(self).level,
                    old(self).base_drop_ms,
                    old(self).soft_drop_multiplier,
                    soft_drop || old(self).soft_drop_active,
                ),
            ),
    {
        let interval = self.drop_interval_ms(soft_drop || self.soft_drop_active);
        let ghost target = gravity(self@, interval);
        while self.drop_timer_ms >= interval
            invariant
                interval >= 1,
                gravity(self@, interval) == target,
                self.rules == old(self).rules,
            decreases self.drop_timer_ms,
        {
            self.drop_timer_ms -= interval;
            let _ = self.try_move(0, 1);
        }
    }

    fn update_lock_timer(&mut self, elapsed_ms: u64)
        requires
            old(self).rules.b2b_bonus_den > 0,
        ensures
            final(self)@ == after_lock_timer(old(self)@, elapsed_ms),
    {
        if self.can_move_down() {
            self.lock_timer_ms = 0;
            self.lock_reset_count = 0;
        } else {
            self.lock_timer_ms = self.lock_timer_ms.saturating_add(elapsed_ms);
            if self.lock_timer_ms >= self.lock_delay_ms {
                self.lock_timer_ms = 0;
                self.drop_timer_ms = 0;
                self.lock_active_piece();
            }
        }
    }

    /// Advances the simulation by `elapsed_ms`; see `after_tick`.
    pub fn tick(&mut self, elapsed_ms: u64, soft_drop: bool)
        requires
            old(self).rules.b2b_bonus_den > 0,
        ensures
            final(self)@ == after_tick(old(self)@, elapsed_ms, soft_drop),
    {
        if self.game_over || self.paused {
            return;
        }
        self.step_landing_flash(elapsed_ms);
        if self.step_line_clear_pause(elapsed_ms) {
            return;
        }
        self.update_drop_timers(elapsed_ms);
        self.apply_gravity_steps(soft_drop);
        self.update_lock_timer(elapsed_ms);
    }
}

} // verus!
