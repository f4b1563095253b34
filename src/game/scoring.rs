use vstd::prelude::*;

use crate::game::board::occupied;
use crate::game::pieces::{Rotation, TetrominoType};
use crate::game::state::GameView;
use crate::game::state::GameState;
use crate::game::types::{Ruleset, RulesConfig, SoundEvent, TSpinKind};

verus! {

/// How long gravity and locking pause after a clear.
pub const LINE_CLEAR_PAUSE_MS: u64 = 180;

/// Points of the table entry for a clear, before bonuses and the level multiplier.
/// Classic rules, and modern clears without a T-spin, use the line table.
pub open spec fn line_points(rules: RulesConfig, ruleset: Ruleset, cleared: int, t_spin: TSpinKind) -> int {
    if ruleset == Ruleset::Classic || t_spin == TSpinKind::NoSpin {
        if 1 <= cleared <= 4 {
            rules.classic_line_scores@[cleared - 1] as int
        } else {
            0
        }
    } else if t_spin == TSpinKind::Full {
        if 0 <= cleared <= 3 {
            rules.t_spin_full@[cleared] as int
        } else {
            0
        }
    } else {
        if 0 <= cleared <= 2 {
            rules.t_spin_mini@[cleared] as int
        } else {
            0
        }
    }
}

/// A clear that counts toward back-to-back: a four-line clear or a full T-spin.
pub open spec fn qualifies_b2b(cleared: int, t_spin: TSpinKind) -> bool {
    cleared == 4 || t_spin == TSpinKind::Full
}

/// The combo counter after a lock: one more on a modern clear, -1 otherwise.
pub open spec fn next_combo(s: GameView, cleared: int) -> i32 {
    if cleared > 0 && s.ruleset == Ruleset::Modern {
        if s.combo < i32::MAX {
            (s.combo + 1) as i32
        } else {
            s.combo
        }
    } else {
        -1i32
    }
}

/// Points awarded for a lock that cleared `cleared` lines: the table entry, times the
/// back-to-back fraction when it applies, plus the combo bonus, times (level + 1).
pub open spec fn clear_award(s: GameView, cleared: int, t_spin: TSpinKind) -> int {
    let base = line_points(s.rules, s.ruleset, cleared, t_spin);
    let boosted = if s.ruleset == Ruleset::Modern && qualifies_b2b(cleared, t_spin) && s.back_to_back {
        base * s.rules.b2b_bonus_num / (s.rules.b2b_bonus_den as int)
    } else {
        base
    };
    let combo = next_combo(s, cleared);
    let with_combo = if cleared > 0 && s.ruleset == Ruleset::Modern && combo > 0 {
        boosted + s.rules.combo_base * combo
    } else {
        boosted
    };
    with_combo * (s.level + 1)
}

/// `x`, or `u32::MAX` when it does not fit.
pub open spec fn sat_u32(x: int) -> u32 {
    if x > u32::MAX {
        u32::MAX
    } else {
        x as u32
    }
}

/// Scoring and progression after a lock that cleared `cleared` lines.
pub open spec fn after_line_clear(s: GameView, cleared: int, t_spin: TSpinKind) -> GameView {
    let score = sat_u32(s.score + clear_award(s, cleared, t_spin));
    if cleared > 0 {
        let lines = sat_u32(s.lines + cleared);
        GameView {
            line_clear_timer_ms: LINE_CLEAR_PAUSE_MS,
            sound_events: s.sound_events.push(SoundEvent::LineClear(cleared as u8)),
            lines,
            level: (lines / 10) as u32,
            combo: next_combo(s, cleared),
            back_to_back: s.ruleset == Ruleset::Modern && qualifies_b2b(cleared, t_spin),
            score,
            ..s
        }
    } else {
        GameView { combo: -1i32, back_to_back: false, score, ..s }
    }
}

/// Whether the square diagonal to the centre of the piece's 3x3 box, in direction
/// (dx, dy), is occupied.
pub open spec fn corner_occupied(s: GameView, dx: int, dy: int) -> bool {
    occupied(s.board, s.active.x + 1 + dx, s.active.y + 1 + dy)
}

pub open spec fn count_if(b: bool) -> int {
    if b {
        1
    } else {
        0
    }
}

pub open spec fn occupied_corners(s: GameView) -> int {
    count_if(corner_occupied(s, -1, -1)) + count_if(corner_occupied(s, 1, -1)) + count_if(
        corner_occupied(s, -1, 1),
    ) + count_if(corner_occupied(s, 1, 1))
}

/// Both corners on the side the T points to are occupied.
pub open spec fn front_corners_occupied(s: GameView) -> bool {
    match s.active.rotation {
        Rotation::North => corner_occupied(s, -1, -1) && corner_occupied(s, 1, -1),
        Rotation::East => corner_occupied(s, 1, -1) && corner_occupied(s, 1, 1),
        Rotation::South => corner_occupied(s, -1, 1) && corner_occupied(s, 1, 1),
        Rotation::West => corner_occupied(s, -1, -1) && corner_occupied(s, -1, 1),
    }
}

/// Corner rule: a T piece whose last action was a rotation, with three or more
/// occupied corners, is a full T-spin when both front corners are occupied and a
/// mini one otherwise.
pub open spec fn t_spin_of(s: GameView) -> TSpinKind {
    if s.active.kind != TetrominoType::T || !s.last_action_rotate {
        TSpinKind::NoSpin
    } else if occupied_corners(s) < 3 {
        TSpinKind::NoSpin
    } else if front_corners_occupied(s) {
        TSpinKind::Full
    } else {
        TSpinKind::Mini
    }
}

fn table_points(state: &GameState, cleared: usize, t_spin: TSpinKind) -> (r: u32)
    ensures
        r as int == line_points(state.rules, state.ruleset, cleared as int, t_spin),
{
    if state.ruleset == Ruleset::Classic || t_spin == TSpinKind::NoSpin {
        if 1 <= cleared && cleared <= 4 {
            state.rules.classic_line_scores[cleared - 1]
        } else {
            0
        }
    } else if t_spin == TSpinKind::Full {
        if cleared <= 3 {
            state.rules.t_spin_full[cleared]
        } else {
            0
        }
    } else {
        if cleared <= 2 {
            state.rules.t_spin_mini[cleared]
        } else {
            0
        }
    }
}

impl GameState {
    /// Scores a lock that cleared `cleared` lines and updates lines, level, combo and
    /// back-to-back; a clear of one or more lines also starts the clear pause and
    /// queues a line-clear sound.
    pub fn apply_line_clear(&mut self, cleared: usize, t_spin: TSpinKind)
        requires
            old(self).rules.b2b_bonus_den > 0,
        ensures
            final(self)@ == after_line_clear(old(self)@, cleared as int, t_spin),
    {
        let ghost s0 = self@;
        let qualifies = cleared == 4 || t_spin == TSpinKind::Full;
        let modern = self.ruleset == Ruleset::Modern;
        let base = table_points(self, cleared, t_spin);
        let mut points: u128 = base as u128;
        if modern && qualifies && self.back_to_back {
            let num = self.rules.b2b_bonus_num as u128;
            let den = self.rules.b2b_bonus_den as u128;
            assert(points * num <= 0xffff_ffff_u128 * 0xffff_ffff_u128) by (nonlinear_arith)
                requires
                    points <= 0xffff_ffff,
                    num <= 0xffff_ffff,
            ;
            let prod = points * num;
            points = prod / den;
            assert(points <= prod) by (nonlinear_arith)
                requires
                    points == prod / den,
                    den > 0,
            ;
        }
        assert(points <= 0xffff_ffff_u128 * 0xffff_ffff_u128);
        if cleared > 0 {
            self.line_clear_timer_ms = LINE_CLEAR_PAUSE_MS;
            self.sound_events.push(SoundEvent::LineClear(#[verifier::truncate] (cleared as u8)));
            let lines = (self.lines as u64).saturating_add(cleared as u64);
            let old_level = self.level;
            self.lines = if lines > u32::MAX as u64 {
                u32::MAX
            } else {
                lines as u32
            };
            if modern {
                if self.combo < i32::MAX {
                    self.combo = self.combo + 1;
                }
                if self.combo > 0 {
                    let cb = self.rules.combo_base as u128;
                    let cm = self.combo as u128;
                    assert(cb * cm <= 0xffff_ffff_u128 * 0x7fff_ffff_u128) by (nonlinear_arith)
                        requires
                            cb <= 0xffff_ffff,
                            cm <= 0x7fff_ffff,
                    ;
                    let bonus = cb * cm;
                    points = points + bonus;
                }
                self.back_to_back = qualifies;
            } else {
                self.combo = -1;
                self.back_to_back = false;
            }
            self.level = self.lines / 10;
            self.score = Self::add_award(self.score, points, old_level);
        } else {
            self.combo = -1;
            self.back_to_back = false;
            self.score = Self::add_award(self.score, points, self.level);
        }
        assert(self@ == after_line_clear(s0, cleared as int, t_spin));
    }

    /// `score + points * (level + 1)`, saturating at `u32::MAX`.
    fn add_award(score: u32, points: u128, level: u32) -> (r: u32)
        requires
            points <= 0xffff_ffff_u128 * 0xffff_ffff_u128 + 0xffff_ffff_u128 * 0x7fff_ffff_u128,
        ensures
            r == sat_u32(score + points * (level + 1)),
    {
        let factor = level as u128 + 1;
        assert(points * factor <= (0xffff_ffff_u128 * 0xffff_ffff_u128 + 0xffff_ffff_u128
            * 0x7fff_ffff_u128) * 0x1_0000_0000u128) by (nonlinear_arith)
            requires
                points <= 0xffff_ffff_u128 * 0xffff_ffff_u128 + 0xffff_ffff_u128 * 0x7fff_ffff_u128,
                1 <= factor <= 0x1_0000_0000,
        ;
        let total = score as u128 + points * factor;
        if total > u32::MAX as u128 {
            u32::MAX
        } else {
            total as u32
        }
    }

    fn corner_is_occupied(&self, dx: i64, dy: i64) -> (r: bool)
        requires
            -1 <= dx <= 1,
            -1 <= dy <= 1,
        ensures
            r == corner_occupied(self@, dx as int, dy as int),
    {
        self.board.occupied_at(self.active.x as i64 + 1 + dx, self.active.y as i64 + 1 + dy)
    }

    /// Classifies the active piece by the corner rule (see `t_spin_of`).
    pub fn t_spin_kind(&self) -> (r: TSpinKind)
        ensures
            r == t_spin_of(self@),
    {
        if self.active.kind != TetrominoType::T || !self.last_action_rotate {
            return TSpinKind::NoSpin;
        }
        let a = self.corner_is_occupied(-1, -1);
        let b = self.corner_is_occupied(1, -1);
        let c = self.corner_is_occupied(-1, 1);
        let d = self.corner_is_occupied(1, 1);
        let filled: u8 = a as u8 + b as u8 + c as u8 + d as u8;
        if filled < 3 {
            return TSpinKind::NoSpin;
        }
        let front = match self.active.rotation {
            Rotation::North => a && b,
            Rotation::East => b && d,
            Rotation::South => c && d,
            Rotation::West => a && c,
        };
        if front {
            TSpinKind::Full
        } else {
            TSpinKind::Mini
        }
    }
}

} // verus!
