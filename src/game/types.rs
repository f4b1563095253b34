use vstd::prelude::*;

verus! {

/// A user-observable moment, buffered for the audio layer.
#[derive(Clone, Copy, Debug, PartialEq, Eq, Structural)]
pub enum SoundEvent {
    Move,
    Rotate,
    SoftDrop,
    HardDrop,
    LineClear(u8),
    GameOver,
    Hold,
}

/// Which scoring rules apply.
#[derive(Clone, Copy, Debug, PartialEq, Eq, Structural)]
pub enum Ruleset {
    Classic,
    Modern,
}

/// Point tables and bonuses of the scoring engine.
#[derive(Clone, Copy, Debug)]
pub struct RulesConfig {
    /// Points for clearing 1, 2, 3 and 4 lines.
    pub classic_line_scores: [u32; 4],
    /// Points for a full T-spin clearing 0, 1, 2 and 3 lines.
    pub t_spin_full: [u32; 4],
    /// Points for a mini T-spin clearing 0, 1 and 2 lines.
    pub t_spin_mini: [u32; 3],
    /// Bonus per step of an active combo.
    pub combo_base: u32,
    /// Back-to-back multiplier, as a fraction.
    pub b2b_bonus_num: u32,
    pub b2b_bonus_den: u32,
}

pub open spec fn default_rules() -> RulesConfig {
    RulesConfig {
        classic_line_scores: [40, 100, 300, 1200],
        t_spin_full: [400, 800, 1200, 1600],
        t_spin_mini: [100, 200, 400],
        combo_base: 50,
        b2b_bonus_num: 3,
        b2b_bonus_den: 2,
    }
}

impl Default for RulesConfig {
    fn default() -> (r: Self)
        ensures
            r.classic_line_scores@ == seq![40u32, 100, 300, 1200],
            r.t_spin_full@ == seq![400u32, 800, 1200, 1600],
            r.t_spin_mini@ == seq![100u32, 200, 400],
            r.combo_base == 50,
            r.b2b_bonus_num == 3,
            r.b2b_bonus_den == 2,
    {
        let r = Self {
            classic_line_scores: [40, 100, 300, 1200],
            t_spin_full: [400, 800, 1200, 1600],
            t_spin_mini: [100, 200, 400],
            combo_base: 50,
            b2b_bonus_num: 3,
            b2b_bonus_den: 2,
        };
        assert(r.classic_line_scores@ =~= seq![40u32, 100, 300, 1200]);
        assert(r.t_spin_full@ =~= seq![400u32, 800, 1200, 1600]);
        assert(r.t_spin_mini@ =~= seq![100u32, 200, 400]);
        r
    }
}

/// Settings of a game.
#[derive(Clone, Copy, Debug)]
pub struct GameConfig {
    pub tick_ms: u64,
    pub soft_drop_multiplier: u64,
    pub lock_delay_ms: u64,
    pub lock_reset_limit: u32,
    pub base_drop_ms: u64,
    pub soft_drop_grace_ms: u64,
    pub ruleset: Ruleset,
    pub rules: RulesConfig,
}

impl Default for GameConfig {
    fn default() -> (r: Self)
        ensures
            r.tick_ms == 16,
            r.soft_drop_multiplier == 10,
            r.lock_delay_ms == 450,
            r.lock_reset_limit == 15,
            r.base_drop_ms == 1000,
            r.soft_drop_grace_ms == 150,
            r.ruleset == Ruleset::Classic,
            r.rules.classic_line_scores@ == seq![40u32, 100, 300, 1200],
            r.rules.t_spin_full@ == seq![400u32, 800, 1200, 1600],
            r.rules.t_spin_mini@ == seq![100u32, 200, 400],
            r.rules.combo_base == 50,
            r.rules.b2b_bonus_num == 3,
            r.rules.b2b_bonus_den == 2,
    {
        Self {
            tick_ms: 16,
            soft_drop_multiplier: 10,
            lock_delay_ms: 450,
            lock_reset_limit: 15,
            base_drop_ms: 1000,
            soft_drop_grace_ms: 150,
            ruleset: Ruleset::Classic,
            rules: RulesConfig::default(),
        }
    }
}

/// How a T piece lock classifies for scoring.
#[derive(Clone, Copy, Debug, PartialEq, Eq, Structural)]
pub enum TSpinKind {
    NoSpin,
    Mini,
    Full,
}

} // verus!
