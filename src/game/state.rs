use vstd::prelude::*;

use crate::game::board::{empty_grid, fits, Board, Cell};
use crate::game::pieces::{spawn_position, Rotation, Tetromino, TetrominoType, SPAWN_X, SPAWN_Y};
use crate::game::rng::{
    drawn_bag, ensure_queue, lcg_next, lcg_output, refill_bag, state_after_bag, topped_up,
    SimpleRng,
};

pub use crate::game::types::{GameConfig, Ruleset, RulesConfig, SoundEvent, TSpinKind};

verus! {

/// The whole simulation: grid, active piece, queue, hold slot, counters and timers.
#[derive(Clone, Debug)]
pub struct GameState {
    pub board: Board,
    pub active: Tetromino,
    pub hold: Option<TetrominoType>,
    pub can_hold: bool,
    pub next_queue: Vec<TetrominoType>,
    pub score: u32,
    pub level: u32,
    pub lines: u32,
    pub game_over: bool,
    pub paused: bool,
    pub tick_ms: u64,
    pub soft_drop_multiplier: u64,
    pub lock_delay_ms: u64,
    pub lock_reset_limit: u32,
    pub lock_reset_count: u32,
    pub base_drop_ms: u64,
    pub soft_drop_grace_ms: u64,
    pub soft_drop_active: bool,
    pub soft_drop_timeout_ms: u64,
    pub drop_timer_ms: u64,
    pub lock_timer_ms: u64,
    pub line_clear_timer_ms: u64,
    pub landing_flash_timer_ms: u64,
    pub last_lock_cells: [(i32, i32); 4],
    pub ruleset: Ruleset,
    pub rules: RulesConfig,
    pub combo: i32,
    pub back_to_back: bool,
    pub last_action_rotate: bool,
    pub sound_events: Vec<SoundEvent>,
    pub rng: SimpleRng,
}

/// The state as a mathematical value: the grid as rows, the queue and the sound
/// outbox as sequences, the generator as its 64-bit state.
pub struct GameView {
    pub board: Seq<Seq<Cell>>,
    pub active: Tetromino,
    pub hold: Option<TetrominoType>,
    pub can_hold: bool,
    pub next_queue: Seq<TetrominoType>,
    pub score: u32,
    pub level: u32,
    pub lines: u32,
    pub game_over: bool,
    pub paused: bool,
    pub tick_ms: u64,
    pub soft_drop_multiplier: u64,
    pub lock_delay_ms: u64,
    pub lock_reset_limit: u32,
    pub lock_reset_count: u32,
    pub base_drop_ms: u64,
    pub soft_drop_grace_ms: u64,
    pub soft_drop_active: bool,
    pub soft_drop_timeout_ms: u64,
    pub drop_timer_ms: u64,
    pub lock_timer_ms: u64,
    pub line_clear_timer_ms: u64,
    pub landing_flash_timer_ms: u64,
    pub last_lock_cells: Seq<(i32, i32)>,
    pub ruleset: Ruleset,
    pub rules: RulesConfig,
    pub combo: i32,
    pub back_to_back: bool,
    pub last_action_rotate: bool,
    pub sound_events: Seq<SoundEvent>,
    pub rng: u64,
}

impl View for GameState {
    type V = GameView;

    open spec fn view(&self) -> GameView {
        GameView {
            board: self.board@,
            active: self.active,
            hold: self.hold,
            can_hold: self.can_hold,
            next_queue: self.next_queue@,
            score: self.score,
            level: self.level,
            lines: self.lines,
            game_over: self.game_over,
            paused: self.paused,
            tick_ms: self.tick_ms,
            soft_drop_multiplier: self.soft_drop_multiplier,
            lock_delay_ms: self.lock_delay_ms,
            lock_reset_limit: self.lock_reset_limit,
            lock_reset_count: self.lock_reset_count,
            base_drop_ms: self.base_drop_ms,
            soft_drop_grace_ms: self.soft_drop_grace_ms,
            soft_drop_active: self.soft_drop_active,
            soft_drop_timeout_ms: self.soft_drop_timeout_ms,
            drop_timer_ms: self.drop_timer_ms,
            lock_timer_ms: self.lock_timer_ms,
            line_clear_timer_ms: self.line_clear_timer_ms,
            landing_flash_timer_ms: self.landing_flash_timer_ms,
            last_lock_cells: self.last_lock_cells@,
            ruleset: self.ruleset,
            rules: self.rules,
            combo: self.combo,
            back_to_back: self.back_to_back,
            last_action_rotate: self.last_action_rotate,
            sound_events: self.sound_events@,
            rng: self.rng.state,
        }
    }
}

/// A fresh piece of `kind` at the spawn position, pointing north.
pub open spec fn spawned(kind: TetrominoType) -> Tetromino {
    Tetromino { kind, rotation: Rotation::North, x: SPAWN_X, y: SPAWN_Y }
}

/// The check made when a piece of `kind` appears: when it cannot be placed the
/// game ends and a game-over sound is queued.
pub open spec fn after_spawn_check(s: GameView, kind: TetrominoType) -> GameView {
    if fits(s.board, kind, Rotation::North, SPAWN_X as int, SPAWN_Y as int) {
        s
    } else {
        GameView { game_over: true, sound_events: s.sound_events.push(SoundEvent::GameOver), ..s }
    }
}

/// Takes the head of the queue (topped up before and after) as the new active piece,
/// and re-arms hold and the lock-reset count.
pub open spec fn after_spawn_next(s: GameView) -> GameView {
    let (q1, r1) = topped_up(s.next_queue, s.rng);
    let kind = q1[0];
    let (q2, r2) = topped_up(q1.drop_first(), r1);
    after_spawn_check(
        GameView {
            next_queue: q2,
            rng: r2,
            active: spawned(kind),
            can_hold: true,
            lock_reset_count: 0,
            ..s
        },
        kind,
    )
}

/// The state a new game starts in.
pub open spec fn initial(seed: u64, c: GameConfig) -> GameView {
    let q0 = drawn_bag(seed);
    let r0 = state_after_bag(seed);
    let (q1, r1) = topped_up(q0, r0);
    let (q2, r2) = topped_up(q1.drop_first(), r1);
    GameView {
        board: empty_grid(),
        active: spawned(q1[0]),
        hold: None,
        can_hold: true,
        next_queue: q2,
        score: 0,
        level: 0,
        lines: 0,
        game_over: false,
        paused: false,
        tick_ms: c.tick_ms,
        soft_drop_multiplier: c.soft_drop_multiplier,
        lock_delay_ms: c.lock_delay_ms,
        lock_reset_limit: c.lock_reset_limit,
        lock_reset_count: 0,
        base_drop_ms: c.base_drop_ms,
        soft_drop_grace_ms: c.soft_drop_grace_ms,
        soft_drop_active: false,
        soft_drop_timeout_ms: 0,
        drop_timer_ms: 0,
        lock_timer_ms: 0,
        line_clear_timer_ms: 0,
        landing_flash_timer_ms: 0,
        last_lock_cells: seq![(0i32, 0i32), (0i32, 0i32), (0i32, 0i32), (0i32, 0i32)],
        ruleset: c.ruleset,
        rules: c.rules,
        combo: -1i32,
        back_to_back: false,
        last_action_rotate: false,
        sound_events: Seq::empty(),
        rng: r2,
    }
}

/// The settings a state was built with.
pub open spec fn config_of(s: GameView) -> GameConfig {
    GameConfig {
        tick_ms: s.tick_ms,
        soft_drop_multiplier: s.soft_drop_multiplier,
        lock_delay_ms: s.lock_delay_ms,
        lock_reset_limit: s.lock_reset_limit,
        base_drop_ms: s.base_drop_ms,
        soft_drop_grace_ms: s.soft_drop_grace_ms,
        ruleset: s.ruleset,
        rules: s.rules,
    }
}

/// A new game with the same settings, seeded from the next draw of the generator.
pub open spec fn after_reset(s: GameView) -> GameView {
    initial(lcg_output(lcg_next(s.rng)) as u64, config_of(s))
}

impl GameState {
    pub fn new(seed: u64, config: GameConfig) -> (r: Self)
        ensures
            r@ == initial(seed, config),
    {
        let mut rng = SimpleRng::new(seed);
        let mut next_queue: Vec<TetrominoType> = Vec::new();
        refill_bag(&mut rng, &mut next_queue);
        assert(next_queue@ =~= drawn_bag(seed));
        ensure_queue(&mut rng, &mut next_queue);
        let first_kind = next_queue.remove(0);
        ensure_queue(&mut rng, &mut next_queue);
        let (spawn_x, spawn_y) = spawn_position();
        let active = Tetromino::new(first_kind, spawn_x, spawn_y);
        let r = Self {
            board: Board::new(),
            active,
            hold: None,
            can_hold: true,
            next_queue,
            score: 0,
            level: 0,
            lines: 0,
            game_over: false,
            paused: false,
            tick_ms: config.tick_ms,
            soft_drop_multiplier: config.soft_drop_multiplier,
            lock_delay_ms: config.lock_delay_ms,
            lock_reset_limit: config.lock_reset_limit,
            lock_reset_count: 0,
            base_drop_ms: config.base_drop_ms,
            soft_drop_grace_ms: config.soft_drop_grace_ms,
            soft_drop_active: false,
            soft_drop_timeout_ms: 0,
            drop_timer_ms: 0,
            lock_timer_ms: 0,
            line_clear_timer_ms: 0,
            landing_flash_timer_ms: 0,
            last_lock_cells: [(0, 0), (0, 0), (0, 0), (0, 0)],
            ruleset: config.ruleset,
            rules: config.rules,
            combo: -1,
            back_to_back: false,
            last_action_rotate: false,
            sound_events: Vec::new(),
            rng,
        };
        proof {
            let (q1, r1) = topped_up(drawn_bag(seed), state_after_bag(seed));
            assert(q1.remove(0) =~= q1.drop_first());
            assert(r.last_lock_cells@ =~= seq![(0i32, 0i32), (0i32, 0i32), (0i32, 0i32), (0i32, 0i32)]);
            assert(r.sound_events@ =~= Seq::<SoundEvent>::empty());
        }
        r
    }

    /// Brings the next queued kind into play at the spawn position.
    pub fn spawn_next(&mut self)
        ensures
            final(self)@ == after_spawn_next(old(self)@),
    {
        ensure_queue(&mut self.rng, &mut self.next_queue);
        let ghost q1 = self.next_queue@;
        let kind = self.next_queue.remove(0);
        assert(q1.remove(0) =~= q1.drop_first());
        ensure_queue(&mut self.rng, &mut self.next_queue);
        let (spawn_x, spawn_y) = spawn_position();
        self.active = Tetromino::new(kind, spawn_x, spawn_y);
        self.active.rotation = Rotation::North;
        self.can_hold = true;
        self.lock_reset_count = 0;
        if !self.board.can_place(&self.active, self.active.x, self.active.y, self.active.rotation) {
            self.game_over = true;
            self.sound_events.push(SoundEvent::GameOver);
        }
    }

    /// A piece of `kind` at the spawn position; ends the game when it cannot be placed.
    pub(crate) fn spawn_piece(&mut self, kind: TetrominoType) -> (r: Tetromino)
        ensures
            r == spawned(kind),
            final(self)@ == after_spawn_check(old(self)@, kind),
    {
        let (spawn_x, spawn_y) = spawn_position();
        let piece = Tetromino::new(kind, spawn_x, spawn_y);
        if !self.board.can_place(&piece, piece.x, piece.y, piece.rotation) {
            self.game_over = true;
            self.sound_events.push(SoundEvent::GameOver);
        }
        piece
    }

    /// Starts a new game with the same settings, seeded from the generator.
    pub fn reset(&mut self)
        ensures
            final(self)@ == after_reset(old(self)@),
    {
        let seed = self.rng.next_u32() as u64;
        let config = GameConfig {
            tick_ms: self.tick_ms,
            soft_drop_multiplier: self.soft_drop_multiplier,
            lock_delay_ms: self.lock_delay_ms,
            lock_reset_limit: self.lock_reset_limit,
            base_drop_ms: self.base_drop_ms,
            soft_drop_grace_ms: self.soft_drop_grace_ms,
            ruleset: self.ruleset,
            rules: self.rules,
        };
        *self = GameState::new(seed, config);
    }

    /// Hands over the buffered sound events and leaves the buffer empty.
    pub fn take_sound_events(&mut self) -> (r: Vec<SoundEvent>)
        ensures
            r@ == old(self)@.sound_events,
            final(self)@ == (GameView { sound_events: Seq::empty(), ..old(self)@ }),
    {
        let mut out: Vec<SoundEvent> = Vec::new();
        std::mem::swap(&mut out, &mut self.sound_events);
        assert(self.sound_events@ =~= Seq::<SoundEvent>::empty());
        out
    }

    pub fn is_line_clear_active(&self) -> (r: bool)
        ensures
            r == (self.line_clear_timer_ms > 0),
    {
        self.line_clear_timer_ms > 0
    }

    pub fn lock_reset_remaining(&self) -> (r: u32)
        ensures
            r == (if self.lock_reset_count < self.lock_reset_limit {
                self.lock_reset_limit - self.lock_reset_count
            } else {
                0
            }),
    {
        self.lock_reset_limit.saturating_sub(self.lock_reset_count)
    }

    pub fn is_lock_row(&self) -> (r: bool)
        ensures
            r == (self.active.y >= 19),
    {
        self.active.y >= 19
    }

    pub fn is_classic_ruleset(&self) -> (r: bool)
        ensures
            r == (self.ruleset == Ruleset::Classic),
    {
        self.ruleset == Ruleset::Classic
    }

    pub fn is_soft_drop_active(&self) -> (r: bool)
        ensures
            r == self.soft_drop_active,
    {
        self.soft_drop_active
    }

    /// The landing flash is still showing.
    pub fn landing_flash_active(&self) -> (r: bool)
        ensures
            r == (self.landing_flash_timer_ms > 0),
    {
        self.landing_flash_timer_ms > 0
    }

    /// How far the lock timer has run, in thousandths of the lock delay, at most 1000
    /// (1000 when the delay is 0).
    pub fn lock_timer_permille(&self) -> (r: u32)
        ensures
            r == (if self.lock_delay_ms == 0 || self.lock_timer_ms >= self.lock_delay_ms {
                1000
            } else {
                self.lock_timer_ms as int * 1000 / self.lock_delay_ms as int
            }),
    {
        if self.lock_delay_ms == 0 || self.lock_timer_ms >= self.lock_delay_ms {
            return 1000;
        }
        let t = self.lock_timer_ms as u128;
        let d = self.lock_delay_ms as u128;
        let r = t * 1000 / d;
        assert(r <= 1000) by (nonlinear_arith)
            requires
                r as int == (t as int * 1000) / (d as int),
                t < d,
        ;
        r as u32
    }
}

} // verus!
