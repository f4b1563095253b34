use vstd::prelude::*;

verus! {

/// A discrete player intent.
#[derive(Clone, Copy, Debug, PartialEq, Eq, Structural)]
pub enum GameAction {
    MoveLeft,
    MoveRight,
    SoftDrop,
    HardDrop,
    RotateCw,
    RotateCcw,
    Hold,
    Pause,
    Restart,
}

/// Auto-repeat timing: the delay before the first repeat and the period after it.
#[derive(Clone, Copy, Debug)]
pub struct RepeatConfig {
    pub das_ms: u64,
    pub arr_ms: u64,
}

impl Default for RepeatConfig {
    fn default() -> (r: Self)
        ensures
            r.das_ms == 150,
            r.arr_ms == 50,
    {
        Self { das_ms: 150, arr_ms: 50 }
    }
}

/// Auto-repeat state of one held key.
#[derive(Clone, Debug)]
pub struct RepeatState {
    held: bool,
    time_since_press_ms: u64,
    repeats_fired: u64,
}

pub struct RepeatView {
    pub held: bool,
    pub time_since_press_ms: u64,
    pub repeats_fired: u64,
}

impl View for RepeatState {
    type V = RepeatView;

    closed spec fn view(&self) -> RepeatView {
        RepeatView {
            held: self.held,
            time_since_press_ms: self.time_since_press_ms,
            repeats_fired: self.repeats_fired,
        }
    }
}

pub open spec fn released() -> RepeatView {
    RepeatView { held: false, time_since_press_ms: 0, repeats_fired: 0 }
}

/// How many repeats are due since the press: one when the delay has passed, and
/// one more for each full period after it.
pub open spec fn repeats_due(held_ms: u64, c: RepeatConfig) -> u64
    recommends
        c.arr_ms > 0,
        held_ms >= c.das_ms,
{
    ((held_ms - c.das_ms) / (c.arr_ms as int)) as u64
}

/// The state after `elapsed_ms` more of holding, and how many repeats fire in that time.
pub open spec fn repeat_step(s: RepeatView, elapsed_ms: u64, c: RepeatConfig) -> (RepeatView, u64) {
    if !s.held || c.arr_ms == 0 {
        (s, 0)
    } else {
        let t = s.time_since_press_ms.saturating_add(elapsed_ms);
        if t < c.das_ms {
            (RepeatView { time_since_press_ms: t, ..s }, 0)
        } else {
            let total = repeats_due(t, c);
            (
                RepeatView { time_since_press_ms: t, repeats_fired: total, ..s },
                if total > s.repeats_fired {
                    (total - s.repeats_fired) as u64
                } else {
                    0
                },
            )
        }
    }
}

impl Default for RepeatState {
    fn default() -> (r: Self)
        ensures
            r@ == released(),
    {
        Self { held: false, time_since_press_ms: 0, repeats_fired: 0 }
    }
}

impl RepeatState {
    pub fn new() -> (r: Self)
        ensures
            r@ == released(),
    {
        Self::default()
    }

    /// Starts holding; true only when the key was not already held.
    pub fn press(&mut self) -> (r: bool)
        ensures
            r == !old(self)@.held,
            r ==> final(self)@ == (RepeatView { held: true, time_since_press_ms: 0, repeats_fired: 0 }),
            !r ==> final(self)@ == old(self)@,
    {
        if self.held {
            return false;
        }
        self.held = true;
        self.time_since_press_ms = 0;
        self.repeats_fired = 0;
        true
    }

    pub fn release(&mut self)
        ensures
            final(self)@ == released(),
    {
        self.held = false;
        self.time_since_press_ms = 0;
        self.repeats_fired = 0;
    }

    /// Advances the held time and returns the number of repeats that fire now.
    pub fn tick(&mut self, elapsed_ms: u64, config: &RepeatConfig) -> (r: u32)
        ensures
            final(self)@ == repeat_step(old(self)@, elapsed_ms, *config).0,
            r == repeat_step(old(self)@, elapsed_ms, *config).1 as u32,
    {
        if !self.held || config.arr_ms == 0 {
            return 0;
        }
        self.time_since_press_ms = self.time_since_press_ms.saturating_add(elapsed_ms);
        if self.time_since_press_ms < config.das_ms {
            return 0;
        }
        let total = (self.time_since_press_ms - config.das_ms) / config.arr_ms;
        let fired = total.saturating_sub(self.repeats_fired);
        self.repeats_fired = total;
        fired as u32
    }

    pub fn is_held(&self) -> (r: bool)
        ensures
            r == self@.held,
    {
        self.held
    }
}

/// The action bound to a key name, if any.
pub open spec fn key_action(key: Seq<char>) -> Option<GameAction> {
    if key == "left"@ {
        Some(GameAction::MoveLeft)
    } else if key == "right"@ {
        Some(GameAction::MoveRight)
    } else if key == "down"@ {
        Some(GameAction::SoftDrop)
    } else if key == "up"@ {
        Some(GameAction::RotateCw)
    } else if key == "space"@ {
        Some(GameAction::HardDrop)
    } else if key == "c"@ {
        Some(GameAction::Hold)
    } else {
        None
    }
}

fn str_equals(a: &str, b: &str) -> (r: bool)
    ensures
        r == (a@ == b@),
{
    let n = a.unicode_len();
    if n != b.unicode_len() {
        return false;
    }
    let mut i: usize = 0;
    while i < n
        invariant
            0 <= i <= n,
            n == a@.len(),
            n == b@.len(),
            forall|k: int| 0 <= k < i ==> a@[k] == b@[k],
        decreases n - i,
    {
        if a.get_char(i) != b.get_char(i) {
            return false;
        }
        i += 1;
    }
    assert(a@ =~= b@);
    true
}

pub fn key_to_action(key: &str) -> (r: Option<GameAction>)
    ensures
        r == key_action(key@),
{
    if str_equals(key, "left") {
        Some(GameAction::MoveLeft)
    } else if str_equals(key, "right") {
        Some(GameAction::MoveRight)
    } else if str_equals(key, "down") {
        Some(GameAction::SoftDrop)
    } else if str_equals(key, "up") {
        Some(GameAction::RotateCw)
    } else if str_equals(key, "space") {
        Some(GameAction::HardDrop)
    } else if str_equals(key, "c") {
        Some(GameAction::Hold)
    } else {
        None
    }
}

} // verus!
