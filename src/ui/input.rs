use vstd::prelude::*;

use crate::game::input::{released, repeat_step, GameAction, RepeatConfig, RepeatState, RepeatView};

verus! {

/// Which horizontal direction was pressed last.
#[derive(Clone, Copy, Debug, PartialEq, Eq, Structural)]
pub enum AxisDirection {
    Left,
    Right,
}

/// An action produced by input, and whether it is shown as the last input.
#[derive(Clone, Copy, Debug, PartialEq, Eq, Structural)]
pub struct InputAction {
    pub action: GameAction,
    pub record: bool,
}

/// Gamepad buttons the game reacts to.
#[derive(Clone, Copy, Debug, PartialEq, Eq, Structural)]
pub enum PadButton {
    DPadLeft,
    DPadRight,
    DPadDown,
    South,
    East,
    West,
    North,
    Start,
    Select,
    Mode,
    Other,
}

/// Gamepad axes the game reacts to.
#[derive(Clone, Copy, Debug, PartialEq, Eq, Structural)]
pub enum PadAxis {
    LeftStickX,
    LeftStickY,
    Other,
}

/// Held keys and buttons of keyboard and gamepad, turned into movement with auto-repeat.
#[derive(Clone, Debug)]
pub struct InputState {
    repeat_config: RepeatConfig,
    soft_drop_repeat_config: RepeatConfig,
    left_repeat: RepeatState,
    right_repeat: RepeatState,
    down_repeat: RepeatState,
    keyboard_left_held: bool,
    keyboard_right_held: bool,
    last_dir: Option<AxisDirection>,
    controller_left_button: bool,
    controller_right_button: bool,
    controller_down_button: bool,
    controller_left_axis: bool,
    controller_right_axis: bool,
    controller_down_axis: bool,
    controller_left_held: bool,
    controller_right_held: bool,
    controller_down_held: bool,
}

pub struct InputView {
    pub repeat_config: RepeatConfig,
    pub soft_drop_repeat_config: RepeatConfig,
    pub left: RepeatView,
    pub right: RepeatView,
    pub down: RepeatView,
    pub keyboard_left_held: bool,
    pub keyboard_right_held: bool,
    pub last_dir: Option<AxisDirection>,
    pub controller_left_button: bool,
    pub controller_right_button: bool,
    pub controller_down_button: bool,
    pub controller_left_axis: bool,
    pub controller_right_axis: bool,
    pub controller_down_axis: bool,
    pub controller_left_held: bool,
    pub controller_right_held: bool,
    pub controller_down_held: bool,
}

impl View for InputState {
    type V = InputView;

    closed spec fn view(&self) -> InputView {
        InputView {
            repeat_config: self.repeat_config,
            soft_drop_repeat_config: self.soft_drop_repeat_config,
            left: self.left_repeat@,
            right: self.right_repeat@,
            down: self.down_repeat@,
            keyboard_left_held: self.keyboard_left_held,
            keyboard_right_held: self.keyboard_right_held,
            last_dir: self.last_dir,
            controller_left_button: self.controller_left_button,
            controller_right_button: self.controller_right_button,
            controller_down_button: self.controller_down_button,
            controller_left_axis: self.controller_left_axis,
            controller_right_axis: self.controller_right_axis,
            controller_down_axis: self.controller_down_axis,
            controller_left_held: self.controller_left_held,
            controller_right_held: self.controller_right_held,
            controller_down_held: self.controller_down_held,
        }
    }
}

pub open spec fn recorded(a: GameAction) -> InputAction {
    InputAction { action: a, record: true }
}

pub open spec fn silent(a: GameAction) -> InputAction {
    InputAction { action: a, record: false }
}

pub open spec fn pressed_view() -> RepeatView {
    RepeatView { held: true, time_since_press_ms: 0, repeats_fired: 0 }
}

/// Brings a repeat state in line with whether its input is held: a new hold starts
/// auto-repeat and fires `a` once; letting go stops it.
pub open spec fn follow_hold(r: RepeatView, held: bool, a: GameAction) -> (RepeatView, Seq<InputAction>) {
    if held && !r.held {
        (pressed_view(), seq![recorded(a)])
    } else if !held && r.held {
        (released(), Seq::empty())
    } else {
        (r, Seq::empty())
    }
}

/// Left and right follow keyboard or gamepad; the most recent single direction is
/// remembered for when both are held.
pub open spec fn sync_movement(v: InputView) -> (InputView, Seq<InputAction>) {
    let left = v.keyboard_left_held || v.controller_left_held;
    let right = v.keyboard_right_held || v.controller_right_held;
    let (l, a1) = follow_hold(v.left, left, GameAction::MoveLeft);
    let (r, a2) = follow_hold(v.right, right, GameAction::MoveRight);
    let dir = if left && !right {
        Some(AxisDirection::Left)
    } else if right && !left {
        Some(AxisDirection::Right)
    } else if !left && !right {
        None
    } else {
        v.last_dir
    };
    (InputView { left: l, right: r, last_dir: dir, ..v }, a1 + a2)
}

/// Gamepad holds: buttons or stick; then movement follows, and soft drop follows down.
pub open spec fn sync_controller(v: InputView) -> (InputView, Seq<InputAction>) {
    let v1 = InputView {
        controller_left_held: v.controller_left_button || v.controller_left_axis,
        controller_right_held: v.controller_right_button || v.controller_right_axis,
        ..v
    };
    let (v2, a) = sync_movement(v1);
    let down = v.controller_down_button || v.controller_down_axis;
    if down != v2.controller_down_held {
        let (d, b) = follow_hold(v2.down, down, GameAction::SoftDrop);
        (InputView { controller_down_held: down, down: d, ..v2 }, a + b)
    } else {
        (v2, a)
    }
}

/// Drops every gamepad hold.
pub open spec fn cleared_controller(v: InputView) -> InputView {
    sync_movement(
        InputView {
            controller_left_button: false,
            controller_right_button: false,
            controller_down_button: false,
            controller_left_axis: false,
            controller_right_axis: false,
            controller_down_axis: false,
            controller_left_held: false,
            controller_right_held: false,
            controller_down_held: false,
            down: released(),
            ..v
        },
    ).0
}

/// The action a button press fires at once, if any.
pub open spec fn button_action(button: PadButton) -> Option<GameAction> {
    match button {
        PadButton::South => Some(GameAction::RotateCw),
        PadButton::East => Some(GameAction::RotateCcw),
        PadButton::West => Some(GameAction::Hold),
        PadButton::North => Some(GameAction::HardDrop),
        PadButton::Start => Some(GameAction::Pause),
        PadButton::Select | PadButton::Mode => Some(GameAction::Restart),
        _ => None,
    }
}

pub open spec fn after_button(v: InputView, button: PadButton, pressed: bool) -> (InputView, Seq<InputAction>) {
    let v1 = match button {
        PadButton::DPadLeft => InputView { controller_left_button: pressed, ..v },
        PadButton::DPadRight => InputView { controller_right_button: pressed, ..v },
        PadButton::DPadDown => InputView { controller_down_button: pressed, ..v },
        _ => v,
    };
    let fired: Seq<InputAction> = if pressed && button_action(button).is_some() {
        seq![silent(button_action(button).unwrap())]
    } else {
        Seq::empty()
    };
    let (v2, a) = sync_controller(v1);
    (v2, fired + a)
}

/// `n` copies of a recorded action.
pub open spec fn repeated(a: GameAction, n: nat) -> Seq<InputAction> {
    Seq::new(n, |i: int| recorded(a))
}

/// Direction that repeats: the one held alone, or the last pressed when both are.
pub open spec fn repeat_direction(v: InputView) -> Option<AxisDirection> {
    if v.left.held && !v.right.held {
        Some(AxisDirection::Left)
    } else if v.right.held && !v.left.held {
        Some(AxisDirection::Right)
    } else if v.left.held && v.right.held {
        v.last_dir
    } else {
        None
    }
}

pub open spec fn horizontal_repeats(v: InputView, elapsed_ms: u64) -> (InputView, Seq<InputAction>) {
    match repeat_direction(v) {
        Some(AxisDirection::Left) => {
            let (l, n) = repeat_step(v.left, elapsed_ms, v.repeat_config);
            (InputView { left: l, ..v }, repeated(GameAction::MoveLeft, (n as u32) as nat))
        },
        Some(AxisDirection::Right) => {
            let (r, n) = repeat_step(v.right, elapsed_ms, v.repeat_config);
            (InputView { right: r, ..v }, repeated(GameAction::MoveRight, (n as u32) as nat))
        },
        None => (v, Seq::empty()),
    }
}

pub open spec fn soft_drop_repeats(v: InputView, elapsed_ms: u64) -> (InputView, Seq<InputAction>) {
    if v.down.held {
        let (d, n) = repeat_step(v.down, elapsed_ms, v.soft_drop_repeat_config);
        (InputView { down: d, ..v }, repeated(GameAction::SoftDrop, (n as u32) as nat))
    } else {
        (v, Seq::empty())
    }
}

/// Auto-repeat for one frame: nothing (and every repeat stopped) while the game takes
/// no input; otherwise the current horizontal direction and soft drop repeat.
pub open spec fn after_repeats(v: InputView, elapsed_ms: u64, can_accept: bool) -> (InputView, Seq<InputAction>) {
    if !can_accept {
        (InputView { left: released(), right: released(), down: released(), last_dir: None, ..v }, Seq::empty())
    } else {
        let (v1, a) = horizontal_repeats(v, elapsed_ms);
        let (v2, b) = soft_drop_repeats(v1, elapsed_ms);
        (v2, a + b)
    }
}

fn push_repeated(actions: &mut Vec<InputAction>, a: GameAction, count: u32)
    ensures
        final(actions)@ == old(actions)@ + repeated(a, count as nat),
{
    let ghost start = actions@;
    let mut i: u32 = 0;
    while i < count
        invariant
            i <= count,
            actions@ == start + repeated(a, i as nat),
        decreases count - i,
    {
        actions.push(InputAction { action: a, record: true });
        i += 1;
        assert(actions@ =~= start + repeated(a, i as nat));
    }
}

fn append(actions: &mut Vec<InputAction>, more: Vec<InputAction>)
    ensures
        final(actions)@ == old(actions)@ + more@,
{
    let mut more = more;
    actions.append(&mut more);
}

impl InputState {
    pub fn new() -> (r: Self)
        ensures
            r@.left == released() && r@.right == released() && r@.down == released(),
            r@.repeat_config == (RepeatConfig { das_ms: 150, arr_ms: 50 }),
            r@.soft_drop_repeat_config == (RepeatConfig { das_ms: 0, arr_ms: 50 }),
            !r@.keyboard_left_held && !r@.keyboard_right_held && r@.last_dir.is_none(),
            !r@.controller_left_button && !r@.controller_right_button && !r@.controller_down_button,
            !r@.controller_left_axis && !r@.controller_right_axis && !r@.controller_down_axis,
            !r@.controller_left_held && !r@.controller_right_held && !r@.controller_down_held,
    {
        Self {
            repeat_config: RepeatConfig::default(),
            soft_drop_repeat_config: RepeatConfig { das_ms: 0, arr_ms: 50 },
            left_repeat: RepeatState::new(),
            right_repeat: RepeatState::new(),
            down_repeat: RepeatState::new(),
            keyboard_left_held: false,
            keyboard_right_held: false,
            last_dir: None,
            controller_left_button: false,
            controller_right_button: false,
            controller_down_button: false,
            controller_left_axis: false,
            controller_right_axis: false,
            controller_down_axis: false,
            controller_left_held: false,
            controller_right_held: false,
            controller_down_held: false,
        }
    }

    fn follow(rep: &mut RepeatState, held: bool, a: GameAction) -> (r: Vec<InputAction>)
        ensures
            (final(rep)@, r@) == follow_hold(old(rep)@, held, a),
    {
        let mut actions: Vec<InputAction> = Vec::new();
        if held != rep.is_held() {
            if held {
                if rep.press() {
                    actions.push(InputAction { action: a, record: true });
                }
            } else {
                rep.release();
            }
        }
        assert(actions@ =~= follow_hold(old(rep)@, held, a).1);
        actions
    }

    fn sync_movement_holds(&mut self) -> (r: Vec<InputAction>)
        ensures
            (final(self)@, r@) == sync_movement(old(self)@),
    {
        let left = self.keyboard_left_held || self.controller_left_held;
        let right = self.keyboard_right_held || self.controller_right_held;
        let mut actions = Self::follow(&mut self.left_repeat, left, GameAction::MoveLeft);
        let more = Self::follow(&mut self.right_repeat, right, GameAction::MoveRight);
        append(&mut actions, more);
        match (left, right) {
            (true, false) => self.last_dir = Some(AxisDirection::Left),
            (false, true) => self.last_dir = Some(AxisDirection::Right),
            (false, false) => self.last_dir = None,
            (true, true) => {},
        }
        actions
    }

    fn sync_controller_holds(&mut self) -> (r: Vec<InputAction>)
        ensures
            (final(self)@, r@) == sync_controller(old(self)@),
    {
        let left = self.controller_left_button || self.controller_left_axis;
        let right = self.controller_right_button || self.controller_right_axis;
        let down = self.controller_down_button || self.controller_down_axis;
        self.controller_left_held = left;
        self.controller_right_held = right;
        let mut actions = self.sync_movement_holds();
        if down != self.controller_down_held {
            self.controller_down_held = down;
            let more = Self::follow(&mut self.down_repeat, down, GameAction::SoftDrop);
            append(&mut actions, more);
        }
        actions
    }

    pub fn set_keyboard_left(&mut self, held: bool) -> (r: Vec<InputAction>)
        ensures
            (final(self)@, r@) == sync_movement(InputView { keyboard_left_held: held, ..old(self)@ }),
    {
        self.keyboard_left_held = held;
        self.sync_movement_holds()
    }

    pub fn set_keyboard_right(&mut self, held: bool) -> (r: Vec<InputAction>)
        ensures
            (final(self)@, r@) == sync_movement(InputView { keyboard_right_held: held, ..old(self)@ }),
    {
        self.keyboard_right_held = held;
        self.sync_movement_holds()
    }

    /// Forgets every held key and button, as when the window loses focus.
    pub fn clear_focus_state(&mut self)
        ensures
            final(self)@ == cleared_controller(
                InputView { keyboard_left_held: false, keyboard_right_held: false, ..old(self)@ },
            ),
    {
        self.keyboard_left_held = false;
        self.keyboard_right_held = false;
        self.clear_controller_state();
    }

    /// Forgets the gamepad's holds, as when it disconnects.
    pub fn clear_controller_state(&mut self)
        ensures
            final(self)@ == cleared_controller(old(self)@),
    {
        self.controller_left_button = false;
        self.controller_right_button = false;
        self.controller_down_button = false;
        self.controller_left_axis = false;
        self.controller_right_axis = false;
        self.controller_down_axis = false;
        self.controller_left_held = false;
        self.controller_right_held = false;
        self.controller_down_held = false;
        self.down_repeat.release();
        let _ = self.sync_movement_holds();
    }

    /// A gamepad button went down or up.
    pub fn handle_controller_button(&mut self, button: PadButton, pressed: bool) -> (r: Vec<InputAction>)
        ensures
            (final(self)@, r@) == after_button(old(self)@, button, pressed),
    {
        let mut actions: Vec<InputAction> = Vec::new();
        match button {
            PadButton::DPadLeft => self.controller_left_button = pressed,
            PadButton::DPadRight => self.controller_right_button = pressed,
            PadButton::DPadDown => self.controller_down_button = pressed,
            PadButton::South => if pressed {
                actions.push(InputAction { action: GameAction::RotateCw, record: false });
            },
            PadButton::East => if pressed {
                actions.push(InputAction { action: GameAction::RotateCcw, record: false });
            },
            PadButton::West => if pressed {
                actions.push(InputAction { action: GameAction::Hold, record: false });
            },
            PadButton::North => if pressed {
                actions.push(InputAction { action: GameAction::HardDrop, record: false });
            },
            PadButton::Start => if pressed {
                actions.push(InputAction { action: GameAction::Pause, record: false });
            },
            PadButton::Select | PadButton::Mode => if pressed {
                actions.push(InputAction { action: GameAction::Restart, record: false });
            },
            PadButton::Other => {},
        }
        let ghost fired = actions@;
        let more = self.sync_controller_holds();
        append(&mut actions, more);
        proof {
            let f: Seq<InputAction> = if pressed && button_action(button).is_some() {
                seq![silent(button_action(button).unwrap())]
            } else {
                Seq::empty()
            };
            assert(fired =~= f);
        }
        actions
    }

    /// A gamepad stick moved: `below` when its value is under the negative threshold,
    /// `above` when over the positive one.
    pub fn handle_controller_axis(&mut self, axis: PadAxis, below: bool, above: bool) -> (r: Vec<InputAction>)
        ensures
            (final(self)@, r@) == sync_controller(
                match axis {
                    PadAxis::LeftStickX => InputView {
                        controller_left_axis: below,
                        controller_right_axis: above,
                        ..old(self)@
                    },
                    PadAxis::LeftStickY => InputView { controller_down_axis: above, ..old(self)@ },
                    PadAxis::Other => old(self)@,
                },
            ),
    {
        match axis {
            PadAxis::LeftStickX => {
                self.controller_left_axis = below;
                self.controller_right_axis = above;
            },
            PadAxis::LeftStickY => {
                self.controller_down_axis = above;
            },
            PadAxis::Other => {},
        }
        self.sync_controller_holds()
    }

    fn horizontal_repeat(&mut self, elapsed_ms: u64) -> (r: Vec<InputAction>)
        ensures
            (final(self)@, r@) == horizontal_repeats(old(self)@, elapsed_ms),
    {
        let mut actions: Vec<InputAction> = Vec::new();
        let direction = match (self.left_repeat.is_held(), self.right_repeat.is_held()) {
            (true, false) => Some(AxisDirection::Left),
            (false, true) => Some(AxisDirection::Right),
            (true, true) => self.last_dir,
            _ => None,
        };
        match direction {
            Some(AxisDirection::Left) => {
                let count = self.left_repeat.tick(elapsed_ms, &self.repeat_config);
                push_repeated(&mut actions, GameAction::MoveLeft, count);
            },
            Some(AxisDirection::Right) => {
                let count = self.right_repeat.tick(elapsed_ms, &self.repeat_config);
                push_repeated(&mut actions, GameAction::MoveRight, count);
            },
            None => {},
        }
        assert(actions@ =~= horizontal_repeats(old(self)@, elapsed_ms).1);
        actions
    }

    /// Auto-repeat for a frame of `elapsed_ms`; see `after_repeats`.
    pub fn apply_repeats(&mut self, elapsed_ms: u64, can_accept: bool) -> (r: Vec<InputAction>)
        ensures
            (final(self)@, r@) == after_repeats(old(self)@, elapsed_ms, can_accept),
    {
        let mut actions: Vec<InputAction> = Vec::new();
        if !can_accept {
            self.left_repeat.release();
            self.right_repeat.release();
            self.down_repeat.release();
            self.last_dir = None;
            assert(actions@ =~= Seq::<InputAction>::empty());
            return actions;
        }
        let mut actions = self.horizontal_repeat(elapsed_ms);
        if self.down_repeat.is_held() {
            let count = self.down_repeat.tick(elapsed_ms, &self.soft_drop_repeat_config);
            push_repeated(&mut actions, GameAction::SoftDrop, count);
        }
        assert(actions@ =~= after_repeats(old(self)@, elapsed_ms, can_accept).1);
        actions
    }
}

} // verus!
