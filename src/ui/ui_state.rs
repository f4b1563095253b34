use vstd::prelude::*;

use crate::game::actions::after_action;
use crate::game::input::GameAction;
use crate::game::state::{after_reset, GameState, GameView};
use crate::game::types::Ruleset;

verus! {

/// Sound volume a new session starts with, in percent.
pub const DEFAULT_SFX_VOLUME_PERCENT: u32 = 70;

/// One play session around a game: the title and settings screens, the last input
/// shown to the player, and the sound settings.
pub struct UiState {
    pub last_action: Option<GameAction>,
    pub state: GameState,
    pub started: bool,
    pub show_settings: bool,
    /// Volume in percent, 0 to 100.
    pub sfx_volume_percent: u32,
    pub sfx_muted: bool,
}

/// The game after a start from the title screen: a new game, running.
pub open spec fn started_game(s: GameView) -> GameView {
    GameView { paused: false, ..after_reset(s) }
}

impl UiState {
    pub fn new(state: GameState) -> (r: Self)
        ensures
            r.state == state,
            r.last_action.is_none(),
            !r.started,
            !r.show_settings,
            r.sfx_volume_percent == DEFAULT_SFX_VOLUME_PERCENT,
            !r.sfx_muted,
    {
        Self {
            last_action: None,
            state,
            started: false,
            show_settings: false,
            sfx_volume_percent: DEFAULT_SFX_VOLUME_PERCENT,
            sfx_muted: false,
        }
    }

    pub fn receive_action(&mut self, action: GameAction)
        requires
            old(self).state.rules.b2b_bonus_den > 0,
        ensures
            final(self).last_action == Some(action),
            Self::routed(*old(self), *final(self), action),
    {
        self.apply_action(action, true);
    }

    /// Where an action goes: on the title screen only restart or hard drop does
    /// anything (it starts the game); on the settings screen nothing; otherwise the
    /// game applies it. The sound settings never change.
    pub open spec fn routed(before: UiState, after: UiState, action: GameAction) -> bool {
        &&& after.sfx_volume_percent == before.sfx_volume_percent
        &&& after.sfx_muted == before.sfx_muted
        &&& if !before.started {
            if action == GameAction::Restart || action == GameAction::HardDrop {
                after.started && !after.show_settings && after.state@ == started_game(before.state@)
            } else {
                !after.started && after.show_settings == before.show_settings && after.state@ == before.state@
            }
        } else if before.show_settings {
            after.started && after.show_settings && after.state@ == before.state@
        } else {
            after.started && !after.show_settings && after.state@ == after_action(before.state@, action)
        }
    }

    /// Routes an action (see `routed`), remembering it as the last input when `record`.
    pub fn apply_action(&mut self, action: GameAction, record: bool)
        requires
            old(self).state.rules.b2b_bonus_den > 0,
        ensures
            final(self).last_action == if record {
                Some(action)
            } else {
                old(self).last_action
            },
            Self::routed(*old(self), *final(self), action),
    {
        if record {
            self.last_action = Some(action);
        }
        if !self.started {
            if action == GameAction::Restart || action == GameAction::HardDrop {
                self.start_game();
            }
            return;
        }
        if self.show_settings {
            return;
        }
        self.state.apply_action(action);
        if action == GameAction::Restart {
            self.started = true;
        }
    }

    /// Leaves the title or settings screen with a new, running game.
    pub fn start_game(&mut self)
        ensures
            final(self).started,
            !final(self).show_settings,
            final(self).state@ == started_game(old(self).state@),
            final(self).last_action == old(self).last_action,
            final(self).sfx_volume_percent == old(self).sfx_volume_percent,
            final(self).sfx_muted == old(self).sfx_muted,
    {
        self.started = true;
        self.show_settings = false;
        self.state.reset();
        self.state.paused = false;
    }

    /// Opens or closes the settings screen; opening it pauses a game that is not over.
    pub fn toggle_settings(&mut self)
        ensures
            final(self).show_settings == !old(self).show_settings,
            final(self).state@ == if final(self).show_settings && !old(self).state.game_over {
                GameView { paused: true, ..old(self).state@ }
            } else {
                old(self).state@
            },
            final(self).started == old(self).started,
            final(self).last_action == old(self).last_action,
            final(self).sfx_volume_percent == old(self).sfx_volume_percent,
            final(self).sfx_muted == old(self).sfx_muted,
    {
        self.show_settings = !self.show_settings;
        if self.show_settings && !self.state.game_over {
            self.state.paused = true;
        }
    }

    pub fn close_settings(&mut self)
        ensures
            !final(self).show_settings,
            final(self).state == old(self).state,
            final(self).started == old(self).started,
            final(self).last_action == old(self).last_action,
            final(self).sfx_volume_percent == old(self).sfx_volume_percent,
            final(self).sfx_muted == old(self).sfx_muted,
    {
        if self.show_settings {
            self.show_settings = false;
        }
    }

    pub fn toggle_mute(&mut self)
        ensures
            final(self).sfx_muted == !old(self).sfx_muted,
            final(self).sfx_volume_percent == old(self).sfx_volume_percent,
            final(self).state == old(self).state,
            final(self).started == old(self).started,
            final(self).show_settings == old(self).show_settings,
            final(self).last_action == old(self).last_action,
    {
        self.sfx_muted = !self.sfx_muted;
    }

    /// Changes the volume by `delta` percent, kept within 0 to 100, and unmutes.
    pub fn adjust_volume(&mut self, delta: i32)
        ensures
            !final(self).sfx_muted,
            final(self).sfx_volume_percent == {
                let v = old(self).sfx_volume_percent + delta;
                if v < 0 {
                    0
                } else if v > 100 {
                    100
                } else {
                    v
                }
            },
            final(self).state == old(self).state,
            final(self).started == old(self).started,
            final(self).show_settings == old(self).show_settings,
            final(self).last_action == old(self).last_action,
    {
        self.sfx_muted = false;
        let v = self.sfx_volume_percent as i64 + delta as i64;
        self.sfx_volume_percent = if v < 0 {
            0
        } else if v > 100 {
            100
        } else {
            v as u32
        };
    }

    pub fn reset_settings(&mut self)
        ensures
            !final(self).sfx_muted,
            final(self).sfx_volume_percent == DEFAULT_SFX_VOLUME_PERCENT,
            final(self).state == old(self).state,
            final(self).started == old(self).started,
            final(self).show_settings == old(self).show_settings,
            final(self).last_action == old(self).last_action,
    {
        self.sfx_muted = false;
        self.sfx_volume_percent = DEFAULT_SFX_VOLUME_PERCENT;
    }

    /// The volume to play at: 0 when muted.
    pub fn effective_volume_percent(&self) -> (r: u32)
        ensures
            r == if self.sfx_muted {
                0
            } else {
                self.sfx_volume_percent
            },
    {
        if self.sfx_muted {
            0
        } else {
            self.sfx_volume_percent
        }
    }

    pub fn can_accept_game_input(&self) -> (r: bool)
        ensures
            r == (self.started && !self.show_settings && !self.state.paused && !self.state.game_over),
    {
        self.started && !self.show_settings && !self.state.paused && !self.state.game_over
    }

    pub fn status_label(&self) -> (r: &'static str)
        ensures
            r@ == if !self.started {
                "Title"@
            } else if self.state.game_over {
                "Game Over"@
            } else if self.show_settings {
                "Settings"@
            } else if self.state.paused {
                "Paused"@
            } else {
                "Playing"@
            },
    {
        if !self.started {
            "Title"
        } else if self.state.game_over {
            "Game Over"
        } else if self.show_settings {
            "Settings"
        } else if self.state.paused {
            "Paused"
        } else {
            "Playing"
        }
    }

    pub fn ruleset_label(&self) -> (r: &'static str)
        ensures
            r@ == if self.state.ruleset == Ruleset::Classic {
                "Classic"@
            } else {
                "Modern"@
            },
    {
        if self.state.is_classic_ruleset() {
            "Classic"
        } else {
            "Modern"
        }
    }

    /// Losing window focus pauses a started game that is not over.
    pub fn pause_from_focus_loss(&mut self)
        ensures
            final(self).state@ == if old(self).started && !old(self).state.game_over {
                GameView { paused: true, ..old(self).state@ }
            } else {
                old(self).state@
            },
            final(self).started == old(self).started,
            final(self).show_settings == old(self).show_settings,
            final(self).last_action == old(self).last_action,
            final(self).sfx_volume_percent == old(self).sfx_volume_percent,
            final(self).sfx_muted == old(self).sfx_muted,
    {
        if self.started && !self.state.game_over {
            self.state.paused = true;
        }
    }
}

/// Short name of an action, as shown for the last input.
pub open spec fn action_name(action: GameAction) -> Seq<char> {
    match action {
        GameAction::MoveLeft => "Left"@,
        GameAction::MoveRight => "Right"@,
        GameAction::SoftDrop => "Soft Drop"@,
        GameAction::HardDrop => "Hard Drop"@,
        GameAction::RotateCw => "Rotate CW"@,
        GameAction::RotateCcw => "Rotate CCW"@,
        GameAction::Hold => "Hold"@,
        GameAction::Pause => "Pause"@,
        GameAction::Restart => "Restart"@,
    }
}

pub fn action_label(action: &GameAction) -> (r: &'static str)
    ensures
        r@ == action_name(*action),
{
    match action {
        GameAction::MoveLeft => "Left",
        GameAction::MoveRight => "Right",
        GameAction::SoftDrop => "Soft Drop",
        GameAction::HardDrop => "Hard Drop",
        GameAction::RotateCw => "Rotate CW",
        GameAction::RotateCcw => "Rotate CCW",
        GameAction::Hold => "Hold",
        GameAction::Pause => "Pause",
        GameAction::Restart => "Restart",
    }
}

} // verus!
