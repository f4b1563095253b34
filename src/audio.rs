use vstd::prelude::*;

use crate::game::types::SoundEvent;

verus! {

/// Name of the sound asset played for an event.
pub open spec fn asset_key(event: SoundEvent) -> Seq<char> {
    match event {
        SoundEvent::Move => "move"@,
        SoundEvent::Rotate => "rotate"@,
        SoundEvent::SoftDrop => "soft_drop"@,
        SoundEvent::HardDrop => "hard_drop"@,
        SoundEvent::Hold => "hold"@,
        SoundEvent::LineClear(1) => "line_clear_1"@,
        SoundEvent::LineClear(2) => "line_clear_2"@,
        SoundEvent::LineClear(3) => "line_clear_3"@,
        SoundEvent::LineClear(_) => "line_clear_4"@,
        SoundEvent::GameOver => "game_over"@,
    }
}

/// Every event has an asset; larger clears beyond three share the four-line sound.
pub fn sound_event_to_asset(event: &SoundEvent) -> (r: Option<&'static str>)
    ensures
        r.is_some(),
        r.unwrap()@ == asset_key(*event),
{
    let key = match event {
        SoundEvent::Move => "move",
        SoundEvent::Rotate => "rotate",
        SoundEvent::SoftDrop => "soft_drop",
        SoundEvent::HardDrop => "hard_drop",
        SoundEvent::Hold => "hold",
        SoundEvent::LineClear(1) => "line_clear_1",
        SoundEvent::LineClear(2) => "line_clear_2",
        SoundEvent::LineClear(3) => "line_clear_3",
        SoundEvent::LineClear(_) => "line_clear_4",
        SoundEvent::GameOver => "game_over",
    };
    Some(key)
}

} // verus!
