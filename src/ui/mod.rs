pub mod input;
pub mod ui_state;
