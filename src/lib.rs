pub mod audio;
pub mod game;
pub mod ui;
