pub mod game;
pub mod menu;
pub mod player;
pub mod session;
