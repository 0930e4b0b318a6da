pub mod rand;
pub mod descriptor;
pub mod point;
pub mod shape;
pub mod render;
pub mod game_state;
pub mod scene;
pub mod game;
