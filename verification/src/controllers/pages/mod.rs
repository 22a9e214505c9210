//! The rules of each screen.

pub mod game_page_controller;
pub mod home_page_controller;
pub mod meal_page_controller;
pub mod play_page_controller;
