//! The rules that turn key presses and acceleration samples into changes of
//! the game.

pub mod navigation_view_controller;
pub mod page_controller;
pub mod pages;
pub mod pedometer_view_controller;
