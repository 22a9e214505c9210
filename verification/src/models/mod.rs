//! The values the game is made of.

pub mod bet;
pub mod character;
pub mod counter;
pub mod food;
pub mod meal;
pub mod navigation;
pub mod pedometer;
pub mod rice_ball;
pub mod router;
pub mod shuriken;
pub mod target;
pub mod wallet;
