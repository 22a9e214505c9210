//! Game rules of a pedometer-driven virtual pet: steps earn rice balls and
//! shuriken, which are spent on meals and on a shuriken-throwing game that
//! raise the pet's intimacy.

pub mod action;
pub mod controllers;
pub mod game;
pub mod models;
