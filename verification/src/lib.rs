//! Tic-tac-toe against a computer that plays at random: the game's state,
//! its rules as a transition function, and the text of its screens.

pub mod board;
pub mod laws;
pub mod model;
pub mod random;
pub mod rules;
pub mod update;
pub mod view;
