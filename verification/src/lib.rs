//! The dice game Two Four Eighteen: the dice, the rules of a round, and the
//! state machines that carry a round from the sensor to the display.

pub mod cache;
pub mod dice;
pub mod die;
pub mod engine;
pub mod entities;
pub mod frame;
pub mod messages;
pub mod player;
pub mod tasks;
pub mod utils;
