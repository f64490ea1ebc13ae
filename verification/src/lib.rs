//! Dice that tumble across a rectangular arena, and the rules that turn the
//! faces they settle on into the result of a roll.

pub mod agreement;
pub mod arena;
pub mod chance;
pub mod colour;
pub mod die;
pub mod directions;
pub mod display;
pub mod graph;
pub mod input_handling;
pub mod order;
pub mod resolver;
pub mod summary;
pub mod table;
pub mod text;
pub mod util;
