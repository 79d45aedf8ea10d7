//! Decision core of an auto splitter: old/current value pairs sampled from a
//! game's memory each tick, and the rules that turn them into timer commands.

pub mod pair;
pub mod watcher;
pub mod duration;
pub mod watchers;
pub mod engine;
pub mod driver;
