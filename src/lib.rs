pub mod coroutine;
pub mod exec_core;
pub mod scripted;
pub mod stack;
pub mod status;

pub use stack::{RawStack, Stack};
