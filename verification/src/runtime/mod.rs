//! Running decoded bytecode against one stack frame.

pub mod class;
pub mod interpreter;
