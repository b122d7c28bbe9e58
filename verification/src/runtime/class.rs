//! A method as the interpreter takes it.

use vstd::prelude::*;
use crate::code::instruction::Instruction;

verus! {

/// A method ready to run: the two capacities that its code attribute
/// declares, and its decoded instructions in order.
#[derive(Debug)]
pub struct RuntimeMethod {
    pub max_stack: u16,
    pub max_locals: u16,
    pub code: Vec<Instruction>,
}

} // verus!
