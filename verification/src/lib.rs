//! A minimal Java virtual machine: a class-file parser, a bytecode
//! disassembler and a stack-frame interpreter, each with a proved contract.

use vstd::prelude::*;

pub mod class;
pub mod classreader;
pub mod code;
pub mod runtime;

verus! {

/// The longer of two strings, by their length in bytes; the second where
/// they are equally long.
pub fn longer<'a>(s1: &'a str, s2: &'a str) -> (r: &'a str)
    ensures
        r == if s1.len() > s2.len() {
            s1
        } else {
            s2
        },
{
    if s1.len() > s2.len() {
        s1
    } else {
        s2
    }
}

} // verus!
