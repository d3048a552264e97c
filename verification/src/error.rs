//! What can go wrong while the machine runs.

use vstd::prelude::*;

verus! {

/// Why an operation on the machine was refused. A refused operation leaves
/// the machine as it was.
#[derive(Debug, Clone, Copy, PartialEq, Eq, Structural)]
pub enum Error {
    /// The word `instruction`, fetched at address `pc`, is no instruction of
    /// the machine.
    Decode { instruction: u16, pc: usize },
    /// A fetch, a memory access, a push or a pop would go beyond the memory
    /// or the stack.
    Bounds,
}

} // verus!
