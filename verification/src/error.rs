use vstd::prelude::*;

verus! {

/// The fatal conditions that stop the machine.
///
/// None of them is recoverable: each signals a malformed program image.
#[derive(Clone, Copy, Debug, PartialEq, Eq, Structural)]
pub enum EmulatorError {
    /// A memory access at an address at or beyond the size of the memory.
    OutOfBounds,
    /// A return while the call stack holds no return address.
    StackUnderflow,
    /// A 16-bit word that encodes no instruction; the word is carried along.
    UnknownInstruction(u16),
}

} // verus!
