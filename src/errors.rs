use vstd::prelude::*;

verus! {

/// A trap raised while the machine executes a program. Each variant carries
/// the code address of the instruction that raised it.
#[derive(Debug, Clone, Copy, PartialEq, Eq, Structural)]
pub enum TAMError {
    /// An access to data outside the live stack and heap, or a control
    /// transfer to a code address at or past the code top: `(pc, addr)`.
    SegmentationFault(usize, usize),
    /// The stack and the heap have collided.
    StackOverflow(usize),
    /// A `div` or `mod` primitive was given a zero divisor.
    DivideByZero(usize),
    /// A value was popped from an empty stack.
    StackUnderflow(usize),
    /// An instruction names a register index outside `0..16`: `(pc, index)`.
    InvalidRegister(usize, usize),
    /// A reserved opcode or primitive that this machine does not implement.
    Unimplemented(usize),
}

pub type TAMResult<T> = Result<T, TAMError>;

} // verus!
