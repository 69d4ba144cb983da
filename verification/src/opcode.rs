//! The opcodes of the calculator.
use vstd::prelude::*;

verus! {

/// An opcode: one parsed unit of executable behavior.
///
/// A numeric operand is an IEEE 754 binary64 value carried as its bit
/// pattern, so the payload of `Ldc` is the `u64` holding those bits.
#[derive(Clone, Copy, Debug, PartialEq, Eq, Structural)]
pub enum Instruction {
    /// Push a constant onto the stack.
    Ldc(u64),
    /// Negate the top of the stack.
    Neg,
    /// Replace the two topmost values by their sum.
    Add,
    /// Replace the two topmost values by their difference.
    Sub,
    /// Replace the two topmost values by their product.
    Mul,
    /// Replace the two topmost values by their quotient.
    Div,
    /// Push 1.0 when the two topmost values are equal, else 0.0.
    Ceq,
    /// Push 1.0 when the second value from the top is greater than the top, else 0.0.
    Cgt,
    /// Push 1.0 when the second value from the top is less than the top, else 0.0.
    Clt,
    /// Push a copy of the top of the stack.
    Dup,
    /// Remove the top of the stack.
    Pop,
}

impl Instruction {
    /// How many stack operands the opcode consumes or inspects.
    pub open spec fn operands_needed(self) -> nat {
        match self {
            Instruction::Ldc(_) => 0,
            Instruction::Neg | Instruction::Dup | Instruction::Pop => 1,
            _ => 2,
        }
    }
}

} // verus!
