//! The stack executor: applies a sequence of opcodes to the numeric stack.
use vstd::prelude::*;

use crate::numeric::{
    add_bits, add_val, div_bits, div_val, eq_bits, eq_val, gt_bits, gt_val, lt_bits, lt_val,
    mul_bits, mul_val, neg_bits, neg_val, sub_bits, sub_val,
};
use crate::opcode::Instruction;

verus! {

/// The bit pattern of the binary64 number 1.0, pushed by a true comparison.
pub const ONE_BITS: u64 = 0x3FF0_0000_0000_0000;

/// The bit pattern of the binary64 number 0.0, pushed by a false comparison.
pub const ZERO_BITS: u64 = 0;

/// The bit pattern that a comparison pushes: 1.0 for true, 0.0 for false.
pub open spec fn flag_bits(b: bool) -> u64 {
    if b {
        ONE_BITS
    } else {
        ZERO_BITS
    }
}

/// The stack after one opcode.
///
/// An opcode that needs more operands than the stack holds leaves the stack
/// unchanged: a silent skip. Otherwise `Ldc` pushes its constant; `Neg`
/// replaces the top by its negation; a binary opcode pops the right operand
/// `b`, then the left operand `a`, and pushes the result; `Dup` pushes a copy
/// of the top; `Pop` removes the top.
pub open spec fn spec_step(op: Instruction, s: Seq<u64>) -> Seq<u64> {
    if op.operands_needed() > s.len() {
        s
    } else {
        let b = s[s.len() - 1];
        let a = s[s.len() - 2];
        match op {
            Instruction::Ldc(v) => s.push(v),
            Instruction::Neg => s.drop_last().push(neg_bits(b)),
            Instruction::Add => s.drop_last().drop_last().push(add_bits(a, b)),
            Instruction::Sub => s.drop_last().drop_last().push(sub_bits(a, b)),
            Instruction::Mul => s.drop_last().drop_last().push(mul_bits(a, b)),
            Instruction::Div => s.drop_last().drop_last().push(div_bits(a, b)),
            Instruction::Ceq => s.drop_last().drop_last().push(flag_bits(eq_bits(a, b))),
            Instruction::Cgt => s.drop_last().drop_last().push(flag_bits(gt_bits(a, b))),
            Instruction::Clt => s.drop_last().drop_last().push(flag_bits(lt_bits(a, b))),
            Instruction::Dup => s.push(b),
            Instruction::Pop => s.drop_last(),
        }
    }
}

/// The stack after a sequence of opcodes, applied left to right.
pub open spec fn spec_run(ops: Seq<Instruction>, s: Seq<u64>) -> Seq<u64>
    decreases ops.len(),
{
    if ops.len() == 0 {
        s
    } else {
        spec_run(ops.drop_first(), spec_step(ops.first(), s))
    }
}

/// Apply each opcode in order to the stack.
///
/// An opcode that needs more operands than the stack holds is silently
/// skipped, leaving the stack exactly as it was; execution continues with
/// the next opcode.
pub fn execute(instructions: Vec<Instruction>, stack: &mut Vec<u64>)
    ensures
        final(stack)@ == spec_run(instructions@, old(stack)@),
{
    let n = instructions.len();
    let mut idx: usize = 0;
    proof {
        assert(instructions@.skip(0) =~= instructions@);
    }
    while idx < n
        invariant
            idx <= n,
            n == instructions@.len(),
            spec_run(instructions@, old(stack)@) == spec_run(
                instructions@.skip(idx as int),
                stack@,
            ),
        decreases n - idx,
    {
        let ghost pending = instructions@.skip(idx as int);
        let ghost before = stack@;
        let op = instructions[idx];
        proof {
            assert(pending.first() == op);
            assert(pending.drop_first() =~= instructions@.skip(idx as int + 1));
        }
        match op {
            Instruction::Ldc(v) => {
                stack.push(v);
            },
            Instruction::Neg => {
                if stack.len() >= 1 {
                    let b = stack.pop().unwrap();
                    stack.push(neg_val(b));
                }
            },
            Instruction::Add => {
                if stack.len() >= 2 {
                    let b = stack.pop().unwrap();
                    let a = stack.pop().unwrap();
                    stack.push(add_val(a, b));
                }
            },
            Instruction::Sub => {
                if stack.len() >= 2 {
                    let b = stack.pop().unwrap();
                    let a = stack.pop().unwrap();
                    stack.push(sub_val(a, b));
                }
            },
            Instruction::Mul => {
                if stack.len() >= 2 {
                    let b = stack.pop().unwrap();
                    let a = stack.pop().unwrap();
                    stack.push(mul_val(a, b));
                }
            },
            Instruction::Div => {
                if stack.len() >= 2 {
                    let b = stack.pop().unwrap();
                    let a = stack.pop().unwrap();
                    stack.push(div_val(a, b));
                }
            },
            Instruction::Ceq => {
                if stack.len() >= 2 {
                    let b = stack.pop().unwrap();
                    let a = stack.pop().unwrap();
                    stack.push(if eq_val(a, b) {
                        ONE_BITS
                    } else {
                        ZERO_BITS
                    });
                }
            },
            Instruction::Cgt => {
                if stack.len() >= 2 {
                    let b = stack.pop().unwrap();
                    let a = stack.pop().unwrap();
                    stack.push(if gt_val(a, b) {
                        ONE_BITS
                    } else {
                        ZERO_BITS
                    });
                }
            },
            Instruction::Clt => {
                if stack.len() >= 2 {
                    let b = stack.pop().unwrap();
                    let a = stack.pop().unwrap();
                    stack.push(if lt_val(a, b) {
                        ONE_BITS
                    } else {
                        ZERO_BITS
                    });
                }
            },
            Instruction::Dup => {
                if stack.len() >= 1 {
                    let b = stack.pop().unwrap();
                    stack.push(b);
                    stack.push(b);
                }
            },
            Instruction::Pop => {
                if stack.len() >= 1 {
                    stack.pop();
                }
            },
        }
        proof {
            assert(stack@ =~= spec_step(op, before));
        }
        idx = idx + 1;
    }
    proof {
        assert(instructions@.skip(n as int) =~= Seq::<Instruction>::empty());
    }
}

} // verus!
