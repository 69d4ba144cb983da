//! Laws of the calculator, each proved once and for all inputs.
use vstd::prelude::*;

use crate::machine::{spec_run, spec_step};
use crate::numeric::{is_space, parsed_float};
use crate::opcode::Instruction;
use crate::parse::{has_ldc_prefix, spec_opcodes, spec_parse_line, spec_parse_token, spec_tokens};

verus! {

/// Law: a token `ldc:` followed by a valid numeric literal parses to a push
/// of the number that the literal denotes, and executing that push against
/// any stack appends the number at the top, leaving the rest unchanged.
pub proof fn lemma_push_literal(t: Seq<char>, s: Seq<u64>, v: u64)
    requires
        has_ldc_prefix(t),
        parsed_float(t.skip(4)) == Some(v),
    ensures
        spec_parse_token(t) == Some(Instruction::Ldc(v)),
        spec_run(seq![Instruction::Ldc(v)], s) == s.push(v),
{
    reveal_with_fuel(spec_run, 2);
    let ops = seq![Instruction::Ldc(v)];
    assert(spec_step(Instruction::Ldc(v), s) == s.push(v));
    assert(ops.drop_first() =~= Seq::<Instruction>::empty());
    assert(spec_run(ops, s) == s.push(v));
}

/// Law: a token outside the grammar yields no opcode, and executing the
/// empty opcode list leaves any stack unchanged.
pub proof fn lemma_unknown_token(t: Seq<char>, s: Seq<u64>)
    requires
        spec_parse_token(t) is None,
    ensures
        spec_opcodes(seq![t]) == Seq::<Instruction>::empty(),
        spec_run(Seq::<Instruction>::empty(), s) == s,
{
    reveal_with_fuel(spec_opcodes, 2);
    let tokens = seq![t];
    assert(tokens.first() == t);
    assert(tokens.drop_first() =~= Seq::<Seq<char>>::empty());
}

/// Law: an opcode that needs more operands than the stack holds leaves the
/// stack exactly unchanged, and execution goes on with the next opcode.
pub proof fn lemma_underflow_skip(op: Instruction, s: Seq<u64>)
    requires
        op.operands_needed() > s.len(),
    ensures
        spec_step(op, s) == s,
{
}

/// Law: the stack persists across lines. Executing one opcode sequence and
/// then another against the resulting stack is the same as executing their
/// concatenation, so splitting a program over several lines changes nothing.
pub proof fn lemma_run_append(ops1: Seq<Instruction>, ops2: Seq<Instruction>, s: Seq<u64>)
    ensures
        spec_run(ops1 + ops2, s) == spec_run(ops2, spec_run(ops1, s)),
    decreases ops1.len(),
{
    if ops1.len() == 0 {
        assert(ops1 + ops2 =~= ops2);
    } else {
        assert((ops1 + ops2).first() == ops1.first());
        assert((ops1 + ops2).drop_first() =~= ops1.drop_first() + ops2);
        lemma_run_append(ops1.drop_first(), ops2, spec_step(ops1.first(), s));
    }
}

/// Law: duplicating the top of the stack and at once discarding the copy
/// restores the stack exactly, whether or not the stack was empty.
pub proof fn lemma_dup_pop(s: Seq<u64>)
    ensures
        spec_run(seq![Instruction::Dup, Instruction::Pop], s) == s,
{
    reveal_with_fuel(spec_run, 3);
    let ops = seq![Instruction::Dup, Instruction::Pop];
    let s1 = spec_step(Instruction::Dup, s);
    assert(ops.drop_first() =~= seq![Instruction::Pop]);
    assert(seq![Instruction::Pop].drop_first() =~= Seq::<Instruction>::empty());
    if s.len() == 0 {
        assert(spec_step(Instruction::Pop, s1) == s);
    } else {
        assert(s1.drop_last() =~= s);
        assert(spec_step(Instruction::Pop, s1) == s);
    }
    assert(spec_run(ops, s) == spec_step(Instruction::Pop, s1));
}

/// Law: a line holding nothing but whitespace (an empty line among them)
/// yields no opcodes and leaves any stack unchanged, so the driver reprints
/// the stack as it was.
pub proof fn lemma_blank_line(line: Seq<char>, s: Seq<u64>)
    requires
        forall|j: int| 0 <= j < line.len() ==> is_space(line[j]),
    ensures
        spec_parse_line(line) == Seq::<Instruction>::empty(),
        spec_run(spec_parse_line(line), s) == s,
    decreases line.len(),
{
    if line.len() == 0 {
    } else {
        assert(is_space(line[0]));
        assert forall|j: int| 0 <= j < line.drop_first().len() implies is_space(
            line.drop_first()[j],
        ) by {
            assert(line.drop_first()[j] == line[j + 1]);
        }
        lemma_blank_line(line.drop_first(), s);
        assert(spec_tokens(line) == spec_tokens(line.drop_first()));
    }
}

} // verus!
