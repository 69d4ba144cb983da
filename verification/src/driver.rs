//! One step of the calculator's read-execute-print loop: everything between
//! reading a line and printing the stack.
use vstd::prelude::*;

use crate::machine::{execute, spec_run};
use crate::parse::{parse_line, spec_parse_line};

verus! {

/// Process one input line against the persistent stack: split the line on
/// whitespace, parse each token, drop the tokens outside the grammar, and
/// apply the remaining opcodes in order.
pub fn run_line(line: &str, stack: &mut Vec<u64>)
    ensures
        final(stack)@ == spec_run(spec_parse_line(line@), old(stack)@),
{
    let ops = parse_line(line);
    execute(ops, stack);
}

} // verus!
