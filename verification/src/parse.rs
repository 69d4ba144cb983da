//! The token parser: maps one whitespace-free token to an opcode, or to
//! nothing when the token is not part of the grammar.
use vstd::prelude::*;

use crate::numeric::{char_is_space, is_space, parse_float, parsed_float};
use crate::opcode::Instruction;

verus! {

/// Whether `t` begins with the four characters `ldc:`.
pub open spec fn has_ldc_prefix(t: Seq<char>) -> bool {
    t.len() >= 4 && t[0] == 'l' && t[1] == 'd' && t[2] == 'c' && t[3] == ':'
}

/// The opcode of a three-character keyword, or `None` for any other word.
pub open spec fn spec_keyword(t: Seq<char>) -> Option<Instruction> {
    if t.len() != 3 {
        None
    } else if t[0] == 'n' && t[1] == 'e' && t[2] == 'g' {
        Some(Instruction::Neg)
    } else if t[0] == 'a' && t[1] == 'd' && t[2] == 'd' {
        Some(Instruction::Add)
    } else if t[0] == 's' && t[1] == 'u' && t[2] == 'b' {
        Some(Instruction::Sub)
    } else if t[0] == 'm' && t[1] == 'u' && t[2] == 'l' {
        Some(Instruction::Mul)
    } else if t[0] == 'd' && t[1] == 'i' && t[2] == 'v' {
        Some(Instruction::Div)
    } else if t[0] == 'c' && t[1] == 'e' && t[2] == 'q' {
        Some(Instruction::Ceq)
    } else if t[0] == 'c' && t[1] == 'g' && t[2] == 't' {
        Some(Instruction::Cgt)
    } else if t[0] == 'c' && t[1] == 'l' && t[2] == 't' {
        Some(Instruction::Clt)
    } else if t[0] == 'd' && t[1] == 'u' && t[2] == 'p' {
        Some(Instruction::Dup)
    } else if t[0] == 'p' && t[1] == 'o' && t[2] == 'p' {
        Some(Instruction::Pop)
    } else {
        None
    }
}

/// The opcode that a token denotes, or `None` for a token outside the grammar.
///
/// A token `ldc:<rest>` denotes `Ldc` of the number that `<rest>` denotes,
/// and nothing when `<rest>` is no valid numeric literal; any other token is
/// an exact, case-sensitive keyword or nothing.
pub open spec fn spec_parse_token(t: Seq<char>) -> Option<Instruction> {
    if has_ldc_prefix(t) {
        match parsed_float(t.skip(4)) {
            Some(v) => Some(Instruction::Ldc(v)),
            None => None,
        }
    } else {
        spec_keyword(t)
    }
}

/// Parse one token into an opcode, or into `None` for a token outside the
/// grammar: unknown and malformed tokens are silently dropped by the caller.
pub fn parse_texto(token: &str) -> (r: Option<Instruction>)
    ensures
        r == spec_parse_token(token@),
{
    let n = token.unicode_len();
    if n >= 4 && token.get_char(0) == 'l' && token.get_char(1) == 'd' && token.get_char(2) == 'c'
        && token.get_char(3) == ':' {
        let rest = token.substring_char(4, n);
        proof {
            assert(rest@ =~= token@.skip(4));
        }
        match parse_float(rest) {
            Some(v) => Some(Instruction::Ldc(v)),
            None => None,
        }
    } else if n == 3 {
        let c0 = token.get_char(0);
        let c1 = token.get_char(1);
        let c2 = token.get_char(2);
        if c0 == 'n' && c1 == 'e' && c2 == 'g' {
            Some(Instruction::Neg)
        } else if c0 == 'a' && c1 == 'd' && c2 == 'd' {
            Some(Instruction::Add)
        } else if c0 == 's' && c1 == 'u' && c2 == 'b' {
            Some(Instruction::Sub)
        } else if c0 == 'm' && c1 == 'u' && c2 == 'l' {
            Some(Instruction::Mul)
        } else if c0 == 'd' && c1 == 'i' && c2 == 'v' {
            Some(Instruction::Div)
        } else if c0 == 'c' && c1 == 'e' && c2 == 'q' {
            Some(Instruction::Ceq)
        } else if c0 == 'c' && c1 == 'g' && c2 == 't' {
            Some(Instruction::Cgt)
        } else if c0 == 'c' && c1 == 'l' && c2 == 't' {
            Some(Instruction::Clt)
        } else if c0 == 'd' && c1 == 'u' && c2 == 'p' {
            Some(Instruction::Dup)
        } else if c0 == 'p' && c1 == 'o' && c2 == 'p' {
            Some(Instruction::Pop)
        } else {
            None
        }
    } else {
        None
    }
}

/// The length of the longest whitespace-free prefix of `s`.
pub open spec fn spec_word_len(s: Seq<char>) -> nat
    decreases s.len(),
{
    if s.len() == 0 || is_space(s[0]) {
        0
    } else {
        (1 + spec_word_len(s.drop_first())) as nat
    }
}

proof fn lemma_word_len_le(s: Seq<char>)
    ensures
        spec_word_len(s) <= s.len(),
    decreases s.len(),
{
    if s.len() == 0 || is_space(s[0]) {
    } else {
        lemma_word_len_le(s.drop_first());
    }
}

/// The longest whitespace-free prefix of `s` runs exactly up to the first
/// whitespace character, or to the end of `s` when there is none.
proof fn lemma_word_len_exact(s: Seq<char>, l: int)
    requires
        0 <= l <= s.len(),
        forall|j: int| 0 <= j < l ==> !is_space(s[j]),
        l == s.len() || is_space(s[l]),
    ensures
        spec_word_len(s) == l,
    decreases l,
{
    if l == 0 {
    } else {
        assert(!is_space(s[0]));
        assert forall|j: int| 0 <= j < l - 1 implies !is_space(s.drop_first()[j]) by {
            assert(s.drop_first()[j] == s[j + 1]);
        }
        if l < s.len() {
            assert(s.drop_first()[l - 1] == s[l]);
        }
        lemma_word_len_exact(s.drop_first(), l - 1);
    }
}

/// The whitespace-delimited words of `s`, in order, none of them empty.
pub open spec fn spec_tokens(s: Seq<char>) -> Seq<Seq<char>>
    decreases s.len(),
    via spec_tokens_decreases
{
    if s.len() == 0 {
        Seq::empty()
    } else if is_space(s[0]) {
        spec_tokens(s.drop_first())
    } else {
        seq![s.take(spec_word_len(s) as int)] + spec_tokens(s.skip(spec_word_len(s) as int))
    }
}

#[via_fn]
proof fn spec_tokens_decreases(s: Seq<char>) {
    if s.len() > 0 && !is_space(s[0]) {
        lemma_word_len_le(s);
        assert(spec_word_len(s) >= 1);
    }
}

/// The opcodes that a list of tokens denotes, in order: each token maps to
/// at most one opcode, and tokens outside the grammar contribute nothing.
pub open spec fn spec_opcodes(tokens: Seq<Seq<char>>) -> Seq<Instruction>
    decreases tokens.len(),
{
    if tokens.len() == 0 {
        Seq::empty()
    } else {
        match spec_parse_token(tokens.first()) {
            Some(op) => seq![op] + spec_opcodes(tokens.drop_first()),
            None => spec_opcodes(tokens.drop_first()),
        }
    }
}

/// The opcodes of one input line: the line is split on whitespace and each
/// token parsed, unparseable tokens silently dropped.
pub open spec fn spec_parse_line(s: Seq<char>) -> Seq<Instruction> {
    spec_opcodes(spec_tokens(s))
}

/// The position just past the word that starts at `start`: the first position
/// at or after `start` that holds whitespace, or the end of the line.
fn scan_word_end(line: &str, start: usize, n: usize) -> (end: usize)
    requires
        n == line@.len(),
        start < n,
        !is_space(line@[start as int]),
    ensures
        start < end <= n,
        forall|j: int| start <= j < end ==> !is_space(line@[j]),
        end == n || is_space(line@[end as int]),
{
    let mut i: usize = start;
    loop
        invariant
            start <= i <= n,
            n == line@.len(),
            forall|j: int| start <= j < i ==> !is_space(line@[j]),
        ensures
            start <= i <= n,
            forall|j: int| start <= j < i ==> !is_space(line@[j]),
            i == n || is_space(line@[i as int]),
        decreases n - i,
    {
        if i == n {
            break;
        }
        if char_is_space(line.get_char(i)) {
            break;
        }
        i = i + 1;
    }
    proof {
        // The scan cannot stop where it started: the first character of the
        // word is not whitespace and lies before the end of the line.
        assert(i != start);
    }
    i
}

/// Split one line on whitespace and parse each token, dropping the tokens
/// outside the grammar; the opcodes come back in the order of their tokens.
pub fn parse_line(line: &str) -> (r: Vec<Instruction>)
    ensures
        r@ == spec_parse_line(line@),
{
    let n = line.unicode_len();
    let mut ops: Vec<Instruction> = Vec::new();
    let mut i: usize = 0;
    proof {
        assert(line@.skip(0) =~= line@);
    }
    while i < n
        invariant
            i <= n,
            n == line@.len(),
            spec_parse_line(line@) == ops@ + spec_opcodes(spec_tokens(line@.skip(i as int))),
        decreases n - i,
    {
        let ghost suffix = line@.skip(i as int);
        proof {
            assert(suffix[0] == line@[i as int]);
        }
        if char_is_space(line.get_char(i)) {
            proof {
                assert(suffix.drop_first() =~= line@.skip(i as int + 1));
            }
            i = i + 1;
        } else {
            let start = i;
            i = scan_word_end(line, start, n);
            let token = line.substring_char(start, i);
            proof {
                let l = i - start;
                assert forall|j: int| 0 <= j < l implies !is_space(suffix[j]) by {
                    assert(suffix[j] == line@[start + j]);
                }
                if l < suffix.len() {
                    assert(suffix[l] == line@[i as int]);
                }
                lemma_word_len_exact(suffix, l);
                assert(suffix.take(l) =~= line@.subrange(start as int, i as int));
                assert(suffix.take(l) == token@);
                assert(suffix.skip(l) =~= line@.skip(i as int));
                let toks = spec_tokens(suffix);
                assert(toks == seq![token@] + spec_tokens(line@.skip(i as int)));
                assert(toks.first() == token@);
                assert(toks.drop_first() =~= spec_tokens(line@.skip(i as int)));
            }
            match parse_texto(token) {
                Some(op) => {
                    let ghost before = ops@;
                    ops.push(op);
                    proof {
                        assert(before + (seq![op] + spec_opcodes(spec_tokens(line@.skip(
                            i as int,
                        )))) =~= ops@ + spec_opcodes(spec_tokens(line@.skip(i as int))));
                    }
                },
                None => {},
            }
        }
    }
    proof {
        assert(line@.skip(n as int) =~= Seq::<char>::empty());
        assert(ops@ + Seq::<Instruction>::empty() =~= ops@);
    }
    ops
}

} // verus!
