//! The driver: the first pass builds the symbol table, the second parses and
//! encodes every instruction line in order.
use vstd::prelude::*;
use crate::classify::{LineClass, Span, classify_chars, line_class};
use crate::isa::{assemble_instruction, word_of, Instruction};
use crate::parse::{parse_chars, parse_spec, ParseErr, ParseFailure};
use crate::symbols::{build_symbol_table, definitions, instruction_count};
use crate::text::{chars_of, lines_of, split_exec};

verus! {

/// The two bytes of an instruction's word, high byte first.
pub open spec fn encoded(instr: Instruction) -> Seq<u8> {
    seq![(word_of(instr) / 256) as u8, (word_of(instr) % 256) as u8]
}

/// The second pass over `lines`: the encoded instruction lines in order, or
/// the index of the first instruction line that does not parse, and why.
pub open spec fn encode_lines(lines: Seq<Seq<char>>, defs: Seq<(Seq<char>, nat)>) -> Result<
    Seq<u8>,
    (nat, ParseFailure),
>
    decreases lines.len(),
{
    if lines.len() == 0 {
        Ok(seq![])
    } else {
        match encode_lines(lines.drop_last(), defs) {
            Err(e) => Err(e),
            Ok(bytes) => if line_class(lines.last()) == LineClass::Instruction {
                match parse_spec(lines.last(), defs) {
                    Ok(instr) => Ok(bytes + encoded(instr)),
                    Err(f) => Err(((lines.len() - 1) as nat, f)),
                }
            } else {
                Ok(bytes)
            },
        }
    }
}

/// What assembling `src` gives: the bytes of the program, or the index of
/// the first line that failed and why.
pub open spec fn assemble_spec(src: Seq<char>) -> Result<Seq<u8>, (nat, ParseFailure)> {
    encode_lines(lines_of(src), definitions(lines_of(src)))
}

/// An instruction line that could not be assembled.
#[derive(Debug, PartialEq, Eq)]
pub struct AssembleError {
    /// The line's number, counting from 1.
    pub line: usize,
    pub error: ParseErr,
}

/// Assembles source text into the program's bytes. All or nothing: on the
/// first line that does not parse, no bytes are returned.
pub fn assemble(source: &str) -> (r: Result<Vec<u8>, AssembleError>)
    ensures
        match r {
            Ok(bytes) => assemble_spec(source@) == Ok::<Seq<u8>, (nat, ParseFailure)>(bytes@),
            Err(e) => e.line >= 1 && assemble_spec(source@) == Err::<Seq<u8>, (nat, ParseFailure)>(
                ((e.line - 1) as nat, e.error@),
            ),
        },
        r is Ok ==> r->Ok_0@.len() == 2 * instruction_count(lines_of(source@)),
{
    let chars = chars_of(source);
    let lines = split_exec(&chars, '\n');
    let ghost lv = lines@.map_values(|l: Vec<char>| l@);
    let table = build_symbol_table(&lines);
    let ghost defs = table@;
    let mut out: Vec<u8> = Vec::new();
    let mut i: usize = 0;
    while i < lines.len()
        invariant
            i <= lines.len(),
            lv == lines@.map_values(|l: Vec<char>| l@),
            lv == lines_of(source@),
            defs == table@,
            defs == definitions(lv),
            encode_lines(lv.take(i as int), defs) == Ok::<Seq<u8>, (nat, ParseFailure)>(out@),
            out@.len() == 2 * instruction_count(lv.take(i as int)),
        decreases lines.len() - i,
    {
        assert(lv.take(i + 1).drop_last() =~= lv.take(i as int));
        assert(lv.take(i + 1).last() == lines[i as int]@);
        match classify_chars(&lines[i]) {
            Span::Instruction => {
                match parse_chars(&lines[i], &table) {
                    Ok(instr) => {
                        let w = assemble_instruction(instr);
                        assert(w.0 as int == word_of(instr) / 256 && w.1 as int == word_of(instr)
                            % 256);
                        let ghost prev = out@;
                        out.push(w.0);
                        out.push(w.1);
                        assert(out@ =~= prev + encoded(instr));
                    },
                    Err(e) => {
                        proof {
                            lemma_encode_lines_error(lv, i as int, defs);
                        }
                        return Err(AssembleError { line: i + 1, error: e });
                    },
                }
            },
            _ => {},
        }
        i += 1;
    }
    assert(lv.take(lines.len() as int) =~= lv);
    Ok(out)
}

/// An error at line `i` of a prefix stays the error of the whole text.
proof fn lemma_encode_lines_error(lines: Seq<Seq<char>>, i: int, defs: Seq<(Seq<char>, nat)>)
    requires
        0 <= i < lines.len(),
        encode_lines(lines.take(i + 1), defs) is Err,
    ensures
        encode_lines(lines, defs) == encode_lines(lines.take(i + 1), defs),
    decreases lines.len() - i,
{
    if i + 1 < lines.len() {
        assert(lines.drop_last().take(i + 1) =~= lines.take(i + 1));
        lemma_encode_lines_error(lines.drop_last(), i, defs);
    } else {
        assert(lines.take(i + 1) =~= lines);
    }
}

/// The output holds two bytes for every instruction line, whatever
/// comments, blank lines and labels stand among them.
pub proof fn lemma_output_length(lines: Seq<Seq<char>>, defs: Seq<(Seq<char>, nat)>)
    ensures
        encode_lines(lines, defs) is Ok ==> encode_lines(lines, defs)->Ok_0.len() == 2
            * instruction_count(lines),
    decreases lines.len(),
{
    if lines.len() > 0 {
        lemma_output_length(lines.drop_last(), defs);
    }
}

/// Assembling depends on the source text alone: the same text assembled
/// twice gives byte-identical output, or the same error.
pub proof fn lemma_assemble_idempotent(a: Seq<char>, b: Seq<char>)
    requires
        a == b,
    ensures
        assemble_spec(a) == assemble_spec(b),
{
}

} // verus!
