//! The second pass over one line: matching an instruction line against the
//! grammar of each opcode and building the typed instruction.
use vstd::prelude::*;
use vstd::string::*;
use crate::classify::line_start;
use crate::isa::{Addr, Instruction, Vx};
use crate::symbols::{address_of, lookup, SymbolTable};
use crate::text::{
    chars_of, find_char, find_char_exec, hex_value, hex_value_exec, is_comment_at,
    is_comment_at_exec, is_token_char, is_token_char_exec, same_as_str, skip_spaces_exec,
    slice_of, split_exec, split_spaces, string_from_chars, trim_back, trim_back_exec,
};

verus! {

/// What an operand position of a grammar accepts.
#[derive(Debug, Clone, Copy, PartialEq, Eq, Structural)]
pub enum Slot {
    /// `V` and one hexadecimal digit.
    Reg,
    /// One or two hexadecimal digits.
    Byte,
    /// One hexadecimal digit.
    Nibble,
    /// A label name.
    Target,
    /// The keyword `DT`.
    Dt,
    /// The keyword `ST`.
    St,
    /// The keyword `K`.
    Key,
    /// The keyword `[I]`.
    MemI,
    /// The keyword `F`.
    Font,
    /// The keyword `B`.
    Bcd,
    /// The keyword `I`.
    I,
    /// The keyword `V0`.
    V0,
}

/// The operand positions of a grammar, in order.
#[derive(Debug, Clone, Copy, PartialEq, Eq, Structural)]
pub enum Slots {
    Zero,
    One(Slot),
    Two(Slot, Slot),
    Three(Slot, Slot, Slot),
}

impl Slots {
    pub open spec fn len(self) -> nat {
        match self {
            Slots::Zero => 0,
            Slots::One(_) => 1,
            Slots::Two(_, _) => 2,
            Slots::Three(_, _, _) => 3,
        }
    }

    pub open spec fn at(self, k: int) -> Slot {
        match self {
            Slots::One(a) => a,
            Slots::Two(a, b) => if k == 0 { a } else { b },
            Slots::Three(a, b, c) => if k == 0 { a } else if k == 1 { b } else { c },
            Slots::Zero => Slot::Reg,
        }
    }

    pub fn count(&self) -> (r: usize)
        ensures
            r == self.len(),
    {
        match self {
            Slots::Zero => 0,
            Slots::One(_) => 1,
            Slots::Two(_, _) => 2,
            Slots::Three(_, _, _) => 3,
        }
    }

    pub fn get(&self, k: usize) -> (r: Slot)
        ensures
            r == self.at(k as int),
    {
        match self {
            Slots::One(a) => *a,
            Slots::Two(a, b) => if k == 0 { *a } else { *b },
            Slots::Three(a, b, c) => if k == 0 { *a } else if k == 1 { *b } else { *c },
            Slots::Zero => Slot::Reg,
        }
    }
}

/// How many opcode grammars there are.
pub const GRAMMAR_COUNT: usize = 35;

/// The opcode grammars, in the order in which they are tried: a mnemonic
/// and its operand positions. Operands follow the mnemonic after one space
/// and are parted by a comma and one space.
pub open spec fn grammar(i: usize) -> (Seq<char>, Slots) {
    match i {
        0 => ("CLS"@, Slots::Zero),
        1 => ("RET"@, Slots::Zero),
        2 => ("SYS"@, Slots::One(Slot::Target)),
        3 => ("JP"@, Slots::One(Slot::Target)),
        4 => ("CALL"@, Slots::One(Slot::Target)),
        5 => ("SE"@, Slots::Two(Slot::Reg, Slot::Byte)),
        6 => ("SNE"@, Slots::Two(Slot::Reg, Slot::Byte)),
        7 => ("SE"@, Slots::Two(Slot::Reg, Slot::Reg)),
        8 => ("LD"@, Slots::Two(Slot::Reg, Slot::Byte)),
        9 => ("ADD"@, Slots::Two(Slot::Reg, Slot::Byte)),
        10 => ("LD"@, Slots::Two(Slot::Reg, Slot::Reg)),
        11 => ("OR"@, Slots::Two(Slot::Reg, Slot::Reg)),
        12 => ("AND"@, Slots::Two(Slot::Reg, Slot::Reg)),
        13 => ("XOR"@, Slots::Two(Slot::Reg, Slot::Reg)),
        14 => ("ADD"@, Slots::Two(Slot::Reg, Slot::Reg)),
        15 => ("SUB"@, Slots::Two(Slot::Reg, Slot::Reg)),
        16 => ("SHR"@, Slots::One(Slot::Reg)),
        17 => ("SUBN"@, Slots::Two(Slot::Reg, Slot::Reg)),
        18 => ("SHL"@, Slots::One(Slot::Reg)),
        19 => ("SNE"@, Slots::Two(Slot::Reg, Slot::Reg)),
        20 => ("LD"@, Slots::Two(Slot::I, Slot::Target)),
        21 => ("JP"@, Slots::Two(Slot::V0, Slot::Target)),
        22 => ("RND"@, Slots::Two(Slot::Reg, Slot::Byte)),
        23 => ("DRW"@, Slots::Three(Slot::Reg, Slot::Reg, Slot::Nibble)),
        24 => ("SKP"@, Slots::One(Slot::Reg)),
        25 => ("SKNP"@, Slots::One(Slot::Reg)),
        26 => ("LD"@, Slots::Two(Slot::Reg, Slot::Dt)),
        27 => ("LD"@, Slots::Two(Slot::Reg, Slot::Key)),
        28 => ("LD"@, Slots::Two(Slot::Dt, Slot::Reg)),
        29 => ("LD"@, Slots::Two(Slot::St, Slot::Reg)),
        30 => ("ADD"@, Slots::Two(Slot::I, Slot::Reg)),
        31 => ("LD"@, Slots::Two(Slot::Font, Slot::Reg)),
        32 => ("LD"@, Slots::Two(Slot::Bcd, Slot::Reg)),
        33 => ("LD"@, Slots::Two(Slot::MemI, Slot::Reg)),
        _ => ("LD"@, Slots::Two(Slot::Reg, Slot::MemI)),
    }
}

fn grammar_exec(i: usize) -> (r: (&'static str, Slots))
    ensures
        r.0@ == grammar(i).0,
        r.1 == grammar(i).1,
{
    match i {
        0 => ("CLS", Slots::Zero),
        1 => ("RET", Slots::Zero),
        2 => ("SYS", Slots::One(Slot::Target)),
        3 => ("JP", Slots::One(Slot::Target)),
        4 => ("CALL", Slots::One(Slot::Target)),
        5 => ("SE", Slots::Two(Slot::Reg, Slot::Byte)),
        6 => ("SNE", Slots::Two(Slot::Reg, Slot::Byte)),
        7 => ("SE", Slots::Two(Slot::Reg, Slot::Reg)),
        8 => ("LD", Slots::Two(Slot::Reg, Slot::Byte)),
        9 => ("ADD", Slots::Two(Slot::Reg, Slot::Byte)),
        10 => ("LD", Slots::Two(Slot::Reg, Slot::Reg)),
        11 => ("OR", Slots::Two(Slot::Reg, Slot::Reg)),
        12 => ("AND", Slots::Two(Slot::Reg, Slot::Reg)),
        13 => ("XOR", Slots::Two(Slot::Reg, Slot::Reg)),
        14 => ("ADD", Slots::Two(Slot::Reg, Slot::Reg)),
        15 => ("SUB", Slots::Two(Slot::Reg, Slot::Reg)),
        16 => ("SHR", Slots::One(Slot::Reg)),
        17 => ("SUBN", Slots::Two(Slot::Reg, Slot::Reg)),
        18 => ("SHL", Slots::One(Slot::Reg)),
        19 => ("SNE", Slots::Two(Slot::Reg, Slot::Reg)),
        20 => ("LD", Slots::Two(Slot::I, Slot::Target)),
        21 => ("JP", Slots::Two(Slot::V0, Slot::Target)),
        22 => ("RND", Slots::Two(Slot::Reg, Slot::Byte)),
        23 => ("DRW", Slots::Three(Slot::Reg, Slot::Reg, Slot::Nibble)),
        24 => ("SKP", Slots::One(Slot::Reg)),
        25 => ("SKNP", Slots::One(Slot::Reg)),
        26 => ("LD", Slots::Two(Slot::Reg, Slot::Dt)),
        27 => ("LD", Slots::Two(Slot::Reg, Slot::Key)),
        28 => ("LD", Slots::Two(Slot::Dt, Slot::Reg)),
        29 => ("LD", Slots::Two(Slot::St, Slot::Reg)),
        30 => ("ADD", Slots::Two(Slot::I, Slot::Reg)),
        31 => ("LD", Slots::Two(Slot::Font, Slot::Reg)),
        32 => ("LD", Slots::Two(Slot::Bcd, Slot::Reg)),
        33 => ("LD", Slots::Two(Slot::MemI, Slot::Reg)),
        _ => ("LD", Slots::Two(Slot::Reg, Slot::MemI)),
    }
}

/// The instruction of grammar `i`, from the numeric operand values by
/// position and the resolved address.
pub open spec fn build(i: usize, v0: u8, v1: u8, v2: u8, a: u16) -> Instruction {
    match i {
        0 => Instruction::Cls,
        1 => Instruction::Ret,
        2 => Instruction::Sys(Addr(a)),
        3 => Instruction::Jmp(Addr(a)),
        4 => Instruction::Call(Addr(a)),
        5 => Instruction::SkipEq(Vx(v0), v1),
        6 => Instruction::SkipNotEq(Vx(v0), v1),
        7 => Instruction::SkipEqVx(Vx(v0), Vx(v1)),
        8 => Instruction::Load(Vx(v0), v1),
        9 => Instruction::Add(Vx(v0), v1),
        10 => Instruction::LoadVx(Vx(v0), Vx(v1)),
        11 => Instruction::Or(Vx(v0), Vx(v1)),
        12 => Instruction::And(Vx(v0), Vx(v1)),
        13 => Instruction::XOr(Vx(v0), Vx(v1)),
        14 => Instruction::AddVx(Vx(v0), Vx(v1)),
        15 => Instruction::SubVx(Vx(v0), Vx(v1)),
        16 => Instruction::ShiftRight(Vx(v0)),
        17 => Instruction::SubN(Vx(v0), Vx(v1)),
        18 => Instruction::ShiftLeft(Vx(v0)),
        19 => Instruction::SkipNotEqVx(Vx(v0), Vx(v1)),
        20 => Instruction::LoadI(Addr(a)),
        21 => Instruction::JmpV0(Addr(a)),
        22 => Instruction::Rand(Vx(v0), v1),
        23 => Instruction::Draw(Vx(v0), Vx(v1), v2),
        24 => Instruction::SkipKeyPressed(Vx(v0)),
        25 => Instruction::SkipKeyNotPressed(Vx(v0)),
        26 => Instruction::LoadDelay(Vx(v0)),
        27 => Instruction::LoadKey(Vx(v0)),
        28 => Instruction::SetDelay(Vx(v1)),
        29 => Instruction::SetSound(Vx(v1)),
        30 => Instruction::AddI(Vx(v1)),
        31 => Instruction::LoadFont(Vx(v1)),
        32 => Instruction::LoadBcd(Vx(v1)),
        33 => Instruction::StoreRegisters(Vx(v1)),
        _ => Instruction::LoadRegisters(Vx(v0)),
    }
}

fn build_exec(i: usize, v0: u8, v1: u8, v2: u8, a: u16) -> (r: Instruction)
    ensures
        r == build(i, v0, v1, v2, a),
{
    match i {
        0 => Instruction::Cls,
        1 => Instruction::Ret,
        2 => Instruction::Sys(Addr(a)),
        3 => Instruction::Jmp(Addr(a)),
        4 => Instruction::Call(Addr(a)),
        5 => Instruction::SkipEq(Vx(v0), v1),
        6 => Instruction::SkipNotEq(Vx(v0), v1),
        7 => Instruction::SkipEqVx(Vx(v0), Vx(v1)),
        8 => Instruction::Load(Vx(v0), v1),
        9 => Instruction::Add(Vx(v0), v1),
        10 => Instruction::LoadVx(Vx(v0), Vx(v1)),
        11 => Instruction::Or(Vx(v0), Vx(v1)),
        12 => Instruction::And(Vx(v0), Vx(v1)),
        13 => Instruction::XOr(Vx(v0), Vx(v1)),
        14 => Instruction::AddVx(Vx(v0), Vx(v1)),
        15 => Instruction::SubVx(Vx(v0), Vx(v1)),
        16 => Instruction::ShiftRight(Vx(v0)),
        17 => Instruction::SubN(Vx(v0), Vx(v1)),
        18 => Instruction::ShiftLeft(Vx(v0)),
        19 => Instruction::SkipNotEqVx(Vx(v0), Vx(v1)),
        20 => Instruction::LoadI(Addr(a)),
        21 => Instruction::JmpV0(Addr(a)),
        22 => Instruction::Rand(Vx(v0), v1),
        23 => Instruction::Draw(Vx(v0), Vx(v1), v2),
        24 => Instruction::SkipKeyPressed(Vx(v0)),
        25 => Instruction::SkipKeyNotPressed(Vx(v0)),
        26 => Instruction::LoadDelay(Vx(v0)),
        27 => Instruction::LoadKey(Vx(v0)),
        28 => Instruction::SetDelay(Vx(v1)),
        29 => Instruction::SetSound(Vx(v1)),
        30 => Instruction::AddI(Vx(v1)),
        31 => Instruction::LoadFont(Vx(v1)),
        32 => Instruction::LoadBcd(Vx(v1)),
        33 => Instruction::StoreRegisters(Vx(v1)),
        _ => Instruction::LoadRegisters(Vx(v0)),
    }
}

/// The text of a keyword position.
pub open spec fn keyword_text(slot: Slot) -> Seq<char> {
    match slot {
        Slot::Dt => "DT"@,
        Slot::St => "ST"@,
        Slot::Key => "K"@,
        Slot::MemI => "[I]"@,
        Slot::Font => "F"@,
        Slot::Bcd => "B"@,
        Slot::I => "I"@,
        Slot::V0 => "V0"@,
        _ => ""@,
    }
}

fn keyword_str(slot: Slot) -> (r: &'static str)
    ensures
        r@ == keyword_text(slot),
{
    match slot {
        Slot::Dt => "DT",
        Slot::St => "ST",
        Slot::Key => "K",
        Slot::MemI => "[I]",
        Slot::Font => "F",
        Slot::Bcd => "B",
        Slot::I => "I",
        Slot::V0 => "V0",
        _ => "",
    }
}

pub open spec fn all_hex(t: Seq<char>) -> bool {
    forall|m: int| 0 <= m < t.len() ==> hex_value(#[trigger] t[m]) is Some
}

pub open spec fn all_token(t: Seq<char>) -> bool {
    forall|m: int| 0 <= m < t.len() ==> is_token_char(#[trigger] t[m])
}

/// Whether operand text `t` has the shape that `slot` asks for. Numeric
/// operands of any number of digits have the shape; their width is checked
/// after the grammar is chosen.
pub open spec fn shape_ok(slot: Slot, t: Seq<char>) -> bool {
    match slot {
        Slot::Reg => t.len() >= 2 && t[0] == 'V' && all_hex(t.skip(1)),
        Slot::Byte | Slot::Nibble => t.len() >= 1 && all_hex(t),
        Slot::Target => t.len() >= 1 && all_token(t),
        _ => t == keyword_text(slot),
    }
}

/// Whether a numeric operand's digits fit its field.
pub open spec fn width_ok(slot: Slot, t: Seq<char>) -> bool {
    match slot {
        Slot::Reg => t.len() == 2,
        Slot::Byte => t.len() <= 2,
        Slot::Nibble => t.len() == 1,
        _ => true,
    }
}

pub open spec fn digit(c: char) -> int {
    match hex_value(c) {
        Some(v) => v as int,
        None => 0,
    }
}

/// The value of a numeric operand whose digits fit its field; zero for the
/// other positions.
pub open spec fn operand_value(slot: Slot, t: Seq<char>) -> u8 {
    match slot {
        Slot::Reg => digit(t[1]) as u8,
        Slot::Byte => if t.len() == 1 {
            digit(t[0]) as u8
        } else {
            (digit(t[0]) * 16 + digit(t[1])) as u8
        },
        Slot::Nibble => digit(t[0]) as u8,
        _ => 0,
    }
}

/// The text of operand `k` (counting the mnemonic as word 0): every operand
/// but the last ends with a comma, which is not part of it.
pub open spec fn arg_text(words: Seq<Seq<char>>, k: int) -> Option<Seq<char>> {
    if k < words.len() - 1 {
        if words[k].len() > 0 && words[k].last() == ',' {
            Some(words[k].drop_last())
        } else {
            None
        }
    } else {
        Some(words[k])
    }
}

/// Whether the words of a line's code have the shape of grammar `i`.
pub open spec fn fits(i: usize, words: Seq<Seq<char>>) -> bool {
    let slots = grammar(i).1;
    &&& words.len() == slots.len() + 1
    &&& words[0] == grammar(i).0
    &&& forall|k: int|
        1 <= k < words.len() ==> #[trigger] arg_text(words, k) is Some && shape_ok(
            slots.at(k - 1),
            arg_text(words, k)->0,
        )
}

/// The first grammar, from `i` on, that the words fit.
pub open spec fn first_fit(words: Seq<Seq<char>>, i: int) -> Option<int>
    decreases GRAMMAR_COUNT - i,
{
    if 0 <= i < GRAMMAR_COUNT {
        if fits(i as usize, words) {
            Some(i)
        } else {
            first_fit(words, i + 1)
        }
    } else {
        None
    }
}

/// Why a line could not be turned into an instruction, over views.
pub enum ParseFailure {
    Unrecognized(Seq<char>),
    UndefinedLabel(Seq<char>),
    OutOfRange(Seq<char>),
}

/// Why a line could not be turned into an instruction.
#[derive(Debug, PartialEq, Eq)]
pub enum ParseErr {
    /// The line fits none of the opcode grammars; carries the line.
    UnimplementedInstruction(String),
    /// An address operand names a label that is not defined; carries the
    /// label.
    UndefinedLabel(String),
    /// A numeric operand has more digits than its field holds, or a label's
    /// address does not fit in twelve bits; carries the operand.
    OperandOutOfRange(String),
}

impl View for ParseErr {
    type V = ParseFailure;

    open spec fn view(&self) -> ParseFailure {
        match self {
            ParseErr::UnimplementedInstruction(s) => ParseFailure::Unrecognized(s@),
            ParseErr::UndefinedLabel(s) => ParseFailure::UndefinedLabel(s@),
            ParseErr::OperandOutOfRange(s) => ParseFailure::OutOfRange(s@),
        }
    }
}

/// Where the line's code ends: before the comment and the white space
/// before it.
pub open spec fn code_end(s: Seq<char>) -> int {
    trim_back(s, line_start(s), find_char(s, line_start(s), ';'))
}

/// The words of the line's code: what stands between the leading white
/// space and the comment, cut at each space.
pub open spec fn code_words(s: Seq<char>) -> Seq<Seq<char>> {
    split_spaces(s.subrange(line_start(s), code_end(s)))
}

/// The line's first `;`, if any, opens a comment that runs to the end.
pub open spec fn comment_ok(s: Seq<char>) -> bool {
    let semi = find_char(s, line_start(s), ';');
    semi == s.len() || is_comment_at(s, semi)
}

/// The first operand, from position `k` on, whose digits do not fit its
/// field.
pub open spec fn first_bad_width(slots: Slots, words: Seq<Seq<char>>, k: int) -> Option<
    Seq<char>,
>
    decreases 3 - k,
{
    if 0 <= k < slots.len() {
        let t = arg_text(words, k + 1)->0;
        if !width_ok(slots.at(k), t) {
            Some(t)
        } else {
            first_bad_width(slots, words, k + 1)
        }
    } else {
        None
    }
}

/// The value of operand position `k`.
pub open spec fn value_at(slots: Slots, words: Seq<Seq<char>>, k: int) -> u8 {
    if 0 <= k < slots.len() {
        operand_value(slots.at(k), arg_text(words, k + 1)->0)
    } else {
        0
    }
}

/// Whether the last operand position is a label.
pub open spec fn has_target(slots: Slots) -> bool {
    slots.len() > 0 && slots.at(slots.len() - 1) == Slot::Target
}

/// The instruction that line `s` denotes, given the label definitions
/// `defs`: the first grammar that the line fits, its numeric operands
/// checked for width in order, then its label looked up.
pub open spec fn parse_spec(s: Seq<char>, defs: Seq<(Seq<char>, nat)>) -> Result<
    Instruction,
    ParseFailure,
> {
    let words = code_words(s);
    if !comment_ok(s) {
        Err(ParseFailure::Unrecognized(s))
    } else {
        match first_fit(words, 0) {
            None => Err(ParseFailure::Unrecognized(s)),
            Some(i) => {
                let slots = grammar(i as usize).1;
                match first_bad_width(slots, words, 0) {
                    Some(t) => Err(ParseFailure::OutOfRange(t)),
                    None => {
                        let v0 = value_at(slots, words, 0);
                        let v1 = value_at(slots, words, 1);
                        let v2 = value_at(slots, words, 2);
                        if has_target(slots) {
                            let t = arg_text(words, slots.len() as int)->0;
                            match lookup(defs, t) {
                                None => Err(ParseFailure::UndefinedLabel(t)),
                                Some(c) => if address_of(c) < 0x1000 {
                                    Ok(build(i as usize, v0, v1, v2, address_of(c) as u16))
                                } else {
                                    Err(ParseFailure::OutOfRange(t))
                                },
                            }
                        } else {
                            Ok(build(i as usize, v0, v1, v2, 0))
                        }
                    },
                }
            },
        }
    }
}

pub open spec fn words_view(words: Vec<Vec<char>>) -> Seq<Seq<char>> {
    words@.map_values(|w: Vec<char>| w@)
}

fn arg_text_exec(words: &Vec<Vec<char>>, k: usize) -> (r: Option<Vec<char>>)
    requires
        1 <= k < words.len(),
    ensures
        r is Some == arg_text(words_view(*words), k as int) is Some,
        r is Some ==> r->0@ == arg_text(words_view(*words), k as int)->0,
{
    let w = &words[k];
    assert(words_view(*words)[k as int] == w@);
    if k < words.len() - 1 {
        if w.len() > 0 && w[w.len() - 1] == ',' {
            Some(slice_of(w, 0, w.len() - 1))
        } else {
            None
        }
    } else {
        Some(slice_of(w, 0, w.len()))
    }
}

fn all_hex_from(t: &Vec<char>, a: usize) -> (r: bool)
    requires
        a <= t.len(),
    ensures
        r == all_hex(t@.skip(a as int)),
{
    let mut k = a;
    while k < t.len()
        invariant
            a <= k <= t.len(),
            forall|m: int| a <= m < k ==> hex_value(#[trigger] t@[m]) is Some,
        decreases t.len() - k,
    {
        if hex_value_exec(t[k]).is_none() {
            assert(t@.skip(a as int)[k - a] == t@[k as int]);
            return false;
        }
        k += 1;
    }
    assert forall|m: int| 0 <= m < t@.skip(a as int).len() implies hex_value(
        #[trigger] t@.skip(a as int)[m],
    ) is Some by {
        assert(t@.skip(a as int)[m] == t@[m + a]);
    }
    true
}

fn all_token_exec(t: &Vec<char>) -> (r: bool)
    ensures
        r == all_token(t@),
{
    let mut k: usize = 0;
    while k < t.len()
        invariant
            k <= t.len(),
            forall|m: int| 0 <= m < k ==> is_token_char(#[trigger] t@[m]),
        decreases t.len() - k,
    {
        if !is_token_char_exec(t[k]) {
            return false;
        }
        k += 1;
    }
    true
}

fn shape_ok_exec(slot: Slot, t: &Vec<char>) -> (r: bool)
    ensures
        r == shape_ok(slot, t@),
{
    match slot {
        Slot::Reg => t.len() >= 2 && t[0] == 'V' && all_hex_from(t, 1),
        Slot::Byte | Slot::Nibble => {
            assert(t@.skip(0) =~= t@);
            t.len() >= 1 && all_hex_from(t, 0)
        },
        Slot::Target => t.len() >= 1 && all_token_exec(t),
        _ => same_as_str(t, keyword_str(slot)),
    }
}

fn width_ok_exec(slot: Slot, t: &Vec<char>) -> (r: bool)
    ensures
        r == width_ok(slot, t@),
{
    match slot {
        Slot::Reg => t.len() == 2,
        Slot::Byte => t.len() <= 2,
        Slot::Nibble => t.len() == 1,
        _ => true,
    }
}

fn digit_exec(c: char) -> (r: u8)
    ensures
        r as int == digit(c),
        r < 16,
{
    match hex_value_exec(c) {
        Some(v) => v,
        None => 0,
    }
}

fn operand_value_exec(slot: Slot, t: &Vec<char>) -> (r: u8)
    requires
        shape_ok(slot, t@),
        width_ok(slot, t@),
    ensures
        r == operand_value(slot, t@),
{
    match slot {
        Slot::Reg => digit_exec(t[1]),
        Slot::Byte => if t.len() == 1 {
            digit_exec(t[0])
        } else {
            digit_exec(t[0]) * 16 + digit_exec(t[1])
        },
        Slot::Nibble => digit_exec(t[0]),
        _ => 0,
    }
}

fn fits_exec(i: usize, words: &Vec<Vec<char>>) -> (r: bool)
    ensures
        r == fits(i, words_view(*words)),
{
    let ghost wv = words_view(*words);
    let (m, slots) = grammar_exec(i);
    let n = slots.count();
    if words.len() != n + 1 {
        return false;
    }
    assert(wv[0] == words[0]@);
    if !same_as_str(&words[0], m) {
        return false;
    }
    let mut k: usize = 1;
    while k < words.len()
        invariant
            1 <= k <= words.len(),
            words.len() == n + 1,
            n == slots.len(),
            slots == grammar(i).1,
            wv == words_view(*words),
            wv[0] == grammar(i).0,
            forall|kk: int|
                1 <= kk < k ==> #[trigger] arg_text(wv, kk) is Some && shape_ok(
                    slots.at(kk - 1),
                    arg_text(wv, kk)->0,
                ),
        decreases words.len() - k,
    {
        match arg_text_exec(words, k) {
            Some(t) => {
                if !shape_ok_exec(slots.get(k - 1), &t) {
                    return false;
                }
            },
            None => {
                return false;
            },
        }
        k += 1;
    }
    true
}

proof fn lemma_first_fit_found(words: Seq<Seq<char>>, i: int)
    requires
        0 <= i < GRAMMAR_COUNT,
        first_fit(words, 0) == first_fit(words, i),
        fits(i as usize, words),
    ensures
        first_fit(words, 0) == Some(i),
{
}

/// Parses a line given as characters against the label definitions of
/// `labels`.
pub fn parse_chars(s: &Vec<char>, labels: &SymbolTable) -> (r: Result<Instruction, ParseErr>)
    ensures
        match r {
            Ok(instr) => parse_spec(s@, labels@) == Ok::<Instruction, ParseFailure>(instr),
            Err(e) => parse_spec(s@, labels@) == Err::<Instruction, ParseFailure>(e@),
        },
{
    let st = skip_spaces_exec(s, 0);
    let semi = find_char_exec(s, st, ';');
    if !(semi == s.len() || is_comment_at_exec(s, semi)) {
        return Err(ParseErr::UnimplementedInstruction(string_from_chars(s)));
    }
    let end = trim_back_exec(s, st, semi);
    let code = slice_of(s, st, end);
    let words = split_exec(&code, ' ');
    let ghost wv = words_view(words);
    assert(wv =~= code_words(s@));
    let mut i: usize = 0;
    while i < GRAMMAR_COUNT && !fits_exec(i, &words)
        invariant
            i <= GRAMMAR_COUNT,
            wv == words_view(words),
            first_fit(wv, 0) == first_fit(wv, i as int),
        decreases GRAMMAR_COUNT - i,
    {
        i += 1;
    }
    if i == GRAMMAR_COUNT {
        return Err(ParseErr::UnimplementedInstruction(string_from_chars(s)));
    }
    proof {
        lemma_first_fit_found(wv, i as int);
    }
    let (_, slots) = grammar_exec(i);
    let n = slots.count();
    let mut vals: Vec<u8> = Vec::new();
    let mut k: usize = 0;
    while k < n
        invariant
            k <= n == slots.len() <= 3,
            slots == grammar(i).1,
            fits(i, wv),
            wv == words_view(words),
            wv == code_words(s@),
            comment_ok(s@),
            first_fit(wv, 0) == Some(i as int),
            first_bad_width(slots, wv, 0) == first_bad_width(slots, wv, k as int),
            vals.len() == k,
            forall|j: int| 0 <= j < k ==> vals[j] == value_at(slots, wv, j),
        decreases n - k,
    {
        assert(arg_text(wv, k + 1) is Some);
        let t = match arg_text_exec(&words, k + 1) {
            Some(t) => t,
            None => {
                proof {
                    assert(false);
                }
                Vec::new()
            },
        };
        let slot = slots.get(k);
        if !width_ok_exec(slot, &t) {
            assert(first_bad_width(slots, wv, k as int) == Some(t@));
            return Err(ParseErr::OperandOutOfRange(string_from_chars(&t)));
        }
        vals.push(operand_value_exec(slot, &t));
        k += 1;
    }
    let v0 = if n > 0 { vals[0] } else { 0 };
    let v1 = if n > 1 { vals[1] } else { 0 };
    let v2 = if n > 2 { vals[2] } else { 0 };
    assert(v0 == value_at(slots, wv, 0) && v1 == value_at(slots, wv, 1) && v2 == value_at(slots, wv, 2));
    if n > 0 && slots.get(n - 1) == Slot::Target {
        assert(arg_text(wv, n as int) is Some);
        let t = match arg_text_exec(&words, n) {
            Some(t) => t,
            None => {
                proof {
                    assert(false);
                }
                Vec::new()
            },
        };
        match labels.lookup_count(&t) {
            None => Err(ParseErr::UndefinedLabel(string_from_chars(&t))),
            Some(c) => {
                if c < 0x700 {
                    let a = (0x200 + 2 * c) as u16;
                    Ok(build_exec(i, v0, v1, v2, a))
                } else {
                    Err(ParseErr::OperandOutOfRange(string_from_chars(&t)))
                }
            },
        }
    } else {
        Ok(build_exec(i, v0, v1, v2, 0))
    }
}

/// Parses one line of source against the label definitions of `labels`.
pub fn parse_instruction(line: &str, labels: &SymbolTable) -> (r: Result<Instruction, ParseErr>)
    ensures
        match r {
            Ok(instr) => parse_spec(line@, labels@) == Ok::<Instruction, ParseFailure>(instr),
            Err(e) => parse_spec(line@, labels@) == Err::<Instruction, ParseFailure>(e@),
        },
{
    let s = chars_of(line);
    parse_chars(&s, labels)
}

} // verus!
