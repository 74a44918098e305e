//! The instruction set: typed instruction values and their binary encoding.
use vstd::prelude::*;

verus! {

/// A general-purpose register index (`V0` .. `VF`).
#[derive(Debug, Clone, Copy, PartialEq, Eq, Structural)]
pub struct Vx(pub u8);

/// A 12-bit memory address.
#[derive(Debug, Clone, Copy, PartialEq, Eq, Structural)]
pub struct Addr(pub u16);

/// One machine instruction, with exactly the operands its opcode takes.
#[derive(Debug, Clone, Copy, PartialEq, Eq, Structural)]
pub enum Instruction {
    Cls,
    Ret,
    Sys(Addr),
    Jmp(Addr),
    Call(Addr),
    SkipEq(Vx, u8),
    SkipNotEq(Vx, u8),
    SkipEqVx(Vx, Vx),
    Load(Vx, u8),
    Add(Vx, u8),
    LoadVx(Vx, Vx),
    Or(Vx, Vx),
    And(Vx, Vx),
    XOr(Vx, Vx),
    AddVx(Vx, Vx),
    SubVx(Vx, Vx),
    ShiftRight(Vx),
    SubN(Vx, Vx),
    ShiftLeft(Vx),
    SkipNotEqVx(Vx, Vx),
    LoadI(Addr),
    JmpV0(Addr),
    Rand(Vx, u8),
    Draw(Vx, Vx, u8),
    SkipKeyPressed(Vx),
    SkipKeyNotPressed(Vx),
    LoadDelay(Vx),
    LoadKey(Vx),
    SetDelay(Vx),
    SetSound(Vx),
    AddI(Vx),
    LoadFont(Vx),
    LoadBcd(Vx),
    StoreRegisters(Vx),
    LoadRegisters(Vx),
}

/// An encoded instruction: the high byte, then the low byte.
#[derive(Debug, Clone, Copy, PartialEq, Eq, Structural)]
pub struct AssembledInstruction(pub u8, pub u8);

impl Vx {
    pub open spec fn wf(self) -> bool {
        self.0 < 16
    }
}

impl Addr {
    pub open spec fn wf(self) -> bool {
        self.0 < 0x1000
    }
}

impl Instruction {
    /// Every operand fits its field: registers and the sprite height in a
    /// nibble, addresses in twelve bits.
    pub open spec fn wf(self) -> bool {
        match self {
            Instruction::Cls | Instruction::Ret => true,
            Instruction::Sys(a) | Instruction::Jmp(a) | Instruction::Call(a)
            | Instruction::LoadI(a) | Instruction::JmpV0(a) => a.wf(),
            Instruction::SkipEq(x, _) | Instruction::SkipNotEq(x, _) | Instruction::Load(x, _)
            | Instruction::Add(x, _) | Instruction::Rand(x, _) => x.wf(),
            Instruction::SkipEqVx(x, y) | Instruction::LoadVx(x, y) | Instruction::Or(x, y)
            | Instruction::And(x, y) | Instruction::XOr(x, y) | Instruction::AddVx(x, y)
            | Instruction::SubVx(x, y) | Instruction::SubN(x, y)
            | Instruction::SkipNotEqVx(x, y) => x.wf() && y.wf(),
            Instruction::Draw(x, y, n) => x.wf() && y.wf() && n < 16,
            Instruction::ShiftRight(x) | Instruction::ShiftLeft(x)
            | Instruction::SkipKeyPressed(x) | Instruction::SkipKeyNotPressed(x)
            | Instruction::LoadDelay(x) | Instruction::LoadKey(x) | Instruction::SetDelay(x)
            | Instruction::SetSound(x) | Instruction::AddI(x) | Instruction::LoadFont(x)
            | Instruction::LoadBcd(x) | Instruction::StoreRegisters(x)
            | Instruction::LoadRegisters(x) => x.wf(),
        }
    }
}

impl AssembledInstruction {
    /// The instruction as one 16-bit big-endian word.
    pub open spec fn word(self) -> int {
        self.0 as int * 256 + self.1 as int
    }
}

/// The low four bits of a register operand.
pub open spec fn reg(x: Vx) -> int {
    (x.0 % 16) as int
}

/// The low twelve bits of an address operand.
pub open spec fn addr12(a: Addr) -> int {
    (a.0 % 0x1000) as int
}

/// A word of the form `f x y n`, one hex digit each; only the low nibble of
/// each part counts.
pub open spec fn nibbles(f: int, x: int, y: int, n: int) -> int {
    f * 0x1000 + x * 0x100 + y * 0x10 + n
}

/// The 16-bit word that encodes `instr`. Operand bits above their field's
/// width are dropped. `Sys` and `Call` share the family digit of `Jmp`.
pub open spec fn word_of(instr: Instruction) -> int {
    match instr {
        Instruction::Cls => 0x00E0,
        Instruction::Ret => 0x00EE,
        Instruction::Sys(a) => 0x1000 + addr12(a),
        Instruction::Jmp(a) => 0x1000 + addr12(a),
        Instruction::Call(a) => 0x1000 + addr12(a),
        Instruction::SkipEq(x, k) => 0x3000 + reg(x) * 0x100 + k,
        Instruction::SkipNotEq(x, k) => 0x4000 + reg(x) * 0x100 + k,
        Instruction::SkipEqVx(x, y) => nibbles(5, reg(x), reg(y), 0),
        Instruction::Load(x, k) => 0x6000 + reg(x) * 0x100 + k,
        Instruction::Add(x, k) => 0x7000 + reg(x) * 0x100 + k,
        Instruction::LoadVx(x, y) => nibbles(8, reg(x), reg(y), 0),
        Instruction::Or(x, y) => nibbles(8, reg(x), reg(y), 1),
        Instruction::And(x, y) => nibbles(8, reg(x), reg(y), 2),
        Instruction::XOr(x, y) => nibbles(8, reg(x), reg(y), 3),
        Instruction::AddVx(x, y) => nibbles(8, reg(x), reg(y), 4),
        Instruction::SubVx(x, y) => nibbles(8, reg(x), reg(y), 5),
        Instruction::ShiftRight(x) => nibbles(8, reg(x), 0, 6),
        Instruction::SubN(x, y) => nibbles(8, reg(x), reg(y), 7),
        Instruction::ShiftLeft(x) => nibbles(8, reg(x), 0, 0xE),
        Instruction::SkipNotEqVx(x, y) => nibbles(9, reg(x), reg(y), 0),
        Instruction::LoadI(a) => 0xA000 + addr12(a),
        Instruction::JmpV0(a) => 0xB000 + addr12(a),
        Instruction::Rand(x, k) => 0xC000 + reg(x) * 0x100 + k,
        Instruction::Draw(x, y, n) => nibbles(0xD, reg(x), reg(y), (n % 16) as int),
        Instruction::SkipKeyPressed(x) => 0xE09E + reg(x) * 0x100,
        Instruction::SkipKeyNotPressed(x) => 0xE0A1 + reg(x) * 0x100,
        Instruction::LoadDelay(x) => 0xF007 + reg(x) * 0x100,
        Instruction::LoadKey(x) => 0xF00A + reg(x) * 0x100,
        Instruction::SetDelay(x) => 0xF015 + reg(x) * 0x100,
        Instruction::SetSound(x) => 0xF018 + reg(x) * 0x100,
        Instruction::AddI(x) => 0xF01E + reg(x) * 0x100,
        Instruction::LoadFont(x) => 0xF029 + reg(x) * 0x100,
        Instruction::LoadBcd(x) => 0xF033 + reg(x) * 0x100,
        Instruction::StoreRegisters(x) => 0xF055 + reg(x) * 0x100,
        Instruction::LoadRegisters(x) => 0xF065 + reg(x) * 0x100,
    }
}

/// Reads back, from the high byte `hi` and low byte `lo` of a word, the
/// operands of an instruction of the same variant as `like`, by the bit
/// layout of that variant.
pub open spec fn decode_as(like: Instruction, hi: u8, lo: u8) -> Instruction {
    let x = Vx(hi % 16);
    let y = Vx(lo / 16);
    let a = Addr(((hi % 16) as int * 256 + lo as int) as u16);
    match like {
        Instruction::Cls => Instruction::Cls,
        Instruction::Ret => Instruction::Ret,
        Instruction::Sys(_) => Instruction::Sys(a),
        Instruction::Jmp(_) => Instruction::Jmp(a),
        Instruction::Call(_) => Instruction::Call(a),
        Instruction::SkipEq(_, _) => Instruction::SkipEq(x, lo),
        Instruction::SkipNotEq(_, _) => Instruction::SkipNotEq(x, lo),
        Instruction::SkipEqVx(_, _) => Instruction::SkipEqVx(x, y),
        Instruction::Load(_, _) => Instruction::Load(x, lo),
        Instruction::Add(_, _) => Instruction::Add(x, lo),
        Instruction::LoadVx(_, _) => Instruction::LoadVx(x, y),
        Instruction::Or(_, _) => Instruction::Or(x, y),
        Instruction::And(_, _) => Instruction::And(x, y),
        Instruction::XOr(_, _) => Instruction::XOr(x, y),
        Instruction::AddVx(_, _) => Instruction::AddVx(x, y),
        Instruction::SubVx(_, _) => Instruction::SubVx(x, y),
        Instruction::ShiftRight(_) => Instruction::ShiftRight(x),
        Instruction::SubN(_, _) => Instruction::SubN(x, y),
        Instruction::ShiftLeft(_) => Instruction::ShiftLeft(x),
        Instruction::SkipNotEqVx(_, _) => Instruction::SkipNotEqVx(x, y),
        Instruction::LoadI(_) => Instruction::LoadI(a),
        Instruction::JmpV0(_) => Instruction::JmpV0(a),
        Instruction::Rand(_, _) => Instruction::Rand(x, lo),
        Instruction::Draw(_, _, _) => Instruction::Draw(x, y, lo % 16),
        Instruction::SkipKeyPressed(_) => Instruction::SkipKeyPressed(x),
        Instruction::SkipKeyNotPressed(_) => Instruction::SkipKeyNotPressed(x),
        Instruction::LoadDelay(_) => Instruction::LoadDelay(x),
        Instruction::LoadKey(_) => Instruction::LoadKey(x),
        Instruction::SetDelay(_) => Instruction::SetDelay(x),
        Instruction::SetSound(_) => Instruction::SetSound(x),
        Instruction::AddI(_) => Instruction::AddI(x),
        Instruction::LoadFont(_) => Instruction::LoadFont(x),
        Instruction::LoadBcd(_) => Instruction::LoadBcd(x),
        Instruction::StoreRegisters(_) => Instruction::StoreRegisters(x),
        Instruction::LoadRegisters(_) => Instruction::LoadRegisters(x),
    }
}

proof fn lemma_byte_operand_word(f: int, x: int, k: int)
    requires
        0 <= f < 16,
        0 <= x < 16,
        0 <= k < 256,
    ensures
        ((f * 0x1000 + x * 0x100 + k) / 256) as u8 % 16 == x,
        ((f * 0x1000 + x * 0x100 + k) % 256) as u8 == k,
{
    assert((f * 0x1000 + x * 0x100 + k) / 256 == f * 16 + x) by (nonlinear_arith)
        requires 0 <= x < 16, 0 <= k < 256;
    assert((f * 0x1000 + x * 0x100 + k) % 256 == k) by (nonlinear_arith)
        requires 0 <= x < 16, 0 <= k < 256;
    assert((f * 16 + x) % 16 == x) by (nonlinear_arith)
        requires 0 <= x < 16;
}

proof fn lemma_nibbles_word(f: int, x: int, y: int, n: int)
    requires
        0 <= f < 16,
        0 <= x < 16,
        0 <= y < 16,
        0 <= n < 16,
    ensures
        (nibbles(f, x, y, n) / 256) as u8 % 16 == x,
        (nibbles(f, x, y, n) % 256) as u8 / 16 == y,
        (nibbles(f, x, y, n) % 256) as u8 % 16 == n,
{
    lemma_byte_operand_word(f, x, y * 16 + n);
    assert((y * 16 + n) / 16 == y && (y * 16 + n) % 16 == n) by (nonlinear_arith)
        requires 0 <= n < 16;
}

proof fn lemma_address_word(base: int, v: int)
    requires
        base == 0x1000 || base == 0xA000 || base == 0xB000,
        0 <= v < 0x1000,
    ensures
        ((((base + v) / 256) as u8 % 16) as int * 256 + ((base + v) % 256) as u8 as int) as u16
            == v,
{
    lemma_byte_operand_word(base / 0x1000, v / 256, v % 256);
}

/// Encoding loses nothing: for every instruction whose operands fit their
/// fields, reading the operands back from the encoded word, by the layout of
/// the instruction's own variant, gives the instruction again.
pub proof fn lemma_encode_round_trip(instr: Instruction)
    requires
        instr.wf(),
    ensures
        decode_as(instr, (word_of(instr) / 256) as u8, (word_of(instr) % 256) as u8) == instr,
{
    assert(forall|x: Vx| x.wf() ==> #[trigger] reg(x) == x.0 as int);
    match instr {
        Instruction::Sys(a) | Instruction::Jmp(a) | Instruction::Call(a)
        | Instruction::LoadI(a) | Instruction::JmpV0(a) => {
            lemma_address_word(word_of(instr) - a.0 as int, a.0 as int);
        },
        Instruction::SkipEq(x, k) | Instruction::SkipNotEq(x, k) | Instruction::Load(x, k)
        | Instruction::Add(x, k) | Instruction::Rand(x, k) => {
            lemma_byte_operand_word(word_of(instr) / 0x1000, reg(x), k as int);
        },
        Instruction::SkipEqVx(x, y) => lemma_nibbles_word(5, reg(x), reg(y), 0),
        Instruction::LoadVx(x, y) => lemma_nibbles_word(8, reg(x), reg(y), 0),
        Instruction::Or(x, y) => lemma_nibbles_word(8, reg(x), reg(y), 1),
        Instruction::And(x, y) => lemma_nibbles_word(8, reg(x), reg(y), 2),
        Instruction::XOr(x, y) => lemma_nibbles_word(8, reg(x), reg(y), 3),
        Instruction::AddVx(x, y) => lemma_nibbles_word(8, reg(x), reg(y), 4),
        Instruction::SubVx(x, y) => lemma_nibbles_word(8, reg(x), reg(y), 5),
        Instruction::ShiftRight(x) => lemma_nibbles_word(8, reg(x), 0, 6),
        Instruction::SubN(x, y) => lemma_nibbles_word(8, reg(x), reg(y), 7),
        Instruction::ShiftLeft(x) => lemma_nibbles_word(8, reg(x), 0, 0xE),
        Instruction::SkipNotEqVx(x, y) => lemma_nibbles_word(9, reg(x), reg(y), 0),
        Instruction::Draw(x, y, n) => lemma_nibbles_word(0xD, reg(x), reg(y), (n % 16) as int),
        Instruction::SkipKeyPressed(x) => lemma_byte_operand_word(0xE, reg(x), 0x9E),
        Instruction::SkipKeyNotPressed(x) => lemma_byte_operand_word(0xE, reg(x), 0xA1),
        Instruction::LoadDelay(x) => lemma_byte_operand_word(0xF, reg(x), 0x07),
        Instruction::LoadKey(x) => lemma_byte_operand_word(0xF, reg(x), 0x0A),
        Instruction::SetDelay(x) => lemma_byte_operand_word(0xF, reg(x), 0x15),
        Instruction::SetSound(x) => lemma_byte_operand_word(0xF, reg(x), 0x18),
        Instruction::AddI(x) => lemma_byte_operand_word(0xF, reg(x), 0x1E),
        Instruction::LoadFont(x) => lemma_byte_operand_word(0xF, reg(x), 0x29),
        Instruction::LoadBcd(x) => lemma_byte_operand_word(0xF, reg(x), 0x33),
        Instruction::StoreRegisters(x) => lemma_byte_operand_word(0xF, reg(x), 0x55),
        Instruction::LoadRegisters(x) => lemma_byte_operand_word(0xF, reg(x), 0x65),
        _ => {},
    }
}

/// Packs two nibbles into a byte; bits above the low nibble of either
/// argument are dropped.
pub fn construct_byte(high_nibble: u8, low_nibble: u8) -> (r: u8)
    ensures
        r as int == (high_nibble % 16) as int * 16 + (low_nibble % 16) as int,
{
    let r = ((high_nibble & 0x0F) << 4) | (low_nibble & 0x0F);
    assert(r == ((high_nibble & 0x0F) << 4) | (low_nibble & 0x0F) ==> r == (high_nibble % 16)
        * 16 + (low_nibble % 16)) by (bit_vector);
    r
}

/// Encodes an instruction of family `family` whose low twelve bits are an
/// address.
fn address_word(family: u8, a: Addr) -> (r: AssembledInstruction)
    requires
        family < 16,
    ensures
        r.word() == family as int * 0x1000 + addr12(a),
{
    let v = a.0;
    let hi = construct_byte(family, (v >> 8) as u8);
    let lo = v as u8;
    assert(((v >> 8) as u8) % 16 == (v % 0x1000) / 256 && (v as u8) == v % 256) by (bit_vector);
    assert((v % 0x1000) as int == ((v % 0x1000) / 256) as int * 256 + (v % 256) as int) by {
        assert((v % 0x1000) % 256 == v % 256) by (bit_vector);
    }
    AssembledInstruction(hi, lo)
}

/// Encodes an instruction `f x k k`: a family digit, a register and a byte.
fn register_byte_word(family: u8, x: Vx, k: u8) -> (r: AssembledInstruction)
    requires
        family < 16,
    ensures
        r.word() == family as int * 0x1000 + reg(x) * 0x100 + k as int,
{
    AssembledInstruction(construct_byte(family, x.0), k)
}

/// Encodes an instruction `f x y n` from its four nibbles.
fn nibbles_word(f: u8, x: u8, y: u8, n: u8) -> (r: AssembledInstruction)
    requires
        f < 16,
    ensures
        r.word() == nibbles(f as int, (x % 16) as int, (y % 16) as int, (n % 16) as int),
{
    AssembledInstruction(construct_byte(f, x), construct_byte(y, n))
}

/// Encodes one instruction as its two-byte word.
pub fn assemble_instruction(instr: Instruction) -> (r: AssembledInstruction)
    ensures
        r.word() == word_of(instr),
{
    match instr {
        Instruction::Cls => AssembledInstruction(0x00, 0xE0),
        Instruction::Ret => AssembledInstruction(0x00, 0xEE),
        Instruction::Sys(a) => address_word(0x1, a),
        Instruction::Jmp(a) => address_word(0x1, a),
        Instruction::Call(a) => address_word(0x1, a),
        Instruction::SkipEq(x, k) => register_byte_word(0x3, x, k),
        Instruction::SkipNotEq(x, k) => register_byte_word(0x4, x, k),
        Instruction::SkipEqVx(x, y) => nibbles_word(0x5, x.0, y.0, 0x0),
        Instruction::Load(x, k) => register_byte_word(0x6, x, k),
        Instruction::Add(x, k) => register_byte_word(0x7, x, k),
        Instruction::LoadVx(x, y) => nibbles_word(0x8, x.0, y.0, 0x0),
        Instruction::Or(x, y) => nibbles_word(0x8, x.0, y.0, 0x1),
        Instruction::And(x, y) => nibbles_word(0x8, x.0, y.0, 0x2),
        Instruction::XOr(x, y) => nibbles_word(0x8, x.0, y.0, 0x3),
        Instruction::AddVx(x, y) => nibbles_word(0x8, x.0, y.0, 0x4),
        Instruction::SubVx(x, y) => nibbles_word(0x8, x.0, y.0, 0x5),
        Instruction::ShiftRight(x) => nibbles_word(0x8, x.0, 0x0, 0x6),
        Instruction::SubN(x, y) => nibbles_word(0x8, x.0, y.0, 0x7),
        Instruction::ShiftLeft(x) => nibbles_word(0x8, x.0, 0x0, 0xE),
        Instruction::SkipNotEqVx(x, y) => nibbles_word(0x9, x.0, y.0, 0x0),
        Instruction::LoadI(a) => address_word(0xA, a),
        Instruction::JmpV0(a) => address_word(0xB, a),
        Instruction::Rand(x, k) => register_byte_word(0xC, x, k),
        Instruction::Draw(x, y, n) => nibbles_word(0xD, x.0, y.0, n),
        Instruction::SkipKeyPressed(x) => register_byte_word(0xE, x, 0x9E),
        Instruction::SkipKeyNotPressed(x) => register_byte_word(0xE, x, 0xA1),
        Instruction::LoadDelay(x) => register_byte_word(0xF, x, 0x07),
        Instruction::LoadKey(x) => register_byte_word(0xF, x, 0x0A),
        Instruction::SetDelay(x) => register_byte_word(0xF, x, 0x15),
        Instruction::SetSound(x) => register_byte_word(0xF, x, 0x18),
        Instruction::AddI(x) => register_byte_word(0xF, x, 0x1E),
        Instruction::LoadFont(x) => register_byte_word(0xF, x, 0x29),
        Instruction::LoadBcd(x) => register_byte_word(0xF, x, 0x33),
        Instruction::StoreRegisters(x) => register_byte_word(0xF, x, 0x55),
        Instruction::LoadRegisters(x) => register_byte_word(0xF, x, 0x65),
    }
}

} // verus!
