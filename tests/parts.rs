use chip8_assembler::{
    assemble_instruction, build_symbol_table, classify_line, construct_byte, parse_instruction,
    Addr, AssembledInstruction, Instruction, LineKind, ParseErr, SymbolTable, Vx,
};

fn chars(s: &str) -> Vec<char> {
    s.chars().collect()
}

#[test]
fn classify_comment() {
    assert_eq!(classify_line("   ; only a note"), LineKind::Comment);
}

#[test]
fn classify_label() {
    assert_eq!(classify_line("  main_loop2:  ; entry"), LineKind::Label(String::from("main_loop2")));
}

#[test]
fn classify_instruction() {
    assert_eq!(classify_line("DRW V1, V2, 5 ; draw"), LineKind::Instruction);
    assert_eq!(classify_line("FOO"), LineKind::Instruction);
}

#[test]
fn classify_other() {
    assert_eq!(classify_line(""), LineKind::Blank);
    assert_eq!(classify_line("   "), LineKind::Blank);
    assert_eq!(classify_line("ABCDE V1"), LineKind::Blank);
    assert_eq!(classify_line("X V1"), LineKind::Blank);
    assert_eq!(classify_line("LD  V1, 2"), LineKind::Blank);
    assert_eq!(classify_line("lower case"), LineKind::Blank);
}

#[test]
fn symbol_table_counts_instruction_lines() {
    let lines: Vec<Vec<char>> = vec![
        chars("a:"),
        chars("CLS"),
        chars("; note"),
        chars("BAD OPERAND"),
        chars("b:"),
        chars("RET"),
        chars("c:"),
    ];
    let table = build_symbol_table(&lines);
    assert_eq!(table.address("a"), Some(0x200));
    assert_eq!(table.address("b"), Some(0x204));
    assert_eq!(table.address("c"), Some(0x206));
    assert_eq!(table.address("d"), None);
}

#[test]
fn parse_with_table() {
    let mut table = SymbolTable::new();
    table.define(chars("loop"), 3);
    assert_eq!(parse_instruction("JP loop", &table), Ok(Instruction::Jmp(Addr(0x206))));
    assert_eq!(parse_instruction("LD I, loop ; sprite", &table), Ok(Instruction::LoadI(Addr(0x206))));
    assert_eq!(
        parse_instruction("CALL missing", &table),
        Err(ParseErr::UndefinedLabel(String::from("missing")))
    );
    assert_eq!(
        parse_instruction("DRW V1, V2, 10", &table),
        Err(ParseErr::OperandOutOfRange(String::from("10")))
    );
    assert_eq!(
        parse_instruction("CLS ; ok\n more", &table),
        Err(ParseErr::UnimplementedInstruction(String::from("CLS ; ok\n more")))
    );
}

#[test]
fn jump_v0_is_not_a_plain_jump() {
    let mut table = SymbolTable::new();
    table.define(chars("t"), 0);
    table.define(chars("V0,"), 1);
    assert_eq!(parse_instruction("JP V0, t", &table), Ok(Instruction::JmpV0(Addr(0x200))));
    assert_eq!(parse_instruction("JP V0,", &table), Ok(Instruction::Jmp(Addr(0x202))));
}

#[test]
fn construct_byte_masks_nibbles() {
    assert_eq!(construct_byte(0x01, 0x02), 0x12);
    assert_eq!(construct_byte(0xAB, 0xCD), 0xBD);
}

fn decode_like(like: Instruction, w: AssembledInstruction) -> Instruction {
    let x = Vx(w.0 & 0x0F);
    let y = Vx(w.1 >> 4);
    let a = Addr((((w.0 & 0x0F) as u16) << 8) | w.1 as u16);
    match like {
        Instruction::Jmp(_) => Instruction::Jmp(a),
        Instruction::Call(_) => Instruction::Call(a),
        Instruction::Sys(_) => Instruction::Sys(a),
        Instruction::SkipEq(_, _) => Instruction::SkipEq(x, w.1),
        Instruction::SubN(_, _) => Instruction::SubN(x, y),
        Instruction::Draw(_, _, _) => Instruction::Draw(x, y, w.1 & 0x0F),
        Instruction::LoadBcd(_) => Instruction::LoadBcd(x),
        other => other,
    }
}

#[test]
fn encoding_round_trips() {
    let samples = [
        Instruction::Jmp(Addr(0xABC)),
        Instruction::Call(Addr(0x2FE)),
        Instruction::Sys(Addr(0x001)),
        Instruction::SkipEq(Vx(0xE), 0x5A),
        Instruction::SubN(Vx(3), Vx(0xC)),
        Instruction::Draw(Vx(0xF), Vx(0), 0xF),
        Instruction::LoadBcd(Vx(9)),
    ];
    for s in samples.iter() {
        assert_eq!(decode_like(*s, assemble_instruction(*s)), *s);
    }
}

#[test]
fn encoding_exact_words() {
    assert_eq!(assemble_instruction(Instruction::Cls), AssembledInstruction(0x00, 0xE0));
    assert_eq!(assemble_instruction(Instruction::Ret), AssembledInstruction(0x00, 0xEE));
    assert_eq!(assemble_instruction(Instruction::Jmp(Addr(0x200))), AssembledInstruction(0x12, 0x00));
    assert_eq!(assemble_instruction(Instruction::ShiftLeft(Vx(4))), AssembledInstruction(0x84, 0x0E));
    assert_eq!(assemble_instruction(Instruction::SetSound(Vx(0xA))), AssembledInstruction(0xFA, 0x18));
    assert_eq!(assemble_instruction(Instruction::LoadVx(Vx(0x13), Vx(2))), AssembledInstruction(0x83, 0x20));
}
