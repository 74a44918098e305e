use chip8_assembler::{assemble, AssembleError, ParseErr};

fn ok(src: &str) -> Vec<u8> {
    assemble(src).expect("source should assemble")
}

#[test]
fn clear_screen() {
    assert_eq!(ok("CLS"), vec![0x00, 0xE0]);
}

#[test]
fn label_then_jump_to_it() {
    assert_eq!(ok("loop:\nJP loop"), vec![0x12, 0x00]);
}

#[test]
fn label_and_instruction_on_one_line_is_neither() {
    assert_eq!(ok("loop: JP loop"), Vec::<u8>::new());
}

#[test]
fn load_byte_upper_case_hex() {
    assert_eq!(ok("LD V3, 2A"), vec![0x63, 0x2A]);
}

#[test]
fn add_registers() {
    assert_eq!(ok("ADD V1, V2"), vec![0x81, 0x24]);
}

#[test]
fn only_comments_and_blank_lines() {
    assert_eq!(ok("; a comment\n\n   \n\t; another\n"), Vec::<u8>::new());
}

#[test]
fn undefined_label_fails() {
    assert_eq!(
        assemble("JP undefined_label"),
        Err(AssembleError {
            line: 1,
            error: ParseErr::UndefinedLabel(String::from("undefined_label")),
        })
    );
}

#[test]
fn forward_and_backward_references() {
    let src = "start:\n  JP end ; skip\n  CLS\nend:\n  JP start\n";
    assert_eq!(ok(src), vec![0x12, 0x04, 0x00, 0xE0, 0x12, 0x00]);
}

#[test]
fn later_label_definition_wins() {
    let src = "a:\nCLS\na:\nJP a";
    assert_eq!(ok(src), vec![0x00, 0xE0, 0x12, 0x02]);
}

#[test]
fn sys_and_call_share_the_jump_family() {
    let src = "here:\nSYS here\nCALL here\nJP here";
    assert_eq!(ok(src), vec![0x12, 0x00, 0x12, 0x00, 0x12, 0x00]);
}

#[test]
fn every_mnemonic_form() {
    let src = "\
top:
CLS
RET
SE V1, 0f
SNE V2, 7
SE V3, V4
LD V5, ff
ADD V6, 1
LD V7, V8
OR V9, Va
AND Vb, Vc
XOR Vd, Ve
ADD Vf, V0
SUB V1, V2
SHR V3
SUBN V4, V5
SHL V6
SNE V7, V8
LD I, top
JP V0, top
RND V9, 3C
DRW Va, Vb, 5
SKP Vc
SKNP Vd
LD Ve, DT
LD Vf, K
LD DT, V1
LD ST, V2
ADD I, V3
LD F, V4
LD B, V5
LD [I], V6
LD V7, [I]
";
    let expected: Vec<u8> = vec![
        0x00, 0xE0, 0x00, 0xEE, 0x31, 0x0F, 0x42, 0x07, 0x53, 0x40, 0x65, 0xFF, 0x76, 0x01,
        0x87, 0x80, 0x89, 0xA1, 0x8B, 0xC2, 0x8D, 0xE3, 0x8F, 0x04, 0x81, 0x25, 0x83, 0x06,
        0x84, 0x57, 0x86, 0x0E, 0x97, 0x80, 0xA2, 0x00, 0xB2, 0x00, 0xC9, 0x3C, 0xDA, 0xB5,
        0xEC, 0x9E, 0xED, 0xA1, 0xFE, 0x07, 0xFF, 0x0A, 0xF1, 0x15, 0xF2, 0x18, 0xF3, 0x1E,
        0xF4, 0x29, 0xF5, 0x33, 0xF6, 0x55, 0xF7, 0x65,
    ];
    assert_eq!(ok(src), expected);
}

#[test]
fn trailing_comments_and_spaces() {
    assert_eq!(ok("  CLS   ; clear\r\nRET;back"), vec![0x00, 0xE0, 0x00, 0xEE]);
}

#[test]
fn unknown_mnemonic_carries_the_line() {
    assert_eq!(
        assemble("CLS\nFOO V1"),
        Err(AssembleError {
            line: 2,
            error: ParseErr::UnimplementedInstruction(String::from("FOO V1")),
        })
    );
}

#[test]
fn malformed_operands_are_unrecognized() {
    assert_eq!(
        assemble("LD V1,V2"),
        Err(AssembleError {
            line: 1,
            error: ParseErr::UnimplementedInstruction(String::from("LD V1,V2")),
        })
    );
}

#[test]
fn byte_with_three_digits_is_out_of_range() {
    assert_eq!(
        assemble("LD V1, 123"),
        Err(AssembleError { line: 1, error: ParseErr::OperandOutOfRange(String::from("123")) })
    );
}

#[test]
fn register_with_two_digits_is_out_of_range() {
    assert_eq!(
        assemble("SHR V12"),
        Err(AssembleError { line: 1, error: ParseErr::OperandOutOfRange(String::from("V12")) })
    );
}

#[test]
fn address_past_twelve_bits_is_out_of_range() {
    let mut src = String::new();
    for _ in 0..0x700 {
        src.push_str("CLS\n");
    }
    src.push_str("far:\nJP far\n");
    assert_eq!(
        assemble(&src),
        Err(AssembleError {
            line: 0x702,
            error: ParseErr::OperandOutOfRange(String::from("far")),
        })
    );
}

#[test]
fn last_address_that_fits() {
    let mut src = String::from("JP far\n");
    for _ in 0..0x6FE {
        src.push_str("CLS\n");
    }
    src.push_str("far:\nRET\n");
    let bytes = ok(&src);
    assert_eq!(&bytes[0..2], &[0x1F, 0xFE]);
}

#[test]
fn no_output_after_an_error() {
    assert!(assemble("CLS\nJP nowhere\nRET").is_err());
}

#[test]
fn same_source_twice_same_bytes() {
    let src = "x:\nLD V1, 10\nDRW V1, V2, f\nJP x\n";
    assert_eq!(assemble(src), assemble(src));
}

#[test]
fn output_is_two_bytes_per_instruction_line() {
    let src = "; header\nstart:\n\nCLS\n  ; note\nLD V0, 1\nmid: ; here\nADD V0, 1\nJP mid\n";
    assert_eq!(ok(src).len(), 2 * 4);
}
