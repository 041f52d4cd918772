use c8dis::instr::{decode, Instruction};
use c8dis::text::{format_line, instr_text, line_prefix, mnemonic_text, opcode_of, operands_text};

#[test]
fn formats_cls_line_exactly() {
    let line = format_line(0x200, 0x00, 0xE0);
    assert_eq!(line, "0200:\t00 E0\tCLS");
}

#[test]
fn opcode_is_big_endian() {
    assert_eq!(opcode_of(0x00, 0xE0), 0x00E0);
    assert_eq!(opcode_of(0x1A, 0xBC), 0x1ABC);
    assert_eq!(opcode_of(0xFF, 0xFF), 0xFFFF);
    assert_eq!(opcode_of(0x00, 0x00), 0x0000);
}

#[test]
fn prefix_fields_are_fixed_width_uppercase() {
    assert_eq!(line_prefix(0x200, 0x00, 0xE0), "0200:\t00 E0\t");
    assert_eq!(line_prefix(0x0202, 0x1A, 0xBC), "0202:\t1A BC\t");
    assert_eq!(line_prefix(0x0FFE, 0x0F, 0x00), "0FFE:\t0F 00\t");
}

#[test]
fn mnemonic_tokens() {
    assert_eq!(mnemonic_text(&decode(0x00E0)), "CLS");
    assert_eq!(mnemonic_text(&decode(0x00EE)), "RET");
    assert_eq!(mnemonic_text(&decode(0x0123)), "SYS");
    assert_eq!(mnemonic_text(&decode(0x8AB7)), "SUBN");
    assert_eq!(mnemonic_text(&decode(0xF129)), "LD");
    assert_eq!(mnemonic_text(&decode(0xE000)), "#INVALID");
}

#[test]
fn operand_templates() {
    assert_eq!(instr_text(&decode(0x1ABC)), "JP 0ABC");
    assert_eq!(instr_text(&decode(0x2345)), "CALL 0345");
    assert_eq!(instr_text(&decode(0x0ABC)), "SYS 0ABC");
    assert_eq!(instr_text(&decode(0x3B07)), "SE VB, 07");
    assert_eq!(instr_text(&decode(0x4B80)), "SNE VB, 80");
    assert_eq!(instr_text(&decode(0x5120)), "SE V1, V2");
    assert_eq!(instr_text(&decode(0x6A05)), "LD VA, 05");
    assert_eq!(instr_text(&decode(0x7A05)), "ADD VA, 05");
    assert_eq!(instr_text(&decode(0x8AB4)), "ADD VA, VB");
    assert_eq!(instr_text(&decode(0x9120)), "SNE V1, V2");
    assert_eq!(instr_text(&decode(0xA123)), "LD I, 0123");
    assert_eq!(instr_text(&decode(0xB123)), "JP V0, 0123");
    assert_eq!(instr_text(&decode(0xC4FF)), "RND V4, FF");
    assert_eq!(instr_text(&decode(0xE19E)), "SKP V1");
    assert_eq!(instr_text(&decode(0xE1A1)), "SKNP V1");
    assert_eq!(instr_text(&decode(0xE1A2)), "#INVALID");
}

#[test]
fn drw_sprite_height_is_decimal() {
    assert_eq!(instr_text(&decode(0xD125)), "DRW V1, V2, 5");
    assert_eq!(instr_text(&decode(0xD12F)), "DRW V1, V2, 15");
    assert_eq!(instr_text(&decode(0xD12A)), "DRW V1, V2, 10");
    assert_eq!(instr_text(&decode(0xD120)), "DRW V1, V2, 0");
}

#[test]
fn pseudo_register_templates() {
    assert_eq!(instr_text(&decode(0xF107)), "LD DT, V1");
    assert_eq!(instr_text(&decode(0xF10A)), "LD V1, K");
    assert_eq!(instr_text(&decode(0xF115)), "LD V1, DT");
    assert_eq!(instr_text(&decode(0xF118)), "LD ST, V1");
    assert_eq!(instr_text(&decode(0xF11E)), "ADD I, V1");
    assert_eq!(instr_text(&decode(0xFA29)), "LD F, VA");
    assert_eq!(instr_text(&decode(0xFA33)), "LD B, VA");
    assert_eq!(instr_text(&decode(0xFA55)), "LD [I], VA");
    assert_eq!(instr_text(&decode(0xFA65)), "LD VA, [I]");
}

#[test]
fn invalid_renders_with_no_operands() {
    assert_eq!(instr_text(&Instruction::Invalid), "#INVALID");
    assert_eq!(operands_text(&Instruction::Invalid), "");
    assert_eq!(operands_text(&Instruction::Cls), "");
    assert_eq!(operands_text(&Instruction::Ret), "");
    assert_eq!(format_line(0x200, 0x00, 0x00), "0200:\t00 00\t#INVALID");
}
