//! Rendering of decoded instructions as listing text: fixed-width uppercase
//! hex fields, the mnemonic token, and per-operand templates.

use vstd::prelude::*;
use vstd::string::StringExecFns;
use crate::instr::{Instruction, spec_decode, decode, wf, lemma_decode_wf};

verus! {

/// The uppercase hex digit for a value below 16.
pub open spec fn hex_char(d: int) -> char
    recommends
        0 <= d < 16,
{
    if d == 0 {
        '0'
    } else if d == 1 {
        '1'
    } else if d == 2 {
        '2'
    } else if d == 3 {
        '3'
    } else if d == 4 {
        '4'
    } else if d == 5 {
        '5'
    } else if d == 6 {
        '6'
    } else if d == 7 {
        '7'
    } else if d == 8 {
        '8'
    } else if d == 9 {
        '9'
    } else if d == 10 {
        'A'
    } else if d == 11 {
        'B'
    } else if d == 12 {
        'C'
    } else if d == 13 {
        'D'
    } else if d == 14 {
        'E'
    } else {
        'F'
    }
}

/// A value below 0x100 as two uppercase hex digits, zero-padded.
pub open spec fn hex2(v: int) -> Seq<char> {
    seq![hex_char(v / 16 % 16), hex_char(v % 16)]
}

/// A value below 0x10000 as four uppercase hex digits, zero-padded.
pub open spec fn hex4(v: int) -> Seq<char> {
    seq![
        hex_char(v / 0x1000 % 16),
        hex_char(v / 0x100 % 16),
        hex_char(v / 16 % 16),
        hex_char(v % 16),
    ]
}

/// The uppercase hex digit of a nibble, as a one-character string slice.
fn hex_digit_str(d: u8) -> (r: &'static str)
    requires
        d < 16,
    ensures
        r@ == seq![hex_char(d as int)],
{
    let r: &'static str = match d {
        0 => "0",
        1 => "1",
        2 => "2",
        3 => "3",
        4 => "4",
        5 => "5",
        6 => "6",
        7 => "7",
        8 => "8",
        9 => "9",
        10 => "A",
        11 => "B",
        12 => "C",
        13 => "D",
        14 => "E",
        _ => "F",
    };
    proof {
        reveal_strlit("0");
        reveal_strlit("1");
        reveal_strlit("2");
        reveal_strlit("3");
        reveal_strlit("4");
        reveal_strlit("5");
        reveal_strlit("6");
        reveal_strlit("7");
        reveal_strlit("8");
        reveal_strlit("9");
        reveal_strlit("A");
        reveal_strlit("B");
        reveal_strlit("C");
        reveal_strlit("D");
        reveal_strlit("E");
        reveal_strlit("F");
        assert(r@ =~= seq![hex_char(d as int)]);
    }
    r
}

/// Appends `v` as two uppercase hex digits.
fn push_hex2(s: &mut String, v: u8)
    ensures
        final(s)@ == old(s)@ + hex2(v as int),
{
    s.append(hex_digit_str(v / 16));
    s.append(hex_digit_str(v % 16));
    proof {
        assert(s@ =~= old(s)@ + hex2(v as int));
    }
}

/// Appends `v` as four uppercase hex digits.
fn push_hex4(s: &mut String, v: u16)
    ensures
        final(s)@ == old(s)@ + hex4(v as int),
{
    s.append(hex_digit_str((v / 0x1000) as u8));
    s.append(hex_digit_str((v / 0x100 % 16) as u8));
    s.append(hex_digit_str((v / 16 % 16) as u8));
    s.append(hex_digit_str((v % 16) as u8));
    proof {
        assert(s@ =~= old(s)@ + hex4(v as int));
    }
}

/// The mnemonic token of each instruction; `Invalid` renders as `#INVALID`.
pub open spec fn spec_mnemonic(i: Instruction) -> Seq<char> {
    match i {
        Instruction::Cls => "CLS"@,
        Instruction::Ret => "RET"@,
        Instruction::Sys { .. } => "SYS"@,
        Instruction::Jp { .. } => "JP"@,
        Instruction::Call { .. } => "CALL"@,
        Instruction::SeByte { .. } => "SE"@,
        Instruction::SneByte { .. } => "SNE"@,
        Instruction::SeReg { .. } => "SE"@,
        Instruction::LdByte { .. } => "LD"@,
        Instruction::AddByte { .. } => "ADD"@,
        Instruction::LdReg { .. } => "LD"@,
        Instruction::Or { .. } => "OR"@,
        Instruction::And { .. } => "AND"@,
        Instruction::Xor { .. } => "XOR"@,
        Instruction::AddReg { .. } => "ADD"@,
        Instruction::Sub { .. } => "SUB"@,
        Instruction::Shr { .. } => "SHR"@,
        Instruction::Subn { .. } => "SUBN"@,
        Instruction::Shl { .. } => "SHL"@,
        Instruction::SneReg { .. } => "SNE"@,
        Instruction::LdI { .. } => "LD"@,
        Instruction::JpV0 { .. } => "JP"@,
        Instruction::Rnd { .. } => "RND"@,
        Instruction::Drw { .. } => "DRW"@,
        Instruction::Skp { .. } => "SKP"@,
        Instruction::Sknp { .. } => "SKNP"@,
        Instruction::LdDt { .. } => "LD"@,
        Instruction::LdKey { .. } => "LD"@,
        Instruction::StDt { .. } => "LD"@,
        Instruction::StSt { .. } => "LD"@,
        Instruction::AddI { .. } => "ADD"@,
        Instruction::LdFont { .. } => "LD"@,
        Instruction::LdBcd { .. } => "LD"@,
        Instruction::StRegs { .. } => "LD"@,
        Instruction::LdRegs { .. } => "LD"@,
        Instruction::Invalid => "#INVALID"@,
    }
}

/// Returns the mnemonic token of an instruction.
pub fn mnemonic_text(i: &Instruction) -> (r: &'static str)
    ensures
        r@ == spec_mnemonic(*i),
{
    match *i {
        Instruction::Cls => "CLS",
        Instruction::Ret => "RET",
        Instruction::Sys { .. } => "SYS",
        Instruction::Jp { .. } => "JP",
        Instruction::Call { .. } => "CALL",
        Instruction::SeByte { .. } => "SE",
        Instruction::SneByte { .. } => "SNE",
        Instruction::SeReg { .. } => "SE",
        Instruction::LdByte { .. } => "LD",
        Instruction::AddByte { .. } => "ADD",
        Instruction::LdReg { .. } => "LD",
        Instruction::Or { .. } => "OR",
        Instruction::And { .. } => "AND",
        Instruction::Xor { .. } => "XOR",
        Instruction::AddReg { .. } => "ADD",
        Instruction::Sub { .. } => "SUB",
        Instruction::Shr { .. } => "SHR",
        Instruction::Subn { .. } => "SUBN",
        Instruction::Shl { .. } => "SHL",
        Instruction::SneReg { .. } => "SNE",
        Instruction::LdI { .. } => "LD",
        Instruction::JpV0 { .. } => "JP",
        Instruction::Rnd { .. } => "RND",
        Instruction::Drw { .. } => "DRW",
        Instruction::Skp { .. } => "SKP",
        Instruction::Sknp { .. } => "SKNP",
        Instruction::LdDt { .. } => "LD",
        Instruction::LdKey { .. } => "LD",
        Instruction::StDt { .. } => "LD",
        Instruction::StSt { .. } => "LD",
        Instruction::AddI { .. } => "ADD",
        Instruction::LdFont { .. } => "LD",
        Instruction::LdBcd { .. } => "LD",
        Instruction::StRegs { .. } => "LD",
        Instruction::LdRegs { .. } => "LD",
        Instruction::Invalid => "#INVALID",
    }
}

/// A register operand: `V` followed by the register's hex nibble.
pub open spec fn reg_text(x: u8) -> Seq<char> {
    seq!['V', hex_char(x as int)]
}

/// A nibble immediate in decimal, as the sprite height of `DRW` is printed.
pub open spec fn nibble_dec(n: u8) -> Seq<char>
    recommends
        n < 16,
{
    if n < 10 {
        seq![hex_char(n as int)]
    } else {
        seq!['1', hex_char(n as int - 10)]
    }
}

/// The operand text that follows the mnemonic, leading separator included;
/// empty for the operand-free instructions.
pub open spec fn spec_operands(i: Instruction) -> Seq<char> {
    match i {
        Instruction::Cls => Seq::<char>::empty(),
        Instruction::Ret => Seq::<char>::empty(),
        Instruction::Sys { addr } => " "@ + hex4(addr as int),
        Instruction::Jp { addr } => " "@ + hex4(addr as int),
        Instruction::Call { addr } => " "@ + hex4(addr as int),
        Instruction::SeByte { x, kk } => " "@ + reg_text(x) + ", "@ + hex2(kk as int),
        Instruction::SneByte { x, kk } => " "@ + reg_text(x) + ", "@ + hex2(kk as int),
        Instruction::SeReg { x, y } => " "@ + reg_text(x) + ", "@ + reg_text(y),
        Instruction::LdByte { x, kk } => " "@ + reg_text(x) + ", "@ + hex2(kk as int),
        Instruction::AddByte { x, kk } => " "@ + reg_text(x) + ", "@ + hex2(kk as int),
        Instruction::LdReg { x, y } => " "@ + reg_text(x) + ", "@ + reg_text(y),
        Instruction::Or { x, y } => " "@ + reg_text(x) + ", "@ + reg_text(y),
        Instruction::And { x, y } => " "@ + reg_text(x) + ", "@ + reg_text(y),
        Instruction::Xor { x, y } => " "@ + reg_text(x) + ", "@ + reg_text(y),
        Instruction::AddReg { x, y } => " "@ + reg_text(x) + ", "@ + reg_text(y),
        Instruction::Sub { x, y } => " "@ + reg_text(x) + ", "@ + reg_text(y),
        Instruction::Shr { x, y } => " "@ + reg_text(x) + ", "@ + reg_text(y),
        Instruction::Subn { x, y } => " "@ + reg_text(x) + ", "@ + reg_text(y),
        Instruction::Shl { x, y } => " "@ + reg_text(x) + ", "@ + reg_text(y),
        Instruction::SneReg { x, y } => " "@ + reg_text(x) + ", "@ + reg_text(y),
        Instruction::LdI { addr } => " I, "@ + hex4(addr as int),
        Instruction::JpV0 { addr } => " V0, "@ + hex4(addr as int),
        Instruction::Rnd { x, kk } => " "@ + reg_text(x) + ", "@ + hex2(kk as int),
        Instruction::Drw { x, y, n } => " "@ + reg_text(x) + ", "@ + reg_text(y) + ", "@
            + nibble_dec(n),
        Instruction::Skp { x } => " "@ + reg_text(x),
        Instruction::Sknp { x } => " "@ + reg_text(x),
        Instruction::LdDt { x } => " "@ + reg_text(x) + ", DT"@,
        Instruction::LdKey { x } => " "@ + reg_text(x) + ", K"@,
        Instruction::StDt { x } => " DT, "@ + reg_text(x),
        Instruction::StSt { x } => " ST, "@ + reg_text(x),
        Instruction::AddI { x } => " I, "@ + reg_text(x),
        Instruction::LdFont { x } => " F, "@ + reg_text(x),
        Instruction::LdBcd { x } => " B, "@ + reg_text(x),
        Instruction::StRegs { x } => " [I], "@ + reg_text(x),
        Instruction::LdRegs { x } => " "@ + reg_text(x) + ", [I]"@,
        Instruction::Invalid => Seq::<char>::empty(),
    }
}

/// Appends a register operand.
fn push_reg(s: &mut String, x: u8)
    requires
        x < 16,
    ensures
        final(s)@ == old(s)@ + reg_text(x),
{
    s.append("V");
    s.append(hex_digit_str(x));
    proof {
        reveal_strlit("V");
        assert(s@ =~= old(s)@ + reg_text(x));
    }
}

/// Appends a nibble immediate in decimal.
fn push_nibble_dec(s: &mut String, n: u8)
    requires
        n < 16,
    ensures
        final(s)@ == old(s)@ + nibble_dec(n),
{
    if n >= 10 {
        s.append("1");
        s.append(hex_digit_str(n - 10));
    } else {
        s.append(hex_digit_str(n));
    }
    proof {
        reveal_strlit("1");
        assert(s@ =~= old(s)@ + nibble_dec(n));
    }
}

/// Renders the operand list of an instruction, leading separator included.
pub fn operands_text(i: &Instruction) -> (r: String)
    requires
        wf(*i),
    ensures
        r@ == spec_operands(*i),
{
    let mut s = String::new();
    match *i {
        Instruction::Cls => {},
        Instruction::Ret => {},
        Instruction::Invalid => {},
        Instruction::Sys { addr } => {
            s.append(" ");
            push_hex4(&mut s, addr);
        },
        Instruction::Jp { addr } => {
            s.append(" ");
            push_hex4(&mut s, addr);
        },
        Instruction::Call { addr } => {
            s.append(" ");
            push_hex4(&mut s, addr);
        },
        Instruction::SeByte { x, kk } => {
            s.append(" ");
            push_reg(&mut s, x);
            s.append(", ");
            push_hex2(&mut s, kk);
        },
        Instruction::SneByte { x, kk } => {
            s.append(" ");
            push_reg(&mut s, x);
            s.append(", ");
            push_hex2(&mut s, kk);
        },
        Instruction::LdByte { x, kk } => {
            s.append(" ");
            push_reg(&mut s, x);
            s.append(", ");
            push_hex2(&mut s, kk);
        },
        Instruction::AddByte { x, kk } => {
            s.append(" ");
            push_reg(&mut s, x);
            s.append(", ");
            push_hex2(&mut s, kk);
        },
        Instruction::Rnd { x, kk } => {
            s.append(" ");
            push_reg(&mut s, x);
            s.append(", ");
            push_hex2(&mut s, kk);
        },
        Instruction::SeReg { x, y } => {
            s.append(" ");
            push_reg(&mut s, x);
            s.append(", ");
            push_reg(&mut s, y);
        },
        Instruction::LdReg { x, y } => {
            s.append(" ");
            push_reg(&mut s, x);
            s.append(", ");
            push_reg(&mut s, y);
        },
        Instruction::Or { x, y } => {
            s.append(" ");
            push_reg(&mut s, x);
            s.append(", ");
            push_reg(&mut s, y);
        },
        Instruction::And { x, y } => {
            s.append(" ");
            push_reg(&mut s, x);
            s.append(", ");
            push_reg(&mut s, y);
        },
        Instruction::Xor { x, y } => {
            s.append(" ");
            push_reg(&mut s, x);
            s.append(", ");
            push_reg(&mut s, y);
        },
        Instruction::AddReg { x, y } => {
            s.append(" ");
            push_reg(&mut s, x);
            s.append(", ");
            push_reg(&mut s, y);
        },
        Instruction::Sub { x, y } => {
            s.append(" ");
            push_reg(&mut s, x);
            s.append(", ");
            push_reg(&mut s, y);
        },
        Instruction::Shr { x, y } => {
            s.append(" ");
            push_reg(&mut s, x);
            s.append(", ");
            push_reg(&mut s, y);
        },
        Instruction::Subn { x, y } => {
            s.append(" ");
            push_reg(&mut s, x);
            s.append(", ");
            push_reg(&mut s, y);
        },
        Instruction::Shl { x, y } => {
            s.append(" ");
            push_reg(&mut s, x);
            s.append(", ");
            push_reg(&mut s, y);
        },
        Instruction::SneReg { x, y } => {
            s.append(" ");
            push_reg(&mut s, x);
            s.append(", ");
            push_reg(&mut s, y);
        },
        Instruction::LdI { addr } => {
            s.append(" I, ");
            push_hex4(&mut s, addr);
        },
        Instruction::JpV0 { addr } => {
            s.append(" V0, ");
            push_hex4(&mut s, addr);
        },
        Instruction::Drw { x, y, n } => {
            s.append(" ");
            push_reg(&mut s, x);
            s.append(", ");
            push_reg(&mut s, y);
            s.append(", ");
            push_nibble_dec(&mut s, n);
        },
        Instruction::Skp { x } => {
            s.append(" ");
            push_reg(&mut s, x);
        },
        Instruction::Sknp { x } => {
            s.append(" ");
            push_reg(&mut s, x);
        },
        Instruction::LdDt { x } => {
            s.append(" ");
            push_reg(&mut s, x);
            s.append(", DT");
        },
        Instruction::LdKey { x } => {
            s.append(" ");
            push_reg(&mut s, x);
            s.append(", K");
        },
        Instruction::StDt { x } => {
            s.append(" DT, ");
            push_reg(&mut s, x);
        },
        Instruction::StSt { x } => {
            s.append(" ST, ");
            push_reg(&mut s, x);
        },
        Instruction::AddI { x } => {
            s.append(" I, ");
            push_reg(&mut s, x);
        },
        Instruction::LdFont { x } => {
            s.append(" F, ");
            push_reg(&mut s, x);
        },
        Instruction::LdBcd { x } => {
            s.append(" B, ");
            push_reg(&mut s, x);
        },
        Instruction::StRegs { x } => {
            s.append(" [I], ");
            push_reg(&mut s, x);
        },
        Instruction::LdRegs { x } => {
            s.append(" ");
            push_reg(&mut s, x);
            s.append(", [I]");
        },
    }
    proof {
        assert(s@ =~= spec_operands(*i));
    }
    s
}

/// The full text of an instruction: the mnemonic, then the operand list.
pub open spec fn spec_instr_text(i: Instruction) -> Seq<char> {
    spec_mnemonic(i) + spec_operands(i)
}

/// Renders an instruction as its mnemonic followed by its operands.
pub fn instr_text(i: &Instruction) -> (r: String)
    requires
        wf(*i),
    ensures
        r@ == spec_instr_text(*i),
{
    let mut s = String::from_str(mnemonic_text(i));
    let ops = operands_text(i);
    s.append(ops.as_str());
    proof {
        assert(s@ =~= spec_instr_text(*i));
    }
    s
}

/// The opcode held by a big-endian byte pair: the first byte is the high byte.
pub open spec fn spec_opcode(b1: u8, b2: u8) -> u16 {
    (b1 * 0x100 + b2) as u16
}

/// Assembles the opcode of a big-endian byte pair.
pub fn opcode_of(b1: u8, b2: u8) -> (op: u16)
    ensures
        op == spec_opcode(b1, b2),
{
    (b1 as u16) * 0x100 + (b2 as u16)
}

/// The line prefix: four hex digits of address, a colon and tab, the two raw
/// bytes as hex pairs separated by a space, then a tab.
pub open spec fn spec_prefix(addr: u16, b1: u8, b2: u8) -> Seq<char> {
    hex4(addr as int) + ":\t"@ + hex2(b1 as int) + " "@ + hex2(b2 as int) + "\t"@
}

/// Renders the address and raw-byte prefix of a listing line.
pub fn line_prefix(addr: u16, b1: u8, b2: u8) -> (r: String)
    ensures
        r@ == spec_prefix(addr, b1, b2),
{
    let mut s = String::new();
    push_hex4(&mut s, addr);
    s.append(":\t");
    push_hex2(&mut s, b1);
    s.append(" ");
    push_hex2(&mut s, b2);
    s.append("\t");
    proof {
        assert(s@ =~= spec_prefix(addr, b1, b2));
    }
    s
}

/// A whole listing line: the prefix for an address and byte pair, then the
/// text of the instruction that the pair decodes to.
pub open spec fn spec_line(addr: u16, b1: u8, b2: u8) -> Seq<char> {
    spec_prefix(addr, b1, b2) + spec_instr_text(spec_decode(spec_opcode(b1, b2)))
}

/// Renders one listing line for the word `b1 b2` at address `addr`.
pub fn format_line(addr: u16, b1: u8, b2: u8) -> (r: String)
    ensures
        r@ == spec_line(addr, b1, b2),
{
    let mut s = line_prefix(addr, b1, b2);
    let i = decode(opcode_of(b1, b2));
    proof {
        lemma_decode_wf(spec_opcode(b1, b2));
    }
    let t = instr_text(&i);
    s.append(t.as_str());
    proof {
        assert(s@ =~= spec_line(addr, b1, b2));
    }
    s
}

} // verus!
