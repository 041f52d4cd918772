//! The instruction decoder: a total map from every 16-bit opcode to a typed
//! CHIP-8 instruction, plus the mnemonic category grouping used for display.

use vstd::prelude::*;

verus! {

/// A decoded CHIP-8 instruction: one variant per mnemonic and operand shape,
/// plus `Invalid` for every bit pattern with no assigned mnemonic.
///
/// Operand fields: `x` and `y` are register indices (0-15), `kk` an immediate
/// byte, `n` a nibble immediate, `addr` a 12-bit address.
#[derive(Clone, Copy, Debug, PartialEq, Eq, Structural)]
pub enum Instruction {
    /// 00E0: clear the screen.
    Cls,
    /// 00EE: return from subroutine.
    Ret,
    /// 0nnn (low nibble of the high byte nonzero): legacy system call.
    Sys { addr: u16 },
    /// 1nnn: jump.
    Jp { addr: u16 },
    /// 2nnn: call subroutine.
    Call { addr: u16 },
    /// 3xkk: skip if Vx == kk.
    SeByte { x: u8, kk: u8 },
    /// 4xkk: skip if Vx != kk.
    SneByte { x: u8, kk: u8 },
    /// 5xy0 family: skip if Vx == Vy.
    SeReg { x: u8, y: u8 },
    /// 6xkk: load immediate.
    LdByte { x: u8, kk: u8 },
    /// 7xkk: add immediate.
    AddByte { x: u8, kk: u8 },
    /// 8xy0: Vx = Vy.
    LdReg { x: u8, y: u8 },
    /// 8xy1: Vx |= Vy.
    Or { x: u8, y: u8 },
    /// 8xy2: Vx &= Vy.
    And { x: u8, y: u8 },
    /// 8xy3: Vx ^= Vy.
    Xor { x: u8, y: u8 },
    /// 8xy4: Vx += Vy.
    AddReg { x: u8, y: u8 },
    /// 8xy5: Vx -= Vy.
    Sub { x: u8, y: u8 },
    /// 8xy6: shift right.
    Shr { x: u8, y: u8 },
    /// 8xy7: Vx = Vy - Vx.
    Subn { x: u8, y: u8 },
    /// 8xyE: shift left.
    Shl { x: u8, y: u8 },
    /// 9xy0 family: skip if Vx != Vy.
    SneReg { x: u8, y: u8 },
    /// Annn: load address register I.
    LdI { addr: u16 },
    /// Bnnn: jump to V0 + addr.
    JpV0 { addr: u16 },
    /// Cxkk: random byte masked by kk.
    Rnd { x: u8, kk: u8 },
    /// Dxyn: draw an n-byte sprite at (Vx, Vy).
    Drw { x: u8, y: u8, n: u8 },
    /// Ex9E: skip if key Vx pressed.
    Skp { x: u8 },
    /// ExA1: skip if key Vx not pressed.
    Sknp { x: u8 },
    /// Fx07: LD DT, Vx.
    StDt { x: u8 },
    /// Fx0A: LD Vx, K.
    LdKey { x: u8 },
    /// Fx15: LD Vx, DT.
    LdDt { x: u8 },
    /// Fx18: LD ST, Vx.
    StSt { x: u8 },
    /// Fx1E: ADD I, Vx.
    AddI { x: u8 },
    /// Fx29: LD F, Vx.
    LdFont { x: u8 },
    /// Fx33: LD B, Vx.
    LdBcd { x: u8 },
    /// Fx55: LD [I], Vx.
    StRegs { x: u8 },
    /// Fx65: LD Vx, [I].
    LdRegs { x: u8 },
    /// Any bit pattern with no assigned mnemonic.
    Invalid,
}

/// The high nibble of an opcode (bits 12-15): the primary dispatch key.
pub open spec fn high_nib(op: u16) -> u8 {
    (op / 0x1000) as u8
}

/// Bits 8-11 of an opcode: the `x` register index.
pub open spec fn nib_x(op: u16) -> u8 {
    ((op / 0x100) % 16) as u8
}

/// Bits 4-7 of an opcode: the `y` register index.
pub open spec fn nib_y(op: u16) -> u8 {
    ((op / 16) % 16) as u8
}

/// Bits 0-3 of an opcode: the `n` nibble immediate.
pub open spec fn nib_n(op: u16) -> u8 {
    (op % 16) as u8
}

/// The low byte of an opcode: the `kk` immediate.
pub open spec fn low_byte(op: u16) -> u8 {
    (op % 0x100) as u8
}

/// The low 12 bits of an opcode: the `nnn` address.
pub open spec fn addr_nnn(op: u16) -> u16 {
    (op % 0x1000) as u16
}

/// The decode table: the instruction denoted by each of the 65536 opcodes.
///
/// Dispatch is first on the high nibble; the 0x0, 0x8, 0xE and 0xF families
/// sub-dispatch on the low nibble or the full low byte. Every pattern with no
/// assigned mnemonic maps to `Invalid`.
pub open spec fn spec_decode(op: u16) -> Instruction {
    let x = nib_x(op);
    let y = nib_y(op);
    let n = nib_n(op);
    let kk = low_byte(op);
    let nnn = addr_nnn(op);
    match high_nib(op) {
        0x0 => if x != 0 {
            Instruction::Sys { addr: nnn }
        } else if kk == 0xE0 {
            Instruction::Cls
        } else if kk == 0xEE {
            Instruction::Ret
        } else {
            Instruction::Invalid
        },
        0x1 => Instruction::Jp { addr: nnn },
        0x2 => Instruction::Call { addr: nnn },
        0x3 => Instruction::SeByte { x, kk },
        0x4 => Instruction::SneByte { x, kk },
        0x5 => Instruction::SeReg { x, y },
        0x6 => Instruction::LdByte { x, kk },
        0x7 => Instruction::AddByte { x, kk },
        0x8 => match n {
            0x0 => Instruction::LdReg { x, y },
            0x1 => Instruction::Or { x, y },
            0x2 => Instruction::And { x, y },
            0x3 => Instruction::Xor { x, y },
            0x4 => Instruction::AddReg { x, y },
            0x5 => Instruction::Sub { x, y },
            0x6 => Instruction::Shr { x, y },
            0x7 => Instruction::Subn { x, y },
            0xE => Instruction::Shl { x, y },
            _ => Instruction::Invalid,
        },
        0x9 => Instruction::SneReg { x, y },
        0xA => Instruction::LdI { addr: nnn },
        0xB => Instruction::JpV0 { addr: nnn },
        0xC => Instruction::Rnd { x, kk },
        0xD => Instruction::Drw { x, y, n },
        0xE => match kk {
            0x9E => Instruction::Skp { x },
            0xA1 => Instruction::Sknp { x },
            _ => Instruction::Invalid,
        },
        _ => match kk {
            0x07 => Instruction::StDt { x },
            0x0A => Instruction::LdKey { x },
            0x15 => Instruction::LdDt { x },
            0x18 => Instruction::StSt { x },
            0x1E => Instruction::AddI { x },
            0x29 => Instruction::LdFont { x },
            0x33 => Instruction::LdBcd { x },
            0x55 => Instruction::StRegs { x },
            0x65 => Instruction::LdRegs { x },
            _ => Instruction::Invalid,
        },
    }
}

/// Decodes one 16-bit opcode. Total: defined for every opcode, with no
/// precondition; an unassigned bit pattern decodes to `Invalid`.
pub fn decode(op: u16) -> (i: Instruction)
    ensures
        i == spec_decode(op),
{
    let x: u8 = ((op / 0x100) % 16) as u8;
    let y: u8 = ((op / 16) % 16) as u8;
    let n: u8 = (op % 16) as u8;
    let kk: u8 = (op % 0x100) as u8;
    let nnn: u16 = op % 0x1000;
    match (op / 0x1000) as u8 {
        0x0 => if x != 0 {
            Instruction::Sys { addr: nnn }
        } else if kk == 0xE0 {
            Instruction::Cls
        } else if kk == 0xEE {
            Instruction::Ret
        } else {
            Instruction::Invalid
        },
        0x1 => Instruction::Jp { addr: nnn },
        0x2 => Instruction::Call { addr: nnn },
        0x3 => Instruction::SeByte { x, kk },
        0x4 => Instruction::SneByte { x, kk },
        0x5 => Instruction::SeReg { x, y },
        0x6 => Instruction::LdByte { x, kk },
        0x7 => Instruction::AddByte { x, kk },
        0x8 => match n {
            0x0 => Instruction::LdReg { x, y },
            0x1 => Instruction::Or { x, y },
            0x2 => Instruction::And { x, y },
            0x3 => Instruction::Xor { x, y },
            0x4 => Instruction::AddReg { x, y },
            0x5 => Instruction::Sub { x, y },
            0x6 => Instruction::Shr { x, y },
            0x7 => Instruction::Subn { x, y },
            0xE => Instruction::Shl { x, y },
            _ => Instruction::Invalid,
        },
        0x9 => Instruction::SneReg { x, y },
        0xA => Instruction::LdI { addr: nnn },
        0xB => Instruction::JpV0 { addr: nnn },
        0xC => Instruction::Rnd { x, kk },
        0xD => Instruction::Drw { x, y, n },
        0xE => match kk {
            0x9E => Instruction::Skp { x },
            0xA1 => Instruction::Sknp { x },
            _ => Instruction::Invalid,
        },
        _ => match kk {
            0x07 => Instruction::StDt { x },
            0x0A => Instruction::LdKey { x },
            0x15 => Instruction::LdDt { x },
            0x18 => Instruction::StSt { x },
            0x1E => Instruction::AddI { x },
            0x29 => Instruction::LdFont { x },
            0x33 => Instruction::LdBcd { x },
            0x55 => Instruction::StRegs { x },
            0x65 => Instruction::LdRegs { x },
            _ => Instruction::Invalid,
        },
    }
}

/// The data-model invariant: register indices and nibble immediates fit in
/// four bits, addresses in twelve.
pub open spec fn wf(i: Instruction) -> bool {
    match i {
        Instruction::Cls => true,
        Instruction::Ret => true,
        Instruction::Sys { addr } => addr < 0x1000,
        Instruction::Jp { addr } => addr < 0x1000,
        Instruction::Call { addr } => addr < 0x1000,
        Instruction::SeByte { x, .. } => x < 16,
        Instruction::SneByte { x, .. } => x < 16,
        Instruction::SeReg { x, y } => x < 16 && y < 16,
        Instruction::LdByte { x, .. } => x < 16,
        Instruction::AddByte { x, .. } => x < 16,
        Instruction::LdReg { x, y } => x < 16 && y < 16,
        Instruction::Or { x, y } => x < 16 && y < 16,
        Instruction::And { x, y } => x < 16 && y < 16,
        Instruction::Xor { x, y } => x < 16 && y < 16,
        Instruction::AddReg { x, y } => x < 16 && y < 16,
        Instruction::Sub { x, y } => x < 16 && y < 16,
        Instruction::Shr { x, y } => x < 16 && y < 16,
        Instruction::Subn { x, y } => x < 16 && y < 16,
        Instruction::Shl { x, y } => x < 16 && y < 16,
        Instruction::SneReg { x, y } => x < 16 && y < 16,
        Instruction::LdI { addr } => addr < 0x1000,
        Instruction::JpV0 { addr } => addr < 0x1000,
        Instruction::Rnd { x, .. } => x < 16,
        Instruction::Drw { x, y, n } => x < 16 && y < 16 && n < 16,
        Instruction::Skp { x } => x < 16,
        Instruction::Sknp { x } => x < 16,
        Instruction::LdDt { x } => x < 16,
        Instruction::LdKey { x } => x < 16,
        Instruction::StDt { x } => x < 16,
        Instruction::StSt { x } => x < 16,
        Instruction::AddI { x } => x < 16,
        Instruction::LdFont { x } => x < 16,
        Instruction::LdBcd { x } => x < 16,
        Instruction::StRegs { x } => x < 16,
        Instruction::LdRegs { x } => x < 16,
        Instruction::Invalid => true,
    }
}

/// Every instruction the decode table yields satisfies the operand-range
/// invariant.
pub proof fn lemma_decode_wf(op: u16)
    ensures
        wf(spec_decode(op)),
{
}

/// Whether a runtime instruction value satisfies the operand-range invariant;
/// always true of a `decode` result.
pub fn is_wf(i: &Instruction) -> (b: bool)
    ensures
        b == wf(*i),
{
    match *i {
        Instruction::Cls => true,
        Instruction::Ret => true,
        Instruction::Sys { addr } => addr < 0x1000,
        Instruction::Jp { addr } => addr < 0x1000,
        Instruction::Call { addr } => addr < 0x1000,
        Instruction::SeByte { x, .. } => x < 16,
        Instruction::SneByte { x, .. } => x < 16,
        Instruction::SeReg { x, y } => x < 16 && y < 16,
        Instruction::LdByte { x, .. } => x < 16,
        Instruction::AddByte { x, .. } => x < 16,
        Instruction::LdReg { x, y } => x < 16 && y < 16,
        Instruction::Or { x, y } => x < 16 && y < 16,
        Instruction::And { x, y } => x < 16 && y < 16,
        Instruction::Xor { x, y } => x < 16 && y < 16,
        Instruction::AddReg { x, y } => x < 16 && y < 16,
        Instruction::Sub { x, y } => x < 16 && y < 16,
        Instruction::Shr { x, y } => x < 16 && y < 16,
        Instruction::Subn { x, y } => x < 16 && y < 16,
        Instruction::Shl { x, y } => x < 16 && y < 16,
        Instruction::SneReg { x, y } => x < 16 && y < 16,
        Instruction::LdI { addr } => addr < 0x1000,
        Instruction::JpV0 { addr } => addr < 0x1000,
        Instruction::Rnd { x, .. } => x < 16,
        Instruction::Drw { x, y, n } => x < 16 && y < 16 && n < 16,
        Instruction::Skp { x } => x < 16,
        Instruction::Sknp { x } => x < 16,
        Instruction::LdDt { x } => x < 16,
        Instruction::LdKey { x } => x < 16,
        Instruction::StDt { x } => x < 16,
        Instruction::StSt { x } => x < 16,
        Instruction::AddI { x } => x < 16,
        Instruction::LdFont { x } => x < 16,
        Instruction::LdBcd { x } => x < 16,
        Instruction::StRegs { x } => x < 16,
        Instruction::LdRegs { x } => x < 16,
        Instruction::Invalid => true,
    }
}

/// The display grouping of mnemonics, as the listing renderer colors them:
/// system ops {CLS, RET, SYS}, control flow {JP, SKP, SKNP}, calls and
/// device effects {CALL, RND, DRW}, comparisons {SE, SNE}, data and
/// arithmetic ops {LD, OR, AND, ADD, XOR, SUB, SHR, SUBN, SHL}, and
/// everything else (including invalid encodings).
#[derive(Clone, Copy, Debug, PartialEq, Eq, Structural)]
pub enum Category {
    System,
    ControlFlow,
    Effect,
    Comparison,
    Arithmetic,
    Other,
}

/// The category of each instruction, keyed by its mnemonic.
pub open spec fn spec_category(i: Instruction) -> Category {
    match i {
        Instruction::Cls => Category::System,
        Instruction::Ret => Category::System,
        Instruction::Sys { .. } => Category::System,
        Instruction::Jp { .. } => Category::ControlFlow,
        Instruction::JpV0 { .. } => Category::ControlFlow,
        Instruction::Skp { .. } => Category::ControlFlow,
        Instruction::Sknp { .. } => Category::ControlFlow,
        Instruction::Call { .. } => Category::Effect,
        Instruction::Rnd { .. } => Category::Effect,
        Instruction::Drw { .. } => Category::Effect,
        Instruction::SeByte { .. } => Category::Comparison,
        Instruction::SneByte { .. } => Category::Comparison,
        Instruction::SeReg { .. } => Category::Comparison,
        Instruction::SneReg { .. } => Category::Comparison,
        Instruction::Invalid => Category::Other,
        _ => Category::Arithmetic,
    }
}

/// Returns the display category of an instruction.
pub fn category(i: &Instruction) -> (c: Category)
    ensures
        c == spec_category(*i),
{
    match *i {
        Instruction::Cls => Category::System,
        Instruction::Ret => Category::System,
        Instruction::Sys { .. } => Category::System,
        Instruction::Jp { .. } => Category::ControlFlow,
        Instruction::JpV0 { .. } => Category::ControlFlow,
        Instruction::Skp { .. } => Category::ControlFlow,
        Instruction::Sknp { .. } => Category::ControlFlow,
        Instruction::Call { .. } => Category::Effect,
        Instruction::Rnd { .. } => Category::Effect,
        Instruction::Drw { .. } => Category::Effect,
        Instruction::SeByte { .. } => Category::Comparison,
        Instruction::SneByte { .. } => Category::Comparison,
        Instruction::SeReg { .. } => Category::Comparison,
        Instruction::SneReg { .. } => Category::Comparison,
        Instruction::Invalid => Category::Other,
        _ => Category::Arithmetic,
    }
}

/// Decoding is deterministic: any two results of decoding the same opcode are
/// equal, since each is pinned to the one value of the decode table.
pub proof fn lemma_decode_deterministic(op: u16, a: Instruction, b: Instruction)
    requires
        a == spec_decode(op),
        b == spec_decode(op),
    ensures
        a == b,
{
}

} // verus!
