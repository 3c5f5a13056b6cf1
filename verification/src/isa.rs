//! The instruction catalog: decoding a 16-bit opcode into a tagged
//! instruction, and the mathematical relation each instruction induces
//! between the machine state before and after executing it.

use vstd::prelude::*;
use crate::machine::{Chip8Error, State};

verus! {

/// One decoded instruction. Nibble patterns outside the catalog decode to
/// `Unknown`, which executes as a no-op.
#[derive(Clone, Copy, Debug)]
pub enum Instr {
    /// `00E0`: turn every framebuffer pixel off.
    ClearScreen,
    /// `00EE`: pop the call stack into the program counter.
    ReturnSub,
    /// `0nnn` (other): legacy machine-code call, ignored.
    MachineCall,
    /// `1nnn`: set the program counter to `nnn`.
    Jump { nnn: u16 },
    /// `2nnn`: push the program counter, then jump to `nnn`.
    CallSub { nnn: u16 },
    /// `3xnn`: skip the next instruction if register x equals `nn`.
    SkipEqImm { x: u8, nn: u8 },
    /// `4xnn`: skip the next instruction if register x differs from `nn`.
    SkipNeImm { x: u8, nn: u8 },
    /// `5xy0`: skip the next instruction if registers x and y are equal.
    SkipEqReg { x: u8, y: u8 },
    /// `9xy0`: skip the next instruction if registers x and y differ.
    SkipNeReg { x: u8, y: u8 },
    /// `6xnn`: set register x to `nn`.
    SetImm { x: u8, nn: u8 },
    /// `7xnn`: add `nn` to register x with 8-bit wraparound; no flag.
    AddImm { x: u8, nn: u8 },
    /// `8xy0`: copy register y into register x.
    CopyReg { x: u8, y: u8 },
    /// `8xy1`: register x becomes x OR y.
    OrReg { x: u8, y: u8 },
    /// `8xy2`: register x becomes x AND y.
    AndReg { x: u8, y: u8 },
    /// `8xy3`: register x becomes x XOR y.
    XorReg { x: u8, y: u8 },
    /// `8xy4`: register x becomes x + y, flag register set to the carry.
    AddReg { x: u8, y: u8 },
    /// `8xy5`: register x becomes x - y, flag register 1 when x >= y.
    SubReg { x: u8, y: u8 },
    /// `8xy6`: register x becomes y shifted right once, flag register
    /// set to the shifted-out bit. The source is register y, a quirk
    /// preserved deliberately.
    ShrReg { x: u8, y: u8 },
    /// `8xy7`: register x becomes y - x, flag register 1 when y >= x.
    SubFromReg { x: u8, y: u8 },
    /// `8xyE`: register x becomes y shifted left once with 8-bit
    /// wraparound, flag register set to the least-significant bit of y
    /// (a quirk preserved deliberately).
    ShlReg { x: u8, y: u8 },
    /// `Annn`: set the index register to `nnn`.
    SetIndex { nnn: u16 },
    /// `Bnnn`: set the program counter to `nnn` plus register 0.
    JumpPlusV0 { nnn: u16 },
    /// `Cxnn`: register x becomes a uniformly random byte AND `nn`.
    Random { x: u8, nn: u8 },
    /// `Dxyn`: draw an 8-wide, n-tall sprite; see `draw_rel`.
    Draw { x: u8, y: u8, n: u8 },
    /// `Ex9E`: skip the next instruction if the key in register x is down.
    SkipKeyPressed { x: u8 },
    /// `ExA1`: skip the next instruction if the key in register x is up.
    SkipKeyNotPressed { x: u8 },
    /// `Fx07`: register x becomes the delay timer.
    ReadDelay { x: u8 },
    /// `Fx0A`: roll the program counter back until the key in register x
    /// is pressed.
    WaitKey { x: u8 },
    /// `Fx15`: the delay timer becomes register x.
    SetDelay { x: u8 },
    /// `Fx18`: the sound timer becomes register x.
    SetSound { x: u8 },
    /// `Fx1E`: add register x to the index register, 16-bit wraparound.
    AddIndex { x: u8 },
    /// `Fx29`: point the index register at the font glyph for the digit
    /// in register x.
    FontGlyph { x: u8 },
    /// `Fx33`: store the decimal digits of register x at the index register.
    StoreBcd { x: u8 },
    /// `Fx55`: copy registers 0..=x to memory starting at the index register.
    StoreRegs { x: u8 },
    /// `Fx65`: fill registers 0..=x from memory starting at the index register.
    LoadRegs { x: u8 },
    /// Any nibble pattern outside the catalog: a no-op, not an error.
    Unknown,
}

/// Highest nibble of an opcode.
pub open spec fn nib_a(op: u16) -> u8 {
    ((op >> 12) & 0xF) as u8
}

/// Second nibble, the first register field.
pub open spec fn nib_x(op: u16) -> u8 {
    ((op >> 8) & 0xF) as u8
}

/// Third nibble, the second register field.
pub open spec fn nib_y(op: u16) -> u8 {
    ((op >> 4) & 0xF) as u8
}

/// Lowest nibble.
pub open spec fn nib_n(op: u16) -> u8 {
    (op & 0xF) as u8
}

/// The 12-bit address field: the low three nibbles.
pub open spec fn addr_nnn(op: u16) -> u16 {
    op & 0xFFF
}

/// The 8-bit immediate field: the low byte.
pub open spec fn imm_nn(op: u16) -> u8 {
    (op & 0xFF) as u8
}

/// The nibble-pattern dispatch of the catalog.
pub open spec fn spec_parse(op: u16) -> Instr {
    match (nib_a(op), nib_x(op), nib_y(op), nib_n(op)) {
        (0x0, 0x0, 0xE, 0x0) => Instr::ClearScreen,
        (0x0, 0x0, 0xE, 0xE) => Instr::ReturnSub,
        (0x0, _, _, _) => Instr::MachineCall,
        (0x1, _, _, _) => Instr::Jump { nnn: addr_nnn(op) },
        (0x2, _, _, _) => Instr::CallSub { nnn: addr_nnn(op) },
        (0x3, x, _, _) => Instr::SkipEqImm { x, nn: imm_nn(op) },
        (0x4, x, _, _) => Instr::SkipNeImm { x, nn: imm_nn(op) },
        (0x5, x, y, 0x0) => Instr::SkipEqReg { x, y },
        (0x6, x, _, _) => Instr::SetImm { x, nn: imm_nn(op) },
        (0x7, x, _, _) => Instr::AddImm { x, nn: imm_nn(op) },
        (0x8, x, y, 0x0) => Instr::CopyReg { x, y },
        (0x8, x, y, 0x1) => Instr::OrReg { x, y },
        (0x8, x, y, 0x2) => Instr::AndReg { x, y },
        (0x8, x, y, 0x3) => Instr::XorReg { x, y },
        (0x8, x, y, 0x4) => Instr::AddReg { x, y },
        (0x8, x, y, 0x5) => Instr::SubReg { x, y },
        (0x8, x, y, 0x6) => Instr::ShrReg { x, y },
        (0x8, x, y, 0x7) => Instr::SubFromReg { x, y },
        (0x8, x, y, 0xE) => Instr::ShlReg { x, y },
        (0x9, x, y, 0x0) => Instr::SkipNeReg { x, y },
        (0xA, _, _, _) => Instr::SetIndex { nnn: addr_nnn(op) },
        (0xB, _, _, _) => Instr::JumpPlusV0 { nnn: addr_nnn(op) },
        (0xC, x, _, _) => Instr::Random { x, nn: imm_nn(op) },
        (0xD, x, y, n) => Instr::Draw { x, y, n },
        (0xE, x, 0x9, 0xE) => Instr::SkipKeyPressed { x },
        (0xE, x, 0xA, 0x1) => Instr::SkipKeyNotPressed { x },
        (0xF, x, 0x0, 0x7) => Instr::ReadDelay { x },
        (0xF, x, 0x0, 0xA) => Instr::WaitKey { x },
        (0xF, x, 0x1, 0x5) => Instr::SetDelay { x },
        (0xF, x, 0x1, 0x8) => Instr::SetSound { x },
        (0xF, x, 0x1, 0xE) => Instr::AddIndex { x },
        (0xF, x, 0x2, 0x9) => Instr::FontGlyph { x },
        (0xF, x, 0x3, 0x3) => Instr::StoreBcd { x },
        (0xF, x, 0x5, 0x5) => Instr::StoreRegs { x },
        (0xF, x, 0x6, 0x5) => Instr::LoadRegs { x },
        _ => Instr::Unknown,
    }
}

/// Every register field of a parsed instruction indexes one of the 16
/// registers, every address field fits in 12 bits, and every sprite
/// height fits in a nibble.
pub open spec fn instr_bounded(i: Instr) -> bool {
    match i {
        Instr::ClearScreen => true,
        Instr::ReturnSub => true,
        Instr::MachineCall => true,
        Instr::Jump { nnn } => nnn < 0x1000,
        Instr::CallSub { nnn } => nnn < 0x1000,
        Instr::SkipEqImm { x, nn } => x < 16,
        Instr::SkipNeImm { x, nn } => x < 16,
        Instr::SkipEqReg { x, y } => x < 16 && y < 16,
        Instr::SkipNeReg { x, y } => x < 16 && y < 16,
        Instr::SetImm { x, nn } => x < 16,
        Instr::AddImm { x, nn } => x < 16,
        Instr::CopyReg { x, y } => x < 16 && y < 16,
        Instr::OrReg { x, y } => x < 16 && y < 16,
        Instr::AndReg { x, y } => x < 16 && y < 16,
        Instr::XorReg { x, y } => x < 16 && y < 16,
        Instr::AddReg { x, y } => x < 16 && y < 16,
        Instr::SubReg { x, y } => x < 16 && y < 16,
        Instr::ShrReg { x, y } => x < 16 && y < 16,
        Instr::SubFromReg { x, y } => x < 16 && y < 16,
        Instr::ShlReg { x, y } => x < 16 && y < 16,
        Instr::SetIndex { nnn } => nnn < 0x1000,
        Instr::JumpPlusV0 { nnn } => nnn < 0x1000,
        Instr::Random { x, nn } => x < 16,
        Instr::Draw { x, y, n } => x < 16 && y < 16 && n < 16,
        Instr::SkipKeyPressed { x } => x < 16,
        Instr::SkipKeyNotPressed { x } => x < 16,
        Instr::ReadDelay { x } => x < 16,
        Instr::WaitKey { x } => x < 16,
        Instr::SetDelay { x } => x < 16,
        Instr::SetSound { x } => x < 16,
        Instr::AddIndex { x } => x < 16,
        Instr::FontGlyph { x } => x < 16,
        Instr::StoreBcd { x } => x < 16,
        Instr::StoreRegs { x } => x < 16,
        Instr::LoadRegs { x } => x < 16,
        Instr::Unknown => true,
    }
}

/// Split an opcode into its four nibbles and dispatch on their pattern.
pub fn parse(op: u16) -> (instr: Instr)
    ensures
        instr == spec_parse(op),
        instr_bounded(instr),
{
    let a = ((op >> 12) & 0xF) as u8;
    let x = ((op >> 8) & 0xF) as u8;
    let y = ((op >> 4) & 0xF) as u8;
    let n = (op & 0xF) as u8;
    let nnn = op & 0xFFF;
    let nn = (op & 0xFF) as u8;
    proof {
        assert(((op >> 12) & 0xF) < 16 && ((op >> 8) & 0xF) < 16 && ((op >> 4) & 0xF) < 16
            && (op & 0xF) < 16 && (op & 0xFFF) < 0x1000 && (op & 0xFF) < 0x100) by (bit_vector);
    }
    match (a, x, y, n) {
        (0x0, 0x0, 0xE, 0x0) => Instr::ClearScreen,
        (0x0, 0x0, 0xE, 0xE) => Instr::ReturnSub,
        (0x0, _, _, _) => Instr::MachineCall,
        (0x1, _, _, _) => Instr::Jump { nnn },
        (0x2, _, _, _) => Instr::CallSub { nnn },
        (0x3, x, _, _) => Instr::SkipEqImm { x, nn },
        (0x4, x, _, _) => Instr::SkipNeImm { x, nn },
        (0x5, x, y, 0x0) => Instr::SkipEqReg { x, y },
        (0x6, x, _, _) => Instr::SetImm { x, nn },
        (0x7, x, _, _) => Instr::AddImm { x, nn },
        (0x8, x, y, 0x0) => Instr::CopyReg { x, y },
        (0x8, x, y, 0x1) => Instr::OrReg { x, y },
        (0x8, x, y, 0x2) => Instr::AndReg { x, y },
        (0x8, x, y, 0x3) => Instr::XorReg { x, y },
        (0x8, x, y, 0x4) => Instr::AddReg { x, y },
        (0x8, x, y, 0x5) => Instr::SubReg { x, y },
        (0x8, x, y, 0x6) => Instr::ShrReg { x, y },
        (0x8, x, y, 0x7) => Instr::SubFromReg { x, y },
        (0x8, x, y, 0xE) => Instr::ShlReg { x, y },
        (0x9, x, y, 0x0) => Instr::SkipNeReg { x, y },
        (0xA, _, _, _) => Instr::SetIndex { nnn },
        (0xB, _, _, _) => Instr::JumpPlusV0 { nnn },
        (0xC, x, _, _) => Instr::Random { x, nn },
        (0xD, x, y, n) => Instr::Draw { x, y, n },
        (0xE, x, 0x9, 0xE) => Instr::SkipKeyPressed { x },
        (0xE, x, 0xA, 0x1) => Instr::SkipKeyNotPressed { x },
        (0xF, x, 0x0, 0x7) => Instr::ReadDelay { x },
        (0xF, x, 0x0, 0xA) => Instr::WaitKey { x },
        (0xF, x, 0x1, 0x5) => Instr::SetDelay { x },
        (0xF, x, 0x1, 0x8) => Instr::SetSound { x },
        (0xF, x, 0x1, 0xE) => Instr::AddIndex { x },
        (0xF, x, 0x2, 0x9) => Instr::FontGlyph { x },
        (0xF, x, 0x3, 0x3) => Instr::StoreBcd { x },
        (0xF, x, 0x5, 0x5) => Instr::StoreRegs { x },
        (0xF, x, 0x6, 0x5) => Instr::LoadRegs { x },
        _ => Instr::Unknown,
    }
}

/// `ram` with `count` bytes of `src` copied in starting at `base`.
pub open spec fn write_span(ram: Seq<u8>, base: int, src: Seq<u8>, count: int) -> Seq<u8> {
    Seq::new(ram.len(), |a: int| if base <= a < base + count { src[a - base] } else { ram[a] })
}

/// `regs` with its first `count` entries replaced by the bytes of `ram`
/// starting at `base`.
pub open spec fn read_span(regs: Seq<u8>, ram: Seq<u8>, base: int, count: int) -> Seq<u8> {
    Seq::new(regs.len(), |r: int| if 0 <= r < count { ram[base + r] } else { regs[r] })
}

/// How many sprite rows survive clipping at the bottom edge for a draw
/// of height `n` whose wrapped origin row comes from register y.
pub open spec fn draw_rows(pre: State, y: u8, n: u8) -> int {
    let oy = (pre.regs[y as int] as int) % (crate::HEIGHT as int);
    if n as int <= crate::HEIGHT - oy { n as int } else { crate::HEIGHT - oy }
}

/// Whether a draw instruction collides: it turns some lit pixel off.
pub open spec fn draw_collides(pre: State, x: u8, y: u8, n: u8) -> bool {
    crate::sprite::hits(
        pre.ram,
        pre.fb,
        pre.index as int,
        (pre.regs[x as int] as int) % (crate::WIDTH as int),
        (pre.regs[y as int] as int) % (crate::HEIGHT as int),
        draw_rows(pre, y, n),
    )
}

/// The effect of `Dxyn`: every pixel covered by a set sprite bit is
/// toggled, every other pixel is untouched, and the flag register reports
/// whether any pixel was toggled off. Nothing else changes.
pub open spec fn draw_rel(pre: State, post: State, x: u8, y: u8, n: u8) -> bool {
    let ox = (pre.regs[x as int] as int) % (crate::WIDTH as int);
    let oy = (pre.regs[y as int] as int) % (crate::HEIGHT as int);
    let rows = draw_rows(pre, y, n);
    &&& post.fb.len() == crate::VRAM_SIZE
    &&& forall|p: int|
        0 <= p < crate::VRAM_SIZE ==> post.fb[p] == (pre.fb[p] != crate::sprite::covers(
            pre.ram,
            pre.index as int,
            ox,
            oy,
            rows,
            p,
        ))
    &&& post.regs == pre.regs.update(15, if draw_collides(pre, x, y, n) { 1u8 } else { 0u8 })
    &&& post.ram == pre.ram
    &&& post.pc == pre.pc
    &&& post.index == pre.index
    &&& post.stack == pre.stack
    &&& post.keys == pre.keys
    &&& post.delay == pre.delay
    &&& post.sound == pre.sound
}

/// Whether executing the instruction in `op` from state `s` is a fatal
/// error: an unmatched return, an out-of-range key in a register, or a
/// memory access through the index register past the end of memory.
pub open spec fn step_fails(s: State, op: u16) -> bool {
    match spec_parse(op) {
        Instr::ReturnSub => s.stack.len() == 0,
        Instr::Draw { x, y, n } => s.index + draw_rows(s, y, n) > crate::RAM_SIZE,
        Instr::SkipKeyPressed { x } => s.regs[x as int] >= crate::NUM_KEYS,
        Instr::SkipKeyNotPressed { x } => s.regs[x as int] >= crate::NUM_KEYS,
        Instr::WaitKey { x } => s.regs[x as int] >= crate::NUM_KEYS,
        Instr::StoreBcd { x } => s.index + 3 > crate::RAM_SIZE,
        Instr::StoreRegs { x } => s.index + x + 1 > crate::RAM_SIZE,
        Instr::LoadRegs { x } => s.index + x + 1 > crate::RAM_SIZE,
        _ => false,
    }
}

/// Which error a failing step reports.
pub open spec fn step_err(s: State, op: u16) -> Chip8Error {
    if spec_parse(op) is ReturnSub {
        Chip8Error::StackUnderflow
    } else {
        Chip8Error::IndexOutOfBounds
    }
}

/// The exact relation between the state before and after executing the
/// instruction encoded in `op`, when the step does not fail. The program
/// counter named here is the one already advanced past `op`; skips add 2
/// more, and the key-wait rolls it back to re-fetch the same instruction.
pub open spec fn step_ok(pre: State, post: State, op: u16) -> bool {
    match spec_parse(op) {
        Instr::ClearScreen => post == State {
            fb: Seq::new(crate::VRAM_SIZE as nat, |p: int| false),
            ..pre
        },
        Instr::ReturnSub => pre.stack.len() > 0 && post == State {
            pc: pre.stack.last(),
            stack: pre.stack.drop_last(),
            ..pre
        },
        Instr::MachineCall => post == pre,
        Instr::Jump { nnn } => post == State { pc: nnn as usize, ..pre },
        Instr::CallSub { nnn } => post == State {
            pc: nnn as usize,
            stack: pre.stack.push(pre.pc),
            ..pre
        },
        Instr::SkipEqImm { x, nn } => post == State {
            pc: if pre.regs[x as int] == nn { (pre.pc + 2) as usize } else { pre.pc },
            ..pre
        },
        Instr::SkipNeImm { x, nn } => post == State {
            pc: if pre.regs[x as int] != nn { (pre.pc + 2) as usize } else { pre.pc },
            ..pre
        },
        Instr::SkipEqReg { x, y } => post == State {
            pc: if pre.regs[x as int] == pre.regs[y as int] { (pre.pc + 2) as usize } else { pre.pc },
            ..pre
        },
        Instr::SkipNeReg { x, y } => post == State {
            pc: if pre.regs[x as int] != pre.regs[y as int] { (pre.pc + 2) as usize } else { pre.pc },
            ..pre
        },
        Instr::SetImm { x, nn } => post == State { regs: pre.regs.update(x as int, nn), ..pre },
        Instr::AddImm { x, nn } => post == State {
            regs: pre.regs.update(x as int, ((pre.regs[x as int] + nn) % 256) as u8),
            ..pre
        },
        Instr::CopyReg { x, y } => post == State {
            regs: pre.regs.update(x as int, pre.regs[y as int]),
            ..pre
        },
        Instr::OrReg { x, y } => post == State {
            regs: pre.regs.update(x as int, pre.regs[x as int] | pre.regs[y as int]),
            ..pre
        },
        Instr::AndReg { x, y } => post == State {
            regs: pre.regs.update(x as int, pre.regs[x as int] & pre.regs[y as int]),
            ..pre
        },
        Instr::XorReg { x, y } => post == State {
            regs: pre.regs.update(x as int, pre.regs[x as int] ^ pre.regs[y as int]),
            ..pre
        },
        Instr::AddReg { x, y } => {
            let sum = pre.regs[x as int] + pre.regs[y as int];
            post == State {
                regs: pre.regs.update(x as int, (sum % 256) as u8).update(
                    15,
                    if sum > 255 { 1u8 } else { 0u8 },
                ),
                ..pre
            }
        },
        Instr::SubReg { x, y } => {
            let vx = pre.regs[x as int];
            let vy = pre.regs[y as int];
            post == State {
                regs: pre.regs.update(x as int, ((vx - vy) % 256) as u8).update(
                    15,
                    if vx >= vy { 1u8 } else { 0u8 },
                ),
                ..pre
            }
        },
        Instr::ShrReg { x, y } => {
            let vy = pre.regs[y as int];
            post == State {
                regs: pre.regs.update(15, (vy % 2) as u8).update(x as int, (vy / 2) as u8),
                ..pre
            }
        },
        Instr::SubFromReg { x, y } => {
            let vx = pre.regs[x as int];
            let vy = pre.regs[y as int];
            post == State {
                regs: pre.regs.update(x as int, ((vy - vx) % 256) as u8).update(
                    15,
                    if vy >= vx { 1u8 } else { 0u8 },
                ),
                ..pre
            }
        },
        Instr::ShlReg { x, y } => {
            let vy = pre.regs[y as int];
            post == State {
                regs: pre.regs.update(15, (vy % 2) as u8).update(
                    x as int,
                    ((vy * 2) % 256) as u8,
                ),
                ..pre
            }
        },
        Instr::SetIndex { nnn } => post == State { index: nnn, ..pre },
        Instr::JumpPlusV0 { nnn } => post == State {
            pc: (nnn + pre.regs[0]) as usize,
            ..pre
        },
        Instr::Random { x, nn } => exists|b: u8|
            post == State { regs: pre.regs.update(x as int, #[trigger] (b & nn)), ..pre },
        Instr::Draw { x, y, n } => draw_rel(pre, post, x, y, n),
        Instr::SkipKeyPressed { x } => {
            let key = pre.regs[x as int];
            key < crate::NUM_KEYS && post == State {
                pc: if pre.keys[key as int] { (pre.pc + 2) as usize } else { pre.pc },
                ..pre
            }
        },
        Instr::SkipKeyNotPressed { x } => {
            let key = pre.regs[x as int];
            key < crate::NUM_KEYS && post == State {
                pc: if !pre.keys[key as int] { (pre.pc + 2) as usize } else { pre.pc },
                ..pre
            }
        },
        Instr::ReadDelay { x } => post == State {
            regs: pre.regs.update(x as int, pre.delay),
            ..pre
        },
        Instr::WaitKey { x } => {
            let key = pre.regs[x as int];
            key < crate::NUM_KEYS && post == State {
                pc: if pre.keys[key as int] {
                    pre.pc
                } else if pre.pc >= 2 {
                    (pre.pc - 2) as usize
                } else {
                    pre.pc
                },
                ..pre
            }
        },
        Instr::SetDelay { x } => post == State { delay: pre.regs[x as int], ..pre },
        Instr::SetSound { x } => post == State { sound: pre.regs[x as int], ..pre },
        Instr::AddIndex { x } => post == State {
            index: ((pre.index + pre.regs[x as int]) % 0x10000) as u16,
            ..pre
        },
        Instr::FontGlyph { x } => post == State {
            index: (crate::FONT_BASE + crate::FONT_GLYPH_SIZE * pre.regs[x as int]) as u16,
            ..pre
        },
        Instr::StoreBcd { x } => {
            let v = pre.regs[x as int];
            let b = pre.index as int;
            post == State {
                ram: pre.ram.update(b, (v / 100) as u8).update(b + 1, ((v % 100) / 10) as u8)
                    .update(b + 2, (v % 10) as u8),
                ..pre
            }
        },
        Instr::StoreRegs { x } => post == State {
            ram: write_span(pre.ram, pre.index as int, pre.regs, x + 1),
            ..pre
        },
        Instr::LoadRegs { x } => post == State {
            regs: read_span(pre.regs, pre.ram, pre.index as int, x + 1),
            ..pre
        },
        Instr::Unknown => post == pre,
    }
}

} // verus!
