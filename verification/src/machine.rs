//! The machine state: memory, registers, framebuffer, call stack, timers
//! and keypad, together with its mathematical model.

use vstd::prelude::*;
use crate::isa::Instr;

verus! {

/// A fatal condition surfaced to the host instead of corrupting state.
#[derive(Clone, Copy, Debug, PartialEq, Eq, Structural)]
pub enum Chip8Error {
    /// An instruction fetch was attempted below the first program address.
    ReservedMemoryAccess,
    /// A program larger than the memory left above the reserved region was loaded.
    RomTooLarge,
    /// A return instruction ran with an empty call stack.
    StackUnderflow,
    /// A memory or keypad access through a register or the index register
    /// fell outside its range; historical interpreters left these unchecked.
    IndexOutOfBounds,
}

/// The mathematical model of the whole machine.
#[verifier::ext_equal]
pub ghost struct State {
    pub ram: Seq<u8>,
    pub fb: Seq<bool>,
    pub pc: usize,
    pub regs: Seq<u8>,
    pub index: u16,
    pub stack: Seq<usize>,
    pub keys: Seq<bool>,
    pub delay: u8,
    pub sound: u8,
}

/// The interpreter: constructed once, mutated only through `load`,
/// the keypad, and `tick`.
pub struct Chip8 {
    pub ram: Vec<u8>,
    pub vram: Vec<bool>,
    pub pc: usize,
    pub registers: Vec<u8>,
    pub i: u16,
    pub stack: Vec<usize>,
    pub keypad: Vec<bool>,
    pub delay_timer: u8,
    pub sound_timer: u8,
}

impl View for Chip8 {
    type V = State;

    open spec fn view(&self) -> State {
        State {
            ram: self.ram@,
            fb: self.vram@,
            pc: self.pc,
            regs: self.registers@,
            index: self.i,
            stack: self.stack@,
            keys: self.keypad@,
            delay: self.delay_timer,
            sound: self.sound_timer,
        }
    }
}

/// The preloaded bitmaps of the sixteen hexadecimal digit glyphs,
/// five bytes each.
pub open spec fn font_table() -> Seq<u8> {
    seq![
        0xF0u8, 0x90, 0x90, 0x90, 0xF0, // 0
        0x20, 0x60, 0x20, 0x20, 0x70, // 1
        0xF0, 0x10, 0xF0, 0x80, 0xF0, // 2
        0xF0, 0x10, 0xF0, 0x10, 0xF0, // 3
        0x90, 0x90, 0xF0, 0x10, 0x10, // 4
        0xF0, 0x80, 0xF0, 0x10, 0xF0, // 5
        0xF0, 0x80, 0xF0, 0x90, 0xF0, // 6
        0xF0, 0x10, 0x20, 0x40, 0x40, // 7
        0xF0, 0x90, 0xF0, 0x90, 0xF0, // 8
        0xF0, 0x90, 0xF0, 0x10, 0xF0, // 9
        0xF0, 0x90, 0xF0, 0x90, 0x90, // A
        0xE0, 0x90, 0xE0, 0x90, 0xE0, // B
        0xF0, 0x80, 0x80, 0x80, 0xF0, // C
        0xE0, 0x90, 0x90, 0x90, 0xE0, // D
        0xF0, 0x80, 0xF0, 0x80, 0xF0, // E
        0xF0, 0x80, 0xF0, 0x80, 0x80, // F
    ]
}

/// The state of a freshly constructed machine: memory zero except for the
/// font table, framebuffer off, program counter at the first program
/// address, registers and timers zero, stack empty, no key pressed.
pub open spec fn initial_state() -> State {
    State {
        ram: Seq::new(
            crate::RAM_SIZE as nat,
            |a: int|
                if crate::FONT_BASE <= a < crate::FONT_BASE + 16 * crate::FONT_GLYPH_SIZE {
                    font_table()[a - crate::FONT_BASE]
                } else {
                    0u8
                },
        ),
        fb: Seq::new(crate::VRAM_SIZE as nat, |p: int| false),
        pc: crate::PROGRAM_START,
        regs: Seq::new(crate::NUM_REGISTERS as nat, |r: int| 0u8),
        index: 0u16,
        stack: Seq::empty(),
        keys: Seq::new(crate::NUM_KEYS as nat, |k: int| false),
        delay: 0u8,
        sound: 0u8,
    }
}

/// The opcode at the program counter: two consecutive bytes composed
/// big-endian.
pub open spec fn spec_fetch(s: State) -> u16 {
    (256 * s.ram[s.pc as int] + s.ram[s.pc as int + 1]) as u16
}

/// Whether a fetch is possible: the program counter is outside the
/// reserved region and both opcode bytes lie in memory.
pub open spec fn fetch_ok(s: State) -> bool {
    crate::PROGRAM_START <= s.pc && s.pc + 1 < crate::RAM_SIZE
}

/// Which error an impossible fetch reports.
pub open spec fn fetch_err(s: State) -> Chip8Error {
    if s.pc < crate::PROGRAM_START {
        Chip8Error::ReservedMemoryAccess
    } else {
        Chip8Error::IndexOutOfBounds
    }
}

/// The state after the default advance: the program counter has moved
/// past the fetched opcode, nothing else has changed.
pub open spec fn advanced(s: State) -> State {
    State { pc: (s.pc + 2) as usize, ..s }
}

/// A vector of `len` copies of `val`.
fn filled<T: Copy>(len: usize, val: T) -> (v: Vec<T>)
    ensures
        v@ == Seq::new(len as nat, |i: int| val),
{
    let mut v: Vec<T> = Vec::new();
    let mut k: usize = 0;
    while k < len
        invariant
            k <= len,
            v@.len() == k,
            forall|i: int| 0 <= i < k ==> v@[i] == val,
        decreases len - k,
    {
        v.push(val);
        k += 1;
    }
    proof {
        assert(v@ =~= Seq::new(len as nat, |i: int| val));
    }
    v
}

impl Chip8 {
    /// The fixed sizes of the machine's stores.
    pub open spec fn wf(&self) -> bool {
        &&& self.ram@.len() == crate::RAM_SIZE
        &&& self.vram@.len() == crate::VRAM_SIZE
        &&& self.registers@.len() == crate::NUM_REGISTERS
        &&& self.keypad@.len() == crate::NUM_KEYS
    }

    /// Construct the machine in its initial state, with the font table
    /// preloaded in the reserved region.
    pub fn new() -> (c: Chip8)
        ensures
            c.wf(),
            c@ == initial_state(),
    {
        let font: [u8; 80] = [
            0xF0, 0x90, 0x90, 0x90, 0xF0, // 0
            0x20, 0x60, 0x20, 0x20, 0x70, // 1
            0xF0, 0x10, 0xF0, 0x80, 0xF0, // 2
            0xF0, 0x10, 0xF0, 0x10, 0xF0, // 3
            0x90, 0x90, 0xF0, 0x10, 0x10, // 4
            0xF0, 0x80, 0xF0, 0x10, 0xF0, // 5
            0xF0, 0x80, 0xF0, 0x90, 0xF0, // 6
            0xF0, 0x10, 0x20, 0x40, 0x40, // 7
            0xF0, 0x90, 0xF0, 0x90, 0xF0, // 8
            0xF0, 0x90, 0xF0, 0x10, 0xF0, // 9
            0xF0, 0x90, 0xF0, 0x90, 0x90, // A
            0xE0, 0x90, 0xE0, 0x90, 0xE0, // B
            0xF0, 0x80, 0x80, 0x80, 0xF0, // C
            0xE0, 0x90, 0x90, 0x90, 0xE0, // D
            0xF0, 0x80, 0xF0, 0x80, 0xF0, // E
            0xF0, 0x80, 0xF0, 0x80, 0x80, // F
        ];
        proof {
            assert(font@ =~= font_table());
        }
        let mut ram = filled::<u8>(crate::RAM_SIZE, 0);
        let mut k: usize = 0;
        while k < 80
            invariant
                k <= 80,
                ram@.len() == crate::RAM_SIZE,
                font@ == font_table(),
                forall|a: int|
                    0 <= a < crate::RAM_SIZE && !(crate::FONT_BASE <= a < crate::FONT_BASE + k)
                        ==> ram@[a] == 0,
                forall|a: int|
                    crate::FONT_BASE <= a < crate::FONT_BASE + k ==> ram@[a] == font_table()[a
                        - crate::FONT_BASE],
            decreases 80 - k,
        {
            ram[crate::FONT_BASE + k] = font[k];
            k += 1;
        }
        let c = Chip8 {
            ram,
            vram: filled::<bool>(crate::VRAM_SIZE, false),
            pc: crate::PROGRAM_START,
            registers: filled::<u8>(crate::NUM_REGISTERS, 0),
            i: 0,
            stack: Vec::new(),
            keypad: filled::<bool>(crate::NUM_KEYS, false),
            delay_timer: 0,
            sound_timer: 0,
        };
        proof {
            assert(c@.ram =~= initial_state().ram);
            assert(c@.fb =~= initial_state().fb);
            assert(c@.regs =~= initial_state().regs);
            assert(c@.keys =~= initial_state().keys);
            assert(c@ =~= initial_state());
        }
        c
    }

    /// Copy a program into memory starting at the first program address.
    /// Fails, writing nothing, when the program does not fit in the
    /// memory above the reserved region.
    pub fn load(&mut self, data: &[u8]) -> (r: Result<(), Chip8Error>)
        requires
            old(self).wf(),
        ensures
            final(self).wf(),
            data@.len() > crate::RAM_SIZE - crate::PROGRAM_START ==> r == Err::<
                (),
                Chip8Error,
            >(Chip8Error::RomTooLarge) && final(self)@ == old(self)@,
            data@.len() <= crate::RAM_SIZE - crate::PROGRAM_START ==> r == Ok::<
                (),
                Chip8Error,
            >(()) && final(self)@ == (State {
                ram: crate::isa::write_span(
                    old(self)@.ram,
                    crate::PROGRAM_START as int,
                    data@,
                    data@.len() as int,
                ),
                ..old(self)@
            }),
    {
        if data.len() > crate::RAM_SIZE - crate::PROGRAM_START {
            return Err(Chip8Error::RomTooLarge);
        }
        let mut k: usize = 0;
        while k < data.len()
            invariant
                self.wf(),
                k <= data@.len(),
                data@.len() <= crate::RAM_SIZE - crate::PROGRAM_START,
                self.pc == old(self).pc,
                self.vram == old(self).vram,
                self.registers == old(self).registers,
                self.i == old(self).i,
                self.stack == old(self).stack,
                self.keypad == old(self).keypad,
                self.delay_timer == old(self).delay_timer,
                self.sound_timer == old(self).sound_timer,
                forall|a: int|
                    crate::PROGRAM_START <= a < crate::PROGRAM_START + k ==> self.ram@[a]
                        == data@[a - crate::PROGRAM_START],
                forall|a: int|
                    0 <= a < crate::RAM_SIZE && !(crate::PROGRAM_START <= a < crate::PROGRAM_START
                        + k) ==> self.ram@[a] == old(self).ram@[a],
            decreases data@.len() - k,
        {
            self.ram[crate::PROGRAM_START + k] = data[k];
            k += 1;
        }
        proof {
            assert(self@.ram =~= crate::isa::write_span(
                old(self)@.ram,
                crate::PROGRAM_START as int,
                data@,
                data@.len() as int,
            ));
            assert(self@ =~= (State {
                ram: crate::isa::write_span(
                    old(self)@.ram,
                    crate::PROGRAM_START as int,
                    data@,
                    data@.len() as int,
                ),
                ..old(self)@
            }));
        }
        Ok(())
    }

    /// The read-only framebuffer, for a rendering collaborator to blit.
    pub fn get_vram(&self) -> (v: &Vec<bool>)
        ensures
            v@ == self@.fb,
    {
        &self.vram
    }

    /// Read the two bytes at the program counter and compose them
    /// big-endian into an opcode. Fails below the first program address
    /// (the reserved-memory guard) or past the end of memory.
    pub fn fetch(&self) -> (r: Result<u16, Chip8Error>)
        requires
            self.wf(),
        ensures
            fetch_ok(self@) ==> r == Ok::<u16, Chip8Error>(spec_fetch(self@)),
            !fetch_ok(self@) ==> r == Err::<u16, Chip8Error>(fetch_err(self@)),
    {
        if self.pc < crate::PROGRAM_START {
            return Err(Chip8Error::ReservedMemoryAccess);
        }
        if self.pc >= crate::RAM_SIZE - 1 {
            return Err(Chip8Error::IndexOutOfBounds);
        }
        let hi = self.ram[self.pc] as u16;
        let lo = self.ram[self.pc + 1] as u16;
        Ok(hi * 256 + lo)
    }

    /// Copy the first `count` registers into memory starting at `base`.
    fn store_regs(&mut self, base: usize, count: usize)
        requires
            old(self).wf(),
            count <= crate::NUM_REGISTERS,
            base + count <= crate::RAM_SIZE,
        ensures
            final(self).wf(),
            final(self)@ == (State {
                ram: crate::isa::write_span(
                    old(self)@.ram,
                    base as int,
                    old(self)@.regs,
                    count as int,
                ),
                ..old(self)@
            }),
    {
        let mut k: usize = 0;
        while k < count
            invariant
                old(self).wf(),
                self.wf(),
                k <= count,
                count <= crate::NUM_REGISTERS,
                base + count <= crate::RAM_SIZE,
                self.pc == old(self).pc,
                self.vram == old(self).vram,
                self.registers == old(self).registers,
                self.i == old(self).i,
                self.stack == old(self).stack,
                self.keypad == old(self).keypad,
                self.delay_timer == old(self).delay_timer,
                self.sound_timer == old(self).sound_timer,
                forall|a: int|
                    base <= a < base + k ==> self.ram@[a] == old(self)@.regs[a - base],
                forall|a: int|
                    0 <= a < crate::RAM_SIZE && !(base <= a < base + k) ==> self.ram@[a] == old(
                        self,
                    )@.ram[a],
            decreases count - k,
        {
            let v = self.registers[k];
            self.ram[base + k] = v;
            k += 1;
        }
        proof {
            assert(self@.ram =~= crate::isa::write_span(
                old(self)@.ram,
                base as int,
                old(self)@.regs,
                count as int,
            ));
        }
    }

    /// Fill the first `count` registers from memory starting at `base`.
    fn load_regs(&mut self, base: usize, count: usize)
        requires
            old(self).wf(),
            count <= crate::NUM_REGISTERS,
            base + count <= crate::RAM_SIZE,
        ensures
            final(self).wf(),
            final(self)@ == (State {
                regs: crate::isa::read_span(
                    old(self)@.regs,
                    old(self)@.ram,
                    base as int,
                    count as int,
                ),
                ..old(self)@
            }),
    {
        let mut k: usize = 0;
        while k < count
            invariant
                old(self).wf(),
                self.wf(),
                k <= count,
                count <= crate::NUM_REGISTERS,
                base + count <= crate::RAM_SIZE,
                self.pc == old(self).pc,
                self.vram == old(self).vram,
                self.ram == old(self).ram,
                self.i == old(self).i,
                self.stack == old(self).stack,
                self.keypad == old(self).keypad,
                self.delay_timer == old(self).delay_timer,
                self.sound_timer == old(self).sound_timer,
                forall|r: int| 0 <= r < k ==> self.registers@[r] == old(self)@.ram[base + r],
                forall|r: int|
                    k <= r < crate::NUM_REGISTERS ==> self.registers@[r] == old(self)@.regs[r],
            decreases count - k,
        {
            let v = self.ram[base + k];
            self.registers[k] = v;
            k += 1;
        }
        proof {
            assert(self@.regs =~= crate::isa::read_span(
                old(self)@.regs,
                old(self)@.ram,
                base as int,
                count as int,
            ));
        }
    }

    /// Execute a control-flow instruction: return, jump, call, or a conditional skip.
    fn exec_control(&mut self, opcode: u16, instr: Instr) -> (r: Result<(), Chip8Error>)
        requires
            old(self).wf(),
            old(self).pc + 2 <= usize::MAX,
            instr == crate::isa::spec_parse(opcode),
            crate::isa::instr_bounded(instr),
            instr is ReturnSub || instr is MachineCall || instr is Jump || instr is CallSub || instr is JumpPlusV0 || instr is SkipEqImm || instr is SkipNeImm || instr is SkipEqReg || instr is SkipNeReg,
        ensures
            final(self).wf(),
            crate::isa::step_fails(old(self)@, opcode) ==> r == Err::<(), Chip8Error>(
                crate::isa::step_err(old(self)@, opcode),
            ) && final(self)@ == old(self)@,
            !crate::isa::step_fails(old(self)@, opcode) ==> r == Ok::<(), Chip8Error>(())
                && crate::isa::step_ok(old(self)@, final(self)@, opcode),
    {
        match instr {
            Instr::ReturnSub => {
                match self.stack.pop() {
                    Some(addr) => {
                        self.pc = addr;
                        proof {
                            assert(self@.stack =~= old(self)@.stack.drop_last());
                        }
                        Ok(())
                    },
                    None => Err(Chip8Error::StackUnderflow),
                }
            },
            Instr::MachineCall => Ok(()),
            Instr::Jump { nnn } => {
                self.pc = nnn as usize;
                Ok(())
            },
            Instr::CallSub { nnn } => {
                let here = self.pc;
                self.stack.push(here);
                self.pc = nnn as usize;
                Ok(())
            },
            Instr::JumpPlusV0 { nnn } => {
                self.pc = nnn as usize + self.registers[0] as usize;
                Ok(())
            },
            Instr::SkipEqImm { x, nn } => {
                if self.registers[x as usize] == nn {
                    self.pc += 2;
                }
                Ok(())
            },
            Instr::SkipNeImm { x, nn } => {
                if self.registers[x as usize] != nn {
                    self.pc += 2;
                }
                Ok(())
            },
            Instr::SkipEqReg { x, y } => {
                if self.registers[x as usize] == self.registers[y as usize] {
                    self.pc += 2;
                }
                Ok(())
            },
            Instr::SkipNeReg { x, y } => {
                if self.registers[x as usize] != self.registers[y as usize] {
                    self.pc += 2;
                }
                Ok(())
            },
            _ => {
                // the membership clause in `requires` rules this arm out
                proof {
                    assert(false);
                }
                Ok(())
            },
        }
    }

    /// Execute a register move or a bitwise register-logic instruction.
    fn exec_logic(&mut self, opcode: u16, instr: Instr) -> (r: Result<(), Chip8Error>)
        requires
            old(self).wf(),
            old(self).pc + 2 <= usize::MAX,
            instr == crate::isa::spec_parse(opcode),
            crate::isa::instr_bounded(instr),
            instr is SetImm || instr is AddImm || instr is CopyReg || instr is OrReg || instr is AndReg || instr is XorReg,
        ensures
            final(self).wf(),
            crate::isa::step_fails(old(self)@, opcode) ==> r == Err::<(), Chip8Error>(
                crate::isa::step_err(old(self)@, opcode),
            ) && final(self)@ == old(self)@,
            !crate::isa::step_fails(old(self)@, opcode) ==> r == Ok::<(), Chip8Error>(())
                && crate::isa::step_ok(old(self)@, final(self)@, opcode),
    {
        match instr {
            Instr::SetImm { x, nn } => {
                self.registers[x as usize] = nn;
                Ok(())
            },
            Instr::AddImm { x, nn } => {
                let vx = self.registers[x as usize];
                self.registers[x as usize] = vx.wrapping_add(nn);
                Ok(())
            },
            Instr::CopyReg { x, y } => {
                let vy = self.registers[y as usize];
                self.registers[x as usize] = vy;
                Ok(())
            },
            Instr::OrReg { x, y } => {
                let vx = self.registers[x as usize];
                let vy = self.registers[y as usize];
                self.registers[x as usize] = vx | vy;
                Ok(())
            },
            Instr::AndReg { x, y } => {
                let vx = self.registers[x as usize];
                let vy = self.registers[y as usize];
                self.registers[x as usize] = vx & vy;
                Ok(())
            },
            Instr::XorReg { x, y } => {
                let vx = self.registers[x as usize];
                let vy = self.registers[y as usize];
                self.registers[x as usize] = vx ^ vy;
                Ok(())
            },
            _ => {
                // the membership clause in `requires` rules this arm out
                proof {
                    assert(false);
                }
                Ok(())
            },
        }
    }

    /// Execute a flag-setting arithmetic or shift instruction.
    #[verifier::rlimit(60)]
    fn exec_arith(&mut self, opcode: u16, instr: Instr) -> (r: Result<(), Chip8Error>)
        requires
            old(self).wf(),
            old(self).pc + 2 <= usize::MAX,
            instr == crate::isa::spec_parse(opcode),
            crate::isa::instr_bounded(instr),
            instr is AddReg || instr is SubReg || instr is ShrReg || instr is SubFromReg || instr is ShlReg,
        ensures
            final(self).wf(),
            crate::isa::step_fails(old(self)@, opcode) ==> r == Err::<(), Chip8Error>(
                crate::isa::step_err(old(self)@, opcode),
            ) && final(self)@ == old(self)@,
            !crate::isa::step_fails(old(self)@, opcode) ==> r == Ok::<(), Chip8Error>(())
                && crate::isa::step_ok(old(self)@, final(self)@, opcode),
    {
        match instr {
            Instr::AddReg { x, y } => {
                let vx = self.registers[x as usize];
                let vy = self.registers[y as usize];
                let sum = vx as u16 + vy as u16;
                self.registers[x as usize] = (sum % 256) as u8;
                self.registers[0xF] = if sum > 255 {
                    1
                } else {
                    0
                };
                Ok(())
            },
            Instr::SubReg { x, y } => {
                let vx = self.registers[x as usize];
                let vy = self.registers[y as usize];
                self.registers[x as usize] = vx.wrapping_sub(vy);
                self.registers[0xF] = if vx >= vy {
                    1
                } else {
                    0
                };
                Ok(())
            },
            Instr::ShrReg { x, y } => {
                let vy = self.registers[y as usize];
                proof {
                    assert((vy & 1) == (vy % 2) && (vy >> 1) == (vy / 2)) by (bit_vector);
                }
                self.registers[0xF] = vy & 1;
                self.registers[x as usize] = vy >> 1;
                Ok(())
            },
            Instr::SubFromReg { x, y } => {
                let vx = self.registers[x as usize];
                let vy = self.registers[y as usize];
                self.registers[x as usize] = vy.wrapping_sub(vx);
                self.registers[0xF] = if vy >= vx {
                    1
                } else {
                    0
                };
                Ok(())
            },
            Instr::ShlReg { x, y } => {
                let vy = self.registers[y as usize];
                proof {
                    assert((vy & 1) == (vy % 2) && (vy << 1) == (2 * vy) % 256) by (bit_vector);
                }
                self.registers[0xF] = vy & 1;
                self.registers[x as usize] = vy << 1;
                Ok(())
            },
            _ => {
                // the membership clause in `requires` rules this arm out
                proof {
                    assert(false);
                }
                Ok(())
            },
        }
    }

    /// Execute a framebuffer, index-register or randomness instruction.
    fn exec_display(&mut self, opcode: u16, instr: Instr) -> (r: Result<(), Chip8Error>)
        requires
            old(self).wf(),
            old(self).pc + 2 <= usize::MAX,
            instr == crate::isa::spec_parse(opcode),
            crate::isa::instr_bounded(instr),
            instr is ClearScreen || instr is Draw || instr is SetIndex || instr is AddIndex || instr is FontGlyph || instr is Random,
        ensures
            final(self).wf(),
            crate::isa::step_fails(old(self)@, opcode) ==> r == Err::<(), Chip8Error>(
                crate::isa::step_err(old(self)@, opcode),
            ) && final(self)@ == old(self)@,
            !crate::isa::step_fails(old(self)@, opcode) ==> r == Ok::<(), Chip8Error>(())
                && crate::isa::step_ok(old(self)@, final(self)@, opcode),
    {
        match instr {
            Instr::ClearScreen => {
                self.vram = filled::<bool>(crate::VRAM_SIZE, false);
                proof {
                    assert(self@ =~= (State {
                        fb: Seq::new(crate::VRAM_SIZE as nat, |p: int| false),
                        ..old(self)@
                    }));
                }
                Ok(())
            },
            Instr::Draw { x, y, n } => {
                let ox = (self.registers[x as usize] as usize) % crate::WIDTH;
                let oy = (self.registers[y as usize] as usize) % crate::HEIGHT;
                let rows = if (n as usize) <= crate::HEIGHT - oy {
                    n as usize
                } else {
                    crate::HEIGHT - oy
                };
                if self.i as usize + rows > crate::RAM_SIZE {
                    return Err(Chip8Error::IndexOutOfBounds);
                }
                let base = self.i as usize;
                let hit = crate::sprite::blit(&mut self.vram, &self.ram, base, ox, oy, rows);
                self.registers[0xF] = if hit {
                    1
                } else {
                    0
                };
                proof {
                    assert(crate::isa::draw_rel(old(self)@, self@, x, y, n));
                }
                Ok(())
            },
            Instr::SetIndex { nnn } => {
                self.i = nnn;
                Ok(())
            },
            Instr::AddIndex { x } => {
                let vx = self.registers[x as usize];
                self.i = self.i.wrapping_add(vx as u16);
                Ok(())
            },
            Instr::FontGlyph { x } => {
                let vx = self.registers[x as usize];
                self.i = 0x50 + 5 * vx as u16;
                Ok(())
            },
            Instr::Random { x, nn } => {
                let b = crate::entropy::random_byte();
                self.registers[x as usize] = b & nn;
                proof {
                    assert(self@ == (State {
                        regs: old(self)@.regs.update(x as int, b & nn),
                        ..old(self)@
                    }));
                }
                Ok(())
            },
            _ => {
                // the membership clause in `requires` rules this arm out
                proof {
                    assert(false);
                }
                Ok(())
            },
        }
    }

    /// Execute a keypad, timer or memory-transfer instruction.
    fn exec_io(&mut self, opcode: u16, instr: Instr) -> (r: Result<(), Chip8Error>)
        requires
            old(self).wf(),
            old(self).pc + 2 <= usize::MAX,
            instr == crate::isa::spec_parse(opcode),
            crate::isa::instr_bounded(instr),
            instr is SkipKeyPressed || instr is SkipKeyNotPressed || instr is ReadDelay || instr is WaitKey || instr is SetDelay || instr is SetSound || instr is StoreBcd || instr is StoreRegs || instr is LoadRegs,
        ensures
            final(self).wf(),
            crate::isa::step_fails(old(self)@, opcode) ==> r == Err::<(), Chip8Error>(
                crate::isa::step_err(old(self)@, opcode),
            ) && final(self)@ == old(self)@,
            !crate::isa::step_fails(old(self)@, opcode) ==> r == Ok::<(), Chip8Error>(())
                && crate::isa::step_ok(old(self)@, final(self)@, opcode),
    {
        match instr {
            Instr::SkipKeyPressed { x } => {
                let key = self.registers[x as usize];
                if key as usize >= crate::NUM_KEYS {
                    return Err(Chip8Error::IndexOutOfBounds);
                }
                if self.keypad[key as usize] {
                    self.pc += 2;
                }
                Ok(())
            },
            Instr::SkipKeyNotPressed { x } => {
                let key = self.registers[x as usize];
                if key as usize >= crate::NUM_KEYS {
                    return Err(Chip8Error::IndexOutOfBounds);
                }
                if !self.keypad[key as usize] {
                    self.pc += 2;
                }
                Ok(())
            },
            Instr::ReadDelay { x } => {
                self.registers[x as usize] = self.delay_timer;
                Ok(())
            },
            Instr::WaitKey { x } => {
                let key = self.registers[x as usize];
                if key as usize >= crate::NUM_KEYS {
                    return Err(Chip8Error::IndexOutOfBounds);
                }
                if !self.keypad[key as usize] {
                    if self.pc >= 2 {
                        self.pc -= 2;
                    }
                }
                Ok(())
            },
            Instr::SetDelay { x } => {
                self.delay_timer = self.registers[x as usize];
                Ok(())
            },
            Instr::SetSound { x } => {
                self.sound_timer = self.registers[x as usize];
                Ok(())
            },
            Instr::StoreBcd { x } => {
                let v = self.registers[x as usize];
                let base = self.i as usize;
                if base + 3 > crate::RAM_SIZE {
                    return Err(Chip8Error::IndexOutOfBounds);
                }
                self.ram[base] = v / 100;
                self.ram[base + 1] = (v % 100) / 10;
                self.ram[base + 2] = v % 10;
                Ok(())
            },
            Instr::StoreRegs { x } => {
                let base = self.i as usize;
                if base + x as usize + 1 > crate::RAM_SIZE {
                    return Err(Chip8Error::IndexOutOfBounds);
                }
                self.store_regs(base, x as usize + 1);
                Ok(())
            },
            Instr::LoadRegs { x } => {
                let base = self.i as usize;
                if base + x as usize + 1 > crate::RAM_SIZE {
                    return Err(Chip8Error::IndexOutOfBounds);
                }
                self.load_regs(base, x as usize + 1);
                Ok(())
            },
            _ => {
                // the membership clause in `requires` rules this arm out
                proof {
                    assert(false);
                }
                Ok(())
            },
        }
    }

    /// Execute one already-fetched opcode against the current state. The
    /// program counter is expected to have been advanced past the opcode
    /// already; skips add 2 more and the key-wait rolls it back. A failing
    /// instruction reports its error and leaves the state untouched;
    /// nibble patterns outside the catalog are a no-op.
    pub fn decode(&mut self, opcode: u16) -> (r: Result<(), Chip8Error>)
        requires
            old(self).wf(),
            old(self).pc + 2 <= usize::MAX,
        ensures
            final(self).wf(),
            crate::isa::step_fails(old(self)@, opcode) ==> r == Err::<(), Chip8Error>(
                crate::isa::step_err(old(self)@, opcode),
            ) && final(self)@ == old(self)@,
            !crate::isa::step_fails(old(self)@, opcode) ==> r == Ok::<(), Chip8Error>(())
                && crate::isa::step_ok(old(self)@, final(self)@, opcode),
    {
        let instr = crate::isa::parse(opcode);
        match instr {
            Instr::ReturnSub | Instr::MachineCall | Instr::Jump { .. } | Instr::CallSub { .. }
                | Instr::JumpPlusV0 { .. } | Instr::SkipEqImm { .. } | Instr::SkipNeImm { .. }
                | Instr::SkipEqReg { .. } | Instr::SkipNeReg { .. } => self.exec_control(
                opcode,
                instr,
            ),
            Instr::SetImm { .. } | Instr::AddImm { .. } | Instr::CopyReg { .. } | Instr::OrReg {
                ..
            } | Instr::AndReg { .. } | Instr::XorReg { .. } => self.exec_logic(opcode, instr),
            Instr::AddReg { .. } | Instr::SubReg { .. } | Instr::ShrReg { .. }
                | Instr::SubFromReg { .. } | Instr::ShlReg { .. } => self.exec_arith(
                opcode,
                instr,
            ),
            Instr::ClearScreen | Instr::Draw { .. } | Instr::SetIndex { .. } | Instr::AddIndex {
                ..
            } | Instr::FontGlyph { .. } | Instr::Random { .. } => self.exec_display(
                opcode,
                instr,
            ),
            Instr::SkipKeyPressed { .. } | Instr::SkipKeyNotPressed { .. } | Instr::ReadDelay {
                ..
            } | Instr::WaitKey { .. } | Instr::SetDelay { .. } | Instr::SetSound { .. }
                | Instr::StoreBcd { .. } | Instr::StoreRegs { .. } | Instr::LoadRegs { .. } =>
                self.exec_io(opcode, instr),
            Instr::Unknown => Ok(()),
        }
    }

    /// One step of the machine: fetch the opcode at the program counter,
    /// advance past it, then execute it. A failing fetch reports its error
    /// with the state untouched; a failing instruction reports its error
    /// with only the advance applied.
    pub fn tick(&mut self) -> (r: Result<(), Chip8Error>)
        requires
            old(self).wf(),
        ensures
            final(self).wf(),
            !fetch_ok(old(self)@) ==> r == Err::<(), Chip8Error>(fetch_err(old(self)@))
                && final(self)@ == old(self)@,
            fetch_ok(old(self)@) && crate::isa::step_fails(
                advanced(old(self)@),
                spec_fetch(old(self)@),
            ) ==> r == Err::<(), Chip8Error>(
                crate::isa::step_err(advanced(old(self)@), spec_fetch(old(self)@)),
            ) && final(self)@ == advanced(old(self)@),
            fetch_ok(old(self)@) && !crate::isa::step_fails(
                advanced(old(self)@),
                spec_fetch(old(self)@),
            ) ==> r == Ok::<(), Chip8Error>(()) && crate::isa::step_ok(
                advanced(old(self)@),
                final(self)@,
                spec_fetch(old(self)@),
            ),
    {
        let opcode = match self.fetch() {
            Ok(opcode) => opcode,
            Err(e) => {
                return Err(e);
            },
        };
        self.pc += 2;
        proof {
            assert(self@ == advanced(old(self)@));
        }
        self.decode(opcode)
    }
}

} // verus!
