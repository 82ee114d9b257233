//! The machine state: sixteen one-byte registers, the index register, the
//! program counter, byte-addressable memory with the font glyph table in its
//! reserved region, the call-return stack, the two countdown timers, and the
//! host-shared framebuffer and key state.
//!
//! Operands are resolved against this state through the generic `load` and
//! `store` interface; all contracts speak of the mathematical view `self@`.

use vstd::prelude::*;
use crate::config::{Config, FONT_BYTES};
use crate::instruction::{Instruction, InstructionTable, Word, spec_decode, spec_first, TABLE_LEN, row_ok};
use crate::operand::Operand;
use crate::state::{SharedState, PIXEL_COUNT};

verus! {

/// Maximum depth of the call-return stack; a `Call` beyond it is a guest
/// error, not silent growth.
pub const STACK_DEPTH: usize = 16;

/// Upper bound the program counter never exceeds: jumps reach at most
/// `0xFFF + 0xFF`, and the two-byte advances stop once a fetch fails.
pub const PC_LIMIT: usize = 0x20000;

/// How an instruction can fail.
///
/// `InvalidOperand` marks a table-wiring bug (a literal used as a store
/// target, a missing operand resolved); the others are guest-program errors
/// a host may recover from, and `UnknownInstruction` is the decode-miss
/// case a host may skip or halt on.
#[derive(Copy, Clone, PartialEq, Eq, Structural, Debug)]
pub enum Chip8Error {
    InvalidOperand,
    AddressOutOfRange,
    StackUnderflow,
    StackOverflow,
    UnknownInstruction,
    PcOutOfRange,
}

impl Chip8Error {
    /// A short description of the error.
    pub fn message(&self) -> (r: &'static str)
        ensures
            *self is InvalidOperand ==> r@ == "invalid operand combination"@,
            *self is AddressOutOfRange ==> r@ == "memory access out of range"@,
            *self is StackUnderflow ==> r@ == "return with empty call stack"@,
            *self is StackOverflow ==> r@ == "call stack limit exceeded"@,
            *self is UnknownInstruction ==> r@ == "unknown instruction word"@,
            *self is PcOutOfRange ==> r@ == "program counter out of range"@,
    {
        match *self {
            Chip8Error::InvalidOperand => "invalid operand combination",
            Chip8Error::AddressOutOfRange => "memory access out of range",
            Chip8Error::StackUnderflow => "return with empty call stack",
            Chip8Error::StackOverflow => "call stack limit exceeded",
            Chip8Error::UnknownInstruction => "unknown instruction word",
            Chip8Error::PcOutOfRange => "program counter out of range",
        }
    }
}

/// The mathematical view of the machine state.
#[verifier::ext_equal]
pub ghost struct MachView {
    pub cfg: Config,
    pub regs: Seq<u8>,
    pub i: usize,
    pub pc: usize,
    pub delay: u8,
    pub sound: u8,
    pub ram: Seq<u8>,
    pub stack: Seq<usize>,
    pub pixels: Seq<u8>,
    pub keys: Seq<bool>,
}

/// The machine-state invariant: every region has its size, every bounded
/// quantity its bound.
pub open spec fn inv(v: MachView) -> bool {
    &&& v.cfg.wf()
    &&& v.regs.len() == 16
    &&& v.ram.len() == v.cfg.ram_size
    &&& v.stack.len() <= STACK_DEPTH
    &&& forall|k: int| 0 <= k < v.stack.len() ==> #[trigger] v.stack[k] <= PC_LIMIT
    &&& v.pc <= PC_LIMIT
    &&& v.i <= 0x10000
    &&& v.pixels.len() == PIXEL_COUNT
    &&& forall|k: int| 0 <= k < PIXEL_COUNT ==> #[trigger] v.pixels[k] <= 1
    &&& v.keys.len() == 16
}

/// Whether resolving `op` for a read succeeds against state `v`.
/// `Nowhere` never resolves; indirect reads must land inside memory.
pub open spec fn spec_loadable(v: MachView, op: Operand) -> bool {
    match op {
        Operand::Address12(a) => a < v.ram.len(),
        Operand::IndirectI => v.i < v.ram.len(),
        Operand::Nowhere => false,
        _ => true,
    }
}

/// The value a readable operand resolves to, widened to 32 bits.
pub open spec fn spec_load(v: MachView, op: Operand) -> u32 {
    match op {
        Operand::Register(r) => v.regs[r as int] as u32,
        Operand::Address12(a) => v.ram[a as int] as u32,
        Operand::I => v.i as u32,
        Operand::IndirectI => v.ram[v.i as int] as u32,
        Operand::Literal12(n) => n as u32,
        Operand::Literal8(n) => n as u32,
        Operand::Literal4(n) => n as u32,
        Operand::DelayTimer => v.delay as u32,
        Operand::SoundTimer => v.sound as u32,
        Operand::Nowhere => 0,
    }
}

/// The error a failed load reports: a missing operand is a table-wiring
/// bug, an out-of-range indirect read a guest error.
pub open spec fn load_err(op: Operand) -> Chip8Error {
    if op is Nowhere {
        Chip8Error::InvalidOperand
    } else {
        Chip8Error::AddressOutOfRange
    }
}

/// Whether `op` may be written against state `v`: literals and "no
/// destination" are never write targets, and indirect writes must land
/// inside memory.
pub open spec fn spec_storable(v: MachView, op: Operand) -> bool {
    match op {
        Operand::Address12(a) => a < v.ram.len(),
        Operand::IndirectI => v.i < v.ram.len(),
        Operand::Literal12(_) => false,
        Operand::Literal8(_) => false,
        Operand::Literal4(_) => false,
        Operand::Nowhere => false,
        _ => true,
    }
}

/// The error a failed store reports.
pub open spec fn store_err(op: Operand) -> Chip8Error {
    match op {
        Operand::Address12(_) => Chip8Error::AddressOutOfRange,
        Operand::IndirectI => Chip8Error::AddressOutOfRange,
        _ => Chip8Error::InvalidOperand,
    }
}

/// The state after writing `val` to a storable destination: registers and
/// memory cells take the low 8 bits, the index register the low 16.
pub open spec fn spec_store(v: MachView, op: Operand, val: int) -> MachView {
    match op {
        Operand::Register(r) => MachView { regs: v.regs.update(r as int, (val % 256) as u8), ..v },
        Operand::Address12(a) => MachView { ram: v.ram.update(a as int, (val % 256) as u8), ..v },
        Operand::I => MachView { i: (val % 0x10000) as usize, ..v },
        Operand::IndirectI => MachView { ram: v.ram.update(v.i as int, (val % 256) as u8), ..v },
        Operand::DelayTimer => MachView { delay: (val % 256) as u8, ..v },
        Operand::SoundTimer => MachView { sound: (val % 256) as u8, ..v },
        _ => v,
    }
}

/// The interpreter core's machine state.
pub struct Chip8 {
    pub config: Config,
    pub state: SharedState,
    pub gp_reg: Vec<u8>,
    pub i: usize,
    pub pc: usize,
    pub delay_timer: u8,
    pub sound_timer: u8,
    pub ram: Vec<u8>,
    pub stack: Vec<usize>,
    pub itable: InstructionTable,
}

impl View for Chip8 {
    type V = MachView;

    open spec fn view(&self) -> MachView {
        MachView {
            cfg: self.config,
            regs: self.gp_reg@,
            i: self.i,
            pc: self.pc,
            delay: self.delay_timer,
            sound: self.sound_timer,
            ram: self.ram@,
            stack: self.stack@,
            pixels: self.state.vram.pixels@,
            keys: self.state.keys.state@,
        }
    }
}

/// The 4×5 font glyph table: 16 glyphs of 5 rows, one sprite byte per row.
pub open spec fn spec_font() -> Seq<u8> {
    seq![
        0xF0u8, 0x90, 0x90, 0x90, 0xF0,
        0x20, 0x60, 0x20, 0x20, 0x70,
        0xF0, 0x10, 0xF0, 0x80, 0xF0,
        0xF0, 0x10, 0xF0, 0x10, 0xF0,
        0x90, 0x90, 0xF0, 0x10, 0x10,
        0xF0, 0x80, 0xF0, 0x10, 0xF0,
        0xF0, 0x80, 0xF0, 0x90, 0xF0,
        0xF0, 0x10, 0x20, 0x40, 0x40,
        0xF0, 0x90, 0xF0, 0x90, 0xF0,
        0xF0, 0x90, 0xF0, 0x10, 0xF0,
        0xF0, 0x90, 0xF0, 0x90, 0x90,
        0xE0, 0x90, 0xE0, 0x90, 0xE0,
        0xF0, 0x80, 0x80, 0x80, 0xF0,
        0xE0, 0x90, 0x90, 0x90, 0xE0,
        0xF0, 0x80, 0xF0, 0x80, 0xF0,
        0xF0, 0x80, 0xF0, 0x80, 0x80,
    ]
}

/// Appends the five sprite rows of one font glyph.
fn push_glyph(v: &mut Vec<u8>, a: u8, b: u8, c: u8, d: u8, e: u8)
    ensures
        final(v)@ == old(v)@ + seq![a, b, c, d, e],
{
    v.push(a);
    v.push(b);
    v.push(c);
    v.push(d);
    v.push(e);
    proof {
        assert(final(v)@ =~= old(v)@ + seq![a, b, c, d, e]);
    }
}

/// The font glyph table as bytes.
pub fn font_data() -> (r: Vec<u8>)
    ensures
        r@ == spec_font(),
        r@.len() == FONT_BYTES,
{
    let mut v: Vec<u8> = Vec::new();
    push_glyph(&mut v, 0xF0, 0x90, 0x90, 0x90, 0xF0);
    push_glyph(&mut v, 0x20, 0x60, 0x20, 0x20, 0x70);
    push_glyph(&mut v, 0xF0, 0x10, 0xF0, 0x80, 0xF0);
    push_glyph(&mut v, 0xF0, 0x10, 0xF0, 0x10, 0xF0);
    push_glyph(&mut v, 0x90, 0x90, 0xF0, 0x10, 0x10);
    push_glyph(&mut v, 0xF0, 0x80, 0xF0, 0x10, 0xF0);
    push_glyph(&mut v, 0xF0, 0x80, 0xF0, 0x90, 0xF0);
    push_glyph(&mut v, 0xF0, 0x10, 0x20, 0x40, 0x40);
    push_glyph(&mut v, 0xF0, 0x90, 0xF0, 0x90, 0xF0);
    push_glyph(&mut v, 0xF0, 0x90, 0xF0, 0x10, 0xF0);
    push_glyph(&mut v, 0xF0, 0x90, 0xF0, 0x90, 0x90);
    push_glyph(&mut v, 0xE0, 0x90, 0xE0, 0x90, 0xE0);
    push_glyph(&mut v, 0xF0, 0x80, 0x80, 0x80, 0xF0);
    push_glyph(&mut v, 0xE0, 0x90, 0x90, 0x90, 0xE0);
    push_glyph(&mut v, 0xF0, 0x80, 0xF0, 0x80, 0xF0);
    push_glyph(&mut v, 0xF0, 0x80, 0xF0, 0x80, 0x80);
    proof {
        assert(v@ =~= spec_font());
    }
    v
}

impl Chip8 {
    /// The machine-state invariant together with the table being canonical.
    pub open spec fn wf(self) -> bool {
        &&& inv(self@)
        &&& self.itable.wf()
    }

    /// A fresh machine: memory zero-filled except the font glyph table in
    /// its reserved region, all registers, timers and the stack cleared.
    pub fn new(config: Config, state: SharedState) -> (r: Chip8)
        requires
            config.wf(),
            state.wf(),
        ensures
            r.wf(),
            r@.cfg == config,
            r@.pc == 0,
            r@.i == 0,
            r@.delay == 0,
            r@.sound == 0,
            r@.stack.len() == 0,
            forall|k: int| 0 <= k < 16 ==> #[trigger] r@.regs[k] == 0,
            forall|k: int|
                0 <= k < config.ram_size ==> #[trigger] r@.ram[k] == (if config.font_addr <= k
                    < config.font_addr + FONT_BYTES {
                    spec_font()[k - config.font_addr]
                } else {
                    0
                }),
            r@.pixels == state.vram.pixels@,
            r@.keys == state.keys.state@,
    {
        let font = font_data();
        let mut ram: Vec<u8> = vec![0u8; config.ram_size];
        let mut k: usize = 0;
        while k < FONT_BYTES
            invariant
                config.wf(),
                k <= FONT_BYTES,
                font@ == spec_font(),
                ram@.len() == config.ram_size,
                forall|j: int|
                    0 <= j < config.ram_size ==> #[trigger] ram@[j] == (if config.font_addr <= j
                        < config.font_addr + k {
                        spec_font()[j - config.font_addr]
                    } else {
                        0
                    }),
            decreases FONT_BYTES - k,
        {
            ram[config.font_addr + k] = font[k];
            k += 1;
        }
        Chip8 {
            config,
            state,
            gp_reg: vec![0u8; 16],
            i: 0,
            pc: 0,
            delay_timer: 0,
            sound_timer: 0,
            ram,
            stack: Vec::new(),
            itable: InstructionTable::new(),
        }
    }

    /// Copies a program image into memory starting at `addr`.
    pub fn load_bytes(&mut self, bytes: &Vec<u8>, addr: usize)
        requires
            old(self).wf(),
            addr + bytes@.len() <= old(self)@.ram.len(),
        ensures
            final(self).wf(),
            final(self)@ == (MachView {
                ram: old(self)@.ram.map(
                    |j: int, b: u8|
                        if addr <= j < addr + bytes@.len() {
                            bytes@[j - addr]
                        } else {
                            b
                        },
                ),
                ..old(self)@
            }),
    {
        let n = bytes.len();
        let mut k: usize = 0;
        while k < n
            invariant
                inv(old(self)@),
                n == bytes@.len(),
                addr + n <= old(self)@.ram.len(),
                k <= n,
                self.config == old(self).config,
                self.gp_reg == old(self).gp_reg,
                self.i == old(self).i,
                self.pc == old(self).pc,
                self.delay_timer == old(self).delay_timer,
                self.sound_timer == old(self).sound_timer,
                self.stack == old(self).stack,
                self.state.vram.pixels@ == old(self).state.vram.pixels@,
                self.state.keys.state@ == old(self).state.keys.state@,
                self.itable == old(self).itable,
                self.ram@.len() == old(self)@.ram.len(),
                forall|j: int|
                    0 <= j < self.ram@.len() ==> #[trigger] self.ram@[j] == (if addr <= j < addr
                        + k {
                        bytes@[j - addr]
                    } else {
                        old(self)@.ram[j]
                    }),
            decreases n - k,
        {
            self.ram[addr + k] = bytes[k];
            k += 1;
        }
        proof {
            assert(final(self)@.ram =~= old(self)@.ram.map(
                |j: int, b: u8|
                    if addr <= j < addr + bytes@.len() {
                        bytes@[j - addr]
                    } else {
                        b
                    },
            ));
        }
    }

    /// Decodes a word against the instruction table.
    pub fn decode_instruction(&self, codeword: Word) -> (r: Instruction)
        requires
            self.wf(),
        ensures
            r.codeword == codeword,
            (r.def.operation, r.dest, r.src, r.aux) == spec_decode(codeword),
            spec_first(codeword) < TABLE_LEN ==> row_ok(r.def, spec_first(codeword)),
    {
        self.itable.decode(codeword)
    }

    /// The big-endian word stored at `addr`.
    pub open spec fn spec_word_at(v: MachView, addr: int) -> u16 {
        (v.ram[addr] * 256 + v.ram[addr + 1]) as u16
    }

    /// Decodes the word stored at `addr`.
    pub fn decode_at_addr(&self, addr: usize) -> (r: Instruction)
        requires
            self.wf(),
            addr + 1 < self@.ram.len(),
        ensures
            r.codeword == Self::spec_word_at(self@, addr as int),
            (r.def.operation, r.dest, r.src, r.aux) == spec_decode(
                Self::spec_word_at(self@, addr as int),
            ),
    {
        let hi = self.ram[addr];
        let lo = self.ram[addr + 1];
        let word = (hi as u16) * 256 + (lo as u16);
        self.itable.decode(word)
    }

    /// The instruction word at the program counter.
    pub fn current_codeword(&self) -> (r: Word)
        requires
            self.wf(),
            self@.pc + 1 < self@.ram.len(),
        ensures
            r == Self::spec_word_at(self@, self@.pc as int),
    {
        let hi = self.ram[self.pc];
        let lo = self.ram[self.pc + 1];
        (hi as u16) * 256 + (lo as u16)
    }

    /// The value of register `reg`.
    pub fn reg(&self, reg: usize) -> (r: u8)
        requires
            self.wf(),
            reg < 16,
        ensures
            r == self@.regs[reg as int],
    {
        self.gp_reg[reg]
    }

    /// Sets register `reg` to `val`.
    pub fn set_reg(&mut self, reg: usize, val: u8)
        requires
            old(self).wf(),
            reg < 16,
        ensures
            final(self).wf(),
            final(self)@ == (MachView { regs: old(self)@.regs.update(reg as int, val), ..old(self)@ }),
    {
        self.gp_reg[reg] = val;
    }

    /// Clears the flag register `VF`.
    pub fn vf_clear(&mut self)
        requires
            old(self).wf(),
        ensures
            final(self).wf(),
            final(self)@ == (MachView { regs: old(self)@.regs.update(15, 0u8), ..old(self)@ }),
    {
        self.gp_reg[15] = 0;
    }

    /// Sets the flag register `VF` to 1.
    pub fn vf_set(&mut self)
        requires
            old(self).wf(),
        ensures
            final(self).wf(),
            final(self)@ == (MachView { regs: old(self)@.regs.update(15, 1u8), ..old(self)@ }),
    {
        self.gp_reg[15] = 1;
    }

    /// Stores a boolean flag into `VF` as 1 or 0.
    pub fn vf_store(&mut self, flag: bool)
        requires
            old(self).wf(),
        ensures
            final(self).wf(),
            final(self)@ == (MachView {
                regs: old(self)@.regs.update(15, if flag { 1u8 } else { 0u8 }),
                ..old(self)@
            }),
    {
        self.gp_reg[15] = if flag { 1 } else { 0 };
    }

    /// The program counter.
    pub fn pc(&self) -> (r: usize)
        ensures
            r == self@.pc,
    {
        self.pc
    }

    /// Advances the program counter by one instruction width.
    pub fn advance_pc(&mut self)
        requires
            old(self).wf(),
            old(self)@.pc + 2 <= PC_LIMIT,
        ensures
            final(self).wf(),
            final(self)@ == (MachView { pc: (old(self)@.pc + 2) as usize, ..old(self)@ }),
    {
        self.pc += 2;
    }

    /// Jumps the program counter to `addr`.
    pub fn jump_pc(&mut self, addr: usize)
        requires
            old(self).wf(),
            addr <= PC_LIMIT,
        ensures
            final(self).wf(),
            final(self)@ == (MachView { pc: addr, ..old(self)@ }),
    {
        self.pc = addr;
    }

    /// Writes one memory byte.
    pub fn set_ram(&mut self, addr: usize, data: u8)
        requires
            old(self).wf(),
            addr < old(self)@.ram.len(),
        ensures
            final(self).wf(),
            final(self)@ == (MachView { ram: old(self)@.ram.update(addr as int, data), ..old(self)@ }),
    {
        self.ram[addr] = data;
    }

    /// Reads one memory byte.
    pub fn ram(&self, addr: usize) -> (r: u8)
        requires
            self.wf(),
            addr < self@.ram.len(),
        ensures
            r == self@.ram[addr as int],
    {
        self.ram[addr]
    }

    /// Counts both timers down by one, stopping at zero; called once per
    /// elapsed 1/60-second tick.
    pub fn decrement_timers(&mut self)
        requires
            old(self).wf(),
        ensures
            final(self).wf(),
            final(self)@ == (MachView {
                delay: if old(self)@.delay > 0 { (old(self)@.delay - 1) as u8 } else { 0u8 },
                sound: if old(self)@.sound > 0 { (old(self)@.sound - 1) as u8 } else { 0u8 },
                ..old(self)@
            }),
    {
        if self.delay_timer > 0 {
            self.delay_timer -= 1;
        }
        if self.sound_timer > 0 {
            self.sound_timer -= 1;
        }
    }

    /// Resolves a readable operand to its current value; fails for an
    /// operand that names no readable location or points outside memory.
    pub fn load(&self, src: Operand) -> (r: Result<u32, Chip8Error>)
        requires
            self.wf(),
            src.wf(),
        ensures
            spec_loadable(self@, src) ==> r == Ok::<u32, Chip8Error>(spec_load(self@, src)),
            !spec_loadable(self@, src) ==> r == Err::<u32, Chip8Error>(load_err(src)),
    {
        match src {
            Operand::Register(r) => Ok(self.gp_reg[r] as u32),
            Operand::Address12(a) => {
                if a < self.ram.len() {
                    Ok(self.ram[a] as u32)
                } else {
                    Err(Chip8Error::AddressOutOfRange)
                }
            },
            Operand::I => Ok(self.i as u32),
            Operand::IndirectI => {
                if self.i < self.ram.len() {
                    Ok(self.ram[self.i] as u32)
                } else {
                    Err(Chip8Error::AddressOutOfRange)
                }
            },
            Operand::Literal12(n) => Ok(n as u32),
            Operand::Literal8(n) => Ok(n as u32),
            Operand::Literal4(n) => Ok(n as u32),
            Operand::SoundTimer => Ok(self.sound_timer as u32),
            Operand::DelayTimer => Ok(self.delay_timer as u32),
            Operand::Nowhere => Err(Chip8Error::InvalidOperand),
        }
    }

    /// Whether `dest` may be written right now.
    pub fn can_store(&self, dest: Operand) -> (r: bool)
        requires
            self.wf(),
        ensures
            r == spec_storable(self@, dest),
    {
        match dest {
            Operand::Register(_) => true,
            Operand::Address12(a) => a < self.ram.len(),
            Operand::I => true,
            Operand::IndirectI => self.i < self.ram.len(),
            Operand::DelayTimer => true,
            Operand::SoundTimer => true,
            _ => false,
        }
    }

    /// Writes a value to a resolvable destination: registers and memory
    /// take the low 8 bits, the index register the low 16.  Fails for any
    /// immediate-kind operand and for `Nowhere` — literals and "no
    /// destination" are never write targets.
    pub fn store(&mut self, dest: Operand, val: u32) -> (r: Result<(), Chip8Error>)
        requires
            old(self).wf(),
            dest.wf(),
        ensures
            final(self).wf(),
            spec_storable(old(self)@, dest) ==> r == Ok::<(), Chip8Error>(()) && final(self)@
                == spec_store(old(self)@, dest, val as int),
            !spec_storable(old(self)@, dest) ==> r == Err::<(), Chip8Error>(store_err(dest))
                && final(self)@ == old(self)@,
    {
        match dest {
            Operand::Register(r) => {
                self.gp_reg[r] = (val % 256) as u8;
                Ok(())
            },
            Operand::Address12(a) => {
                if a < self.ram.len() {
                    self.ram[a] = (val % 256) as u8;
                    Ok(())
                } else {
                    Err(Chip8Error::AddressOutOfRange)
                }
            },
            Operand::I => {
                self.i = (val % 0x10000) as usize;
                Ok(())
            },
            Operand::IndirectI => {
                if self.i < self.ram.len() {
                    let idx = self.i;
                    self.ram[idx] = (val % 256) as u8;
                    Ok(())
                } else {
                    Err(Chip8Error::AddressOutOfRange)
                }
            },
            Operand::SoundTimer => {
                self.sound_timer = (val % 256) as u8;
                Ok(())
            },
            Operand::DelayTimer => {
                self.delay_timer = (val % 256) as u8;
                Ok(())
            },
            Operand::Literal12(_) | Operand::Literal8(_) | Operand::Literal4(_)
                | Operand::Nowhere => Err(Chip8Error::InvalidOperand),
        }
    }
}

} // verus!
