//! The mathematical model of the machine: its state, and what one step does to it.
use vstd::prelude::*;
use crate::instruction::{decode_spec, Instruction};

verus! {

/// Framebuffer width in cells.
pub const SCREEN_COLS: usize = 64;
/// Framebuffer height in cells.
pub const SCREEN_ROWS: usize = 32;
/// Number of framebuffer cells.
pub const SCREEN_CELLS: usize = 2048;
/// Size of the addressable memory in bytes.
pub const RAM_SIZE: usize = 4096;
/// Number of general-purpose registers.
pub const NUM_REGS: usize = 16;
/// Capacity of the call stack.
pub const STACK_SIZE: usize = 16;
/// Number of keypad slots.
pub const NUM_KEYS: usize = 16;
/// Where programs are loaded and execution starts.
pub const START_ADDR: u16 = 0x200;
/// Size of the built-in font in bytes (16 glyphs of 5 rows).
pub const FONTSET_SIZE: usize = 80;
/// Bytes per font glyph.
pub const FONT_HEIGHT: u16 = 5;
/// The register that doubles as the carry, borrow and collision flag.
pub const FLAG_REG: usize = 15;

/// Why the machine refused to go on. The state is left as it was.
#[derive(Clone, Copy, Debug, PartialEq, Eq, Structural)]
pub enum Fault {
    /// The instruction word encodes no instruction.
    UnknownInstruction { word: u16 },
    /// An access past the end of memory.
    MemoryOutOfBounds,
    /// A call with all stack slots in use.
    StackOverflow,
    /// A return with an empty stack.
    StackUnderflow,
    /// A key query on a register value that names no keypad slot.
    InvalidKey { key: u8 },
    /// A program that does not fit between the program origin and the end of memory.
    ProgramTooLarge,
}

/// The whole machine state, as plain values.
pub struct MachineState {
    pub pc: u16,
    pub memory: Seq<u8>,
    pub v: Seq<u8>,
    pub i: u16,
    pub sp: u16,
    pub stack: Seq<u16>,
    pub screen: Seq<bool>,
    pub keys: Seq<bool>,
    pub dt: u8,
    pub st: u8,
}

impl MachineState {
    /// Every array has its fixed size and the stack pointer is within the stack.
    pub open spec fn wf(self) -> bool {
        &&& self.memory.len() == RAM_SIZE
        &&& self.v.len() == NUM_REGS
        &&& self.stack.len() == STACK_SIZE
        &&& self.screen.len() == SCREEN_CELLS
        &&& self.keys.len() == NUM_KEYS
        &&& self.sp <= STACK_SIZE
    }
}

/// The built-in font: glyphs `0` to `F`, five rows each.
pub open spec fn font_glyphs() -> Seq<u8> {
    seq![
        0xF0u8, 0x90, 0x90, 0x90, 0xF0, 0x20, 0x60, 0x20, 0x20, 0x70,
        0xF0, 0x10, 0xF0, 0x80, 0xF0, 0xF0, 0x10, 0xF0, 0x10, 0xF0,
        0x90, 0x90, 0xF0, 0x10, 0x10, 0xF0, 0x80, 0xF0, 0x10, 0xF0,
        0xF0, 0x80, 0xF0, 0x90, 0xF0, 0xF0, 0x10, 0x20, 0x40, 0x40,
        0xF0, 0x90, 0xF0, 0x90, 0xF0, 0xF0, 0x90, 0xF0, 0x10, 0xF0,
        0xF0, 0x90, 0xF0, 0x90, 0x90, 0xE0, 0x90, 0xE0, 0x90, 0xE0,
        0xF0, 0x80, 0x80, 0x80, 0xF0, 0xE0, 0x90, 0x90, 0x90, 0xE0,
        0xF0, 0x80, 0xF0, 0x80, 0xF0, 0xF0, 0x80, 0xF0, 0x80, 0x80,
    ]
}

/// The freshly initialized machine: font at address 0, everything else zero.
pub open spec fn fresh_state() -> MachineState {
    MachineState {
        pc: START_ADDR,
        memory: Seq::new(
            RAM_SIZE as nat,
            |a: int|
                if a < FONTSET_SIZE {
                    font_glyphs()[a]
                } else {
                    0u8
                },
        ),
        v: Seq::new(NUM_REGS as nat, |r: int| 0u8),
        i: 0,
        sp: 0,
        stack: Seq::new(STACK_SIZE as nat, |k: int| 0u16),
        screen: Seq::new(SCREEN_CELLS as nat, |c: int| false),
        keys: Seq::new(NUM_KEYS as nat, |k: int| false),
        dt: 0,
        st: 0,
    }
}

/// The state after `data` is copied to memory at the program origin.
pub open spec fn loaded(s: MachineState, data: Seq<u8>) -> MachineState {
    MachineState {
        memory: Seq::new(
            RAM_SIZE as nat,
            |a: int|
                if START_ADDR <= a < START_ADDR + data.len() {
                    data[a - START_ADDR]
                } else {
                    s.memory[a]
                },
        ),
        ..s
    }
}

/// One timer advance: both timers count down by one and stop at zero.
pub open spec fn timers_advanced(s: MachineState) -> MachineState {
    MachineState {
        dt: if s.dt > 0 { (s.dt - 1) as u8 } else { 0 },
        st: if s.st > 0 { (s.st - 1) as u8 } else { 0 },
        ..s
    }
}

/// The big-endian instruction word made of two bytes.
pub open spec fn instruction_word(hi: u8, lo: u8) -> u16 {
    ((hi as u16) << 8u16) | (lo as u16)
}

/// Skips the next instruction when `cond` holds.
pub open spec fn skip_if(s: MachineState, cond: bool) -> MachineState {
    if cond {
        MachineState { pc: (s.pc + 2) as u16, ..s }
    } else {
        s
    }
}

pub open spec fn set_reg(s: MachineState, x: u8, val: u8) -> MachineState {
    MachineState { v: s.v.update(x as int, val), ..s }
}

/// Writes `VX` first and the flag register last, so the flag wins when `x` is 15.
pub open spec fn set_reg_flag(s: MachineState, x: u8, val: u8, flag: u8) -> MachineState {
    MachineState { v: s.v.update(x as int, val).update(FLAG_REG as int, flag), ..s }
}

/// Bit `j % 8` (most significant first) of sprite row `j / 8`, the rows starting at `i`.
pub open spec fn sprite_pixel(mem: Seq<u8>, i: int, j: int) -> bool {
    (mem[i + j / 8] >> ((7 - j % 8) as u8)) & 1u8 == 1u8
}

/// The framebuffer cell hit by sprite pixel `j` drawn at `(cx, cy)`, wrapping in both axes.
pub open spec fn pixel_cell(cx: u8, cy: u8, j: int) -> int {
    (cx + j % 8) % (SCREEN_COLS as int) + ((cy + j / 8) % (SCREEN_ROWS as int)) * (SCREEN_COLS as int)
}

/// Whether one of the first `k` sprite pixels is lit and lands on `cell`.
pub open spec fn sprite_covers(mem: Seq<u8>, i: int, cx: u8, cy: u8, k: int, cell: int) -> bool {
    exists|j: int| 0 <= j < k && #[trigger] sprite_pixel(mem, i, j) && pixel_cell(cx, cy, j) == cell
}

/// The framebuffer after XOR-ing a sprite of `rows` rows onto it.
pub open spec fn drawn_screen(screen: Seq<bool>, mem: Seq<u8>, i: int, cx: u8, cy: u8, rows: int) -> Seq<bool> {
    Seq::new(
        SCREEN_CELLS as nat,
        |c: int| screen[c] != sprite_covers(mem, i, cx, cy, 8 * rows, c),
    )
}

/// Whether drawing the sprite turns some lit cell off.
pub open spec fn sprite_collides(screen: Seq<bool>, mem: Seq<u8>, i: int, cx: u8, cy: u8, rows: int) -> bool {
    exists|j: int| 0 <= j < 8 * rows && #[trigger] sprite_pixel(mem, i, j) && screen[pixel_cell(cx, cy, j)]
}

pub open spec fn any_pressed(keys: Seq<bool>) -> bool {
    exists|k: int| 0 <= k < NUM_KEYS && #[trigger] keys[k]
}

/// The lowest index of a pressed key.
pub open spec fn first_pressed(keys: Seq<bool>) -> int {
    choose|k: int| 0 <= k < NUM_KEYS && #[trigger] keys[k] && forall|m: int| 0 <= m < k ==> !keys[m]
}

/// What executing `ins` does to `s`, a state whose program counter is already past
/// the instruction. `rnd` is the random byte that `Random` uses.
pub open spec fn exec_spec(s: MachineState, ins: Instruction, rnd: u8) -> Result<MachineState, Fault> {
    match ins {
        Instruction::Nop => Ok(s),
        Instruction::ClearScreen => Ok(MachineState { screen: Seq::new(SCREEN_CELLS as nat, |c: int| false), ..s }),
        Instruction::Return => {
            if s.sp == 0 {
                Err(Fault::StackUnderflow)
            } else {
                Ok(MachineState { sp: (s.sp - 1) as u16, pc: s.stack[s.sp - 1], ..s })
            }
        },
        Instruction::Jump { addr } => Ok(MachineState { pc: addr, ..s }),
        Instruction::Call { addr } => {
            if s.sp >= STACK_SIZE {
                Err(Fault::StackOverflow)
            } else {
                Ok(MachineState { stack: s.stack.update(s.sp as int, s.pc), sp: (s.sp + 1) as u16, pc: addr, ..s })
            }
        },
        Instruction::SkipIfEqImm { x, value } => Ok(skip_if(s, s.v[x as int] == value)),
        Instruction::SkipIfNeImm { x, value } => Ok(skip_if(s, s.v[x as int] != value)),
        Instruction::SkipIfEqReg { x, y } => Ok(skip_if(s, s.v[x as int] == s.v[y as int])),
        Instruction::SkipIfNeReg { x, y } => Ok(skip_if(s, s.v[x as int] != s.v[y as int])),
        Instruction::SetImm { x, value } => Ok(set_reg(s, x, value)),
        Instruction::AddImm { x, value } => Ok(set_reg(s, x, ((s.v[x as int] + value) % 256) as u8)),
        Instruction::Assign { x, y } => Ok(set_reg(s, x, s.v[y as int])),
        Instruction::Or { x, y } => Ok(set_reg(s, x, s.v[x as int] | s.v[y as int])),
        Instruction::And { x, y } => Ok(set_reg(s, x, s.v[x as int] & s.v[y as int])),
        Instruction::Xor { x, y } => Ok(set_reg(s, x, s.v[x as int] ^ s.v[y as int])),
        Instruction::AddCarry { x, y } => {
            let sum = s.v[x as int] + s.v[y as int];
            Ok(set_reg_flag(s, x, (sum % 256) as u8, if sum >= 256 { 1 } else { 0 }))
        },
        Instruction::SubBorrow { x, y } => {
            let (a, b) = (s.v[x as int], s.v[y as int]);
            Ok(set_reg_flag(s, x, ((a - b + 256) % 256) as u8, if a >= b { 1 } else { 0 }))
        },
        Instruction::SubReverse { x, y } => {
            let (a, b) = (s.v[x as int], s.v[y as int]);
            Ok(set_reg_flag(s, x, ((b - a + 256) % 256) as u8, if b >= a { 1 } else { 0 }))
        },
        Instruction::ShiftRight { x } => {
            let a = s.v[x as int];
            Ok(set_reg_flag(s, x, a / 2, a % 2))
        },
        Instruction::ShiftLeft { x } => {
            let a = s.v[x as int];
            Ok(set_reg_flag(s, x, ((a * 2) % 256) as u8, a / 128))
        },
        Instruction::SetIndex { addr } => Ok(MachineState { i: addr, ..s }),
        Instruction::Random { x, mask } => Ok(set_reg(s, x, rnd & mask)),
        Instruction::Draw { x, y, rows } => {
            if s.i + rows > RAM_SIZE {
                Err(Fault::MemoryOutOfBounds)
            } else {
                let (cx, cy) = (s.v[x as int], s.v[y as int]);
                let hit = sprite_collides(s.screen, s.memory, s.i as int, cx, cy, rows as int);
                Ok(MachineState {
                    screen: drawn_screen(s.screen, s.memory, s.i as int, cx, cy, rows as int),
                    v: s.v.update(FLAG_REG as int, if hit { 1u8 } else { 0u8 }),
                    ..s
                })
            }
        },
        Instruction::SkipIfKey { x } => {
            let k = s.v[x as int];
            if k >= NUM_KEYS {
                Err(Fault::InvalidKey { key: k })
            } else {
                Ok(skip_if(s, s.keys[k as int]))
            }
        },
        Instruction::SkipIfNotKey { x } => {
            let k = s.v[x as int];
            if k >= NUM_KEYS {
                Err(Fault::InvalidKey { key: k })
            } else {
                Ok(skip_if(s, !s.keys[k as int]))
            }
        },
        Instruction::GetDelay { x } => Ok(set_reg(s, x, s.dt)),
        Instruction::WaitKey { x } => {
            if any_pressed(s.keys) {
                Ok(set_reg(s, x, first_pressed(s.keys) as u8))
            } else {
                Ok(MachineState { pc: (s.pc - 2) as u16, ..s })
            }
        },
        Instruction::SetDelay { x } => Ok(MachineState { dt: s.v[x as int], ..s }),
        Instruction::SetSound { x } => Ok(MachineState { st: s.v[x as int], ..s }),
        Instruction::AddIndex { x } => Ok(MachineState { i: ((s.i + s.v[x as int]) % 65536) as u16, ..s }),
        Instruction::FontGlyph { x } => Ok(MachineState { i: ((s.v[x as int] % 16) * FONT_HEIGHT) as u16, ..s }),
        Instruction::Bcd { x } => {
            if s.i + 3 > RAM_SIZE {
                Err(Fault::MemoryOutOfBounds)
            } else {
                let a = s.v[x as int];
                Ok(MachineState {
                    memory: s.memory.update(s.i as int, a / 100).update(s.i + 1, (a / 10) % 10).update(s.i + 2, a % 10),
                    ..s
                })
            }
        },
        Instruction::StoreRegs { x } => {
            if s.i + x + 1 > RAM_SIZE {
                Err(Fault::MemoryOutOfBounds)
            } else {
                Ok(MachineState {
                    memory: Seq::new(
                        RAM_SIZE as nat,
                        |a: int| if s.i <= a <= s.i + x { s.v[a - s.i] } else { s.memory[a] },
                    ),
                    ..s
                })
            }
        },
        Instruction::LoadRegs { x } => {
            if s.i + x + 1 > RAM_SIZE {
                Err(Fault::MemoryOutOfBounds)
            } else {
                Ok(MachineState {
                    v: Seq::new(NUM_REGS as nat, |r: int| if r <= x { s.memory[s.i + r] } else { s.v[r] }),
                    ..s
                })
            }
        },
    }
}

/// The instruction word at the program counter, if both of its bytes are in memory.
pub open spec fn fetch_spec(s: MachineState) -> Option<u16> {
    if s.pc + 1 < RAM_SIZE {
        Some(instruction_word(s.memory[s.pc as int], s.memory[s.pc + 1]))
    } else {
        None
    }
}

/// One fetch-decode-execute step.
pub open spec fn step_spec(s: MachineState, rnd: u8) -> Result<MachineState, Fault> {
    match fetch_spec(s) {
        None => Err(Fault::MemoryOutOfBounds),
        Some(op) => match decode_spec(op) {
            None => Err(Fault::UnknownInstruction { word: op }),
            Some(ins) => exec_spec(MachineState { pc: (s.pc + 2) as u16, ..s }, ins, rnd),
        },
    }
}

/// `t` and `r` are what a step from `s` leaves: the next state, or a fault and `s` unchanged.
pub open spec fn step_outcome(s: MachineState, rnd: u8, t: MachineState, r: Result<(), Fault>) -> bool {
    match step_spec(s, rnd) {
        Ok(next) => r == Ok::<(), Fault>(()) && t == next,
        Err(e) => r == Err::<(), Fault>(e) && t == s,
    }
}

} // verus!
