//! The interpreter: machine state held in fixed-size arrays, proved against the model.
use vstd::prelude::*;
use crate::instruction::{decode, Instruction};
use crate::laws::{law_sprite_cells, law_step_preserves_wf};
use crate::machine::{
    any_pressed, drawn_screen, exec_spec, fetch_spec, first_pressed, font_glyphs, fresh_state,
    loaded, pixel_cell, sprite_covers, sprite_pixel, step_outcome,
    timers_advanced, Fault, MachineState, FLAG_REG, FONTSET_SIZE, FONT_HEIGHT, NUM_KEYS, RAM_SIZE,
    SCREEN_CELLS, STACK_SIZE, START_ADDR,
};

verus! {

broadcast use vstd::array::group_array_axioms;

/// A CHIP-8 machine: registers, memory, call stack, framebuffer, keypad and timers.
pub struct Emulator {
    pc: u16,
    memory: [u8; 4096],
    v_reg: [u8; 16],
    i_reg: u16,
    sp: u16,
    stack: [u16; 16],
    screen: [bool; 2048],
    keys: [bool; 16],
    dt: u8,
    st: u8,
}

impl View for Emulator {
    type V = MachineState;

    closed spec fn view(&self) -> MachineState {
        MachineState {
            pc: self.pc,
            memory: self.memory@,
            v: self.v_reg@,
            i: self.i_reg,
            sp: self.sp,
            stack: self.stack@,
            screen: self.screen@,
            keys: self.keys@,
            dt: self.dt,
            st: self.st,
        }
    }
}

/// The built-in font as an array.
fn fontset() -> (r: [u8; 80])
    ensures
        r@ == font_glyphs(),
{
    let f: [u8; 80] = [
        0xF0, 0x90, 0x90, 0x90, 0xF0, 0x20, 0x60, 0x20, 0x20, 0x70,
        0xF0, 0x10, 0xF0, 0x80, 0xF0, 0xF0, 0x10, 0xF0, 0x10, 0xF0,
        0x90, 0x90, 0xF0, 0x10, 0x10, 0xF0, 0x80, 0xF0, 0x10, 0xF0,
        0xF0, 0x80, 0xF0, 0x90, 0xF0, 0xF0, 0x10, 0x20, 0x40, 0x40,
        0xF0, 0x90, 0xF0, 0x90, 0xF0, 0xF0, 0x90, 0xF0, 0x10, 0xF0,
        0xF0, 0x90, 0xF0, 0x90, 0x90, 0xE0, 0x90, 0xE0, 0x90, 0xE0,
        0xF0, 0x80, 0x80, 0x80, 0xF0, 0xE0, 0x90, 0x90, 0x90, 0xE0,
        0xF0, 0x80, 0xF0, 0x80, 0xF0, 0xF0, 0x80, 0xF0, 0x80, 0x80,
    ];
    assert(f@ =~= font_glyphs());
    f
}

impl Emulator {
    /// A fresh machine: font at address 0, program counter at the program origin,
    /// everything else zero.
    pub fn new() -> (r: Self)
        ensures
            r@ == fresh_state(),
            r@.wf(),
    {
        let mut memory = [0u8; 4096];
        let font = fontset();
        let mut k: usize = 0;
        while k < FONTSET_SIZE
            invariant
                k <= FONTSET_SIZE,
                font@ == font_glyphs(),
                forall|a: int| 0 <= a < k ==> memory@[a] == font_glyphs()[a],
                forall|a: int| k <= a < RAM_SIZE ==> memory@[a] == 0u8,
            decreases FONTSET_SIZE - k,
        {
            memory[k] = font[k];
            k += 1;
        }
        let emu = Emulator {
            pc: START_ADDR,
            memory,
            v_reg: [0u8; 16],
            i_reg: 0,
            sp: 0,
            stack: [0u16; 16],
            screen: [false; 2048],
            keys: [false; 16],
            dt: 0,
            st: 0,
        };
        proof {
            let f = fresh_state();
            assert(emu.memory@ =~= f.memory);
            assert(emu.v_reg@ =~= f.v);
            assert(emu.stack@ =~= f.stack);
            assert(emu.screen@ =~= f.screen);
            assert(emu.keys@ =~= f.keys);
        }
        emu
    }

    /// Returns the machine to the state of a fresh one, whatever happened before.
    pub fn reset(&mut self)
        ensures
            final(self)@ == fresh_state(),
            final(self)@.wf(),
    {
        *self = Emulator::new();
    }

    /// The framebuffer, row-major, 64 cells per row.
    pub fn get_display(&self) -> (r: &[bool])
        ensures
            r@ == self@.screen,
            r@.len() == SCREEN_CELLS,
    {
        self.screen.as_slice()
    }

    /// Marks keypad slot `idx` pressed or released.
    pub fn keypress(&mut self, idx: usize, is_pressed: bool)
        requires
            idx < NUM_KEYS,
        ensures
            final(self)@ == (MachineState { keys: old(self)@.keys.update(idx as int, is_pressed), ..old(self)@ }),
    {
        self.keys[idx] = is_pressed;
    }

    /// Copies a program to memory at the program origin. A program longer than the
    /// space from there to the end of memory is refused, and nothing is written.
    pub fn load_to_memory(&mut self, data: &[u8]) -> (r: Result<(), Fault>)
        ensures
            data@.len() <= RAM_SIZE - START_ADDR ==> r is Ok && final(self)@ == loaded(old(self)@, data@),
            data@.len() > RAM_SIZE - START_ADDR ==> r == Err::<(), Fault>(Fault::ProgramTooLarge)
                && final(self)@ == old(self)@,
    {
        let start = START_ADDR as usize;
        if data.len() > RAM_SIZE - start {
            return Err(Fault::ProgramTooLarge);
        }
        let ghost old_mem = self.memory@;
        let mut k: usize = 0;
        while k < data.len()
            invariant
                k <= data@.len(),
                start == START_ADDR,
                data@.len() <= RAM_SIZE - start,
                self.pc == old(self).pc,
                self.v_reg == old(self).v_reg,
                self.i_reg == old(self).i_reg,
                self.sp == old(self).sp,
                self.stack == old(self).stack,
                self.screen == old(self).screen,
                self.keys == old(self).keys,
                self.dt == old(self).dt,
                self.st == old(self).st,
                old_mem == old(self).memory@,
                forall|a: int|
                    0 <= a < RAM_SIZE ==> self.memory@[a] == (if start <= a < start + k {
                        data@[a - start]
                    } else {
                        old_mem[a]
                    }),
            decreases data@.len() - k,
        {
            self.memory[start + k] = data[k];
            k += 1;
        }
        assert(self.memory@ =~= loaded(old(self)@, data@).memory);
        Ok(())
    }

    /// Advances both timers by one tick, each stopping at zero. Returns whether
    /// to beep: the sound timer was at 1 and has just run out.
    pub fn timer_tick(&mut self) -> (beep: bool)
        ensures
            final(self)@ == timers_advanced(old(self)@),
            beep == (old(self)@.st == 1),
    {
        if self.dt > 0 {
            self.dt -= 1;
        }
        let mut beep = false;
        if self.st > 0 {
            if self.st == 1 {
                beep = true;
            }
            self.st -= 1;
        }
        beep
    }

    /// Reads the instruction word at the program counter and moves past it.
    fn fetch(&mut self) -> (r: Result<u16, Fault>)
        ensures
            match fetch_spec(old(self)@) {
                Some(op) => r == Ok::<u16, Fault>(op)
                    && final(self)@ == (MachineState { pc: (old(self)@.pc + 2) as u16, ..old(self)@ }),
                None => r == Err::<u16, Fault>(Fault::MemoryOutOfBounds) && final(self)@ == old(self)@,
            },
    {
        if self.pc as usize + 1 >= RAM_SIZE {
            return Err(Fault::MemoryOutOfBounds);
        }
        let hi = self.memory[self.pc as usize];
        let lo = self.memory[self.pc as usize + 1];
        let opcode = ((hi as u16) << 8u16) | (lo as u16);
        self.pc += 2;
        Ok(opcode)
    }

    /// Pushes a return address.
    fn push(&mut self, x: u16) -> (r: Result<(), Fault>)
        requires
            old(self)@.wf(),
        ensures
            old(self).sp >= STACK_SIZE ==> r == Err::<(), Fault>(Fault::StackOverflow) && final(self)@ == old(self)@,
            old(self).sp < STACK_SIZE ==> r is Ok && final(self)@ == (MachineState {
                stack: old(self)@.stack.update(old(self).sp as int, x),
                sp: (old(self).sp + 1) as u16,
                ..old(self)@
            }),
    {
        if self.sp as usize >= STACK_SIZE {
            return Err(Fault::StackOverflow);
        }
        self.stack[self.sp as usize] = x;
        self.sp += 1;
        Ok(())
    }

    /// Pops the most recent return address.
    fn pop(&mut self) -> (r: Result<u16, Fault>)
        requires
            old(self)@.wf(),
        ensures
            old(self).sp == 0 ==> r == Err::<u16, Fault>(Fault::StackUnderflow) && final(self)@ == old(self)@,
            old(self).sp > 0 ==> r == Ok::<u16, Fault>(old(self)@.stack[old(self).sp - 1])
                && final(self)@ == (MachineState { sp: (old(self).sp - 1) as u16, ..old(self)@ }),
    {
        if self.sp == 0 {
            return Err(Fault::StackUnderflow);
        }
        self.sp -= 1;
        Ok(self.stack[self.sp as usize])
    }
    /// Executes one decoded instruction; the program counter is already past it.
    /// On a fault nothing changes.
    fn execute(&mut self, ins: Instruction, rnd: u8) -> (r: Result<(), Fault>)
        requires
            old(self)@.wf(),
            ins.wf(),
            2 <= old(self).pc <= RAM_SIZE,
        ensures
            match exec_spec(old(self)@, ins, rnd) {
                Ok(t) => r is Ok && final(self)@ == t,
                Err(e) => r == Err::<(), Fault>(e) && final(self)@ == old(self)@,
            },
    {
        match ins {
            Instruction::Nop
            | Instruction::ClearScreen
            | Instruction::Return
            | Instruction::Jump { .. }
            | Instruction::Call { .. }
            | Instruction::SkipIfEqImm { .. }
            | Instruction::SkipIfNeImm { .. }
            | Instruction::SkipIfEqReg { .. }
            | Instruction::SkipIfNeReg { .. }
            | Instruction::SkipIfKey { .. }
            | Instruction::SkipIfNotKey { .. }
            | Instruction::WaitKey { .. } => self.execute_control(ins),
            Instruction::SetImm { .. }
            | Instruction::AddImm { .. }
            | Instruction::Assign { .. }
            | Instruction::Or { .. }
            | Instruction::And { .. }
            | Instruction::Xor { .. }
            | Instruction::AddCarry { .. }
            | Instruction::SubBorrow { .. }
            | Instruction::SubReverse { .. }
            | Instruction::ShiftRight { .. }
            | Instruction::ShiftLeft { .. }
            | Instruction::Random { .. }
            | Instruction::GetDelay { .. } => self.execute_arithmetic(ins, rnd),
            _ => self.execute_memory(ins),
        }
    }

    /// Control flow: jumps, calls, returns, skips, key waits, clearing the screen.
    fn execute_control(&mut self, ins: Instruction) -> (r: Result<(), Fault>)
        requires
            old(self)@.wf(),
            ins.wf(),
            2 <= old(self).pc <= RAM_SIZE,
            ins is Nop
                || ins is ClearScreen
                || ins is Return
                || ins is Jump
                || ins is Call
                || ins is SkipIfEqImm
                || ins is SkipIfNeImm
                || ins is SkipIfEqReg
                || ins is SkipIfNeReg
                || ins is SkipIfKey
                || ins is SkipIfNotKey
                || ins is WaitKey,
        ensures
            match exec_spec(old(self)@, ins, 0) {
                Ok(t) => r is Ok && final(self)@ == t,
                Err(e) => r == Err::<(), Fault>(e) && final(self)@ == old(self)@,
            },
    {
        match ins {
            Instruction::Nop => Ok(()),
            Instruction::ClearScreen => {
                self.screen = [false; 2048];
                assert(self.screen@ =~= Seq::new(SCREEN_CELLS as nat, |c: int| false));
                Ok(())
            },
            Instruction::Return => match self.pop() {
                Ok(addr) => {
                    self.pc = addr;
                    Ok(())
                },
                Err(e) => Err(e),
            },
            Instruction::Jump { addr } => {
                self.pc = addr;
                Ok(())
            },
            Instruction::Call { addr } => {
                let pc = self.pc;
                match self.push(pc) {
                    Ok(()) => {
                        self.pc = addr;
                        Ok(())
                    },
                    Err(e) => Err(e),
                }
            },
            Instruction::SkipIfEqImm { x, value } => {
                if self.v_reg[x as usize] == value {
                    self.pc += 2;
                }
                Ok(())
            },
            Instruction::SkipIfNeImm { x, value } => {
                if self.v_reg[x as usize] != value {
                    self.pc += 2;
                }
                Ok(())
            },
            Instruction::SkipIfEqReg { x, y } => {
                if self.v_reg[x as usize] == self.v_reg[y as usize] {
                    self.pc += 2;
                }
                Ok(())
            },
            Instruction::SkipIfNeReg { x, y } => {
                if self.v_reg[x as usize] != self.v_reg[y as usize] {
                    self.pc += 2;
                }
                Ok(())
            },
            Instruction::SkipIfKey { x } => {
                let k = self.v_reg[x as usize];
                if k as usize >= NUM_KEYS {
                    return Err(Fault::InvalidKey { key: k });
                }
                if self.keys[k as usize] {
                    self.pc += 2;
                }
                Ok(())
            },
            Instruction::SkipIfNotKey { x } => {
                let k = self.v_reg[x as usize];
                if k as usize >= NUM_KEYS {
                    return Err(Fault::InvalidKey { key: k });
                }
                if !self.keys[k as usize] {
                    self.pc += 2;
                }
                Ok(())
            },
            Instruction::WaitKey { x } => {
                self.wait_key(x);
                Ok(())
            },
            // the precondition leaves out every other form
            _ => {
                assert(false);
                Ok(())
            },
        }
    }

    /// Register arithmetic and loads into registers.
    fn execute_arithmetic(&mut self, ins: Instruction, rnd: u8) -> (r: Result<(), Fault>)
        requires
            old(self)@.wf(),
            ins.wf(),
            2 <= old(self).pc <= RAM_SIZE,
            ins is SetImm
                || ins is AddImm
                || ins is Assign
                || ins is Or
                || ins is And
                || ins is Xor
                || ins is AddCarry
                || ins is SubBorrow
                || ins is SubReverse
                || ins is ShiftRight
                || ins is ShiftLeft
                || ins is Random
                || ins is GetDelay,
        ensures
            match exec_spec(old(self)@, ins, rnd) {
                Ok(t) => r is Ok && final(self)@ == t,
                Err(e) => r == Err::<(), Fault>(e) && final(self)@ == old(self)@,
            },
    {
        match ins {
            Instruction::SetImm { x, value } => {
                self.v_reg[x as usize] = value;
                Ok(())
            },
            Instruction::AddImm { x, value } => {
                self.v_reg[x as usize] = self.v_reg[x as usize].wrapping_add(value);
                Ok(())
            },
            Instruction::Assign { x, y } => {
                self.v_reg[x as usize] = self.v_reg[y as usize];
                Ok(())
            },
            Instruction::Or { x, y } => {
                self.v_reg[x as usize] = self.v_reg[x as usize] | self.v_reg[y as usize];
                Ok(())
            },
            Instruction::And { x, y } => {
                self.v_reg[x as usize] = self.v_reg[x as usize] & self.v_reg[y as usize];
                Ok(())
            },
            Instruction::Xor { x, y } => {
                self.v_reg[x as usize] = self.v_reg[x as usize] ^ self.v_reg[y as usize];
                Ok(())
            },
            Instruction::AddCarry { x, y } => {
                let sum = self.v_reg[x as usize] as u16 + self.v_reg[y as usize] as u16;
                self.v_reg[x as usize] = (sum % 256) as u8;
                self.v_reg[FLAG_REG] = if sum >= 256 { 1 } else { 0 };
                Ok(())
            },
            Instruction::SubBorrow { x, y } => {
                let (a, b) = (self.v_reg[x as usize], self.v_reg[y as usize]);
                self.v_reg[x as usize] = a.wrapping_sub(b);
                self.v_reg[FLAG_REG] = if a >= b { 1 } else { 0 };
                Ok(())
            },
            Instruction::SubReverse { x, y } => {
                let (a, b) = (self.v_reg[x as usize], self.v_reg[y as usize]);
                self.v_reg[x as usize] = b.wrapping_sub(a);
                self.v_reg[FLAG_REG] = if b >= a { 1 } else { 0 };
                Ok(())
            },
            Instruction::ShiftRight { x } => {
                let a = self.v_reg[x as usize];
                self.v_reg[x as usize] = a / 2;
                self.v_reg[FLAG_REG] = a % 2;
                Ok(())
            },
            Instruction::ShiftLeft { x } => {
                let a = self.v_reg[x as usize];
                self.v_reg[x as usize] = ((a as u16 * 2) % 256) as u8;
                self.v_reg[FLAG_REG] = a / 128;
                Ok(())
            },
            Instruction::Random { x, mask } => {
                self.v_reg[x as usize] = rnd & mask;
                Ok(())
            },
            Instruction::GetDelay { x } => {
                self.v_reg[x as usize] = self.dt;
                Ok(())
            },
            // the precondition leaves out every other form
            _ => {
                assert(false);
                Ok(())
            },
        }
    }

    /// Index register, timers, memory and the framebuffer.
    fn execute_memory(&mut self, ins: Instruction) -> (r: Result<(), Fault>)
        requires
            old(self)@.wf(),
            ins.wf(),
            2 <= old(self).pc <= RAM_SIZE,
            ins is SetIndex
                || ins is Draw
                || ins is SetDelay
                || ins is SetSound
                || ins is AddIndex
                || ins is FontGlyph
                || ins is Bcd
                || ins is StoreRegs
                || ins is LoadRegs,
        ensures
            match exec_spec(old(self)@, ins, 0) {
                Ok(t) => r is Ok && final(self)@ == t,
                Err(e) => r == Err::<(), Fault>(e) && final(self)@ == old(self)@,
            },
    {
        match ins {
            Instruction::SetIndex { addr } => {
                self.i_reg = addr;
                Ok(())
            },
            Instruction::Draw { x, y, rows } => self.draw_sprite(x, y, rows),
            Instruction::SetDelay { x } => {
                self.dt = self.v_reg[x as usize];
                Ok(())
            },
            Instruction::SetSound { x } => {
                self.st = self.v_reg[x as usize];
                Ok(())
            },
            Instruction::AddIndex { x } => {
                self.i_reg = self.i_reg.wrapping_add(self.v_reg[x as usize] as u16);
                Ok(())
            },
            Instruction::FontGlyph { x } => {
                self.i_reg = (self.v_reg[x as usize] % 16) as u16 * FONT_HEIGHT;
                Ok(())
            },
            Instruction::Bcd { x } => {
                let i = self.i_reg as usize;
                if i + 3 > RAM_SIZE {
                    return Err(Fault::MemoryOutOfBounds);
                }
                let a = self.v_reg[x as usize];
                self.memory[i] = a / 100;
                self.memory[i + 1] = (a / 10) % 10;
                self.memory[i + 2] = a % 10;
                Ok(())
            },
            Instruction::StoreRegs { x } => self.store_registers(x),
            Instruction::LoadRegs { x } => self.load_registers(x),
            // the precondition leaves out every other form
            _ => {
                assert(false);
                Ok(())
            },
        }
    }

    /// Stores the index of the lowest pressed key in `VX`; with no key pressed,
    /// moves the program counter back so that the same instruction runs again.
    fn wait_key(&mut self, x: u8)
        requires
            x < 16,
            2 <= old(self).pc,
        ensures
            exec_spec(old(self)@, Instruction::WaitKey { x }, 0) == Ok::<MachineState, Fault>(final(self)@),
    {
        let keys = self.keys;
        let mut k: usize = 0;
        while k < NUM_KEYS && !keys[k]
            invariant
                k <= NUM_KEYS,
                forall|m: int| 0 <= m < k ==> !keys@[m],
            decreases NUM_KEYS - k,
        {
            k += 1;
        }
        if k < NUM_KEYS {
            proof {
                assert(keys@[k as int]);
                assert(any_pressed(keys@));
                let f = first_pressed(keys@);
                assert(0 <= k < NUM_KEYS && keys@[k as int] && forall|m: int| 0 <= m < k ==> !keys@[m]);
                assert(0 <= f < NUM_KEYS && keys@[f] && forall|m: int| 0 <= m < f ==> !keys@[m]);
                assert(f == k);
            }
            self.v_reg[x as usize] = k as u8;
        } else {
            assert(!any_pressed(keys@));
            self.pc -= 2;
        }
    }

    /// Copies `V0..=VX` to memory from `I` on.
    fn store_registers(&mut self, x: u8) -> (r: Result<(), Fault>)
        requires
            old(self)@.wf(),
            x < 16,
        ensures
            match exec_spec(old(self)@, Instruction::StoreRegs { x }, 0) {
                Ok(t) => r is Ok && final(self)@ == t,
                Err(e) => r == Err::<(), Fault>(e) && final(self)@ == old(self)@,
            },
    {
        let i = self.i_reg as usize;
        if i + x as usize + 1 > RAM_SIZE {
            return Err(Fault::MemoryOutOfBounds);
        }
        let ghost old_mem = self.memory@;
        let mut k: usize = 0;
        while k <= x as usize
            invariant
                k <= x + 1,
                x < 16,
                i == old(self).i_reg,
                i + x + 1 <= RAM_SIZE,
                self.pc == old(self).pc,
                self.v_reg == old(self).v_reg,
                self.i_reg == old(self).i_reg,
                self.sp == old(self).sp,
                self.stack == old(self).stack,
                self.screen == old(self).screen,
                self.keys == old(self).keys,
                self.dt == old(self).dt,
                self.st == old(self).st,
                old_mem == old(self).memory@,
                forall|a: int|
                    0 <= a < RAM_SIZE ==> self.memory@[a] == (if i <= a < i + k {
                        self.v_reg@[a - i]
                    } else {
                        old_mem[a]
                    }),
            decreases x + 1 - k,
        {
            self.memory[i + k] = self.v_reg[k];
            k += 1;
        }
        assert(self.memory@ =~= Seq::new(
            RAM_SIZE as nat,
            |a: int| if i <= a <= i + x { old(self)@.v[a - i] } else { old_mem[a] },
        ));
        Ok(())
    }

    /// Copies memory from `I` on into `V0..=VX`.
    fn load_registers(&mut self, x: u8) -> (r: Result<(), Fault>)
        requires
            old(self)@.wf(),
            x < 16,
        ensures
            match exec_spec(old(self)@, Instruction::LoadRegs { x }, 0) {
                Ok(t) => r is Ok && final(self)@ == t,
                Err(e) => r == Err::<(), Fault>(e) && final(self)@ == old(self)@,
            },
    {
        let i = self.i_reg as usize;
        if i + x as usize + 1 > RAM_SIZE {
            return Err(Fault::MemoryOutOfBounds);
        }
        let ghost old_v = self.v_reg@;
        let mut k: usize = 0;
        while k <= x as usize
            invariant
                k <= x + 1,
                x < 16,
                i == old(self).i_reg,
                i + x + 1 <= RAM_SIZE,
                self.pc == old(self).pc,
                self.memory == old(self).memory,
                self.i_reg == old(self).i_reg,
                self.sp == old(self).sp,
                self.stack == old(self).stack,
                self.screen == old(self).screen,
                self.keys == old(self).keys,
                self.dt == old(self).dt,
                self.st == old(self).st,
                old_v == old(self).v_reg@,
                forall|r: int|
                    0 <= r < 16 ==> self.v_reg@[r] == (if r < k { self.memory@[i + r] } else { old_v[r] }),
            decreases x + 1 - k,
        {
            self.v_reg[k] = self.memory[i + k];
            k += 1;
        }
        assert(self.v_reg@ =~= Seq::new(
            16,
            |r: int| if r <= x { old(self)@.memory[i + r] } else { old_v[r] },
        ));
        Ok(())
    }

    /// XORs an `rows`-row sprite read from `I` onto the framebuffer at `(VX, VY)`,
    /// wrapping in both axes, and sets the flag register to whether a lit cell went dark.
    fn draw_sprite(&mut self, x: u8, y: u8, rows: u8) -> (r: Result<(), Fault>)
        requires
            old(self)@.wf(),
            x < 16,
            y < 16,
            rows < 16,
        ensures
            match exec_spec(old(self)@, Instruction::Draw { x, y, rows }, 0) {
                Ok(t) => r is Ok && final(self)@ == t,
                Err(e) => r == Err::<(), Fault>(e) && final(self)@ == old(self)@,
            },
    {
        let cx = self.v_reg[x as usize];
        let cy = self.v_reg[y as usize];
        let i = self.i_reg as usize;
        if i + rows as usize > RAM_SIZE {
            return Err(Fault::MemoryOutOfBounds);
        }
        let ghost mem = self.memory@;
        let ghost old_screen = self.screen@;
        let total: usize = rows as usize * 8;
        let mut screen = self.screen;
        let mut flipped = false;
        let mut k: usize = 0;
        while k < total
            invariant
                k <= total,
                total == 8 * rows,
                rows < 16,
                i + rows <= RAM_SIZE,
                mem == self.memory@,
                old_screen == self.screen@,
                screen@ == Seq::new(
                    SCREEN_CELLS as nat,
                    |c: int| old_screen[c] != sprite_covers(mem, i as int, cx, cy, k as int, c),
                ),
                flipped == exists|j: int|
                    0 <= j < k && #[trigger] sprite_pixel(mem, i as int, j) && old_screen[pixel_cell(cx, cy, j)],
            decreases total - k,
        {
            let row = k / 8;
            let col = k % 8;
            let pixels = self.memory[i + row];
            if (pixels >> ((7 - col) as u8)) & 1u8 == 1u8 {
                let px = (cx as usize + col) % 64;
                let py = (cy as usize + row) % 32;
                let c = px + py * 64;
                proof {
                    assert(sprite_pixel(mem, i as int, k as int));
                    assert(c == pixel_cell(cx, cy, k as int));
                    assert forall|j: int| 0 <= j < k implies pixel_cell(cx, cy, j) != c by {
                        law_sprite_cells(cx, cy, j, k as int);
                    }
                    law_sprite_cells(cx, cy, k as int, k as int + 1);
                    assert(screen@[c as int] == old_screen[c as int]);
                }
                let ghost before = screen@;
                flipped = flipped || screen[c];
                screen[c] = !screen[c];
                proof {
                    assert(screen@ =~= Seq::new(
                        SCREEN_CELLS as nat,
                        |d: int| old_screen[d] != sprite_covers(mem, i as int, cx, cy, k + 1, d),
                    )) by {
                        assert forall|d: int| 0 <= d < SCREEN_CELLS implies
                            sprite_covers(mem, i as int, cx, cy, k + 1, d)
                            == (sprite_covers(mem, i as int, cx, cy, k as int, d) || d == c) by {
                            if d == c {
                                assert(sprite_pixel(mem, i as int, k as int));
                            }
                        }
                    }
                }
            } else {
                proof {
                    assert forall|d: int| 0 <= d < SCREEN_CELLS implies
                        sprite_covers(mem, i as int, cx, cy, k + 1, d)
                        == sprite_covers(mem, i as int, cx, cy, k as int, d) by {
                    }
                    assert(screen@ =~= Seq::new(
                        SCREEN_CELLS as nat,
                        |d: int| old_screen[d] != sprite_covers(mem, i as int, cx, cy, k + 1, d),
                    ));
                }
            }
            k += 1;
        }
        self.screen = screen;
        self.v_reg[FLAG_REG] = if flipped { 1 } else { 0 };
        proof {
            assert(self.v_reg@ =~= old(self)@.v.update(FLAG_REG as int, if flipped { 1u8 } else { 0u8 }));
            assert(self.screen@ =~= drawn_screen(old_screen, mem, i as int, cx, cy, rows as int));
        }
        Ok(())
    }
    /// Runs one fetch-decode-execute step with `random` as the byte that a random
    /// instruction draws. On a fault the machine is left exactly as it was.
    pub fn step(&mut self, random: u8) -> (r: Result<(), Fault>)
        requires
            old(self)@.wf(),
        ensures
            step_outcome(old(self)@, random, final(self)@, r),
            final(self)@.wf(),
    {
        let start_pc = self.pc;
        let op = match self.fetch() {
            Ok(op) => op,
            Err(e) => return Err(e),
        };
        let r = match decode(op) {
            None => {
                self.pc = start_pc;
                Err(Fault::UnknownInstruction { word: op })
            },
            Some(ins) => match self.execute(ins, random) {
                Ok(()) => Ok(()),
                Err(e) => {
                    self.pc = start_pc;
                    Err(e)
                },
            },
        };
        proof {
            law_step_preserves_wf(old(self)@, random);
        }
        r
    }

    /// Runs one step, drawing a fresh random byte for it.
    pub fn tick(&mut self) -> (r: Result<(), Fault>)
        requires
            old(self)@.wf(),
        ensures
            exists|b: u8| step_outcome(old(self)@, b, final(self)@, r),
            final(self)@.wf(),
    {
        let b = random_byte();
        let r = self.step(b);
        assert(step_outcome(old(self)@, b, final(self)@, r));
        r
    }

    /// Register `VX`.
    pub fn register(&self, x: usize) -> (r: u8)
        requires
            x < 16,
        ensures
            r == self@.v[x as int],
    {
        self.v_reg[x]
    }

    /// The memory byte at `addr`.
    pub fn memory_byte(&self, addr: usize) -> (r: u8)
        requires
            addr < RAM_SIZE,
        ensures
            r == self@.memory[addr as int],
    {
        self.memory[addr]
    }

    /// Keypad slot `idx`: whether it is pressed.
    pub fn key(&self, idx: usize) -> (r: bool)
        requires
            idx < NUM_KEYS,
        ensures
            r == self@.keys[idx as int],
    {
        self.keys[idx]
    }

    /// The program counter.
    pub fn program_counter(&self) -> (r: u16)
        ensures
            r == self@.pc,
    {
        self.pc
    }

    /// The index register `I`.
    pub fn index_register(&self) -> (r: u16)
        ensures
            r == self@.i,
    {
        self.i_reg
    }

    /// The number of return addresses on the stack.
    pub fn stack_pointer(&self) -> (r: u16)
        ensures
            r == self@.sp,
    {
        self.sp
    }

    /// The delay timer.
    pub fn delay_timer(&self) -> (r: u8)
        ensures
            r == self@.dt,
    {
        self.dt
    }

    /// The sound timer.
    pub fn sound_timer(&self) -> (r: u8)
        ensures
            r == self@.st,
    {
        self.st
    }
}

/// Relies on `rand::random::<u8>`: a byte drawn from the thread-local generator.
/// Nothing is promised of its value.
#[verifier::external_body]
fn random_byte() -> u8 {
    rand::random::<u8>()
}

} // verus!
