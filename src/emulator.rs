use vstd::prelude::*;

use crate::font::{font, font_table, FONT_SIZE};
use crate::instruction::{decode, decoded, Instruction};
use crate::machine::{
    blank_screen, covers, drawn, executed, fetched, initial_state, lemma_bit_of_pixel,
    lemma_pixel_of_bit, loaded, popped, pushed, sprite_col, sprite_fits, sprite_row, ticked,
    EmuError, MachineState, FLAG_REG, NUM_KEYS, NUM_REGS, RAM_SIZE, SCREEN_HEIGHT, SCREEN_SIZE,
    SCREEN_WIDTH, STACK_SIZE, START_ADDR,
};

verus! {

/// A CHIP-8 machine: memory, registers, stack, timers, display and keys.
pub struct Emulator {
    ram: [u8; RAM_SIZE],
    v_reg: [u8; NUM_REGS],
    i_reg: u16,
    stack: [u16; STACK_SIZE],
    pc: u16,
    sp: u16,
    screen: [bool; SCREEN_SIZE],
    keys: [bool; NUM_KEYS],
    st: u8,
    dt: u8,
}

impl View for Emulator {
    type V = MachineState;

    closed spec fn view(&self) -> MachineState {
        MachineState {
            ram: self.ram@,
            v: self.v_reg@,
            i: self.i_reg,
            pc: self.pc,
            stack: self.stack@,
            sp: self.sp,
            screen: self.screen@,
            keys: self.keys@,
            dt: self.dt,
            st: self.st,
        }
    }
}

impl Emulator {
    /// The machine's state is well formed.
    pub open spec fn wf(&self) -> bool {
        self@.wf()
    }

    /// A fresh machine, as `initial_state` describes it.
    pub fn new() -> (r: Self)
        ensures
            r@ == initial_state(),
            r.wf(),
    {
        let mut e = Emulator {
            pc: START_ADDR,
            ram: [0; RAM_SIZE],
            screen: [false; SCREEN_SIZE],
            keys: [false; NUM_KEYS],
            i_reg: 0,
            v_reg: [0; NUM_REGS],
            stack: [0; STACK_SIZE],
            sp: 0,
            dt: 0,
            st: 0,
        };
        let table = font_table();
        let mut k: usize = 0;
        while k < FONT_SIZE
            invariant
                k <= FONT_SIZE,
                table@ == font(),
                e.ram@.len() == RAM_SIZE,
                forall|j: int| 0 <= j < k ==> e.ram@[j] == font()[j],
                forall|j: int| k <= j < RAM_SIZE ==> e.ram@[j] == 0u8,
                e.pc == START_ADDR,
                e.i_reg == 0,
                e.sp == 0,
                e.dt == 0,
                e.st == 0,
                e.screen@ == blank_screen(),
                e.keys@ == Seq::new(NUM_KEYS as nat, |j: int| false),
                e.v_reg@ == Seq::new(NUM_REGS as nat, |j: int| 0u8),
                e.stack@ == Seq::new(STACK_SIZE as nat, |j: int| 0u16),
            decreases FONT_SIZE - k,
        {
            e.ram[k] = table[k];
            k = k + 1;
        }
        assert(e.ram@ =~= initial_state().ram);
        e
    }

    /// The display, row-major, one entry per pixel, `true` where it is lit.
    pub fn get_display(&self) -> (r: &[bool])
        ensures
            r@ == self@.screen,
    {
        self.screen.as_slice()
    }

    /// Reads the big-endian opcode at PC and moves PC past it.
    pub fn fetch(&mut self) -> (r: Result<u16, EmuError>)
        ensures
            match fetched(old(self)@) {
                Ok((op, t)) => r == Ok::<u16, EmuError>(op) && final(self)@ == t,
                Err(e) => r == Err::<u16, EmuError>(e) && final(self)@ == old(self)@,
            },
    {
        if self.pc as usize + 1 >= RAM_SIZE {
            return Err(EmuError::FetchOutOfBounds { pc: self.pc });
        }
        let high = self.ram[self.pc as usize] as u16;
        let low = self.ram[self.pc as usize + 1] as u16;
        let opcode = (high << 8) | low;
        proof {
            assert((high << 8u16) | low == high * 256 + low) by (bit_vector)
                requires
                    high < 256,
                    low < 256,
            ;
        }
        self.pc = self.pc + 2;
        Ok(opcode)
    }

    /// Pushes a return address onto the stack.
    pub fn push(&mut self, val: u16) -> (r: Result<(), EmuError>)
        requires
            old(self).wf(),
        ensures
            final(self).wf(),
            match pushed(old(self)@, val) {
                Ok(t) => r == Ok::<(), EmuError>(()) && final(self)@ == t,
                Err(e) => r == Err::<(), EmuError>(e) && final(self)@ == old(self)@,
            },
    {
        if self.sp as usize >= STACK_SIZE {
            return Err(EmuError::StackOverflow);
        }
        self.stack[self.sp as usize] = val;
        self.sp = self.sp + 1;
        Ok(())
    }

    /// Pops the most recently pushed return address.
    pub fn pop(&mut self) -> (r: Result<u16, EmuError>)
        requires
            old(self).wf(),
        ensures
            final(self).wf(),
            match popped(old(self)@) {
                Ok((val, t)) => r == Ok::<u16, EmuError>(val) && final(self)@ == t,
                Err(e) => r == Err::<u16, EmuError>(e) && final(self)@ == old(self)@,
            },
    {
        if self.sp == 0 {
            return Err(EmuError::StackUnderflow);
        }
        self.sp = self.sp - 1;
        Ok(self.stack[self.sp as usize])
    }

    /// Copies a program into memory at the start address.
    pub fn load(&mut self, data: &[u8]) -> (r: Result<(), EmuError>)
        requires
            old(self).wf(),
        ensures
            final(self).wf(),
            match loaded(old(self)@, data@) {
                Ok(t) => r == Ok::<(), EmuError>(()) && final(self)@ == t,
                Err(e) => r == Err::<(), EmuError>(e) && final(self)@ == old(self)@,
            },
    {
        let start = START_ADDR as usize;
        if data.len() > RAM_SIZE - start {
            return Err(EmuError::LoadOutOfBounds { len: data.len() });
        }
        let ghost before = self.ram@;
        let mut k: usize = 0;
        while k < data.len()
            invariant
                k <= data@.len(),
                start == START_ADDR,
                start + data@.len() <= RAM_SIZE,
                self.ram@.len() == RAM_SIZE,
                forall|j: int|
                    0 <= j < RAM_SIZE ==> #[trigger] self.ram@[j] == if start <= j < start + k {
                        data@[j - start]
                    } else {
                        before[j]
                    },
                self@ == (MachineState { ram: self.ram@, ..old(self)@ }),
            decreases data@.len() - k,
        {
            self.ram[start + k] = data[k];
            k = k + 1;
        }
        proof {
            let t = loaded(old(self)@, data@)->Ok_0;
            assert(self.ram@ =~= t.ram);
        }
        Ok(())
    }

    /// One instruction cycle: fetches the opcode at PC and executes it. A
    /// cycle that fails changes nothing, so PC still points at the culprit.
    pub fn tick(&mut self) -> (r: Result<(), EmuError>)
        requires
            old(self).wf(),
        ensures
            final(self).wf(),
            match ticked(old(self)@) {
                Ok(t) => r == Ok::<(), EmuError>(()) && final(self)@ == t,
                Err(e) => r == Err::<(), EmuError>(e) && final(self)@ == old(self)@,
            },
    {
        let pc = self.pc;
        let opcode = match self.fetch() {
            Ok(op) => op,
            Err(e) => {
                return Err(e);
            },
        };
        match self.execute(opcode) {
            Ok(()) => Ok(()),
            Err(e) => {
                self.pc = pc;
                Err(e)
            },
        }
    }

    /// The program counter.
    pub fn pc(&self) -> (r: u16)
        ensures
            r == self@.pc,
    {
        self.pc
    }

    /// The index register I.
    pub fn index(&self) -> (r: u16)
        ensures
            r == self@.i,
    {
        self.i_reg
    }

    /// The stack pointer.
    pub fn sp(&self) -> (r: u16)
        ensures
            r == self@.sp,
    {
        self.sp
    }

    /// Register V`x`.
    pub fn register(&self, x: usize) -> (r: u8)
        requires
            x < NUM_REGS,
        ensures
            r == self@.v[x as int],
    {
        self.v_reg[x]
    }

    /// The byte at `addr`.
    pub fn memory(&self, addr: usize) -> (r: u8)
        requires
            addr < RAM_SIZE,
        ensures
            r == self@.ram[addr as int],
    {
        self.ram[addr]
    }

    /// Executes one opcode; an opcode that matches no implemented instruction,
    /// or a sprite that would be read past memory, is reported and changes nothing.
    pub fn execute(&mut self, opcode: u16) -> (r: Result<(), EmuError>)
        requires
            old(self).wf(),
        ensures
            final(self).wf(),
            match executed(old(self)@, decoded(opcode)) {
                Ok(t) => r == Ok::<(), EmuError>(()) && final(self)@ == t,
                Err(e) => r == Err::<(), EmuError>(e) && final(self)@ == old(self)@,
            },
    {
        match decode(opcode) {
            Instruction::Cls => {
                self.screen = [false; SCREEN_SIZE];
                assert(self.screen@ =~= blank_screen());
            },
            Instruction::Jp { nnn } => {
                self.pc = nnn;
            },
            Instruction::Ld { x, kk } => {
                self.v_reg[x as usize] = kk;
            },
            Instruction::Add { x, kk } => {
                self.v_reg[x as usize] = self.v_reg[x as usize].wrapping_add(kk);
            },
            Instruction::LdI { nnn } => {
                self.i_reg = nnn;
            },
            Instruction::Drw { x, y, n } => {
                if self.i_reg as usize + n as usize > RAM_SIZE {
                    return Err(EmuError::SpriteOutOfBounds { i: self.i_reg, rows: n });
                }
                self.draw(x, y, n);
            },
            Instruction::Unsupported { opcode } => {
                return Err(EmuError::UnsupportedOpcode { opcode });
            },
        }
        Ok(())
    }

    /// Lights every pixel on which a set bit of the `n`-row sprite at I lands,
    /// drawn at (Vx, Vy), and sets VF to whether one of them was lit before.
    fn draw(&mut self, x: u8, y: u8, n: u8)
        requires
            old(self).wf(),
            x < NUM_REGS,
            y < NUM_REGS,
            n < 16,
            sprite_fits(old(self)@, n),
        ensures
            final(self)@ == drawn(old(self)@, x, y, n),
    {
        let ghost s = self@;
        let vx = self.v_reg[x as usize];
        let vy = self.v_reg[y as usize];
        let i = self.i_reg as usize;
        let mut collided = false;
        let mut row: usize = 0;
        while row < n as usize
            invariant
                s.wf(),
                row <= n < 16,
                x < NUM_REGS,
                y < NUM_REGS,
                vx == s.v[x as int],
                vy == s.v[y as int],
                i == s.i,
                sprite_fits(s, n),
                self@ == (MachineState { screen: self.screen@, ..s }),
                forall|p: int|
                    0 <= p < SCREEN_SIZE ==> #[trigger] self.screen@[p] == (s.screen[p] || (covers(
                        s,
                        x,
                        y,
                        n,
                        p,
                    ) && sprite_row(vy, p) < row)),
                collided == exists|p: int|
                    0 <= p < SCREEN_SIZE && s.screen[p] && #[trigger] covers(s, x, y, n, p)
                        && sprite_row(vy, p) < row,
            decreases n - row,
        {
            let bits = self.ram[i + row];
            let mut col: usize = 0;
            while col < 8
                invariant
                    s.wf(),
                    row < n < 16,
                    col <= 8,
                    x < NUM_REGS,
                    y < NUM_REGS,
                    vx == s.v[x as int],
                    vy == s.v[y as int],
                    i == s.i,
                    sprite_fits(s, n),
                    bits == s.ram[i + row],
                    self@ == (MachineState { screen: self.screen@, ..s }),
                    forall|p: int|
                        0 <= p < SCREEN_SIZE ==> #[trigger] self.screen@[p] == (s.screen[p] || (
                        covers(s, x, y, n, p) && (sprite_row(vy, p) < row || (sprite_row(vy, p)
                            == row && sprite_col(vx, p) < col)))),
                    collided == exists|p: int|
                        0 <= p < SCREEN_SIZE && s.screen[p] && #[trigger] covers(s, x, y, n, p) && (
                        sprite_row(vy, p) < row || (sprite_row(vy, p) == row && sprite_col(vx, p)
                            < col)),
                decreases 8 - col,
            {
                let ghost before = self.screen@;
                let ghost was = collided;
                if bits & (0x80u8 >> col as u8) != 0 {
                    let px = (vx as usize + col) % SCREEN_WIDTH;
                    let py = (vy as usize + row) % SCREEN_HEIGHT;
                    let idx = px + SCREEN_WIDTH * py;
                    proof {
                        lemma_pixel_of_bit(vx, vy, row as int, col as int);
                        assert forall|p: int| 0 <= p < SCREEN_SIZE && sprite_row(vy, p) == row
                            && sprite_col(vx, p) == col implies p == idx by {
                            lemma_bit_of_pixel(vx, vy, p);
                        }
                        assert(covers(s, x, y, n, idx as int));
                    }
                    collided = collided || self.screen[idx];
                    self.screen[idx] = true;
                    proof {
                        if !was && before[idx as int] {
                            assert(s.screen[idx as int]);
                        }
                    }
                } else {
                    proof {
                        assert forall|p: int| 0 <= p < SCREEN_SIZE && sprite_row(vy, p) == row
                            && sprite_col(vx, p) == col implies !covers(s, x, y, n, p) by {
                            lemma_bit_of_pixel(vx, vy, p);
                        }
                    }
                }
                col = col + 1;
            }
            row = row + 1;
        }
        self.v_reg[FLAG_REG] = if collided { 1 } else { 0 };
        proof {
            let t = drawn(s, x, y, n);
            assert(self.screen@ =~= t.screen);
            assert(self.v_reg@ =~= t.v);
        }
    }
}

} // verus!
