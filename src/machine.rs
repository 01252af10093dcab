use vstd::prelude::*;

use crate::font::{font, FONT_SIZE};
use crate::instruction::Instruction;

verus! {

/// Bytes of addressable memory.
pub const RAM_SIZE: usize = 4096;
/// Number of general-purpose registers V0 to VF.
pub const NUM_REGS: usize = 16;
/// Number of return addresses the stack holds.
pub const STACK_SIZE: usize = 16;
/// Width of the display in pixels.
pub const SCREEN_WIDTH: usize = 64;
/// Height of the display in pixels.
pub const SCREEN_HEIGHT: usize = 32;
/// Number of pixels of the display.
pub const SCREEN_SIZE: usize = 2048;
/// Number of keys of the keypad.
pub const NUM_KEYS: usize = 16;
/// Address at which programs are loaded and execution starts.
pub const START_ADDR: u16 = 0x200;

/// The failures the interpreter reports instead of corrupting its state.
#[derive(Debug, Clone, Copy, PartialEq, Eq, Structural)]
pub enum EmuError {
    /// A program of `len` bytes does not fit in memory above the start address.
    LoadOutOfBounds { len: usize },
    /// The instruction at `pc` would be read past the end of memory.
    FetchOutOfBounds { pc: u16 },
    /// The opcode matches no implemented instruction.
    UnsupportedOpcode { opcode: u16 },
    /// A sprite of `rows` rows at address `i` would be read past the end of memory.
    SpriteOutOfBounds { i: u16, rows: u8 },
    /// A push onto a full stack.
    StackOverflow,
    /// A pop from an empty stack.
    StackUnderflow,
}

/// The abstract state of the machine.
pub struct MachineState {
    pub ram: Seq<u8>,
    pub v: Seq<u8>,
    pub i: u16,
    pub pc: u16,
    pub stack: Seq<u16>,
    pub sp: u16,
    pub screen: Seq<bool>,
    pub keys: Seq<bool>,
    pub dt: u8,
    pub st: u8,
}

impl MachineState {
    /// Every sequence has its fixed size and the stack pointer is in range.
    pub open spec fn wf(self) -> bool {
        &&& self.ram.len() == RAM_SIZE
        &&& self.v.len() == NUM_REGS
        &&& self.stack.len() == STACK_SIZE
        &&& self.sp <= STACK_SIZE
        &&& self.screen.len() == SCREEN_SIZE
        &&& self.keys.len() == NUM_KEYS
    }
}

/// The state of a freshly built machine: memory holds the font and zeroes,
/// execution starts at the start address, everything else is cleared.
pub open spec fn initial_state() -> MachineState {
    MachineState {
        ram: font() + Seq::new((RAM_SIZE - FONT_SIZE) as nat, |k: int| 0u8),
        v: Seq::new(NUM_REGS as nat, |k: int| 0u8),
        i: 0,
        pc: START_ADDR,
        stack: Seq::new(STACK_SIZE as nat, |k: int| 0u16),
        sp: 0,
        screen: blank_screen(),
        keys: Seq::new(NUM_KEYS as nat, |k: int| false),
        dt: 0,
        st: 0,
    }
}

/// A display with no pixel lit.
pub open spec fn blank_screen() -> Seq<bool> {
    Seq::new(SCREEN_SIZE as nat, |k: int| false)
}

/// Index of the flag register VF.
pub const FLAG_REG: usize = 15;

/// Row of a sprite drawn at vertical position `vy` that lands on pixel `p`,
/// the display wrapping around its bottom edge.
pub open spec fn sprite_row(vy: u8, p: int) -> int {
    (p / SCREEN_WIDTH as int - vy) % SCREEN_HEIGHT as int
}

/// Column of a sprite drawn at horizontal position `vx` that lands on pixel
/// `p`, the display wrapping around its right edge.
pub open spec fn sprite_col(vx: u8, p: int) -> int {
    (p % SCREEN_WIDTH as int - vx) % SCREEN_WIDTH as int
}

/// Whether column `col` (0 to 7, most significant bit first) of a sprite row is set.
pub open spec fn sprite_bit(b: u8, col: int) -> bool {
    b & (0x80u8 >> (col as u8)) != 0
}

/// Whether a set bit of the `n`-row sprite at `I`, drawn at (`Vx`, `Vy`), lands on pixel `p`.
pub open spec fn covers(s: MachineState, x: u8, y: u8, n: u8, p: int) -> bool {
    let row = sprite_row(s.v[y as int], p);
    let col = sprite_col(s.v[x as int], p);
    row < n && col < 8 && sprite_bit(s.ram[s.i + row], col)
}

/// Whether the sprite lands on a pixel that is already lit.
pub open spec fn collides(s: MachineState, x: u8, y: u8, n: u8) -> bool {
    exists|p: int| 0 <= p < SCREEN_SIZE && s.screen[p] && #[trigger] covers(s, x, y, n, p)
}

/// The `n`-row sprite at `I` fits in memory.
pub open spec fn sprite_fits(s: MachineState, n: u8) -> bool {
    s.i + n <= RAM_SIZE
}

/// The state after drawing: every pixel the sprite lands on is lit (set, not
/// toggled), and VF tells whether one of them was lit before.
pub open spec fn drawn(s: MachineState, x: u8, y: u8, n: u8) -> MachineState {
    MachineState {
        screen: Seq::new(SCREEN_SIZE as nat, |p: int| s.screen[p] || covers(s, x, y, n, p)),
        v: s.v.update(FLAG_REG as int, if collides(s, x, y, n) { 1u8 } else { 0u8 }),
        ..s
    }
}

/// The outcome of executing an instruction on a state.
pub open spec fn executed(s: MachineState, ins: Instruction) -> Result<MachineState, EmuError> {
    match ins {
        Instruction::Cls => Ok(MachineState { screen: blank_screen(), ..s }),
        Instruction::Jp { nnn } => Ok(MachineState { pc: nnn, ..s }),
        Instruction::Ld { x, kk } => Ok(MachineState { v: s.v.update(x as int, kk), ..s }),
        Instruction::Add { x, kk } => Ok(
            MachineState { v: s.v.update(x as int, ((s.v[x as int] + kk) % 256) as u8), ..s },
        ),
        Instruction::LdI { nnn } => Ok(MachineState { i: nnn, ..s }),
        Instruction::Drw { x, y, n } => if sprite_fits(s, n) {
            Ok(drawn(s, x, y, n))
        } else {
            Err(EmuError::SpriteOutOfBounds { i: s.i, rows: n })
        },
        Instruction::Unsupported { opcode } => Err(EmuError::UnsupportedOpcode { opcode }),
    }
}

/// The outcome of fetching the instruction at PC: the big-endian opcode and
/// the state with PC past it.
pub open spec fn fetched(s: MachineState) -> Result<(u16, MachineState), EmuError> {
    if s.pc + 1 < RAM_SIZE {
        Ok(
            (
                (s.ram[s.pc as int] * 256 + s.ram[s.pc + 1]) as u16,
                MachineState { pc: (s.pc + 2) as u16, ..s },
            ),
        )
    } else {
        Err(EmuError::FetchOutOfBounds { pc: s.pc })
    }
}

/// The outcome of one instruction cycle: fetch, decode, execute.
pub open spec fn ticked(s: MachineState) -> Result<MachineState, EmuError> {
    match fetched(s) {
        Ok((op, t)) => executed(t, crate::instruction::decoded(op)),
        Err(e) => Err(e),
    }
}

/// The outcome of loading a program: its bytes replace memory from the start
/// address on, and nothing else changes.
pub open spec fn loaded(s: MachineState, data: Seq<u8>) -> Result<MachineState, EmuError> {
    if START_ADDR + data.len() <= RAM_SIZE {
        Ok(
            MachineState {
                ram: s.ram.subrange(0, START_ADDR as int) + data + s.ram.subrange(
                    START_ADDR + data.len(),
                    RAM_SIZE as int,
                ),
                ..s
            },
        )
    } else {
        Err(EmuError::LoadOutOfBounds { len: data.len() as usize })
    }
}

/// The outcome of pushing a return address.
pub open spec fn pushed(s: MachineState, val: u16) -> Result<MachineState, EmuError> {
    if s.sp < STACK_SIZE {
        Ok(MachineState { stack: s.stack.update(s.sp as int, val), sp: (s.sp + 1) as u16, ..s })
    } else {
        Err(EmuError::StackOverflow)
    }
}

/// The outcome of popping a return address: the address and the new state.
pub open spec fn popped(s: MachineState) -> Result<(u16, MachineState), EmuError> {
    if s.sp > 0 {
        Ok((s.stack[s.sp - 1], MachineState { sp: (s.sp - 1) as u16, ..s }))
    } else {
        Err(EmuError::StackUnderflow)
    }
}

/// The pixel on which row `row`, column `col` of a sprite drawn at (`vx`,
/// `vy`) lands is on the display, and that row and column are the ones
/// `sprite_row` and `sprite_col` give back for it.
pub proof fn lemma_pixel_of_bit(vx: u8, vy: u8, row: int, col: int)
    requires
        0 <= row < SCREEN_HEIGHT,
        0 <= col < SCREEN_WIDTH,
    ensures
        ({
            let p = (vx + col) % SCREEN_WIDTH as int + SCREEN_WIDTH * ((vy + row) % SCREEN_HEIGHT as int);
            &&& 0 <= p < SCREEN_SIZE
            &&& sprite_row(vy, p) == row
            &&& sprite_col(vx, p) == col
        }),
{
}

/// A pixel is the one on which its own sprite row and column land.
pub proof fn lemma_bit_of_pixel(vx: u8, vy: u8, p: int)
    requires
        0 <= p < SCREEN_SIZE,
    ensures
        p == (vx + sprite_col(vx, p)) % SCREEN_WIDTH as int + SCREEN_WIDTH * ((vy + sprite_row(vy, p))
            % SCREEN_HEIGHT as int),
{
}

} // verus!
