//! A CHIP-8 interpreter core: machine state and a fetch/execute cycle whose
//! effects are stated over an abstract model of the machine.
mod emulator;
mod instruction;
mod font;
mod laws;
mod machine;

pub use emulator::Emulator;
pub use machine::{
    blank_screen, collides, covers, drawn, executed, fetched, initial_state, loaded, popped, pushed,
    sprite_bit, sprite_col, sprite_fits, sprite_row, ticked, EmuError, MachineState, FLAG_REG,
    NUM_KEYS, NUM_REGS, RAM_SIZE, SCREEN_HEIGHT, SCREEN_SIZE, SCREEN_WIDTH, STACK_SIZE, START_ADDR,
};
pub use font::{font, font_table, FONT_SIZE};
pub use instruction::{decode, decoded, Instruction};
pub use laws::{
    lemma_add_wraps, lemma_clear_screen, lemma_draw_wraps, lemma_initial_state, lemma_jump,
    lemma_load_placement, lemma_redraw, lemma_unsupported,
};
