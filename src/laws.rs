use vstd::prelude::*;

use crate::font::{font, FONT_SIZE};
use crate::instruction::decoded;
use crate::machine::{
    covers, drawn, executed, fetched, initial_state, lemma_pixel_of_bit, loaded, sprite_bit,
    sprite_fits, EmuError, MachineState, FLAG_REG, RAM_SIZE, SCREEN_HEIGHT, SCREEN_SIZE,
    SCREEN_WIDTH, START_ADDR,
};

verus! {

/// A fresh machine has a dark display, the font in its first bytes, PC at the
/// start address and an empty stack.
pub proof fn lemma_initial_state()
    ensures
        initial_state().wf(),
        forall|p: int| 0 <= p < SCREEN_SIZE ==> !#[trigger] initial_state().screen[p],
        initial_state().ram.subrange(0, FONT_SIZE as int) == font(),
        initial_state().pc == START_ADDR,
        initial_state().sp == 0,
{
    assert(initial_state().ram.subrange(0, FONT_SIZE as int) =~= font());
}

/// Loading a program that fits puts its bytes at the start address and
/// leaves every other byte of memory as it was.
pub proof fn lemma_load_placement(s: MachineState, data: Seq<u8>)
    requires
        s.wf(),
        START_ADDR + data.len() <= RAM_SIZE,
    ensures
        loaded(s, data) is Ok,
        loaded(s, data)->Ok_0.wf(),
        loaded(s, data)->Ok_0.ram.subrange(START_ADDR as int, START_ADDR + data.len()) == data,
        forall|j: int|
            0 <= j < RAM_SIZE && !(START_ADDR <= j < START_ADDR + data.len()) ==> #[trigger] loaded(
                s,
                data,
            )->Ok_0.ram[j] == s.ram[j],
{
    let t = loaded(s, data)->Ok_0;
    assert(t.ram.subrange(START_ADDR as int, START_ADDR + data.len()) =~= data);
}

/// Clearing the screen darkens every pixel, whatever was drawn before.
pub proof fn lemma_clear_screen(s: MachineState)
    requires
        s.wf(),
    ensures
        executed(s, decoded(0x00E0)) is Ok,
        forall|p: int|
            0 <= p < SCREEN_SIZE ==> !#[trigger] executed(s, decoded(0x00E0))->Ok_0.screen[p],
{
}

/// A jump sets PC to the low twelve bits of the opcode, not past them, and
/// changes nothing else; the next fetch reads from there.
pub proof fn lemma_jump(s: MachineState, op: u16)
    requires
        s.wf(),
        op / 0x1000 == 1,
    ensures
        executed(s, decoded(op)) == Ok::<MachineState, EmuError>(
            MachineState { pc: op % 0x1000, ..s },
        ),
        op % 0x1000 + 1 < RAM_SIZE ==> fetched(executed(s, decoded(op))->Ok_0)
            == Ok::<(u16, MachineState), EmuError>(
            (
                (s.ram[(op % 0x1000) as int] * 256 + s.ram[op % 0x1000 + 1]) as u16,
                MachineState { pc: (op % 0x1000 + 2) as u16, ..s },
            ),
        ),
{
}

/// Adding to a register wraps modulo 256 and leaves VF alone, unless VF is
/// the register added to.
pub proof fn lemma_add_wraps(s: MachineState, op: u16)
    requires
        s.wf(),
        op / 0x1000 == 7,
        (op / 0x100) % 0x10 != FLAG_REG,
    ensures
        ({
            let x = (op / 0x100) % 0x10;
            let t = executed(s, decoded(op))->Ok_0;
            &&& executed(s, decoded(op)) is Ok
            &&& t.v[x as int] == (s.v[x as int] + op % 0x100) % 256
            &&& t.v[FLAG_REG as int] == s.v[FLAG_REG as int]
        }),
{
}

/// Each set bit of the sprite lights the pixel at its column and row
/// offsets from (Vx, Vy), wrapped modulo the display's width and height.
pub proof fn lemma_draw_wraps(s: MachineState, x: u8, y: u8, n: u8, row: int, col: int)
    requires
        s.wf(),
        x < 16,
        y < 16,
        sprite_fits(s, n),
        0 <= row < n,
        0 <= col < 8,
        n <= SCREEN_HEIGHT,
        sprite_bit(s.ram[s.i + row], col),
    ensures
        drawn(s, x, y, n).screen[(s.v[x as int] + col) % SCREEN_WIDTH as int + SCREEN_WIDTH * ((
        s.v[y as int] + row) % SCREEN_HEIGHT as int)],
{
    lemma_pixel_of_bit(s.v[x as int], s.v[y as int], row, col);
}

/// Pixels are set, not toggled: drawing the same sprite again, at the same
/// place, leaves the display as it was and reports a collision exactly when
/// the sprite lights some pixel.
pub proof fn lemma_redraw(s: MachineState, x: u8, y: u8, n: u8)
    requires
        s.wf(),
        x < FLAG_REG,
        y < FLAG_REG,
        sprite_fits(s, n),
    ensures
        ({
            let t = drawn(s, x, y, n);
            let u = drawn(t, x, y, n);
            &&& u.screen == t.screen
            &&& (u.v[FLAG_REG as int] == 1) == exists|p: int|
                0 <= p < SCREEN_SIZE && #[trigger] covers(s, x, y, n, p)
            &&& u.v[FLAG_REG as int] == 0 || u.v[FLAG_REG as int] == 1
        }),
{
    let t = drawn(s, x, y, n);
    let u = drawn(t, x, y, n);
    assert forall|p: int| #[trigger] covers(t, x, y, n, p) == covers(s, x, y, n, p) by {}
    assert(u.screen =~= t.screen);
    if exists|p: int| 0 <= p < SCREEN_SIZE && #[trigger] covers(s, x, y, n, p) {
        let p = choose|p: int| 0 <= p < SCREEN_SIZE && #[trigger] covers(s, x, y, n, p);
        assert(t.screen[p] && covers(t, x, y, n, p));
    }
}

/// An opcode that matches no implemented instruction is reported, with its
/// value, as unsupported.
pub proof fn lemma_unsupported(s: MachineState, op: u16)
    requires
        decoded(op) is Unsupported,
    ensures
        executed(s, decoded(op)) == Err::<MachineState, EmuError>(
            EmuError::UnsupportedOpcode { opcode: op },
        ),
{
}

} // verus!
