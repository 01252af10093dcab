use vstd::prelude::*;

verus! {

/// A decoded opcode: one of the implemented instructions, or the raw value of
/// an opcode that matches none of them.
#[derive(Debug, Clone, Copy, PartialEq, Eq, Structural)]
pub enum Instruction {
    /// `00E0`: clear the display.
    Cls,
    /// `1NNN`: jump to `nnn`.
    Jp { nnn: u16 },
    /// `6XKK`: load `kk` into register `x`.
    Ld { x: u8, kk: u8 },
    /// `7XKK`: add `kk` to register `x`, modulo 256.
    Add { x: u8, kk: u8 },
    /// `ANNN`: load `nnn` into the index register.
    LdI { nnn: u16 },
    /// `DXYN`: draw an `n`-row sprite at (`Vx`, `Vy`), lighting its set bits
    /// rather than toggling them.
    Drw { x: u8, y: u8, n: u8 },
    /// Any other opcode.
    Unsupported { opcode: u16 },
}

/// Bits 15 to 12 of an opcode.
pub open spec fn nibble1(op: u16) -> u16 {
    op / 0x1000
}

/// Bits 11 to 8 of an opcode.
pub open spec fn nibble2(op: u16) -> u16 {
    (op / 0x100) % 0x10
}

/// Bits 7 to 4 of an opcode.
pub open spec fn nibble3(op: u16) -> u16 {
    (op / 0x10) % 0x10
}

/// Bits 3 to 0 of an opcode.
pub open spec fn nibble4(op: u16) -> u16 {
    op % 0x10
}

/// The instruction an opcode stands for, by its nibble pattern.
pub open spec fn decoded(op: u16) -> Instruction {
    if op == 0x00E0 {
        Instruction::Cls
    } else if nibble1(op) == 0x1 {
        Instruction::Jp { nnn: op % 0x1000 }
    } else if nibble1(op) == 0x6 {
        Instruction::Ld { x: nibble2(op) as u8, kk: (op % 0x100) as u8 }
    } else if nibble1(op) == 0x7 {
        Instruction::Add { x: nibble2(op) as u8, kk: (op % 0x100) as u8 }
    } else if nibble1(op) == 0xA {
        Instruction::LdI { nnn: op % 0x1000 }
    } else if nibble1(op) == 0xD {
        Instruction::Drw { x: nibble2(op) as u8, y: nibble3(op) as u8, n: nibble4(op) as u8 }
    } else {
        Instruction::Unsupported { opcode: op }
    }
}

proof fn lemma_masks(op: u16)
    by (bit_vector)
    ensures
        (op & 0xF000) >> 12u16 == op / 0x1000,
        (op & 0x0F00) >> 8u16 == (op / 0x100) % 0x10,
        (op & 0x00F0) >> 4u16 == (op / 0x10) % 0x10,
        op & 0x000F == op % 0x10,
        op & 0x0FFF == op % 0x1000,
        op & 0x00FF == op % 0x100,
{
}

/// Splits an opcode into its nibbles and names the instruction they form.
pub fn decode(opcode: u16) -> (r: Instruction)
    ensures
        r == decoded(opcode),
{
    proof {
        lemma_masks(opcode);
    }
    let d1 = (opcode & 0xF000) >> 12;
    let d2 = (opcode & 0x0F00) >> 8;
    let d3 = (opcode & 0x00F0) >> 4;
    let d4 = opcode & 0x000F;
    let nnn = opcode & 0x0FFF;
    let kk = (opcode & 0x00FF) as u8;
    match (d1, d2, d3, d4) {
        (0x0, 0x0, 0xE, 0x0) => Instruction::Cls,
        (0x1, _, _, _) => Instruction::Jp { nnn },
        (0x6, _, _, _) => Instruction::Ld { x: d2 as u8, kk },
        (0x7, _, _, _) => Instruction::Add { x: d2 as u8, kk },
        (0xA, _, _, _) => Instruction::LdI { nnn },
        (0xD, _, _, _) => Instruction::Drw { x: d2 as u8, y: d3 as u8, n: d4 as u8 },
        (_, _, _, _) => Instruction::Unsupported { opcode },
    }
}

} // verus!
