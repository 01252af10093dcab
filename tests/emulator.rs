use chip8_core::{decode, font_table, EmuError, Emulator, Instruction, SCREEN_SIZE};

fn machine_with(program: &[u8]) -> Emulator {
    let mut e = Emulator::new();
    e.load(program).expect("program fits");
    e
}

fn lit(e: &Emulator) -> Vec<usize> {
    e.get_display()
        .iter()
        .enumerate()
        .filter(|(_, &on)| on)
        .map(|(k, _)| k)
        .collect()
}

#[test]
fn fresh_machine_state() {
    let e = Emulator::new();
    let display = e.get_display();
    assert_eq!(display.len(), 2048);
    assert!(display.iter().all(|&p| !p));
    let table = font_table();
    for k in 0..80 {
        assert_eq!(e.memory(k), table[k]);
    }
    assert_eq!(e.memory(0), 0xF0);
    assert_eq!(e.memory(79), 0x80);
    assert_eq!(e.memory(80), 0);
    assert_eq!(e.memory(4095), 0);
    assert_eq!(e.pc(), 0x200);
    assert_eq!(e.sp(), 0);
    assert_eq!(e.index(), 0);
    for x in 0..16 {
        assert_eq!(e.register(x), 0);
    }
}

#[test]
fn load_places_bytes_at_start() {
    let mut e = Emulator::new();
    assert_eq!(e.load(&[1, 2, 3]), Ok(()));
    assert_eq!(e.memory(0x1FF), 0);
    assert_eq!(e.memory(0x200), 1);
    assert_eq!(e.memory(0x201), 2);
    assert_eq!(e.memory(0x202), 3);
    assert_eq!(e.memory(0x203), 0);
    assert_eq!(e.memory(0), 0xF0);
    assert_eq!(e.pc(), 0x200);
}

#[test]
fn load_of_largest_program_fits() {
    let mut e = Emulator::new();
    let data = vec![0xAAu8; 4096 - 0x200];
    assert_eq!(e.load(&data), Ok(()));
    assert_eq!(e.memory(0x200), 0xAA);
    assert_eq!(e.memory(4095), 0xAA);
    assert_eq!(e.memory(0x1FF), 0);
}

#[test]
fn load_past_memory_is_rejected() {
    let mut e = Emulator::new();
    let data = vec![0xAAu8; 4096 - 0x200 + 1];
    assert_eq!(e.load(&data), Err(EmuError::LoadOutOfBounds { len: 3585 }));
    assert_eq!(e.memory(0x200), 0);
    assert_eq!(e.memory(4095), 0);
}

#[test]
fn load_of_empty_program_changes_nothing() {
    let mut e = Emulator::new();
    assert_eq!(e.load(&[]), Ok(()));
    assert_eq!(e.memory(0x200), 0);
}

#[test]
fn fetch_reads_big_endian_and_advances() {
    let mut e = machine_with(&[0xAB, 0xCD]);
    assert_eq!(e.fetch(), Ok(0xABCD));
    assert_eq!(e.pc(), 0x202);
}

#[test]
fn cls_clears_after_draws() {
    let mut e = machine_with(&[0xFF, 0x81]);
    assert_eq!(e.execute(0xA200), Ok(()));
    assert_eq!(e.execute(0xD012), Ok(()));
    assert_eq!(e.execute(0x6105), Ok(()));
    assert_eq!(e.execute(0xD112), Ok(()));
    assert!(!lit(&e).is_empty());
    assert_eq!(e.execute(0x00E0), Ok(()));
    assert!(e.get_display().iter().all(|&p| !p));
    assert_eq!(e.get_display().len(), SCREEN_SIZE);
}

#[test]
fn jump_sets_pc_and_next_fetch_reads_there() {
    let mut e = Emulator::new();
    assert_eq!(e.execute(0x1234), Ok(()));
    assert_eq!(e.pc(), 0x234);

    let mut program = vec![0u8; 0x36];
    program[0] = 0x12;
    program[1] = 0x34;
    program[0x34] = 0x60;
    program[0x35] = 0x42;
    let mut e = machine_with(&program);
    assert_eq!(e.tick(), Ok(()));
    assert_eq!(e.pc(), 0x234);
    assert_eq!(e.tick(), Ok(()));
    assert_eq!(e.register(0), 0x42);
    assert_eq!(e.pc(), 0x236);
}

#[test]
fn ld_then_add_wraps_around() {
    let mut e = Emulator::new();
    assert_eq!(e.execute(0x6F07), Ok(()));
    assert_eq!(e.register(0), 0);
    assert_eq!(e.execute(0x60FF), Ok(()));
    assert_eq!(e.register(0), 0xFF);
    assert_eq!(e.execute(0x7002), Ok(()));
    assert_eq!(e.register(0), 1);
    assert_eq!(e.register(0xF), 7);
}

#[test]
fn add_without_overflow() {
    let mut e = Emulator::new();
    assert_eq!(e.execute(0x6310), Ok(()));
    assert_eq!(e.execute(0x7305), Ok(()));
    assert_eq!(e.register(3), 0x15);
}

#[test]
fn ld_index_sets_i() {
    let mut e = Emulator::new();
    assert_eq!(e.execute(0xA123), Ok(()));
    assert_eq!(e.index(), 0x123);
}

#[test]
fn draw_twice_sets_collision_flag() {
    let mut e = machine_with(&[0xFF]);
    assert_eq!(e.execute(0xA200), Ok(()));
    assert_eq!(e.execute(0xD011), Ok(()));
    assert_eq!(e.register(0xF), 0);
    assert_eq!(lit(&e), (0..8).collect::<Vec<usize>>());
    assert_eq!(e.execute(0xD011), Ok(()));
    assert_eq!(e.register(0xF), 1);
    assert_eq!(lit(&e), (0..8).collect::<Vec<usize>>());
}

#[test]
fn draw_lights_only_set_bits() {
    let mut e = machine_with(&[0xA5, 0x01]);
    assert_eq!(e.execute(0xA200), Ok(()));
    assert_eq!(e.execute(0x6002), Ok(()));
    assert_eq!(e.execute(0x6103), Ok(()));
    assert_eq!(e.execute(0xD012), Ok(()));
    assert_eq!(e.register(0xF), 0);
    let row3 = 3 * 64;
    let row4 = 4 * 64;
    assert_eq!(
        lit(&e),
        vec![row3 + 2, row3 + 4, row3 + 7, row3 + 9, row4 + 9]
    );
}

#[test]
fn draw_wraps_columns() {
    let mut e = machine_with(&[0xFF]);
    assert_eq!(e.execute(0xA200), Ok(()));
    assert_eq!(e.execute(0x603C), Ok(()));
    assert_eq!(e.execute(0xD011), Ok(()));
    assert_eq!(lit(&e), vec![0, 1, 2, 3, 60, 61, 62, 63]);
}

#[test]
fn draw_wraps_rows() {
    let mut e = machine_with(&[0x80, 0x80]);
    assert_eq!(e.execute(0xA200), Ok(()));
    assert_eq!(e.execute(0x611F), Ok(()));
    assert_eq!(e.execute(0xD012), Ok(()));
    assert_eq!(lit(&e), vec![0, 31 * 64]);
}

#[test]
fn draw_past_memory_is_rejected() {
    let mut e = Emulator::new();
    assert_eq!(e.execute(0xAFFF), Ok(()));
    assert_eq!(e.execute(0xD012), Err(EmuError::SpriteOutOfBounds { i: 0xFFF, rows: 2 }));
    assert!(lit(&e).is_empty());
    assert_eq!(e.execute(0xD011), Ok(()));
}

#[test]
fn unknown_opcode_is_reported() {
    let mut e = Emulator::new();
    assert_eq!(e.execute(0x00EE), Err(EmuError::UnsupportedOpcode { opcode: 0x00EE }));
    assert_eq!(e.pc(), 0x200);
    assert_eq!(e.execute(0x8123), Err(EmuError::UnsupportedOpcode { opcode: 0x8123 }));
    assert!(lit(&e).is_empty());
    for x in 0..16 {
        assert_eq!(e.register(x), 0);
    }
}

#[test]
fn failed_tick_leaves_pc_at_culprit() {
    let mut e = machine_with(&[0x00, 0xEE]);
    assert_eq!(e.tick(), Err(EmuError::UnsupportedOpcode { opcode: 0x00EE }));
    assert_eq!(e.pc(), 0x200);
}

#[test]
fn fetch_past_memory_is_rejected() {
    let mut e = Emulator::new();
    assert_eq!(e.execute(0x1FFF), Ok(()));
    assert_eq!(e.tick(), Err(EmuError::FetchOutOfBounds { pc: 0xFFF }));
    assert_eq!(e.pc(), 0xFFF);
    assert_eq!(e.execute(0x1FFE), Ok(()));
    assert_eq!(e.fetch(), Ok(0));
    assert_eq!(e.pc(), 0x1000);
}

#[test]
fn stack_is_last_in_first_out() {
    let mut e = Emulator::new();
    assert_eq!(e.pop(), Err(EmuError::StackUnderflow));
    for k in 0..16u16 {
        assert_eq!(e.push(0x300 + k), Ok(()));
    }
    assert_eq!(e.sp(), 16);
    assert_eq!(e.push(0x400), Err(EmuError::StackOverflow));
    assert_eq!(e.sp(), 16);
    for k in (0..16u16).rev() {
        assert_eq!(e.pop(), Ok(0x300 + k));
    }
    assert_eq!(e.sp(), 0);
    assert_eq!(e.pop(), Err(EmuError::StackUnderflow));
}

#[test]
fn decode_names_each_pattern() {
    assert_eq!(decode(0x00E0), Instruction::Cls);
    assert_eq!(decode(0x1ABC), Instruction::Jp { nnn: 0xABC });
    assert_eq!(decode(0x6A42), Instruction::Ld { x: 0xA, kk: 0x42 });
    assert_eq!(decode(0x7B01), Instruction::Add { x: 0xB, kk: 0x01 });
    assert_eq!(decode(0xA321), Instruction::LdI { nnn: 0x321 });
    assert_eq!(decode(0xD4E5), Instruction::Drw { x: 4, y: 0xE, n: 5 });
    assert_eq!(decode(0x00EE), Instruction::Unsupported { opcode: 0x00EE });
    assert_eq!(decode(0x00E1), Instruction::Unsupported { opcode: 0x00E1 });
    assert_eq!(decode(0xF065), Instruction::Unsupported { opcode: 0xF065 });
}

#[test]
fn font_table_holds_digit_glyphs() {
    let t = font_table();
    assert_eq!(t.len(), 80);
    assert_eq!(&t[0..5], &[0xF0, 0x90, 0x90, 0x90, 0xF0]);
    assert_eq!(&t[75..80], &[0xF0, 0x80, 0xF0, 0x80, 0x80]);
}
