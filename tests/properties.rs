use chip8::decode::decode;
use chip8::{Emulator, Fault, Instruction, LoadError, FONT};

#[test]
fn font_table_is_loaded_byte_for_byte() {
    let e = Emulator::new();
    assert_eq!(e.mem[0x50..0xa0], FONT);
    assert!(e.mem[..0x50].iter().all(|b| *b == 0));
    assert!(e.mem[0xa0..].iter().all(|b| *b == 0));
    assert_eq!(e.pc, 0x200);
}

#[test]
fn load_places_exact_bytes_and_nothing_else() {
    let mut e = Emulator::new();
    assert_eq!(e.load_rom(&[0xa, 0xb, 0x1]), Ok(()));
    assert_eq!(e.mem[0x200..0x203], [0xa, 0xb, 0x1]);
    assert_eq!(e.mem[0x203], 0);
    assert_eq!(e.mem[0x1ff], 0);
}

#[test]
fn load_accepts_the_largest_image() {
    let mut e = Emulator::new();
    let rom = vec![0x7u8; 3584];
    assert_eq!(e.load_rom(&rom), Ok(()));
    assert_eq!(e.mem[0x200], 0x7);
    assert_eq!(e.mem[0xfff], 0x7);
}

#[test]
fn load_refuses_an_oversized_image() {
    let mut e = Emulator::new();
    let rom = vec![0x7u8; 3585];
    assert_eq!(e.load_rom(&rom), Err(LoadError::TooLarge { len: 3585 }));
    assert_eq!(e.mem[0x200], 0);
}

#[test]
fn add_immediate_wraps_without_flag() {
    let mut e = Emulator::new();
    e.v[3] = 0xfe;
    e.v[0xf] = 0x42;
    assert_eq!(e.run_instr(0x7302), Ok(()));
    assert_eq!(e.v[3], 0x00);
    assert_eq!(e.v[0xf], 0x42);
}

#[test]
fn add_and_subtract_set_carry_and_borrow_flags() {
    let mut e = Emulator::new();
    e.v[0] = 0x03;
    e.v[1] = 0xfe;
    e.run_instr(0x8014).unwrap();
    assert_eq!((e.v[0], e.v[0xf]), (0x01, 1));

    e.v[0] = 0x0a;
    e.v[1] = 0x04;
    e.run_instr(0x8015).unwrap();
    assert_eq!((e.v[0], e.v[0xf]), (0x06, 1));

    e.v[0] = 0x0a;
    e.v[1] = 0x04;
    e.run_instr(0x8017).unwrap();
    assert_eq!((e.v[0], e.v[0xf]), (0xfa, 0));

    e.v[0] = 0x10;
    e.v[1] = 0x20;
    e.run_instr(0x8014).unwrap();
    assert_eq!((e.v[0], e.v[0xf]), (0x30, 0));
}

#[test]
fn shifts_take_the_flag_from_vx_and_the_value_from_vy() {
    let mut e = Emulator::new();
    e.v[0] = 0x01;
    e.v[1] = 0b0110_0000;
    e.run_instr(0x801e).unwrap();
    assert_eq!((e.v[0], e.v[0xf]), (0b1100_0000, 0));
    e.v[0] = 0x80;
    e.v[1] = 0b1100_0000;
    e.run_instr(0x801e).unwrap();
    assert_eq!((e.v[0], e.v[0xf]), (0b1000_0000, 1));
    e.v[0] = 0x01;
    e.v[1] = 0x08;
    e.run_instr(0x8016).unwrap();
    assert_eq!((e.v[0], e.v[0xf]), (0x04, 1));
}

#[test]
fn call_then_return_restores_pc_and_stack() {
    let mut e = Emulator::new();
    e.load_rom(&[0x23, 0x00]).unwrap();
    e.mem[0x300] = 0x00;
    e.mem[0x301] = 0xee;
    e.process().unwrap();
    assert_eq!(e.pc, 0x300);
    assert_eq!(e.stack, vec![0x202]);
    e.process().unwrap();
    assert_eq!(e.pc, 0x202);
    assert!(e.stack.is_empty());
}

#[test]
fn return_with_empty_stack_is_a_fault() {
    let mut e = Emulator::new();
    e.pc = 0x234;
    assert_eq!(e.run_instr(0x00ee), Err(Fault::StackUnderflow));
    assert_eq!(e.pc, 0x234);
    assert!(e.stack.is_empty());
}

#[test]
fn draw_twice_reports_collision_and_clears() {
    let mut e = Emulator::new();
    e.mem[0x300] = 0b1100_1100;
    e.i = 0x300;
    e.v[0] = 0;
    e.v[1] = 3;
    e.run_instr(0xd011).unwrap();
    assert_eq!(e.vmem[3 * 64..3 * 64 + 8], [1, 1, 0, 0, 1, 1, 0, 0]);
    assert_eq!(e.v[0xf], 0);
    e.run_instr(0xd011).unwrap();
    assert_eq!(e.vmem[3 * 64..3 * 64 + 8], [0; 8]);
    assert_eq!(e.v[0xf], 1);
}

#[test]
fn draw_wraps_around_the_screen_edges() {
    let mut e = Emulator::new();
    e.mem[0x300] = 0b1000_0001;
    e.mem[0x301] = 0b1000_0000;
    e.i = 0x300;
    e.v[2] = 62 + 64;
    e.v[3] = 31 + 32;
    e.run_instr(0xd232).unwrap();
    assert_eq!(e.vmem[62 + 31 * 64], 1);
    assert_eq!(e.vmem[5 + 31 * 64], 1);
    assert_eq!(e.vmem[62], 1);
    assert_eq!(e.vmem.iter().filter(|p| **p == 1).count(), 3);
    assert_eq!(e.v[0xf], 0);
}

#[test]
fn clear_screen_blanks_every_pixel() {
    let mut e = Emulator::new();
    e.vmem[0] = 1;
    e.vmem[2047] = 1;
    e.run_instr(0x00e0).unwrap();
    assert!(e.vmem.iter().all(|p| *p == 0));
}

#[test]
fn wait_key_blocks_until_a_key_is_down() {
    let mut e = Emulator::new();
    e.load_rom(&[0xf3, 0x0a]).unwrap();
    for _ in 0..5 {
        e.process().unwrap();
        assert_eq!(e.pc, 0x200);
    }
    e.set_key_state(9, true);
    e.set_key_state(5, true);
    e.process().unwrap();
    assert_eq!(e.v[3], 5);
    assert_eq!(e.pc, 0x202);
}

#[test]
fn unimplemented_word_advances_pc_by_two() {
    let mut e = Emulator::new();
    e.load_rom(&[0x51, 0x21]).unwrap();
    let before = e.v;
    assert_eq!(e.process(), Err(Fault::Unimplemented { word: 0x5121 }));
    assert_eq!(e.pc, 0x202);
    assert_eq!(e.v, before);
    assert_eq!(e.process(), Err(Fault::Unimplemented { word: 0x0000 }));
    assert_eq!(e.pc, 0x204);
}

#[test]
fn decode_splits_fields() {
    assert_eq!(decode(0xd123), Instruction::Draw { x: 1, y: 2, n: 3 });
    assert_eq!(decode(0x2abc), Instruction::Call { addr: 0xabc });
    assert_eq!(decode(0xf765), Instruction::LoadRegs { x: 7 });
    assert_eq!(decode(0x8ab7), Instruction::SubRev { x: 0xa, y: 0xb });
    assert_eq!(decode(0x0123), Instruction::Unknown { word: 0x0123 });
    assert_eq!(decode(0x9121), Instruction::Unknown { word: 0x9121 });
    assert_eq!(decode(0xe1a2), Instruction::Unknown { word: 0xe1a2 });
}

#[test]
fn random_byte_is_masked() {
    let mut e = Emulator::new();
    assert_eq!(e.execute(Instruction::Random { x: 2, nn: 0x0f }, 0xab), Ok(()));
    assert_eq!(e.v[2], 0x0b);
    for _ in 0..20 {
        e.run_instr(0xc2f0).unwrap();
        assert_eq!(e.v[2] & 0x0f, 0);
    }
}

#[test]
fn add_to_index_flags_past_the_address_space() {
    let mut e = Emulator::new();
    e.v[0xf] = 7;
    e.v[1] = 1;
    e.i = 0xffe;
    e.run_instr(0xf11e).unwrap();
    assert_eq!((e.i, e.v[0xf]), (0xfff, 7));
    e.v[1] = 0x10;
    e.i = 0xfffe;
    e.run_instr(0xf11e).unwrap();
    assert_eq!((e.i, e.v[0xf]), (0x000e, 1));
}

#[test]
fn decimal_digits_wrap_at_end_of_memory() {
    let mut e = Emulator::new();
    e.i = 0xfff;
    e.v[4] = 255;
    e.run_instr(0xf433).unwrap();
    assert_eq!((e.mem[0xfff], e.mem[0x000], e.mem[0x001]), (2, 5, 5));
}

#[test]
fn keys_outside_the_keypad_are_up() {
    let mut e = Emulator::new();
    e.v[0] = 0x20;
    e.run_instr(0xe09e).unwrap();
    assert_eq!(e.pc, 0x200);
    e.run_instr(0xe0a1).unwrap();
    assert_eq!(e.pc, 0x202);
}

#[test]
fn delay_timer_counts_down_to_zero() {
    let mut e = Emulator::new();
    e.v[6] = 2;
    e.run_instr(0xf615).unwrap();
    e.tick_timer();
    e.run_instr(0xf707).unwrap();
    assert_eq!(e.v[7], 1);
    e.tick_timer();
    e.tick_timer();
    assert_eq!(e.dt, 0);
}

#[test]
fn render_writes_white_and_opaque_black() {
    let mut e = Emulator::new();
    e.vmem[1] = 1;
    let mut frame = vec![0x11u8; 64 * 32 * 4];
    e.draw(&mut frame);
    assert_eq!(frame[0..4], [0x00, 0x00, 0x00, 0xff]);
    assert_eq!(frame[4..8], [0xff, 0xff, 0xff, 0xff]);
    assert_eq!(frame[8188..], [0x00, 0x00, 0x00, 0xff]);
}

#[test]
fn render_leaves_a_partial_pixel_alone() {
    let e = Emulator::new();
    let mut frame = vec![0x11u8; 6];
    e.draw(&mut frame);
    assert_eq!(frame, vec![0x00, 0x00, 0x00, 0xff, 0x11, 0x11]);
}

#[test]
fn store_and_load_registers_round_trip() {
    let mut e = Emulator::new();
    e.i = 0x400;
    for k in 0..16 {
        e.v[k] = (k as u8) * 3;
    }
    e.run_instr(0xff55).unwrap();
    assert_eq!(e.mem[0x40f], 45);
    e.v = [0; 16];
    e.run_instr(0xf265).unwrap();
    assert_eq!(e.v[..4], [0, 3, 6, 0]);
}

#[test]
fn jump_with_offset_adds_v0() {
    let mut e = Emulator::new();
    e.v[0] = 0xff;
    e.run_instr(0xbfff).unwrap();
    assert_eq!(e.pc, 0x10fe);
}
