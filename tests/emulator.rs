use chip8::{Emulator, Fault};

#[test]
fn emulator_loads_a_default_font() {
    let e = Emulator::new();
    assert_eq!(e.mem[0x50..=0x54], [0xF0, 0x90, 0x90, 0x90, 0xF0]);
    assert_eq!(e.mem[0x9b..=0x9f], [0xF0, 0x80, 0xF0, 0x80, 0x80]);
}

#[test]
fn emulator_loads_a_rom() {
    let mut e = Emulator::new();
    e.load_rom(&[0xa, 0xb, 0x1]);
    assert_eq!(e.mem[0x200..=0x202], [0xa, 0xb, 0x1]);
}

#[test]
fn emulator_instr_jump() {
    let mut e = Emulator::new();
    e.run_instr(0x1caf);
    assert_eq!(e.pc, 0xcaf);
}

#[test]
fn emulator_instr_set_vx() {
    let mut e = Emulator::new();
    e.run_instr(0x6321);
    assert_eq!(e.v[3], 0x21);
}

#[test]
fn emulator_instr_add_to_vx() {
    let mut e = Emulator::new();
    e.v[3] = 0x10;
    e.run_instr(0x730f);
    assert_eq!(e.v[3], 0x1f);
}

#[test]
fn emulator_instr_skip_if_vx_eq() {
    let mut e = Emulator::new();
    e.v[5] = 0x5a;
    e.run_instr(0x350f);
    assert_eq!(e.pc, 512);
    e.run_instr(0x355a);
    assert_eq!(e.pc, 514);
}

#[test]
fn emulator_instr_skip_if_vx_neq() {
    let mut e = Emulator::new();
    e.v[5] = 0xfa;
    e.run_instr(0x350f);
    assert_eq!(e.pc, 512);
    e.run_instr(0x35fa);
    assert_eq!(e.pc, 514);
}

#[test]
fn emulator_instr_skip_if_vx_eq_vy() {
    let mut e = Emulator::new();
    e.v[4] = 0xfa;
    e.v[5] = 0xfa;
    e.run_instr(0x5500);
    assert_eq!(e.pc, 512);
    e.run_instr(0x5450);
    assert_eq!(e.pc, 514);
}

#[test]
fn emulator_instr_skip_if_vx_neq_vy() {
    let mut e = Emulator::new();
    e.v[4] = 0xfa;
    e.v[5] = 0xfa;
    e.run_instr(0x9450);
    assert_eq!(e.pc, 512);
    e.run_instr(0x9460);
    assert_eq!(e.pc, 514);
}

#[test]
fn emulator_instr_add_to_vx_with_overflow() {
    let mut e = Emulator::new();
    e.v[3] = 0xfe;
    e.run_instr(0x7302);
    assert_eq!(e.v[3], 0x00);
}

#[test]
fn emulator_instr_set_vx_to_vy() {
    let mut e = Emulator::new();
    e.v[1] = 0xfe;
    e.run_instr(0x8010);
    assert_eq!(e.v[0], 0xfe);
}

#[test]
fn emulator_instr_set_vx_to_vx_or_vy() {
    let mut e = Emulator::new();
    e.v[0] = 0b00011010;
    e.v[1] = 0b00010101;
    e.run_instr(0x8011);
    assert_eq!(e.v[0], 0b00011111);
}

#[test]
fn emulator_instr_set_vx_to_vx_and_vy() {
    let mut e = Emulator::new();
    e.v[0] = 0b00011010;
    e.v[1] = 0b00010101;
    e.run_instr(0x8012);
    assert_eq!(e.v[0], 0b00010000);
}

#[test]
fn emulator_instr_set_vx_to_vx_xor_vy() {
    let mut e = Emulator::new();
    e.v[0] = 0b00011010;
    e.v[1] = 0b00010101;
    e.run_instr(0x8013);
    assert_eq!(e.v[0], 0b00001111);
}

#[test]
fn emulator_instr_add_vy_to_vx_with_carry_flag() {
    let mut e = Emulator::new();
    e.v[0] = 0x03;
    e.v[1] = 0xfe;
    e.run_instr(0x8014);
    assert_eq!(e.v[0], 0x1);
    assert_eq!(e.v[0xf], 0x1);
}

#[test]
fn emulator_instr_set_vx_to_vx_sub_vy() {
    let mut e = Emulator::new();
    e.v[0] = 0xa;
    e.v[1] = 0x4;
    e.run_instr(0x8015);
    assert_eq!(e.v[0], 0x6);
    assert_eq!(e.v[0xf], 0x1);
}

#[test]
fn emulator_instr_set_vx_to_vy_sub_vx() {
    let mut e = Emulator::new();
    e.v[0] = 0xa;
    e.v[1] = 0x4;
    e.run_instr(0x8017);
    assert_eq!(e.v[0], 0xfa);
    assert_eq!(e.v[0xf], 0x0);
}

#[test]
fn emulator_instr_set_vx_to_vy_and_shift_left() {
    let mut e = Emulator::new();
    e.v[1] = 0b01100000;
    e.run_instr(0x801e);
    assert_eq!(e.v[0], 0b11000000);
    assert_eq!(e.v[0xf], 0x0, "flag should have value of overflowed bit");
    e.v[1] = 0b11000000;
    e.run_instr(0x801e);
    assert_eq!(e.v[0], 0b10000000);
    assert_eq!(e.v[0xf], 0x1, "flag should have value of overflowed bit");
}

#[test]
fn emulator_instr_set_vx_to_vy_and_shift_right() {
    let mut e = Emulator::new();
    e.v[1] = 0b00000110;
    e.run_instr(0x8016);
    assert_eq!(e.v[0], 0b00000011);
    assert_eq!(e.v[0xf], 0x0, "flag should have value of overflowed bit");
    e.v[1] = 0b00000011;
    e.run_instr(0x8016);
    assert_eq!(e.v[0], 0b00000001);
    assert_eq!(e.v[0xf], 0x1, "flag should have value of overflowed bit");
}

#[test]
fn emulator_instr_subroutine_call() {
    let mut e = Emulator::new();
    e.run_instr(0x2abc);
    assert_eq!(e.pc, 0xabc);
    assert_eq!(e.stack[0], 0x200);
}

#[test]
fn emulator_instr_subroutine_return() {
    let mut e = Emulator::new();
    e.stack.push(0xabc);
    e.run_instr(0x00ee);
    assert_eq!(e.pc, 0xabc);
    assert_eq!(e.stack.len(), 0);
}

#[test]
fn emulator_instr_set_i() {
    let mut e = Emulator::new();
    e.run_instr(0xa123);
    assert_eq!(e.i, 0x123);
}

#[test]
fn emulator_instr_jump_with_offset() {
    let mut e = Emulator::new();
    e.run_instr(0xb2fd);
    assert_eq!(e.pc, 0x2fd);
    e.pc = 0x200;
    e.v[0x0] = 0x002;
    e.run_instr(0xb2fd);
    assert_eq!(e.pc, 0x2ff);
}

#[test]
fn emulator_instr_rand() {
    let mut e = Emulator::new();
    e.run_instr(0xc0ff);
    e.run_instr(0xc1ff);
    assert_ne!(
        e.v[0], e.v[1],
        "might be equal if rand happens to be same value for both"
    );
    for _ in 0..20 {
        println!("hi");
        e.run_instr(0xc00f);
        assert_eq!(
            e.v[0] < 0xf0,
            true,
            "the random number should be smaller than 0xf0"
        );
    }
}

#[test]
fn emulator_instr_display() {
    let mut e = Emulator::new();
    e.mem[0x300] = 0b11001100;
    e.mem[0x301] = 0b01010101;
    e.i = 0x300;
    e.v[0] = 0;
    e.v[1] = 3;
    e.run_instr(0xd012);
    assert_eq!(e.vmem[3 * 64..3 * 64 + 8], [1, 1, 0, 0, 1, 1, 0, 0]);
    assert_eq!(e.vmem[4 * 64..4 * 64 + 8], [0, 1, 0, 1, 0, 1, 0, 1]);
}

#[test]
fn emulator_instr_skip_if_key_down() {
    let mut e = Emulator::new();
    e.set_key_state(0, true);
    e.run_instr(0xe09e);
    assert_eq!(e.pc, 0x202);
    e.set_key_state(0, false);
    e.run_instr(0xe09e);
    assert_eq!(e.pc, 0x202);
}

#[test]
fn emulator_instr_skip_if_key_up() {
    let mut e = Emulator::new();
    e.run_instr(0xe0a1);
    assert_eq!(e.pc, 0x202);
    e.set_key_state(0, true);
    e.run_instr(0xe0a1);
    assert_eq!(e.pc, 0x202);
}

#[test]
fn emulator_instr_get_key() {
    let mut e = Emulator::new();
    e.set_key_state(3, true);
    e.run_instr(0xf00a);
    assert_eq!(e.v[0], 0x3);
}

#[test]
fn emulator_instr_decimal_conversion() {
    let mut e = Emulator::new();
    e.i = 0xc;
    e.v[0] = 156;
    e.run_instr(0xf033);
    assert_eq!(e.mem[0xc], 1);
    assert_eq!(e.mem[0xd], 5);
    assert_eq!(e.mem[0xe], 6);
}

#[test]
fn emulator_instr_store_mem() {
    let mut e = Emulator::new();
    e.i = 0x5;
    e.v[0] = 0xab;
    e.v[1] = 0xde;
    e.run_instr(0xf155);
    assert_eq!(e.mem[0x5], 0xab);
    assert_eq!(e.mem[0x6], 0xde);
}

#[test]
fn emulator_instr_load_mem() {
    let mut e = Emulator::new();
    e.i = 0x5;
    e.mem[0x5] = 0xab;
    e.mem[0x6] = 0xde;
    e.run_instr(0xf165);
    assert_eq!(e.v[0], 0xab);
    assert_eq!(e.v[1], 0xde);
}

#[test]
fn emulator_instr_add_to_i() {
    let mut e = Emulator::new();
    e.v[0] = 0x5;
    e.i = 0xa;
    e.run_instr(0xf01e);
    assert_eq!(e.i, 0xf);
    e.v[0] = 0x2;
    e.i = 0xffe;
    e.run_instr(0xf01e);
    assert_eq!(e.i, 0x1000);
    assert_eq!(e.v[0xf], 0x1);
}

#[test]
fn emulator_instr_font_character() {
    let mut e = Emulator::new();
    e.v[0] = 0x5;
    e.run_instr(0xf029);
    assert_eq!(e.i, 0x55);
    e.v[0] = 0x14;
    e.run_instr(0xf029);
    assert_eq!(e.i, 0x54);
}

#[test]
fn emulator_handles_missing_instructions() {
    let mut e = Emulator::new();
    assert_eq!(e.process(), Err(Fault::Unimplemented { word: 0x0000 }));
    assert_eq!(e.pc, 0x202);
}

#[test]
fn read_word_reads_16_bits() {
    let mut mem: [u8; 4096] = [0x0; 4096];
    mem[0x10..=0x11].copy_from_slice(&[0x5c, 0xa3]);
    assert_eq!(Emulator::read_word(mem, 0x10), 0x5ca3);
}
