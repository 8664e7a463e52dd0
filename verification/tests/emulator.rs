use rust8_core::constants::{MAX_ROM_LEN, MEMORY_SIZE, PROGRAM_START};
use rust8_core::emu::{Emulator, Fault};

/// Write `op` big-endian at the program counter and execute one tick.
fn exec(e: &mut Emulator, op: u16, random: u8) -> Result<(), Fault> {
    let pc = e.pc as usize;
    e.memory[pc] = (op >> 8) as u8;
    e.memory[pc + 1] = (op & 0xFF) as u8;
    e.tick(random)
}

#[test]
fn field_extraction_is_pure() {
    let mut e = Emulator::new();
    e.instruction = 0xABCD;
    assert_eq!(e.get_nnn(), 0xBCD);
    assert_eq!(e.get_nn(), 0xCD);
    assert_eq!(e.get_n(), 0xD);
    assert_eq!(e.get_x(), 0xB);
    assert_eq!(e.get_y(), 0xC);
    // decoding the same value twice yields identical fields
    assert_eq!(e.get_nnn(), 0xBCD);
    assert_eq!(e.get_nn(), 0xCD);
    assert_eq!(e.get_n(), 0xD);
    assert_eq!(e.get_x(), 0xB);
    assert_eq!(e.get_y(), 0xC);
}

#[test]
fn new_machine_state() {
    let e = Emulator::new();
    assert_eq!(e.pc, 0x200);
    assert_eq!(e.sp, 0);
    assert_eq!(e.index, 0);
    assert_eq!(e.instruction, 0);
    assert_eq!(e.delay, 0);
    assert_eq!(e.sound, 0);
    assert_eq!(e.registers, vec![0u8; 16]);
    assert_eq!(e.stack, vec![0u16; 16]);
    assert_eq!(e.memory.len(), 4096);
    // the 80-byte font sits at 0x50..0xA0: glyph 0 starts 0xF0, glyph F ends 0x80
    assert_eq!(e.memory[0x50], 0xF0);
    assert_eq!(e.memory[0x9F], 0x80);
    assert_eq!(e.memory[0x4F], 0);
    assert_eq!(e.memory[0xA0], 0);
    assert!(e.memory[0x200..].iter().all(|&b| b == 0));
}

#[test]
fn add_vx_vy_sets_carry_on_overflow() {
    let mut e = Emulator::new();
    e.registers[0] = 0xFF;
    e.registers[1] = 0x01;
    assert_eq!(exec(&mut e, 0x8014, 0), Ok(()));
    assert_eq!(e.registers[0], 0x00);
    assert_eq!(e.registers[0xF], 1);
    assert_eq!(e.pc, 0x202);
}

#[test]
fn add_vx_vy_clears_carry_without_overflow() {
    let mut e = Emulator::new();
    e.registers[0] = 5;
    e.registers[1] = 3;
    e.registers[0xF] = 1;
    assert_eq!(exec(&mut e, 0x8014, 0), Ok(()));
    assert_eq!(e.registers[0], 8);
    assert_eq!(e.registers[0xF], 0);
}

#[test]
fn sub_vx_vy_no_borrow() {
    let mut e = Emulator::new();
    e.registers[0] = 0x05;
    e.registers[1] = 0x01;
    assert_eq!(exec(&mut e, 0x8015, 0), Ok(()));
    assert_eq!(e.registers[0], 0x04);
    assert_eq!(e.registers[0xF], 1);
}

#[test]
fn sub_vx_vy_with_borrow() {
    let mut e = Emulator::new();
    e.registers[0] = 0x01;
    e.registers[1] = 0x05;
    assert_eq!(exec(&mut e, 0x8015, 0), Ok(()));
    assert_eq!(e.registers[0], 0xFC);
    assert_eq!(e.registers[0xF], 0);
}

#[test]
fn subn_vx_vy_reverse_subtract() {
    let mut e = Emulator::new();
    e.registers[2] = 0x01;
    e.registers[3] = 0x07;
    assert_eq!(exec(&mut e, 0x8237, 0), Ok(()));
    assert_eq!(e.registers[2], 0x06);
    assert_eq!(e.registers[0xF], 1);
    let mut f = Emulator::new();
    f.registers[2] = 0x07;
    f.registers[3] = 0x01;
    assert_eq!(exec(&mut f, 0x8237, 0), Ok(()));
    assert_eq!(f.registers[2], 0xFA);
    assert_eq!(f.registers[0xF], 0);
}

#[test]
fn skip_if_equal_byte_advances_by_four() {
    let mut e = Emulator::new();
    e.registers[0] = 0x10;
    assert_eq!(exec(&mut e, 0x3010, 0), Ok(()));
    assert_eq!(e.pc, 0x204);
}

#[test]
fn skip_if_equal_byte_advances_by_two_otherwise() {
    let mut e = Emulator::new();
    e.registers[0] = 0x11;
    assert_eq!(exec(&mut e, 0x3010, 0), Ok(()));
    assert_eq!(e.pc, 0x202);
}

#[test]
fn skip_if_not_equal_byte() {
    let mut e = Emulator::new();
    e.registers[0] = 0x11;
    assert_eq!(exec(&mut e, 0x4010, 0), Ok(()));
    assert_eq!(e.pc, 0x204);
    let mut f = Emulator::new();
    f.registers[0] = 0x10;
    assert_eq!(exec(&mut f, 0x4010, 0), Ok(()));
    assert_eq!(f.pc, 0x202);
}

#[test]
fn skip_if_equal_registers() {
    let mut e = Emulator::new();
    e.registers[1] = 7;
    e.registers[2] = 7;
    assert_eq!(exec(&mut e, 0x5120, 0), Ok(()));
    assert_eq!(e.pc, 0x204);
    let mut f = Emulator::new();
    f.registers[1] = 7;
    f.registers[2] = 8;
    assert_eq!(exec(&mut f, 0x5120, 0), Ok(()));
    assert_eq!(f.pc, 0x202);
}

#[test]
fn skip_if_not_equal_registers() {
    let mut e = Emulator::new();
    e.registers[1] = 7;
    e.registers[2] = 8;
    assert_eq!(exec(&mut e, 0x9120, 0), Ok(()));
    assert_eq!(e.pc, 0x204);
    let mut f = Emulator::new();
    assert_eq!(exec(&mut f, 0x9120, 0), Ok(()));
    assert_eq!(f.pc, 0x202);
}

#[test]
fn call_and_return_round_trip() {
    let mut e = Emulator::new();
    assert_eq!(e.pc, 0x200);
    assert_eq!(exec(&mut e, 0x2300, 0), Ok(()));
    assert_eq!(e.pc, 0x300);
    assert_eq!(e.sp, 1);
    assert_eq!(e.stack[0], 0x202);
    assert_eq!(exec(&mut e, 0x00EE, 0), Ok(()));
    assert_eq!(e.pc, 0x202);
    assert_eq!(e.sp, 0);
}

#[test]
fn return_on_empty_stack_underflows() {
    let mut e = Emulator::new();
    assert_eq!(
        exec(&mut e, 0x00EE, 0),
        Err(Fault::StackUnderflow { opcode: 0x00EE, pc: 0x200 })
    );
    assert_eq!(e.pc, 0x200);
    assert_eq!(e.sp, 0);
}

#[test]
fn call_on_full_stack_overflows() {
    let mut e = Emulator::new();
    for i in 0..16 {
        assert_eq!(exec(&mut e, 0x2300, 0), Ok(()));
        assert_eq!(e.sp, i + 1);
        e.pc = 0x200 + 2 * (i as u16 + 1);
    }
    e.pc = 0x240;
    assert_eq!(
        exec(&mut e, 0x2300, 0),
        Err(Fault::StackOverflow { opcode: 0x2300, pc: 0x240 })
    );
    assert_eq!(e.sp, 16);
    assert_eq!(e.pc, 0x240);
}

#[test]
fn undefined_opcode_carries_opcode_and_pc() {
    let mut e = Emulator::new();
    assert_eq!(
        exec(&mut e, 0x5001, 0),
        Err(Fault::UndefinedOpcode { opcode: 0x5001, pc: 0x200 })
    );
    assert_eq!(e.pc, 0x200);
}

#[test]
fn undefined_opcodes_in_overloaded_families() {
    for op in [0x00FF, 0x5003, 0x8009, 0x800E, 0x9005, 0xE000, 0xE0A2, 0xF000, 0xF066] {
        let mut e = Emulator::new();
        assert_eq!(
            exec(&mut e, op, 0),
            Err(Fault::UndefinedOpcode { opcode: op, pc: 0x200 }),
            "opcode {op:#06x}"
        );
        assert_eq!(e.pc, 0x200);
    }
}

#[test]
fn undefined_opcode_leaves_state_unchanged() {
    let mut e = Emulator::new();
    e.registers[3] = 9;
    e.index = 0x123;
    let regs = e.registers.clone();
    let mem_before = e.memory.clone();
    let _ = exec(&mut e, 0x5001, 0);
    assert_eq!(e.registers, regs);
    assert_eq!(e.index, 0x123);
    assert_eq!(e.sp, 0);
    // only the two opcode bytes the helper wrote differ
    assert_eq!(e.memory[0x202..], mem_before[0x202..]);
    assert_eq!(e.instruction, 0x5001);
}

#[test]
fn jump_sets_pc() {
    let mut e = Emulator::new();
    assert_eq!(exec(&mut e, 0x1ABC, 0), Ok(()));
    assert_eq!(e.pc, 0xABC);
}

#[test]
fn jump_with_offset_adds_v0() {
    let mut e = Emulator::new();
    e.registers[0] = 5;
    assert_eq!(exec(&mut e, 0xB100, 0), Ok(()));
    assert_eq!(e.pc, 0x105);
}

#[test]
fn load_byte_into_register() {
    let mut e = Emulator::new();
    assert_eq!(exec(&mut e, 0x63AB, 0), Ok(()));
    assert_eq!(e.registers[3], 0xAB);
    assert_eq!(e.pc, 0x202);
}

#[test]
fn add_byte_wraps_without_flag() {
    let mut e = Emulator::new();
    e.registers[0] = 0xFF;
    assert_eq!(exec(&mut e, 0x7002, 0), Ok(()));
    assert_eq!(e.registers[0], 0x01);
    assert_eq!(e.registers[0xF], 0);
}

#[test]
fn register_copy_and_bitwise_ops() {
    let mut e = Emulator::new();
    e.registers[1] = 0b1100;
    e.registers[2] = 0b1010;
    assert_eq!(exec(&mut e, 0x8120, 0), Ok(()));
    assert_eq!(e.registers[1], 0b1010);

    let mut o = Emulator::new();
    o.registers[1] = 0b1100;
    o.registers[2] = 0b1010;
    assert_eq!(exec(&mut o, 0x8121, 0), Ok(()));
    assert_eq!(o.registers[1], 0b1110);

    let mut a = Emulator::new();
    a.registers[1] = 0b1100;
    a.registers[2] = 0b1010;
    assert_eq!(exec(&mut a, 0x8122, 0), Ok(()));
    assert_eq!(a.registers[1], 0b1000);

    let mut x = Emulator::new();
    x.registers[1] = 0b1100;
    x.registers[2] = 0b1010;
    assert_eq!(exec(&mut x, 0x8123, 0), Ok(()));
    assert_eq!(x.registers[1], 0b0110);
}

#[test]
fn shift_right_keeps_low_bit_in_vf() {
    let mut e = Emulator::new();
    e.registers[3] = 0x05;
    assert_eq!(exec(&mut e, 0x8306, 0), Ok(()));
    assert_eq!(e.registers[3], 0x02);
    assert_eq!(e.registers[0xF], 1);
    let mut f = Emulator::new();
    f.registers[3] = 0x04;
    assert_eq!(exec(&mut f, 0x8306, 0), Ok(()));
    assert_eq!(f.registers[3], 0x02);
    assert_eq!(f.registers[0xF], 0);
}

#[test]
fn shift_left_keeps_high_bit_in_vf() {
    let mut e = Emulator::new();
    e.registers[3] = 0x81;
    assert_eq!(exec(&mut e, 0x8308, 0), Ok(()));
    assert_eq!(e.registers[3], 0x02);
    assert_eq!(e.registers[0xF], 1);
    let mut f = Emulator::new();
    f.registers[3] = 0x41;
    assert_eq!(exec(&mut f, 0x8308, 0), Ok(()));
    assert_eq!(f.registers[3], 0x82);
    assert_eq!(f.registers[0xF], 0);
}

#[test]
fn load_index() {
    let mut e = Emulator::new();
    assert_eq!(exec(&mut e, 0xA123, 0), Ok(()));
    assert_eq!(e.index, 0x123);
    assert_eq!(e.pc, 0x202);
}

#[test]
fn random_is_masked_by_immediate() {
    let mut e = Emulator::new();
    assert_eq!(exec(&mut e, 0xC0F0, 0xAB), Ok(()));
    assert_eq!(e.registers[0], 0xA0);
}

#[test]
fn timers_load_and_store() {
    let mut e = Emulator::new();
    e.registers[4] = 42;
    assert_eq!(exec(&mut e, 0xF415, 0), Ok(()));
    assert_eq!(e.delay, 42);
    assert_eq!(exec(&mut e, 0xF507, 0), Ok(()));
    assert_eq!(e.registers[5], 42);
    e.registers[6] = 7;
    assert_eq!(exec(&mut e, 0xF618, 0), Ok(()));
    assert_eq!(e.sound, 7);
}

#[test]
fn add_index_wraps_modulo_65536() {
    let mut e = Emulator::new();
    e.registers[0] = 3;
    e.index = 0x0FFE;
    assert_eq!(exec(&mut e, 0xF01E, 0), Ok(()));
    assert_eq!(e.index, 0x1001);
    let mut f = Emulator::new();
    f.registers[0] = 2;
    f.index = 0xFFFF;
    assert_eq!(exec(&mut f, 0xF01E, 0), Ok(()));
    assert_eq!(f.index, 0x0001);
}

#[test]
fn font_address_for_digit() {
    let mut e = Emulator::new();
    e.registers[0] = 0x0A;
    assert_eq!(exec(&mut e, 0xF029, 0), Ok(()));
    assert_eq!(e.index, 0x50 + 5 * 0x0A);
    // glyph A begins 0xF0
    assert_eq!(e.memory[e.index as usize], 0xF0);
    // only the low nibble of Vx names the digit
    let mut f = Emulator::new();
    f.registers[0] = 0x1A;
    assert_eq!(exec(&mut f, 0xF029, 0), Ok(()));
    assert_eq!(f.index, 0x50 + 5 * 0x0A);
}

#[test]
fn bcd_digits_stored_at_index() {
    let mut e = Emulator::new();
    e.registers[0] = 254;
    e.index = 0x300;
    assert_eq!(exec(&mut e, 0xF033, 0), Ok(()));
    assert_eq!(e.memory[0x300], 2);
    assert_eq!(e.memory[0x301], 5);
    assert_eq!(e.memory[0x302], 4);
}

#[test]
fn bcd_of_a_small_value_has_leading_zeros() {
    let mut e = Emulator::new();
    e.registers[0] = 7;
    e.index = 0x300;
    assert_eq!(exec(&mut e, 0xF033, 0), Ok(()));
    assert_eq!(&e.memory[0x300..0x303], &[0, 0, 7]);
}

#[test]
fn index_addresses_wrap_around_memory() {
    let mut e = Emulator::new();
    e.registers[0] = 123;
    e.index = 4095;
    assert_eq!(exec(&mut e, 0xF033, 0), Ok(()));
    assert_eq!(e.memory[4095], 1);
    assert_eq!(e.memory[0], 2);
    assert_eq!(e.memory[1], 3);
}

#[test]
fn store_and_load_registers_inclusive() {
    let mut e = Emulator::new();
    e.registers[0] = 10;
    e.registers[1] = 11;
    e.registers[2] = 12;
    e.registers[3] = 13;
    e.index = 0x400;
    assert_eq!(exec(&mut e, 0xF355, 0), Ok(()));
    assert_eq!(&e.memory[0x400..0x404], &[10, 11, 12, 13]);
    assert_eq!(e.memory[0x404], 0);
    for i in 0..4 {
        e.registers[i] = 0;
    }
    e.pc = 0x200;
    assert_eq!(exec(&mut e, 0xF365, 0), Ok(()));
    assert_eq!(&e.registers[0..4], &[10, 11, 12, 13]);
}

#[test]
fn draw_same_pixel_twice_collides_and_clears() {
    let mut e = Emulator::new();
    // a one-pixel sprite: a single 0x80 row
    e.memory[0x700] = 0x80;
    e.index = 0x700;
    e.registers[0] = 3;
    e.registers[1] = 5;
    assert_eq!(exec(&mut e, 0xD011, 0), Ok(()));
    assert!(e.display.grid[5 * 64 + 3]);
    assert_eq!(e.registers[0xF], 0);
    assert_eq!(exec(&mut e, 0xD011, 0), Ok(()));
    assert!(!e.display.grid[5 * 64 + 3]);
    assert_eq!(e.registers[0xF], 1);
}

#[test]
fn draw_wraps_around_the_right_edge() {
    let mut e = Emulator::new();
    e.memory[0x700] = 0xFF;
    e.index = 0x700;
    e.registers[0] = 60;
    e.registers[1] = 0;
    assert_eq!(exec(&mut e, 0xD011, 0), Ok(()));
    for c in 60..64 {
        assert!(e.display.grid[c], "column {c}");
    }
    for c in 0..4 {
        assert!(e.display.grid[c], "column {c}");
    }
    assert!(!e.display.grid[4]);
    assert_eq!(e.registers[0xF], 0);
}

#[test]
fn draw_a_five_row_font_glyph() {
    let mut e = Emulator::new();
    // point the index at glyph 0 (rows F0 90 90 90 F0) and draw it at (0, 0)
    e.registers[0] = 0;
    assert_eq!(exec(&mut e, 0xF029, 0), Ok(()));
    assert_eq!(exec(&mut e, 0xD005, 0), Ok(()));
    assert_eq!(e.registers[0xF], 0);
    for row in [0usize, 4] {
        for c in 0..4 {
            assert!(e.display.grid[row * 64 + c], "row {row} column {c}");
        }
        assert!(!e.display.grid[row * 64 + 4]);
    }
    for row in 1..4 {
        assert!(e.display.grid[row * 64]);
        assert!(!e.display.grid[row * 64 + 1]);
        assert!(!e.display.grid[row * 64 + 2]);
        assert!(e.display.grid[row * 64 + 3]);
    }
    // drawing the same glyph again erases it and reports the collision
    e.pc = 0x200;
    assert_eq!(exec(&mut e, 0xD005, 0), Ok(()));
    assert_eq!(e.registers[0xF], 1);
    assert!(e.display.grid.iter().all(|&p| !p));
}

#[test]
fn clear_display() {
    let mut e = Emulator::new();
    e.memory[0x700] = 0xFF;
    e.index = 0x700;
    assert_eq!(exec(&mut e, 0xD011, 0), Ok(()));
    assert!(e.display.grid.iter().any(|&p| p));
    assert_eq!(exec(&mut e, 0x00E0, 0), Ok(()));
    assert!(e.display.grid.iter().all(|&p| !p));
    assert_eq!(e.pc, 0x204);
}

#[test]
fn skip_if_key_pressed() {
    let mut e = Emulator::new();
    e.registers[0] = 4;
    e.keyboard.press(4);
    assert_eq!(exec(&mut e, 0xE09E, 0), Ok(()));
    assert_eq!(e.pc, 0x204);
    let mut f = Emulator::new();
    f.registers[0] = 4;
    assert_eq!(exec(&mut f, 0xE09E, 0), Ok(()));
    assert_eq!(f.pc, 0x202);
}

#[test]
fn skip_if_key_not_pressed() {
    let mut e = Emulator::new();
    e.registers[0] = 4;
    assert_eq!(exec(&mut e, 0xE0A1, 0), Ok(()));
    assert_eq!(e.pc, 0x204);
    let mut f = Emulator::new();
    f.registers[0] = 4;
    f.keyboard.press(4);
    assert_eq!(exec(&mut f, 0xE0A1, 0), Ok(()));
    assert_eq!(f.pc, 0x202);
}

#[test]
fn key_queries_use_low_nibble_of_vx() {
    let mut e = Emulator::new();
    e.registers[0] = 0x14;
    e.keyboard.press(4);
    assert_eq!(exec(&mut e, 0xE09E, 0), Ok(()));
    assert_eq!(e.pc, 0x204);
}

#[test]
fn wait_for_key_holds_pc_until_a_press() {
    let mut e = Emulator::new();
    assert_eq!(exec(&mut e, 0xF20A, 0), Ok(()));
    assert_eq!(e.pc, 0x200, "no press available: pc must not advance");
    e.keyboard.press(9);
    assert_eq!(e.tick(0), Ok(()));
    assert_eq!(e.registers[2], 9);
    assert_eq!(e.pc, 0x202);
    assert_eq!(e.keyboard.last_press, None, "the press is consumed");
}

#[test]
fn load_rom_fills_program_memory_exactly() {
    let mut e = Emulator::new();
    assert_eq!(MAX_ROM_LEN, MEMORY_SIZE - PROGRAM_START as usize);
    let mut rom = vec![0xABu8; MAX_ROM_LEN];
    rom[0] = 1;
    rom[MAX_ROM_LEN - 1] = 0xEE;
    assert!(e.load_rom(rom));
    assert_eq!(e.memory[0x200], 1);
    assert_eq!(e.memory[4095], 0xEE);
    // the reserved region is untouched
    assert_eq!(e.memory[0x50], 0xF0);
    assert_eq!(e.memory[0x1FF], 0);
}

#[test]
fn load_rom_one_byte_too_long_is_rejected() {
    let mut e = Emulator::new();
    let rom = vec![0xABu8; MAX_ROM_LEN + 1];
    assert!(!e.load_rom(rom));
    assert!(e.memory[0x200..].iter().all(|&b| b == 0));
    assert_eq!(e.pc, 0x200);
}

#[test]
fn load_rom_empty_changes_nothing() {
    let mut e = Emulator::new();
    assert!(e.load_rom(Vec::new()));
    assert!(e.memory[0x200..].iter().all(|&b| b == 0));
}
