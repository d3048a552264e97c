use chip8::error::Error;
use chip8::instruction::{Instruction, Need};
use chip8::Chip8;

fn no_key(_key: u8) -> bool {
    false
}

fn key_zero() -> u8 {
    0
}

#[test]
fn load_then_add_runs_end_to_end() {
    let mut chip = Chip8::new(0x200, false, None, &no_key, &key_zero);
    assert_eq!(chip.load(vec![0x60, 0x05, 0x70, 0x03], None), Ok(()));
    assert_eq!(chip.evolve(), Ok(()));
    assert_eq!(chip.evolve(), Ok(()));
    let state = chip.internal_state();
    assert_eq!(state.reg[0], 8);
    assert_eq!(state.pc, 0x204);
}

#[test]
fn unassigned_word_is_a_decode_failure_and_changes_nothing() {
    let mut chip = Chip8::new(0x200, false, None, &no_key, &key_zero);
    assert_eq!(chip.load(vec![0x50, 0x01], None), Ok(()));
    chip.internal_state().reg[3] = 0x33;
    chip.internal_state().i = 0x123;
    let ram = chip.internal_state().ram;
    let reg = chip.internal_state().reg;
    let stack = chip.internal_state().stack;
    assert_eq!(chip.evolve(), Err(Error::Decode { instruction: 0x5001, pc: 0x200 }));
    let state = chip.internal_state();
    assert_eq!(state.ram, ram);
    assert_eq!(state.reg, reg);
    assert_eq!(state.stack, stack);
    assert_eq!(state.pc, 0x200);
    assert_eq!(state.i, 0x123);
    assert_eq!(state.sp, 0);
    assert_eq!(state.dt, 0);
    assert_eq!(state.st, 0);
}

#[test]
fn empty_memory_does_not_decode() {
    let mut chip = Chip8::new(0x200, false, None, &no_key, &key_zero);
    assert_eq!(chip.evolve(), Err(Error::Decode { instruction: 0x0000, pc: 0x200 }));
}

#[test]
fn fetch_reads_high_byte_first() {
    let mut chip = Chip8::new(0x300, false, None, &no_key, &key_zero);
    assert_eq!(chip.load(vec![0xAB, 0xCD], None), Ok(()));
    assert_eq!(chip.fetch(), Ok(0xABCD));
}

#[test]
fn fetch_past_the_end_is_a_bounds_failure() {
    let chip = Chip8::new(4095, false, None, &no_key, &key_zero);
    assert_eq!(chip.fetch(), Err(Error::Bounds));
    let mut chip = Chip8::new(4096, false, None, &no_key, &key_zero);
    assert_eq!(chip.evolve(), Err(Error::Bounds));
    assert_eq!(chip.execute(0x6005, 0), Err(Error::Bounds));
    assert_eq!(chip.internal_state().reg[0], 0);
    let mut chip = Chip8::new(usize::MAX, false, None, &no_key, &key_zero);
    assert_eq!(chip.evolve(), Err(Error::Bounds));
    let mut chip = Chip8::new(4094, false, None, &no_key, &key_zero);
    assert_eq!(chip.load(vec![0x61, 0x07], None), Ok(()));
    assert_eq!(chip.evolve(), Ok(()));
    assert_eq!(chip.internal_state().pc, 4096);
    assert_eq!(chip.evolve(), Err(Error::Bounds));
}

#[test]
fn load_immediate_reaches_every_register() {
    for x in 0..16u16 {
        for kk in [0u16, 1, 0x7F, 0x80, 0xFF] {
            let mut chip = Chip8::new(0x200, false, None, &no_key, &key_zero);
            assert_eq!(chip.execute(0x6000 | (x << 8) | kk, 0), Ok(()));
            let state = chip.internal_state();
            assert_eq!(state.reg[x as usize], kk as u8);
            assert_eq!(state.pc, 0x202);
        }
    }
}

#[test]
fn add_immediate_wraps_and_leaves_the_flag() {
    let mut chip = Chip8::new(0x200, false, None, &no_key, &key_zero);
    chip.internal_state().reg[1] = 250;
    chip.internal_state().reg[0xF] = 0xAB;
    assert_eq!(chip.execute(0x710A, 0), Ok(()));
    assert_eq!(chip.internal_state().reg[1], 4);
    assert_eq!(chip.internal_state().reg[0xF], 0xAB);
    assert_eq!(chip.execute(0x7101, 0), Ok(()));
    assert_eq!(chip.internal_state().reg[1], 5);
    assert_eq!(chip.internal_state().reg[0xF], 0xAB);
    assert_eq!(chip.execute(0x7F60, 0), Ok(()));
    assert_eq!(chip.internal_state().reg[0xF], 0x0B);
}

#[test]
fn add_registers_sets_the_carry() {
    let mut chip = Chip8::new(0x200, false, None, &no_key, &key_zero);
    chip.internal_state().reg[1] = 200;
    chip.internal_state().reg[2] = 100;
    assert_eq!(chip.execute(0x8124, 0), Ok(()));
    assert_eq!(chip.internal_state().reg[1], 44);
    assert_eq!(chip.internal_state().reg[2], 100);
    assert_eq!(chip.internal_state().reg[0xF], 1);
    chip.internal_state().reg[1] = 1;
    chip.internal_state().reg[2] = 2;
    assert_eq!(chip.execute(0x8124, 0), Ok(()));
    assert_eq!(chip.internal_state().reg[1], 3);
    assert_eq!(chip.internal_state().reg[0xF], 0);
    chip.internal_state().reg[1] = 255;
    chip.internal_state().reg[2] = 0;
    assert_eq!(chip.execute(0x8124, 0), Ok(()));
    assert_eq!(chip.internal_state().reg[1], 255);
    assert_eq!(chip.internal_state().reg[0xF], 0);
    chip.internal_state().reg[2] = 1;
    assert_eq!(chip.execute(0x8124, 0), Ok(()));
    assert_eq!(chip.internal_state().reg[1], 0);
    assert_eq!(chip.internal_state().reg[0xF], 1);
}

#[test]
fn the_flag_is_written_after_the_result() {
    let mut chip = Chip8::new(0x200, false, None, &no_key, &key_zero);
    chip.internal_state().reg[0xF] = 200;
    chip.internal_state().reg[2] = 100;
    assert_eq!(chip.execute(0x8F24, 0), Ok(()));
    assert_eq!(chip.internal_state().reg[0xF], 1);
    chip.internal_state().reg[0xF] = 7;
    chip.internal_state().reg[2] = 3;
    assert_eq!(chip.execute(0x8F25, 0), Ok(()));
    assert_eq!(chip.internal_state().reg[0xF], 1);
    chip.internal_state().reg[0xF] = 1;
    chip.internal_state().reg[2] = 200;
    assert_eq!(chip.execute(0x82F4, 0), Ok(()));
    assert_eq!(chip.internal_state().reg[2], 201);
    assert_eq!(chip.internal_state().reg[0xF], 0);
}

#[test]
fn sub_sets_the_flag_when_nothing_is_borrowed() {
    let mut chip = Chip8::new(0x200, false, None, &no_key, &key_zero);
    chip.internal_state().reg[1] = 10;
    chip.internal_state().reg[2] = 3;
    assert_eq!(chip.execute(0x8125, 0), Ok(()));
    assert_eq!(chip.internal_state().reg[1], 7);
    assert_eq!(chip.internal_state().reg[0xF], 1);
    chip.internal_state().reg[1] = 3;
    chip.internal_state().reg[2] = 10;
    assert_eq!(chip.execute(0x8125, 0), Ok(()));
    assert_eq!(chip.internal_state().reg[1], 249);
    assert_eq!(chip.internal_state().reg[0xF], 0);
    chip.internal_state().reg[1] = 5;
    chip.internal_state().reg[2] = 5;
    assert_eq!(chip.execute(0x8125, 0), Ok(()));
    assert_eq!(chip.internal_state().reg[1], 0);
    assert_eq!(chip.internal_state().reg[0xF], 1);
}

#[test]
fn subn_subtracts_the_other_way() {
    let mut chip = Chip8::new(0x200, false, None, &no_key, &key_zero);
    chip.internal_state().reg[1] = 3;
    chip.internal_state().reg[2] = 10;
    assert_eq!(chip.execute(0x8127, 0), Ok(()));
    assert_eq!(chip.internal_state().reg[1], 7);
    assert_eq!(chip.internal_state().reg[2], 10);
    assert_eq!(chip.internal_state().reg[0xF], 1);
    chip.internal_state().reg[1] = 10;
    chip.internal_state().reg[2] = 3;
    assert_eq!(chip.execute(0x8127, 0), Ok(()));
    assert_eq!(chip.internal_state().reg[1], 249);
    assert_eq!(chip.internal_state().reg[0xF], 0);
}

#[test]
fn shifts_work_on_vx_and_report_the_lost_bit() {
    let mut chip = Chip8::new(0x200, false, None, &no_key, &key_zero);
    chip.internal_state().reg[1] = 0b0000_0101;
    chip.internal_state().reg[2] = 0xFF;
    assert_eq!(chip.execute(0x8126, 0), Ok(()));
    assert_eq!(chip.internal_state().reg[1], 0b0000_0010);
    assert_eq!(chip.internal_state().reg[2], 0xFF);
    assert_eq!(chip.internal_state().reg[0xF], 1);
    assert_eq!(chip.execute(0x8126, 0), Ok(()));
    assert_eq!(chip.internal_state().reg[1], 0b0000_0001);
    assert_eq!(chip.internal_state().reg[0xF], 0);
    chip.internal_state().reg[1] = 0b1100_0001;
    assert_eq!(chip.execute(0x812E, 0), Ok(()));
    assert_eq!(chip.internal_state().reg[1], 0b1000_0010);
    assert_eq!(chip.internal_state().reg[2], 0xFF);
    assert_eq!(chip.internal_state().reg[0xF], 1);
    chip.internal_state().reg[1] = 0b0100_0001;
    assert_eq!(chip.execute(0x812E, 0), Ok(()));
    assert_eq!(chip.internal_state().reg[1], 0b1000_0010);
    assert_eq!(chip.internal_state().reg[0xF], 0);
}

#[test]
fn bitwise_operations_and_copy() {
    let mut chip = Chip8::new(0x200, false, None, &no_key, &key_zero);
    chip.internal_state().reg[0xF] = 9;
    chip.internal_state().reg[1] = 0b1100;
    chip.internal_state().reg[2] = 0b1010;
    assert_eq!(chip.execute(0x8121, 0), Ok(()));
    assert_eq!(chip.internal_state().reg[1], 0b1110);
    chip.internal_state().reg[1] = 0b1100;
    assert_eq!(chip.execute(0x8122, 0), Ok(()));
    assert_eq!(chip.internal_state().reg[1], 0b1000);
    chip.internal_state().reg[1] = 0b1100;
    assert_eq!(chip.execute(0x8123, 0), Ok(()));
    assert_eq!(chip.internal_state().reg[1], 0b0110);
    assert_eq!(chip.execute(0x8320, 0), Ok(()));
    assert_eq!(chip.internal_state().reg[3], 0b1010);
    assert_eq!(chip.internal_state().reg[0xF], 9);
    assert_eq!(chip.internal_state().pc, 0x208);
}

#[test]
fn skips_advance_by_four_when_they_match() {
    let mut chip = Chip8::new(0x200, false, None, &no_key, &key_zero);
    chip.internal_state().reg[1] = 0x42;
    chip.internal_state().reg[2] = 0x42;
    chip.internal_state().reg[3] = 0x43;
    assert_eq!(chip.execute(0x3142, 0), Ok(()));
    assert_eq!(chip.internal_state().pc, 0x204);
    assert_eq!(chip.execute(0x3143, 0), Ok(()));
    assert_eq!(chip.internal_state().pc, 0x206);
    assert_eq!(chip.execute(0x4142, 0), Ok(()));
    assert_eq!(chip.internal_state().pc, 0x208);
    assert_eq!(chip.execute(0x4143, 0), Ok(()));
    assert_eq!(chip.internal_state().pc, 0x20C);
    assert_eq!(chip.execute(0x5120, 0), Ok(()));
    assert_eq!(chip.internal_state().pc, 0x210);
    assert_eq!(chip.execute(0x5130, 0), Ok(()));
    assert_eq!(chip.internal_state().pc, 0x212);
    assert_eq!(chip.execute(0x9120, 0), Ok(()));
    assert_eq!(chip.internal_state().pc, 0x214);
    assert_eq!(chip.execute(0x9130, 0), Ok(()));
    assert_eq!(chip.internal_state().pc, 0x218);
}

#[test]
fn jumps_set_the_program_counter() {
    let mut chip = Chip8::new(0x200, false, None, &no_key, &key_zero);
    assert_eq!(chip.execute(0x1ABC, 0), Ok(()));
    assert_eq!(chip.internal_state().pc, 0xABC);
    chip.internal_state().reg[0] = 0x10;
    assert_eq!(chip.execute(0xB300, 0), Ok(()));
    assert_eq!(chip.internal_state().pc, 0x310);
    assert_eq!(chip.execute(0x1000, 0), Ok(()));
    assert_eq!(chip.internal_state().pc, 0);
}

#[test]
fn call_and_return_come_back_after_the_call() {
    let mut chip = Chip8::new(0x200, false, None, &no_key, &key_zero);
    assert_eq!(chip.load(vec![0x23, 0x00], None), Ok(()));
    assert_eq!(chip.load(vec![0x00, 0xEE], Some(0x300)), Ok(()));
    assert_eq!(chip.evolve(), Ok(()));
    assert_eq!(chip.internal_state().pc, 0x300);
    assert_eq!(chip.internal_state().sp, 1);
    assert_eq!(chip.internal_state().stack[0], 0x202);
    assert_eq!(chip.evolve(), Ok(()));
    assert_eq!(chip.internal_state().pc, 0x202);
    assert_eq!(chip.internal_state().sp, 0);
}

#[test]
fn sixteen_nested_calls_return_in_order() {
    let mut chip = Chip8::new(0x200, false, None, &no_key, &key_zero);
    for depth in 0..16usize {
        let target = 0x300 + 0x10 * depth as u16;
        assert_eq!(chip.execute(0x2000 | target, 0), Ok(()));
        assert_eq!(chip.internal_state().pc, target as usize);
        assert_eq!(chip.internal_state().sp, depth + 1);
    }
    let before = chip.internal_state().stack;
    assert_eq!(before[0], 0x202);
    for depth in 1..16usize {
        assert_eq!(before[depth], 0x300 + 0x10 * (depth - 1) + 2);
    }
    assert_eq!(chip.execute(0x2400, 0), Err(Error::Bounds));
    assert_eq!(chip.internal_state().stack, before);
    assert_eq!(chip.internal_state().sp, 16);
    assert_eq!(chip.internal_state().pc, 0x3F0);
    for depth in (0..16usize).rev() {
        assert_eq!(chip.execute(0x00EE, 0), Ok(()));
        assert_eq!(chip.internal_state().pc, before[depth]);
        assert_eq!(chip.internal_state().sp, depth);
        assert_eq!(chip.internal_state().stack, before);
    }
    assert_eq!(chip.execute(0x00EE, 0), Err(Error::Bounds));
    assert_eq!(chip.internal_state().pc, 0x202);
}

#[test]
fn alternating_call_and_return_keeps_older_entries() {
    let mut chip = Chip8::new(0x200, false, None, &no_key, &key_zero);
    assert_eq!(chip.stack_push(0x111), Ok(()));
    assert_eq!(chip.stack_push(0x222), Ok(()));
    for round in 0..40usize {
        assert_eq!(chip.execute(0x2300, 0), Ok(()));
        assert_eq!(chip.internal_state().sp, 3);
        assert_eq!(chip.execute(0x00EE, 0), Ok(()));
        assert_eq!(chip.internal_state().pc, 0x202);
        assert_eq!(chip.internal_state().sp, 2);
        assert_eq!(chip.internal_state().stack[0], 0x111);
        assert_eq!(chip.internal_state().stack[1], 0x222);
        chip.internal_state().pc = 0x200;
        assert!(round < 40);
    }
}

#[test]
fn return_with_a_stack_pointer_out_of_range_is_refused() {
    let mut chip = Chip8::new(0x200, false, None, &no_key, &key_zero);
    chip.internal_state().sp = 17;
    assert_eq!(chip.execute(0x00EE, 0), Err(Error::Bounds));
    assert_eq!(chip.execute(0x2300, 0), Err(Error::Bounds));
    assert_eq!(chip.stack_pop(), Err(Error::Bounds));
    assert_eq!(chip.stack_push(1), Err(Error::Bounds));
    assert_eq!(chip.internal_state().sp, 17);
    assert_eq!(chip.internal_state().pc, 0x200);
}

#[test]
fn index_register_instructions() {
    let mut chip = Chip8::new(0x200, false, None, &no_key, &key_zero);
    assert_eq!(chip.execute(0xA123, 0), Ok(()));
    assert_eq!(chip.internal_state().i, 0x123);
    chip.internal_state().reg[4] = 0x10;
    assert_eq!(chip.execute(0xF41E, 0), Ok(()));
    assert_eq!(chip.internal_state().i, 0x133);
    chip.internal_state().reg[4] = 0xA;
    assert_eq!(chip.execute(0xF429, 0), Ok(()));
    assert_eq!(chip.internal_state().i, 50);
    chip.internal_state().reg[4] = 0xFF;
    assert_eq!(chip.execute(0xF429, 0), Ok(()));
    assert_eq!(chip.internal_state().i, 1275);
    assert_eq!(chip.internal_state().pc, 0x208);
}

#[test]
fn index_register_overflow_is_refused() {
    let mut chip = Chip8::new(0x200, false, None, &no_key, &key_zero);
    chip.internal_state().i = usize::MAX - 1;
    chip.internal_state().reg[4] = 2;
    assert_eq!(chip.execute(0xF41E, 0), Err(Error::Bounds));
    assert_eq!(chip.internal_state().i, usize::MAX - 1);
    assert_eq!(chip.internal_state().pc, 0x200);
    chip.internal_state().reg[4] = 1;
    assert_eq!(chip.execute(0xF41E, 0), Ok(()));
    assert_eq!(chip.internal_state().i, usize::MAX);
}

#[test]
fn timers_are_read_and_set() {
    let mut chip = Chip8::new(0x200, false, None, &no_key, &key_zero);
    chip.internal_state().reg[1] = 30;
    chip.internal_state().reg[2] = 40;
    assert_eq!(chip.execute(0xF115, 0), Ok(()));
    assert_eq!(chip.execute(0xF218, 0), Ok(()));
    assert_eq!(chip.internal_state().dt, 30);
    assert_eq!(chip.internal_state().st, 40);
    chip.timer_step();
    assert_eq!(chip.execute(0xF307, 0), Ok(()));
    assert_eq!(chip.internal_state().reg[3], 29);
    assert_eq!(chip.internal_state().st, 39);
}

#[test]
fn timers_stop_at_zero() {
    let mut chip = Chip8::new(0x200, false, None, &no_key, &key_zero);
    chip.internal_state().dt = 2;
    chip.internal_state().st = 1;
    chip.timer_step();
    assert_eq!(chip.internal_state().dt, 1);
    assert_eq!(chip.internal_state().st, 0);
    chip.timer_step();
    assert_eq!(chip.internal_state().dt, 0);
    assert_eq!(chip.internal_state().st, 0);
    for _ in 0..300 {
        chip.timer_step();
        assert_eq!(chip.internal_state().dt, 0);
        assert_eq!(chip.internal_state().st, 0);
    }
    chip.internal_state().dt = 255;
    for left in (0..255u8).rev() {
        chip.timer_step();
        assert_eq!(chip.internal_state().dt, left);
    }
}

#[test]
fn bcd_writes_three_separate_digits() {
    let mut chip = Chip8::new(0x200, false, None, &no_key, &key_zero);
    chip.internal_state().reg[5] = 234;
    chip.internal_state().i = 0x400;
    assert_eq!(chip.execute(0xF533, 0), Ok(()));
    let state = chip.internal_state();
    assert_eq!(state.ram[0x400], 2);
    assert_eq!(state.ram[0x401], 3);
    assert_eq!(state.ram[0x402], 4);
    assert_eq!(state.ram[0x403], 0);
    assert_eq!(state.i, 0x400);
    state.reg[5] = 7;
    assert_eq!(chip.execute(0xF533, 0), Ok(()));
    assert_eq!(chip.internal_state().ram[0x400], 0);
    assert_eq!(chip.internal_state().ram[0x401], 0);
    assert_eq!(chip.internal_state().ram[0x402], 7);
    chip.internal_state().reg[5] = 255;
    chip.internal_state().i = 4093;
    assert_eq!(chip.execute(0xF533, 0), Ok(()));
    assert_eq!(chip.internal_state().ram[4093], 2);
    assert_eq!(chip.internal_state().ram[4094], 5);
    assert_eq!(chip.internal_state().ram[4095], 5);
}

#[test]
fn bcd_beyond_the_memory_is_refused_whole() {
    let mut chip = Chip8::new(0x200, false, None, &no_key, &key_zero);
    chip.internal_state().reg[5] = 234;
    chip.internal_state().i = 4094;
    assert_eq!(chip.execute(0xF533, 0), Err(Error::Bounds));
    assert_eq!(chip.internal_state().ram[4094], 0);
    assert_eq!(chip.internal_state().ram[4095], 0);
    assert_eq!(chip.internal_state().pc, 0x200);
    chip.internal_state().i = usize::MAX;
    assert_eq!(chip.execute(0xF533, 0), Err(Error::Bounds));
}

#[test]
fn store_and_load_include_vx() {
    let mut chip = Chip8::new(0x200, false, None, &no_key, &key_zero);
    for r in 0..16usize {
        chip.internal_state().reg[r] = 0x10 + r as u8;
    }
    chip.internal_state().i = 0x500;
    assert_eq!(chip.execute(0xF355, 0), Ok(()));
    {
        let state = chip.internal_state();
        assert_eq!(state.ram[0x4FF], 0);
        assert_eq!(state.ram[0x500], 0x10);
        assert_eq!(state.ram[0x501], 0x11);
        assert_eq!(state.ram[0x502], 0x12);
        assert_eq!(state.ram[0x503], 0x13);
        assert_eq!(state.ram[0x504], 0);
        assert_eq!(state.i, 0x500);
        assert_eq!(state.pc, 0x202);
    }
    for r in 0..16usize {
        chip.internal_state().reg[r] = 0xEE;
    }
    assert_eq!(chip.execute(0xF265, 0), Ok(()));
    let state = chip.internal_state();
    assert_eq!(state.reg[0], 0x10);
    assert_eq!(state.reg[1], 0x11);
    assert_eq!(state.reg[2], 0x12);
    assert_eq!(state.reg[3], 0xEE);
    assert_eq!(state.reg[15], 0xEE);
    assert_eq!(state.i, 0x500);
}

#[test]
fn store_of_register_zero_alone() {
    let mut chip = Chip8::new(0x200, false, None, &no_key, &key_zero);
    chip.internal_state().reg[0] = 0x77;
    chip.internal_state().reg[1] = 0x88;
    chip.internal_state().i = 4095;
    assert_eq!(chip.execute(0xF055, 0), Ok(()));
    assert_eq!(chip.internal_state().ram[4095], 0x77);
    assert_eq!(chip.internal_state().ram[4094], 0);
}

#[test]
fn store_and_load_beyond_the_memory_are_refused_whole() {
    let mut chip = Chip8::new(0x200, false, None, &no_key, &key_zero);
    for r in 0..16usize {
        chip.internal_state().reg[r] = 0x10 + r as u8;
    }
    chip.internal_state().i = 4094;
    assert_eq!(chip.execute(0xF255, 0), Err(Error::Bounds));
    assert_eq!(chip.internal_state().ram[4094], 0);
    assert_eq!(chip.internal_state().ram[4095], 0);
    assert_eq!(chip.execute(0xF265, 0), Err(Error::Bounds));
    assert_eq!(chip.internal_state().reg[0], 0x10);
    assert_eq!(chip.internal_state().pc, 0x200);
    assert_eq!(chip.execute(0xF155, 0), Ok(()));
    assert_eq!(chip.internal_state().ram[4094], 0x10);
    assert_eq!(chip.internal_state().ram[4095], 0x11);
    chip.internal_state().i = 4096;
    assert_eq!(chip.execute(0xF055, 0), Err(Error::Bounds));
    assert_eq!(chip.execute(0xF065, 0), Err(Error::Bounds));
}

#[test]
fn random_byte_is_masked() {
    let mut chip = Chip8::new(0x200, false, None, &no_key, &key_zero);
    chip.internal_state().reg[1] = 0xFF;
    assert_eq!(chip.execute(0xC10F, 0xAB), Ok(()));
    assert_eq!(chip.internal_state().reg[1], 0x0B);
    assert_eq!(chip.execute(0xC1F0, 0xAB), Ok(()));
    assert_eq!(chip.internal_state().reg[1], 0xA0);
    assert_eq!(chip.internal_state().pc, 0x204);
}

#[test]
fn evolve_draws_its_own_random_byte() {
    let mut chip = Chip8::new(0x200, false, None, &no_key, &key_zero);
    let mut program = Vec::new();
    for _ in 0..64 {
        program.push(0xC1);
        program.push(0x0F);
        program.push(0xC2);
        program.push(0x00);
        program.push(0xC3);
        program.push(0xFF);
    }
    assert_eq!(chip.load(program, None), Ok(()));
    chip.internal_state().reg[2] = 0x55;
    let mut seen = [false; 256];
    for _ in 0..64 {
        assert_eq!(chip.evolve(), Ok(()));
        assert!(chip.internal_state().reg[1] <= 0x0F);
        assert_eq!(chip.evolve(), Ok(()));
        assert_eq!(chip.internal_state().reg[2], 0);
        assert_eq!(chip.evolve(), Ok(()));
        seen[chip.internal_state().reg[3] as usize] = true;
    }
    assert!(seen.iter().filter(|s| **s).count() > 1);
    assert_eq!(chip.internal_state().pc, 0x200 + 6 * 64);
}

#[test]
fn key_skips_follow_the_input() {
    let mut chip = Chip8::new(0x200, false, None, &no_key, &key_zero);
    assert_eq!(chip.execute(0xE59E, 1), Ok(()));
    assert_eq!(chip.internal_state().pc, 0x204);
    assert_eq!(chip.execute(0xE59E, 0), Ok(()));
    assert_eq!(chip.internal_state().pc, 0x206);
    assert_eq!(chip.execute(0xE5A1, 1), Ok(()));
    assert_eq!(chip.internal_state().pc, 0x208);
    assert_eq!(chip.execute(0xE5A1, 0), Ok(()));
    assert_eq!(chip.internal_state().pc, 0x20C);
}

#[test]
fn evolve_asks_the_handlers() {
    let five_down = |key: u8| key == 5;
    let wait_a = || 0xAu8;
    let mut chip = Chip8::new(0x200, false, None, &five_down, &wait_a);
    let program = vec![
        0xE5, 0x9E, 0x00, 0x00, 0xE6, 0x9E, 0xE5, 0xA1, 0xE6, 0xA1, 0x00, 0x00, 0xF7, 0x0A,
    ];
    assert_eq!(chip.load(program, None), Ok(()));
    assert_eq!(chip.evolve(), Ok(()));
    assert_eq!(chip.internal_state().pc, 0x204);
    assert_eq!(chip.evolve(), Ok(()));
    assert_eq!(chip.internal_state().pc, 0x206);
    assert_eq!(chip.evolve(), Ok(()));
    assert_eq!(chip.internal_state().pc, 0x208);
    assert_eq!(chip.evolve(), Ok(()));
    assert_eq!(chip.internal_state().pc, 0x20C);
    assert_eq!(chip.evolve(), Ok(()));
    assert_eq!(chip.internal_state().reg[7], 0xA);
    assert_eq!(chip.internal_state().pc, 0x20E);
}

#[test]
fn the_key_number_is_the_nibble_of_the_word() {
    let asked = std::cell::Cell::new(0xFFu8);
    let poll = |key: u8| {
        asked.set(key);
        false
    };
    let mut chip = Chip8::new(0x200, false, None, &poll, &key_zero);
    chip.internal_state().reg[0xC] = 3;
    assert_eq!(chip.load(vec![0xEC, 0x9E], None), Ok(()));
    assert_eq!(chip.evolve(), Ok(()));
    assert_eq!(asked.get(), 0xC);
}

#[test]
fn wait_for_key_stores_what_came() {
    let mut chip = Chip8::new(0x200, false, None, &no_key, &key_zero);
    assert_eq!(chip.execute(0xF20A, 0xB), Ok(()));
    assert_eq!(chip.internal_state().reg[2], 0xB);
    assert_eq!(chip.internal_state().pc, 0x202);
}

#[test]
fn unassigned_words_of_every_family() {
    for word in [
        0x0000u16, 0x00E1, 0x0123, 0x00EF, 0x5001, 0x512F, 0x8008, 0x812F, 0x8129, 0x9001, 0xE000,
        0xE19F, 0xE1A0, 0xF000, 0xF1FF, 0xF156, 0xF108,
    ] {
        assert_eq!(Instruction::decode(word), None);
        let mut chip = Chip8::new(0x200, false, None, &no_key, &key_zero);
        assert_eq!(chip.execute(word, 0), Err(Error::Decode { instruction: word, pc: 0x200 }));
        assert_eq!(chip.internal_state().pc, 0x200);
    }
}

#[test]
fn words_decode_to_their_instructions() {
    assert_eq!(Instruction::decode(0x00E0), Some(Instruction::Cls));
    assert_eq!(Instruction::decode(0x00EE), Some(Instruction::Ret));
    assert_eq!(Instruction::decode(0x1234), Some(Instruction::Jp { nnn: 0x234 }));
    assert_eq!(Instruction::decode(0x2FFF), Some(Instruction::Call { nnn: 0xFFF }));
    assert_eq!(Instruction::decode(0x3A12), Some(Instruction::SeImm { x: 0xA, kk: 0x12 }));
    assert_eq!(Instruction::decode(0x4B34), Some(Instruction::SneImm { x: 0xB, kk: 0x34 }));
    assert_eq!(Instruction::decode(0x5CD0), Some(Instruction::SeReg { x: 0xC, y: 0xD }));
    assert_eq!(Instruction::decode(0x6005), Some(Instruction::LdImm { x: 0, kk: 5 }));
    assert_eq!(Instruction::decode(0x7003), Some(Instruction::AddImm { x: 0, kk: 3 }));
    assert_eq!(Instruction::decode(0x8120), Some(Instruction::LdReg { x: 1, y: 2 }));
    assert_eq!(Instruction::decode(0x8121), Some(Instruction::Or { x: 1, y: 2 }));
    assert_eq!(Instruction::decode(0x8122), Some(Instruction::And { x: 1, y: 2 }));
    assert_eq!(Instruction::decode(0x8123), Some(Instruction::Xor { x: 1, y: 2 }));
    assert_eq!(Instruction::decode(0x8124), Some(Instruction::AddReg { x: 1, y: 2 }));
    assert_eq!(Instruction::decode(0x8125), Some(Instruction::Sub { x: 1, y: 2 }));
    assert_eq!(Instruction::decode(0x8126), Some(Instruction::Shr { x: 1 }));
    assert_eq!(Instruction::decode(0x8127), Some(Instruction::Subn { x: 1, y: 2 }));
    assert_eq!(Instruction::decode(0x812E), Some(Instruction::Shl { x: 1 }));
    assert_eq!(Instruction::decode(0x9120), Some(Instruction::SneReg { x: 1, y: 2 }));
    assert_eq!(Instruction::decode(0xA456), Some(Instruction::LdI { nnn: 0x456 }));
    assert_eq!(Instruction::decode(0xB789), Some(Instruction::JpV0 { nnn: 0x789 }));
    assert_eq!(Instruction::decode(0xC1F0), Some(Instruction::Rnd { x: 1, kk: 0xF0 }));
    assert_eq!(Instruction::decode(0xD125), Some(Instruction::Drw { x: 1, y: 2, n: 5 }));
    assert_eq!(Instruction::decode(0xE39E), Some(Instruction::Skp { x: 3 }));
    assert_eq!(Instruction::decode(0xE3A1), Some(Instruction::Sknp { x: 3 }));
    assert_eq!(Instruction::decode(0xF407), Some(Instruction::LdDelay { x: 4 }));
    assert_eq!(Instruction::decode(0xF40A), Some(Instruction::LdKey { x: 4 }));
    assert_eq!(Instruction::decode(0xF415), Some(Instruction::SetDelay { x: 4 }));
    assert_eq!(Instruction::decode(0xF418), Some(Instruction::SetSound { x: 4 }));
    assert_eq!(Instruction::decode(0xF41E), Some(Instruction::AddI { x: 4 }));
    assert_eq!(Instruction::decode(0xF429), Some(Instruction::LdGlyph { x: 4 }));
    assert_eq!(Instruction::decode(0xF433), Some(Instruction::Bcd { x: 4 }));
    assert_eq!(Instruction::decode(0xF455), Some(Instruction::Store { x: 4 }));
    assert_eq!(Instruction::decode(0xF465), Some(Instruction::Load { x: 4 }));
}

#[test]
fn only_four_instructions_need_the_outside() {
    assert_eq!(Instruction::Rnd { x: 1, kk: 2 }.need(), Need::Random);
    assert_eq!(Instruction::Skp { x: 7 }.need(), Need::KeyState { key: 7 });
    assert_eq!(Instruction::Sknp { x: 8 }.need(), Need::KeyState { key: 8 });
    assert_eq!(Instruction::LdKey { x: 1 }.need(), Need::KeyPress);
    assert_eq!(Instruction::Cls.need(), Need::Nothing);
    assert_eq!(Instruction::Drw { x: 1, y: 2, n: 3 }.need(), Need::Nothing);
    assert_eq!(Instruction::AddReg { x: 1, y: 2 }.need(), Need::Nothing);
}
