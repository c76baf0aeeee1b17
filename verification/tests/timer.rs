use gameboy::cpu::CPU;
use gameboy::mmu::MMU;

#[test]
fn timer_frequencies() {
    let cpu = CPU::new();
    let mut mmu = MMU::new();
    let expected = [256u32, 4, 16, 64];
    for tac in 0..=255u8 {
        mmu.write_byte(0xFF07, tac);
        assert_eq!(cpu.get_tac_frequency(&mmu), expected[(tac & 3) as usize]);
        assert_eq!(cpu.get_tac_enabled(&mmu), tac & 4 != 0);
    }
}

#[test]
fn twelve_cycles_of_nops_overflow_the_timer_once() {
    let mut cpu = CPU::new();
    let mut mmu = MMU::new();
    mmu.write_byte(0xFF07, 0x05);
    mmu.write_byte(0xFF06, 0xFE);
    mmu.write_byte(0xFF05, 0xFE);
    let mut requests = 0;
    let mut cycles = 0;
    while cycles < 12 {
        cycles += cpu.step(&mut mmu);
        if mmu.read_byte(0xFF0F) & 0x04 != 0 {
            requests += 1;
            mmu.write_byte(0xFF0F, 0x00);
        }
    }
    assert_eq!(cycles, 12);
    assert_eq!(requests, 1);
    assert_eq!(mmu.read_byte(0xFF05), 0xFF);
}

#[test]
fn timer_request_stays_until_cleared() {
    let mut cpu = CPU::new();
    let mut mmu = MMU::new();
    mmu.write_byte(0xFF07, 0x05);
    mmu.write_byte(0xFF06, 0xFE);
    mmu.write_byte(0xFF05, 0xFE);
    for _ in 0..12 {
        cpu.step(&mut mmu);
    }
    assert_eq!(mmu.read_byte(0xFF0F) & 0x04, 0x04);
    assert_eq!(mmu.read_byte(0xFF0F), 0x04);
}

#[test]
fn ticks_are_the_whole_part_of_the_cycles() {
    let frequencies = [(0x04u8, 256u32), (0x05, 4), (0x06, 16), (0x07, 64)];
    for (tac, f) in frequencies {
        for start in [0u32, 1, 3, 5, 63, 255] {
            for k in [0u32, 1, 4, 6, 100, 1000] {
                let mut cpu = CPU::new();
                let mut mmu = MMU::new();
                mmu.write_byte(0xFF07, tac);
                mmu.write_byte(0xFF06, 0x00);
                cpu.tima_counter = start;
                cpu.advance_tima(k, &mut mmu);
                let ticks = (start + k) / f;
                assert_eq!(mmu.read_byte(0xFF05), (ticks % 256) as u8);
                assert_eq!(cpu.tima_counter, (start + k) % f);
                assert_eq!(mmu.read_byte(0xFF0F) & 0x04 != 0, ticks >= 256);
            }
        }
    }
}

#[test]
fn ticks_do_not_depend_on_how_cycles_are_split() {
    let mut whole = CPU::new();
    let mut whole_bus = MMU::new();
    whole_bus.write_byte(0xFF07, 0x05);
    whole.advance_tima(6 + 6 + 1, &mut whole_bus);
    let mut parts = CPU::new();
    let mut parts_bus = MMU::new();
    parts_bus.write_byte(0xFF07, 0x05);
    parts.advance_tima(6, &mut parts_bus);
    assert_eq!(parts_bus.read_byte(0xFF05), 1);
    parts.advance_tima(6, &mut parts_bus);
    assert_eq!(parts_bus.read_byte(0xFF05), 3);
    parts.advance_tima(1, &mut parts_bus);
    assert_eq!(parts_bus.read_byte(0xFF05), whole_bus.read_byte(0xFF05));
    assert_eq!(parts.tima_counter, whole.tima_counter);
    assert_eq!(parts.tima_counter, 1);
}

#[test]
fn overflow_reloads_from_the_modulo() {
    let mut cpu = CPU::new();
    let mut mmu = MMU::new();
    mmu.write_byte(0xFF07, 0x05);
    mmu.write_byte(0xFF06, 0xF0);
    mmu.write_byte(0xFF05, 0xFF);
    cpu.advance_tima(4, &mut mmu);
    assert_eq!(mmu.read_byte(0xFF05), 0xF0);
    assert_eq!(mmu.read_byte(0xFF0F), 0x04);
    // 16 ticks from 0xF0 overflow again and leave the modulo
    mmu.write_byte(0xFF0F, 0x00);
    cpu.advance_tima(64, &mut mmu);
    assert_eq!(mmu.read_byte(0xFF05), 0xF0);
    assert_eq!(mmu.read_byte(0xFF0F), 0x04);
}

#[test]
fn disabled_timer_does_not_tick() {
    let mut cpu = CPU::new();
    let mut mmu = MMU::new();
    mmu.write_byte(0xFF07, 0x01);
    mmu.write_byte(0xFF05, 0x10);
    cpu.advance_tima(1000, &mut mmu);
    assert_eq!(mmu.read_byte(0xFF05), 0x10);
    assert_eq!(mmu.read_byte(0xFF0F), 0x00);
    assert_eq!(cpu.tima_counter, 0);
    cpu.advance_tima(3, &mut mmu);
    assert_eq!(cpu.tima_counter, 3);
}

#[test]
fn divider_ticks_every_64_cycles() {
    let mut cpu = CPU::new();
    let mut mmu = MMU::new();
    cpu.advance_div(63, &mut mmu);
    assert_eq!(mmu.read_byte(0xFF04), 0);
    assert_eq!(cpu.div_counter, 63);
    cpu.advance_div(1, &mut mmu);
    assert_eq!(mmu.read_byte(0xFF04), 1);
    assert_eq!(cpu.div_counter, 0);
    cpu.advance_div(64 * 255 + 10, &mut mmu);
    assert_eq!(mmu.read_byte(0xFF04), 0);
    assert_eq!(cpu.div_counter, 10);
    cpu.advance_div(64 * 300, &mut mmu);
    assert_eq!(mmu.read_byte(0xFF04), 44);
}

#[test]
fn divider_write_restarts_the_count() {
    let mut cpu = CPU::new();
    let mut mmu = MMU::new();
    cpu.advance_div(200, &mut mmu);
    assert_eq!(mmu.read_byte(0xFF04), 3);
    assert_eq!(cpu.div_counter, 8);
    mmu.write_byte(0xFF04, 0x55);
    cpu.advance_div(3, &mut mmu);
    assert_eq!(mmu.read_byte(0xFF04), 0);
    assert_eq!(cpu.div_counter, 0);
    assert!(!mmu.div_reset);
    cpu.advance_div(64, &mut mmu);
    assert_eq!(mmu.read_byte(0xFF04), 1);
}

#[test]
fn pending_ticks_are_applied_without_new_cycles() {
    let mut cpu = CPU::new();
    let mut mmu = MMU::new();
    mmu.write_byte(0xFF07, 0x05);
    cpu.tima_counter = 9;
    cpu.div_counter = 130;
    cpu.increment_tima_register(&mut mmu);
    cpu.increment_div_register(&mut mmu);
    assert_eq!(mmu.read_byte(0xFF05), 2);
    assert_eq!(cpu.tima_counter, 1);
    assert_eq!(mmu.read_byte(0xFF04), 2);
    assert_eq!(cpu.div_counter, 2);
}

#[test]
fn steps_feed_both_timers() {
    // 64 NOPs
    let mut cpu = CPU::new();
    let mut mmu = MMU::new();
    mmu.write_byte(0xFF07, 0x06);
    for _ in 0..64 {
        assert_eq!(cpu.step(&mut mmu), 1);
    }
    assert_eq!(mmu.read_byte(0xFF04), 1);
    assert_eq!(mmu.read_byte(0xFF05), 4);
}
