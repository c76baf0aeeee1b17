use gameboy::cpu::{ControlRegisters, InterruptCode, Registers, CPU};
use gameboy::mmu::MMU;

fn flags(cpu: &CPU) -> (bool, bool, bool, bool) {
    (cpu.get_zf(), cpu.get_nf(), cpu.get_hf(), cpu.get_cf())
}

#[test]
fn registers_after_boot() {
    let r = Registers::new();
    assert_eq!(r.a, 0x01);
    assert_eq!(r.f, 0xB0);
    assert_eq!(r.b, 0x00);
    assert_eq!(r.c, 0x13);
    assert_eq!(r.d, 0x00);
    assert_eq!(r.e, 0xD8);
    assert_eq!(r.h, 0x01);
    assert_eq!(r.l, 0x4D);
    assert_eq!(r.sp, 0xFFFE);
    assert_eq!(r.pc, 0x0100);
}

#[test]
fn processor_after_boot() {
    let cpu = CPU::new();
    assert_eq!(cpu.get_af(), 0x01B0);
    assert_eq!(cpu.get_bc(), 0x0013);
    assert_eq!(cpu.get_de(), 0x00D8);
    assert_eq!(cpu.get_hl(), 0x014D);
    assert!(!cpu.get_ime());
    assert!(!cpu.ei_flag);
    assert!(!cpu.halt_flag);
    assert!(!cpu.stop_flag);
    assert_eq!(cpu.div_counter, 0);
    assert_eq!(cpu.tima_counter, 0);
    assert_eq!(flags(&cpu), (true, false, true, true));
}

#[test]
fn reset_restores_the_boot_state() {
    let mut cpu = CPU::new();
    cpu.set_bc(0x1234);
    cpu.registers.pc = 0x4000;
    cpu.set_ime(true);
    cpu.halt_flag = true;
    cpu.tima_counter = 9;
    cpu.reset();
    assert_eq!(cpu.get_bc(), 0x0013);
    assert_eq!(cpu.registers.pc, 0x0100);
    assert!(!cpu.get_ime());
    assert!(!cpu.halt_flag);
    assert_eq!(cpu.tima_counter, 0);
}

#[test]
fn af_write_clears_the_low_nibble() {
    let mut cpu = CPU::new();
    cpu.set_af(0x12FF);
    assert_eq!(cpu.get_af(), 0x12F0);
    assert_eq!(cpu.registers.a, 0x12);
    assert_eq!(cpu.registers.f, 0xF0);
    for w in [0x0000u16, 0x000F, 0xFFFF, 0x1234, 0xABCD, 0x8001] {
        cpu.set_af(w);
        assert_eq!(cpu.get_af(), w & 0xFFF0);
    }
}

#[test]
fn pairs_read_back_as_written() {
    let mut cpu = CPU::new();
    for w in [0x0000u16, 0x00FF, 0xFF00, 0xFFFF, 0x1234, 0xABCD] {
        cpu.set_bc(w);
        cpu.set_de(w.wrapping_add(1));
        cpu.set_hl(w.wrapping_add(2));
        assert_eq!(cpu.get_bc(), w);
        assert_eq!(cpu.get_de(), w.wrapping_add(1));
        assert_eq!(cpu.get_hl(), w.wrapping_add(2));
    }
    cpu.set_bc(0x1234);
    assert_eq!(cpu.registers.b, 0x12);
    assert_eq!(cpu.registers.c, 0x34);
}

#[test]
fn single_flags_are_set_and_read() {
    let mut cpu = CPU::new();
    cpu.update_flags(false, false, false, false);
    assert_eq!(cpu.registers.f, 0x00);
    cpu.set_zf(true);
    assert_eq!(cpu.registers.f, 0x80);
    cpu.set_nf(true);
    assert_eq!(cpu.registers.f, 0xC0);
    cpu.set_hf(true);
    assert_eq!(cpu.registers.f, 0xE0);
    cpu.set_cf(true);
    assert_eq!(cpu.registers.f, 0xF0);
    cpu.set_zf(false);
    assert_eq!(cpu.registers.f, 0x70);
    cpu.set_hf(false);
    assert_eq!(cpu.registers.f, 0x50);
    assert_eq!(flags(&cpu), (false, true, false, true));
}

#[test]
fn update_flags_packs_the_four_bits() {
    let mut cpu = CPU::new();
    cpu.update_flags(true, false, false, false);
    assert_eq!(cpu.registers.f, 0x80);
    cpu.update_flags(false, true, false, false);
    assert_eq!(cpu.registers.f, 0x10);
    cpu.update_flags(false, false, true, false);
    assert_eq!(cpu.registers.f, 0x20);
    cpu.update_flags(false, false, false, true);
    assert_eq!(cpu.registers.f, 0x40);
}

#[test]
fn add8_sets_flags() {
    let mut cpu = CPU::new();
    cpu.registers.a = 0x3A;
    assert_eq!(cpu.add8(0xC6), 0x00);
    assert_eq!(cpu.registers.f, 0xB0);
    cpu.registers.a = 0x0F;
    assert_eq!(cpu.add8(0x01), 0x10);
    assert_eq!(cpu.registers.f, 0x20);
    cpu.registers.a = 0x3C;
    assert_eq!(cpu.add8(0xFF), 0x3B);
    assert_eq!(cpu.registers.f, 0x30);
    cpu.registers.a = 0x12;
    assert_eq!(cpu.add8(0x21), 0x33);
    assert_eq!(cpu.registers.f, 0x00);
    // the accumulator is left to the caller
    assert_eq!(cpu.registers.a, 0x12);
}

#[test]
fn adc_adds_the_carry() {
    let mut cpu = CPU::new();
    cpu.registers.a = 0xE1;
    cpu.update_flags(false, true, false, false);
    assert_eq!(cpu.adc(0x0F), 0xF1);
    assert_eq!(cpu.registers.f, 0x20);
    cpu.registers.a = 0xE1;
    cpu.update_flags(false, true, false, false);
    assert_eq!(cpu.adc(0x1E), 0x00);
    assert_eq!(cpu.registers.f, 0xB0);
    cpu.registers.a = 0xFF;
    cpu.update_flags(false, true, false, false);
    assert_eq!(cpu.adc(0x00), 0x00);
    assert_eq!(cpu.registers.f, 0xB0);
    cpu.registers.a = 0xFF;
    cpu.update_flags(false, true, false, false);
    assert_eq!(cpu.adc(0xFF), 0xFF);
    assert_eq!(cpu.registers.f, 0x30);
    cpu.registers.a = 0x01;
    cpu.update_flags(false, false, false, false);
    assert_eq!(cpu.adc(0x01), 0x02);
    assert_eq!(cpu.registers.f, 0x00);
}

#[test]
fn sub_sets_flags() {
    let mut cpu = CPU::new();
    cpu.registers.a = 0x3E;
    assert_eq!(cpu.sub(0x3E), 0x00);
    assert_eq!(cpu.registers.f, 0xC0);
    assert_eq!(cpu.sub(0x0F), 0x2F);
    assert_eq!(cpu.registers.f, 0x60);
    assert_eq!(cpu.sub(0x40), 0xFE);
    assert_eq!(cpu.registers.f, 0x50);
}

#[test]
fn sbc_subtracts_the_carry() {
    let mut cpu = CPU::new();
    cpu.registers.a = 0x3B;
    cpu.update_flags(false, true, false, false);
    assert_eq!(cpu.sbc(0x2A), 0x10);
    assert_eq!(cpu.registers.f, 0x40);
    cpu.update_flags(false, true, false, false);
    assert_eq!(cpu.sbc(0x3A), 0x00);
    assert_eq!(cpu.registers.f, 0xC0);
    cpu.update_flags(false, true, false, false);
    assert_eq!(cpu.sbc(0x4F), 0xEB);
    assert_eq!(cpu.registers.f, 0x70);
    cpu.registers.a = 0x00;
    cpu.update_flags(false, true, false, false);
    assert_eq!(cpu.sbc(0xFF), 0x00);
    assert_eq!(cpu.registers.f, 0xF0);
}

#[test]
fn logic_operations_set_flags() {
    let mut cpu = CPU::new();
    cpu.registers.a = 0x5A;
    cpu.and(0x3F);
    assert_eq!(cpu.registers.a, 0x1A);
    assert_eq!(cpu.registers.f, 0x20);
    cpu.and(0x00);
    assert_eq!(cpu.registers.a, 0x00);
    assert_eq!(cpu.registers.f, 0xA0);
    cpu.registers.a = 0x5A;
    cpu.or(0x0F);
    assert_eq!(cpu.registers.a, 0x5F);
    assert_eq!(cpu.registers.f, 0x00);
    cpu.registers.a = 0x00;
    cpu.or(0x00);
    assert_eq!(cpu.registers.f, 0x80);
    cpu.registers.a = 0xFF;
    cpu.xor(0x0F);
    assert_eq!(cpu.registers.a, 0xF0);
    assert_eq!(cpu.registers.f, 0x00);
    cpu.xor(0xF0);
    assert_eq!(cpu.registers.a, 0x00);
    assert_eq!(cpu.registers.f, 0x80);
}

#[test]
fn cp_compares_without_storing() {
    let mut cpu = CPU::new();
    cpu.registers.a = 0x3C;
    cpu.cp(0x2F);
    assert_eq!(cpu.registers.f, 0x60);
    cpu.cp(0x3C);
    assert_eq!(cpu.registers.f, 0xC0);
    cpu.cp(0x40);
    assert_eq!(cpu.registers.f, 0x50);
    assert_eq!(cpu.registers.a, 0x3C);
}

#[test]
fn inc_and_dec_keep_the_carry() {
    let mut cpu = CPU::new();
    cpu.update_flags(false, true, false, false);
    assert_eq!(cpu.inc(0xFF), 0x00);
    assert_eq!(cpu.registers.f, 0xB0);
    assert_eq!(cpu.inc(0x0F), 0x10);
    assert_eq!(cpu.registers.f, 0x30);
    cpu.update_flags(false, false, false, false);
    assert_eq!(cpu.inc(0x50), 0x51);
    assert_eq!(cpu.registers.f, 0x00);
    assert_eq!(cpu.dec(0x01), 0x00);
    assert_eq!(cpu.registers.f, 0xC0);
    assert_eq!(cpu.dec(0x00), 0xFF);
    assert_eq!(cpu.registers.f, 0x60);
    cpu.update_flags(false, true, false, false);
    assert_eq!(cpu.dec(0x10), 0x0F);
    assert_eq!(cpu.registers.f, 0x70);
}

#[test]
fn rotates_and_shifts() {
    let mut cpu = CPU::new();
    assert_eq!(cpu.rlc(0x85), 0x0B);
    assert_eq!(cpu.registers.f, 0x10);
    assert_eq!(cpu.rlc(0x00), 0x00);
    assert_eq!(cpu.registers.f, 0x80);
    cpu.update_flags(false, false, false, false);
    assert_eq!(cpu.rl(0x80), 0x00);
    assert_eq!(cpu.registers.f, 0x90);
    assert_eq!(cpu.rl(0x11), 0x23);
    assert_eq!(cpu.registers.f, 0x00);
    assert_eq!(cpu.rrc(0x01), 0x80);
    assert_eq!(cpu.registers.f, 0x10);
    cpu.update_flags(false, false, false, false);
    assert_eq!(cpu.rr(0x01), 0x00);
    assert_eq!(cpu.registers.f, 0x90);
    assert_eq!(cpu.rr(0x8A), 0xC5);
    assert_eq!(cpu.registers.f, 0x00);
    assert_eq!(cpu.sla(0x80), 0x00);
    assert_eq!(cpu.registers.f, 0x90);
    assert_eq!(cpu.sla(0xFF), 0xFE);
    assert_eq!(cpu.registers.f, 0x10);
    assert_eq!(cpu.sra(0x8A), 0xC5);
    assert_eq!(cpu.registers.f, 0x00);
    assert_eq!(cpu.sra(0x01), 0x00);
    assert_eq!(cpu.registers.f, 0x90);
    assert_eq!(cpu.srl(0x01), 0x00);
    assert_eq!(cpu.registers.f, 0x90);
    assert_eq!(cpu.srl(0xFF), 0x7F);
    assert_eq!(cpu.registers.f, 0x10);
    assert_eq!(cpu.swap(0xF0), 0x0F);
    assert_eq!(cpu.registers.f, 0x00);
    assert_eq!(cpu.swap(0x00), 0x00);
    assert_eq!(cpu.registers.f, 0x80);
    assert_eq!(cpu.swap(0x12), 0x21);
}

#[test]
fn accumulator_rotates_clear_zero() {
    let mut cpu = CPU::new();
    cpu.registers.a = 0x80;
    cpu.update_flags(false, false, false, false);
    cpu.rla();
    assert_eq!(cpu.registers.a, 0x00);
    assert_eq!(cpu.registers.f, 0x10);
    cpu.rla();
    assert_eq!(cpu.registers.a, 0x01);
    assert_eq!(cpu.registers.f, 0x00);
    cpu.registers.a = 0x85;
    cpu.rlca();
    assert_eq!(cpu.registers.a, 0x0B);
    assert_eq!(cpu.registers.f, 0x10);
    cpu.registers.a = 0x3B;
    cpu.rrca();
    assert_eq!(cpu.registers.a, 0x9D);
    assert_eq!(cpu.registers.f, 0x10);
    cpu.registers.a = 0x81;
    cpu.update_flags(false, false, false, false);
    cpu.rra();
    assert_eq!(cpu.registers.a, 0x40);
    assert_eq!(cpu.registers.f, 0x10);
    cpu.registers.a = 0x00;
    cpu.update_flags(false, false, false, false);
    cpu.rrca();
    assert_eq!(cpu.registers.a, 0x00);
    assert_eq!(cpu.registers.f, 0x00);
}

#[test]
fn bit_operations() {
    let mut cpu = CPU::new();
    assert_eq!(cpu.res(0, 0xFF), 0xFE);
    assert_eq!(cpu.res(7, 0xFF), 0x7F);
    assert_eq!(cpu.res(3, 0x00), 0x00);
    assert_eq!(cpu.set(0, 0x00), 0x01);
    assert_eq!(cpu.set(7, 0x00), 0x80);
    assert_eq!(cpu.set(4, 0xFF), 0xFF);
    cpu.update_flags(false, true, false, true);
    cpu.bit(7, 0x80);
    assert_eq!(cpu.registers.f, 0x30);
    cpu.bit(6, 0x80);
    assert_eq!(cpu.registers.f, 0xB0);
    cpu.update_flags(false, false, false, false);
    cpu.bit(0, 0x01);
    assert_eq!(cpu.registers.f, 0x20);
    cpu.bit(0, 0xFE);
    assert_eq!(cpu.registers.f, 0xA0);
}

#[test]
fn daa_adjusts_after_addition_and_subtraction() {
    let mut cpu = CPU::new();
    cpu.registers.a = 0x45;
    cpu.registers.a = cpu.add8(0x38);
    assert_eq!(cpu.registers.a, 0x7D);
    cpu.daa();
    assert_eq!(cpu.registers.a, 0x83);
    assert_eq!(cpu.registers.f, 0x00);
    cpu.registers.a = cpu.sub(0x38);
    assert_eq!(cpu.registers.a, 0x4B);
    cpu.daa();
    assert_eq!(cpu.registers.a, 0x45);
    assert_eq!(cpu.registers.f, 0x40);
    cpu.registers.a = 0x99;
    cpu.registers.a = cpu.add8(0x01);
    cpu.daa();
    assert_eq!(cpu.registers.a, 0x00);
    assert_eq!(cpu.registers.f, 0x90);
    cpu.registers.a = 0x9A;
    cpu.update_flags(false, false, false, false);
    cpu.daa();
    assert_eq!(cpu.registers.a, 0x00);
    assert_eq!(cpu.registers.f, 0x90);
}

#[test]
fn complement_and_carry_operations() {
    let mut cpu = CPU::new();
    cpu.registers.a = 0x35;
    cpu.update_flags(true, true, false, false);
    cpu.cpl();
    assert_eq!(cpu.registers.a, 0xCA);
    assert_eq!(cpu.registers.f, 0xF0);
    cpu.ccf();
    assert_eq!(cpu.registers.f, 0x80);
    cpu.ccf();
    assert_eq!(cpu.registers.f, 0x90);
    cpu.update_flags(false, false, true, true);
    cpu.scf();
    assert_eq!(cpu.registers.f, 0x10);
}

#[test]
fn add16_keeps_zero() {
    let mut cpu = CPU::new();
    cpu.update_flags(true, false, false, true);
    assert_eq!(cpu.add16(0x8A23, 0x0605), 0x9028);
    assert_eq!(cpu.registers.f, 0xA0);
    cpu.update_flags(false, false, false, false);
    assert_eq!(cpu.add16(0x8A23, 0x8A23), 0x1446);
    assert_eq!(cpu.registers.f, 0x30);
    assert_eq!(cpu.add16(0x0001, 0x0002), 0x0003);
    assert_eq!(cpu.registers.f, 0x00);
}

#[test]
fn add_sp_uses_the_carries_of_the_low_byte() {
    let mut cpu = CPU::new();
    cpu.registers.sp = 0xFFF8;
    assert_eq!(cpu.add_sp(0x02), 0xFFFA);
    assert_eq!(cpu.registers.f, 0x00);
    cpu.registers.sp = 0x00FF;
    assert_eq!(cpu.add_sp(0x01), 0x0100);
    assert_eq!(cpu.registers.f, 0x30);
    cpu.registers.sp = 0x0100;
    assert_eq!(cpu.add_sp(0xFF), 0x00FF);
    assert_eq!(cpu.registers.f, 0x00);
    cpu.registers.sp = 0x0001;
    assert_eq!(cpu.add_sp(0xFF), 0x0000);
    assert_eq!(cpu.registers.f, 0x30);
    cpu.registers.sp = 0x000F;
    assert_eq!(cpu.add_sp(0x01), 0x0010);
    assert_eq!(cpu.registers.f, 0x20);
    // the stack pointer itself is left to the caller
    assert_eq!(cpu.registers.sp, 0x000F);
}

#[test]
fn fetch_reads_at_the_program_counter() {
    let mut cpu = CPU::new();
    let mut mmu = MMU::new();
    mmu.write_byte(0xC000, 0x11);
    mmu.write_byte(0xC001, 0x22);
    mmu.write_byte(0xC002, 0x33);
    cpu.registers.pc = 0xC000;
    assert_eq!(cpu.fetch_byte(&mmu), 0x11);
    assert_eq!(cpu.registers.pc, 0xC001);
    assert_eq!(cpu.fetch_word(&mmu), 0x3322);
    assert_eq!(cpu.registers.pc, 0xC003);
    cpu.registers.pc = 0xFFFF;
    cpu.fetch_byte(&mmu);
    assert_eq!(cpu.registers.pc, 0x0000);
}

#[test]
fn relative_jumps_count_from_the_next_instruction() {
    let mut cpu = CPU::new();
    let mut mmu = MMU::new();
    mmu.write_byte(0xC000, 0x05);
    mmu.write_byte(0xC010, 0xFE);
    mmu.write_byte(0xC020, 0x80);
    cpu.registers.pc = 0xC000;
    cpu.jr(true, &mmu);
    assert_eq!(cpu.registers.pc, 0xC006);
    cpu.registers.pc = 0xC000;
    cpu.jr(false, &mmu);
    assert_eq!(cpu.registers.pc, 0xC001);
    cpu.registers.pc = 0xC010;
    cpu.jr(true, &mmu);
    assert_eq!(cpu.registers.pc, 0xC00F);
    cpu.registers.pc = 0xC020;
    cpu.jr(true, &mmu);
    assert_eq!(cpu.registers.pc, 0xBFA1);
}

#[test]
fn absolute_jumps() {
    let mut cpu = CPU::new();
    let mut mmu = MMU::new();
    mmu.write_word(0xC000, 0x1234);
    cpu.registers.pc = 0xC000;
    cpu.jp(true, &mmu);
    assert_eq!(cpu.registers.pc, 0x1234);
    cpu.registers.pc = 0xC000;
    cpu.jp(false, &mmu);
    assert_eq!(cpu.registers.pc, 0xC002);
}

#[test]
fn push_then_pop_restores_the_word() {
    let mut cpu = CPU::new();
    let mut mmu = MMU::new();
    for w in [0x0000u16, 0xFFFF, 0x1234, 0xABCD] {
        cpu.push(w, &mut mmu);
        assert_eq!(cpu.registers.sp, 0xFFFC);
        assert_eq!(mmu.read_word(0xFFFC), w);
        assert_eq!(cpu.pop(&mmu), w);
        assert_eq!(cpu.registers.sp, 0xFFFE);
    }
}

#[test]
fn push_to_rom_is_lost() {
    let mut cpu = CPU::new();
    let mut mmu = MMU::new();
    cpu.registers.sp = 0x0002;
    cpu.push(0x1234, &mut mmu);
    assert_eq!(cpu.pop(&mmu), 0x0000);
}

#[test]
fn call_pushes_the_address_of_the_next_instruction() {
    let mut cpu = CPU::new();
    let mut mmu = MMU::new();
    mmu.write_word(0xC001, 0x2000);
    cpu.registers.pc = 0xC001;
    cpu.call(true, &mut mmu);
    assert_eq!(cpu.registers.pc, 0x2000);
    assert_eq!(cpu.registers.sp, 0xFFFC);
    assert_eq!(mmu.read_word(0xFFFC), 0xC003);
    cpu.ret(true, &mmu);
    assert_eq!(cpu.registers.pc, 0xC003);
    assert_eq!(cpu.registers.sp, 0xFFFE);
    cpu.registers.pc = 0xC001;
    cpu.call(false, &mut mmu);
    assert_eq!(cpu.registers.pc, 0xC003);
    assert_eq!(cpu.registers.sp, 0xFFFE);
    cpu.ret(false, &mmu);
    assert_eq!(cpu.registers.pc, 0xC003);
}

#[test]
fn rst_pushes_the_program_counter() {
    let mut cpu = CPU::new();
    let mut mmu = MMU::new();
    cpu.registers.pc = 0xC123;
    cpu.rst(0x28, &mut mmu);
    assert_eq!(cpu.registers.pc, 0x0028);
    assert_eq!(cpu.pop(&mmu), 0xC123);
}

#[test]
fn control_register_addresses() {
    assert_eq!(ControlRegisters::IE.address(), 0xFFFF);
    assert_eq!(ControlRegisters::IF.address(), 0xFF0F);
    assert_eq!(ControlRegisters::DIV.address(), 0xFF04);
    assert_eq!(ControlRegisters::TIMA.address(), 0xFF05);
    assert_eq!(ControlRegisters::TMA.address(), 0xFF06);
    assert_eq!(ControlRegisters::TAC.address(), 0xFF07);
}

#[test]
fn interrupt_bits_and_vectors() {
    assert_eq!(InterruptCode::Vblank.bit_mask(), 0x01);
    assert_eq!(InterruptCode::Lcd.bit_mask(), 0x02);
    assert_eq!(InterruptCode::Timer.bit_mask(), 0x04);
    assert_eq!(InterruptCode::Serial.bit_mask(), 0x08);
    assert_eq!(InterruptCode::Joypad.bit_mask(), 0x10);
    assert_eq!(InterruptCode::Vblank.handler(), 0x40);
    assert_eq!(InterruptCode::Lcd.handler(), 0x48);
    assert_eq!(InterruptCode::Timer.handler(), 0x50);
    assert_eq!(InterruptCode::Serial.handler(), 0x58);
    assert_eq!(InterruptCode::Joypad.handler(), 0x60);
}

#[test]
fn interrupt_lines_are_set_and_cleared() {
    let mut cpu = CPU::new();
    let mut mmu = MMU::new();
    cpu.set_if(InterruptCode::Timer, true, &mut mmu);
    cpu.set_if(InterruptCode::Joypad, true, &mut mmu);
    assert_eq!(mmu.read_byte(0xFF0F), 0x14);
    assert!(cpu.get_if(InterruptCode::Timer, &mmu));
    assert!(!cpu.get_if(InterruptCode::Vblank, &mmu));
    cpu.set_if(InterruptCode::Timer, false, &mut mmu);
    assert_eq!(mmu.read_byte(0xFF0F), 0x10);
    cpu.set_ie(InterruptCode::Vblank, true, &mut mmu);
    cpu.set_ie(InterruptCode::Serial, true, &mut mmu);
    assert_eq!(mmu.read_byte(0xFFFF), 0x09);
    assert!(cpu.get_ie(InterruptCode::Serial, &mmu));
    assert!(!cpu.get_ie(InterruptCode::Lcd, &mmu));
    cpu.set_ie(InterruptCode::Vblank, false, &mut mmu);
    assert_eq!(mmu.read_byte(0xFFFF), 0x08);
}

#[test]
fn interrupts_are_served_by_priority() {
    let mut cpu = CPU::new();
    let mut mmu = MMU::new();
    mmu.write_byte(0xFFFF, 0x1F);
    mmu.write_byte(0xFF0F, 0x14);
    cpu.registers.pc = 0xC123;
    cpu.set_ime(true);
    assert!(matches!(cpu.pending_interrupt(&mmu), Some(InterruptCode::Timer)));
    assert_eq!(cpu.handle_interrupts(&mut mmu), 5);
    assert_eq!(cpu.registers.pc, 0x0050);
    assert!(!cpu.get_ime());
    assert_eq!(mmu.read_byte(0xFF0F), 0x10);
    assert_eq!(cpu.registers.sp, 0xFFFC);
    assert_eq!(mmu.read_word(0xFFFC), 0xC123);
    // with interrupts disabled nothing is served
    assert_eq!(cpu.handle_interrupts(&mut mmu), 0);
    assert_eq!(cpu.registers.pc, 0x0050);
    cpu.set_ime(true);
    assert_eq!(cpu.handle_interrupts(&mut mmu), 5);
    assert_eq!(cpu.registers.pc, 0x0060);
    assert_eq!(mmu.read_byte(0xFF0F), 0x00);
    cpu.set_ime(true);
    assert_eq!(cpu.handle_interrupts(&mut mmu), 0);
    assert!(cpu.get_ime());
}

#[test]
fn requested_but_disabled_sources_are_not_served() {
    let mut cpu = CPU::new();
    let mut mmu = MMU::new();
    mmu.write_byte(0xFFFF, 0x02);
    mmu.write_byte(0xFF0F, 0x01);
    cpu.set_ime(true);
    assert!(cpu.pending_interrupt(&mmu).is_none());
    assert_eq!(cpu.handle_interrupts(&mut mmu), 0);
    assert_eq!(mmu.read_byte(0xFF0F), 0x01);
}

#[test]
fn high_bits_of_the_interrupt_registers_are_ignored() {
    let mut cpu = CPU::new();
    let mut mmu = MMU::new();
    mmu.write_byte(0xFFFF, 0xE0);
    mmu.write_byte(0xFF0F, 0xE0);
    assert_eq!(mmu.read_byte(0xFFFF), 0xE0);
    assert_eq!(mmu.read_byte(0xFF0F), 0xE0);
    cpu.set_ime(true);
    assert!(cpu.pending_interrupt(&mmu).is_none());
    assert_eq!(cpu.handle_interrupts(&mut mmu), 0);
}
