//! The processor: its registers and flags, the arithmetic primitives that the
//! instructions share, the stack, the timer and the interrupt logic.
use vstd::prelude::*;
use crate::alu::{
    add16_flags, add_with_carry, alu_add, alu_and, alu_bit, alu_daa, alu_dec, alu_inc, alu_or,
    alu_res, alu_rl, alu_rlc, alu_rr, alu_rrc, alu_set, alu_sla, alu_sra, alu_srl, alu_sub,
    alu_swap, alu_xor, decimal_adjust, flag_c, flag_h, flag_n, flag_z, flags_with_c,
    flags_with_h, flags_with_n, flags_with_z, lemma_flag_masks, lemma_flags_read_back,
    lemma_rotate_left, lemma_rotate_right, lemma_word_masks, pack_flags, sp_offset_flags,
    sub_with_borrow,
};
use crate::bits::{
    hi, high_byte, lemma_word_parts, lo, low_byte, make_word, signed, word, wrap16, wrap8,
};
use crate::mmu::{Bus, MMU};
use crate::op_codes::{
    execute_opcode, execute_spec, is_defined, is_defined_opcode, lemma_execute_keeps_flags, Outcome,
};

verus! {

/// The register file: eight bytes, the program counter and the stack
/// pointer.
#[derive(Clone, Copy, Debug)]
pub struct Registers {
    pub a: u8,
    pub f: u8,
    pub b: u8,
    pub c: u8,
    pub d: u8,
    pub e: u8,
    pub h: u8,
    pub l: u8,
    pub pc: u16,
    pub sp: u16,
}

impl Registers {
    /// The register file as the boot program leaves it.
    pub open spec fn initial() -> Registers {
        Registers {
            a: 0x01,
            f: 0xB0,
            b: 0x00,
            c: 0x13,
            d: 0x00,
            e: 0xD8,
            h: 0x01,
            l: 0x4D,
            pc: 0x0100,
            sp: 0xFFFE,
        }
    }

    /// The register file as the boot program leaves it.
    pub fn new() -> (r: Registers)
        ensures
            r == Registers::initial(),
    {
        Registers {
            a: 0x01,
            f: 0xB0,
            b: 0x00,
            c: 0x13,
            d: 0x00,
            e: 0xD8,
            h: 0x01,
            l: 0x4D,
            pc: 0x0100,
            sp: 0xFFFE,
        }
    }
}

/// The five interrupt sources, highest priority first.
#[derive(Clone, Copy, Debug)]
pub enum InterruptCode {
    Vblank,
    Lcd,
    Timer,
    Serial,
    Joypad,
}

impl InterruptCode {
    /// The bit that the source has in the request and enable registers.
    pub open spec fn mask(self) -> u8 {
        match self {
            InterruptCode::Vblank => 0x01,
            InterruptCode::Lcd => 0x02,
            InterruptCode::Timer => 0x04,
            InterruptCode::Serial => 0x08,
            InterruptCode::Joypad => 0x10,
        }
    }

    /// The address that the processor jumps to when it serves the source.
    pub open spec fn vector(self) -> u16 {
        match self {
            InterruptCode::Vblank => 0x40,
            InterruptCode::Lcd => 0x48,
            InterruptCode::Timer => 0x50,
            InterruptCode::Serial => 0x58,
            InterruptCode::Joypad => 0x60,
        }
    }

    /// The bit that the source has in the request and enable registers.
    pub fn bit_mask(&self) -> (m: u8)
        ensures
            m == self.mask(),
    {
        match self {
            InterruptCode::Vblank => 0x01,
            InterruptCode::Lcd => 0x02,
            InterruptCode::Timer => 0x04,
            InterruptCode::Serial => 0x08,
            InterruptCode::Joypad => 0x10,
        }
    }

    /// The address that the processor jumps to when it serves the source.
    pub fn handler(&self) -> (v: u16)
        ensures
            v == self.vector(),
    {
        match self {
            InterruptCode::Vblank => 0x40,
            InterruptCode::Lcd => 0x48,
            InterruptCode::Timer => 0x50,
            InterruptCode::Serial => 0x58,
            InterruptCode::Joypad => 0x60,
        }
    }
}

/// The registers of the interrupt and timer logic.
#[derive(Clone, Copy, Debug)]
pub enum ControlRegisters {
    IE,
    IF,
    DIV,
    TIMA,
    TMA,
    TAC,
}

impl ControlRegisters {
    /// The address of the register.
    pub open spec fn location(self) -> u16 {
        match self {
            ControlRegisters::IE => 0xFFFF,
            ControlRegisters::IF => 0xFF0F,
            ControlRegisters::DIV => 0xFF04,
            ControlRegisters::TIMA => 0xFF05,
            ControlRegisters::TMA => 0xFF06,
            ControlRegisters::TAC => 0xFF07,
        }
    }

    /// The address of the register.
    pub fn address(&self) -> (a: u16)
        ensures
            a == self.location(),
    {
        match self {
            ControlRegisters::IE => 0xFFFF,
            ControlRegisters::IF => 0xFF0F,
            ControlRegisters::DIV => 0xFF04,
            ControlRegisters::TIMA => 0xFF05,
            ControlRegisters::TMA => 0xFF06,
            ControlRegisters::TAC => 0xFF07,
        }
    }
}

/// The processor.
#[derive(Clone, Copy, Debug)]
pub struct CPU {
    pub registers: Registers,
    /// An EI was executed and has not taken effect yet.
    pub ei_flag: bool,
    pub stop_flag: bool,
    pub halt_flag: bool,
    /// Machine cycles since the divider last ticked.
    pub div_counter: u32,
    /// Machine cycles since the timer counter last ticked.
    pub tima_counter: u32,
    pub ime: bool,
}

// The state as a value: what a register pair holds and what the state is
// after a part of it was replaced.
impl CPU {
    /// The state after reset.
    pub open spec fn initial() -> CPU {
        CPU {
            registers: Registers::initial(),
            ei_flag: false,
            stop_flag: false,
            halt_flag: false,
            div_counter: 0,
            tima_counter: 0,
            ime: false,
        }
    }

    /// The low nibble of the flag register is clear.
    pub open spec fn wf(self) -> bool {
        self.registers.f % 16 == 0
    }

    /// The pair AF.
    pub open spec fn af(self) -> u16 {
        word(self.registers.a, self.registers.f)
    }

    /// The pair BC.
    pub open spec fn bc(self) -> u16 {
        word(self.registers.b, self.registers.c)
    }

    /// The pair DE.
    pub open spec fn de(self) -> u16 {
        word(self.registers.d, self.registers.e)
    }

    /// The pair HL.
    pub open spec fn hl(self) -> u16 {
        word(self.registers.h, self.registers.l)
    }

    /// The state with A replaced.
    pub open spec fn with_a(self, v: u8) -> CPU {
        CPU { registers: Registers { a: v, ..self.registers }, ..self }
    }

    /// The state with F replaced.
    pub open spec fn with_f(self, v: u8) -> CPU {
        CPU { registers: Registers { f: v, ..self.registers }, ..self }
    }

    /// The state with B replaced.
    pub open spec fn with_b(self, v: u8) -> CPU {
        CPU { registers: Registers { b: v, ..self.registers }, ..self }
    }

    /// The state with C replaced.
    pub open spec fn with_c(self, v: u8) -> CPU {
        CPU { registers: Registers { c: v, ..self.registers }, ..self }
    }

    /// The state with D replaced.
    pub open spec fn with_d(self, v: u8) -> CPU {
        CPU { registers: Registers { d: v, ..self.registers }, ..self }
    }

    /// The state with E replaced.
    pub open spec fn with_e(self, v: u8) -> CPU {
        CPU { registers: Registers { e: v, ..self.registers }, ..self }
    }

    /// The state with H replaced.
    pub open spec fn with_h(self, v: u8) -> CPU {
        CPU { registers: Registers { h: v, ..self.registers }, ..self }
    }

    /// The state with L replaced.
    pub open spec fn with_l(self, v: u8) -> CPU {
        CPU { registers: Registers { l: v, ..self.registers }, ..self }
    }

    /// The state with the program counter replaced.
    pub open spec fn with_pc(self, v: u16) -> CPU {
        CPU { registers: Registers { pc: v, ..self.registers }, ..self }
    }

    /// The state with the stack pointer replaced.
    pub open spec fn with_sp(self, v: u16) -> CPU {
        CPU { registers: Registers { sp: v, ..self.registers }, ..self }
    }

    /// AF replaced; the low nibble of F is cleared.
    pub open spec fn with_af(self, v: u16) -> CPU {
        CPU {
            registers: Registers { a: hi(v), f: ((lo(v) / 16) * 16) as u8, ..self.registers },
            ..self
        }
    }

    /// The state with BC replaced.
    pub open spec fn with_bc(self, v: u16) -> CPU {
        CPU { registers: Registers { b: hi(v), c: lo(v), ..self.registers }, ..self }
    }

    /// The state with DE replaced.
    pub open spec fn with_de(self, v: u16) -> CPU {
        CPU { registers: Registers { d: hi(v), e: lo(v), ..self.registers }, ..self }
    }

    /// The state with HL replaced.
    pub open spec fn with_hl(self, v: u16) -> CPU {
        CPU { registers: Registers { h: hi(v), l: lo(v), ..self.registers }, ..self }
    }

    /// The zero flag.
    pub open spec fn zf(self) -> bool {
        flag_z(self.registers.f)
    }

    /// The subtraction flag.
    pub open spec fn nf(self) -> bool {
        flag_n(self.registers.f)
    }

    /// The half-carry flag.
    pub open spec fn hf(self) -> bool {
        flag_h(self.registers.f)
    }

    /// The carry flag.
    pub open spec fn cf(self) -> bool {
        flag_c(self.registers.f)
    }
}

impl CPU {
    /// The processor in the state that follows the boot program.
    pub fn new() -> (cpu: CPU)
        ensures
            cpu == CPU::initial(),
    {
        CPU {
            registers: Registers::new(),
            ei_flag: false,
            stop_flag: false,
            halt_flag: false,
            div_counter: 0,
            tima_counter: 0,
            ime: false,
        }
    }

    /// Puts the processor back into the state that follows the boot program.
    pub fn reset(&mut self)
        ensures
            *final(self) == CPU::initial(),
    {
        *self = CPU::new();
    }

    /// The interrupt master enable.
    pub fn get_ime(&self) -> (r: bool)
        ensures
            r == self.ime,
    {
        self.ime
    }

    /// Sets the interrupt master enable.
    pub fn set_ime(&mut self, value: bool)
        ensures
            *final(self) == (CPU { ime: value, ..*old(self) }),
    {
        self.ime = value;
    }

    /// The pair AF.
    pub fn get_af(&self) -> (r: u16)
        ensures
            r == self.af(),
    {
        make_word(self.registers.a, self.registers.f)
    }

    /// The pair BC.
    pub fn get_bc(&self) -> (r: u16)
        ensures
            r == self.bc(),
    {
        make_word(self.registers.b, self.registers.c)
    }

    /// The pair DE.
    pub fn get_de(&self) -> (r: u16)
        ensures
            r == self.de(),
    {
        make_word(self.registers.d, self.registers.e)
    }

    /// The pair HL.
    pub fn get_hl(&self) -> (r: u16)
        ensures
            r == self.hl(),
    {
        make_word(self.registers.h, self.registers.l)
    }

    /// Writes the pair AF; the low nibble of F is cleared.
    pub fn set_af(&mut self, value: u16)
        ensures
            *final(self) == old(self).with_af(value),
            final(self).wf(),
    {
        let low: u8 = low_byte(value);
        proof {
            lemma_flag_masks(low);
        }
        self.registers.a = high_byte(value);
        self.registers.f = low & 0xF0;
    }

    /// Writes the pair BC.
    pub fn set_bc(&mut self, value: u16)
        ensures
            *final(self) == old(self).with_bc(value),
    {
        self.registers.b = high_byte(value);
        self.registers.c = low_byte(value);
    }

    /// Writes the pair DE.
    pub fn set_de(&mut self, value: u16)
        ensures
            *final(self) == old(self).with_de(value),
    {
        self.registers.d = high_byte(value);
        self.registers.e = low_byte(value);
    }

    /// Writes the pair HL.
    pub fn set_hl(&mut self, value: u16)
        ensures
            *final(self) == old(self).with_hl(value),
    {
        self.registers.h = high_byte(value);
        self.registers.l = low_byte(value);
    }

    /// The zero flag.
    pub fn get_zf(&self) -> (r: bool)
        ensures
            r == self.zf(),
    {
        proof {
            reveal(flag_z);
            lemma_flag_masks(self.registers.f);
        }
        (self.registers.f & 0b1000_0000) != 0
    }

    /// The subtraction flag.
    pub fn get_nf(&self) -> (r: bool)
        ensures
            r == self.nf(),
    {
        proof {
            reveal(flag_n);
            lemma_flag_masks(self.registers.f);
        }
        (self.registers.f & 0b0100_0000) != 0
    }

    /// The half-carry flag.
    pub fn get_hf(&self) -> (r: bool)
        ensures
            r == self.hf(),
    {
        proof {
            reveal(flag_h);
            lemma_flag_masks(self.registers.f);
        }
        (self.registers.f & 0b0010_0000) != 0
    }

    /// The carry flag.
    pub fn get_cf(&self) -> (r: bool)
        ensures
            r == self.cf(),
    {
        proof {
            reveal(flag_c);
            lemma_flag_masks(self.registers.f);
        }
        (self.registers.f & 0b0001_0000) != 0
    }

    /// Sets the four flags at once.
    pub fn update_flags(&mut self, zero: bool, carry: bool, half_carry: bool, substract: bool)
        ensures
            *final(self) == old(self).with_f(pack_flags(zero, substract, half_carry, carry)),
            final(self).wf(),
    {
        proof {
            reveal(pack_flags);
        }
        let mut f: u8 = 0;
        if zero {
            f = f + 0b1000_0000;
        }
        if substract {
            f = f + 0b0100_0000;
        }
        if half_carry {
            f = f + 0b0010_0000;
        }
        if carry {
            f = f + 0b0001_0000;
        }
        self.registers.f = f;
    }

    /// Sets the zero flag; the other flags stay.
    pub fn set_zf(&mut self, value: bool)
        ensures
            *final(self) == old(self).with_f(flags_with_z(old(self).registers.f, value)),
            final(self).wf(),
    {
        proof {
            reveal(flags_with_z);
        }
        let n: bool = self.get_nf();
        let h: bool = self.get_hf();
        let c: bool = self.get_cf();
        self.update_flags(value, c, h, n);
    }

    /// Sets the subtraction flag; the other flags stay.
    pub fn set_nf(&mut self, value: bool)
        ensures
            *final(self) == old(self).with_f(flags_with_n(old(self).registers.f, value)),
            final(self).wf(),
    {
        proof {
            reveal(flags_with_n);
        }
        let z: bool = self.get_zf();
        let h: bool = self.get_hf();
        let c: bool = self.get_cf();
        self.update_flags(z, c, h, value);
    }

    /// Sets the half-carry flag; the other flags stay.
    pub fn set_hf(&mut self, value: bool)
        ensures
            *final(self) == old(self).with_f(flags_with_h(old(self).registers.f, value)),
            final(self).wf(),
    {
        proof {
            reveal(flags_with_h);
        }
        let z: bool = self.get_zf();
        let n: bool = self.get_nf();
        let c: bool = self.get_cf();
        self.update_flags(z, c, value, n);
    }

    /// Sets the carry flag; the other flags stay.
    pub fn set_cf(&mut self, value: bool)
        ensures
            *final(self) == old(self).with_f(flags_with_c(old(self).registers.f, value)),
            final(self).wf(),
    {
        proof {
            reveal(flags_with_c);
        }
        let z: bool = self.get_zf();
        let n: bool = self.get_nf();
        let h: bool = self.get_hf();
        self.update_flags(z, value, h, n);
    }
}

// The arithmetic primitives. Each leaves its flags in F; those that return a
// byte leave it to the caller to store it.
impl CPU {
    /// The sum of two words, for an addition to HL: Z stays, H is the carry
    /// out of bit 11 and C the carry out of bit 15.
    pub fn add16(&mut self, n1: u16, n2: u16) -> (r: u16)
        ensures
            r == wrap16(n1 + n2),
            *final(self) == old(self).with_f(add16_flags(n1, n2, old(self).registers.f)),
    {
        proof {
            reveal(add16_flags);
            lemma_word_masks(n1);
            lemma_word_masks(n2);
        }
        let result: u16 = n1.wrapping_add(n2);
        let carry: bool = result < n1;
        let half: bool = (n1 & 0x0FFF) + (n2 & 0x0FFF) > 0x0FFF;
        let zero: bool = self.get_zf();
        self.update_flags(zero, carry, half, false);
        result
    }

    /// The stack pointer plus a signed byte. The carries are those of the low
    /// byte; the sum is returned and not stored.
    pub fn add_sp(&mut self, offset: u8) -> (r: u16)
        ensures
            r == wrap16(old(self).registers.sp + signed(offset)),
            *final(self) == old(self).with_f(sp_offset_flags(old(self).registers.sp, offset)),
    {
        let sp: u16 = self.registers.sp;
        proof {
            reveal(sp_offset_flags);
            lemma_word_masks(sp);
            lemma_flag_masks(offset);
        }
        let carry: bool = (sp & 0xFF) + (offset as u16) > 0xFF;
        let half_carry: bool = (sp & 0xF) + ((offset & 0xF) as u16) > 0xF;
        let result: u16 = if offset < 128 {
            sp.wrapping_add(offset as u16)
        } else {
            sp.wrapping_sub(256 - (offset as u16))
        };
        self.update_flags(false, carry, half_carry, false);
        result
    }

    /// The accumulator plus `n2`.
    pub fn add8(&mut self, n2: u8) -> (r: u8)
        ensures
            r == alu_add(old(self).registers.a, n2, false).value,
            *final(self) == old(self).with_f(alu_add(old(self).registers.a, n2, false).flags),
    {
        proof {
            reveal(alu_add);
        }
        let (result, carry, half) = add_with_carry(self.registers.a, n2, false);
        self.update_flags(result == 0, carry, half, false);
        result
    }

    /// The accumulator minus `n2`.
    pub fn sub(&mut self, n2: u8) -> (r: u8)
        ensures
            r == alu_sub(old(self).registers.a, n2, false).value,
            *final(self) == old(self).with_f(alu_sub(old(self).registers.a, n2, false).flags),
    {
        proof {
            reveal(alu_sub);
        }
        let (result, carry, half) = sub_with_borrow(self.registers.a, n2, false);
        self.update_flags(result == 0, carry, half, true);
        result
    }

    /// The accumulator plus `n2` plus the carry.
    pub fn adc(&mut self, n2: u8) -> (r: u8)
        ensures
            r == alu_add(old(self).registers.a, n2, old(self).cf()).value,
            *final(self) == old(self).with_f(
                alu_add(old(self).registers.a, n2, old(self).cf()).flags,
            ),
    {
        proof {
            reveal(alu_add);
        }
        let carry_prev: bool = self.get_cf();
        let (result, carry, half) = add_with_carry(self.registers.a, n2, carry_prev);
        self.update_flags(result == 0, carry, half, false);
        result
    }

    /// The accumulator minus `n2` minus the carry.
    pub fn sbc(&mut self, n2: u8) -> (r: u8)
        ensures
            r == alu_sub(old(self).registers.a, n2, old(self).cf()).value,
            *final(self) == old(self).with_f(
                alu_sub(old(self).registers.a, n2, old(self).cf()).flags,
            ),
    {
        proof {
            reveal(alu_sub);
        }
        let carry_prev: bool = self.get_cf();
        let (result, carry, half) = sub_with_borrow(self.registers.a, n2, carry_prev);
        self.update_flags(result == 0, carry, half, true);
        result
    }

    /// The accumulator becomes its bitwise AND with `num`.
    pub fn and(&mut self, num: u8)
        ensures
            *final(self) == old(self).with_a(alu_and(old(self).registers.a, num).value).with_f(
                alu_and(old(self).registers.a, num).flags,
            ),
    {
        proof {
            reveal(alu_and);
        }
        self.registers.a = self.registers.a & num;
        let zero: bool = self.registers.a == 0;
        self.update_flags(zero, false, true, false);
    }

    /// The accumulator becomes its bitwise OR with `num`.
    pub fn or(&mut self, num: u8)
        ensures
            *final(self) == old(self).with_a(alu_or(old(self).registers.a, num).value).with_f(
                alu_or(old(self).registers.a, num).flags,
            ),
    {
        proof {
            reveal(alu_or);
        }
        self.registers.a = self.registers.a | num;
        let zero: bool = self.registers.a == 0;
        self.update_flags(zero, false, false, false);
    }

    /// The accumulator becomes its bitwise XOR with `num`.
    pub fn xor(&mut self, num: u8)
        ensures
            *final(self) == old(self).with_a(alu_xor(old(self).registers.a, num).value).with_f(
                alu_xor(old(self).registers.a, num).flags,
            ),
    {
        proof {
            reveal(alu_xor);
        }
        self.registers.a = self.registers.a ^ num;
        let zero: bool = self.registers.a == 0;
        self.update_flags(zero, false, false, false);
    }

    /// Compares: the flags of a subtraction, whose result is dropped.
    pub fn cp(&mut self, num: u8)
        ensures
            *final(self) == old(self).with_f(alu_sub(old(self).registers.a, num, false).flags),
    {
        proof {
            reveal(alu_sub);
        }
        let (result, carry, half) = sub_with_borrow(self.registers.a, num, false);
        self.update_flags(result == 0, carry, half, true);
    }

    /// `value + 1`; the carry flag stays.
    pub fn inc(&mut self, value: u8) -> (r: u8)
        ensures
            r == alu_inc(value, old(self).registers.f).value,
            *final(self) == old(self).with_f(alu_inc(value, old(self).registers.f).flags),
    {
        proof {
            reveal(alu_inc);
            lemma_flag_masks(value);
        }
        let result: u8 = value.wrapping_add(1);
        let carry: bool = self.get_cf();
        self.update_flags(result == 0, carry, (value & 0x0F) + 1 > 0x0F, false);
        result
    }

    /// `value - 1`; the carry flag stays.
    pub fn dec(&mut self, value: u8) -> (r: u8)
        ensures
            r == alu_dec(value, old(self).registers.f).value,
            *final(self) == old(self).with_f(alu_dec(value, old(self).registers.f).flags),
    {
        proof {
            reveal(alu_dec);
            lemma_flag_masks(value);
        }
        let result: u8 = value.wrapping_sub(1);
        let carry: bool = self.get_cf();
        self.update_flags(result == 0, carry, (value & 0x0F) < 1, true);
        result
    }

    /// Rotates left; bit 7 goes to bit 0 and to the carry.
    pub fn rlc(&mut self, value: u8) -> (r: u8)
        ensures
            r == alu_rlc(value).value,
            *final(self) == old(self).with_f(alu_rlc(value).flags),
    {
        proof {
            reveal(alu_rlc);
            lemma_flag_masks(value);
            lemma_rotate_left(value, 0);
        }
        let seven: bool = value & 0x80 != 0;
        let result: u8 = (value << 1) | (value >> 7);
        self.update_flags(result == 0, seven, false, false);
        result
    }

    /// Rotates the accumulator left; Z is cleared.
    pub fn rlca(&mut self)
        ensures
            *final(self) == old(self).with_a(alu_rlc(old(self).registers.a).value).with_f(
                flags_with_z(alu_rlc(old(self).registers.a).flags, false),
            ),
    {
        let a: u8 = self.registers.a;
        self.registers.a = self.rlc(a);
        self.set_zf(false);
    }

    /// Rotates left through the carry.
    pub fn rl(&mut self, value: u8) -> (r: u8)
        ensures
            r == alu_rl(value, old(self).registers.f).value,
            *final(self) == old(self).with_f(alu_rl(value, old(self).registers.f).flags),
    {
        proof {
            reveal(alu_rl);
        }
        let carry: u8 = if self.get_cf() { 1 } else { 0 };
        proof {
            lemma_flag_masks(value);
            lemma_rotate_left(value, carry);
        }
        let seven: bool = value & 0x80 != 0;
        let result: u8 = (value << 1) | carry;
        self.update_flags(result == 0, seven, false, false);
        result
    }

    /// Rotates the accumulator left through the carry; Z is cleared.
    pub fn rla(&mut self)
        ensures
            *final(self) == old(self).with_a(
                alu_rl(old(self).registers.a, old(self).registers.f).value,
            ).with_f(
                flags_with_z(alu_rl(old(self).registers.a, old(self).registers.f).flags, false),
            ),
    {
        let a: u8 = self.registers.a;
        self.registers.a = self.rl(a);
        self.set_zf(false);
    }

    /// Rotates right; bit 0 goes to bit 7 and to the carry.
    pub fn rrc(&mut self, value: u8) -> (r: u8)
        ensures
            r == alu_rrc(value).value,
            *final(self) == old(self).with_f(alu_rrc(value).flags),
    {
        proof {
            reveal(alu_rrc);
            lemma_flag_masks(value);
            lemma_rotate_right(value, 0);
        }
        let bit: u8 = value & 0b0000_0001;
        let result: u8 = (value >> 1) | (bit << 7);
        self.update_flags(result == 0, bit != 0, false, false);
        result
    }

    /// Rotates the accumulator right; Z is cleared.
    pub fn rrca(&mut self)
        ensures
            *final(self) == old(self).with_a(alu_rrc(old(self).registers.a).value).with_f(
                flags_with_z(alu_rrc(old(self).registers.a).flags, false),
            ),
    {
        let a: u8 = self.registers.a;
        self.registers.a = self.rrc(a);
        self.set_zf(false);
    }

    /// Rotates right through the carry.
    pub fn rr(&mut self, value: u8) -> (r: u8)
        ensures
            r == alu_rr(value, old(self).registers.f).value,
            *final(self) == old(self).with_f(alu_rr(value, old(self).registers.f).flags),
    {
        proof {
            reveal(alu_rr);
        }
        let carry: u8 = if self.get_cf() { 1 } else { 0 };
        proof {
            lemma_flag_masks(value);
            lemma_rotate_right(value, carry);
        }
        let bit: u8 = value & 0b0000_0001;
        let result: u8 = (value >> 1) | (carry << 7);
        self.update_flags(result == 0, bit != 0, false, false);
        result
    }

    /// Rotates the accumulator right through the carry; Z is cleared.
    pub fn rra(&mut self)
        ensures
            *final(self) == old(self).with_a(
                alu_rr(old(self).registers.a, old(self).registers.f).value,
            ).with_f(
                flags_with_z(alu_rr(old(self).registers.a, old(self).registers.f).flags, false),
            ),
    {
        let a: u8 = self.registers.a;
        self.registers.a = self.rr(a);
        self.set_zf(false);
    }

    /// Shifts left; bit 7 goes to the carry.
    pub fn sla(&mut self, value: u8) -> (r: u8)
        ensures
            r == alu_sla(value).value,
            *final(self) == old(self).with_f(alu_sla(value).flags),
    {
        proof {
            reveal(alu_sla);
            lemma_flag_masks(value);
            lemma_rotate_left(value, 0);
        }
        let seven: bool = value & 0x80 != 0;
        let result: u8 = value << 1;
        self.update_flags(result == 0, seven, false, false);
        result
    }

    /// Shifts right and keeps bit 7; bit 0 goes to the carry.
    pub fn sra(&mut self, value: u8) -> (r: u8)
        ensures
            r == alu_sra(value).value,
            *final(self) == old(self).with_f(alu_sra(value).flags),
    {
        proof {
            reveal(alu_sra);
            lemma_flag_masks(value);
            lemma_rotate_right(value, 0);
        }
        let seven: u8 = value & 0b1000_0000;
        let bit: u8 = value & 0b0000_0001;
        let result: u8 = (value >> 1) | seven;
        self.update_flags(result == 0, bit != 0, false, false);
        result
    }

    /// Shifts right; bit 0 goes to the carry.
    pub fn srl(&mut self, value: u8) -> (r: u8)
        ensures
            r == alu_srl(value).value,
            *final(self) == old(self).with_f(alu_srl(value).flags),
    {
        proof {
            reveal(alu_srl);
            lemma_flag_masks(value);
            lemma_rotate_right(value, 0);
        }
        let bit: u8 = value & 0b0000_0001;
        let result: u8 = value >> 1;
        self.update_flags(result == 0, bit != 0, false, false);
        result
    }

    /// Exchanges the two nibbles.
    pub fn swap(&mut self, value: u8) -> (r: u8)
        ensures
            r == alu_swap(value).value,
            *final(self) == old(self).with_f(alu_swap(value).flags),
    {
        proof {
            reveal(alu_swap);
            lemma_rotate_right(value, 0);
        }
        let low: u8 = value & 0x0F;
        let high: u8 = value & 0xF0;
        let res: u8 = (low << 4) | (high >> 4);
        self.update_flags(res == 0, false, false, false);
        res
    }

    /// `num` with a bit cleared. No flag changes.
    pub fn res(&mut self, bit: u8, num: u8) -> (r: u8)
        requires
            bit < 8,
        ensures
            r == alu_res(bit, num),
            *final(self) == *old(self),
    {
        num & !(1u8 << bit)
    }

    /// `num` with a bit set. No flag changes.
    pub fn set(&mut self, bit: u8, num: u8) -> (r: u8)
        requires
            bit < 8,
        ensures
            r == alu_set(bit, num),
            *final(self) == *old(self),
    {
        num | (1u8 << bit)
    }

    /// Tests a bit: Z is set when it is clear, H is set, the carry stays.
    pub fn bit(&mut self, bit: u8, num: u8)
        requires
            bit < 8,
        ensures
            *final(self) == old(self).with_f(alu_bit(bit, num, old(self).registers.f)),
    {
        proof {
            reveal(alu_bit);
        }
        assert(((num & (1u8 << bit)) == 0) == !((num >> bit) & 1 == 1)) by (bit_vector)
            requires
                bit < 8,
        ;
        let res: bool = (num & (1u8 << bit)) == 0;
        let carry: bool = self.get_cf();
        self.update_flags(res, carry, true, false);
    }

    /// Adjusts the accumulator to binary coded decimal after an addition or a
    /// subtraction.
    pub fn daa(&mut self)
        ensures
            *final(self) == old(self).with_a(
                alu_daa(old(self).registers.a, old(self).registers.f).value,
            ).with_f(alu_daa(old(self).registers.a, old(self).registers.f).flags),
    {
        proof {
            reveal(alu_daa);
        }
        let negative: bool = self.get_nf();
        let half: bool = self.get_hf();
        let carry_prev: bool = self.get_cf();
        let (result, carry) = decimal_adjust(self.registers.a, negative, half, carry_prev);
        self.registers.a = result;
        self.update_flags(result == 0, carry, false, negative);
    }

    /// Complements the accumulator; N and H are set.
    pub fn cpl(&mut self)
        ensures
            *final(self) == old(self).with_a(!old(self).registers.a).with_f(
                pack_flags(old(self).zf(), true, true, old(self).cf()),
            ),
    {
        proof {
            lemma_flags_read_back();
            reveal(flags_with_n);
            reveal(flags_with_h);
        }
        self.registers.a = !self.registers.a;
        self.set_nf(true);
        self.set_hf(true);
    }

    /// Complements the carry; N and H are cleared.
    pub fn ccf(&mut self)
        ensures
            *final(self) == old(self).with_f(
                pack_flags(old(self).zf(), false, false, !old(self).cf()),
            ),
    {
        proof {
            lemma_flags_read_back();
            reveal(flags_with_c);
            reveal(flags_with_n);
            reveal(flags_with_h);
        }
        let carry: bool = self.get_cf();
        self.set_cf(!carry);
        self.set_nf(false);
        self.set_hf(false);
    }

    /// Sets the carry; N and H are cleared.
    pub fn scf(&mut self)
        ensures
            *final(self) == old(self).with_f(pack_flags(old(self).zf(), false, false, true)),
    {
        proof {
            lemma_flags_read_back();
            reveal(flags_with_c);
            reveal(flags_with_n);
            reveal(flags_with_h);
        }
        self.set_cf(true);
        self.set_nf(false);
        self.set_hf(false);
    }
}

// Instruction fetch, jumps and the stack.
impl CPU {
    /// The state with the program counter moved on by `n` bytes.
    pub open spec fn advanced(self, n: int) -> CPU {
        self.with_pc(wrap16(self.registers.pc + n))
    }

    /// The state after a relative jump was read at the program counter: the
    /// offset is a signed byte, counted from the byte that follows it.
    pub open spec fn after_jr(self, bus: Bus, condition: bool) -> CPU {
        if condition {
            self.advanced(1 + signed(bus.read(self.registers.pc)))
        } else {
            self.advanced(1)
        }
    }

    /// The state after an absolute jump was read at the program counter.
    pub open spec fn after_jp(self, bus: Bus, condition: bool) -> CPU {
        if condition {
            self.with_pc(bus.read_word(self.registers.pc))
        } else {
            self.advanced(2)
        }
    }

    /// The stack pointer after a push.
    pub open spec fn sp_below(self) -> u16 {
        wrap16(self.registers.sp - 2)
    }

    /// The bus after `value` was pushed.
    pub open spec fn push_bus(self, bus: Bus, value: u16) -> Bus {
        bus.write_word(self.sp_below(), value)
    }

    /// The state after a push.
    pub open spec fn after_push(self) -> CPU {
        self.with_sp(self.sp_below())
    }

    /// The word on top of the stack.
    pub open spec fn stack_top(self, bus: Bus) -> u16 {
        bus.read_word(self.registers.sp)
    }

    /// The state after a pop.
    pub open spec fn after_pop(self) -> CPU {
        self.with_sp(wrap16(self.registers.sp + 2))
    }

    /// The state after a return was executed.
    pub open spec fn after_ret(self, bus: Bus, condition: bool) -> CPU {
        if condition {
            self.after_pop().with_pc(self.stack_top(bus))
        } else {
            self
        }
    }

    /// The state after a call was read at the program counter.
    pub open spec fn after_call(self, bus: Bus, condition: bool) -> CPU {
        if condition {
            self.after_push().with_pc(bus.read_word(self.registers.pc))
        } else {
            self.advanced(2)
        }
    }

    /// The bus after a call was read at the program counter: the address of
    /// the instruction that follows the call is pushed.
    pub open spec fn call_bus(self, bus: Bus, condition: bool) -> Bus {
        if condition {
            self.push_bus(bus, wrap16(self.registers.pc + 2))
        } else {
            bus
        }
    }

    /// Reads the byte at the program counter and moves on.
    pub fn fetch_byte(&mut self, mmu: &MMU) -> (op: u8)
        ensures
            op == mmu@.read(old(self).registers.pc),
            *final(self) == old(self).advanced(1),
    {
        let op: u8 = mmu.read_byte(self.registers.pc);
        self.registers.pc = self.registers.pc.wrapping_add(1);
        op
    }

    /// Reads the word at the program counter and moves on.
    pub fn fetch_word(&mut self, mmu: &MMU) -> (op: u16)
        ensures
            op == mmu@.read_word(old(self).registers.pc),
            *final(self) == old(self).advanced(2),
    {
        let op: u16 = mmu.read_word(self.registers.pc);
        self.registers.pc = self.registers.pc.wrapping_add(2);
        op
    }

    /// Reads a signed offset and, if the condition holds, jumps by it.
    pub fn jr(&mut self, condition: bool, mmu: &MMU)
        ensures
            *final(self) == old(self).after_jr(mmu@, condition),
    {
        let offset: u8 = self.fetch_byte(mmu);
        if condition {
            if offset < 128 {
                self.registers.pc = self.registers.pc.wrapping_add(offset as u16);
            } else {
                self.registers.pc = self.registers.pc.wrapping_sub(256 - (offset as u16));
            }
        }
    }

    /// Reads an address and, if the condition holds, jumps to it.
    pub fn jp(&mut self, condition: bool, mmu: &MMU)
        ensures
            *final(self) == old(self).after_jp(mmu@, condition),
    {
        let address: u16 = self.fetch_word(mmu);
        if condition {
            self.registers.pc = address;
        }
    }

    /// Takes a word from the stack.
    pub fn pop(&mut self, mmu: &MMU) -> (value: u16)
        ensures
            value == old(self).stack_top(mmu@),
            *final(self) == old(self).after_pop(),
    {
        let value: u16 = mmu.read_word(self.registers.sp);
        self.registers.sp = self.registers.sp.wrapping_add(2);
        value
    }

    /// Puts a word on the stack.
    pub fn push(&mut self, value: u16, mmu: &mut MMU)
        ensures
            *final(self) == old(self).after_push(),
            final(mmu)@ == old(self).push_bus(old(mmu)@, value),
    {
        self.registers.sp = self.registers.sp.wrapping_sub(2);
        mmu.write_word(self.registers.sp, value);
    }

    /// Pushes the program counter and jumps to `address`.
    pub fn rst(&mut self, address: u16, mmu: &mut MMU)
        ensures
            *final(self) == old(self).after_push().with_pc(address),
            final(mmu)@ == old(self).push_bus(old(mmu)@, old(self).registers.pc),
    {
        let pc: u16 = self.registers.pc;
        self.push(pc, mmu);
        self.registers.pc = address;
    }

    /// If the condition holds, returns to the address on the stack.
    pub fn ret(&mut self, condition: bool, mmu: &MMU)
        ensures
            *final(self) == old(self).after_ret(mmu@, condition),
    {
        if condition {
            self.registers.pc = self.pop(mmu);
        }
    }

    /// Reads an address and, if the condition holds, pushes the address of
    /// the next instruction and jumps.
    pub fn call(&mut self, condition: bool, mmu: &mut MMU)
        ensures
            *final(self) == old(self).after_call(old(mmu)@, condition),
            final(mmu)@ == old(self).call_bus(old(mmu)@, condition),
    {
        let address: u16 = self.fetch_word(mmu);
        if condition {
            let pc: u16 = self.registers.pc;
            self.push(pc, mmu);
            self.registers.pc = address;
        }
    }
}

/// The machine cycles between two ticks of the timer counter, as the two low
/// bits of the control register choose them.
pub open spec fn tac_frequency(tac: u8) -> int {
    if tac % 4 == 0 {
        256
    } else if tac % 4 == 1 {
        4
    } else if tac % 4 == 2 {
        16
    } else {
        64
    }
}

/// Bit 2 of the control register: the timer counter runs.
pub open spec fn tac_enabled(tac: u8) -> bool {
    tac / 4 % 2 == 1
}

/// One tick of the timer counter: past 0xFF it is loaded from the modulo.
pub open spec fn tima_tick(tima: u8, tma: u8) -> u8 {
    if tima == 255 {
        tma
    } else {
        (tima + 1) as u8
    }
}

/// The timer counter after `ticks` ticks.
pub open spec fn tima_after(tima: u8, tma: u8, ticks: nat) -> u8
    decreases ticks,
{
    if ticks == 0 {
        tima
    } else {
        tima_tick(tima_after(tima, tma, (ticks - 1) as nat), tma)
    }
}

/// The timer counter went past 0xFF during `ticks` ticks.
pub open spec fn tima_overflowed(tima: u8, tma: u8, ticks: nat) -> bool
    decreases ticks,
{
    ticks > 0 && (tima_overflowed(tima, tma, (ticks - 1) as nat) || tima_after(
        tima,
        tma,
        (ticks - 1) as nat,
    ) == 255)
}

/// The source is requested and enabled.
pub open spec fn requested(bus: Bus, code: InterruptCode) -> bool {
    bus.raw(0xFF0F) & code.mask() != 0 && bus.raw(0xFFFF) & code.mask() != 0
}

/// The source that would be served next: the requested and enabled source of
/// the highest priority.
pub open spec fn pending(bus: Bus) -> Option<InterruptCode> {
    if requested(bus, InterruptCode::Vblank) {
        Some(InterruptCode::Vblank)
    } else if requested(bus, InterruptCode::Lcd) {
        Some(InterruptCode::Lcd)
    } else if requested(bus, InterruptCode::Timer) {
        Some(InterruptCode::Timer)
    } else if requested(bus, InterruptCode::Serial) {
        Some(InterruptCode::Serial)
    } else if requested(bus, InterruptCode::Joypad) {
        Some(InterruptCode::Joypad)
    } else {
        None
    }
}

/// The bus with the bit of `code` in the register at `address` set to
/// `value`.
pub open spec fn with_line(bus: Bus, address: u16, code: InterruptCode, value: bool) -> Bus {
    bus.put(
        address,
        if value {
            bus.raw(address) | code.mask()
        } else {
            bus.raw(address) & !code.mask()
        },
    )
}

// The timer and the interrupt logic.
impl CPU {
    /// The processor after the divider saw `cycles` machine cycles: a write to
    /// the divider register since the last look restarts the count.
    pub open spec fn div_advance_cpu(self, bus: Bus, cycles: u32) -> CPU {
        CPU {
            div_counter: if bus.div_reset {
                0
            } else {
                ((self.div_counter + cycles) % 64) as u32
            },
            ..self
        }
    }

    /// The bus after the divider saw `cycles` machine cycles: the register
    /// counts up once for every 64 cycles, and wraps.
    pub open spec fn div_advance_bus(self, bus: Bus, cycles: u32) -> Bus {
        if bus.div_reset {
            Bus { div_reset: false, ..bus }
        } else {
            bus.put(0xFF04, wrap8(bus.raw(0xFF04) + (self.div_counter + cycles) / 64))
        }
    }

    /// How often the timer counter ticks during `cycles` machine cycles.
    pub open spec fn tima_ticks(self, bus: Bus, cycles: u32) -> nat {
        ((self.tima_counter + cycles) / tac_frequency(bus.raw(0xFF07))) as nat
    }

    /// The processor after the timer counter saw `cycles` machine cycles.
    pub open spec fn tima_advance_cpu(self, bus: Bus, cycles: u32) -> CPU {
        CPU {
            tima_counter: ((self.tima_counter + cycles) % tac_frequency(bus.raw(0xFF07))) as u32,
            ..self
        }
    }

    /// The bus after the timer counter saw `cycles` machine cycles: while it is
    /// enabled the counter ticks, and an overflow requests the timer
    /// interrupt.
    pub open spec fn tima_advance_bus(self, bus: Bus, cycles: u32) -> Bus {
        let ticks = self.tima_ticks(bus, cycles);
        let tima = bus.raw(0xFF05);
        let tma = bus.raw(0xFF06);
        if !tac_enabled(bus.raw(0xFF07)) {
            bus
        } else if tima_overflowed(tima, tma, ticks) {
            with_line(
                bus.put(0xFF05, tima_after(tima, tma, ticks)),
                0xFF0F,
                InterruptCode::Timer,
                true,
            )
        } else {
            bus.put(0xFF05, tima_after(tima, tma, ticks))
        }
    }

    /// The processor after both counters saw `cycles` machine cycles.
    pub open spec fn timers_cpu(self, bus: Bus, cycles: u32) -> CPU {
        let divided = self.div_advance_cpu(bus, cycles);
        divided.tima_advance_cpu(self.div_advance_bus(bus, cycles), cycles)
    }

    /// The bus after both counters saw `cycles` machine cycles.
    pub open spec fn timers_bus(self, bus: Bus, cycles: u32) -> Bus {
        let divided = self.div_advance_cpu(bus, cycles);
        divided.tima_advance_bus(self.div_advance_bus(bus, cycles), cycles)
    }

    /// The processor after it began to serve `code`.
    pub open spec fn serve_cpu(self, code: InterruptCode) -> CPU {
        CPU { ime: false, halt_flag: false, ..self.after_push().with_pc(code.vector()) }
    }

    /// The bus after the processor began to serve `code`: the request is
    /// cleared and the program counter pushed.
    pub open spec fn serve_bus(self, bus: Bus, code: InterruptCode) -> Bus {
        self.push_bus(with_line(bus, 0xFF0F, code, false), self.registers.pc)
    }

    /// The machine cycles between two ticks of the timer counter.
    pub fn get_tac_frequency(&self, mmu: &MMU) -> (f: u32)
        ensures
            f == tac_frequency(mmu@.raw(0xFF07)),
    {
        let tac: u8 = mmu.load(ControlRegisters::TAC.address());
        assert(tac & 0b11 == tac % 4) by (bit_vector);
        let select: u8 = tac & 0b11;
        if select == 0b00 {
            256
        } else if select == 0b01 {
            4
        } else if select == 0b10 {
            16
        } else {
            64
        }
    }

    /// Tells whether the timer counter runs.
    pub fn get_tac_enabled(&self, mmu: &MMU) -> (r: bool)
        ensures
            r == tac_enabled(mmu@.raw(0xFF07)),
    {
        let tac: u8 = mmu.load(ControlRegisters::TAC.address());
        assert((tac & 0b100 != 0) == (tac / 4 % 2 == 1)) by (bit_vector);
        (tac & 0b100) != 0
    }

    /// Tells whether the source is enabled.
    pub fn get_ie(&self, code: InterruptCode, mmu: &MMU) -> (r: bool)
        ensures
            r == (mmu@.raw(0xFFFF) & code.mask() != 0),
    {
        (mmu.load(ControlRegisters::IE.address()) & code.bit_mask()) != 0
    }

    /// Tells whether the source is requested.
    pub fn get_if(&self, code: InterruptCode, mmu: &MMU) -> (r: bool)
        ensures
            r == (mmu@.raw(0xFF0F) & code.mask() != 0),
    {
        (mmu.load(ControlRegisters::IF.address()) & code.bit_mask()) != 0
    }

    /// Enables or disables the source.
    pub fn set_ie(&mut self, code: InterruptCode, value: bool, mmu: &mut MMU)
        ensures
            *final(self) == *old(self),
            final(mmu)@ == with_line(old(mmu)@, 0xFFFF, code, value),
    {
        let address: u16 = ControlRegisters::IE.address();
        let current: u8 = mmu.load(address);
        if value {
            mmu.store(address, current | code.bit_mask());
        } else {
            mmu.store(address, current & !code.bit_mask());
        }
    }

    /// Requests the source, or clears its request.
    pub fn set_if(&mut self, code: InterruptCode, value: bool, mmu: &mut MMU)
        ensures
            *final(self) == *old(self),
            final(mmu)@ == with_line(old(mmu)@, 0xFF0F, code, value),
    {
        let address: u16 = ControlRegisters::IF.address();
        let current: u8 = mmu.load(address);
        if value {
            mmu.store(address, current | code.bit_mask());
        } else {
            mmu.store(address, current & !code.bit_mask());
        }
    }

    /// Lets the divider see `cycles` machine cycles.
    pub fn advance_div(&mut self, cycles: u32, mmu: &mut MMU)
        ensures
            *final(self) == old(self).div_advance_cpu(old(mmu)@, cycles),
            final(mmu)@ == old(self).div_advance_bus(old(mmu)@, cycles),
    {
        if mmu.div_reset {
            mmu.clear_div_reset();
            self.div_counter = 0;
        } else {
            let total: u64 = (self.div_counter as u64) + (cycles as u64);
            let ticks: u64 = total / 64;
            let div: u8 = mmu.load(ControlRegisters::DIV.address());
            let step: u8 = (ticks % 256) as u8;
            mmu.store(ControlRegisters::DIV.address(), div.wrapping_add(step));
            self.div_counter = (total % 64) as u32;
        }
    }

    /// Lets the timer counter see `cycles` machine cycles.
    pub fn advance_tima(&mut self, cycles: u32, mmu: &mut MMU)
        ensures
            *final(self) == old(self).tima_advance_cpu(old(mmu)@, cycles),
            final(mmu)@ == old(self).tima_advance_bus(old(mmu)@, cycles),
    {
        let frequency: u64 = self.get_tac_frequency(mmu) as u64;
        let total: u64 = (self.tima_counter as u64) + (cycles as u64);
        let ticks: u64 = total / frequency;
        self.tima_counter = (total % frequency) as u32;
        if self.get_tac_enabled(mmu) {
            let start: u8 = mmu.load(ControlRegisters::TIMA.address());
            let tma: u8 = mmu.load(ControlRegisters::TMA.address());
            let mut tima: u8 = start;
            let mut overflow: bool = false;
            let mut i: u64 = 0;
            while i < ticks
                invariant
                    i <= ticks,
                    tima == tima_after(start, tma, i as nat),
                    overflow == tima_overflowed(start, tma, i as nat),
                decreases ticks - i,
            {
                if tima == 255 {
                    tima = tma;
                    overflow = true;
                } else {
                    tima = tima + 1;
                }
                i = i + 1;
            }
            mmu.store(ControlRegisters::TIMA.address(), tima);
            if overflow {
                self.set_if(InterruptCode::Timer, true, mmu);
            }
        }
    }

    /// Applies the ticks of the divider that its count already holds.
    pub fn increment_div_register(&mut self, mmu: &mut MMU)
        ensures
            *final(self) == old(self).div_advance_cpu(old(mmu)@, 0),
            final(mmu)@ == old(self).div_advance_bus(old(mmu)@, 0),
    {
        self.advance_div(0, mmu);
    }

    /// Applies the ticks of the timer counter that its count already holds.
    pub fn increment_tima_register(&mut self, mmu: &mut MMU)
        ensures
            *final(self) == old(self).tima_advance_cpu(old(mmu)@, 0),
            final(mmu)@ == old(self).tima_advance_bus(old(mmu)@, 0),
    {
        self.advance_tima(0, mmu);
    }

    /// The source that would be served next, if any is requested and enabled.
    pub fn pending_interrupt(&self, mmu: &MMU) -> (code: Option<InterruptCode>)
        ensures
            code == pending(mmu@),
    {
        if self.get_if(InterruptCode::Vblank, mmu) && self.get_ie(InterruptCode::Vblank, mmu) {
            Some(InterruptCode::Vblank)
        } else if self.get_if(InterruptCode::Lcd, mmu) && self.get_ie(InterruptCode::Lcd, mmu) {
            Some(InterruptCode::Lcd)
        } else if self.get_if(InterruptCode::Timer, mmu) && self.get_ie(InterruptCode::Timer, mmu) {
            Some(InterruptCode::Timer)
        } else if self.get_if(InterruptCode::Serial, mmu) && self.get_ie(
            InterruptCode::Serial,
            mmu,
        ) {
            Some(InterruptCode::Serial)
        } else if self.get_if(InterruptCode::Joypad, mmu) && self.get_ie(
            InterruptCode::Joypad,
            mmu,
        ) {
            Some(InterruptCode::Joypad)
        } else {
            None
        }
    }

    /// Serves the pending interrupt of the highest priority, if interrupts are
    /// enabled and one is pending: 5 machine cycles; otherwise nothing
    /// changes and the cost is 0.
    pub fn handle_interrupts(&mut self, mmu: &mut MMU) -> (cycles: u32)
        ensures
            old(self).ime && pending(old(mmu)@) is Some ==> cycles == 5 && *final(self) == old(
                self,
            ).serve_cpu(pending(old(mmu)@)->0) && final(mmu)@ == old(self).serve_bus(
                old(mmu)@,
                pending(old(mmu)@)->0,
            ),
            !(old(self).ime && pending(old(mmu)@) is Some) ==> cycles == 0 && *final(self) == *old(
                self,
            ) && final(mmu)@ == old(mmu)@,
    {
        if !self.ime {
            return 0;
        }
        match self.pending_interrupt(mmu) {
            Some(code) => {
                self.ime = false;
                self.halt_flag = false;
                self.set_if(code, false, mmu);
                let pc: u16 = self.registers.pc;
                self.push(pc, mmu);
                self.registers.pc = code.handler();
                5
            },
            None => 0,
        }
    }
}

/// The processor after an instruction that began with `was_pending`: an EI
/// that was pending before the instruction, and that the instruction did not
/// cancel, takes effect.
pub open spec fn promote(was_pending: bool, cpu: CPU) -> CPU {
    if was_pending && cpu.ei_flag {
        CPU { ime: true, ei_flag: false, ..cpu }
    } else {
        cpu
    }
}

/// A step before the timers run. An interrupt is served if interrupts are
/// enabled and one is pending; else a halted processor idles for one cycle,
/// and wakes if an interrupt is pending; else one instruction is executed.
pub open spec fn step_before_timers(cpu: CPU, bus: Bus) -> Outcome {
    if cpu.ime && pending(bus) is Some {
        Outcome {
            cpu: cpu.serve_cpu(pending(bus)->0),
            bus: cpu.serve_bus(bus, pending(bus)->0),
            cycles: 5,
        }
    } else if cpu.halt_flag {
        Outcome { cpu: CPU { halt_flag: pending(bus) is None, ..cpu }, bus, cycles: 1 }
    } else {
        let done = execute_spec(cpu, bus);
        Outcome { cpu: promote(cpu.ei_flag, done.cpu), bus: done.bus, cycles: done.cycles }
    }
}

/// A whole step: the step before the timers, then both timers see its cycles.
pub open spec fn step_spec(cpu: CPU, bus: Bus) -> Outcome {
    let done = step_before_timers(cpu, bus);
    Outcome {
        cpu: done.cpu.timers_cpu(done.bus, done.cycles as u32),
        bus: done.cpu.timers_bus(done.bus, done.cycles as u32),
        cycles: done.cycles,
    }
}

/// A step can be made: the processor will not meet an opcode that names no
/// instruction.
pub open spec fn can_step(cpu: CPU, bus: Bus) -> bool {
    (cpu.ime && pending(bus) is Some) || cpu.halt_flag || is_defined(bus.read(cpu.registers.pc))
}

impl CPU {
    /// Tells whether `step` may be called.
    pub fn is_runnable(&self, mmu: &MMU) -> (r: bool)
        ensures
            r == can_step(*self, mmu@),
    {
        if self.halt_flag {
            return true;
        }
        if self.ime && self.pending_interrupt(mmu).is_some() {
            return true;
        }
        is_defined_opcode(mmu.read_byte(self.registers.pc))
    }

    /// Makes one step and returns the machine cycles that it took.
    ///
    /// A step serves an interrupt, or idles in HALT, or executes one
    /// instruction: interrupts are taken between instructions only. The
    /// timers then see the cycles of the step, so that an interrupt which they
    /// request is served by the next step at the earliest.
    ///
    /// HALT with interrupts disabled and an interrupt pending is executed
    /// like any HALT: the processor wakes at the next step and goes on with
    /// the instruction that follows. STOP sets its latch and costs one cycle;
    /// the steps go on, and it is for the caller to look at the latch.
    pub fn step(&mut self, mmu: &mut MMU) -> (cycles: u32)
        requires
            can_step(*old(self), old(mmu)@),
        ensures
            *final(self) == step_spec(*old(self), old(mmu)@).cpu,
            final(mmu)@ == step_spec(*old(self), old(mmu)@).bus,
            cycles == step_spec(*old(self), old(mmu)@).cycles,
    {
        let mut cycles: u32 = self.handle_interrupts(mmu);
        if cycles == 0 {
            if self.halt_flag {
                if self.pending_interrupt(mmu).is_some() {
                    self.halt_flag = false;
                }
                cycles = 1;
            } else {
                let ei_pending: bool = self.ei_flag;
                cycles = execute_opcode(self, mmu) as u32;
                if ei_pending && self.ei_flag {
                    self.ei_flag = false;
                    self.ime = true;
                }
            }
        }
        self.advance_div(cycles, mmu);
        self.advance_tima(cycles, mmu);
        cycles
    }

    /// Makes one step if one can be made. Where the opcode at the program
    /// counter names no instruction, nothing changes and `None` is returned.
    pub fn checked_step(&mut self, mmu: &mut MMU) -> (cycles: Option<u32>)
        ensures
            can_step(*old(self), old(mmu)@) ==> cycles == Some(
                step_spec(*old(self), old(mmu)@).cycles as u32,
            ) && *final(self) == step_spec(*old(self), old(mmu)@).cpu && final(mmu)@ == step_spec(
                *old(self),
                old(mmu)@,
            ).bus,
            !can_step(*old(self), old(mmu)@) ==> cycles is None && *final(self) == *old(self)
                && final(mmu)@ == old(mmu)@,
    {
        if self.is_runnable(mmu) {
            Some(self.step(mmu))
        } else {
            None
        }
    }
}

/// The address holds memory that the processor can always write and read
/// back: external, work and echo memory, and the high memory.
pub open spec fn is_ram(a: u16) -> bool {
    (0xA000 <= a <= 0xFDFF) || (0xFF80 <= a <= 0xFFFE)
}

/// A write to AF clears the low nibble of F: the pair then reads as the
/// written word with its four low bits cleared.
pub proof fn lemma_af_round_trip(cpu: CPU, w: u16)
    ensures
        cpu.with_af(w).af() == w & 0xFFF0,
        cpu.with_af(w).wf(),
{
    reveal(word);
    reveal(hi);
    reveal(lo);
    assert(w & 0xFFF0 == (w / 16) * 16) by (bit_vector);
}

/// BC, DE and HL read back as they were written.
pub proof fn lemma_pair_round_trip(cpu: CPU, w: u16)
    ensures
        cpu.with_bc(w).bc() == w,
        cpu.with_de(w).de() == w,
        cpu.with_hl(w).hl() == w,
{
    lemma_word_parts(w);
}

/// With the stack in memory that can be written, a pop after a push gives the
/// pushed word back and leaves the stack pointer where it was.
pub proof fn lemma_push_pop(cpu: CPU, bus: Bus, w: u16)
    requires
        bus.wf(),
        is_ram(wrap16(cpu.registers.sp - 2)),
        is_ram(wrap16(cpu.registers.sp - 1)),
    ensures
        cpu.after_push().stack_top(cpu.push_bus(bus, w)) == w,
        cpu.after_push().after_pop().registers.sp == cpu.registers.sp,
{
    let low = wrap16(cpu.registers.sp - 2);
    let high = wrap16(cpu.registers.sp - 1);
    assert(wrap16(low + 1) == high);
    let first = bus.write(low, lo(w));
    let second = first.write(high, hi(w));
    reveal(Bus::read);
    reveal(Bus::serial_tap);
    reveal(Bus::filtered_store);
    assert(second.read(high) == hi(w));
    assert(second.read(low) == lo(w));
    lemma_word_parts(w);
}

/// With the stack in memory that can be written, AF pushed and popped again
/// holds the pushed word with its four low bits cleared.
pub proof fn lemma_push_pop_af(cpu: CPU, bus: Bus, w: u16)
    requires
        bus.wf(),
        is_ram(wrap16(cpu.registers.sp - 2)),
        is_ram(wrap16(cpu.registers.sp - 1)),
    ensures
        cpu.after_push().after_pop().with_af(
            cpu.after_push().stack_top(cpu.push_bus(bus, w)),
        ).af() == w & 0xFFF0,
{
    lemma_push_pop(cpu, bus, w);
    lemma_af_round_trip(cpu.after_push().after_pop(), w);
}

/// Ticks add up: the timer counter after `m` ticks and then `n` more is the
/// counter after `m + n` ticks.
pub proof fn lemma_tima_after_add(tima: u8, tma: u8, m: nat, n: nat)
    ensures
        tima_after(tima_after(tima, tma, m), tma, n) == tima_after(tima, tma, m + n),
    decreases n,
{
    if n > 0 {
        lemma_tima_after_add(tima, tma, m, (n - 1) as nat);
        assert((m + n - 1) as nat == m + ((n - 1) as nat));
    }
}

/// While the timer is enabled and its frequency stays, the number of ticks
/// depends on the machine cycles alone and not on how the steps divide them:
/// from a count of `counter`, after `k1` and then `k2` cycles the timer
/// counter has ticked as often as the whole of `counter + k1 + k2` cycles
/// holds the frequency, and the remainder is the new count.
pub proof fn lemma_timer_ticks(cpu: CPU, bus: Bus, k1: u32, k2: u32)
    requires
        cpu.tima_counter + k1 + k2 <= u32::MAX,
    ensures
        ({
            let f = tac_frequency(bus.raw(0xFF07));
            let first = cpu.tima_advance_cpu(bus, k1);
            &&& cpu.tima_ticks(bus, k1) + first.tima_ticks(bus, k2) == (cpu.tima_counter + k1 + k2)
                / f
            &&& first.tima_advance_cpu(bus, k2).tima_counter == (cpu.tima_counter + k1 + k2) % f
            &&& cpu.tima_ticks(bus, k1) == (cpu.tima_counter + k1) / f
        }),
{
    let f = tac_frequency(bus.raw(0xFF07));
    let total = cpu.tima_counter + k1;
    if f == 256 {
        assert((total / 256) + ((total % 256) + k2) / 256 == (total + k2) / 256);
        assert(((total % 256) + k2) % 256 == (total + k2) % 256);
    } else if f == 4 {
        assert((total / 4) + ((total % 4) + k2) / 4 == (total + k2) / 4);
        assert(((total % 4) + k2) % 4 == (total + k2) % 4);
    } else if f == 16 {
        assert((total / 16) + ((total % 16) + k2) / 16 == (total + k2) / 16);
        assert(((total % 16) + k2) % 16 == (total + k2) % 16);
    } else {
        assert((total / 64) + ((total % 64) + k2) / 64 == (total + k2) / 64);
        assert(((total % 64) + k2) % 64 == (total + k2) % 64);
    }
}

/// Below 0xFF a tick adds one to the timer counter; at 0xFF it loads the
/// modulo, and that is the overflow that requests the interrupt.
pub proof fn lemma_tima_overflow(tima: u8, tma: u8, n: nat)
    ensures
        tima + n <= 255 ==> tima_after(tima, tma, n) == tima + n && !tima_overflowed(tima, tma, n),
        tima + n == 256 ==> tima_after(tima, tma, n) == tma && tima_overflowed(tima, tma, n),
    decreases n,
{
    if n > 0 {
        lemma_tima_overflow(tima, tma, (n - 1) as nat);
    }
}

/// The low nibble of the flag register stays clear through every step.
pub proof fn lemma_step_keeps_flags(cpu: CPU, bus: Bus)
    requires
        cpu.wf(),
    ensures
        step_spec(cpu, bus).cpu.wf(),
{
    lemma_execute_keeps_flags(cpu, bus);
}

/// EI takes effect one instruction late. The step that executes EI leaves the
/// master enable as it was and leaves the EI pending; the step that executes
/// the instruction after it, unless that is DI, sets the master enable. So
/// an interrupt that is pending all along is served in place of the second
/// instruction after EI, and not of the first.
pub proof fn lemma_ei_is_delayed(cpu: CPU, bus: Bus)
    requires
        !cpu.ime,
        !cpu.halt_flag,
        !cpu.ei_flag,
        bus.read(cpu.registers.pc) == 0xFB,
    ensures
        !step_before_timers(cpu, bus).cpu.ime,
        step_before_timers(cpu, bus).cpu.ei_flag,
        step_before_timers(cpu, bus).cycles == 1,
        !step_spec(cpu, bus).cpu.ime,
        step_spec(cpu, bus).cpu.ei_flag,
        forall|next: CPU, after: Bus|
            !next.ime && next.ei_flag && !next.halt_flag && execute_spec(next, after).cpu.ei_flag
                ==> (#[trigger] step_spec(next, after)).cpu.ime && !step_spec(
                next,
                after,
            ).cpu.ei_flag,
{
}

} // verus!
