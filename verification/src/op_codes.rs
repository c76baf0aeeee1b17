//! The instruction set: what each of the 256 opcodes and each of the 256
//! prefixed opcodes does to the processor and the bus, and what it costs.
//!
//! The meaning of an opcode is stated by the fields of its encoding: with
//! `x = opcode / 64`, `y = opcode / 8 % 8` and `z = opcode % 8`, the groups
//! of the instruction set are ranges of `x` and `z`, and `y` and `z` name
//! registers, conditions and operations. The executable decoder has one arm
//! for each opcode.
//!
//! The opcodes 0xD3, 0xDB, 0xDD, 0xE3, 0xE4, 0xEB, 0xEC, 0xED, 0xF4, 0xFC and
//! 0xFD name no instruction. To execute one is an error of the caller: the
//! functions here ask for a defined opcode.
use vstd::prelude::*;
use crate::alu::{
    add16_flags, alu_add, alu_and, alu_bit, alu_daa, alu_dec, alu_inc, alu_or, alu_res, alu_rl,
    alu_rlc, alu_rr, alu_rrc, alu_set, alu_sla, alu_sra, alu_srl, alu_sub, alu_swap, alu_xor,
    flags_with_z, lemma_flags_low_nibble, pack_flags, sp_offset_flags, Alu,
};
use crate::bits::{signed, wrap16};
use crate::cpu::CPU;
use crate::mmu::{Bus, MMU};

verus! {

/// The processor and the bus after an instruction, and the machine cycles
/// that it took.
pub struct Outcome {
    pub cpu: CPU,
    pub bus: Bus,
    pub cycles: u8,
}

/// The opcode names an instruction.
pub open spec fn is_defined(opcode: u8) -> bool {
    opcode != 0xD3 && opcode != 0xDB && opcode != 0xDD && opcode != 0xE3 && opcode != 0xE4
        && opcode != 0xEB && opcode != 0xEC && opcode != 0xED && opcode != 0xF4 && opcode != 0xFC
        && opcode != 0xFD
}

/// The 8-bit operand with index `i`: B, C, D, E, H, L, the byte at HL, A.
pub open spec fn reg8(cpu: CPU, bus: Bus, i: int) -> u8 {
    if i == 0 {
        cpu.registers.b
    } else if i == 1 {
        cpu.registers.c
    } else if i == 2 {
        cpu.registers.d
    } else if i == 3 {
        cpu.registers.e
    } else if i == 4 {
        cpu.registers.h
    } else if i == 5 {
        cpu.registers.l
    } else if i == 6 {
        bus.read(cpu.hl())
    } else {
        cpu.registers.a
    }
}

/// The processor after the 8-bit operand with index `i` was set to `v`.
pub open spec fn put_reg8_cpu(cpu: CPU, i: int, v: u8) -> CPU {
    if i == 0 {
        cpu.with_b(v)
    } else if i == 1 {
        cpu.with_c(v)
    } else if i == 2 {
        cpu.with_d(v)
    } else if i == 3 {
        cpu.with_e(v)
    } else if i == 4 {
        cpu.with_h(v)
    } else if i == 5 {
        cpu.with_l(v)
    } else if i == 6 {
        cpu
    } else {
        cpu.with_a(v)
    }
}

/// The bus after the 8-bit operand with index `i` was set to `v`.
pub open spec fn put_reg8_bus(cpu: CPU, bus: Bus, i: int, v: u8) -> Bus {
    if i == 6 {
        bus.write(cpu.hl(), v)
    } else {
        bus
    }
}

/// The register pair with index `p`: BC, DE, HL, SP.
pub open spec fn reg16(cpu: CPU, p: int) -> u16 {
    if p == 0 {
        cpu.bc()
    } else if p == 1 {
        cpu.de()
    } else if p == 2 {
        cpu.hl()
    } else {
        cpu.registers.sp
    }
}

pub open spec fn put_reg16(cpu: CPU, p: int, v: u16) -> CPU {
    if p == 0 {
        cpu.with_bc(v)
    } else if p == 1 {
        cpu.with_de(v)
    } else if p == 2 {
        cpu.with_hl(v)
    } else {
        cpu.with_sp(v)
    }
}

/// The register pair that PUSH and POP name with index `p`: BC, DE, HL, AF.
pub open spec fn stack16(cpu: CPU, p: int) -> u16 {
    if p == 0 {
        cpu.bc()
    } else if p == 1 {
        cpu.de()
    } else if p == 2 {
        cpu.hl()
    } else {
        cpu.af()
    }
}

pub open spec fn put_stack16(cpu: CPU, p: int, v: u16) -> CPU {
    if p == 0 {
        cpu.with_bc(v)
    } else if p == 1 {
        cpu.with_de(v)
    } else if p == 2 {
        cpu.with_hl(v)
    } else {
        cpu.with_af(v)
    }
}

/// The condition with index `k`: NZ, Z, NC, C.
pub open spec fn condition(cpu: CPU, k: int) -> bool {
    if k == 0 {
        !cpu.zf()
    } else if k == 1 {
        cpu.zf()
    } else if k == 2 {
        !cpu.cf()
    } else {
        cpu.cf()
    }
}

/// The processor after the operation with index `y` on the accumulator and
/// `n`: ADD, ADC, SUB, SBC, AND, XOR, OR, CP.
pub open spec fn alu_apply(cpu: CPU, y: int, n: u8) -> CPU {
    let a = cpu.registers.a;
    let r = if y == 0 {
        alu_add(a, n, false)
    } else if y == 1 {
        alu_add(a, n, cpu.cf())
    } else if y == 2 {
        alu_sub(a, n, false)
    } else if y == 3 {
        alu_sub(a, n, cpu.cf())
    } else if y == 4 {
        alu_and(a, n)
    } else if y == 5 {
        alu_xor(a, n)
    } else if y == 6 {
        alu_or(a, n)
    } else {
        Alu { value: a, flags: alu_sub(a, n, false).flags }
    };
    cpu.with_a(r.value).with_f(r.flags)
}

/// The rotate or shift with index `y`: RLC, RRC, RL, RR, SLA, SRA, SWAP, SRL.
pub open spec fn rotate_apply(y: int, v: u8, f: u8) -> Alu {
    if y == 0 {
        alu_rlc(v)
    } else if y == 1 {
        alu_rrc(v)
    } else if y == 2 {
        alu_rl(v, f)
    } else if y == 3 {
        alu_rr(v, f)
    } else if y == 4 {
        alu_sla(v)
    } else if y == 5 {
        alu_sra(v)
    } else if y == 6 {
        alu_swap(v)
    } else {
        alu_srl(v)
    }
}

/// The operation on the accumulator with index `y`: RLCA, RRCA, RLA, RRA,
/// DAA, CPL, SCF, CCF. The four rotates clear Z.
pub open spec fn accumulator_apply(cpu: CPU, y: int) -> CPU {
    let a = cpu.registers.a;
    let f = cpu.registers.f;
    if y < 4 {
        let r = rotate_apply(
            if y == 0 {
                0
            } else if y == 1 {
                1
            } else if y == 2 {
                2
            } else {
                3
            },
            a,
            f,
        );
        cpu.with_a(r.value).with_f(flags_with_z(r.flags, false))
    } else if y == 4 {
        cpu.with_a(alu_daa(a, f).value).with_f(alu_daa(a, f).flags)
    } else if y == 5 {
        cpu.with_a(!a).with_f(pack_flags(cpu.zf(), true, true, cpu.cf()))
    } else if y == 6 {
        cpu.with_f(pack_flags(cpu.zf(), false, false, true))
    } else {
        cpu.with_f(pack_flags(cpu.zf(), false, false, !cpu.cf()))
    }
}

/// The byte that follows the opcode.
pub open spec fn imm8(cpu: CPU, bus: Bus) -> u8 {
    bus.read(cpu.registers.pc)
}

/// The little-endian word that follows the opcode.
pub open spec fn imm16(cpu: CPU, bus: Bus) -> u16 {
    bus.read_word(cpu.registers.pc)
}

/// An address in the page of the hardware registers.
pub open spec fn high_page(offset: u8) -> u16 {
    (0xFF00 + offset) as u16
}

/// The opcodes 0x00 to 0x3F. The program counter of `cpu` is behind the
/// opcode.
pub open spec fn run_misc(op: u8, cpu: CPU, bus: Bus) -> Outcome {
    let y = op as int / 8;
    let z = op as int % 8;
    let p = y / 2;
    let q = y % 2;
    let hl = cpu.hl();
    if z == 0 {
        if y == 0 {
            Outcome { cpu, bus, cycles: 1 }
        } else if y == 1 {
            Outcome {
                cpu: cpu.advanced(2),
                bus: bus.write_word(imm16(cpu, bus), cpu.registers.sp),
                cycles: 5,
            }
        } else if y == 2 {
            Outcome { cpu: CPU { stop_flag: true, ..cpu }, bus, cycles: 1 }
        } else if y == 3 {
            Outcome { cpu: cpu.after_jr(bus, true), bus, cycles: 3 }
        } else {
            let taken = condition(cpu, y - 4);
            Outcome { cpu: cpu.after_jr(bus, taken), bus, cycles: if taken { 3 } else { 2 } }
        }
    } else if z == 1 {
        if q == 0 {
            Outcome { cpu: put_reg16(cpu.advanced(2), p, imm16(cpu, bus)), bus, cycles: 3 }
        } else {
            let n = reg16(cpu, p);
            Outcome {
                cpu: cpu.with_f(add16_flags(hl, n, cpu.registers.f)).with_hl(wrap16(hl + n)),
                bus,
                cycles: 2,
            }
        }
    } else if z == 2 {
        let address = if p == 0 {
            cpu.bc()
        } else if p == 1 {
            cpu.de()
        } else {
            hl
        };
        let moved = if p == 2 {
            cpu.with_hl(wrap16(hl + 1))
        } else if p == 3 {
            cpu.with_hl(wrap16(hl - 1))
        } else {
            cpu
        };
        if q == 0 {
            Outcome { cpu: moved, bus: bus.write(address, cpu.registers.a), cycles: 2 }
        } else {
            Outcome { cpu: moved.with_a(bus.read(address)), bus, cycles: 2 }
        }
    } else if z == 3 {
        let n = reg16(cpu, p);
        Outcome {
            cpu: put_reg16(cpu, p, if q == 0 { wrap16(n + 1) } else { wrap16(n - 1) }),
            bus,
            cycles: 2,
        }
    } else if z == 4 || z == 5 {
        let v = reg8(cpu, bus, y);
        let r = if z == 4 {
            alu_inc(v, cpu.registers.f)
        } else {
            alu_dec(v, cpu.registers.f)
        };
        Outcome {
            cpu: put_reg8_cpu(cpu.with_f(r.flags), y, r.value),
            bus: put_reg8_bus(cpu, bus, y, r.value),
            cycles: if y == 6 { 3 } else { 1 },
        }
    } else if z == 6 {
        Outcome {
            cpu: put_reg8_cpu(cpu.advanced(1), y, imm8(cpu, bus)),
            bus: put_reg8_bus(cpu, bus, y, imm8(cpu, bus)),
            cycles: if y == 6 { 3 } else { 2 },
        }
    } else {
        Outcome { cpu: accumulator_apply(cpu, y), bus, cycles: 1 }
    }
}

/// The opcodes 0x40 to 0x7F: `LD r, r'`, and HALT where both would be the
/// byte at HL.
pub open spec fn run_load(op: u8, cpu: CPU, bus: Bus) -> Outcome {
    let y = op as int / 8 % 8;
    let z = op as int % 8;
    if y == 6 && z == 6 {
        Outcome { cpu: CPU { halt_flag: true, ..cpu }, bus, cycles: 1 }
    } else {
        let v = reg8(cpu, bus, z);
        Outcome {
            cpu: put_reg8_cpu(cpu, y, v),
            bus: put_reg8_bus(cpu, bus, y, v),
            cycles: if y == 6 || z == 6 { 2 } else { 1 },
        }
    }
}

/// The opcodes 0x80 to 0xBF: an operation on the accumulator and a register.
pub open spec fn run_arithmetic(op: u8, cpu: CPU, bus: Bus) -> Outcome {
    let y = op as int / 8 % 8;
    let z = op as int % 8;
    Outcome { cpu: alu_apply(cpu, y, reg8(cpu, bus, z)), bus, cycles: if z == 6 { 2 } else { 1 } }
}

/// The processor after a signed byte was added to the stack pointer; the sum
/// is not stored by this function.
pub open spec fn sp_plus(cpu: CPU, bus: Bus) -> u16 {
    wrap16(cpu.registers.sp + signed(imm8(cpu, bus)))
}

/// The opcodes 0xC0 to 0xFF, but for the prefix 0xCB.
pub open spec fn run_branch(op: u8, cpu: CPU, bus: Bus) -> Outcome {
    let y = op as int / 8 % 8;
    let z = op as int % 8;
    let p = y / 2;
    let q = y % 2;
    let a = cpu.registers.a;
    if z == 0 {
        if y < 4 {
            let taken = condition(cpu, y);
            Outcome { cpu: cpu.after_ret(bus, taken), bus, cycles: if taken { 5 } else { 2 } }
        } else if y == 4 {
            Outcome {
                cpu: cpu.advanced(1),
                bus: bus.write(high_page(imm8(cpu, bus)), a),
                cycles: 3,
            }
        } else if y == 5 {
            Outcome {
                cpu: cpu.advanced(1).with_f(
                    sp_offset_flags(cpu.registers.sp, imm8(cpu, bus)),
                ).with_sp(sp_plus(cpu, bus)),
                bus,
                cycles: 4,
            }
        } else if y == 6 {
            Outcome {
                cpu: cpu.advanced(1).with_a(bus.read(high_page(imm8(cpu, bus)))),
                bus,
                cycles: 3,
            }
        } else {
            Outcome {
                cpu: cpu.advanced(1).with_f(
                    sp_offset_flags(cpu.registers.sp, imm8(cpu, bus)),
                ).with_hl(sp_plus(cpu, bus)),
                bus,
                cycles: 3,
            }
        }
    } else if z == 1 {
        if q == 0 {
            Outcome { cpu: put_stack16(cpu.after_pop(), p, cpu.stack_top(bus)), bus, cycles: 3 }
        } else if p == 0 {
            Outcome { cpu: cpu.after_ret(bus, true), bus, cycles: 4 }
        } else if p == 1 {
            Outcome { cpu: CPU { ei_flag: true, ..cpu.after_ret(bus, true) }, bus, cycles: 4 }
        } else if p == 2 {
            Outcome { cpu: cpu.with_pc(cpu.hl()), bus, cycles: 1 }
        } else {
            Outcome { cpu: cpu.with_sp(cpu.hl()), bus, cycles: 2 }
        }
    } else if z == 2 {
        if y < 4 {
            let taken = condition(cpu, y);
            Outcome { cpu: cpu.after_jp(bus, taken), bus, cycles: if taken { 4 } else { 3 } }
        } else if y == 4 {
            Outcome { cpu, bus: bus.write(high_page(cpu.registers.c), a), cycles: 2 }
        } else if y == 5 {
            Outcome { cpu: cpu.advanced(2), bus: bus.write(imm16(cpu, bus), a), cycles: 4 }
        } else if y == 6 {
            Outcome { cpu: cpu.with_a(bus.read(high_page(cpu.registers.c))), bus, cycles: 2 }
        } else {
            Outcome { cpu: cpu.advanced(2).with_a(bus.read(imm16(cpu, bus))), bus, cycles: 4 }
        }
    } else if z == 3 {
        if y == 0 {
            Outcome { cpu: cpu.after_jp(bus, true), bus, cycles: 4 }
        } else if y == 6 {
            Outcome { cpu: CPU { ei_flag: false, ime: false, ..cpu }, bus, cycles: 1 }
        } else if y == 7 {
            Outcome { cpu: CPU { ei_flag: true, ..cpu }, bus, cycles: 1 }
        } else {
            Outcome { cpu, bus, cycles: 0 }
        }
    } else if z == 4 {
        let taken = condition(cpu, y);
        Outcome {
            cpu: cpu.after_call(bus, taken),
            bus: cpu.call_bus(bus, taken),
            cycles: if taken { 6 } else { 3 },
        }
    } else if z == 5 {
        if q == 0 {
            Outcome { cpu: cpu.after_push(), bus: cpu.push_bus(bus, stack16(cpu, p)), cycles: 4 }
        } else {
            Outcome { cpu: cpu.after_call(bus, true), bus: cpu.call_bus(bus, true), cycles: 6 }
        }
    } else if z == 6 {
        Outcome { cpu: alu_apply(cpu.advanced(1), y, imm8(cpu, bus)), bus, cycles: 2 }
    } else {
        Outcome {
            cpu: cpu.after_push().with_pc((y * 8) as u16),
            bus: cpu.push_bus(bus, cpu.registers.pc),
            cycles: 4,
        }
    }
}

/// The prefixed opcodes 0x00 to 0x3F: a rotate or a shift of an operand.
pub open spec fn run_rotate(op: u8, cpu: CPU, bus: Bus) -> Outcome {
    let y = op as int / 8 % 8;
    let z = op as int % 8;
    let r = rotate_apply(y, reg8(cpu, bus, z), cpu.registers.f);
    Outcome {
        cpu: put_reg8_cpu(cpu.with_f(r.flags), z, r.value),
        bus: put_reg8_bus(cpu, bus, z, r.value),
        cycles: if z == 6 { 4 } else { 2 },
    }
}

/// The prefixed opcodes 0x40 to 0x7F: the test of bit `y` of an operand.
pub open spec fn run_bit(op: u8, cpu: CPU, bus: Bus) -> Outcome {
    let y = op as int / 8 % 8;
    let z = op as int % 8;
    Outcome {
        cpu: cpu.with_f(alu_bit(y as u8, reg8(cpu, bus, z), cpu.registers.f)),
        bus,
        cycles: if z == 6 { 3 } else { 2 },
    }
}

/// The prefixed opcodes 0x80 to 0xBF: bit `y` of an operand is cleared.
pub open spec fn run_res(op: u8, cpu: CPU, bus: Bus) -> Outcome {
    let y = op as int / 8 % 8;
    let z = op as int % 8;
    let v = alu_res(y as u8, reg8(cpu, bus, z));
    Outcome {
        cpu: put_reg8_cpu(cpu, z, v),
        bus: put_reg8_bus(cpu, bus, z, v),
        cycles: if z == 6 { 4 } else { 2 },
    }
}

/// The prefixed opcodes 0xC0 to 0xFF: bit `y` of an operand is set.
pub open spec fn run_set(op: u8, cpu: CPU, bus: Bus) -> Outcome {
    let y = op as int / 8 % 8;
    let z = op as int % 8;
    let v = alu_set(y as u8, reg8(cpu, bus, z));
    Outcome {
        cpu: put_reg8_cpu(cpu, z, v),
        bus: put_reg8_bus(cpu, bus, z, v),
        cycles: if z == 6 { 4 } else { 2 },
    }
}

/// A prefixed opcode. The program counter of `cpu` is behind it.
pub open spec fn run_prefixed(op: u8, cpu: CPU, bus: Bus) -> Outcome {
    if op < 0x40 {
        run_rotate(op, cpu, bus)
    } else if op < 0x80 {
        run_bit(op, cpu, bus)
    } else if op < 0xC0 {
        run_res(op, cpu, bus)
    } else {
        run_set(op, cpu, bus)
    }
}

/// The instruction whose second byte is at the program counter, after the
/// prefix 0xCB.
pub open spec fn execute_cb_spec(cpu: CPU, bus: Bus) -> Outcome {
    run_prefixed(bus.read(cpu.registers.pc), cpu.advanced(1), bus)
}

/// An opcode. The program counter of `cpu` is behind it.
pub open spec fn run(op: u8, cpu: CPU, bus: Bus) -> Outcome {
    if op < 0x40 {
        run_misc(op, cpu, bus)
    } else if op < 0x80 {
        run_load(op, cpu, bus)
    } else if op < 0xC0 {
        run_arithmetic(op, cpu, bus)
    } else if op == 0xCB {
        execute_cb_spec(cpu, bus)
    } else {
        run_branch(op, cpu, bus)
    }
}

/// The instruction at the program counter.
pub open spec fn execute_spec(cpu: CPU, bus: Bus) -> Outcome {
    run(bus.read(cpu.registers.pc), cpu.advanced(1), bus)
}

/// The opcodes 0x00 to 0x3F: 16-bit loads and arithmetic, increments,
/// immediate loads, relative jumps and the operations on the accumulator.
#[verifier::rlimit(60)]
fn execute_misc(cpu: &mut CPU, mmu: &mut MMU, opcode: u8) -> (cycles: u8)
    requires
        opcode < 0x40,
    ensures
        (Outcome { cpu: *final(cpu), bus: final(mmu)@, cycles }) == run_misc(
            opcode,
            *old(cpu),
            old(mmu)@,
        ),
{
    match opcode {
        0x00 => {
            // NOP
            1
        }
        0x01 => {
            // LD BC, u16
            let value: u16 = cpu.fetch_word(mmu);
            cpu.set_bc(value);
            3
        }
        0x02 => {
            // LD (BC), A
            let address: u16 = cpu.get_bc();
            mmu.write_byte(address, cpu.registers.a);
            2
        }
        0x03 => {
            // INC BC
            let value: u16 = cpu.get_bc();
            cpu.set_bc(value.wrapping_add(1));
            2
        }
        0x04 => {
            // INC B
            let value: u8 = cpu.registers.b;
            cpu.registers.b = cpu.inc(value);
            1
        }
        0x05 => {
            // DEC B
            let value: u8 = cpu.registers.b;
            cpu.registers.b = cpu.dec(value);
            1
        }
        0x06 => {
            // LD B, u8
            let value: u8 = cpu.fetch_byte(mmu);
            cpu.registers.b = value;
            2
        }
        0x07 => {
            // RLCA
            cpu.rlca();
            1
        }
        0x08 => {
            // LD (u16), SP
            let address: u16 = cpu.fetch_word(mmu);
            mmu.write_word(address, cpu.registers.sp);
            5
        }
        0x09 => {
            // ADD HL, BC
            let hl: u16 = cpu.get_hl();
            let value: u16 = cpu.get_bc();
            let result: u16 = cpu.add16(hl, value);
            cpu.set_hl(result);
            2
        }
        0x0A => {
            // LD A, (BC)
            let address: u16 = cpu.get_bc();
            cpu.registers.a = mmu.read_byte(address);
            2
        }
        0x0B => {
            // DEC BC
            let value: u16 = cpu.get_bc();
            cpu.set_bc(value.wrapping_sub(1));
            2
        }
        0x0C => {
            // INC C
            let value: u8 = cpu.registers.c;
            cpu.registers.c = cpu.inc(value);
            1
        }
        0x0D => {
            // DEC C
            let value: u8 = cpu.registers.c;
            cpu.registers.c = cpu.dec(value);
            1
        }
        0x0E => {
            // LD C, u8
            let value: u8 = cpu.fetch_byte(mmu);
            cpu.registers.c = value;
            2
        }
        0x0F => {
            // RRCA
            cpu.rrca();
            1
        }
        0x10 => {
            // STOP
            cpu.stop_flag = true;
            1
        }
        0x11 => {
            // LD DE, u16
            let value: u16 = cpu.fetch_word(mmu);
            cpu.set_de(value);
            3
        }
        0x12 => {
            // LD (DE), A
            let address: u16 = cpu.get_de();
            mmu.write_byte(address, cpu.registers.a);
            2
        }
        0x13 => {
            // INC DE
            let value: u16 = cpu.get_de();
            cpu.set_de(value.wrapping_add(1));
            2
        }
        0x14 => {
            // INC D
            let value: u8 = cpu.registers.d;
            cpu.registers.d = cpu.inc(value);
            1
        }
        0x15 => {
            // DEC D
            let value: u8 = cpu.registers.d;
            cpu.registers.d = cpu.dec(value);
            1
        }
        0x16 => {
            // LD D, u8
            let value: u8 = cpu.fetch_byte(mmu);
            cpu.registers.d = value;
            2
        }
        0x17 => {
            // RLA
            cpu.rla();
            1
        }
        0x18 => {
            // JR i8
            cpu.jr(true, mmu);
            3
        }
        0x19 => {
            // ADD HL, DE
            let hl: u16 = cpu.get_hl();
            let value: u16 = cpu.get_de();
            let result: u16 = cpu.add16(hl, value);
            cpu.set_hl(result);
            2
        }
        0x1A => {
            // LD A, (DE)
            let address: u16 = cpu.get_de();
            cpu.registers.a = mmu.read_byte(address);
            2
        }
        0x1B => {
            // DEC DE
            let value: u16 = cpu.get_de();
            cpu.set_de(value.wrapping_sub(1));
            2
        }
        0x1C => {
            // INC E
            let value: u8 = cpu.registers.e;
            cpu.registers.e = cpu.inc(value);
            1
        }
        0x1D => {
            // DEC E
            let value: u8 = cpu.registers.e;
            cpu.registers.e = cpu.dec(value);
            1
        }
        0x1E => {
            // LD E, u8
            let value: u8 = cpu.fetch_byte(mmu);
            cpu.registers.e = value;
            2
        }
        0x1F => {
            // RRA
            cpu.rra();
            1
        }
        0x20 => {
            // JR NZ, i8
            let cond: bool = !cpu.get_zf();
            cpu.jr(cond, mmu);
            if cond {
                3
            } else {
                2
            }
        }
        0x21 => {
            // LD HL, u16
            let value: u16 = cpu.fetch_word(mmu);
            cpu.set_hl(value);
            3
        }
        0x22 => {
            // LD (HL+), A
            let address: u16 = cpu.get_hl();
            mmu.write_byte(address, cpu.registers.a);
            cpu.set_hl(address.wrapping_add(1));
            2
        }
        0x23 => {
            // INC HL
            let value: u16 = cpu.get_hl();
            cpu.set_hl(value.wrapping_add(1));
            2
        }
        0x24 => {
            // INC H
            let value: u8 = cpu.registers.h;
            cpu.registers.h = cpu.inc(value);
            1
        }
        0x25 => {
            // DEC H
            let value: u8 = cpu.registers.h;
            cpu.registers.h = cpu.dec(value);
            1
        }
        0x26 => {
            // LD H, u8
            let value: u8 = cpu.fetch_byte(mmu);
            cpu.registers.h = value;
            2
        }
        0x27 => {
            // DAA
            cpu.daa();
            1
        }
        0x28 => {
            // JR Z, i8
            let cond: bool = cpu.get_zf();
            cpu.jr(cond, mmu);
            if cond {
                3
            } else {
                2
            }
        }
        0x29 => {
            // ADD HL, HL
            let hl: u16 = cpu.get_hl();
            let value: u16 = cpu.get_hl();
            let result: u16 = cpu.add16(hl, value);
            cpu.set_hl(result);
            2
        }
        0x2A => {
            // LD A, (HL+)
            let address: u16 = cpu.get_hl();
            cpu.registers.a = mmu.read_byte(address);
            cpu.set_hl(address.wrapping_add(1));
            2
        }
        0x2B => {
            // DEC HL
            let value: u16 = cpu.get_hl();
            cpu.set_hl(value.wrapping_sub(1));
            2
        }
        0x2C => {
            // INC L
            let value: u8 = cpu.registers.l;
            cpu.registers.l = cpu.inc(value);
            1
        }
        0x2D => {
            // DEC L
            let value: u8 = cpu.registers.l;
            cpu.registers.l = cpu.dec(value);
            1
        }
        0x2E => {
            // LD L, u8
            let value: u8 = cpu.fetch_byte(mmu);
            cpu.registers.l = value;
            2
        }
        0x2F => {
            // CPL
            cpu.cpl();
            1
        }
        0x30 => {
            // JR NC, i8
            let cond: bool = !cpu.get_cf();
            cpu.jr(cond, mmu);
            if cond {
                3
            } else {
                2
            }
        }
        0x31 => {
            // LD SP, u16
            let value: u16 = cpu.fetch_word(mmu);
            cpu.registers.sp = value;
            3
        }
        0x32 => {
            // LD (HL-), A
            let address: u16 = cpu.get_hl();
            mmu.write_byte(address, cpu.registers.a);
            cpu.set_hl(address.wrapping_sub(1));
            2
        }
        0x33 => {
            // INC SP
            let value: u16 = cpu.registers.sp;
            cpu.registers.sp = value.wrapping_add(1);
            2
        }
        0x34 => {
            // INC (HL)
            let value: u8 = mmu.read_byte(cpu.get_hl());
            let result: u8 = cpu.inc(value);
            mmu.write_byte(cpu.get_hl(), result);
            3
        }
        0x35 => {
            // DEC (HL)
            let value: u8 = mmu.read_byte(cpu.get_hl());
            let result: u8 = cpu.dec(value);
            mmu.write_byte(cpu.get_hl(), result);
            3
        }
        0x36 => {
            // LD (HL), u8
            let value: u8 = cpu.fetch_byte(mmu);
            mmu.write_byte(cpu.get_hl(), value);
            3
        }
        0x37 => {
            // SCF
            cpu.scf();
            1
        }
        0x38 => {
            // JR C, i8
            let cond: bool = cpu.get_cf();
            cpu.jr(cond, mmu);
            if cond {
                3
            } else {
                2
            }
        }
        0x39 => {
            // ADD HL, SP
            let hl: u16 = cpu.get_hl();
            let value: u16 = cpu.registers.sp;
            let result: u16 = cpu.add16(hl, value);
            cpu.set_hl(result);
            2
        }
        0x3A => {
            // LD A, (HL-)
            let address: u16 = cpu.get_hl();
            cpu.registers.a = mmu.read_byte(address);
            cpu.set_hl(address.wrapping_sub(1));
            2
        }
        0x3B => {
            // DEC SP
            let value: u16 = cpu.registers.sp;
            cpu.registers.sp = value.wrapping_sub(1);
            2
        }
        0x3C => {
            // INC A
            let value: u8 = cpu.registers.a;
            cpu.registers.a = cpu.inc(value);
            1
        }
        0x3D => {
            // DEC A
            let value: u8 = cpu.registers.a;
            cpu.registers.a = cpu.dec(value);
            1
        }
        0x3E => {
            // LD A, u8
            let value: u8 = cpu.fetch_byte(mmu);
            cpu.registers.a = value;
            2
        }
        0x3F => {
            // CCF
            cpu.ccf();
            1
        }
        _ => {
            // no other opcode belongs to this group
            assert(false);
            0
        }
    }
}

/// The opcodes 0x40 to 0x7F: the loads between registers, and HALT.
fn execute_load(cpu: &mut CPU, mmu: &mut MMU, opcode: u8) -> (cycles: u8)
    requires
        0x40 <= opcode < 0x80,
    ensures
        (Outcome { cpu: *final(cpu), bus: final(mmu)@, cycles }) == run_load(
            opcode,
            *old(cpu),
            old(mmu)@,
        ),
{
    match opcode {
        0x40 => {
            // LD B, B
            cpu.registers.b = cpu.registers.b;
            1
        }
        0x41 => {
            // LD B, C
            cpu.registers.b = cpu.registers.c;
            1
        }
        0x42 => {
            // LD B, D
            cpu.registers.b = cpu.registers.d;
            1
        }
        0x43 => {
            // LD B, E
            cpu.registers.b = cpu.registers.e;
            1
        }
        0x44 => {
            // LD B, H
            cpu.registers.b = cpu.registers.h;
            1
        }
        0x45 => {
            // LD B, L
            cpu.registers.b = cpu.registers.l;
            1
        }
        0x46 => {
            // LD B, (HL)
            cpu.registers.b = mmu.read_byte(cpu.get_hl());
            2
        }
        0x47 => {
            // LD B, A
            cpu.registers.b = cpu.registers.a;
            1
        }
        0x48 => {
            // LD C, B
            cpu.registers.c = cpu.registers.b;
            1
        }
        0x49 => {
            // LD C, C
            cpu.registers.c = cpu.registers.c;
            1
        }
        0x4A => {
            // LD C, D
            cpu.registers.c = cpu.registers.d;
            1
        }
        0x4B => {
            // LD C, E
            cpu.registers.c = cpu.registers.e;
            1
        }
        0x4C => {
            // LD C, H
            cpu.registers.c = cpu.registers.h;
            1
        }
        0x4D => {
            // LD C, L
            cpu.registers.c = cpu.registers.l;
            1
        }
        0x4E => {
            // LD C, (HL)
            cpu.registers.c = mmu.read_byte(cpu.get_hl());
            2
        }
        0x4F => {
            // LD C, A
            cpu.registers.c = cpu.registers.a;
            1
        }
        0x50 => {
            // LD D, B
            cpu.registers.d = cpu.registers.b;
            1
        }
        0x51 => {
            // LD D, C
            cpu.registers.d = cpu.registers.c;
            1
        }
        0x52 => {
            // LD D, D
            cpu.registers.d = cpu.registers.d;
            1
        }
        0x53 => {
            // LD D, E
            cpu.registers.d = cpu.registers.e;
            1
        }
        0x54 => {
            // LD D, H
            cpu.registers.d = cpu.registers.h;
            1
        }
        0x55 => {
            // LD D, L
            cpu.registers.d = cpu.registers.l;
            1
        }
        0x56 => {
            // LD D, (HL)
            cpu.registers.d = mmu.read_byte(cpu.get_hl());
            2
        }
        0x57 => {
            // LD D, A
            cpu.registers.d = cpu.registers.a;
            1
        }
        0x58 => {
            // LD E, B
            cpu.registers.e = cpu.registers.b;
            1
        }
        0x59 => {
            // LD E, C
            cpu.registers.e = cpu.registers.c;
            1
        }
        0x5A => {
            // LD E, D
            cpu.registers.e = cpu.registers.d;
            1
        }
        0x5B => {
            // LD E, E
            cpu.registers.e = cpu.registers.e;
            1
        }
        0x5C => {
            // LD E, H
            cpu.registers.e = cpu.registers.h;
            1
        }
        0x5D => {
            // LD E, L
            cpu.registers.e = cpu.registers.l;
            1
        }
        0x5E => {
            // LD E, (HL)
            cpu.registers.e = mmu.read_byte(cpu.get_hl());
            2
        }
        0x5F => {
            // LD E, A
            cpu.registers.e = cpu.registers.a;
            1
        }
        0x60 => {
            // LD H, B
            cpu.registers.h = cpu.registers.b;
            1
        }
        0x61 => {
            // LD H, C
            cpu.registers.h = cpu.registers.c;
            1
        }
        0x62 => {
            // LD H, D
            cpu.registers.h = cpu.registers.d;
            1
        }
        0x63 => {
            // LD H, E
            cpu.registers.h = cpu.registers.e;
            1
        }
        0x64 => {
            // LD H, H
            cpu.registers.h = cpu.registers.h;
            1
        }
        0x65 => {
            // LD H, L
            cpu.registers.h = cpu.registers.l;
            1
        }
        0x66 => {
            // LD H, (HL)
            cpu.registers.h = mmu.read_byte(cpu.get_hl());
            2
        }
        0x67 => {
            // LD H, A
            cpu.registers.h = cpu.registers.a;
            1
        }
        0x68 => {
            // LD L, B
            cpu.registers.l = cpu.registers.b;
            1
        }
        0x69 => {
            // LD L, C
            cpu.registers.l = cpu.registers.c;
            1
        }
        0x6A => {
            // LD L, D
            cpu.registers.l = cpu.registers.d;
            1
        }
        0x6B => {
            // LD L, E
            cpu.registers.l = cpu.registers.e;
            1
        }
        0x6C => {
            // LD L, H
            cpu.registers.l = cpu.registers.h;
            1
        }
        0x6D => {
            // LD L, L
            cpu.registers.l = cpu.registers.l;
            1
        }
        0x6E => {
            // LD L, (HL)
            cpu.registers.l = mmu.read_byte(cpu.get_hl());
            2
        }
        0x6F => {
            // LD L, A
            cpu.registers.l = cpu.registers.a;
            1
        }
        0x70 => {
            // LD (HL), B
            mmu.write_byte(cpu.get_hl(), cpu.registers.b);
            2
        }
        0x71 => {
            // LD (HL), C
            mmu.write_byte(cpu.get_hl(), cpu.registers.c);
            2
        }
        0x72 => {
            // LD (HL), D
            mmu.write_byte(cpu.get_hl(), cpu.registers.d);
            2
        }
        0x73 => {
            // LD (HL), E
            mmu.write_byte(cpu.get_hl(), cpu.registers.e);
            2
        }
        0x74 => {
            // LD (HL), H
            mmu.write_byte(cpu.get_hl(), cpu.registers.h);
            2
        }
        0x75 => {
            // LD (HL), L
            mmu.write_byte(cpu.get_hl(), cpu.registers.l);
            2
        }
        0x76 => {
            // HALT
            cpu.halt_flag = true;
            1
        }
        0x77 => {
            // LD (HL), A
            mmu.write_byte(cpu.get_hl(), cpu.registers.a);
            2
        }
        0x78 => {
            // LD A, B
            cpu.registers.a = cpu.registers.b;
            1
        }
        0x79 => {
            // LD A, C
            cpu.registers.a = cpu.registers.c;
            1
        }
        0x7A => {
            // LD A, D
            cpu.registers.a = cpu.registers.d;
            1
        }
        0x7B => {
            // LD A, E
            cpu.registers.a = cpu.registers.e;
            1
        }
        0x7C => {
            // LD A, H
            cpu.registers.a = cpu.registers.h;
            1
        }
        0x7D => {
            // LD A, L
            cpu.registers.a = cpu.registers.l;
            1
        }
        0x7E => {
            // LD A, (HL)
            cpu.registers.a = mmu.read_byte(cpu.get_hl());
            2
        }
        0x7F => {
            // LD A, A
            cpu.registers.a = cpu.registers.a;
            1
        }
        _ => {
            // no other opcode belongs to this group
            assert(false);
            0
        }
    }
}

/// The opcodes 0x80 to 0xBF: the arithmetic and logic on the accumulator.
fn execute_arithmetic(cpu: &mut CPU, mmu: &mut MMU, opcode: u8) -> (cycles: u8)
    requires
        0x80 <= opcode < 0xC0,
    ensures
        (Outcome { cpu: *final(cpu), bus: final(mmu)@, cycles }) == run_arithmetic(
            opcode,
            *old(cpu),
            old(mmu)@,
        ),
{
    match opcode {
        0x80 => {
            // ADD A, B
            let value: u8 = cpu.registers.b;
            cpu.registers.a = cpu.add8(value);
            1
        }
        0x81 => {
            // ADD A, C
            let value: u8 = cpu.registers.c;
            cpu.registers.a = cpu.add8(value);
            1
        }
        0x82 => {
            // ADD A, D
            let value: u8 = cpu.registers.d;
            cpu.registers.a = cpu.add8(value);
            1
        }
        0x83 => {
            // ADD A, E
            let value: u8 = cpu.registers.e;
            cpu.registers.a = cpu.add8(value);
            1
        }
        0x84 => {
            // ADD A, H
            let value: u8 = cpu.registers.h;
            cpu.registers.a = cpu.add8(value);
            1
        }
        0x85 => {
            // ADD A, L
            let value: u8 = cpu.registers.l;
            cpu.registers.a = cpu.add8(value);
            1
        }
        0x86 => {
            // ADD A, (HL)
            let value: u8 = mmu.read_byte(cpu.get_hl());
            cpu.registers.a = cpu.add8(value);
            2
        }
        0x87 => {
            // ADD A, A
            let value: u8 = cpu.registers.a;
            cpu.registers.a = cpu.add8(value);
            1
        }
        0x88 => {
            // ADC A, B
            let value: u8 = cpu.registers.b;
            cpu.registers.a = cpu.adc(value);
            1
        }
        0x89 => {
            // ADC A, C
            let value: u8 = cpu.registers.c;
            cpu.registers.a = cpu.adc(value);
            1
        }
        0x8A => {
            // ADC A, D
            let value: u8 = cpu.registers.d;
            cpu.registers.a = cpu.adc(value);
            1
        }
        0x8B => {
            // ADC A, E
            let value: u8 = cpu.registers.e;
            cpu.registers.a = cpu.adc(value);
            1
        }
        0x8C => {
            // ADC A, H
            let value: u8 = cpu.registers.h;
            cpu.registers.a = cpu.adc(value);
            1
        }
        0x8D => {
            // ADC A, L
            let value: u8 = cpu.registers.l;
            cpu.registers.a = cpu.adc(value);
            1
        }
        0x8E => {
            // ADC A, (HL)
            let value: u8 = mmu.read_byte(cpu.get_hl());
            cpu.registers.a = cpu.adc(value);
            2
        }
        0x8F => {
            // ADC A, A
            let value: u8 = cpu.registers.a;
            cpu.registers.a = cpu.adc(value);
            1
        }
        0x90 => {
            // SUB A, B
            let value: u8 = cpu.registers.b;
            cpu.registers.a = cpu.sub(value);
            1
        }
        0x91 => {
            // SUB A, C
            let value: u8 = cpu.registers.c;
            cpu.registers.a = cpu.sub(value);
            1
        }
        0x92 => {
            // SUB A, D
            let value: u8 = cpu.registers.d;
            cpu.registers.a = cpu.sub(value);
            1
        }
        0x93 => {
            // SUB A, E
            let value: u8 = cpu.registers.e;
            cpu.registers.a = cpu.sub(value);
            1
        }
        0x94 => {
            // SUB A, H
            let value: u8 = cpu.registers.h;
            cpu.registers.a = cpu.sub(value);
            1
        }
        0x95 => {
            // SUB A, L
            let value: u8 = cpu.registers.l;
            cpu.registers.a = cpu.sub(value);
            1
        }
        0x96 => {
            // SUB A, (HL)
            let value: u8 = mmu.read_byte(cpu.get_hl());
            cpu.registers.a = cpu.sub(value);
            2
        }
        0x97 => {
            // SUB A, A
            let value: u8 = cpu.registers.a;
            cpu.registers.a = cpu.sub(value);
            1
        }
        0x98 => {
            // SBC A, B
            let value: u8 = cpu.registers.b;
            cpu.registers.a = cpu.sbc(value);
            1
        }
        0x99 => {
            // SBC A, C
            let value: u8 = cpu.registers.c;
            cpu.registers.a = cpu.sbc(value);
            1
        }
        0x9A => {
            // SBC A, D
            let value: u8 = cpu.registers.d;
            cpu.registers.a = cpu.sbc(value);
            1
        }
        0x9B => {
            // SBC A, E
            let value: u8 = cpu.registers.e;
            cpu.registers.a = cpu.sbc(value);
            1
        }
        0x9C => {
            // SBC A, H
            let value: u8 = cpu.registers.h;
            cpu.registers.a = cpu.sbc(value);
            1
        }
        0x9D => {
            // SBC A, L
            let value: u8 = cpu.registers.l;
            cpu.registers.a = cpu.sbc(value);
            1
        }
        0x9E => {
            // SBC A, (HL)
            let value: u8 = mmu.read_byte(cpu.get_hl());
            cpu.registers.a = cpu.sbc(value);
            2
        }
        0x9F => {
            // SBC A, A
            let value: u8 = cpu.registers.a;
            cpu.registers.a = cpu.sbc(value);
            1
        }
        0xA0 => {
            // AND A, B
            let value: u8 = cpu.registers.b;
            cpu.and(value);
            1
        }
        0xA1 => {
            // AND A, C
            let value: u8 = cpu.registers.c;
            cpu.and(value);
            1
        }
        0xA2 => {
            // AND A, D
            let value: u8 = cpu.registers.d;
            cpu.and(value);
            1
        }
        0xA3 => {
            // AND A, E
            let value: u8 = cpu.registers.e;
            cpu.and(value);
            1
        }
        0xA4 => {
            // AND A, H
            let value: u8 = cpu.registers.h;
            cpu.and(value);
            1
        }
        0xA5 => {
            // AND A, L
            let value: u8 = cpu.registers.l;
            cpu.and(value);
            1
        }
        0xA6 => {
            // AND A, (HL)
            let value: u8 = mmu.read_byte(cpu.get_hl());
            cpu.and(value);
            2
        }
        0xA7 => {
            // AND A, A
            let value: u8 = cpu.registers.a;
            cpu.and(value);
            1
        }
        0xA8 => {
            // XOR A, B
            let value: u8 = cpu.registers.b;
            cpu.xor(value);
            1
        }
        0xA9 => {
            // XOR A, C
            let value: u8 = cpu.registers.c;
            cpu.xor(value);
            1
        }
        0xAA => {
            // XOR A, D
            let value: u8 = cpu.registers.d;
            cpu.xor(value);
            1
        }
        0xAB => {
            // XOR A, E
            let value: u8 = cpu.registers.e;
            cpu.xor(value);
            1
        }
        0xAC => {
            // XOR A, H
            let value: u8 = cpu.registers.h;
            cpu.xor(value);
            1
        }
        0xAD => {
            // XOR A, L
            let value: u8 = cpu.registers.l;
            cpu.xor(value);
            1
        }
        0xAE => {
            // XOR A, (HL)
            let value: u8 = mmu.read_byte(cpu.get_hl());
            cpu.xor(value);
            2
        }
        0xAF => {
            // XOR A, A
            let value: u8 = cpu.registers.a;
            cpu.xor(value);
            1
        }
        0xB0 => {
            // OR A, B
            let value: u8 = cpu.registers.b;
            cpu.or(value);
            1
        }
        0xB1 => {
            // OR A, C
            let value: u8 = cpu.registers.c;
            cpu.or(value);
            1
        }
        0xB2 => {
            // OR A, D
            let value: u8 = cpu.registers.d;
            cpu.or(value);
            1
        }
        0xB3 => {
            // OR A, E
            let value: u8 = cpu.registers.e;
            cpu.or(value);
            1
        }
        0xB4 => {
            // OR A, H
            let value: u8 = cpu.registers.h;
            cpu.or(value);
            1
        }
        0xB5 => {
            // OR A, L
            let value: u8 = cpu.registers.l;
            cpu.or(value);
            1
        }
        0xB6 => {
            // OR A, (HL)
            let value: u8 = mmu.read_byte(cpu.get_hl());
            cpu.or(value);
            2
        }
        0xB7 => {
            // OR A, A
            let value: u8 = cpu.registers.a;
            cpu.or(value);
            1
        }
        0xB8 => {
            // CP A, B
            let value: u8 = cpu.registers.b;
            cpu.cp(value);
            1
        }
        0xB9 => {
            // CP A, C
            let value: u8 = cpu.registers.c;
            cpu.cp(value);
            1
        }
        0xBA => {
            // CP A, D
            let value: u8 = cpu.registers.d;
            cpu.cp(value);
            1
        }
        0xBB => {
            // CP A, E
            let value: u8 = cpu.registers.e;
            cpu.cp(value);
            1
        }
        0xBC => {
            // CP A, H
            let value: u8 = cpu.registers.h;
            cpu.cp(value);
            1
        }
        0xBD => {
            // CP A, L
            let value: u8 = cpu.registers.l;
            cpu.cp(value);
            1
        }
        0xBE => {
            // CP A, (HL)
            let value: u8 = mmu.read_byte(cpu.get_hl());
            cpu.cp(value);
            2
        }
        0xBF => {
            // CP A, A
            let value: u8 = cpu.registers.a;
            cpu.cp(value);
            1
        }
        _ => {
            // no other opcode belongs to this group
            assert(false);
            0
        }
    }
}

/// The opcodes 0xC0 to 0xFF but for the prefix: returns, jumps, calls, the
/// stack, the high-page loads and the arithmetic with an immediate operand.
#[verifier::rlimit(60)]
fn execute_branch(cpu: &mut CPU, mmu: &mut MMU, opcode: u8) -> (cycles: u8)
    requires
        0xC0 <= opcode,
        opcode != 0xCB,
        is_defined(opcode),
    ensures
        (Outcome { cpu: *final(cpu), bus: final(mmu)@, cycles }) == run_branch(
            opcode,
            *old(cpu),
            old(mmu)@,
        ),
{
    match opcode {
        0xC0 => {
            // RET NZ
            let cond: bool = !cpu.get_zf();
            cpu.ret(cond, mmu);
            if cond {
                5
            } else {
                2
            }
        }
        0xC1 => {
            // POP BC
            let value: u16 = cpu.pop(mmu);
            cpu.set_bc(value);
            3
        }
        0xC2 => {
            // JP NZ, u16
            let cond: bool = !cpu.get_zf();
            cpu.jp(cond, mmu);
            if cond {
                4
            } else {
                3
            }
        }
        0xC3 => {
            // JP u16
            cpu.jp(true, mmu);
            4
        }
        0xC4 => {
            // CALL NZ, u16
            let cond: bool = !cpu.get_zf();
            cpu.call(cond, mmu);
            if cond {
                6
            } else {
                3
            }
        }
        0xC5 => {
            // PUSH BC
            let value: u16 = cpu.get_bc();
            cpu.push(value, mmu);
            4
        }
        0xC6 => {
            // ADD A, u8
            let value: u8 = cpu.fetch_byte(mmu);
            cpu.registers.a = cpu.add8(value);
            2
        }
        0xC7 => {
            // RST 00H
            cpu.rst(0x00, mmu);
            4
        }
        0xC8 => {
            // RET Z
            let cond: bool = cpu.get_zf();
            cpu.ret(cond, mmu);
            if cond {
                5
            } else {
                2
            }
        }
        0xC9 => {
            // RET
            cpu.ret(true, mmu);
            4
        }
        0xCA => {
            // JP Z, u16
            let cond: bool = cpu.get_zf();
            cpu.jp(cond, mmu);
            if cond {
                4
            } else {
                3
            }
        }
        0xCC => {
            // CALL Z, u16
            let cond: bool = cpu.get_zf();
            cpu.call(cond, mmu);
            if cond {
                6
            } else {
                3
            }
        }
        0xCD => {
            // CALL u16
            cpu.call(true, mmu);
            6
        }
        0xCE => {
            // ADC A, u8
            let value: u8 = cpu.fetch_byte(mmu);
            cpu.registers.a = cpu.adc(value);
            2
        }
        0xCF => {
            // RST 08H
            cpu.rst(0x08, mmu);
            4
        }
        0xD0 => {
            // RET NC
            let cond: bool = !cpu.get_cf();
            cpu.ret(cond, mmu);
            if cond {
                5
            } else {
                2
            }
        }
        0xD1 => {
            // POP DE
            let value: u16 = cpu.pop(mmu);
            cpu.set_de(value);
            3
        }
        0xD2 => {
            // JP NC, u16
            let cond: bool = !cpu.get_cf();
            cpu.jp(cond, mmu);
            if cond {
                4
            } else {
                3
            }
        }
        0xD4 => {
            // CALL NC, u16
            let cond: bool = !cpu.get_cf();
            cpu.call(cond, mmu);
            if cond {
                6
            } else {
                3
            }
        }
        0xD5 => {
            // PUSH DE
            let value: u16 = cpu.get_de();
            cpu.push(value, mmu);
            4
        }
        0xD6 => {
            // SUB A, u8
            let value: u8 = cpu.fetch_byte(mmu);
            cpu.registers.a = cpu.sub(value);
            2
        }
        0xD7 => {
            // RST 10H
            cpu.rst(0x10, mmu);
            4
        }
        0xD8 => {
            // RET C
            let cond: bool = cpu.get_cf();
            cpu.ret(cond, mmu);
            if cond {
                5
            } else {
                2
            }
        }
        0xD9 => {
            // RETI
            cpu.ret(true, mmu);
            cpu.ei_flag = true;
            4
        }
        0xDA => {
            // JP C, u16
            let cond: bool = cpu.get_cf();
            cpu.jp(cond, mmu);
            if cond {
                4
            } else {
                3
            }
        }
        0xDC => {
            // CALL C, u16
            let cond: bool = cpu.get_cf();
            cpu.call(cond, mmu);
            if cond {
                6
            } else {
                3
            }
        }
        0xDE => {
            // SBC A, u8
            let value: u8 = cpu.fetch_byte(mmu);
            cpu.registers.a = cpu.sbc(value);
            2
        }
        0xDF => {
            // RST 18H
            cpu.rst(0x18, mmu);
            4
        }
        0xE0 => {
            // LD (FF00 + u8), A
            let offset: u8 = cpu.fetch_byte(mmu);
            mmu.write_byte(0xFF00 + (offset as u16), cpu.registers.a);
            3
        }
        0xE1 => {
            // POP HL
            let value: u16 = cpu.pop(mmu);
            cpu.set_hl(value);
            3
        }
        0xE2 => {
            // LD (FF00 + C), A
            mmu.write_byte(0xFF00 + (cpu.registers.c as u16), cpu.registers.a);
            2
        }
        0xE5 => {
            // PUSH HL
            let value: u16 = cpu.get_hl();
            cpu.push(value, mmu);
            4
        }
        0xE6 => {
            // AND A, u8
            let value: u8 = cpu.fetch_byte(mmu);
            cpu.and(value);
            2
        }
        0xE7 => {
            // RST 20H
            cpu.rst(0x20, mmu);
            4
        }
        0xE8 => {
            // ADD SP, i8
            let offset: u8 = cpu.fetch_byte(mmu);
            let result: u16 = cpu.add_sp(offset);
            cpu.registers.sp = result;
            4
        }
        0xE9 => {
            // JP HL
            cpu.registers.pc = cpu.get_hl();
            1
        }
        0xEA => {
            // LD (u16), A
            let address: u16 = cpu.fetch_word(mmu);
            mmu.write_byte(address, cpu.registers.a);
            4
        }
        0xEE => {
            // XOR A, u8
            let value: u8 = cpu.fetch_byte(mmu);
            cpu.xor(value);
            2
        }
        0xEF => {
            // RST 28H
            cpu.rst(0x28, mmu);
            4
        }
        0xF0 => {
            // LD A, (FF00 + u8)
            let offset: u8 = cpu.fetch_byte(mmu);
            cpu.registers.a = mmu.read_byte(0xFF00 + (offset as u16));
            3
        }
        0xF1 => {
            // POP AF
            let value: u16 = cpu.pop(mmu);
            cpu.set_af(value);
            3
        }
        0xF2 => {
            // LD A, (FF00 + C)
            cpu.registers.a = mmu.read_byte(0xFF00 + (cpu.registers.c as u16));
            2
        }
        0xF3 => {
            // DI
            cpu.ei_flag = false;
            cpu.ime = false;
            1
        }
        0xF5 => {
            // PUSH AF
            let value: u16 = cpu.get_af();
            cpu.push(value, mmu);
            4
        }
        0xF6 => {
            // OR A, u8
            let value: u8 = cpu.fetch_byte(mmu);
            cpu.or(value);
            2
        }
        0xF7 => {
            // RST 30H
            cpu.rst(0x30, mmu);
            4
        }
        0xF8 => {
            // LD HL, SP + i8
            let offset: u8 = cpu.fetch_byte(mmu);
            let result: u16 = cpu.add_sp(offset);
            cpu.set_hl(result);
            3
        }
        0xF9 => {
            // LD SP, HL
            cpu.registers.sp = cpu.get_hl();
            2
        }
        0xFA => {
            // LD A, (u16)
            let address: u16 = cpu.fetch_word(mmu);
            cpu.registers.a = mmu.read_byte(address);
            4
        }
        0xFB => {
            // EI
            cpu.ei_flag = true;
            1
        }
        0xFE => {
            // CP A, u8
            let value: u8 = cpu.fetch_byte(mmu);
            cpu.cp(value);
            2
        }
        0xFF => {
            // RST 38H
            cpu.rst(0x38, mmu);
            4
        }
        _ => {
            // no other opcode belongs to this group
            assert(false);
            0
        }
    }
}

/// The prefixed opcodes 0x00 to 0x3F: rotates, shifts and SWAP.
fn execute_rotate(cpu: &mut CPU, mmu: &mut MMU, opcode: u8) -> (cycles: u8)
    requires
        opcode < 0x40,
    ensures
        (Outcome { cpu: *final(cpu), bus: final(mmu)@, cycles }) == run_rotate(
            opcode,
            *old(cpu),
            old(mmu)@,
        ),
{
    match opcode {
        0x00 => {
            // RLC B
            let value: u8 = cpu.registers.b;
            cpu.registers.b = cpu.rlc(value);
            2
        }
        0x01 => {
            // RLC C
            let value: u8 = cpu.registers.c;
            cpu.registers.c = cpu.rlc(value);
            2
        }
        0x02 => {
            // RLC D
            let value: u8 = cpu.registers.d;
            cpu.registers.d = cpu.rlc(value);
            2
        }
        0x03 => {
            // RLC E
            let value: u8 = cpu.registers.e;
            cpu.registers.e = cpu.rlc(value);
            2
        }
        0x04 => {
            // RLC H
            let value: u8 = cpu.registers.h;
            cpu.registers.h = cpu.rlc(value);
            2
        }
        0x05 => {
            // RLC L
            let value: u8 = cpu.registers.l;
            cpu.registers.l = cpu.rlc(value);
            2
        }
        0x06 => {
            // RLC (HL)
            let value: u8 = mmu.read_byte(cpu.get_hl());
            let result: u8 = cpu.rlc(value);
            mmu.write_byte(cpu.get_hl(), result);
            4
        }
        0x07 => {
            // RLC A
            let value: u8 = cpu.registers.a;
            cpu.registers.a = cpu.rlc(value);
            2
        }
        0x08 => {
            // RRC B
            let value: u8 = cpu.registers.b;
            cpu.registers.b = cpu.rrc(value);
            2
        }
        0x09 => {
            // RRC C
            let value: u8 = cpu.registers.c;
            cpu.registers.c = cpu.rrc(value);
            2
        }
        0x0A => {
            // RRC D
            let value: u8 = cpu.registers.d;
            cpu.registers.d = cpu.rrc(value);
            2
        }
        0x0B => {
            // RRC E
            let value: u8 = cpu.registers.e;
            cpu.registers.e = cpu.rrc(value);
            2
        }
        0x0C => {
            // RRC H
            let value: u8 = cpu.registers.h;
            cpu.registers.h = cpu.rrc(value);
            2
        }
        0x0D => {
            // RRC L
            let value: u8 = cpu.registers.l;
            cpu.registers.l = cpu.rrc(value);
            2
        }
        0x0E => {
            // RRC (HL)
            let value: u8 = mmu.read_byte(cpu.get_hl());
            let result: u8 = cpu.rrc(value);
            mmu.write_byte(cpu.get_hl(), result);
            4
        }
        0x0F => {
            // RRC A
            let value: u8 = cpu.registers.a;
            cpu.registers.a = cpu.rrc(value);
            2
        }
        0x10 => {
            // RL B
            let value: u8 = cpu.registers.b;
            cpu.registers.b = cpu.rl(value);
            2
        }
        0x11 => {
            // RL C
            let value: u8 = cpu.registers.c;
            cpu.registers.c = cpu.rl(value);
            2
        }
        0x12 => {
            // RL D
            let value: u8 = cpu.registers.d;
            cpu.registers.d = cpu.rl(value);
            2
        }
        0x13 => {
            // RL E
            let value: u8 = cpu.registers.e;
            cpu.registers.e = cpu.rl(value);
            2
        }
        0x14 => {
            // RL H
            let value: u8 = cpu.registers.h;
            cpu.registers.h = cpu.rl(value);
            2
        }
        0x15 => {
            // RL L
            let value: u8 = cpu.registers.l;
            cpu.registers.l = cpu.rl(value);
            2
        }
        0x16 => {
            // RL (HL)
            let value: u8 = mmu.read_byte(cpu.get_hl());
            let result: u8 = cpu.rl(value);
            mmu.write_byte(cpu.get_hl(), result);
            4
        }
        0x17 => {
            // RL A
            let value: u8 = cpu.registers.a;
            cpu.registers.a = cpu.rl(value);
            2
        }
        0x18 => {
            // RR B
            let value: u8 = cpu.registers.b;
            cpu.registers.b = cpu.rr(value);
            2
        }
        0x19 => {
            // RR C
            let value: u8 = cpu.registers.c;
            cpu.registers.c = cpu.rr(value);
            2
        }
        0x1A => {
            // RR D
            let value: u8 = cpu.registers.d;
            cpu.registers.d = cpu.rr(value);
            2
        }
        0x1B => {
            // RR E
            let value: u8 = cpu.registers.e;
            cpu.registers.e = cpu.rr(value);
            2
        }
        0x1C => {
            // RR H
            let value: u8 = cpu.registers.h;
            cpu.registers.h = cpu.rr(value);
            2
        }
        0x1D => {
            // RR L
            let value: u8 = cpu.registers.l;
            cpu.registers.l = cpu.rr(value);
            2
        }
        0x1E => {
            // RR (HL)
            let value: u8 = mmu.read_byte(cpu.get_hl());
            let result: u8 = cpu.rr(value);
            mmu.write_byte(cpu.get_hl(), result);
            4
        }
        0x1F => {
            // RR A
            let value: u8 = cpu.registers.a;
            cpu.registers.a = cpu.rr(value);
            2
        }
        0x20 => {
            // SLA B
            let value: u8 = cpu.registers.b;
            cpu.registers.b = cpu.sla(value);
            2
        }
        0x21 => {
            // SLA C
            let value: u8 = cpu.registers.c;
            cpu.registers.c = cpu.sla(value);
            2
        }
        0x22 => {
            // SLA D
            let value: u8 = cpu.registers.d;
            cpu.registers.d = cpu.sla(value);
            2
        }
        0x23 => {
            // SLA E
            let value: u8 = cpu.registers.e;
            cpu.registers.e = cpu.sla(value);
            2
        }
        0x24 => {
            // SLA H
            let value: u8 = cpu.registers.h;
            cpu.registers.h = cpu.sla(value);
            2
        }
        0x25 => {
            // SLA L
            let value: u8 = cpu.registers.l;
            cpu.registers.l = cpu.sla(value);
            2
        }
        0x26 => {
            // SLA (HL)
            let value: u8 = mmu.read_byte(cpu.get_hl());
            let result: u8 = cpu.sla(value);
            mmu.write_byte(cpu.get_hl(), result);
            4
        }
        0x27 => {
            // SLA A
            let value: u8 = cpu.registers.a;
            cpu.registers.a = cpu.sla(value);
            2
        }
        0x28 => {
            // SRA B
            let value: u8 = cpu.registers.b;
            cpu.registers.b = cpu.sra(value);
            2
        }
        0x29 => {
            // SRA C
            let value: u8 = cpu.registers.c;
            cpu.registers.c = cpu.sra(value);
            2
        }
        0x2A => {
            // SRA D
            let value: u8 = cpu.registers.d;
            cpu.registers.d = cpu.sra(value);
            2
        }
        0x2B => {
            // SRA E
            let value: u8 = cpu.registers.e;
            cpu.registers.e = cpu.sra(value);
            2
        }
        0x2C => {
            // SRA H
            let value: u8 = cpu.registers.h;
            cpu.registers.h = cpu.sra(value);
            2
        }
        0x2D => {
            // SRA L
            let value: u8 = cpu.registers.l;
            cpu.registers.l = cpu.sra(value);
            2
        }
        0x2E => {
            // SRA (HL)
            let value: u8 = mmu.read_byte(cpu.get_hl());
            let result: u8 = cpu.sra(value);
            mmu.write_byte(cpu.get_hl(), result);
            4
        }
        0x2F => {
            // SRA A
            let value: u8 = cpu.registers.a;
            cpu.registers.a = cpu.sra(value);
            2
        }
        0x30 => {
            // SWAP B
            let value: u8 = cpu.registers.b;
            cpu.registers.b = cpu.swap(value);
            2
        }
        0x31 => {
            // SWAP C
            let value: u8 = cpu.registers.c;
            cpu.registers.c = cpu.swap(value);
            2
        }
        0x32 => {
            // SWAP D
            let value: u8 = cpu.registers.d;
            cpu.registers.d = cpu.swap(value);
            2
        }
        0x33 => {
            // SWAP E
            let value: u8 = cpu.registers.e;
            cpu.registers.e = cpu.swap(value);
            2
        }
        0x34 => {
            // SWAP H
            let value: u8 = cpu.registers.h;
            cpu.registers.h = cpu.swap(value);
            2
        }
        0x35 => {
            // SWAP L
            let value: u8 = cpu.registers.l;
            cpu.registers.l = cpu.swap(value);
            2
        }
        0x36 => {
            // SWAP (HL)
            let value: u8 = mmu.read_byte(cpu.get_hl());
            let result: u8 = cpu.swap(value);
            mmu.write_byte(cpu.get_hl(), result);
            4
        }
        0x37 => {
            // SWAP A
            let value: u8 = cpu.registers.a;
            cpu.registers.a = cpu.swap(value);
            2
        }
        0x38 => {
            // SRL B
            let value: u8 = cpu.registers.b;
            cpu.registers.b = cpu.srl(value);
            2
        }
        0x39 => {
            // SRL C
            let value: u8 = cpu.registers.c;
            cpu.registers.c = cpu.srl(value);
            2
        }
        0x3A => {
            // SRL D
            let value: u8 = cpu.registers.d;
            cpu.registers.d = cpu.srl(value);
            2
        }
        0x3B => {
            // SRL E
            let value: u8 = cpu.registers.e;
            cpu.registers.e = cpu.srl(value);
            2
        }
        0x3C => {
            // SRL H
            let value: u8 = cpu.registers.h;
            cpu.registers.h = cpu.srl(value);
            2
        }
        0x3D => {
            // SRL L
            let value: u8 = cpu.registers.l;
            cpu.registers.l = cpu.srl(value);
            2
        }
        0x3E => {
            // SRL (HL)
            let value: u8 = mmu.read_byte(cpu.get_hl());
            let result: u8 = cpu.srl(value);
            mmu.write_byte(cpu.get_hl(), result);
            4
        }
        0x3F => {
            // SRL A
            let value: u8 = cpu.registers.a;
            cpu.registers.a = cpu.srl(value);
            2
        }
        _ => {
            // no other opcode belongs to this group
            assert(false);
            0
        }
    }
}

/// The prefixed opcodes 0x40 to 0x7F: BIT.
fn execute_bit(cpu: &mut CPU, mmu: &mut MMU, opcode: u8) -> (cycles: u8)
    requires
        0x40 <= opcode < 0x80,
    ensures
        (Outcome { cpu: *final(cpu), bus: final(mmu)@, cycles }) == run_bit(
            opcode,
            *old(cpu),
            old(mmu)@,
        ),
{
    match opcode {
        0x40 => {
            // BIT 0, B
            let value: u8 = cpu.registers.b;
            cpu.bit(0, value);
            2
        }
        0x41 => {
            // BIT 0, C
            let value: u8 = cpu.registers.c;
            cpu.bit(0, value);
            2
        }
        0x42 => {
            // BIT 0, D
            let value: u8 = cpu.registers.d;
            cpu.bit(0, value);
            2
        }
        0x43 => {
            // BIT 0, E
            let value: u8 = cpu.registers.e;
            cpu.bit(0, value);
            2
        }
        0x44 => {
            // BIT 0, H
            let value: u8 = cpu.registers.h;
            cpu.bit(0, value);
            2
        }
        0x45 => {
            // BIT 0, L
            let value: u8 = cpu.registers.l;
            cpu.bit(0, value);
            2
        }
        0x46 => {
            // BIT 0, (HL)
            let value: u8 = mmu.read_byte(cpu.get_hl());
            cpu.bit(0, value);
            3
        }
        0x47 => {
            // BIT 0, A
            let value: u8 = cpu.registers.a;
            cpu.bit(0, value);
            2
        }
        0x48 => {
            // BIT 1, B
            let value: u8 = cpu.registers.b;
            cpu.bit(1, value);
            2
        }
        0x49 => {
            // BIT 1, C
            let value: u8 = cpu.registers.c;
            cpu.bit(1, value);
            2
        }
        0x4A => {
            // BIT 1, D
            let value: u8 = cpu.registers.d;
            cpu.bit(1, value);
            2
        }
        0x4B => {
            // BIT 1, E
            let value: u8 = cpu.registers.e;
            cpu.bit(1, value);
            2
        }
        0x4C => {
            // BIT 1, H
            let value: u8 = cpu.registers.h;
            cpu.bit(1, value);
            2
        }
        0x4D => {
            // BIT 1, L
            let value: u8 = cpu.registers.l;
            cpu.bit(1, value);
            2
        }
        0x4E => {
            // BIT 1, (HL)
            let value: u8 = mmu.read_byte(cpu.get_hl());
            cpu.bit(1, value);
            3
        }
        0x4F => {
            // BIT 1, A
            let value: u8 = cpu.registers.a;
            cpu.bit(1, value);
            2
        }
        0x50 => {
            // BIT 2, B
            let value: u8 = cpu.registers.b;
            cpu.bit(2, value);
            2
        }
        0x51 => {
            // BIT 2, C
            let value: u8 = cpu.registers.c;
            cpu.bit(2, value);
            2
        }
        0x52 => {
            // BIT 2, D
            let value: u8 = cpu.registers.d;
            cpu.bit(2, value);
            2
        }
        0x53 => {
            // BIT 2, E
            let value: u8 = cpu.registers.e;
            cpu.bit(2, value);
            2
        }
        0x54 => {
            // BIT 2, H
            let value: u8 = cpu.registers.h;
            cpu.bit(2, value);
            2
        }
        0x55 => {
            // BIT 2, L
            let value: u8 = cpu.registers.l;
            cpu.bit(2, value);
            2
        }
        0x56 => {
            // BIT 2, (HL)
            let value: u8 = mmu.read_byte(cpu.get_hl());
            cpu.bit(2, value);
            3
        }
        0x57 => {
            // BIT 2, A
            let value: u8 = cpu.registers.a;
            cpu.bit(2, value);
            2
        }
        0x58 => {
            // BIT 3, B
            let value: u8 = cpu.registers.b;
            cpu.bit(3, value);
            2
        }
        0x59 => {
            // BIT 3, C
            let value: u8 = cpu.registers.c;
            cpu.bit(3, value);
            2
        }
        0x5A => {
            // BIT 3, D
            let value: u8 = cpu.registers.d;
            cpu.bit(3, value);
            2
        }
        0x5B => {
            // BIT 3, E
            let value: u8 = cpu.registers.e;
            cpu.bit(3, value);
            2
        }
        0x5C => {
            // BIT 3, H
            let value: u8 = cpu.registers.h;
            cpu.bit(3, value);
            2
        }
        0x5D => {
            // BIT 3, L
            let value: u8 = cpu.registers.l;
            cpu.bit(3, value);
            2
        }
        0x5E => {
            // BIT 3, (HL)
            let value: u8 = mmu.read_byte(cpu.get_hl());
            cpu.bit(3, value);
            3
        }
        0x5F => {
            // BIT 3, A
            let value: u8 = cpu.registers.a;
            cpu.bit(3, value);
            2
        }
        0x60 => {
            // BIT 4, B
            let value: u8 = cpu.registers.b;
            cpu.bit(4, value);
            2
        }
        0x61 => {
            // BIT 4, C
            let value: u8 = cpu.registers.c;
            cpu.bit(4, value);
            2
        }
        0x62 => {
            // BIT 4, D
            let value: u8 = cpu.registers.d;
            cpu.bit(4, value);
            2
        }
        0x63 => {
            // BIT 4, E
            let value: u8 = cpu.registers.e;
            cpu.bit(4, value);
            2
        }
        0x64 => {
            // BIT 4, H
            let value: u8 = cpu.registers.h;
            cpu.bit(4, value);
            2
        }
        0x65 => {
            // BIT 4, L
            let value: u8 = cpu.registers.l;
            cpu.bit(4, value);
            2
        }
        0x66 => {
            // BIT 4, (HL)
            let value: u8 = mmu.read_byte(cpu.get_hl());
            cpu.bit(4, value);
            3
        }
        0x67 => {
            // BIT 4, A
            let value: u8 = cpu.registers.a;
            cpu.bit(4, value);
            2
        }
        0x68 => {
            // BIT 5, B
            let value: u8 = cpu.registers.b;
            cpu.bit(5, value);
            2
        }
        0x69 => {
            // BIT 5, C
            let value: u8 = cpu.registers.c;
            cpu.bit(5, value);
            2
        }
        0x6A => {
            // BIT 5, D
            let value: u8 = cpu.registers.d;
            cpu.bit(5, value);
            2
        }
        0x6B => {
            // BIT 5, E
            let value: u8 = cpu.registers.e;
            cpu.bit(5, value);
            2
        }
        0x6C => {
            // BIT 5, H
            let value: u8 = cpu.registers.h;
            cpu.bit(5, value);
            2
        }
        0x6D => {
            // BIT 5, L
            let value: u8 = cpu.registers.l;
            cpu.bit(5, value);
            2
        }
        0x6E => {
            // BIT 5, (HL)
            let value: u8 = mmu.read_byte(cpu.get_hl());
            cpu.bit(5, value);
            3
        }
        0x6F => {
            // BIT 5, A
            let value: u8 = cpu.registers.a;
            cpu.bit(5, value);
            2
        }
        0x70 => {
            // BIT 6, B
            let value: u8 = cpu.registers.b;
            cpu.bit(6, value);
            2
        }
        0x71 => {
            // BIT 6, C
            let value: u8 = cpu.registers.c;
            cpu.bit(6, value);
            2
        }
        0x72 => {
            // BIT 6, D
            let value: u8 = cpu.registers.d;
            cpu.bit(6, value);
            2
        }
        0x73 => {
            // BIT 6, E
            let value: u8 = cpu.registers.e;
            cpu.bit(6, value);
            2
        }
        0x74 => {
            // BIT 6, H
            let value: u8 = cpu.registers.h;
            cpu.bit(6, value);
            2
        }
        0x75 => {
            // BIT 6, L
            let value: u8 = cpu.registers.l;
            cpu.bit(6, value);
            2
        }
        0x76 => {
            // BIT 6, (HL)
            let value: u8 = mmu.read_byte(cpu.get_hl());
            cpu.bit(6, value);
            3
        }
        0x77 => {
            // BIT 6, A
            let value: u8 = cpu.registers.a;
            cpu.bit(6, value);
            2
        }
        0x78 => {
            // BIT 7, B
            let value: u8 = cpu.registers.b;
            cpu.bit(7, value);
            2
        }
        0x79 => {
            // BIT 7, C
            let value: u8 = cpu.registers.c;
            cpu.bit(7, value);
            2
        }
        0x7A => {
            // BIT 7, D
            let value: u8 = cpu.registers.d;
            cpu.bit(7, value);
            2
        }
        0x7B => {
            // BIT 7, E
            let value: u8 = cpu.registers.e;
            cpu.bit(7, value);
            2
        }
        0x7C => {
            // BIT 7, H
            let value: u8 = cpu.registers.h;
            cpu.bit(7, value);
            2
        }
        0x7D => {
            // BIT 7, L
            let value: u8 = cpu.registers.l;
            cpu.bit(7, value);
            2
        }
        0x7E => {
            // BIT 7, (HL)
            let value: u8 = mmu.read_byte(cpu.get_hl());
            cpu.bit(7, value);
            3
        }
        0x7F => {
            // BIT 7, A
            let value: u8 = cpu.registers.a;
            cpu.bit(7, value);
            2
        }
        _ => {
            // no other opcode belongs to this group
            assert(false);
            0
        }
    }
}

/// The prefixed opcodes 0x80 to 0xBF: RES.
fn execute_res(cpu: &mut CPU, mmu: &mut MMU, opcode: u8) -> (cycles: u8)
    requires
        0x80 <= opcode < 0xC0,
    ensures
        (Outcome { cpu: *final(cpu), bus: final(mmu)@, cycles }) == run_res(
            opcode,
            *old(cpu),
            old(mmu)@,
        ),
{
    match opcode {
        0x80 => {
            // RES 0, B
            let value: u8 = cpu.registers.b;
            cpu.registers.b = cpu.res(0, value);
            2
        }
        0x81 => {
            // RES 0, C
            let value: u8 = cpu.registers.c;
            cpu.registers.c = cpu.res(0, value);
            2
        }
        0x82 => {
            // RES 0, D
            let value: u8 = cpu.registers.d;
            cpu.registers.d = cpu.res(0, value);
            2
        }
        0x83 => {
            // RES 0, E
            let value: u8 = cpu.registers.e;
            cpu.registers.e = cpu.res(0, value);
            2
        }
        0x84 => {
            // RES 0, H
            let value: u8 = cpu.registers.h;
            cpu.registers.h = cpu.res(0, value);
            2
        }
        0x85 => {
            // RES 0, L
            let value: u8 = cpu.registers.l;
            cpu.registers.l = cpu.res(0, value);
            2
        }
        0x86 => {
            // RES 0, (HL)
            let value: u8 = mmu.read_byte(cpu.get_hl());
            let result: u8 = cpu.res(0, value);
            mmu.write_byte(cpu.get_hl(), result);
            4
        }
        0x87 => {
            // RES 0, A
            let value: u8 = cpu.registers.a;
            cpu.registers.a = cpu.res(0, value);
            2
        }
        0x88 => {
            // RES 1, B
            let value: u8 = cpu.registers.b;
            cpu.registers.b = cpu.res(1, value);
            2
        }
        0x89 => {
            // RES 1, C
            let value: u8 = cpu.registers.c;
            cpu.registers.c = cpu.res(1, value);
            2
        }
        0x8A => {
            // RES 1, D
            let value: u8 = cpu.registers.d;
            cpu.registers.d = cpu.res(1, value);
            2
        }
        0x8B => {
            // RES 1, E
            let value: u8 = cpu.registers.e;
            cpu.registers.e = cpu.res(1, value);
            2
        }
        0x8C => {
            // RES 1, H
            let value: u8 = cpu.registers.h;
            cpu.registers.h = cpu.res(1, value);
            2
        }
        0x8D => {
            // RES 1, L
            let value: u8 = cpu.registers.l;
            cpu.registers.l = cpu.res(1, value);
            2
        }
        0x8E => {
            // RES 1, (HL)
            let value: u8 = mmu.read_byte(cpu.get_hl());
            let result: u8 = cpu.res(1, value);
            mmu.write_byte(cpu.get_hl(), result);
            4
        }
        0x8F => {
            // RES 1, A
            let value: u8 = cpu.registers.a;
            cpu.registers.a = cpu.res(1, value);
            2
        }
        0x90 => {
            // RES 2, B
            let value: u8 = cpu.registers.b;
            cpu.registers.b = cpu.res(2, value);
            2
        }
        0x91 => {
            // RES 2, C
            let value: u8 = cpu.registers.c;
            cpu.registers.c = cpu.res(2, value);
            2
        }
        0x92 => {
            // RES 2, D
            let value: u8 = cpu.registers.d;
            cpu.registers.d = cpu.res(2, value);
            2
        }
        0x93 => {
            // RES 2, E
            let value: u8 = cpu.registers.e;
            cpu.registers.e = cpu.res(2, value);
            2
        }
        0x94 => {
            // RES 2, H
            let value: u8 = cpu.registers.h;
            cpu.registers.h = cpu.res(2, value);
            2
        }
        0x95 => {
            // RES 2, L
            let value: u8 = cpu.registers.l;
            cpu.registers.l = cpu.res(2, value);
            2
        }
        0x96 => {
            // RES 2, (HL)
            let value: u8 = mmu.read_byte(cpu.get_hl());
            let result: u8 = cpu.res(2, value);
            mmu.write_byte(cpu.get_hl(), result);
            4
        }
        0x97 => {
            // RES 2, A
            let value: u8 = cpu.registers.a;
            cpu.registers.a = cpu.res(2, value);
            2
        }
        0x98 => {
            // RES 3, B
            let value: u8 = cpu.registers.b;
            cpu.registers.b = cpu.res(3, value);
            2
        }
        0x99 => {
            // RES 3, C
            let value: u8 = cpu.registers.c;
            cpu.registers.c = cpu.res(3, value);
            2
        }
        0x9A => {
            // RES 3, D
            let value: u8 = cpu.registers.d;
            cpu.registers.d = cpu.res(3, value);
            2
        }
        0x9B => {
            // RES 3, E
            let value: u8 = cpu.registers.e;
            cpu.registers.e = cpu.res(3, value);
            2
        }
        0x9C => {
            // RES 3, H
            let value: u8 = cpu.registers.h;
            cpu.registers.h = cpu.res(3, value);
            2
        }
        0x9D => {
            // RES 3, L
            let value: u8 = cpu.registers.l;
            cpu.registers.l = cpu.res(3, value);
            2
        }
        0x9E => {
            // RES 3, (HL)
            let value: u8 = mmu.read_byte(cpu.get_hl());
            let result: u8 = cpu.res(3, value);
            mmu.write_byte(cpu.get_hl(), result);
            4
        }
        0x9F => {
            // RES 3, A
            let value: u8 = cpu.registers.a;
            cpu.registers.a = cpu.res(3, value);
            2
        }
        0xA0 => {
            // RES 4, B
            let value: u8 = cpu.registers.b;
            cpu.registers.b = cpu.res(4, value);
            2
        }
        0xA1 => {
            // RES 4, C
            let value: u8 = cpu.registers.c;
            cpu.registers.c = cpu.res(4, value);
            2
        }
        0xA2 => {
            // RES 4, D
            let value: u8 = cpu.registers.d;
            cpu.registers.d = cpu.res(4, value);
            2
        }
        0xA3 => {
            // RES 4, E
            let value: u8 = cpu.registers.e;
            cpu.registers.e = cpu.res(4, value);
            2
        }
        0xA4 => {
            // RES 4, H
            let value: u8 = cpu.registers.h;
            cpu.registers.h = cpu.res(4, value);
            2
        }
        0xA5 => {
            // RES 4, L
            let value: u8 = cpu.registers.l;
            cpu.registers.l = cpu.res(4, value);
            2
        }
        0xA6 => {
            // RES 4, (HL)
            let value: u8 = mmu.read_byte(cpu.get_hl());
            let result: u8 = cpu.res(4, value);
            mmu.write_byte(cpu.get_hl(), result);
            4
        }
        0xA7 => {
            // RES 4, A
            let value: u8 = cpu.registers.a;
            cpu.registers.a = cpu.res(4, value);
            2
        }
        0xA8 => {
            // RES 5, B
            let value: u8 = cpu.registers.b;
            cpu.registers.b = cpu.res(5, value);
            2
        }
        0xA9 => {
            // RES 5, C
            let value: u8 = cpu.registers.c;
            cpu.registers.c = cpu.res(5, value);
            2
        }
        0xAA => {
            // RES 5, D
            let value: u8 = cpu.registers.d;
            cpu.registers.d = cpu.res(5, value);
            2
        }
        0xAB => {
            // RES 5, E
            let value: u8 = cpu.registers.e;
            cpu.registers.e = cpu.res(5, value);
            2
        }
        0xAC => {
            // RES 5, H
            let value: u8 = cpu.registers.h;
            cpu.registers.h = cpu.res(5, value);
            2
        }
        0xAD => {
            // RES 5, L
            let value: u8 = cpu.registers.l;
            cpu.registers.l = cpu.res(5, value);
            2
        }
        0xAE => {
            // RES 5, (HL)
            let value: u8 = mmu.read_byte(cpu.get_hl());
            let result: u8 = cpu.res(5, value);
            mmu.write_byte(cpu.get_hl(), result);
            4
        }
        0xAF => {
            // RES 5, A
            let value: u8 = cpu.registers.a;
            cpu.registers.a = cpu.res(5, value);
            2
        }
        0xB0 => {
            // RES 6, B
            let value: u8 = cpu.registers.b;
            cpu.registers.b = cpu.res(6, value);
            2
        }
        0xB1 => {
            // RES 6, C
            let value: u8 = cpu.registers.c;
            cpu.registers.c = cpu.res(6, value);
            2
        }
        0xB2 => {
            // RES 6, D
            let value: u8 = cpu.registers.d;
            cpu.registers.d = cpu.res(6, value);
            2
        }
        0xB3 => {
            // RES 6, E
            let value: u8 = cpu.registers.e;
            cpu.registers.e = cpu.res(6, value);
            2
        }
        0xB4 => {
            // RES 6, H
            let value: u8 = cpu.registers.h;
            cpu.registers.h = cpu.res(6, value);
            2
        }
        0xB5 => {
            // RES 6, L
            let value: u8 = cpu.registers.l;
            cpu.registers.l = cpu.res(6, value);
            2
        }
        0xB6 => {
            // RES 6, (HL)
            let value: u8 = mmu.read_byte(cpu.get_hl());
            let result: u8 = cpu.res(6, value);
            mmu.write_byte(cpu.get_hl(), result);
            4
        }
        0xB7 => {
            // RES 6, A
            let value: u8 = cpu.registers.a;
            cpu.registers.a = cpu.res(6, value);
            2
        }
        0xB8 => {
            // RES 7, B
            let value: u8 = cpu.registers.b;
            cpu.registers.b = cpu.res(7, value);
            2
        }
        0xB9 => {
            // RES 7, C
            let value: u8 = cpu.registers.c;
            cpu.registers.c = cpu.res(7, value);
            2
        }
        0xBA => {
            // RES 7, D
            let value: u8 = cpu.registers.d;
            cpu.registers.d = cpu.res(7, value);
            2
        }
        0xBB => {
            // RES 7, E
            let value: u8 = cpu.registers.e;
            cpu.registers.e = cpu.res(7, value);
            2
        }
        0xBC => {
            // RES 7, H
            let value: u8 = cpu.registers.h;
            cpu.registers.h = cpu.res(7, value);
            2
        }
        0xBD => {
            // RES 7, L
            let value: u8 = cpu.registers.l;
            cpu.registers.l = cpu.res(7, value);
            2
        }
        0xBE => {
            // RES 7, (HL)
            let value: u8 = mmu.read_byte(cpu.get_hl());
            let result: u8 = cpu.res(7, value);
            mmu.write_byte(cpu.get_hl(), result);
            4
        }
        0xBF => {
            // RES 7, A
            let value: u8 = cpu.registers.a;
            cpu.registers.a = cpu.res(7, value);
            2
        }
        _ => {
            // no other opcode belongs to this group
            assert(false);
            0
        }
    }
}

/// The prefixed opcodes 0xC0 to 0xFF: SET.
fn execute_set(cpu: &mut CPU, mmu: &mut MMU, opcode: u8) -> (cycles: u8)
    requires
        0xC0 <= opcode,
    ensures
        (Outcome { cpu: *final(cpu), bus: final(mmu)@, cycles }) == run_set(
            opcode,
            *old(cpu),
            old(mmu)@,
        ),
{
    match opcode {
        0xC0 => {
            // SET 0, B
            let value: u8 = cpu.registers.b;
            cpu.registers.b = cpu.set(0, value);
            2
        }
        0xC1 => {
            // SET 0, C
            let value: u8 = cpu.registers.c;
            cpu.registers.c = cpu.set(0, value);
            2
        }
        0xC2 => {
            // SET 0, D
            let value: u8 = cpu.registers.d;
            cpu.registers.d = cpu.set(0, value);
            2
        }
        0xC3 => {
            // SET 0, E
            let value: u8 = cpu.registers.e;
            cpu.registers.e = cpu.set(0, value);
            2
        }
        0xC4 => {
            // SET 0, H
            let value: u8 = cpu.registers.h;
            cpu.registers.h = cpu.set(0, value);
            2
        }
        0xC5 => {
            // SET 0, L
            let value: u8 = cpu.registers.l;
            cpu.registers.l = cpu.set(0, value);
            2
        }
        0xC6 => {
            // SET 0, (HL)
            let value: u8 = mmu.read_byte(cpu.get_hl());
            let result: u8 = cpu.set(0, value);
            mmu.write_byte(cpu.get_hl(), result);
            4
        }
        0xC7 => {
            // SET 0, A
            let value: u8 = cpu.registers.a;
            cpu.registers.a = cpu.set(0, value);
            2
        }
        0xC8 => {
            // SET 1, B
            let value: u8 = cpu.registers.b;
            cpu.registers.b = cpu.set(1, value);
            2
        }
        0xC9 => {
            // SET 1, C
            let value: u8 = cpu.registers.c;
            cpu.registers.c = cpu.set(1, value);
            2
        }
        0xCA => {
            // SET 1, D
            let value: u8 = cpu.registers.d;
            cpu.registers.d = cpu.set(1, value);
            2
        }
        0xCB => {
            // SET 1, E
            let value: u8 = cpu.registers.e;
            cpu.registers.e = cpu.set(1, value);
            2
        }
        0xCC => {
            // SET 1, H
            let value: u8 = cpu.registers.h;
            cpu.registers.h = cpu.set(1, value);
            2
        }
        0xCD => {
            // SET 1, L
            let value: u8 = cpu.registers.l;
            cpu.registers.l = cpu.set(1, value);
            2
        }
        0xCE => {
            // SET 1, (HL)
            let value: u8 = mmu.read_byte(cpu.get_hl());
            let result: u8 = cpu.set(1, value);
            mmu.write_byte(cpu.get_hl(), result);
            4
        }
        0xCF => {
            // SET 1, A
            let value: u8 = cpu.registers.a;
            cpu.registers.a = cpu.set(1, value);
            2
        }
        0xD0 => {
            // SET 2, B
            let value: u8 = cpu.registers.b;
            cpu.registers.b = cpu.set(2, value);
            2
        }
        0xD1 => {
            // SET 2, C
            let value: u8 = cpu.registers.c;
            cpu.registers.c = cpu.set(2, value);
            2
        }
        0xD2 => {
            // SET 2, D
            let value: u8 = cpu.registers.d;
            cpu.registers.d = cpu.set(2, value);
            2
        }
        0xD3 => {
            // SET 2, E
            let value: u8 = cpu.registers.e;
            cpu.registers.e = cpu.set(2, value);
            2
        }
        0xD4 => {
            // SET 2, H
            let value: u8 = cpu.registers.h;
            cpu.registers.h = cpu.set(2, value);
            2
        }
        0xD5 => {
            // SET 2, L
            let value: u8 = cpu.registers.l;
            cpu.registers.l = cpu.set(2, value);
            2
        }
        0xD6 => {
            // SET 2, (HL)
            let value: u8 = mmu.read_byte(cpu.get_hl());
            let result: u8 = cpu.set(2, value);
            mmu.write_byte(cpu.get_hl(), result);
            4
        }
        0xD7 => {
            // SET 2, A
            let value: u8 = cpu.registers.a;
            cpu.registers.a = cpu.set(2, value);
            2
        }
        0xD8 => {
            // SET 3, B
            let value: u8 = cpu.registers.b;
            cpu.registers.b = cpu.set(3, value);
            2
        }
        0xD9 => {
            // SET 3, C
            let value: u8 = cpu.registers.c;
            cpu.registers.c = cpu.set(3, value);
            2
        }
        0xDA => {
            // SET 3, D
            let value: u8 = cpu.registers.d;
            cpu.registers.d = cpu.set(3, value);
            2
        }
        0xDB => {
            // SET 3, E
            let value: u8 = cpu.registers.e;
            cpu.registers.e = cpu.set(3, value);
            2
        }
        0xDC => {
            // SET 3, H
            let value: u8 = cpu.registers.h;
            cpu.registers.h = cpu.set(3, value);
            2
        }
        0xDD => {
            // SET 3, L
            let value: u8 = cpu.registers.l;
            cpu.registers.l = cpu.set(3, value);
            2
        }
        0xDE => {
            // SET 3, (HL)
            let value: u8 = mmu.read_byte(cpu.get_hl());
            let result: u8 = cpu.set(3, value);
            mmu.write_byte(cpu.get_hl(), result);
            4
        }
        0xDF => {
            // SET 3, A
            let value: u8 = cpu.registers.a;
            cpu.registers.a = cpu.set(3, value);
            2
        }
        0xE0 => {
            // SET 4, B
            let value: u8 = cpu.registers.b;
            cpu.registers.b = cpu.set(4, value);
            2
        }
        0xE1 => {
            // SET 4, C
            let value: u8 = cpu.registers.c;
            cpu.registers.c = cpu.set(4, value);
            2
        }
        0xE2 => {
            // SET 4, D
            let value: u8 = cpu.registers.d;
            cpu.registers.d = cpu.set(4, value);
            2
        }
        0xE3 => {
            // SET 4, E
            let value: u8 = cpu.registers.e;
            cpu.registers.e = cpu.set(4, value);
            2
        }
        0xE4 => {
            // SET 4, H
            let value: u8 = cpu.registers.h;
            cpu.registers.h = cpu.set(4, value);
            2
        }
        0xE5 => {
            // SET 4, L
            let value: u8 = cpu.registers.l;
            cpu.registers.l = cpu.set(4, value);
            2
        }
        0xE6 => {
            // SET 4, (HL)
            let value: u8 = mmu.read_byte(cpu.get_hl());
            let result: u8 = cpu.set(4, value);
            mmu.write_byte(cpu.get_hl(), result);
            4
        }
        0xE7 => {
            // SET 4, A
            let value: u8 = cpu.registers.a;
            cpu.registers.a = cpu.set(4, value);
            2
        }
        0xE8 => {
            // SET 5, B
            let value: u8 = cpu.registers.b;
            cpu.registers.b = cpu.set(5, value);
            2
        }
        0xE9 => {
            // SET 5, C
            let value: u8 = cpu.registers.c;
            cpu.registers.c = cpu.set(5, value);
            2
        }
        0xEA => {
            // SET 5, D
            let value: u8 = cpu.registers.d;
            cpu.registers.d = cpu.set(5, value);
            2
        }
        0xEB => {
            // SET 5, E
            let value: u8 = cpu.registers.e;
            cpu.registers.e = cpu.set(5, value);
            2
        }
        0xEC => {
            // SET 5, H
            let value: u8 = cpu.registers.h;
            cpu.registers.h = cpu.set(5, value);
            2
        }
        0xED => {
            // SET 5, L
            let value: u8 = cpu.registers.l;
            cpu.registers.l = cpu.set(5, value);
            2
        }
        0xEE => {
            // SET 5, (HL)
            let value: u8 = mmu.read_byte(cpu.get_hl());
            let result: u8 = cpu.set(5, value);
            mmu.write_byte(cpu.get_hl(), result);
            4
        }
        0xEF => {
            // SET 5, A
            let value: u8 = cpu.registers.a;
            cpu.registers.a = cpu.set(5, value);
            2
        }
        0xF0 => {
            // SET 6, B
            let value: u8 = cpu.registers.b;
            cpu.registers.b = cpu.set(6, value);
            2
        }
        0xF1 => {
            // SET 6, C
            let value: u8 = cpu.registers.c;
            cpu.registers.c = cpu.set(6, value);
            2
        }
        0xF2 => {
            // SET 6, D
            let value: u8 = cpu.registers.d;
            cpu.registers.d = cpu.set(6, value);
            2
        }
        0xF3 => {
            // SET 6, E
            let value: u8 = cpu.registers.e;
            cpu.registers.e = cpu.set(6, value);
            2
        }
        0xF4 => {
            // SET 6, H
            let value: u8 = cpu.registers.h;
            cpu.registers.h = cpu.set(6, value);
            2
        }
        0xF5 => {
            // SET 6, L
            let value: u8 = cpu.registers.l;
            cpu.registers.l = cpu.set(6, value);
            2
        }
        0xF6 => {
            // SET 6, (HL)
            let value: u8 = mmu.read_byte(cpu.get_hl());
            let result: u8 = cpu.set(6, value);
            mmu.write_byte(cpu.get_hl(), result);
            4
        }
        0xF7 => {
            // SET 6, A
            let value: u8 = cpu.registers.a;
            cpu.registers.a = cpu.set(6, value);
            2
        }
        0xF8 => {
            // SET 7, B
            let value: u8 = cpu.registers.b;
            cpu.registers.b = cpu.set(7, value);
            2
        }
        0xF9 => {
            // SET 7, C
            let value: u8 = cpu.registers.c;
            cpu.registers.c = cpu.set(7, value);
            2
        }
        0xFA => {
            // SET 7, D
            let value: u8 = cpu.registers.d;
            cpu.registers.d = cpu.set(7, value);
            2
        }
        0xFB => {
            // SET 7, E
            let value: u8 = cpu.registers.e;
            cpu.registers.e = cpu.set(7, value);
            2
        }
        0xFC => {
            // SET 7, H
            let value: u8 = cpu.registers.h;
            cpu.registers.h = cpu.set(7, value);
            2
        }
        0xFD => {
            // SET 7, L
            let value: u8 = cpu.registers.l;
            cpu.registers.l = cpu.set(7, value);
            2
        }
        0xFE => {
            // SET 7, (HL)
            let value: u8 = mmu.read_byte(cpu.get_hl());
            let result: u8 = cpu.set(7, value);
            mmu.write_byte(cpu.get_hl(), result);
            4
        }
        0xFF => {
            // SET 7, A
            let value: u8 = cpu.registers.a;
            cpu.registers.a = cpu.set(7, value);
            2
        }
        _ => {
            // no other opcode belongs to this group
            assert(false);
            0
        }
    }
}

/// Tells whether the opcode names an instruction.
pub fn is_defined_opcode(opcode: u8) -> (r: bool)
    ensures
        r == is_defined(opcode),
{
    !(opcode == 0xD3 || opcode == 0xDB || opcode == 0xDD || opcode == 0xE3 || opcode == 0xE4
        || opcode == 0xEB || opcode == 0xEC || opcode == 0xED || opcode == 0xF4 || opcode == 0xFC
        || opcode == 0xFD)
}

/// Executes the prefixed instruction whose second byte is at the program
/// counter.
pub fn execute_cb_opcode(cpu: &mut CPU, mmu: &mut MMU) -> (cycles: u8)
    ensures
        (Outcome { cpu: *final(cpu), bus: final(mmu)@, cycles }) == execute_cb_spec(
            *old(cpu),
            old(mmu)@,
        ),
{
    let opcode: u8 = cpu.fetch_byte(mmu);
    if opcode < 0x40 {
        execute_rotate(cpu, mmu, opcode)
    } else if opcode < 0x80 {
        execute_bit(cpu, mmu, opcode)
    } else if opcode < 0xC0 {
        execute_res(cpu, mmu, opcode)
    } else {
        execute_set(cpu, mmu, opcode)
    }
}

/// Executes the instruction at the program counter and returns the machine
/// cycles that it took.
pub fn execute_opcode(cpu: &mut CPU, mmu: &mut MMU) -> (cycles: u8)
    requires
        is_defined(old(mmu)@.read(old(cpu).registers.pc)),
    ensures
        (Outcome { cpu: *final(cpu), bus: final(mmu)@, cycles }) == execute_spec(
            *old(cpu),
            old(mmu)@,
        ),
        cycles == instruction_cost(*old(cpu), old(mmu)@),
{
    let opcode: u8 = cpu.fetch_byte(mmu);
    proof {
        if opcode == 0xCB {
            lemma_prefixed_cost(mmu@.read(cpu.registers.pc), cpu.advanced(1), mmu@);
        } else {
            lemma_instruction_cost(opcode, *cpu, mmu@);
        }
    }
    if opcode < 0x40 {
        execute_misc(cpu, mmu, opcode)
    } else if opcode < 0x80 {
        execute_load(cpu, mmu, opcode)
    } else if opcode < 0xC0 {
        execute_arithmetic(cpu, mmu, opcode)
    } else if opcode == 0xCB {
        execute_cb_opcode(cpu, mmu)
    } else {
        execute_branch(cpu, mmu, opcode)
    }
}

/// The opcode is a jump, a call or a return that depends on a flag.
pub open spec fn is_conditional(op: u8) -> bool {
    op == 0x20 || op == 0x28 || op == 0x30 || op == 0x38 || op == 0xC0 || op == 0xC8 || op == 0xD0
        || op == 0xD8 || op == 0xC2 || op == 0xCA || op == 0xD2 || op == 0xDA || op == 0xC4 || op
        == 0xCC || op == 0xD4 || op == 0xDC
}

/// The machine cycles of a conditional opcode whose condition holds: 3 for a
/// relative jump, 5 for a return, 4 for a jump and 6 for a call.
pub open spec fn cost_taken(op: u8) -> int {
    if op < 0x40 {
        3
    } else if op % 8 == 0 {
        5
    } else if op % 8 == 2 {
        4
    } else {
        6
    }
}

/// The machine cycles of a conditional opcode whose condition fails: 2 for a
/// relative jump and a return, 3 for a jump and a call.
pub open spec fn cost_not_taken(op: u8) -> int {
    if op < 0x40 {
        2
    } else if op % 8 == 0 {
        2
    } else {
        3
    }
}

/// The machine cycles of the opcodes 0x00 to 0x3F that do not depend on a
/// flag.
pub open spec fn fixed_cost_misc(op: u8) -> int {
    if op == 0x00 || op == 0x10 {
        1
    } else if op == 0x08 {
        5
    } else if op == 0x18 {
        3
    } else if op % 16 == 0x1 {
        3
    } else if op % 16 == 0x9 || op % 8 == 2 || op % 8 == 3 {
        2
    } else if op == 0x34 || op == 0x35 || op == 0x36 {
        3
    } else if op % 8 == 6 {
        2
    } else {
        1
    }
}

/// The machine cycles of the opcodes 0xC0 to 0xFF that do not depend on a
/// flag, but for the prefix.
pub open spec fn fixed_cost_branch(op: u8) -> int {
    if op == 0xE9 || op == 0xF3 || op == 0xFB {
        1
    } else if op == 0xE2 || op == 0xF2 || op == 0xF9 || op % 8 == 6 {
        2
    } else if op % 16 == 0x1 || op == 0xE0 || op == 0xF0 || op == 0xF8 {
        3
    } else if op == 0xCD {
        6
    } else {
        4
    }
}

/// The machine cycles of an opcode that does not depend on a flag: one cycle
/// for each byte of the instruction and for each access to memory that it
/// makes, and more for a jump, a call, a return and 16-bit arithmetic.
pub open spec fn fixed_cost(op: u8) -> int {
    if op < 0x40 {
        fixed_cost_misc(op)
    } else if op < 0xC0 {
        if op == 0x76 {
            1
        } else if op % 8 == 6 || (0x70 <= op < 0x78) {
            2
        } else {
            1
        }
    } else {
        fixed_cost_branch(op)
    }
}

/// The machine cycles of a prefixed opcode: 2 on a register; on the byte at
/// HL 3 for a test and 4 for the others.
pub open spec fn prefixed_cost(op: u8) -> int {
    if op % 8 != 6 {
        2
    } else if 0x40 <= op < 0x80 {
        3
    } else {
        4
    }
}

/// The machine cycles of the instruction at the program counter, from the
/// tables: the cost of a conditional opcode is the higher one when its
/// condition holds, and the cost of a prefixed one is that of its second
/// byte.
pub open spec fn instruction_cost(cpu: CPU, bus: Bus) -> int {
    let op = bus.read(cpu.registers.pc);
    if op == 0xCB {
        prefixed_cost(bus.read(wrap16(cpu.registers.pc + 1)))
    } else if !is_conditional(op) {
        fixed_cost(op)
    } else if condition(cpu, op as int / 8 % 4) {
        cost_taken(op)
    } else {
        cost_not_taken(op)
    }
}

/// The cost of an instruction is that of the table. An opcode that depends on
/// no flag costs the same in every state; a conditional one costs one of its
/// two values, the higher one when it is taken.
pub proof fn lemma_instruction_cost(op: u8, cpu: CPU, bus: Bus)
    requires
        is_defined(op),
        op != 0xCB,
    ensures
        !is_conditional(op) ==> run(op, cpu, bus).cycles == fixed_cost(op),
        is_conditional(op) ==> run(op, cpu, bus).cycles == cost_taken(op) || run(
            op,
            cpu,
            bus,
        ).cycles == cost_not_taken(op),
        is_conditional(op) ==> (run(op, cpu, bus).cycles == cost_taken(op)) == condition(
            cpu,
            op as int / 8 % 4,
        ),
{
}

/// The cost of a prefixed instruction is that of the table, in every state.
pub proof fn lemma_prefixed_cost(op: u8, cpu: CPU, bus: Bus)
    ensures
        run_prefixed(op, cpu, bus).cycles == prefixed_cost(op),
{
}

/// No opcode sets the low nibble of the flag register.
pub proof fn lemma_run_keeps_flags(op: u8, cpu: CPU, bus: Bus)
    requires
        cpu.wf(),
    ensures
        run(op, cpu, bus).cpu.wf(),
{
    lemma_flags_low_nibble();
    if op < 0x40 {
    } else if op < 0x80 {
    } else if op < 0xC0 {
    } else if op == 0xCB {
        let second = bus.read(cpu.registers.pc);
        if second < 0x40 {
        } else if second < 0x80 {
        } else if second < 0xC0 {
        } else {
        }
    } else {
    }
}

/// The low nibble of the flag register stays clear through every
/// instruction.
pub proof fn lemma_execute_keeps_flags(cpu: CPU, bus: Bus)
    requires
        cpu.wf(),
    ensures
        execute_spec(cpu, bus).cpu.wf(),
{
    lemma_run_keeps_flags(bus.read(cpu.registers.pc), cpu.advanced(1), bus);
}

} // verus!
