//! The CPU: register file, status flags, and the fetch/decode/execute
//! engine.
//!
//! Each instruction is its own micro-sequence of bus operations, register
//! mutations and flag updates. The whole machine — registers plus bus —
//! is modelled by `SysView`, and every step of the executable engine is
//! proved equal to a spec-level interpreter over that model: `step_spec`
//! gives the exact state after one instruction, bus accesses (dummy reads
//! included) and all.

use vstd::prelude::*;
use vstd::wrapping::{u16_specs, u8_specs};

use crate::bus::{BusView, CpuMemoryBus, RAM_SIZE, bus_read_spec, bus_write_spec};
use crate::flags::{
    CARRY, CpuStatusFlags, DECIMAL, INTERRUPT_DISABLE, NEGATIVE, OVERFLOW, ZERO, flag_set,
    with_flag, with_zn,
};

verus! {

/// The mathematical model of the register file.
#[verifier::ext_equal]
pub struct CpuView {
    pub a: u8,
    pub x: u8,
    pub y: u8,
    pub pc: u16,
    pub sp: u8,
    pub flags: u8,
}

/// The mathematical model of the whole machine: CPU plus bus.
#[verifier::ext_equal]
pub struct SysView {
    pub cpu: CpuView,
    pub bus: BusView,
}

/// The CPU: owns its register file and status flags and drives the
/// memory bus through an explicit fetch/decode/execute cycle.
pub struct Cpu {
    pub a_reg: u8,
    pub x_reg: u8,
    pub y_reg: u8,
    pub prog_counter: u16,
    pub stack_pointer: u8,
    pub status_flags: CpuStatusFlags,
}

impl View for Cpu {
    type V = CpuView;

    open spec fn view(&self) -> CpuView {
        CpuView {
            a: self.a_reg,
            x: self.x_reg,
            y: self.y_reg,
            pc: self.prog_counter,
            sp: self.stack_pointer,
            flags: self.status_flags@,
        }
    }
}

/// The model of a CPU-and-bus pair.
pub open spec fn sys(cpu: Cpu, bus: CpuMemoryBus) -> SysView {
    SysView { cpu: cpu@, bus: bus@ }
}

/// The stack lives in the `0x0100` page of the address space: the stack
/// pointer is biased by that fixed page offset when forming an address.
pub open spec fn stack_address(sp: u8) -> u16 {
    (sp as u16) | 0x0100
}

/// One instruction-stream byte: a bus read at the program counter, which
/// then advances by one with 16-bit wraparound.
pub open spec fn fetch_spec(s: SysView) -> (SysView, u8) {
    let (b, v) = bus_read_spec(s.bus, s.cpu.pc);
    (SysView { cpu: CpuView { pc: u16_specs::wrapping_add(s.cpu.pc, 1), ..s.cpu }, bus: b }, v)
}

/// A stack push: write at the stack address, then decrement the stack
/// pointer with 8-bit wraparound.
pub open spec fn push_spec(s: SysView, data: u8) -> SysView {
    let b = bus_write_spec(s.bus, stack_address(s.cpu.sp), data);
    SysView { cpu: CpuView { sp: u8_specs::wrapping_sub(s.cpu.sp, 1), ..s.cpu }, bus: b }
}

/// A stack pull: a dummy read at the old stack address, then the stack
/// pointer increments with 8-bit wraparound and the real read happens at
/// the new stack address.
pub open spec fn pull_spec(s: SysView) -> (SysView, u8) {
    let b1 = bus_read_spec(s.bus, stack_address(s.cpu.sp)).0;
    let sp2 = u8_specs::wrapping_add(s.cpu.sp, 1);
    let (b2, v) = bus_read_spec(b1, stack_address(sp2));
    (SysView { cpu: CpuView { sp: sp2, ..s.cpu }, bus: b2 }, v)
}

/// A 16-bit stack pull: the dummy read, then the low byte, then the high
/// byte, incrementing the stack pointer before each real read.
pub open spec fn pull_address_spec(s: SysView) -> (SysView, u16) {
    let b1 = bus_read_spec(s.bus, stack_address(s.cpu.sp)).0;
    let sp2 = u8_specs::wrapping_add(s.cpu.sp, 1);
    let (b2, low) = bus_read_spec(b1, stack_address(sp2));
    let sp3 = u8_specs::wrapping_add(sp2, 1);
    let (b3, high) = bus_read_spec(b2, stack_address(sp3));
    (SysView { cpu: CpuView { sp: sp3, ..s.cpu }, bus: b3 }, (high as u16) << 8 | (low as u16))
}

/// The reset protocol: three suppressed stack-pointer decrements, the
/// interrupt-disable flag set, then the 16-bit reset vector read from the
/// top of the address space (low byte first) into the program counter.
pub open spec fn reset_spec(s: SysView) -> SysView {
    let cpu1 = CpuView {
        sp: u8_specs::wrapping_sub(s.cpu.sp, 3),
        flags: with_flag(s.cpu.flags, INTERRUPT_DISABLE, true),
        ..s.cpu
    };
    let (b1, low) = bus_read_spec(s.bus, 0xFFFC);
    let (b2, high) = bus_read_spec(b1, 0xFFFD);
    SysView { cpu: CpuView { pc: (high as u16) << 8 | (low as u16), ..cpu1 }, bus: b2 }
}

/// Which register an instruction addresses.
#[derive(Clone, Copy, Debug, PartialEq, Eq, Structural)]
pub enum Reg {
    A,
    X,
    Y,
    Sp,
}

/// The named register of a register file.
pub open spec fn reg_get(c: CpuView, r: Reg) -> u8 {
    match r {
        Reg::A => c.a,
        Reg::X => c.x,
        Reg::Y => c.y,
        Reg::Sp => c.sp,
    }
}

/// The register file with the named register replaced.
pub open spec fn reg_put(c: CpuView, r: Reg, v: u8) -> CpuView {
    match r {
        Reg::A => CpuView { a: v, ..c },
        Reg::X => CpuView { x: v, ..c },
        Reg::Y => CpuView { y: v, ..c },
        Reg::Sp => CpuView { sp: v, ..c },
    }
}

/// PHP: dummy read at the program counter, push the flags byte.
pub open spec fn php_spec(s: SysView) -> SysView {
    let b1 = bus_read_spec(s.bus, s.cpu.pc).0;
    push_spec(SysView { cpu: s.cpu, bus: b1 }, s.cpu.flags)
}

/// PHA: dummy read at the program counter, push the accumulator.
pub open spec fn pha_spec(s: SysView) -> SysView {
    let b1 = bus_read_spec(s.bus, s.cpu.pc).0;
    push_spec(SysView { cpu: s.cpu, bus: b1 }, s.cpu.a)
}

/// PLA: dummy read at the program counter, pull one byte into the
/// accumulator, update Zero/Negative from it.
pub open spec fn pla_spec(s: SysView) -> SysView {
    let b1 = bus_read_spec(s.bus, s.cpu.pc).0;
    let (s2, v) = pull_spec(SysView { cpu: s.cpu, bus: b1 });
    SysView { cpu: CpuView { a: v, flags: with_zn(s2.cpu.flags, v), ..s2.cpu }, bus: s2.bus }
}

/// PLP: dummy read at the program counter, pull one byte and replace the
/// flags wholesale — every bit of the register is defined, so the byte is
/// taken as it stands.
pub open spec fn plp_spec(s: SysView) -> SysView {
    let b1 = bus_read_spec(s.bus, s.cpu.pc).0;
    let (s2, v) = pull_spec(SysView { cpu: s.cpu, bus: b1 });
    SysView { cpu: CpuView { flags: v, ..s2.cpu }, bus: s2.bus }
}

/// Store (Absolute): fetch two address bytes (low first), write the
/// named register to that address.
pub open spec fn store_absolute_spec(s: SysView, r: Reg) -> SysView {
    let (s1, lo) = fetch_spec(s);
    let (s2, hi) = fetch_spec(s1);
    let addr = (lo as u16) | (hi as u16) << 8;
    SysView { cpu: s2.cpu, bus: bus_write_spec(s2.bus, addr, reg_get(s2.cpu, r)) }
}

/// Store (Zero Page): fetch one address byte, write the named register
/// to that zero-page address.
pub open spec fn store_zero_page_spec(s: SysView, r: Reg) -> SysView {
    let (s1, addr) = fetch_spec(s);
    SysView { cpu: s1.cpu, bus: bus_write_spec(s1.bus, addr as u16, reg_get(s1.cpu, r)) }
}

/// STA (Zero Page,X): fetch the base byte, dummy read at the unindexed
/// zero-page address, then write the accumulator at base plus X, wrapped
/// within the zero page.
pub open spec fn sta_zero_page_x_spec(s: SysView) -> SysView {
    let (s1, base) = fetch_spec(s);
    let b2 = bus_read_spec(s1.bus, base as u16).0;
    let addr = u8_specs::wrapping_add(base, s.cpu.x) as u16;
    SysView { cpu: s1.cpu, bus: bus_write_spec(b2, addr, s.cpu.a) }
}

/// STA (Absolute,X): fetch two address bytes, dummy read at the
/// unindexed address, then write the accumulator at base plus X with
/// 16-bit wraparound.
pub open spec fn sta_absolute_x_spec(s: SysView) -> SysView {
    let (s1, lo) = fetch_spec(s);
    let (s2, hi) = fetch_spec(s1);
    let base = (lo as u16) | (hi as u16) << 8;
    let b3 = bus_read_spec(s2.bus, base).0;
    let addr = u16_specs::wrapping_add(base, s.cpu.x as u16);
    SysView { cpu: s2.cpu, bus: bus_write_spec(b3, addr, s.cpu.a) }
}

/// STA (Indirect,Y): fetch the zero-page pointer byte, read the two base
/// address bytes from that pointer (wrapping within the zero page), add Y
/// with 16-bit wraparound, dummy read at the resulting address, then
/// write the accumulator there.
pub open spec fn sta_indirect_y_spec(s: SysView) -> SysView {
    let (s1, ptr) = fetch_spec(s);
    let (b2, lo) = bus_read_spec(s1.bus, ptr as u16);
    let (b3, hi) = bus_read_spec(b2, u8_specs::wrapping_add(ptr, 1) as u16);
    let base = (lo as u16) | (hi as u16) << 8;
    let addr = u16_specs::wrapping_add(base, s.cpu.y as u16);
    let b4 = bus_read_spec(b3, addr).0;
    SysView { cpu: s1.cpu, bus: bus_write_spec(b4, addr, s.cpu.a) }
}

/// Load (Immediate): fetch the operand, load it into the named register,
/// update Zero/Negative.
pub open spec fn load_immediate_spec(s: SysView, r: Reg) -> SysView {
    let (s1, v) = fetch_spec(s);
    let cpu2 = reg_put(s1.cpu, r, v);
    SysView { cpu: CpuView { flags: with_zn(cpu2.flags, v), ..cpu2 }, bus: s1.bus }
}

/// Load (Zero Page): fetch the address byte, read the value there, load
/// it into the named register, update Zero/Negative.
pub open spec fn load_zero_page_spec(s: SysView, r: Reg) -> SysView {
    let (s1, addr) = fetch_spec(s);
    let (b2, v) = bus_read_spec(s1.bus, addr as u16);
    let cpu2 = reg_put(s1.cpu, r, v);
    SysView { cpu: CpuView { flags: with_zn(cpu2.flags, v), ..cpu2 }, bus: b2 }
}

/// Load (Absolute): fetch two address bytes, read the value there, load
/// it into the named register, update Zero/Negative.
pub open spec fn load_absolute_spec(s: SysView, r: Reg) -> SysView {
    let (s1, lo) = fetch_spec(s);
    let (s2, hi) = fetch_spec(s1);
    let (b3, v) = bus_read_spec(s2.bus, (lo as u16) | (hi as u16) << 8);
    let cpu2 = reg_put(s2.cpu, r, v);
    SysView { cpu: CpuView { flags: with_zn(cpu2.flags, v), ..cpu2 }, bus: b3 }
}

/// Register transfer (Implied): dummy read at the program counter, copy
/// the source register to the destination, update Zero/Negative from the
/// copied value except for TXS, which does not touch the flags.
pub open spec fn transfer_spec(s: SysView, src: Reg, dst: Reg, update_flags: bool) -> SysView {
    let b1 = bus_read_spec(s.bus, s.cpu.pc).0;
    let v = reg_get(s.cpu, src);
    let cpu2 = reg_put(s.cpu, dst, v);
    let cpu3 = if update_flags {
        CpuView { flags: with_zn(cpu2.flags, v), ..cpu2 }
    } else {
        cpu2
    };
    SysView { cpu: cpu3, bus: b1 }
}

/// JMP (Absolute): fetch two address bytes, set the program counter.
pub open spec fn jmp_absolute_spec(s: SysView) -> SysView {
    let (s1, lo) = fetch_spec(s);
    let (s2, hi) = fetch_spec(s1);
    SysView { cpu: CpuView { pc: (lo as u16) | (hi as u16) << 8, ..s2.cpu }, bus: s2.bus }
}

/// JSR (Absolute): fetch the low address byte, dummy read at the current
/// stack address, push the program counter high byte then low byte,
/// fetch the high address byte, set the program counter.
pub open spec fn jsr_spec(s: SysView) -> SysView {
    let (s1, lo) = fetch_spec(s);
    let b2 = bus_read_spec(s1.bus, stack_address(s1.cpu.sp)).0;
    let s2 = push_spec(SysView { cpu: s1.cpu, bus: b2 }, (s1.cpu.pc >> 8) as u8);
    let s3 = push_spec(s2, (s1.cpu.pc & 0xFF) as u8);
    let (s4, hi) = fetch_spec(s3);
    SysView { cpu: CpuView { pc: (lo as u16) | (hi as u16) << 8, ..s4.cpu }, bus: s4.bus }
}

/// RTS (Implied): dummy read at the program counter, pull the 16-bit
/// return address from the stack, set the program counter to it, then
/// one further instruction-stream read that advances the counter.
pub open spec fn rts_spec(s: SysView) -> SysView {
    let b1 = bus_read_spec(s.bus, s.cpu.pc).0;
    let (s2, addr) = pull_address_spec(SysView { cpu: s.cpu, bus: b1 });
    fetch_spec(SysView { cpu: CpuView { pc: addr, ..s2.cpu }, bus: s2.bus }).0
}

/// INX/INY/DEX/DEY (Implied): dummy read at the program counter,
/// wrapping increment or decrement of the named register, update
/// Zero/Negative.
pub open spec fn step_register_spec(s: SysView, r: Reg, up: bool) -> SysView {
    let b1 = bus_read_spec(s.bus, s.cpu.pc).0;
    let v = if up {
        u8_specs::wrapping_add(reg_get(s.cpu, r), 1)
    } else {
        u8_specs::wrapping_sub(reg_get(s.cpu, r), 1)
    };
    let cpu2 = reg_put(s.cpu, r, v);
    SysView { cpu: CpuView { flags: with_zn(cpu2.flags, v), ..cpu2 }, bus: b1 }
}

/// SEI/CLD (Implied): dummy read at the program counter, set or clear
/// the named flag unconditionally.
pub open spec fn set_flag_spec(s: SysView, mask: u8, on: bool) -> SysView {
    SysView {
        cpu: CpuView { flags: with_flag(s.cpu.flags, mask, on), ..s.cpu },
        bus: bus_read_spec(s.bus, s.cpu.pc).0,
    }
}

/// The branch offset byte sign-extended to 16 bits.
pub open spec fn sign_extend(operand: u8) -> u16 {
    (operand as u16) | (if operand & 0x80 != 0 {
        0xFF00u16
    } else {
        0x0000u16
    })
}

/// Relative branch: fetch the signed offset byte; when the branch
/// condition is false, stop with no further bus access; when it is true,
/// add the sign-extended offset to the program counter via a 16-bit add,
/// and when that add wraps past the top of the address space, perform
/// one extra dummy read at the new program counter.
pub open spec fn branch_spec(s: SysView, mask: u8, taken_if_set: bool) -> SysView {
    let (s1, operand) = fetch_spec(s);
    if flag_set(s.cpu.flags, mask) != taken_if_set {
        s1
    } else {
        let offset = sign_extend(operand);
        let wrapped = s1.cpu.pc + offset > 0xFFFF;
        let new_pc = u16_specs::wrapping_add(s1.cpu.pc, offset);
        let s2 = SysView { cpu: CpuView { pc: new_pc, ..s1.cpu }, bus: s1.bus };
        if wrapped {
            SysView { cpu: s2.cpu, bus: bus_read_spec(s2.bus, new_pc).0 }
        } else {
            s2
        }
    }
}

/// INC (Zero Page): read the value, rewrite the same value (the dummy
/// write-back), increment with wraparound, write the final value, update
/// Zero/Negative from it.
pub open spec fn inc_zero_page_spec(s: SysView) -> SysView {
    let (s1, addr) = fetch_spec(s);
    let (b2, data) = bus_read_spec(s1.bus, addr as u16);
    let b3 = bus_write_spec(b2, addr as u16, data);
    let nd = u8_specs::wrapping_add(data, 1);
    let b4 = bus_write_spec(b3, addr as u16, nd);
    SysView { cpu: CpuView { flags: with_zn(s1.cpu.flags, nd), ..s1.cpu }, bus: b4 }
}

/// ORA (Absolute): fetch two address bytes, read the operand, OR it into
/// the accumulator, update Zero/Negative.
pub open spec fn ora_absolute_spec(s: SysView) -> SysView {
    let (s1, lo) = fetch_spec(s);
    let (s2, hi) = fetch_spec(s1);
    let (b3, data) = bus_read_spec(s2.bus, (lo as u16) | (hi as u16) << 8);
    let v = s.cpu.a | data;
    SysView { cpu: CpuView { a: v, flags: with_zn(s2.cpu.flags, v), ..s2.cpu }, bus: b3 }
}

/// EOR (Zero Page): fetch the address byte, read the operand, XOR it
/// into the accumulator, update Zero/Negative.
pub open spec fn eor_zero_page_spec(s: SysView) -> SysView {
    let (s1, addr) = fetch_spec(s);
    let (b2, data) = bus_read_spec(s1.bus, addr as u16);
    let v = s.cpu.a ^ data;
    SysView { cpu: CpuView { a: v, flags: with_zn(s1.cpu.flags, v), ..s1.cpu }, bus: b2 }
}

/// EOR (Immediate): fetch the operand, XOR it into the accumulator,
/// update Zero/Negative.
pub open spec fn eor_immediate_spec(s: SysView) -> SysView {
    let (s1, operand) = fetch_spec(s);
    let v = s.cpu.a ^ operand;
    SysView { cpu: CpuView { a: v, flags: with_zn(s1.cpu.flags, v), ..s1.cpu }, bus: s1.bus }
}

/// The BIT flag update: Zero from `memory AND accumulator == 0`,
/// Negative from bit 7 of memory, Overflow from bit 6 of memory; the
/// accumulator is not modified.
pub open spec fn bit_flags(flags: u8, a: u8, data: u8) -> u8 {
    with_flag(
        with_flag(with_flag(flags, ZERO, data & a == 0), NEGATIVE, data & 0x80 != 0),
        OVERFLOW,
        data & 0x40 != 0,
    )
}

/// BIT (Zero Page): read the memory operand and update the flags as
/// `bit_flags` says.
pub open spec fn bit_zero_page_spec(s: SysView) -> SysView {
    let (s1, addr) = fetch_spec(s);
    let (b2, data) = bus_read_spec(s1.bus, addr as u16);
    SysView { cpu: CpuView { flags: bit_flags(s1.cpu.flags, s.cpu.a, data), ..s1.cpu }, bus: b2 }
}

/// BIT (Absolute): read the memory operand and update the flags as
/// `bit_flags` says.
pub open spec fn bit_absolute_spec(s: SysView) -> SysView {
    let (s1, lo) = fetch_spec(s);
    let (s2, hi) = fetch_spec(s1);
    let (b3, data) = bus_read_spec(s2.bus, (lo as u16) | (hi as u16) << 8);
    SysView { cpu: CpuView { flags: bit_flags(s2.cpu.flags, s.cpu.a, data), ..s2.cpu }, bus: b3 }
}

/// CMP/CPY (Immediate): compare the named register to the operand.
/// Carry holds iff register >= operand (unsigned), Zero iff they are
/// equal, and Negative comes from bit 7 of the unmodified register — not
/// of the subtraction result; this mirrors accepted hardware behaviour.
pub open spec fn compare_immediate_spec(s: SysView, r: Reg) -> SysView {
    let (s1, operand) = fetch_spec(s);
    let reg = reg_get(s.cpu, r);
    let f1 = with_flag(s1.cpu.flags, CARRY, reg >= operand);
    let f2 = with_flag(f1, ZERO, reg == operand);
    let f3 = with_flag(f2, NEGATIVE, reg & 0x80 != 0);
    SysView { cpu: CpuView { flags: f3, ..s1.cpu }, bus: s1.bus }
}

/// LSR (Zero Page): read the value, dummy write-back of the unchanged
/// value, Carry takes the old bit 0, shift right, write the new value,
/// update Zero/Negative from it.
pub open spec fn lsr_zero_page_spec(s: SysView) -> SysView {
    let (s1, addr) = fetch_spec(s);
    let (b2, data) = bus_read_spec(s1.bus, addr as u16);
    let b3 = bus_write_spec(b2, addr as u16, data);
    let nd = data >> 1;
    let b4 = bus_write_spec(b3, addr as u16, nd);
    let flags = with_zn(with_flag(s1.cpu.flags, CARRY, data & 1 != 0), nd);
    SysView { cpu: CpuView { flags, ..s1.cpu }, bus: b4 }
}

/// The ROR result: a right shift whose bit 7 is fed from the old Carry.
pub open spec fn ror_value(data: u8, carry_in: bool) -> u8 {
    data >> 1 | (if carry_in {
        0x80u8
    } else {
        0u8
    })
}

/// ROR (Zero Page): like LSR, but bit 7 of the result is fed from the
/// old Carry flag before the shift.
pub open spec fn ror_zero_page_spec(s: SysView) -> SysView {
    let (s1, addr) = fetch_spec(s);
    let (b2, data) = bus_read_spec(s1.bus, addr as u16);
    let b3 = bus_write_spec(b2, addr as u16, data);
    let nd = ror_value(data, flag_set(s.cpu.flags, CARRY));
    let b4 = bus_write_spec(b3, addr as u16, nd);
    let flags = with_zn(with_flag(s1.cpu.flags, CARRY, data & 1 != 0), nd);
    SysView { cpu: CpuView { flags, ..s1.cpu }, bus: b4 }
}

/// ROR (Accumulator): dummy read at the program counter, rotate the
/// accumulator right through Carry.
pub open spec fn ror_accumulator_spec(s: SysView) -> SysView {
    let b1 = bus_read_spec(s.bus, s.cpu.pc).0;
    let data = s.cpu.a;
    let nd = ror_value(data, flag_set(s.cpu.flags, CARRY));
    let flags = with_zn(with_flag(s.cpu.flags, CARRY, data & 1 != 0), nd);
    SysView { cpu: CpuView { a: nd, flags, ..s.cpu }, bus: b1 }
}

/// One fetch/decode/execute step: fetch the opcode byte at the program
/// counter (advancing it), then dispatch to that opcode's micro-sequence.
/// An opcode without an implemented micro-sequence leaves the machine as
/// it stands after the fetch and is reported back.
pub open spec fn step_spec(s: SysView) -> (SysView, Option<u8>) {
    let (s1, opcode) = fetch_spec(s);
    match opcode {
        0x08u8 => (php_spec(s1), None::<u8>),
        0x28u8 => (plp_spec(s1), None::<u8>),
        0x48u8 => (pha_spec(s1), None::<u8>),
        0x68u8 => (pla_spec(s1), None::<u8>),
        0x8Du8 => (store_absolute_spec(s1, Reg::A), None::<u8>),
        0x8Eu8 => (store_absolute_spec(s1, Reg::X), None::<u8>),
        0x8Cu8 => (store_absolute_spec(s1, Reg::Y), None::<u8>),
        0x85u8 => (store_zero_page_spec(s1, Reg::A), None::<u8>),
        0x86u8 => (store_zero_page_spec(s1, Reg::X), None::<u8>),
        0x84u8 => (store_zero_page_spec(s1, Reg::Y), None::<u8>),
        0x95u8 => (sta_zero_page_x_spec(s1), None::<u8>),
        0x9Du8 => (sta_absolute_x_spec(s1), None::<u8>),
        0x91u8 => (sta_indirect_y_spec(s1), None::<u8>),
        0xA9u8 => (load_immediate_spec(s1, Reg::A), None::<u8>),
        0xA2u8 => (load_immediate_spec(s1, Reg::X), None::<u8>),
        0xA0u8 => (load_immediate_spec(s1, Reg::Y), None::<u8>),
        0xA5u8 => (load_zero_page_spec(s1, Reg::A), None::<u8>),
        0xA6u8 => (load_zero_page_spec(s1, Reg::X), None::<u8>),
        0xA4u8 => (load_zero_page_spec(s1, Reg::Y), None::<u8>),
        0xADu8 => (load_absolute_spec(s1, Reg::A), None::<u8>),
        0xACu8 => (load_absolute_spec(s1, Reg::Y), None::<u8>),
        0xAAu8 => (transfer_spec(s1, Reg::A, Reg::X, true), None::<u8>),
        0xA8u8 => (transfer_spec(s1, Reg::A, Reg::Y, true), None::<u8>),
        0xBAu8 => (transfer_spec(s1, Reg::Sp, Reg::X, true), None::<u8>),
        0x98u8 => (transfer_spec(s1, Reg::Y, Reg::A, true), None::<u8>),
        0x9Au8 => (transfer_spec(s1, Reg::X, Reg::Sp, false), None::<u8>),
        0x4Cu8 => (jmp_absolute_spec(s1), None::<u8>),
        0x20u8 => (jsr_spec(s1), None::<u8>),
        0x60u8 => (rts_spec(s1), None::<u8>),
        0xC8u8 => (step_register_spec(s1, Reg::Y, true), None::<u8>),
        0xE8u8 => (step_register_spec(s1, Reg::X, true), None::<u8>),
        0xCAu8 => (step_register_spec(s1, Reg::X, false), None::<u8>),
        0x88u8 => (step_register_spec(s1, Reg::Y, false), None::<u8>),
        0x78u8 => (set_flag_spec(s1, INTERRUPT_DISABLE, true), None::<u8>),
        0xD8u8 => (set_flag_spec(s1, DECIMAL, false), None::<u8>),
        0xD0u8 => (branch_spec(s1, ZERO, false), None::<u8>),
        0xF0u8 => (branch_spec(s1, ZERO, true), None::<u8>),
        0x10u8 => (branch_spec(s1, NEGATIVE, false), None::<u8>),
        0x30u8 => (branch_spec(s1, NEGATIVE, true), None::<u8>),
        0x90u8 => (branch_spec(s1, CARRY, false), None::<u8>),
        0xE6u8 => (inc_zero_page_spec(s1), None::<u8>),
        0x0Du8 => (ora_absolute_spec(s1), None::<u8>),
        0x45u8 => (eor_zero_page_spec(s1), None::<u8>),
        0x49u8 => (eor_immediate_spec(s1), None::<u8>),
        0x24u8 => (bit_zero_page_spec(s1), None::<u8>),
        0x2Cu8 => (bit_absolute_spec(s1), None::<u8>),
        0xC9u8 => (compare_immediate_spec(s1, Reg::A), None::<u8>),
        0xC0u8 => (compare_immediate_spec(s1, Reg::Y), None::<u8>),
        0x46u8 => (lsr_zero_page_spec(s1), None::<u8>),
        0x66u8 => (ror_zero_page_spec(s1), None::<u8>),
        0x6Au8 => (ror_accumulator_spec(s1), None::<u8>),
        _ => (s1, Some(opcode)),
    }
}

/// The result `run_instr` reports for a step: `Err` carries the opcode
/// byte that has no implemented micro-sequence.
pub open spec fn step_result(undecoded: Option<u8>) -> Result<(), u8> {
    match undecoded {
        Some(op) => Err(op),
        None => Ok(()),
    }
}

/// Branch dummy-read law: a taken branch whose 16-bit add of the
/// sign-extended offset wraps past the top of the address space — the
/// wrap that a backward branch across a 256-byte boundary produces —
/// issues exactly one extra dummy bus read, at the destination address,
/// beyond the operand fetch; every other branch issues none.
pub proof fn lemma_branch_dummy_read(s: SysView, mask: u8, taken_if_set: bool)
    ensures
        ({
            let s2 = branch_spec(s, mask, taken_if_set);
            let (s1, operand) = fetch_spec(s);
            let taken = flag_set(s.cpu.flags, mask) == taken_if_set;
            let wraps = s1.cpu.pc + sign_extend(operand) > 0xFFFF;
            if taken && wraps {
                s2.bus.trace.len() == s.bus.trace.len() + 2 && s2.bus.trace.last().write == false
                    && s2.bus.trace.last().address == s2.cpu.pc
            } else {
                s2.bus.trace.len() == s.bus.trace.len() + 1
            }
        }),
{
}

/// Stack round trip: a pull right after a push returns the byte pushed
/// and restores the register file exactly — whatever the stack pointer
/// was, since it wraps at the 8-bit boundary rather than overflowing —
/// and the RAM afterwards is just the RAM with that one byte pushed.
pub proof fn lemma_stack_push_pull(s: SysView, data: u8)
    requires
        s.bus.ram.len() == RAM_SIZE,
    ensures
        pull_spec(push_spec(s, data)).1 == data,
        pull_spec(push_spec(s, data)).0.cpu == s.cpu,
        pull_spec(push_spec(s, data)).0.bus.ram == bus_write_spec(
            s.bus,
            stack_address(s.cpu.sp),
            data,
        ).ram,
{
    let sp = s.cpu.sp;
    assert((sp as u16 | 0x0100) <= 0x01FF) by (bit_vector);
    let sp2 = u8_specs::wrapping_sub(sp, 1);
    assert((sp2 as u16 | 0x0100) <= 0x01FF) by (bit_vector);
    assert(u8_specs::wrapping_add(sp2, 1) == sp);
    let sa = stack_address(sp);
    assert(sa as int % (RAM_SIZE as int) == sa as int);
    assert(pull_spec(push_spec(s, data)).0.cpu =~= s.cpu);
}

impl Cpu {
    /// The power-on register file: all registers zero, stack pointer at
    /// the top of the stack page, status flags at the fixed power-on
    /// pattern.
    pub fn new(_bus: &mut CpuMemoryBus) -> (r: Cpu)
        ensures
            r@ == (CpuView { a: 0u8, x: 0u8, y: 0u8, pc: 0u16, sp: 0xFFu8, flags: 0x34u8 }),
            *final(_bus) == *old(_bus),
    {
        Cpu {
            a_reg: 0,
            x_reg: 0,
            y_reg: 0,
            prog_counter: 0,
            stack_pointer: 0xFF,
            status_flags: CpuStatusFlags::from_bits_retain(0x34),
        }
    }

    /// Run the reset sequence.
    pub fn reset(&mut self, bus: &mut CpuMemoryBus)
        ensures
            sys(*final(self), *final(bus)) == reset_spec(sys(*old(self), *old(bus))),
    {
        self.stack_pointer = self.stack_pointer.wrapping_sub(3);
        self.status_flags.set(INTERRUPT_DISABLE, true);
        let low = bus.read(0xFFFC);
        let high = bus.read(0xFFFD);
        self.prog_counter = (high as u16) << 8 | (low as u16);
    }

    /// Fetch one instruction-stream byte and advance the program counter.
    pub fn read_instr_byte(&mut self, bus: &mut CpuMemoryBus) -> (r: u8)
        ensures
            (sys(*final(self), *final(bus)), r) == fetch_spec(sys(*old(self), *old(bus))),
    {
        let data = bus.read(self.prog_counter);
        self.prog_counter = self.prog_counter.wrapping_add(1);
        data
    }

    /// Push one byte onto the stack.
    pub fn push_stack(&mut self, bus: &mut CpuMemoryBus, data: u8)
        ensures
            sys(*final(self), *final(bus)) == push_spec(sys(*old(self), *old(bus)), data),
    {
        bus.write((self.stack_pointer as u16) | 0x0100, data);
        self.stack_pointer = self.stack_pointer.wrapping_sub(1);
    }

    /// Pull one byte from the stack.
    pub fn pull_stack(&mut self, bus: &mut CpuMemoryBus) -> (r: u8)
        ensures
            (sys(*final(self), *final(bus)), r) == pull_spec(sys(*old(self), *old(bus))),
    {
        bus.read((self.stack_pointer as u16) | 0x0100);
        self.stack_pointer = self.stack_pointer.wrapping_add(1);
        bus.read((self.stack_pointer as u16) | 0x0100)
    }

    /// Pull a 16-bit address from the stack, low byte then high byte.
    pub fn pull_stack_address(&mut self, bus: &mut CpuMemoryBus) -> (r: u16)
        ensures
            (sys(*final(self), *final(bus)), r) == pull_address_spec(sys(*old(self), *old(bus))),
    {
        bus.read((self.stack_pointer as u16) | 0x0100);
        self.stack_pointer = self.stack_pointer.wrapping_add(1);
        let low = bus.read((self.stack_pointer as u16) | 0x0100);
        self.stack_pointer = self.stack_pointer.wrapping_add(1);
        let high = bus.read((self.stack_pointer as u16) | 0x0100);
        (high as u16) << 8 | (low as u16)
    }

    /// The named register's current value.
    fn get_reg(&self, r: Reg) -> (v: u8)
        ensures
            v == reg_get(self@, r),
    {
        match r {
            Reg::A => self.a_reg,
            Reg::X => self.x_reg,
            Reg::Y => self.y_reg,
            Reg::Sp => self.stack_pointer,
        }
    }

    /// Replace the named register's value.
    fn put_reg(&mut self, r: Reg, v: u8)
        ensures
            final(self)@ == reg_put(old(self)@, r, v),
    {
        match r {
            Reg::A => self.a_reg = v,
            Reg::X => self.x_reg = v,
            Reg::Y => self.y_reg = v,
            Reg::Sp => self.stack_pointer = v,
        }
    }

    fn op_php(&mut self, bus: &mut CpuMemoryBus)
        ensures
            sys(*final(self), *final(bus)) == php_spec(sys(*old(self), *old(bus))),
    {
        bus.read(self.prog_counter);
        let flags = self.status_flags.bits();
        self.push_stack(bus, flags);
    }

    fn op_pha(&mut self, bus: &mut CpuMemoryBus)
        ensures
            sys(*final(self), *final(bus)) == pha_spec(sys(*old(self), *old(bus))),
    {
        bus.read(self.prog_counter);
        let a = self.a_reg;
        self.push_stack(bus, a);
    }

    fn op_pla(&mut self, bus: &mut CpuMemoryBus)
        ensures
            sys(*final(self), *final(bus)) == pla_spec(sys(*old(self), *old(bus))),
    {
        bus.read(self.prog_counter);
        let v = self.pull_stack(bus);
        self.a_reg = v;
        self.status_flags.set_zn(v);
    }

    fn op_plp(&mut self, bus: &mut CpuMemoryBus)
        ensures
            sys(*final(self), *final(bus)) == plp_spec(sys(*old(self), *old(bus))),
    {
        bus.read(self.prog_counter);
        let v = self.pull_stack(bus);
        self.status_flags = CpuStatusFlags::from_bits_truncate(v);
    }

    fn op_store_absolute(&mut self, bus: &mut CpuMemoryBus, r: Reg)
        ensures
            sys(*final(self), *final(bus)) == store_absolute_spec(sys(*old(self), *old(bus)), r),
    {
        let lo = self.read_instr_byte(bus);
        let hi = self.read_instr_byte(bus);
        let addr = (lo as u16) | (hi as u16) << 8;
        let v = self.get_reg(r);
        bus.write(addr, v);
    }

    fn op_store_zero_page(&mut self, bus: &mut CpuMemoryBus, r: Reg)
        ensures
            sys(*final(self), *final(bus)) == store_zero_page_spec(sys(*old(self), *old(bus)), r),
    {
        let addr = self.read_instr_byte(bus);
        let v = self.get_reg(r);
        bus.write(addr as u16, v);
    }

    fn op_sta_zero_page_x(&mut self, bus: &mut CpuMemoryBus)
        ensures
            sys(*final(self), *final(bus)) == sta_zero_page_x_spec(sys(*old(self), *old(bus))),
    {
        let base = self.read_instr_byte(bus);
        bus.read(base as u16);
        bus.write(base.wrapping_add(self.x_reg) as u16, self.a_reg);
    }

    fn op_sta_absolute_x(&mut self, bus: &mut CpuMemoryBus)
        ensures
            sys(*final(self), *final(bus)) == sta_absolute_x_spec(sys(*old(self), *old(bus))),
    {
        let lo = self.read_instr_byte(bus);
        let hi = self.read_instr_byte(bus);
        let base = (lo as u16) | (hi as u16) << 8;
        bus.read(base);
        bus.write(base.wrapping_add(self.x_reg as u16), self.a_reg);
    }

    fn op_sta_indirect_y(&mut self, bus: &mut CpuMemoryBus)
        ensures
            sys(*final(self), *final(bus)) == sta_indirect_y_spec(sys(*old(self), *old(bus))),
    {
        let ptr = self.read_instr_byte(bus);
        let lo = bus.read(ptr as u16);
        let hi = bus.read(ptr.wrapping_add(1) as u16);
        let base = (lo as u16) | (hi as u16) << 8;
        let addr = base.wrapping_add(self.y_reg as u16);
        bus.read(addr);
        bus.write(addr, self.a_reg);
    }

    fn op_load_immediate(&mut self, bus: &mut CpuMemoryBus, r: Reg)
        ensures
            sys(*final(self), *final(bus)) == load_immediate_spec(sys(*old(self), *old(bus)), r),
    {
        let v = self.read_instr_byte(bus);
        self.put_reg(r, v);
        self.status_flags.set_zn(v);
    }

    fn op_load_zero_page(&mut self, bus: &mut CpuMemoryBus, r: Reg)
        ensures
            sys(*final(self), *final(bus)) == load_zero_page_spec(sys(*old(self), *old(bus)), r),
    {
        let addr = self.read_instr_byte(bus);
        let v = bus.read(addr as u16);
        self.put_reg(r, v);
        self.status_flags.set_zn(v);
    }

    fn op_load_absolute(&mut self, bus: &mut CpuMemoryBus, r: Reg)
        ensures
            sys(*final(self), *final(bus)) == load_absolute_spec(sys(*old(self), *old(bus)), r),
    {
        let lo = self.read_instr_byte(bus);
        let hi = self.read_instr_byte(bus);
        let v = bus.read((lo as u16) | (hi as u16) << 8);
        self.put_reg(r, v);
        self.status_flags.set_zn(v);
    }

    fn op_transfer(&mut self, bus: &mut CpuMemoryBus, src: Reg, dst: Reg, update_flags: bool)
        ensures
            sys(*final(self), *final(bus)) == transfer_spec(
                sys(*old(self), *old(bus)),
                src,
                dst,
                update_flags,
            ),
    {
        bus.read(self.prog_counter);
        let v = self.get_reg(src);
        self.put_reg(dst, v);
        if update_flags {
            self.status_flags.set_zn(v);
        }
    }

    fn op_jmp_absolute(&mut self, bus: &mut CpuMemoryBus)
        ensures
            sys(*final(self), *final(bus)) == jmp_absolute_spec(sys(*old(self), *old(bus))),
    {
        let lo = self.read_instr_byte(bus);
        let hi = self.read_instr_byte(bus);
        self.prog_counter = (lo as u16) | (hi as u16) << 8;
    }

    fn op_jsr(&mut self, bus: &mut CpuMemoryBus)
        ensures
            sys(*final(self), *final(bus)) == jsr_spec(sys(*old(self), *old(bus))),
    {
        let lo = self.read_instr_byte(bus);
        bus.read((self.stack_pointer as u16) | 0x0100);
        let pc_hi = (self.prog_counter >> 8) as u8;
        self.push_stack(bus, pc_hi);
        let pc_lo = (self.prog_counter & 0xFF) as u8;
        self.push_stack(bus, pc_lo);
        let hi = self.read_instr_byte(bus);
        self.prog_counter = (lo as u16) | (hi as u16) << 8;
    }

    fn op_rts(&mut self, bus: &mut CpuMemoryBus)
        ensures
            sys(*final(self), *final(bus)) == rts_spec(sys(*old(self), *old(bus))),
    {
        bus.read(self.prog_counter);
        let addr = self.pull_stack_address(bus);
        self.prog_counter = addr;
        self.read_instr_byte(bus);
    }

    fn op_step_register(&mut self, bus: &mut CpuMemoryBus, r: Reg, up: bool)
        ensures
            sys(*final(self), *final(bus)) == step_register_spec(sys(*old(self), *old(bus)), r, up),
    {
        bus.read(self.prog_counter);
        let v0 = self.get_reg(r);
        let v = if up {
            v0.wrapping_add(1)
        } else {
            v0.wrapping_sub(1)
        };
        self.put_reg(r, v);
        self.status_flags.set_zn(v);
    }

    fn op_set_flag(&mut self, bus: &mut CpuMemoryBus, mask: u8, on: bool)
        ensures
            sys(*final(self), *final(bus)) == set_flag_spec(sys(*old(self), *old(bus)), mask, on),
    {
        bus.read(self.prog_counter);
        self.status_flags.set(mask, on);
    }

    fn op_branch(&mut self, bus: &mut CpuMemoryBus, mask: u8, taken_if_set: bool)
        ensures
            sys(*final(self), *final(bus)) == branch_spec(
                sys(*old(self), *old(bus)),
                mask,
                taken_if_set,
            ),
    {
        let operand = self.read_instr_byte(bus);
        if self.status_flags.contains_any(mask) != taken_if_set {
            return ;
        }
        let offset: u16 = (operand as u16) | (if operand & 0x80 != 0 {
            0xFF00
        } else {
            0x0000
        });
        let wrapped = (self.prog_counter as u32) + (offset as u32) > 0xFFFF;
        let new_pc = self.prog_counter.wrapping_add(offset);
        self.prog_counter = new_pc;
        if wrapped {
            bus.read(new_pc);
        }
    }

    fn op_inc_zero_page(&mut self, bus: &mut CpuMemoryBus)
        ensures
            sys(*final(self), *final(bus)) == inc_zero_page_spec(sys(*old(self), *old(bus))),
    {
        let addr = self.read_instr_byte(bus);
        let data = bus.read(addr as u16);
        bus.write(addr as u16, data);
        let nd = data.wrapping_add(1);
        bus.write(addr as u16, nd);
        self.status_flags.set_zn(nd);
    }

    fn op_ora_absolute(&mut self, bus: &mut CpuMemoryBus)
        ensures
            sys(*final(self), *final(bus)) == ora_absolute_spec(sys(*old(self), *old(bus))),
    {
        let lo = self.read_instr_byte(bus);
        let hi = self.read_instr_byte(bus);
        let data = bus.read((lo as u16) | (hi as u16) << 8);
        self.a_reg = self.a_reg | data;
        let v = self.a_reg;
        self.status_flags.set_zn(v);
    }

    fn op_eor_zero_page(&mut self, bus: &mut CpuMemoryBus)
        ensures
            sys(*final(self), *final(bus)) == eor_zero_page_spec(sys(*old(self), *old(bus))),
    {
        let addr = self.read_instr_byte(bus);
        let data = bus.read(addr as u16);
        self.a_reg = self.a_reg ^ data;
        let v = self.a_reg;
        self.status_flags.set_zn(v);
    }

    fn op_eor_immediate(&mut self, bus: &mut CpuMemoryBus)
        ensures
            sys(*final(self), *final(bus)) == eor_immediate_spec(sys(*old(self), *old(bus))),
    {
        let operand = self.read_instr_byte(bus);
        self.a_reg = self.a_reg ^ operand;
        let v = self.a_reg;
        self.status_flags.set_zn(v);
    }

    fn set_bit_flags(&mut self, data: u8)
        ensures
            final(self)@ == (CpuView {
                flags: bit_flags(old(self)@.flags, old(self)@.a, data),
                ..old(self)@
            }),
    {
        let a = self.a_reg;
        self.status_flags.set(ZERO, data & a == 0);
        self.status_flags.set(NEGATIVE, data & 0x80 != 0);
        self.status_flags.set(OVERFLOW, data & 0x40 != 0);
    }

    fn op_bit_zero_page(&mut self, bus: &mut CpuMemoryBus)
        ensures
            sys(*final(self), *final(bus)) == bit_zero_page_spec(sys(*old(self), *old(bus))),
    {
        let addr = self.read_instr_byte(bus);
        let data = bus.read(addr as u16);
        self.set_bit_flags(data);
    }

    fn op_bit_absolute(&mut self, bus: &mut CpuMemoryBus)
        ensures
            sys(*final(self), *final(bus)) == bit_absolute_spec(sys(*old(self), *old(bus))),
    {
        let lo = self.read_instr_byte(bus);
        let hi = self.read_instr_byte(bus);
        let data = bus.read((lo as u16) | (hi as u16) << 8);
        self.set_bit_flags(data);
    }

    fn op_compare_immediate(&mut self, bus: &mut CpuMemoryBus, r: Reg)
        ensures
            sys(*final(self), *final(bus)) == compare_immediate_spec(sys(*old(self), *old(bus)), r),
    {
        let operand = self.read_instr_byte(bus);
        let reg = self.get_reg(r);
        self.status_flags.set(CARRY, reg >= operand);
        self.status_flags.set(ZERO, reg == operand);
        self.status_flags.set(NEGATIVE, reg & 0x80 != 0);
    }

    fn op_lsr_zero_page(&mut self, bus: &mut CpuMemoryBus)
        ensures
            sys(*final(self), *final(bus)) == lsr_zero_page_spec(sys(*old(self), *old(bus))),
    {
        let addr = self.read_instr_byte(bus);
        let data = bus.read(addr as u16);
        bus.write(addr as u16, data);
        self.status_flags.set(CARRY, data & 1 != 0);
        let nd = data >> 1;
        bus.write(addr as u16, nd);
        self.status_flags.set_zn(nd);
    }

    fn op_ror_zero_page(&mut self, bus: &mut CpuMemoryBus)
        ensures
            sys(*final(self), *final(bus)) == ror_zero_page_spec(sys(*old(self), *old(bus))),
    {
        let addr = self.read_instr_byte(bus);
        let data = bus.read(addr as u16);
        bus.write(addr as u16, data);
        let new_carry = data & 1 != 0;
        let nd = data >> 1 | (if self.status_flags.contains_any(CARRY) {
            0x80u8
        } else {
            0u8
        });
        bus.write(addr as u16, nd);
        self.status_flags.set(CARRY, new_carry);
        self.status_flags.set_zn(nd);
    }

    fn op_ror_accumulator(&mut self, bus: &mut CpuMemoryBus)
        ensures
            sys(*final(self), *final(bus)) == ror_accumulator_spec(sys(*old(self), *old(bus))),
    {
        bus.read(self.prog_counter);
        let data = self.a_reg;
        let new_carry = data & 1 != 0;
        let nd = data >> 1 | (if self.status_flags.contains_any(CARRY) {
            0x80u8
        } else {
            0u8
        });
        self.a_reg = nd;
        self.status_flags.set(CARRY, new_carry);
        self.status_flags.set_zn(nd);
    }

    /// One fetch/decode/execute step. Fetches the opcode byte at the
    /// program counter and runs that opcode's micro-sequence of bus
    /// accesses, register mutations and flag updates; the machine
    /// afterwards is exactly `step_spec` of the machine before. An opcode
    /// without an implemented micro-sequence is a fatal condition: it is
    /// reported as `Err` carrying the offending opcode byte, with the
    /// machine left as it stands after the opcode fetch.
    pub fn run_instr(&mut self, bus: &mut CpuMemoryBus) -> (r: Result<(), u8>)
        ensures
            sys(*final(self), *final(bus)) == step_spec(sys(*old(self), *old(bus))).0,
            r == step_result(step_spec(sys(*old(self), *old(bus))).1),
    {
        let opcode = self.read_instr_byte(bus);
        match opcode {
            0x08 => self.op_php(bus),
            0x28 => self.op_plp(bus),
            0x48 => self.op_pha(bus),
            0x68 => self.op_pla(bus),
            0x8D => self.op_store_absolute(bus, Reg::A),
            0x8E => self.op_store_absolute(bus, Reg::X),
            0x8C => self.op_store_absolute(bus, Reg::Y),
            0x85 => self.op_store_zero_page(bus, Reg::A),
            0x86 => self.op_store_zero_page(bus, Reg::X),
            0x84 => self.op_store_zero_page(bus, Reg::Y),
            0x95 => self.op_sta_zero_page_x(bus),
            0x9D => self.op_sta_absolute_x(bus),
            0x91 => self.op_sta_indirect_y(bus),
            0xA9 => self.op_load_immediate(bus, Reg::A),
            0xA2 => self.op_load_immediate(bus, Reg::X),
            0xA0 => self.op_load_immediate(bus, Reg::Y),
            0xA5 => self.op_load_zero_page(bus, Reg::A),
            0xA6 => self.op_load_zero_page(bus, Reg::X),
            0xA4 => self.op_load_zero_page(bus, Reg::Y),
            0xAD => self.op_load_absolute(bus, Reg::A),
            0xAC => self.op_load_absolute(bus, Reg::Y),
            0xAA => self.op_transfer(bus, Reg::A, Reg::X, true),
            0xA8 => self.op_transfer(bus, Reg::A, Reg::Y, true),
            0xBA => self.op_transfer(bus, Reg::Sp, Reg::X, true),
            0x98 => self.op_transfer(bus, Reg::Y, Reg::A, true),
            0x9A => self.op_transfer(bus, Reg::X, Reg::Sp, false),
            0x4C => self.op_jmp_absolute(bus),
            0x20 => self.op_jsr(bus),
            0x60 => self.op_rts(bus),
            0xC8 => self.op_step_register(bus, Reg::Y, true),
            0xE8 => self.op_step_register(bus, Reg::X, true),
            0xCA => self.op_step_register(bus, Reg::X, false),
            0x88 => self.op_step_register(bus, Reg::Y, false),
            0x78 => self.op_set_flag(bus, INTERRUPT_DISABLE, true),
            0xD8 => self.op_set_flag(bus, DECIMAL, false),
            0xD0 => self.op_branch(bus, ZERO, false),
            0xF0 => self.op_branch(bus, ZERO, true),
            0x10 => self.op_branch(bus, NEGATIVE, false),
            0x30 => self.op_branch(bus, NEGATIVE, true),
            0x90 => self.op_branch(bus, CARRY, false),
            0xE6 => self.op_inc_zero_page(bus),
            0x0D => self.op_ora_absolute(bus),
            0x45 => self.op_eor_zero_page(bus),
            0x49 => self.op_eor_immediate(bus),
            0x24 => self.op_bit_zero_page(bus),
            0x2C => self.op_bit_absolute(bus),
            0xC9 => self.op_compare_immediate(bus, Reg::A),
            0xC0 => self.op_compare_immediate(bus, Reg::Y),
            0x46 => self.op_lsr_zero_page(bus),
            0x66 => self.op_ror_zero_page(bus),
            0x6A => self.op_ror_accumulator(bus),
            _ => {
                return Err(opcode);
            },
        }
        Ok(())
    }
}

} // verus!
