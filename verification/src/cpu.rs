//! The 2A03 CPU core: a 6502 interpreter without decimal mode, with the
//! documented unofficial opcodes, cycle accounting and NMI entry.
//!
//! Every state change is specified against the spec-level machine step:
//! `spec_execute` says exactly what one instruction does to the CPU, the
//! bus and the PPU, side effects of every memory access included.

use vstd::prelude::*;
use crate::bits::{flag_set, spec_flag_set};
use crate::fault::EmuFault;
use crate::memory::{
    Memory, MemSnap, spec_bus_read, spec_bus_read_dbg, spec_bus_read_word, spec_bus_read_word_zp,
    spec_bus_write, spec_cpu_addr_mapped,
};
use crate::opcodes::{AddressingMode, Instruction, Operation, decode, spec_decode,
    operation_requires_fetched_argument, spec_requires_fetched_argument};
use crate::ppu::{Ppu, PpuSnap};

verus! {

// Processor status bits. The reset value is 0x34: interrupts disabled,
// B and U set. Decimal exists but is never honoured in arithmetic.
pub const FLAG_CARRY: u8 = 0x01;
pub const FLAG_ZERO: u8 = 0x02;
pub const FLAG_DISABLE_INTERRUPTS: u8 = 0x04;
pub const FLAG_DECIMAL: u8 = 0x08;
pub const FLAG_B: u8 = 0x10;
pub const FLAG_U: u8 = 0x20;
pub const FLAG_OVERFLOW: u8 = 0x40;
pub const FLAG_NEGATIVE: u8 = 0x80;

/// CPU registers and the cycle countdown of the in-flight instruction.
#[derive(Clone, Copy, Debug, PartialEq, Eq, Structural)]
pub struct Cpu {
    /// Program counter.
    pub pc: u16,
    /// Stack pointer; the stack lives at `0x0100 + sp` and wraps modulo 256.
    pub sp: u8,
    /// Accumulator.
    pub a: u8,
    /// Index register X.
    pub x: u8,
    /// Index register Y.
    pub y: u8,
    /// Processor status bits.
    pub flags: u8,
    /// Remaining cycles owed by the instruction being executed.
    pub cycles: u32,
}

/// A resolved operand: the effective address (or, for Immediate and
/// Accumulator, the raw value), and whether indexing crossed a page.
#[derive(Clone, Copy, Debug, PartialEq, Eq, Structural)]
pub struct Operand {
    pub data: u16,
    pub additional_cycle: bool,
}

/// The machine as one value: CPU, bus and PPU together.
pub struct MachineSnap {
    pub cpu: Cpu,
    pub mem: MemSnap,
    pub ppu: PpuSnap,
}

/// What one instruction step does: a new machine state, or a fault
/// together with the machine state the fault left behind.
pub enum StepResult {
    Step(MachineSnap),
    Fault(EmuFault, MachineSnap),
}

/// Operand resolution: the operand with the machine state after the
/// fetches it performed, or a fault from an unmapped fetch together with
/// the state the fetches before it had already produced.
pub enum OperandOutcome {
    Resolved { operand: Operand, cpu: Cpu, mem: MemSnap, ppu: PpuSnap },
    OperandFault { fault: EmuFault, cpu: Cpu, mem: MemSnap, ppu: PpuSnap },
}

/// An argument fetch: the byte with the machine state after, or a fault.
pub enum ByteOutcome {
    Got { value: u8, mem: MemSnap, ppu: PpuSnap },
    ByteFault { fault: EmuFault },
}

/// Zero and Negative from a value, written in the order the flag helpers
/// run: Zero first, then Negative from bit 7.
pub open spec fn spec_set_zn(flags: u8, value: u8) -> u8 {
    spec_flag_set(spec_flag_set(flags, FLAG_ZERO, value == 0), FLAG_NEGATIVE, value & 0x80 != 0)
}

/// One push: the byte lands at `0x0100 + sp` and `sp` wraps down.
pub open spec fn spec_push(cpu: Cpu, m: MemSnap, p: PpuSnap, value: u8) -> (Cpu, MemSnap, PpuSnap) {
    let mp = spec_bus_write(m, p, (0x100 + cpu.sp as u16) as u16, value);
    (Cpu { sp: cpu.sp.wrapping_sub(1), ..cpu }, mp.0, mp.1)
}

/// One pop: `sp` wraps up and the byte comes from `0x0100 + sp`. The
/// stack page is plain RAM, so the bus state does not change.
pub open spec fn spec_pop(cpu: Cpu, m: MemSnap, p: PpuSnap) -> (u8, Cpu) {
    let sp2 = cpu.sp.wrapping_add(1);
    (spec_bus_read(m, p, (0x100 + sp2 as u16) as u16).0, Cpu { sp: sp2, ..cpu })
}

/// A taken branch costs one extra cycle on the same page, two across a
/// page boundary; an untaken branch changes nothing.
pub open spec fn spec_branch(cpu: Cpu, location: u16, condition: bool) -> Cpu {
    if condition {
        let add: u32 = if (cpu.pc & 0xff00) != (location & 0xff00) { 2 } else { 1 };
        Cpu { pc: location, cycles: cpu.cycles.wrapping_add(add), ..cpu }
    } else {
        cpu
    }
}

/// Register comparison: Carry when the register is at least the argument,
/// Zero on equality, Negative from bit 7 of the difference.
pub open spec fn spec_compare(cpu: Cpu, register: u8, argument: u8) -> Cpu {
    let result = register.wrapping_sub(argument);
    let f1 = spec_flag_set(cpu.flags, FLAG_CARRY, register >= argument);
    let f2 = spec_flag_set(f1, FLAG_ZERO, result == 0);
    let f3 = spec_flag_set(f2, FLAG_NEGATIVE, result & 0x80 != 0);
    Cpu { flags: f3, ..cpu }
}

/// One operand byte read at `pc`, which then advances.
pub open spec fn spec_operand_byte(cpu: Cpu, m: MemSnap, p: PpuSnap) -> (u8, Cpu, MemSnap, PpuSnap) {
    let v = spec_bus_read(m, p, cpu.pc);
    (v.0, Cpu { pc: cpu.pc.wrapping_add(1), ..cpu }, v.1, v.2)
}

/// A little-endian operand word: low byte at `pc` first, then high.
pub open spec fn spec_operand_word(cpu: Cpu, m: MemSnap, p: PpuSnap) -> (u16, Cpu, MemSnap, PpuSnap) {
    let lo = spec_bus_read(m, p, cpu.pc);
    let hi = spec_bus_read(lo.1, lo.2, cpu.pc.wrapping_add(1));
    (((hi.0 as u16) << 8) | (lo.0 as u16), Cpu { pc: cpu.pc.wrapping_add(2), ..cpu }, hi.1, hi.2)
}

/// Whether both bytes of the operand word at `pc` are mapped.
pub open spec fn spec_operand_word_ok(cpu: Cpu) -> bool {
    spec_cpu_addr_mapped(cpu.pc) && spec_cpu_addr_mapped(cpu.pc.wrapping_add(1))
}

/// The branch target: `pc` plus a signed 8-bit offset, measured from the
/// program counter after the offset byte was consumed.
pub open spec fn spec_relative_target(pc: u16, offset: u8) -> u16 {
    if offset < 0x80 {
        pc.wrapping_add(offset as u16)
    } else {
        pc.wrapping_add(offset as u16).wrapping_sub(0x100)
    }
}

/// Operand resolution for a normal (non-debug) fetch: what the addressing
/// mode reads, where `pc` ends up, and every side effect on the way.
/// Reproduces the hardware page-wrap bug of indirect addressing: a pointer
/// with low byte 0xFF takes its high byte from the start of the same page.
pub open spec fn spec_fetch_operand(cpu: Cpu, m: MemSnap, p: PpuSnap, mode: AddressingMode) -> OperandOutcome {
    match mode {
        AddressingMode::Implied => OperandOutcome::Resolved {
            operand: Operand { data: 0, additional_cycle: false }, cpu, mem: m, ppu: p,
        },
        AddressingMode::Accumulator => OperandOutcome::Resolved {
            operand: Operand { data: cpu.a as u16, additional_cycle: false }, cpu, mem: m, ppu: p,
        },
        AddressingMode::Immediate => {
            if !spec_cpu_addr_mapped(cpu.pc) {
                OperandOutcome::OperandFault { fault: EmuFault::BusMap { address: cpu.pc }, cpu, mem: m, ppu: p }
            } else {
                let b = spec_operand_byte(cpu, m, p);
                OperandOutcome::Resolved {
                    operand: Operand { data: b.0 as u16, additional_cycle: false },
                    cpu: b.1, mem: b.2, ppu: b.3,
                }
            }
        },
        AddressingMode::Absolute => {
            if !spec_operand_word_ok(cpu) {
                spec_operand_word_fault(cpu, m, p)
            } else {
                let w = spec_operand_word(cpu, m, p);
                OperandOutcome::Resolved {
                    operand: Operand { data: w.0, additional_cycle: false },
                    cpu: w.1, mem: w.2, ppu: w.3,
                }
            }
        },
        AddressingMode::AbsoluteX => spec_fetch_absolute_indexed(cpu, m, p, cpu.x),
        AddressingMode::AbsoluteY => spec_fetch_absolute_indexed(cpu, m, p, cpu.y),
        AddressingMode::ZeroPage => {
            if !spec_cpu_addr_mapped(cpu.pc) {
                OperandOutcome::OperandFault { fault: EmuFault::BusMap { address: cpu.pc }, cpu, mem: m, ppu: p }
            } else {
                let b = spec_operand_byte(cpu, m, p);
                OperandOutcome::Resolved {
                    operand: Operand { data: b.0 as u16, additional_cycle: false },
                    cpu: b.1, mem: b.2, ppu: b.3,
                }
            }
        },
        AddressingMode::ZeroPageX => spec_fetch_zero_page_indexed(cpu, m, p, cpu.x),
        AddressingMode::ZeroPageY => spec_fetch_zero_page_indexed(cpu, m, p, cpu.y),
        AddressingMode::Relative => {
            if !spec_cpu_addr_mapped(cpu.pc) {
                OperandOutcome::OperandFault { fault: EmuFault::BusMap { address: cpu.pc }, cpu, mem: m, ppu: p }
            } else {
                let b = spec_operand_byte(cpu, m, p);
                OperandOutcome::Resolved {
                    operand: Operand { data: spec_relative_target(b.1.pc, b.0), additional_cycle: false },
                    cpu: b.1, mem: b.2, ppu: b.3,
                }
            }
        },
        AddressingMode::Indirect => {
            if !spec_operand_word_ok(cpu) {
                spec_operand_word_fault(cpu, m, p)
            } else {
                let w = spec_operand_word(cpu, m, p);
                let pointer = w.0;
                let high_address: u16 = if pointer % 256 == 0xff {
                    ((pointer / 256) * 256) as u16
                } else {
                    (pointer + 1) as u16
                };
                if !spec_cpu_addr_mapped(pointer) {
                    OperandOutcome::OperandFault { fault: EmuFault::BusMap { address: pointer }, cpu: w.1, mem: w.2, ppu: w.3 }
                } else {
                    let lo = spec_bus_read(w.2, w.3, pointer);
                    if !spec_cpu_addr_mapped(high_address) {
                        OperandOutcome::OperandFault { fault: EmuFault::BusMap { address: high_address }, cpu: w.1, mem: lo.1, ppu: lo.2 }
                    } else {
                        let hi = spec_bus_read(lo.1, lo.2, high_address);
                        OperandOutcome::Resolved {
                            operand: Operand {
                                data: ((hi.0 as u16) << 8) | (lo.0 as u16),
                                additional_cycle: false,
                            },
                            cpu: w.1, mem: hi.1, ppu: hi.2,
                        }
                    }
                }
            }
        },
        AddressingMode::IndirectX => {
            if !spec_cpu_addr_mapped(cpu.pc) {
                OperandOutcome::OperandFault { fault: EmuFault::BusMap { address: cpu.pc }, cpu, mem: m, ppu: p }
            } else {
                let b = spec_operand_byte(cpu, m, p);
                let zp = b.0.wrapping_add(cpu.x);
                let w = spec_bus_read_word_zp(b.2, b.3, zp);
                OperandOutcome::Resolved {
                    operand: Operand { data: w.0, additional_cycle: false },
                    cpu: b.1, mem: w.1, ppu: w.2,
                }
            }
        },
        AddressingMode::IndirectY => {
            if !spec_cpu_addr_mapped(cpu.pc) {
                OperandOutcome::OperandFault { fault: EmuFault::BusMap { address: cpu.pc }, cpu, mem: m, ppu: p }
            } else {
                let b = spec_operand_byte(cpu, m, p);
                let w = spec_bus_read_word_zp(b.2, b.3, b.0);
                let address = w.0.wrapping_add(cpu.y as u16);
                OperandOutcome::Resolved {
                    operand: Operand {
                        data: address,
                        additional_cycle: (w.0 & 0xff00) != (address & 0xff00),
                    },
                    cpu: b.1, mem: w.1, ppu: w.2,
                }
            }
        },
    }
}

/// Where an operand-word fetch faults, and the state the first byte's
/// read (if it went through) left behind.
pub open spec fn spec_operand_word_fault(cpu: Cpu, m: MemSnap, p: PpuSnap) -> OperandOutcome {
    if !spec_cpu_addr_mapped(cpu.pc) {
        OperandOutcome::OperandFault { fault: EmuFault::BusMap { address: cpu.pc }, cpu, mem: m, ppu: p }
    } else {
        let b = spec_operand_byte(cpu, m, p);
        OperandOutcome::OperandFault { fault: EmuFault::BusMap { address: b.1.pc }, cpu: b.1, mem: b.2, ppu: b.3 }
    }
}

/// Absolute,X / Absolute,Y: the word at `pc` plus an index register; a
/// crossed page costs the extra cycle.
pub open spec fn spec_fetch_absolute_indexed(cpu: Cpu, m: MemSnap, p: PpuSnap, register: u8) -> OperandOutcome {
    if !spec_operand_word_ok(cpu) {
        spec_operand_word_fault(cpu, m, p)
    } else {
        let w = spec_operand_word(cpu, m, p);
        let address = w.0.wrapping_add(register as u16);
        OperandOutcome::Resolved {
            operand: Operand {
                data: address,
                additional_cycle: (w.0 & 0xff00) != (address & 0xff00),
            },
            cpu: w.1, mem: w.2, ppu: w.3,
        }
    }
}

/// ZeroPage,X / ZeroPage,Y: the byte at `pc` plus an index register,
/// wrapping within the zero page.
pub open spec fn spec_fetch_zero_page_indexed(cpu: Cpu, m: MemSnap, p: PpuSnap, register: u8) -> OperandOutcome {
    if !spec_cpu_addr_mapped(cpu.pc) {
        OperandOutcome::OperandFault { fault: EmuFault::BusMap { address: cpu.pc }, cpu, mem: m, ppu: p }
    } else {
        let b = spec_operand_byte(cpu, m, p);
        OperandOutcome::Resolved {
            operand: Operand { data: b.0.wrapping_add(register) as u16, additional_cycle: false },
            cpu: b.1, mem: b.2, ppu: b.3,
        }
    }
}

/// Operand resolution under a debug-annotated fetch: the same values with
/// no side effect anywhere but the advancing `pc`.
pub open spec fn spec_fetch_operand_dbg(cpu: Cpu, m: MemSnap, p: PpuSnap, mode: AddressingMode) -> (Operand, Cpu) {
    match mode {
        AddressingMode::Implied => (Operand { data: 0, additional_cycle: false }, cpu),
        AddressingMode::Accumulator => (Operand { data: cpu.a as u16, additional_cycle: false }, cpu),
        AddressingMode::Immediate => {
            let b = spec_bus_read_dbg(m, p, cpu.pc);
            (Operand { data: b as u16, additional_cycle: false }, Cpu { pc: cpu.pc.wrapping_add(1), ..cpu })
        },
        AddressingMode::Absolute => {
            let w = spec_operand_word_dbg(cpu, m, p);
            (Operand { data: w.0, additional_cycle: false }, w.1)
        },
        AddressingMode::AbsoluteX => {
            let w = spec_operand_word_dbg(cpu, m, p);
            let address = w.0.wrapping_add(cpu.x as u16);
            (Operand { data: address, additional_cycle: (w.0 & 0xff00) != (address & 0xff00) }, w.1)
        },
        AddressingMode::AbsoluteY => {
            let w = spec_operand_word_dbg(cpu, m, p);
            let address = w.0.wrapping_add(cpu.y as u16);
            (Operand { data: address, additional_cycle: (w.0 & 0xff00) != (address & 0xff00) }, w.1)
        },
        AddressingMode::ZeroPage => {
            let b = spec_bus_read_dbg(m, p, cpu.pc);
            (Operand { data: b as u16, additional_cycle: false }, Cpu { pc: cpu.pc.wrapping_add(1), ..cpu })
        },
        AddressingMode::ZeroPageX => {
            let b = spec_bus_read_dbg(m, p, cpu.pc);
            (Operand { data: b.wrapping_add(cpu.x) as u16, additional_cycle: false },
                Cpu { pc: cpu.pc.wrapping_add(1), ..cpu })
        },
        AddressingMode::ZeroPageY => {
            let b = spec_bus_read_dbg(m, p, cpu.pc);
            (Operand { data: b.wrapping_add(cpu.y) as u16, additional_cycle: false },
                Cpu { pc: cpu.pc.wrapping_add(1), ..cpu })
        },
        AddressingMode::Relative => {
            let b = spec_bus_read_dbg(m, p, cpu.pc);
            let cpu2 = Cpu { pc: cpu.pc.wrapping_add(1), ..cpu };
            (Operand { data: spec_relative_target(cpu2.pc, b), additional_cycle: false }, cpu2)
        },
        AddressingMode::Indirect => {
            let w = spec_operand_word_dbg(cpu, m, p);
            let pointer = w.0;
            let high_address: u16 = if pointer % 256 == 0xff {
                ((pointer / 256) * 256) as u16
            } else {
                (pointer + 1) as u16
            };
            let lo = spec_bus_read_dbg(m, p, pointer);
            let hi = spec_bus_read_dbg(m, p, high_address);
            (Operand { data: ((hi as u16) << 8) | (lo as u16), additional_cycle: false }, w.1)
        },
        AddressingMode::IndirectX => {
            let b = spec_bus_read_dbg(m, p, cpu.pc);
            let zp = b.wrapping_add(cpu.x);
            let lo = spec_bus_read_dbg(m, p, zp as u16);
            let hi = spec_bus_read_dbg(m, p, zp.wrapping_add(1) as u16);
            (Operand { data: ((hi as u16) << 8) | (lo as u16), additional_cycle: false },
                Cpu { pc: cpu.pc.wrapping_add(1), ..cpu })
        },
        AddressingMode::IndirectY => {
            let b = spec_bus_read_dbg(m, p, cpu.pc);
            let lo = spec_bus_read_dbg(m, p, b as u16);
            let hi = spec_bus_read_dbg(m, p, b.wrapping_add(1) as u16);
            let value = ((hi as u16) << 8) | (lo as u16);
            let address = value.wrapping_add(cpu.y as u16);
            (Operand { data: address, additional_cycle: (value & 0xff00) != (address & 0xff00) },
                Cpu { pc: cpu.pc.wrapping_add(1), ..cpu })
        },
    }
}

/// Debug-annotated operand word at `pc`: both bytes, no side effects.
pub open spec fn spec_operand_word_dbg(cpu: Cpu, m: MemSnap, p: PpuSnap) -> (u16, Cpu) {
    let lo = spec_bus_read_dbg(m, p, cpu.pc);
    let hi = spec_bus_read_dbg(m, p, cpu.pc.wrapping_add(1));
    (((hi as u16) << 8) | (lo as u16), Cpu { pc: cpu.pc.wrapping_add(2), ..cpu })
}

/// The argument fetch, performed only for operations that use the value
/// at the resolved address: Immediate and Accumulator operands carry the
/// value itself, every other mode reads through the bus.
pub open spec fn spec_fetch_args(m: MemSnap, p: PpuSnap, mode: AddressingMode, operand_data: u16) -> ByteOutcome {
    match mode {
        AddressingMode::Implied => ByteOutcome::Got { value: 0, mem: m, ppu: p },
        AddressingMode::Accumulator => ByteOutcome::Got {
            value: (operand_data % 256) as u8, mem: m, ppu: p,
        },
        AddressingMode::Immediate => ByteOutcome::Got {
            value: (operand_data % 256) as u8, mem: m, ppu: p,
        },
        _ => {
            if !spec_cpu_addr_mapped(operand_data) {
                ByteOutcome::ByteFault { fault: EmuFault::BusMap { address: operand_data } }
            } else {
                let v = spec_bus_read(m, p, operand_data);
                ByteOutcome::Got { value: v.0, mem: v.1, ppu: v.2 }
            }
        },
    }
}

/// The operations that can owe one extra cycle when operand resolution
/// crossed a page: loads and the read-only arithmetic and logic family.
pub open spec fn spec_op_may_take_extra(operation: Operation) -> bool {
    match operation {
        Operation::ADC => true,
        Operation::SBC => true,
        Operation::AND => true,
        Operation::EOR => true,
        Operation::ORA => true,
        Operation::LDA => true,
        Operation::LDX => true,
        Operation::LDY => true,
        Operation::CMP => true,
        Operation::CPX => true,
        Operation::CPY => true,
        Operation::LAX => true,
        Operation::IGN => true,
        _ => false,
    }
}

/// What one operation does to the machine, after its operand has been
/// resolved and its argument (if any) fetched. The result carries no base
/// cycle cost yet; `spec_finish` accounts that.
pub open spec fn spec_apply(opcode: u8, instr: Instruction, operand: Operand, argument: u8, cpu: Cpu, m: MemSnap, p: PpuSnap) -> StepResult {
    match instr.operation {
        Operation::ADC => {
            let value = (cpu.a + argument + (cpu.flags & FLAG_CARRY)) as u16;
            let f1 = spec_flag_set(cpu.flags, FLAG_CARRY, value > 255);
            let f2 = spec_flag_set(f1, FLAG_ZERO, (value % 256) as u8 == 0);
            let f3 = spec_flag_set(f2, FLAG_OVERFLOW,
                ((!(cpu.a as u16 ^ argument as u16)) & (cpu.a as u16 ^ value)) & 0x80 != 0);
            let f4 = spec_flag_set(f3, FLAG_NEGATIVE, (value % 256) as u8 & 0x80 != 0);
            StepResult::Step(MachineSnap { cpu: Cpu { a: (value % 256) as u8, flags: f4, ..cpu }, mem: m, ppu: p })
        },
        Operation::SBC => {
            let value = (argument ^ 0xff) as u16;
            let temp = (cpu.a + value + (cpu.flags & FLAG_CARRY)) as u16;
            let f1 = spec_flag_set(cpu.flags, FLAG_CARRY, temp > 255);
            let f2 = spec_flag_set(f1, FLAG_ZERO, (temp % 256) as u8 == 0);
            let f3 = spec_flag_set(f2, FLAG_OVERFLOW, ((temp ^ cpu.a as u16) & (temp ^ value)) & 0x80 != 0);
            let f4 = spec_flag_set(f3, FLAG_NEGATIVE, (temp % 256) as u8 & 0x80 != 0);
            StepResult::Step(MachineSnap { cpu: Cpu { a: (temp % 256) as u8, flags: f4, ..cpu }, mem: m, ppu: p })
        },
        Operation::AND => {
            let a2 = cpu.a & argument;
            StepResult::Step(MachineSnap { cpu: Cpu { a: a2, flags: spec_set_zn(cpu.flags, a2), ..cpu }, mem: m, ppu: p })
        },
        Operation::EOR => {
            let a2 = cpu.a ^ argument;
            StepResult::Step(MachineSnap { cpu: Cpu { a: a2, flags: spec_set_zn(cpu.flags, a2), ..cpu }, mem: m, ppu: p })
        },
        Operation::ORA => {
            let a2 = cpu.a | argument;
            StepResult::Step(MachineSnap { cpu: Cpu { a: a2, flags: spec_set_zn(cpu.flags, a2), ..cpu }, mem: m, ppu: p })
        },
        Operation::ASL => {
            let result = argument << 1;
            let f = spec_flag_set(spec_set_zn(cpu.flags, result), FLAG_CARRY, argument & 0x80 != 0);
            spec_shift_result(instr, operand, result, Cpu { flags: f, ..cpu }, m, p)
        },
        Operation::LSR => {
            let result = argument >> 1;
            let f1 = spec_flag_set(cpu.flags, FLAG_ZERO, result == 0);
            let f2 = spec_flag_set(f1, FLAG_NEGATIVE, false);
            let f3 = spec_flag_set(f2, FLAG_CARRY, argument & 1 != 0);
            spec_shift_result(instr, operand, result, Cpu { flags: f3, ..cpu }, m, p)
        },
        Operation::ROL => {
            let result = (argument << 1) | (cpu.flags & FLAG_CARRY);
            let f = spec_flag_set(spec_set_zn(cpu.flags, result), FLAG_CARRY, argument & 0x80 != 0);
            spec_shift_result(instr, operand, result, Cpu { flags: f, ..cpu }, m, p)
        },
        Operation::ROR => {
            let carry_in = cpu.flags & FLAG_CARRY != 0;
            let result = (argument >> 1) | (if carry_in { 0x80u8 } else { 0u8 });
            let f1 = spec_flag_set(cpu.flags, FLAG_ZERO, result == 0);
            let f2 = spec_flag_set(f1, FLAG_NEGATIVE, carry_in);
            let f3 = spec_flag_set(f2, FLAG_CARRY, argument & 1 != 0);
            spec_shift_result(instr, operand, result, Cpu { flags: f3, ..cpu }, m, p)
        },
        Operation::INC => {
            let result = argument.wrapping_add(1);
            spec_store_result(operand, result, Cpu { flags: spec_set_zn(cpu.flags, result), ..cpu }, m, p)
        },
        Operation::DEC => {
            let result = argument.wrapping_sub(1);
            spec_store_result(operand, result, Cpu { flags: spec_set_zn(cpu.flags, result), ..cpu }, m, p)
        },
        Operation::INX => {
            let result = cpu.x.wrapping_add(1);
            StepResult::Step(MachineSnap { cpu: Cpu { x: result, flags: spec_set_zn(cpu.flags, result), ..cpu }, mem: m, ppu: p })
        },
        Operation::INY => {
            let result = cpu.y.wrapping_add(1);
            StepResult::Step(MachineSnap { cpu: Cpu { y: result, flags: spec_set_zn(cpu.flags, result), ..cpu }, mem: m, ppu: p })
        },
        Operation::DEX => {
            let result = cpu.x.wrapping_sub(1);
            StepResult::Step(MachineSnap { cpu: Cpu { x: result, flags: spec_set_zn(cpu.flags, result), ..cpu }, mem: m, ppu: p })
        },
        Operation::DEY => {
            let result = cpu.y.wrapping_sub(1);
            StepResult::Step(MachineSnap { cpu: Cpu { y: result, flags: spec_set_zn(cpu.flags, result), ..cpu }, mem: m, ppu: p })
        },
        Operation::LDA => {
            let f = spec_flag_set(spec_flag_set(cpu.flags, FLAG_NEGATIVE, argument & 0x80 != 0), FLAG_ZERO, argument == 0);
            StepResult::Step(MachineSnap { cpu: Cpu { a: argument, flags: f, ..cpu }, mem: m, ppu: p })
        },
        Operation::LDX => {
            let f = spec_flag_set(spec_flag_set(cpu.flags, FLAG_NEGATIVE, argument & 0x80 != 0), FLAG_ZERO, argument == 0);
            StepResult::Step(MachineSnap { cpu: Cpu { x: argument, flags: f, ..cpu }, mem: m, ppu: p })
        },
        Operation::LDY => {
            let f = spec_flag_set(spec_flag_set(cpu.flags, FLAG_NEGATIVE, argument & 0x80 != 0), FLAG_ZERO, argument == 0);
            StepResult::Step(MachineSnap { cpu: Cpu { y: argument, flags: f, ..cpu }, mem: m, ppu: p })
        },
        Operation::STA => spec_store_result(operand, cpu.a, cpu, m, p),
        Operation::STX => spec_store_result(operand, cpu.x, cpu, m, p),
        Operation::STY => spec_store_result(operand, cpu.y, cpu, m, p),
        Operation::SEC => spec_set_flag_op(cpu, m, p, FLAG_CARRY, true),
        Operation::SED => spec_set_flag_op(cpu, m, p, FLAG_DECIMAL, true),
        Operation::SEI => spec_set_flag_op(cpu, m, p, FLAG_DISABLE_INTERRUPTS, true),
        Operation::CLC => spec_set_flag_op(cpu, m, p, FLAG_CARRY, false),
        Operation::CLD => spec_set_flag_op(cpu, m, p, FLAG_DECIMAL, false),
        Operation::CLI => spec_set_flag_op(cpu, m, p, FLAG_DISABLE_INTERRUPTS, false),
        Operation::CLV => spec_set_flag_op(cpu, m, p, FLAG_OVERFLOW, false),
        Operation::CMP => StepResult::Step(MachineSnap { cpu: spec_compare(cpu, cpu.a, argument), mem: m, ppu: p }),
        Operation::CPX => StepResult::Step(MachineSnap { cpu: spec_compare(cpu, cpu.x, argument), mem: m, ppu: p }),
        Operation::CPY => StepResult::Step(MachineSnap { cpu: spec_compare(cpu, cpu.y, argument), mem: m, ppu: p }),
        Operation::JMP => StepResult::Step(MachineSnap { cpu: Cpu { pc: operand.data, ..cpu }, mem: m, ppu: p }),
        Operation::JSR => {
            let cpu1 = Cpu { pc: cpu.pc.wrapping_sub(1), ..cpu };
            let s1 = spec_push(cpu1, m, p, (cpu1.pc / 256) as u8);
            let s2 = spec_push(s1.0, s1.1, s1.2, (cpu1.pc % 256) as u8);
            StepResult::Step(MachineSnap { cpu: Cpu { pc: operand.data, ..s2.0 }, mem: s2.1, ppu: s2.2 })
        },
        Operation::RTI => {
            let t1 = spec_pop(cpu, m, p);
            let cpu1 = Cpu { flags: t1.0, ..t1.1 };
            let t2 = spec_pop(cpu1, m, p);
            let t3 = spec_pop(t2.1, m, p);
            StepResult::Step(MachineSnap {
                cpu: Cpu { pc: (t2.0 as u16) | ((t3.0 as u16) << 8), ..t3.1 },
                mem: m, ppu: p,
            })
        },
        Operation::RTS => {
            let t1 = spec_pop(cpu, m, p);
            let t2 = spec_pop(t1.1, m, p);
            let pc = ((t1.0 as u16) | ((t2.0 as u16) << 8)).wrapping_add(1);
            StepResult::Step(MachineSnap { cpu: Cpu { pc, ..t2.1 }, mem: m, ppu: p })
        },
        Operation::BCC => spec_branch_op(cpu, m, p, operand, cpu.flags & FLAG_CARRY == 0),
        Operation::BCS => spec_branch_op(cpu, m, p, operand, cpu.flags & FLAG_CARRY != 0),
        Operation::BEQ => spec_branch_op(cpu, m, p, operand, cpu.flags & FLAG_ZERO != 0),
        Operation::BMI => spec_branch_op(cpu, m, p, operand, cpu.flags & FLAG_NEGATIVE != 0),
        Operation::BNE => spec_branch_op(cpu, m, p, operand, cpu.flags & FLAG_ZERO == 0),
        Operation::BPL => spec_branch_op(cpu, m, p, operand, cpu.flags & FLAG_NEGATIVE == 0),
        Operation::BVC => spec_branch_op(cpu, m, p, operand, cpu.flags & FLAG_OVERFLOW == 0),
        Operation::BVS => spec_branch_op(cpu, m, p, operand, cpu.flags & FLAG_OVERFLOW != 0),
        Operation::PHA => {
            let s = spec_push(cpu, m, p, cpu.a);
            StepResult::Step(MachineSnap { cpu: s.0, mem: s.1, ppu: s.2 })
        },
        Operation::PHP => {
            let s = spec_push(cpu, m, p, cpu.flags | FLAG_B | FLAG_U);
            StepResult::Step(MachineSnap { cpu: s.0, mem: s.1, ppu: s.2 })
        },
        Operation::PLA => {
            let t = spec_pop(cpu, m, p);
            StepResult::Step(MachineSnap {
                cpu: Cpu { a: t.0, flags: spec_set_zn(t.1.flags, t.0), ..t.1 },
                mem: m, ppu: p,
            })
        },
        Operation::PLP => {
            let t = spec_pop(cpu, m, p);
            StepResult::Step(MachineSnap { cpu: Cpu { flags: t.0, ..t.1 }, mem: m, ppu: p })
        },
        Operation::TAX => StepResult::Step(MachineSnap {
            cpu: Cpu { x: cpu.a, flags: spec_set_zn(cpu.flags, cpu.a), ..cpu }, mem: m, ppu: p,
        }),
        Operation::TAY => StepResult::Step(MachineSnap {
            cpu: Cpu { y: cpu.a, flags: spec_set_zn(cpu.flags, cpu.a), ..cpu }, mem: m, ppu: p,
        }),
        Operation::TSX => StepResult::Step(MachineSnap {
            cpu: Cpu { x: cpu.sp, flags: spec_set_zn(cpu.flags, cpu.sp), ..cpu }, mem: m, ppu: p,
        }),
        Operation::TXA => StepResult::Step(MachineSnap {
            cpu: Cpu { a: cpu.x, flags: spec_set_zn(cpu.flags, cpu.x), ..cpu }, mem: m, ppu: p,
        }),
        Operation::TYA => StepResult::Step(MachineSnap {
            cpu: Cpu { a: cpu.y, flags: spec_set_zn(cpu.flags, cpu.y), ..cpu }, mem: m, ppu: p,
        }),
        Operation::TXS => StepResult::Step(MachineSnap { cpu: Cpu { sp: cpu.x, ..cpu }, mem: m, ppu: p }),
        Operation::BIT => {
            let result = cpu.a & argument;
            let f1 = spec_flag_set(cpu.flags, FLAG_ZERO, result == 0);
            let f2 = spec_flag_set(f1, FLAG_OVERFLOW, argument & 0x40 != 0);
            let f3 = spec_flag_set(f2, FLAG_NEGATIVE, argument & 0x80 != 0);
            StepResult::Step(MachineSnap { cpu: Cpu { flags: f3, ..cpu }, mem: m, ppu: p })
        },
        Operation::NOP => StepResult::Step(MachineSnap { cpu, mem: m, ppu: p }),
        Operation::LAX => StepResult::Step(MachineSnap {
            cpu: Cpu { a: argument, x: argument, flags: spec_set_zn(cpu.flags, argument), ..cpu },
            mem: m, ppu: p,
        }),
        Operation::SAX => spec_store_result(operand, cpu.a & cpu.x, cpu, m, p),
        Operation::IGN => StepResult::Step(MachineSnap { cpu, mem: m, ppu: p }),
        Operation::SKB => StepResult::Step(MachineSnap { cpu, mem: m, ppu: p }),
        Operation::DCP => {
            let dec_value = argument.wrapping_sub(1);
            let cmp_value = cpu.a.wrapping_sub(dec_value);
            let f1 = spec_flag_set(cpu.flags, FLAG_CARRY, cpu.a >= dec_value);
            let f2 = spec_flag_set(f1, FLAG_ZERO, cmp_value == 0);
            let f3 = spec_flag_set(f2, FLAG_NEGATIVE, cmp_value & 0x80 != 0);
            spec_store_result(operand, dec_value, Cpu { flags: f3, ..cpu }, m, p)
        },
        Operation::ISC => {
            let inc_value = argument.wrapping_add(1);
            let v1 = cpu.a.wrapping_sub(inc_value);
            let b1 = cpu.a < inc_value;
            let borrow: u8 = if cpu.flags & FLAG_CARRY != 0 { 0 } else { 1 };
            let v2 = v1.wrapping_sub(borrow);
            let b2 = v1 < borrow;
            let f1 = spec_flag_set(cpu.flags, FLAG_CARRY, !(b1 || b2));
            let f2 = spec_flag_set(f1, FLAG_ZERO, v2 == 0);
            let f3 = spec_flag_set(f2, FLAG_NEGATIVE, v2 & 0x80 != 0);
            let f4 = spec_flag_set(f3, FLAG_OVERFLOW,
                ((cpu.a ^ inc_value) & 0x80 == 0x80) && ((cpu.a ^ v2) & 0x80 == 0x80));
            spec_store_result(operand, inc_value, Cpu { a: v2, flags: f4, ..cpu }, m, p)
        },
        Operation::RLA => {
            let rol_value = (argument << 1) | (cpu.flags & FLAG_CARRY);
            let f1 = spec_flag_set(cpu.flags, FLAG_CARRY, argument & 0x80 != 0);
            let and_value = cpu.a & rol_value;
            let f2 = spec_set_zn(f1, and_value);
            spec_store_result(operand, rol_value, Cpu { a: and_value, flags: f2, ..cpu }, m, p)
        },
        Operation::RRA => {
            let carry_in = cpu.flags & FLAG_CARRY != 0;
            let ror_value = (argument >> 1) | (if carry_in { 0x80u8 } else { 0u8 });
            let f1 = spec_flag_set(cpu.flags, FLAG_CARRY, argument & 1 == 1);
            let adc_value = (cpu.a + ror_value + (f1 & FLAG_CARRY)) as u16;
            let f2 = spec_flag_set(f1, FLAG_CARRY, adc_value > 255);
            let f3 = spec_flag_set(f2, FLAG_ZERO, (adc_value % 256) as u8 == 0);
            let f4 = spec_flag_set(f3, FLAG_OVERFLOW,
                ((cpu.a as u16 ^ adc_value) & (ror_value as u16 ^ adc_value)) & 0x80 == 0x80);
            let f5 = spec_flag_set(f4, FLAG_NEGATIVE, (adc_value % 256) as u8 & 0x80 != 0);
            spec_store_result(operand, ror_value,
                Cpu { a: (adc_value % 256) as u8, flags: f5, ..cpu }, m, p)
        },
        Operation::SLO => {
            let asl_value = argument << 1;
            let f1 = spec_flag_set(cpu.flags, FLAG_CARRY, argument & 0x80 != 0);
            let ora_value = cpu.a | asl_value;
            let f2 = spec_set_zn(f1, ora_value);
            spec_store_result(operand, asl_value, Cpu { a: ora_value, flags: f2, ..cpu }, m, p)
        },
        Operation::SRE => {
            let lsr_value = argument >> 1;
            let f1 = spec_flag_set(cpu.flags, FLAG_CARRY, argument & 1 == 1);
            let eor_value = cpu.a ^ lsr_value;
            let f2 = spec_set_zn(f1, eor_value);
            spec_store_result(operand, lsr_value, Cpu { a: eor_value, flags: f2, ..cpu }, m, p)
        },
        Operation::BRK => StepResult::Fault(EmuFault::Brk, MachineSnap { cpu, mem: m, ppu: p }),
        _ => StepResult::Fault((EmuFault::DecodeAnomaly { opcode }), MachineSnap { cpu, mem: m, ppu: p }),
    }
}

/// A store through the bus, or a fault when the destination is unmapped.
pub open spec fn spec_store_result(operand: Operand, value: u8, cpu: Cpu, m: MemSnap, p: PpuSnap) -> StepResult {
    if !spec_cpu_addr_mapped(operand.data) {
        StepResult::Fault((EmuFault::BusMap { address: operand.data }), MachineSnap { cpu, mem: m, ppu: p })
    } else {
        let w = spec_bus_write(m, p, operand.data, value);
        StepResult::Step(MachineSnap { cpu, mem: w.0, ppu: w.1 })
    }
}

/// A shift or rotate result: into the accumulator under Accumulator
/// addressing, else into memory at the resolved address.
pub open spec fn spec_shift_result(instr: Instruction, operand: Operand, value: u8, cpu: Cpu, m: MemSnap, p: PpuSnap) -> StepResult {
    if instr.mode == AddressingMode::Accumulator {
        StepResult::Step(MachineSnap { cpu: Cpu { a: value, ..cpu }, mem: m, ppu: p })
    } else {
        spec_store_result(operand, value, cpu, m, p)
    }
}

/// A flag set or clear operation.
pub open spec fn spec_set_flag_op(cpu: Cpu, m: MemSnap, p: PpuSnap, mask: u8, on: bool) -> StepResult {
    StepResult::Step(MachineSnap { cpu: Cpu { flags: spec_flag_set(cpu.flags, mask, on), ..cpu }, mem: m, ppu: p })
}

/// A conditional branch as a step.
pub open spec fn spec_branch_op(cpu: Cpu, m: MemSnap, p: PpuSnap, operand: Operand, condition: bool) -> StepResult {
    StepResult::Step(MachineSnap { cpu: spec_branch(cpu, operand.data, condition), mem: m, ppu: p })
}

/// Adds the instruction's base cycle cost, and the one extra cycle owed
/// when the operand crossed a page and the operation is in the
/// may-cost-extra family.
pub open spec fn spec_finish(instr: Instruction, operand: Operand, s: StepResult) -> StepResult {
    match s {
        StepResult::Fault(f, ms) => StepResult::Fault(f, ms),
        StepResult::Step(ms) => {
            let c1 = if operand.additional_cycle && spec_op_may_take_extra(instr.operation) {
                ms.cpu.cycles.wrapping_add(1)
            } else {
                ms.cpu.cycles
            };
            StepResult::Step(MachineSnap {
                cpu: Cpu { cycles: c1.wrapping_add(instr.base_cycles as u32), ..ms.cpu },
                ..ms
            })
        },
    }
}

/// One whole instruction: fetch the opcode at `pc`, decode it, resolve
/// the operand, fetch the argument when the operation reads one, apply
/// the operation, and account the cycles.
pub open spec fn spec_execute(cpu: Cpu, m: MemSnap, p: PpuSnap) -> StepResult {
    if !spec_cpu_addr_mapped(cpu.pc) {
        StepResult::Fault((EmuFault::BusMap { address: cpu.pc }), MachineSnap { cpu, mem: m, ppu: p })
    } else {
        let f = spec_bus_read(m, p, cpu.pc);
        let instr = spec_decode(f.0);
        let cpu1 = Cpu { pc: cpu.pc.wrapping_add(1), ..cpu };
        match spec_fetch_operand(cpu1, f.1, f.2, instr.mode) {
            OperandOutcome::OperandFault { fault, cpu: cpuf, mem: mf, ppu: pf } =>
                StepResult::Fault(fault, MachineSnap { cpu: cpuf, mem: mf, ppu: pf }),
            OperandOutcome::Resolved { operand, cpu: cpu2, mem: m2, ppu: p2 } => {
                if spec_requires_fetched_argument(instr.operation) {
                    match spec_fetch_args(m2, p2, instr.mode, operand.data) {
                        ByteOutcome::ByteFault { fault } =>
                            StepResult::Fault(fault, MachineSnap { cpu: cpu2, mem: m2, ppu: p2 }),
                        ByteOutcome::Got { value, mem: m3, ppu: p3 } => spec_finish(
                            instr, operand, spec_apply(f.0, instr, operand, value, cpu2, m3, p3)),
                    }
                } else {
                    spec_finish(instr, operand, spec_apply(f.0, instr, operand, 0, cpu2, m2, p2))
                }
            },
        }
    }
}

/// NMI entry: push `pc` high then low, push the flags with B pushed clear
/// and U pushed set, disable interrupts, load `pc` from the vector at
/// 0xFFFA, and owe eight cycles. Not inhibited by the interrupt-disable
/// bit, which gates IRQ only.
pub open spec fn spec_nmi(cpu: Cpu, m: MemSnap, p: PpuSnap) -> (Cpu, MemSnap, PpuSnap) {
    let s1 = spec_push(cpu, m, p, (cpu.pc / 256) as u8);
    let s2 = spec_push(s1.0, s1.1, s1.2, (cpu.pc % 256) as u8);
    let f1 = spec_flag_set(s2.0.flags, FLAG_B, false);
    let f2 = spec_flag_set(f1, FLAG_U, true);
    let f3 = spec_flag_set(f2, FLAG_DISABLE_INTERRUPTS, true);
    let s3 = spec_push(Cpu { flags: f3, ..s2.0 }, s2.1, s2.2, f3);
    let w = spec_bus_read_word(s3.1, s3.2, 0xfffa);
    (Cpu { pc: w.0, cycles: 8, ..s3.0 }, w.1, w.2)
}

impl Cpu {
    /// The CPU at reset: `pc` seeded from the vector at 0xFFFC, the stack
    /// pointer at 0xFD, registers clear, flags 0x34, seven cycles owed.
    pub fn from_memory(ppu: &mut Ppu, memory: &mut Memory) -> (r: Cpu)
        requires
            old(ppu)@.wf(),
            old(memory)@.wf(),
        ensures
            final(ppu)@ == old(ppu)@,
            final(memory)@ == old(memory)@,
            r == (Cpu {
                pc: spec_bus_read_word(old(memory)@, old(ppu)@, 0xfffc).0,
                sp: 0xfd,
                a: 0,
                x: 0,
                y: 0,
                flags: 0x34,
                cycles: 7,
            }),
    {
        let pc_r = memory.read_word(ppu, 0xfffc, false);
        let pc = match pc_r {
            Ok(v) => v,
            Err(_) => 0,
        };
        Cpu { pc, flags: 0x34, sp: 0xfd, a: 0, x: 0, y: 0, cycles: 7 }
    }

    /// Services a non-maskable interrupt between instructions.
    pub fn on_non_maskable_interrupt(&mut self, ppu: &mut Ppu, memory: &mut Memory)
        requires
            old(ppu)@.wf(),
            old(memory)@.wf(),
        ensures
            final(ppu)@.wf(),
            final(memory)@.wf(),
            final(memory)@.rom_header == old(memory)@.rom_header,
            ({
                let s = spec_nmi(*old(self), old(memory)@, old(ppu)@);
                *final(self) == s.0 && final(memory)@ == s.1 && final(ppu)@ == s.2
            }),
    {
        self.push(ppu, memory, (self.pc / 256) as u8);
        self.push(ppu, memory, (self.pc % 256) as u8);
        self.flags = flag_set(self.flags, FLAG_B, false);
        self.flags = flag_set(self.flags, FLAG_U, true);
        self.flags = flag_set(self.flags, FLAG_DISABLE_INTERRUPTS, true);
        self.push(ppu, memory, self.flags);
        let pc_r = memory.read_word(ppu, 0xfffa, false);
        self.pc = match pc_r {
            Ok(v) => v,
            Err(_) => 0,
        };
        self.cycles = 8;
    }

    /// Pushes a byte at `0x0100 + sp`; the stack pointer wraps modulo 256.
    pub fn push(&mut self, ppu: &mut Ppu, memory: &mut Memory, value: u8)
        requires
            old(memory)@.wf(),
            old(ppu)@.wf(),
        ensures
            final(memory)@.wf(),
            final(ppu)@.wf(),
            final(memory)@.rom_header == old(memory)@.rom_header,
            ({
                let s = spec_push(*old(self), old(memory)@, old(ppu)@, value);
                *final(self) == s.0 && final(memory)@ == s.1 && final(ppu)@ == s.2
            }),
    {
        let _ = memory.write_byte(ppu, 0x100 + self.sp as u16, value);
        self.sp = self.sp.wrapping_sub(1);
    }

    /// Pops the byte at `0x0100 + sp` after the pointer wraps back up.
    pub fn pop(&mut self, ppu: &mut Ppu, memory: &mut Memory) -> (r: u8)
        requires
            old(memory)@.wf(),
            old(ppu)@.wf(),
        ensures
            final(memory)@ == old(memory)@,
            final(ppu)@ == old(ppu)@,
            ({
                let s = spec_pop(*old(self), old(memory)@, old(ppu)@);
                r == s.0 && *final(self) == s.1
            }),
    {
        self.sp = self.sp.wrapping_add(1);
        let v = memory.read_byte(ppu, 0x100 + self.sp as u16, false);
        match v {
            Ok(value) => value,
            Err(_) => 0,
        }
    }

    /// Compares a register against the argument, setting Carry, Zero and
    /// Negative. Returns true: comparisons can owe a page-cross cycle.
    pub fn compare(&mut self, register: u8, argument: u8) -> (r: bool)
        ensures
            *final(self) == spec_compare(*old(self), register, argument),
            r,
    {
        let result = register.wrapping_sub(argument);
        self.set_carry_flag(register >= argument);
        self.set_zero_flag(register.wrapping_sub(argument));
        self.set_negative_flag(result);
        true
    }

    /// Takes the branch when the condition holds, paying one cycle on the
    /// same page and two across pages. Returns false: the page-cross cost
    /// is accounted here, never by the operand.
    pub fn branch(&mut self, memory: &mut Memory, location: u16, condition: bool) -> (r: bool)
        ensures
            final(memory)@ == old(memory)@,
            *final(self) == spec_branch(*old(self), location, condition),
            !r,
    {
        if condition {
            if memory.pages_differ(self.pc, location) {
                self.cycles = self.cycles.wrapping_add(2);
            } else {
                self.cycles = self.cycles.wrapping_add(1);
            }
            self.pc = location;
        }
        false
    }

    /// Zero and Negative from the accumulator, which is handed on.
    pub fn transfer_from_accumulator(&mut self) -> (r: u8)
        ensures
            *final(self) == (Cpu { flags: spec_set_zn(old(self).flags, old(self).a), ..*old(self) }),
            r == old(self).a,
    {
        self.set_zero_flag(self.a);
        self.set_negative_flag(self.a);
        self.a
    }

    /// Zero and Negative from the transferred value, which is handed on.
    pub fn transfer_to_register(&mut self, register: u8) -> (r: u8)
        ensures
            *final(self) == (Cpu { flags: spec_set_zn(old(self).flags, register), ..*old(self) }),
            r == register,
    {
        self.set_zero_flag(register);
        self.set_negative_flag(register);
        register
    }

    /// Sets or clears Carry.
    pub fn set_carry_flag(&mut self, value: bool)
        ensures
            *final(self) == (Cpu { flags: spec_flag_set(old(self).flags, FLAG_CARRY, value), ..*old(self) }),
    {
        self.flags = flag_set(self.flags, FLAG_CARRY, value);
    }

    /// Zero tracks whether the value is zero.
    pub fn set_zero_flag(&mut self, value: u8)
        ensures
            *final(self) == (Cpu { flags: spec_flag_set(old(self).flags, FLAG_ZERO, value == 0), ..*old(self) }),
    {
        self.flags = flag_set(self.flags, FLAG_ZERO, value == 0);
    }

    /// Sets or clears Overflow.
    pub fn set_overflow_flag(&mut self, value: bool)
        ensures
            *final(self) == (Cpu { flags: spec_flag_set(old(self).flags, FLAG_OVERFLOW, value), ..*old(self) }),
    {
        self.flags = flag_set(self.flags, FLAG_OVERFLOW, value);
    }

    /// Negative tracks bit 7 of the value.
    pub fn set_negative_flag(&mut self, value: u8)
        ensures
            *final(self) == (Cpu {
                flags: spec_flag_set(old(self).flags, FLAG_NEGATIVE, value & 0x80 != 0),
                ..*old(self)
            }),
    {
        self.flags = flag_set(self.flags, FLAG_NEGATIVE, value & 0x80 != 0);
    }

    /// Reads one operand byte at `pc` and advances it.
    fn read_byte_for_operand(&mut self, ppu: &mut Ppu, memory: &mut Memory, debugger: bool) -> (r: Result<u8, EmuFault>)
        requires
            old(memory)@.wf(),
            old(ppu)@.wf(),
        ensures
            final(memory)@.wf(),
            final(ppu)@.wf(),
            final(memory)@.rom_header == old(memory)@.rom_header,
            debugger ==> final(memory)@ == old(memory)@ && final(ppu)@ == old(ppu)@
                && r == Ok::<u8, EmuFault>(spec_bus_read_dbg(old(memory)@, old(ppu)@, old(self).pc))
                && *final(self) == (Cpu { pc: old(self).pc.wrapping_add(1), ..*old(self) }),
            !debugger && spec_cpu_addr_mapped(old(self).pc) ==> ({
                let b = spec_operand_byte(*old(self), old(memory)@, old(ppu)@);
                r == Ok::<u8, EmuFault>(b.0) && *final(self) == b.1
                    && final(memory)@ == b.2 && final(ppu)@ == b.3
            }),
            !debugger && !spec_cpu_addr_mapped(old(self).pc) ==> *final(self) == *old(self)
                && final(memory)@ == old(memory)@ && final(ppu)@ == old(ppu)@
                && r == Err::<u8, EmuFault>((EmuFault::BusMap { address: old(self).pc })),
    {
        let data = memory.read_byte(ppu, self.pc, debugger)?;
        self.pc = self.pc.wrapping_add(1);
        Ok(data)
    }

    /// Reads a little-endian operand word at `pc`, low byte first.
    fn read_word_for_operand(&mut self, ppu: &mut Ppu, memory: &mut Memory, debugger: bool) -> (r: Result<u16, EmuFault>)
        requires
            old(memory)@.wf(),
            old(ppu)@.wf(),
        ensures
            final(memory)@.wf(),
            final(ppu)@.wf(),
            final(memory)@.rom_header == old(memory)@.rom_header,
            debugger ==> final(memory)@ == old(memory)@ && final(ppu)@ == old(ppu)@
                && ({
                    let w = spec_operand_word_dbg(*old(self), old(memory)@, old(ppu)@);
                    r == Ok::<u16, EmuFault>(w.0) && *final(self) == w.1
                }),
            !debugger && spec_operand_word_ok(*old(self)) ==> ({
                let w = spec_operand_word(*old(self), old(memory)@, old(ppu)@);
                r == Ok::<u16, EmuFault>(w.0) && *final(self) == w.1
                    && final(memory)@ == w.2 && final(ppu)@ == w.3
            }),
            !debugger && !spec_operand_word_ok(*old(self)) ==> (
                match spec_operand_word_fault(*old(self), old(memory)@, old(ppu)@) {
                    OperandOutcome::OperandFault { fault, cpu, mem, ppu: p2 } => r == Err::<u16, EmuFault>(fault)
                        && *final(self) == cpu && final(memory)@ == mem && final(ppu)@ == p2,
                    OperandOutcome::Resolved { .. } => false,
                }),
    {
        let low = self.read_byte_for_operand(ppu, memory, debugger)? as u16;
        let high = self.read_byte_for_operand(ppu, memory, debugger)? as u16;
        Ok((high << 8) | low)
    }

    /// Resolves the operand for an addressing mode, advancing `pc` past
    /// the operand bytes. Only the address is computed here; the value at
    /// it is fetched separately, so stores observe no spurious read.
    #[verifier::rlimit(100)]
    pub fn fetch_operand(&mut self, ppu: &mut Ppu, memory: &mut Memory, addressing_mode: &AddressingMode, debugger: bool) -> (r: Result<Operand, EmuFault>)
        requires
            old(memory)@.wf(),
            old(ppu)@.wf(),
        ensures
            final(memory)@.wf(),
            final(ppu)@.wf(),
            final(memory)@.rom_header == old(memory)@.rom_header,
            debugger ==> final(memory)@ == old(memory)@ && final(ppu)@ == old(ppu)@ && ({
                let o = spec_fetch_operand_dbg(*old(self), old(memory)@, old(ppu)@, *addressing_mode);
                r == Ok::<Operand, EmuFault>(o.0) && *final(self) == o.1
            }),
            !debugger ==> (match spec_fetch_operand(*old(self), old(memory)@, old(ppu)@, *addressing_mode) {
                OperandOutcome::Resolved { operand, cpu, mem, ppu: p2 } => r == Ok::<Operand, EmuFault>(operand)
                    && *final(self) == cpu && final(memory)@ == mem && final(ppu)@ == p2,
                OperandOutcome::OperandFault { fault, cpu, mem, ppu: p2 } => r == Err::<Operand, EmuFault>(fault)
                    && *final(self) == cpu && final(memory)@ == mem && final(ppu)@ == p2,
            }),
    {
        match addressing_mode {
            AddressingMode::Implied => Ok(Operand { data: 0, additional_cycle: false }),

            AddressingMode::Accumulator => Ok(Operand { data: self.a as u16, additional_cycle: false }),

            AddressingMode::Immediate => {
                let data = self.read_byte_for_operand(ppu, memory, debugger)?;
                Ok(Operand { data: data as u16, additional_cycle: false })
            },

            AddressingMode::Absolute => {
                let address = self.read_word_for_operand(ppu, memory, debugger)?;
                Ok(Operand { data: address, additional_cycle: false })
            },

            AddressingMode::AbsoluteX => {
                let base_address = self.read_word_for_operand(ppu, memory, debugger)?;
                let address = base_address.wrapping_add(self.x as u16);
                Ok(Operand { data: address, additional_cycle: memory.pages_differ(base_address, address) })
            },

            AddressingMode::AbsoluteY => {
                let base_address = self.read_word_for_operand(ppu, memory, debugger)?;
                let address = base_address.wrapping_add(self.y as u16);
                Ok(Operand { data: address, additional_cycle: memory.pages_differ(base_address, address) })
            },

            AddressingMode::ZeroPage => {
                let address = self.read_byte_for_operand(ppu, memory, debugger)?;
                Ok(Operand { data: address as u16, additional_cycle: false })
            },

            AddressingMode::ZeroPageX => {
                let address = self.read_byte_for_operand(ppu, memory, debugger)?.wrapping_add(self.x);
                Ok(Operand { data: address as u16, additional_cycle: false })
            },

            AddressingMode::ZeroPageY => {
                let address = self.read_byte_for_operand(ppu, memory, debugger)?.wrapping_add(self.y);
                Ok(Operand { data: address as u16, additional_cycle: false })
            },

            AddressingMode::Relative => {
                let offset = self.read_byte_for_operand(ppu, memory, debugger)?;
                let address = if offset < 0x80 {
                    self.pc.wrapping_add(offset as u16)
                } else {
                    self.pc.wrapping_add(offset as u16).wrapping_sub(0x100)
                };
                Ok(Operand { data: address, additional_cycle: false })
            },

            AddressingMode::Indirect => {
                let original_address = self.read_word_for_operand(ppu, memory, debugger)?;
                let lower_byte = memory.read_byte(ppu, original_address, debugger)? as u16;
                let high_address: u16 = if original_address % 256 == 0xff {
                    (original_address / 256) * 256
                } else {
                    original_address + 1
                };
                let higher_byte = memory.read_byte(ppu, high_address, debugger)? as u16;
                Ok(Operand { data: (higher_byte << 8) | lower_byte, additional_cycle: false })
            },

            AddressingMode::IndirectX => {
                let address = self.read_byte_for_operand(ppu, memory, debugger)?.wrapping_add(self.x);
                let value = memory.read_word_from_first_page(ppu, address, debugger);
                Ok(Operand { data: value, additional_cycle: false })
            },

            AddressingMode::IndirectY => {
                let address = self.read_byte_for_operand(ppu, memory, debugger)?;
                let value = memory.read_word_from_first_page(ppu, address, debugger);
                let with_index = value.wrapping_add(self.y as u16);
                let page_crossed = memory.pages_differ(value, with_index);
                Ok(Operand { data: with_index, additional_cycle: page_crossed })
            },
        }
    }

    /// Fetches the argument at the resolved address, only when the
    /// operation actually uses the value there.
    fn fetch_args(&mut self, ppu: &mut Ppu, memory: &mut Memory, addressing_mode: &AddressingMode, operand_data: u16) -> (r: Result<u8, EmuFault>)
        requires
            old(memory)@.wf(),
            old(ppu)@.wf(),
        ensures
            final(memory)@.wf(),
            final(ppu)@.wf(),
            final(memory)@.rom_header == old(memory)@.rom_header,
            *final(self) == *old(self),
            match spec_fetch_args(old(memory)@, old(ppu)@, *addressing_mode, operand_data) {
                ByteOutcome::Got { value, mem, ppu: p2 } => r == Ok::<u8, EmuFault>(value)
                    && final(memory)@ == mem && final(ppu)@ == p2,
                ByteOutcome::ByteFault { fault } => r == Err::<u8, EmuFault>(fault)
                    && final(memory)@ == old(memory)@ && final(ppu)@ == old(ppu)@,
            },
    {
        match addressing_mode {
            AddressingMode::Implied => Ok(0),
            AddressingMode::Accumulator => Ok((operand_data % 256) as u8),
            AddressingMode::Immediate => Ok((operand_data % 256) as u8),
            _ => memory.read_byte(ppu, operand_data, false),
        }
    }

    /// Executes one instruction at `pc`: the exact step `spec_execute`
    /// describes, or the fault it names. BRK stops execution with a
    /// terminal report; an opcode slot no instruction fills is a decode
    /// anomaly; an access beside the map is a bus fault.
    #[verifier::rlimit(100)]
    pub fn execute(&mut self, ppu: &mut Ppu, memory: &mut Memory) -> (r: Result<(), EmuFault>)
        requires
            old(memory)@.wf(),
            old(ppu)@.wf(),
        ensures
            final(memory)@.wf(),
            final(ppu)@.wf(),
            final(memory)@.rom_header == old(memory)@.rom_header,
            match spec_execute(*old(self), old(memory)@, old(ppu)@) {
                StepResult::Step(ms) => r == Ok::<(), EmuFault>(()) && *final(self) == ms.cpu
                    && final(memory)@ == ms.mem && final(ppu)@ == ms.ppu,
                StepResult::Fault(fault, ms) => r == Err::<(), EmuFault>(fault) && *final(self) == ms.cpu
                    && final(memory)@ == ms.mem && final(ppu)@ == ms.ppu,
            },
    {
        let opcode = memory.read_byte(ppu, self.pc, false)?;
        let instruction = decode(opcode);
        let operation = instruction.operation;
        let addressing_mode = instruction.mode;
        let cycles_base = instruction.base_cycles;
        self.pc = self.pc.wrapping_add(1);

        let operand = self.fetch_operand(ppu, memory, &addressing_mode, false)?;
        let argument = if operation_requires_fetched_argument(&operation) {
            self.fetch_args(ppu, memory, &addressing_mode, operand.data)?
        } else {
            0
        };

        let has_extra_cycles = match operation {
            Operation::ADC => {
                let value = self.a as u16 + argument as u16 + (self.flags & FLAG_CARRY) as u16;
                self.set_carry_flag(value > 255);
                self.set_zero_flag((value % 256) as u8);
                self.set_overflow_flag(
                    ((!(self.a as u16 ^ argument as u16)) & (self.a as u16 ^ value)) & 0x80 != 0);
                self.set_negative_flag((value % 256) as u8);
                self.a = (value % 256) as u8;
                true
            },

            Operation::SBC => {
                let value = (argument ^ 0xff) as u16;
                let temp = self.a as u16 + value + (self.flags & FLAG_CARRY) as u16;
                self.set_carry_flag(temp > 255);
                self.set_zero_flag((temp % 256) as u8);
                self.set_overflow_flag(((temp ^ self.a as u16) & (temp ^ value)) & 0x80 != 0);
                self.set_negative_flag((temp % 256) as u8);
                self.a = (temp % 256) as u8;
                true
            },

            Operation::AND => {
                self.a = self.a & argument;
                self.set_zero_flag(self.a);
                self.set_negative_flag(self.a);
                true
            },
            Operation::EOR => {
                self.a = self.a ^ argument;
                self.set_zero_flag(self.a);
                self.set_negative_flag(self.a);
                true
            },
            Operation::ORA => {
                self.a = self.a | argument;
                self.set_zero_flag(self.a);
                self.set_negative_flag(self.a);
                true
            },

            Operation::ASL => {
                let result = argument << 1;
                self.set_zero_flag(result);
                self.set_negative_flag(result);
                self.set_carry_flag(argument & 0x80 != 0);
                if addressing_mode == AddressingMode::Accumulator {
                    self.a = result;
                } else {
                    memory.write_byte(ppu, operand.data, result)?;
                }
                false
            },

            Operation::LSR => {
                let result = argument >> 1;
                self.set_zero_flag(result);
                self.flags = flag_set(self.flags, FLAG_NEGATIVE, false);
                self.set_carry_flag(argument & 1 != 0);
                if addressing_mode == AddressingMode::Accumulator {
                    self.a = result;
                } else {
                    memory.write_byte(ppu, operand.data, result)?;
                }
                false
            },

            Operation::ROL => {
                let result = (argument << 1) | (self.flags & FLAG_CARRY);
                self.set_zero_flag(result);
                self.set_negative_flag(result);
                self.set_carry_flag(argument & 0x80 != 0);
                if addressing_mode == AddressingMode::Accumulator {
                    self.a = result;
                } else {
                    memory.write_byte(ppu, operand.data, result)?;
                }
                false
            },

            Operation::ROR => {
                // The previous carry rotates into bit 7 and becomes the
                // new Negative flag.
                let carry_in = self.flags & FLAG_CARRY != 0;
                let result = (argument >> 1) | (if carry_in { 0x80 } else { 0 });
                self.set_zero_flag(result);
                self.flags = flag_set(self.flags, FLAG_NEGATIVE, carry_in);
                self.set_carry_flag(argument & 1 != 0);
                if addressing_mode == AddressingMode::Accumulator {
                    self.a = result;
                } else {
                    memory.write_byte(ppu, operand.data, result)?;
                }
                false
            },

            Operation::INC => {
                let result = argument.wrapping_add(1);
                self.set_zero_flag(result);
                self.set_negative_flag(result);
                memory.write_byte(ppu, operand.data, result)?;
                false
            },
            Operation::DEC => {
                let result = argument.wrapping_sub(1);
                self.set_zero_flag(result);
                self.set_negative_flag(result);
                memory.write_byte(ppu, operand.data, result)?;
                false
            },

            Operation::INX => {
                let result = self.x.wrapping_add(1);
                self.set_zero_flag(result);
                self.set_negative_flag(result);
                self.x = result;
                false
            },
            Operation::INY => {
                let result = self.y.wrapping_add(1);
                self.set_zero_flag(result);
                self.set_negative_flag(result);
                self.y = result;
                false
            },
            Operation::DEX => {
                let result = self.x.wrapping_sub(1);
                self.set_zero_flag(result);
                self.set_negative_flag(result);
                self.x = result;
                false
            },
            Operation::DEY => {
                let result = self.y.wrapping_sub(1);
                self.set_zero_flag(result);
                self.set_negative_flag(result);
                self.y = result;
                false
            },

            Operation::LDA => {
                self.a = argument;
                self.set_negative_flag(self.a);
                self.set_zero_flag(self.a);
                true
            },
            Operation::LDX => {
                self.x = argument;
                self.set_negative_flag(self.x);
                self.set_zero_flag(self.x);
                true
            },
            Operation::LDY => {
                self.y = argument;
                self.set_negative_flag(self.y);
                self.set_zero_flag(self.y);
                true
            },

            Operation::STA => {
                memory.write_byte(ppu, operand.data, self.a)?;
                false
            },
            Operation::STX => {
                memory.write_byte(ppu, operand.data, self.x)?;
                false
            },
            Operation::STY => {
                memory.write_byte(ppu, operand.data, self.y)?;
                false
            },

            Operation::SEC => { self.flags = flag_set(self.flags, FLAG_CARRY, true); false },
            Operation::SED => { self.flags = flag_set(self.flags, FLAG_DECIMAL, true); false },
            Operation::SEI => { self.flags = flag_set(self.flags, FLAG_DISABLE_INTERRUPTS, true); false },
            Operation::CLC => { self.flags = flag_set(self.flags, FLAG_CARRY, false); false },
            Operation::CLD => { self.flags = flag_set(self.flags, FLAG_DECIMAL, false); false },
            Operation::CLI => { self.flags = flag_set(self.flags, FLAG_DISABLE_INTERRUPTS, false); false },
            Operation::CLV => { self.flags = flag_set(self.flags, FLAG_OVERFLOW, false); false },

            Operation::CMP => { let a = self.a; self.compare(a, argument) },
            Operation::CPX => { let x = self.x; self.compare(x, argument) },
            Operation::CPY => { let y = self.y; self.compare(y, argument) },

            Operation::JMP => {
                self.pc = operand.data;
                false
            },

            Operation::JSR => {
                // Push the address of the last operand byte; RTS adds one
                // when returning.
                self.pc = self.pc.wrapping_sub(1);
                self.push(ppu, memory, (self.pc / 256) as u8);
                self.push(ppu, memory, (self.pc % 256) as u8);
                self.pc = operand.data;
                false
            },

            Operation::RTI => {
                self.flags = self.pop(ppu, memory);
                let low = self.pop(ppu, memory) as u16;
                let high = self.pop(ppu, memory) as u16;
                self.pc = low | (high << 8);
                false
            },

            Operation::RTS => {
                let low = self.pop(ppu, memory) as u16;
                let high = self.pop(ppu, memory) as u16;
                self.pc = (low | (high << 8)).wrapping_add(1);
                false
            },

            Operation::BCC => { let c = self.flags & FLAG_CARRY == 0; self.branch(memory, operand.data, c) },
            Operation::BCS => { let c = self.flags & FLAG_CARRY != 0; self.branch(memory, operand.data, c) },
            Operation::BEQ => { let c = self.flags & FLAG_ZERO != 0; self.branch(memory, operand.data, c) },
            Operation::BMI => { let c = self.flags & FLAG_NEGATIVE != 0; self.branch(memory, operand.data, c) },
            Operation::BNE => { let c = self.flags & FLAG_ZERO == 0; self.branch(memory, operand.data, c) },
            Operation::BPL => { let c = self.flags & FLAG_NEGATIVE == 0; self.branch(memory, operand.data, c) },
            Operation::BVC => { let c = self.flags & FLAG_OVERFLOW == 0; self.branch(memory, operand.data, c) },
            Operation::BVS => { let c = self.flags & FLAG_OVERFLOW != 0; self.branch(memory, operand.data, c) },

            Operation::PHA => {
                let a = self.a;
                self.push(ppu, memory, a);
                false
            },

            Operation::PHP => {
                // The pushed byte carries B and U set; the live flags keep
                // their values.
                let pushed = self.flags | FLAG_B | FLAG_U;
                self.push(ppu, memory, pushed);
                false
            },

            Operation::PLA => {
                self.a = self.pop(ppu, memory);
                self.set_zero_flag(self.a);
                self.set_negative_flag(self.a);
                false
            },

            Operation::PLP => {
                self.flags = self.pop(ppu, memory);
                false
            },

            Operation::TAX => { self.x = self.transfer_from_accumulator(); false },
            Operation::TAY => { self.y = self.transfer_from_accumulator(); false },
            Operation::TSX => { let sp = self.sp; self.x = self.transfer_to_register(sp); false },
            Operation::TXA => { let x = self.x; self.a = self.transfer_to_register(x); false },
            Operation::TYA => { let y = self.y; self.a = self.transfer_to_register(y); false },
            Operation::TXS => { self.sp = self.x; false },

            Operation::BIT => {
                let result = self.a & argument;
                self.set_zero_flag(result);
                self.set_overflow_flag(argument & 0x40 != 0);
                self.set_negative_flag(argument);
                false
            },

            Operation::NOP => { false },

            Operation::LAX => {
                // LDA and TAX fused; immediate addressing never decodes
                // to it.
                self.set_zero_flag(argument);
                self.set_negative_flag(argument);
                self.a = argument;
                self.x = argument;
                true
            },

            Operation::SAX => {
                memory.write_byte(ppu, operand.data, self.a & self.x)?;
                false
            },

            Operation::IGN => { true },
            Operation::SKB => { false },

            Operation::DCP => {
                // DEC then CMP.
                let dec_value = argument.wrapping_sub(1);
                let cmp_value = self.a.wrapping_sub(dec_value);
                self.set_carry_flag(self.a >= dec_value);
                self.set_zero_flag(cmp_value);
                self.set_negative_flag(cmp_value);
                memory.write_byte(ppu, operand.data, dec_value)?;
                false
            },

            Operation::ISC => {
                // INC then SBC.
                let inc_value = argument.wrapping_add(1);
                let v1 = self.a.wrapping_sub(inc_value);
                let b1 = self.a < inc_value;
                let borrow: u8 = if self.flags & FLAG_CARRY != 0 { 0 } else { 1 };
                let v2 = v1.wrapping_sub(borrow);
                let b2 = v1 < borrow;
                self.set_carry_flag(!(b1 || b2));
                self.set_zero_flag(v2);
                self.set_negative_flag(v2);
                self.set_overflow_flag(
                    ((self.a ^ inc_value) & 0x80 == 0x80) && ((self.a ^ v2) & 0x80 == 0x80));
                self.a = v2;
                memory.write_byte(ppu, operand.data, inc_value)?;
                false
            },

            Operation::RLA => {
                // ROL then AND.
                let rol_value = (argument << 1) | (self.flags & FLAG_CARRY);
                self.set_carry_flag(argument & 0x80 != 0);
                let and_value = self.a & rol_value;
                self.set_zero_flag(and_value);
                self.set_negative_flag(and_value);
                self.a = and_value;
                memory.write_byte(ppu, operand.data, rol_value)?;
                false
            },

            Operation::RRA => {
                // ROR then ADC; the ADC sees the carry the ROR just set.
                let carry_in = self.flags & FLAG_CARRY != 0;
                let ror_value = (argument >> 1) | (if carry_in { 0x80 } else { 0 });
                self.set_carry_flag(argument & 1 == 1);
                let adc_value = self.a as u16 + ror_value as u16 + (self.flags & FLAG_CARRY) as u16;
                self.set_carry_flag(adc_value > 255);
                self.set_zero_flag((adc_value % 256) as u8);
                self.set_overflow_flag(
                    ((self.a as u16 ^ adc_value) & (ror_value as u16 ^ adc_value)) & 0x80 == 0x80);
                self.set_negative_flag((adc_value % 256) as u8);
                self.a = (adc_value % 256) as u8;
                memory.write_byte(ppu, operand.data, ror_value)?;
                false
            },

            Operation::SLO => {
                // ASL then ORA.
                let asl_value = argument << 1;
                self.set_carry_flag(argument & 0x80 != 0);
                let ora_value = self.a | asl_value;
                self.set_zero_flag(ora_value);
                self.set_negative_flag(ora_value);
                self.a = ora_value;
                memory.write_byte(ppu, operand.data, asl_value)?;
                false
            },

            Operation::SRE => {
                // LSR then EOR.
                let lsr_value = argument >> 1;
                self.set_carry_flag(argument & 1 == 1);
                let eor_value = self.a ^ lsr_value;
                self.set_zero_flag(eor_value);
                self.set_negative_flag(eor_value);
                self.a = eor_value;
                memory.write_byte(ppu, operand.data, lsr_value)?;
                false
            },

            Operation::BRK => {
                return Err(EmuFault::Brk);
            },

            _ => {
                return Err(EmuFault::DecodeAnomaly { opcode });
            },
        };

        if operand.additional_cycle && has_extra_cycles {
            self.cycles = self.cycles.wrapping_add(1);
        }
        self.cycles = self.cycles.wrapping_add(cycles_base as u32);
        Ok(())
    }
}


/// The machine registers always sit in their hardware ranges: the
/// program counter below 0x10000, the stack pointer within a byte, the
/// cycle countdown never negative — after any instruction, because after
/// any value of the state at all.
pub proof fn lemma_register_ranges(cpu: Cpu)
    ensures
        0 <= cpu.pc < 0x10000,
        0 <= cpu.sp <= 0xff,
        cpu.cycles >= 0,
{
}

/// Every flags byte pushed to the stack carries U set: PHP forces B and
/// U into the pushed byte, and NMI entry pushes the flags with B clear
/// and U set.
pub proof fn lemma_pushed_flags_carry_u(cpu: Cpu, m: MemSnap, p: PpuSnap)
    requires
        m.wf(),
    ensures
        (cpu.flags | FLAG_B | FLAG_U) & FLAG_U != 0,
        ({
            let s = spec_nmi(cpu, m, p);
            s.1.ram[0x100 + cpu.sp.wrapping_sub(2) as int] & FLAG_U != 0
        }),
{
    let f = cpu.flags;
    assert((f | FLAG_B | FLAG_U) & FLAG_U != 0) by (bit_vector);
    assert((((f & !FLAG_B) | FLAG_U) | FLAG_DISABLE_INTERRUPTS) & FLAG_U != 0) by (bit_vector);
}

/// PUSH then POP of any value hands the byte back and restores the
/// stack pointer.
pub proof fn lemma_push_pop_roundtrip(cpu: Cpu, m: MemSnap, p: PpuSnap, value: u8)
    requires
        m.wf(),
    ensures
        ({
            let s = spec_push(cpu, m, p, value);
            let t = spec_pop(s.0, s.1, s.2);
            t.0 == value && t.1.sp == cpu.sp
        }),
{
    let sp = cpu.sp;
    assert(sp.wrapping_sub(1).wrapping_add(1) == sp) by (bit_vector);
}

/// PHA then PLA restores the accumulator; only Zero and Negative move.
pub proof fn lemma_pha_pla_preserves_a(cpu: Cpu, m: MemSnap, p: PpuSnap)
    requires
        m.wf(),
    ensures
        ({
            let s = spec_push(cpu, m, p, cpu.a);
            let t = spec_pop(s.0, s.1, s.2);
            let after = Cpu { a: t.0, flags: spec_set_zn(t.1.flags, t.0), ..t.1 };
            after.a == cpu.a && after.sp == cpu.sp && after.pc == cpu.pc
                && after.x == cpu.x && after.y == cpu.y
        }),
{
    lemma_push_pop_roundtrip(cpu, m, p, cpu.a);
}

/// PHP then PLP preserves every flag bit outside B and U.
pub proof fn lemma_php_plp_preserves_flags(cpu: Cpu, m: MemSnap, p: PpuSnap)
    requires
        m.wf(),
    ensures
        ({
            let s = spec_push(cpu, m, p, cpu.flags | FLAG_B | FLAG_U);
            let t = spec_pop(s.0, s.1, s.2);
            t.0 & !(FLAG_B | FLAG_U) == cpu.flags & !(FLAG_B | FLAG_U)
        }),
{
    lemma_push_pop_roundtrip(cpu, m, p, cpu.flags | FLAG_B | FLAG_U);
    let f = cpu.flags;
    assert((f | FLAG_B | FLAG_U) & !(FLAG_B | FLAG_U) == f & !(FLAG_B | FLAG_U)) by (bit_vector);
}


/// PHP, as the instruction step applies it, writes `flags | B | U` to
/// the stack: the pushed byte always carries U, while the live flags
/// keep their values.
pub proof fn lemma_php_apply_pushes_u(opcode: u8, instr: Instruction, operand: Operand, argument: u8, cpu: Cpu, m: MemSnap, p: PpuSnap)
    requires
        m.wf(),
        instr.operation == Operation::PHP,
    ensures
        spec_apply(opcode, instr, operand, argument, cpu, m, p) matches StepResult::Step(ms)
            && ms.mem.ram == m.ram.update(0x100 + cpu.sp as int, cpu.flags | FLAG_B | FLAG_U)
            && ms.mem.ram[0x100 + cpu.sp as int] & FLAG_U != 0
            && ms.cpu.flags == cpu.flags
            && ms.cpu.sp == cpu.sp.wrapping_sub(1),
{
    let f = cpu.flags;
    assert((f | FLAG_B | FLAG_U) & FLAG_U != 0) by (bit_vector);
}

/// PHA then PLA, as the instruction step applies them, restores the
/// accumulator and the stack pointer; only Zero and Negative move.
pub proof fn lemma_pha_then_pla(op1: u8, op2: u8, instr1: Instruction, instr2: Instruction, operand1: Operand, operand2: Operand, arg1: u8, arg2: u8, cpu: Cpu, m: MemSnap, p: PpuSnap)
    requires
        m.wf(),
        instr1.operation == Operation::PHA,
        instr2.operation == Operation::PLA,
    ensures
        spec_apply(op1, instr1, operand1, arg1, cpu, m, p) matches StepResult::Step(ms1)
            && (spec_apply(op2, instr2, operand2, arg2, ms1.cpu, ms1.mem, ms1.ppu)
                matches StepResult::Step(ms2)
                && ms2.cpu.a == cpu.a
                && ms2.cpu.sp == cpu.sp
                && ms2.cpu.x == cpu.x
                && ms2.cpu.y == cpu.y
                && ms2.cpu.pc == cpu.pc
                && ms2.cpu.flags == spec_set_zn(cpu.flags, cpu.a)),
{
    lemma_push_pop_roundtrip(cpu, m, p, cpu.a);
}

/// PHP then PLP, as the instruction step applies them, preserves every
/// flag bit outside B and U and restores the other registers.
pub proof fn lemma_php_then_plp(op1: u8, op2: u8, instr1: Instruction, instr2: Instruction, operand1: Operand, operand2: Operand, arg1: u8, arg2: u8, cpu: Cpu, m: MemSnap, p: PpuSnap)
    requires
        m.wf(),
        instr1.operation == Operation::PHP,
        instr2.operation == Operation::PLP,
    ensures
        spec_apply(op1, instr1, operand1, arg1, cpu, m, p) matches StepResult::Step(ms1)
            && (spec_apply(op2, instr2, operand2, arg2, ms1.cpu, ms1.mem, ms1.ppu)
                matches StepResult::Step(ms2)
                && ms2.cpu.flags & !(FLAG_B | FLAG_U) == cpu.flags & !(FLAG_B | FLAG_U)
                && ms2.cpu.a == cpu.a
                && ms2.cpu.x == cpu.x
                && ms2.cpu.y == cpu.y
                && ms2.cpu.sp == cpu.sp
                && ms2.cpu.pc == cpu.pc),
{
    lemma_push_pop_roundtrip(cpu, m, p, cpu.flags | FLAG_B | FLAG_U);
    let f = cpu.flags;
    assert((f | FLAG_B | FLAG_U) & !(FLAG_B | FLAG_U) == f & !(FLAG_B | FLAG_U)) by (bit_vector);
}

/// ASL then LSR of the same RAM cell, as the instruction step applies
/// them, restores the low seven bits, and the ASL leaves Carry holding
/// the original bit 7. On a device register the written byte is not
/// simply read back, so the law speaks of plain RAM.
pub proof fn lemma_asl_then_lsr(op1: u8, op2: u8, instr1: Instruction, instr2: Instruction, operand: Operand, b: u8, cpu: Cpu, m: MemSnap, p: PpuSnap)
    requires
        m.wf(),
        instr1.operation == Operation::ASL,
        instr1.mode != AddressingMode::Accumulator,
        instr2.operation == Operation::LSR,
        instr2.mode != AddressingMode::Accumulator,
        operand.data <= 0x1fff,
    ensures
        spec_apply(op1, instr1, operand, b, cpu, m, p) matches StepResult::Step(ms1)
            && (ms1.cpu.flags & FLAG_CARRY != 0) == (b & 0x80 != 0)
            && spec_bus_read(ms1.mem, ms1.ppu, operand.data).0 == (b << 1)
            && (spec_apply(op2, instr2, operand, b << 1, ms1.cpu, ms1.mem, ms1.ppu)
                matches StepResult::Step(ms2)
                && spec_bus_read(ms2.mem, ms2.ppu, operand.data).0 == (b & 0x7f)),
{
    let g = spec_set_zn(cpu.flags, (b << 1) as u8);
    assert(((g | FLAG_CARRY) & FLAG_CARRY != 0) && ((g & !FLAG_CARRY) & FLAG_CARRY == 0)) by (bit_vector);
    assert((b << 1) >> 1 == b & 0x7f) by (bit_vector);
}

/// SBC is exactly ADC of the complemented argument: the instruction step
/// gives the same machine for `SBC arg` and for `ADC (arg XOR 0xFF)`,
/// and complementing twice is the identity.
pub proof fn lemma_sbc_is_adc_of_complement(opcode: u8, instr1: Instruction, instr2: Instruction, operand: Operand, argument: u8, cpu: Cpu, m: MemSnap, p: PpuSnap)
    requires
        instr1.operation == Operation::SBC,
        instr2.operation == Operation::ADC,
    ensures
        argument ^ 0xff ^ 0xff == argument,
        spec_apply(opcode, instr1, operand, argument, cpu, m, p)
            == spec_apply(opcode, instr2, operand, argument ^ 0xff, cpu, m, p),
{
    assert(argument ^ 0xff ^ 0xff == argument) by (bit_vector);
    let aa = cpu.a as u16;
    let vv = (argument ^ 0xff) as u16;
    let t = (cpu.a + (argument ^ 0xff) + (cpu.flags & FLAG_CARRY)) as u16;
    assert((((t ^ aa) & (t ^ vv)) & 0x80 != 0) == (((!(aa ^ vv)) & (aa ^ t)) & 0x80 != 0))
        by (bit_vector);
}

/// ASL then LSR of the same byte restores the low seven bits, and ASL
/// leaves Carry holding the original bit 7.
pub proof fn lemma_asl_lsr_roundtrip(value: u8)
    ensures
        (value << 1) >> 1 == value & 0x7f,
        ((value & 0x80) != 0) == (value >= 0x80),
{
    assert((value << 1) >> 1 == value & 0x7f && (((value & 0x80) != 0) == (value >= 0x80)))
        by (bit_vector);
}

/// XOR with 0xFF twice is the identity: subtraction really does run
/// through the adder on a complemented argument.
pub proof fn lemma_sbc_as_adc(b: u8)
    ensures
        b ^ 0xff ^ 0xff == b,
{
    assert(b ^ 0xff ^ 0xff == b) by (bit_vector);
}

} // verus!
