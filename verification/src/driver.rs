//! The frame driver: the fixed outer loop that steps the PPU every master
//! cycle and the CPU once per three, freezes the CPU while OAM DMA copies
//! a page into sprite memory, and delivers the NMI between instructions.

use vstd::prelude::*;
use crate::cpu::{Cpu, MachineSnap, StepResult, spec_execute, spec_nmi};
use crate::fault::EmuFault;
use crate::memory::{Memory, MemSnap, spec_bus_read, spec_cpu_addr_mapped};
use crate::ppu::{Ppu, PpuSnap, spec_ppu_tick};

verus! {

/// Master cycles in one frame: a third of a scanline's dots, times the
/// frame's scanlines plus the pre-render line.
pub const CYCLES_PER_FRAME: usize = (341 / 3) * (262 + 1);

/// One master cycle of the machine: the PPU ticks; on every third cycle
/// either the OAM DMA engine moves (a one-slot sync wait, then a byte
/// read from `(page << 8) | address` on even slots and a byte written
/// into sprite memory on odd slots, the engine re-arming when the
/// address wraps back to zero), or the CPU pays one cycle credit and
/// executes the next instruction when the credit hits zero; finally a
/// pending NMI is consumed: the flag clears and the CPU enters its NMI
/// handler. A fault carries the machine state it interrupted.
pub open spec fn spec_master_cycle(cpu: Cpu, m: MemSnap, p: PpuSnap, i: int) -> StepResult {
    let p1 = spec_ppu_tick(p, m);
    let mid: StepResult = if i % 3 == 0 {
        if m.dma_happening {
            if m.dma_waiting_for_sync {
                if i % 2 == 1 {
                    StepResult::Step(MachineSnap {
                        cpu,
                        mem: MemSnap { dma_waiting_for_sync: false, ..m },
                        ppu: p1,
                    })
                } else {
                    StepResult::Step(MachineSnap { cpu, mem: m, ppu: p1 })
                }
            } else if i % 2 == 0 {
                let address = ((m.dma_page as u16) << 8) | (m.dma_address as u16);
                if !spec_cpu_addr_mapped(address) {
                    StepResult::Fault((EmuFault::BusMap { address }), MachineSnap { cpu, mem: m, ppu: p1 })
                } else {
                    let v = spec_bus_read(m, p1, address);
                    StepResult::Step(MachineSnap {
                        cpu,
                        mem: MemSnap { dma_data: v.0, ..v.1 },
                        ppu: v.2,
                    })
                }
            } else {
                let next = m.dma_address.wrapping_add(1);
                let m2 = if next == 0 {
                    MemSnap { dma_address: next, dma_happening: false, dma_waiting_for_sync: true, ..m }
                } else {
                    MemSnap { dma_address: next, ..m }
                };
                StepResult::Step(MachineSnap {
                    cpu,
                    mem: m2,
                    ppu: PpuSnap {
                        object_attribute_memory: p1.object_attribute_memory.update(m.dma_address as int, m.dma_data),
                        ..p1
                    },
                })
            }
        } else {
            if cpu.cycles == 0 {
                match spec_execute(cpu, m, p1) {
                    StepResult::Fault(fault, ms) => StepResult::Fault(fault, ms),
                    StepResult::Step(ms) => StepResult::Step(MachineSnap {
                        cpu: Cpu { cycles: ms.cpu.cycles.wrapping_sub(1), ..ms.cpu },
                        ..ms
                    }),
                }
            } else {
                StepResult::Step(MachineSnap {
                    cpu: Cpu { cycles: cpu.cycles.wrapping_sub(1), ..cpu },
                    mem: m,
                    ppu: p1,
                })
            }
        }
    } else {
        StepResult::Step(MachineSnap { cpu, mem: m, ppu: p1 })
    };
    match mid {
        StepResult::Fault(fault, ms) => StepResult::Fault(fault, ms),
        StepResult::Step(ms) => {
            if ms.ppu.due_non_maskable_interrupt {
                let s = spec_nmi(ms.cpu, ms.mem, (PpuSnap { due_non_maskable_interrupt: false, ..ms.ppu }));
                StepResult::Step(MachineSnap { cpu: s.0, mem: s.1, ppu: s.2 })
            } else {
                StepResult::Step(ms)
            }
        },
    }
}

/// The master cycles from `i` to `n` folded in order; the first fault
/// stops the frame where it stands.
pub open spec fn spec_frame(cpu: Cpu, m: MemSnap, p: PpuSnap, i: int, n: int) -> StepResult
    decreases n - i,
{
    if i >= n {
        StepResult::Step(MachineSnap { cpu, mem: m, ppu: p })
    } else {
        match spec_master_cycle(cpu, m, p, i) {
            StepResult::Fault(fault, ms) => StepResult::Fault(fault, ms),
            StepResult::Step(ms) => spec_frame(ms.cpu, ms.mem, ms.ppu, i + 1, n),
        }
    }
}

/// Runs one frame: exactly `spec_frame` over all master cycles. The
/// first fault stops the frame and is handed back with the machine left
/// where the fault found it.
pub fn on_emulation_cycle(cpu: &mut Cpu, ppu: &mut Ppu, memory: &mut Memory) -> (r: Result<(), EmuFault>)
    requires
        old(memory)@.wf(),
        old(ppu)@.wf(),
    ensures
        final(memory)@.wf(),
        final(ppu)@.wf(),
        final(memory)@.rom_header == old(memory)@.rom_header,
        match spec_frame(*old(cpu), old(memory)@, old(ppu)@, 0, CYCLES_PER_FRAME as int) {
            StepResult::Step(ms) => r == Ok::<(), EmuFault>(()) && *final(cpu) == ms.cpu
                && final(memory)@ == ms.mem && final(ppu)@ == ms.ppu,
            StepResult::Fault(fault, ms) => r == Err::<(), EmuFault>(fault) && *final(cpu) == ms.cpu
                && final(memory)@ == ms.mem && final(ppu)@ == ms.ppu,
        },
{
    let mut i: usize = 0;
    while i < CYCLES_PER_FRAME
        invariant
            memory@.wf(),
            ppu@.wf(),
            memory@.rom_header == old(memory)@.rom_header,
            i <= CYCLES_PER_FRAME,
            spec_frame(*old(cpu), old(memory)@, old(ppu)@, 0, CYCLES_PER_FRAME as int)
                == spec_frame(*cpu, memory@, ppu@, i as int, CYCLES_PER_FRAME as int),
        decreases CYCLES_PER_FRAME - i,
    {
        master_cycle(cpu, ppu, memory, i)?;
        i = i + 1;
    }
    Ok(())
}

/// One master cycle, executed: the step `spec_master_cycle` describes.
#[verifier::rlimit(100)]
fn master_cycle(cpu: &mut Cpu, ppu: &mut Ppu, memory: &mut Memory, i: usize) -> (r: Result<(), EmuFault>)
    requires
        old(memory)@.wf(),
        old(ppu)@.wf(),
    ensures
        final(memory)@.wf(),
        final(ppu)@.wf(),
        final(memory)@.rom_header == old(memory)@.rom_header,
        match spec_master_cycle(*old(cpu), old(memory)@, old(ppu)@, i as int) {
            StepResult::Step(ms) => r == Ok::<(), EmuFault>(()) && *final(cpu) == ms.cpu
                && final(memory)@ == ms.mem && final(ppu)@ == ms.ppu,
            StepResult::Fault(fault, ms) => r == Err::<(), EmuFault>(fault) && *final(cpu) == ms.cpu
                && final(memory)@ == ms.mem && final(ppu)@ == ms.ppu,
        },
{
    ppu.execute(memory);

    if i % 3 == 0 {
        if memory.dma_happening {
            // The DMA circuitry aligns with the CPU clock first.
            if memory.dma_waiting_for_sync {
                if i % 2 == 1 {
                    memory.dma_waiting_for_sync = false;
                }
            } else {
                if i % 2 == 0 {
                    let address = ((memory.dma_page as u16) << 8) | (memory.dma_address as u16);
                    memory.dma_data = memory.read_byte(ppu, address, false)?;
                } else {
                    let index = memory.dma_address as usize;
                    ppu.object_attribute_memory[index] = memory.dma_data;
                    memory.dma_address = memory.dma_address.wrapping_add(1);
                    // Wrapping back to zero means the whole page went
                    // across; the engine re-arms for the next transfer.
                    if memory.dma_address == 0 {
                        memory.dma_happening = false;
                        memory.dma_waiting_for_sync = true;
                    }
                }
            }
        } else {
            if cpu.cycles == 0 {
                cpu.execute(ppu, memory)?;
            }
            cpu.cycles = cpu.cycles.wrapping_sub(1);
        }
    }

    if ppu.due_non_maskable_interrupt {
        ppu.due_non_maskable_interrupt = false;
        cpu.on_non_maskable_interrupt(ppu, memory);
    }

    Ok(())
}

} // verus!
