//! The core together with its memory, and how an executed instruction can fail.
use crate::cpu::{Cpu, CpuModel};
use crate::memory::{MemModel, Memory};
use vstd::prelude::*;

verus! {

/// Why an instruction was not carried out. Each carries the instruction word.
#[derive(Clone, Copy, Debug, PartialEq, Eq, Structural)]
pub enum ExecError {
    /// A coprocessor instruction, a reserved encoding or an architecturally
    /// undefined bit pattern.
    UndefinedInstruction(u32),
    /// An encoding whose architectural result is not specified.
    Unpredictable(u32),
    /// A faulting memory access; kept for a memory protection unit, and
    /// never raised on this target, whose bus does not fault.
    MemoryFault(u32),
}

/// The machine state as a mathematical value.
pub struct EmuModel {
    pub cpu: CpuModel,
    pub mem: MemModel,
}

impl EmuModel {
    pub open spec fn wf(self) -> bool {
        self.cpu.wf() && self.mem.wf()
    }

    pub open spec fn with_cpu(self, cpu: CpuModel) -> EmuModel {
        EmuModel { cpu, ..self }
    }

    pub open spec fn with_mem(self, mem: MemModel) -> EmuModel {
        EmuModel { mem, ..self }
    }
}

/// Whether an executor's result `r` and the state `after` it left are those
/// that `expected` (next state, error if any) describes; a success reports
/// at least one cycle.
pub open spec fn step_matches(
    r: Result<u32, ExecError>,
    after: EmuModel,
    expected: (EmuModel, Option<ExecError>),
) -> bool {
    &&& after == expected.0
    &&& match r {
        Ok(cycles) => expected.1.is_none() && cycles >= 1,
        Err(e) => expected.1 == Some(e),
    }
}

/// The processor core with the memory it executes against.
pub struct Emulator {
    pub cpu: Cpu,
    pub memory: Memory,
}

impl View for Emulator {
    type V = EmuModel;

    open spec fn view(&self) -> EmuModel {
        EmuModel { cpu: self.cpu@, mem: self.memory@ }
    }
}

impl Emulator {
    pub open spec fn wf(&self) -> bool {
        self@.wf()
    }

    /// A core in its reset state with zeroed memory.
    pub fn new() -> (r: Emulator)
        ensures
            r@ == (EmuModel { cpu: CpuModel::reset(), mem: MemModel::zeroed() }),
            r.wf(),
    {
        Emulator { cpu: Cpu::new(), memory: Memory::new() }
    }

    /// A fresh core for experiments; the same as `new`.
    pub fn dummy() -> (r: Emulator)
        ensures
            r@ == (EmuModel { cpu: CpuModel::reset(), mem: MemModel::zeroed() }),
            r.wf(),
    {
        Emulator::new()
    }
}

} // verus!
