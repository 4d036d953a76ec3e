//! The banked register file: physical register slots, CPSR and SPSRs, and
//! the routing of logical registers through the current processor mode.
use crate::utils::{bit, bit_of};
use vstd::prelude::*;

verus! {

/// The mode field of the CPSR for each processor mode.
pub const MODE_USR: u32 = 0x10;

pub const MODE_FIQ: u32 = 0x11;

pub const MODE_IRQ: u32 = 0x12;

pub const MODE_SVC: u32 = 0x13;

pub const MODE_ABT: u32 = 0x17;

pub const MODE_UND: u32 = 0x1b;

pub const MODE_SYS: u32 = 0x1f;

/// Number of physical general-purpose register slots across all banks.
pub const SLOT_COUNT: usize = 31;

/// Number of saved program status registers (one per exception mode).
pub const SPSR_COUNT: usize = 5;

/// The CPSR after reset: supervisor mode, IRQ and FIQ disabled, ARM state.
pub const RESET_CPSR: u32 = 0xD3;

#[allow(non_camel_case_types)]
#[derive(Clone, Copy, Debug, PartialEq, Eq, Structural)]
pub enum RegisterNames {
    r0,
    r1,
    r2,
    r3,
    r4,
    r5,
    r6,
    r7,
    r8,
    r9,
    r10,
    r11,
    r12,
    r13,
    r14,
    r15,
    cpsr,
    spsr,
}

impl RegisterNames {
    /// The general register number, or 16 for CPSR and 17 for SPSR.
    pub open spec fn index_spec(self) -> u32 {
        match self {
            RegisterNames::r0 => 0,
            RegisterNames::r1 => 1,
            RegisterNames::r2 => 2,
            RegisterNames::r3 => 3,
            RegisterNames::r4 => 4,
            RegisterNames::r5 => 5,
            RegisterNames::r6 => 6,
            RegisterNames::r7 => 7,
            RegisterNames::r8 => 8,
            RegisterNames::r9 => 9,
            RegisterNames::r10 => 10,
            RegisterNames::r11 => 11,
            RegisterNames::r12 => 12,
            RegisterNames::r13 => 13,
            RegisterNames::r14 => 14,
            RegisterNames::r15 => 15,
            RegisterNames::cpsr => 16,
            RegisterNames::spsr => 17,
        }
    }

    pub fn index(self) -> (r: u32)
        ensures
            r == self.index_spec(),
    {
        match self {
            RegisterNames::r0 => 0,
            RegisterNames::r1 => 1,
            RegisterNames::r2 => 2,
            RegisterNames::r3 => 3,
            RegisterNames::r4 => 4,
            RegisterNames::r5 => 5,
            RegisterNames::r6 => 6,
            RegisterNames::r7 => 7,
            RegisterNames::r8 => 8,
            RegisterNames::r9 => 9,
            RegisterNames::r10 => 10,
            RegisterNames::r11 => 11,
            RegisterNames::r12 => 12,
            RegisterNames::r13 => 13,
            RegisterNames::r14 => 14,
            RegisterNames::r15 => 15,
            RegisterNames::cpsr => 16,
            RegisterNames::spsr => 17,
        }
    }

    /// The general register with number `i`.
    pub fn from_index(i: u32) -> (r: RegisterNames)
        requires
            i < 16,
        ensures
            r.index_spec() == i,
    {
        match i {
            0 => RegisterNames::r0,
            1 => RegisterNames::r1,
            2 => RegisterNames::r2,
            3 => RegisterNames::r3,
            4 => RegisterNames::r4,
            5 => RegisterNames::r5,
            6 => RegisterNames::r6,
            7 => RegisterNames::r7,
            8 => RegisterNames::r8,
            9 => RegisterNames::r9,
            10 => RegisterNames::r10,
            11 => RegisterNames::r11,
            12 => RegisterNames::r12,
            13 => RegisterNames::r13,
            14 => RegisterNames::r14,
            _ => RegisterNames::r15,
        }
    }
}

#[derive(Clone, Copy, Debug, PartialEq, Eq, Structural)]
pub enum OperationModes {
    USR,
    FIQ,
    IRQ,
    SVC,
    ABT,
    UND,
    SYS,
}

impl OperationModes {
    /// The CPSR mode field of this mode.
    pub open spec fn bits_spec(self) -> u32 {
        match self {
            OperationModes::USR => MODE_USR,
            OperationModes::FIQ => MODE_FIQ,
            OperationModes::IRQ => MODE_IRQ,
            OperationModes::SVC => MODE_SVC,
            OperationModes::ABT => MODE_ABT,
            OperationModes::UND => MODE_UND,
            OperationModes::SYS => MODE_SYS,
        }
    }

    pub fn bits(self) -> (r: u32)
        ensures
            r == self.bits_spec(),
    {
        match self {
            OperationModes::USR => MODE_USR,
            OperationModes::FIQ => MODE_FIQ,
            OperationModes::IRQ => MODE_IRQ,
            OperationModes::SVC => MODE_SVC,
            OperationModes::ABT => MODE_ABT,
            OperationModes::UND => MODE_UND,
            OperationModes::SYS => MODE_SYS,
        }
    }
}

/// The mode named by a CPSR mode field, if any.
pub open spec fn mode_of_bits(m: u32) -> Option<OperationModes> {
    if m == MODE_USR {
        Some(OperationModes::USR)
    } else if m == MODE_FIQ {
        Some(OperationModes::FIQ)
    } else if m == MODE_IRQ {
        Some(OperationModes::IRQ)
    } else if m == MODE_SVC {
        Some(OperationModes::SVC)
    } else if m == MODE_ABT {
        Some(OperationModes::ABT)
    } else if m == MODE_UND {
        Some(OperationModes::UND)
    } else if m == MODE_SYS {
        Some(OperationModes::SYS)
    } else {
        None
    }
}

/// The physical slot that general register `r` (0..15) names in mode `m`.
/// Slots 0..15 are the user bank, 16..22 hold FIQ's r8..r14, and each of
/// SVC, ABT, IRQ and UND has two slots for its r13 and r14.
pub open spec fn slot_of(r: int, m: u32) -> int {
    if m == MODE_FIQ && 8 <= r <= 14 {
        r + 8
    } else if r == 13 || r == 14 {
        if m == MODE_SVC {
            r + 10
        } else if m == MODE_ABT {
            r + 12
        } else if m == MODE_IRQ {
            r + 14
        } else if m == MODE_UND {
            r + 16
        } else {
            r
        }
    } else {
        r
    }
}

/// The index of the SPSR of mode `m`, or -1 where the mode has none.
pub open spec fn spsr_of(m: u32) -> int {
    if m == MODE_FIQ {
        0
    } else if m == MODE_SVC {
        1
    } else if m == MODE_ABT {
        2
    } else if m == MODE_IRQ {
        3
    } else if m == MODE_UND {
        4
    } else {
        -1
    }
}

/// What a write of `v` to general register `r` stores: writes to the
/// program counter clear bit 0.
pub open spec fn stored_value(r: int, v: u32) -> u32 {
    if r == 15 {
        v & 0xFFFF_FFFE
    } else {
        v
    }
}

/// The CPSR word `cpsr` with its four condition flags replaced.
pub open spec fn with_nzcv(cpsr: u32, n: bool, z: bool, c: bool, v: bool) -> u32 {
    (cpsr & 0x0FFF_FFFF) | (if n {
        0x8000_0000u32
    } else {
        0u32
    }) | (if z {
        0x4000_0000u32
    } else {
        0u32
    }) | (if c {
        0x2000_0000u32
    } else {
        0u32
    }) | (if v {
        0x1000_0000u32
    } else {
        0u32
    })
}

/// The CPSR word `cpsr` with bit `mask` set or cleared.
pub open spec fn with_flag(cpsr: u32, mask: u32, on: bool) -> u32 {
    if on {
        cpsr | mask
    } else {
        cpsr & !mask
    }
}

/// Whether condition code `code` passes under the flags of `cpsr`.
pub open spec fn condition_holds(cpsr: u32, code: u32) -> bool {
    let n = bit(cpsr, 31);
    let z = bit(cpsr, 30);
    let c = bit(cpsr, 29);
    let v = bit(cpsr, 28);
    if code == 0 {
        z
    } else if code == 1 {
        !z
    } else if code == 2 {
        c
    } else if code == 3 {
        !c
    } else if code == 4 {
        n
    } else if code == 5 {
        !n
    } else if code == 6 {
        v
    } else if code == 7 {
        !v
    } else if code == 8 {
        c && !z
    } else if code == 9 {
        !c || z
    } else if code == 10 {
        n == v
    } else if code == 11 {
        n != v
    } else if code == 12 {
        !z && n == v
    } else if code == 13 {
        z || n != v
    } else {
        code == 14
    }
}

/// The register file as a mathematical value: the physical slots of all
/// banks, the CPSR, and the SPSRs of the five exception modes.
pub struct CpuModel {
    pub slots: Seq<u32>,
    pub cpsr: u32,
    pub spsrs: Seq<u32>,
}

impl CpuModel {
    pub open spec fn wf(self) -> bool {
        self.slots.len() == SLOT_COUNT && self.spsrs.len() == SPSR_COUNT
    }

    /// The mode field of the CPSR.
    pub open spec fn mode(self) -> u32 {
        self.cpsr & 0x1f
    }

    pub open spec fn reg_in(self, r: int, m: u32) -> u32 {
        self.slots[slot_of(r, m)]
    }

    /// General register `r` as the current mode sees it.
    pub open spec fn reg(self, r: int) -> u32 {
        self.reg_in(r, self.mode())
    }

    pub open spec fn set_reg_in(self, r: int, m: u32, v: u32) -> CpuModel {
        CpuModel { slots: self.slots.update(slot_of(r, m), stored_value(r, v)), ..self }
    }

    /// The register file after writing `v` to register `r` of the current mode.
    pub open spec fn set_reg(self, r: int, v: u32) -> CpuModel {
        self.set_reg_in(r, self.mode(), v)
    }

    pub open spec fn has_spsr(self) -> bool {
        spsr_of(self.mode()) >= 0
    }

    pub open spec fn spsr(self) -> u32 {
        self.spsrs[spsr_of(self.mode())]
    }

    pub open spec fn set_spsr(self, v: u32) -> CpuModel {
        CpuModel { spsrs: self.spsrs.update(spsr_of(self.mode()), v), ..self }
    }

    pub open spec fn set_cpsr(self, v: u32) -> CpuModel {
        CpuModel { cpsr: v, ..self }
    }

    pub open spec fn n(self) -> bool {
        bit(self.cpsr, 31)
    }

    pub open spec fn z(self) -> bool {
        bit(self.cpsr, 30)
    }

    pub open spec fn c(self) -> bool {
        bit(self.cpsr, 29)
    }

    pub open spec fn v(self) -> bool {
        bit(self.cpsr, 28)
    }

    pub open spec fn set_nzcv(self, n: bool, z: bool, c: bool, v: bool) -> CpuModel {
        self.set_cpsr(with_nzcv(self.cpsr, n, z, c, v))
    }

    /// The state after reset.
    pub open spec fn reset() -> CpuModel {
        CpuModel {
            slots: Seq::new(SLOT_COUNT as nat, |i: int| 0u32),
            cpsr: RESET_CPSR,
            spsrs: Seq::new(SPSR_COUNT as nat, |i: int| 0u32),
        }
    }
}

/// The banked register file and status registers of the processor.
pub struct Cpu {
    slots: Vec<u32>,
    cpsr: u32,
    spsrs: Vec<u32>,
}

impl View for Cpu {
    type V = CpuModel;

    closed spec fn view(&self) -> CpuModel {
        CpuModel { slots: self.slots@, cpsr: self.cpsr, spsrs: self.spsrs@ }
    }
}

/// The slot of register `r` in mode `m`.
fn slot_index(r: u32, m: u32) -> (s: usize)
    requires
        r < 16,
    ensures
        s == slot_of(r as int, m),
        s < SLOT_COUNT,
{
    if m == MODE_FIQ && 8 <= r && r <= 14 {
        (r + 8) as usize
    } else if r == 13 || r == 14 {
        if m == MODE_SVC {
            (r + 10) as usize
        } else if m == MODE_ABT {
            (r + 12) as usize
        } else if m == MODE_IRQ {
            (r + 14) as usize
        } else if m == MODE_UND {
            (r + 16) as usize
        } else {
            r as usize
        }
    } else {
        r as usize
    }
}

/// The SPSR index of mode `m`, where it has one.
fn spsr_index(m: u32) -> (s: Option<usize>)
    ensures
        match s {
            Some(i) => i == spsr_of(m) && i < SPSR_COUNT,
            None => spsr_of(m) == -1,
        },
{
    if m == MODE_FIQ {
        Some(0)
    } else if m == MODE_SVC {
        Some(1)
    } else if m == MODE_ABT {
        Some(2)
    } else if m == MODE_IRQ {
        Some(3)
    } else if m == MODE_UND {
        Some(4)
    } else {
        None
    }
}

impl Cpu {
    pub open spec fn wf(&self) -> bool {
        self@.wf()
    }

    /// A register file in its reset state.
    pub fn new() -> (r: Cpu)
        ensures
            r@ == CpuModel::reset(),
    {
        let r = Cpu { slots: vec![0u32; SLOT_COUNT], cpsr: RESET_CPSR, spsrs: vec![0u32; SPSR_COUNT] };
        assert(r.slots@ =~= Seq::new(SLOT_COUNT as nat, |i: int| 0u32));
        assert(r.spsrs@ =~= Seq::new(SPSR_COUNT as nat, |i: int| 0u32));
        r
    }

    /// Returns the register file to its reset state.
    pub fn reset(&mut self)
        ensures
            final(self)@ == CpuModel::reset(),
    {
        *self = Cpu::new();
    }

    /// General register `r` (0..15) of the current mode.
    pub fn read(&self, r: u32) -> (v: u32)
        requires
            self.wf(),
            r < 16,
        ensures
            v == self@.reg(r as int),
    {
        self.slots[slot_index(r, self.cpsr & 0x1f)]
    }

    /// Writes general register `r` (0..15) of the current mode.
    pub fn write(&mut self, r: u32, v: u32)
        requires
            old(self).wf(),
            r < 16,
        ensures
            final(self)@ == old(self)@.set_reg(r as int, v),
    {
        let s = slot_index(r, self.cpsr & 0x1f);
        let v = if r == 15 {
            v & 0xFFFF_FFFE
        } else {
            v
        };
        self.slots.set(s, v);
    }

    /// General register `r` of the bank of mode `m`.
    pub fn read_in_mode(&self, r: u32, m: OperationModes) -> (v: u32)
        requires
            self.wf(),
            r < 16,
        ensures
            v == self@.reg_in(r as int, m.bits_spec()),
    {
        self.slots[slot_index(r, m.bits())]
    }

    /// Writes general register `r` of the bank of mode `m`.
    pub fn write_in_mode(&mut self, r: u32, m: OperationModes, v: u32)
        requires
            old(self).wf(),
            r < 16,
        ensures
            final(self)@ == old(self)@.set_reg_in(r as int, m.bits_spec(), v),
    {
        let s = slot_index(r, m.bits());
        let v = if r == 15 {
            v & 0xFFFF_FFFE
        } else {
            v
        };
        self.slots.set(s, v);
    }

    pub fn get_cpsr(&self) -> (v: u32)
        ensures
            v == self@.cpsr,
    {
        self.cpsr
    }

    pub fn set_cpsr(&mut self, v: u32)
        ensures
            final(self)@ == old(self)@.set_cpsr(v),
    {
        self.cpsr = v;
    }

    /// Whether the current mode has an SPSR (every mode but USR and SYS).
    pub fn current_mode_has_spsr(&self) -> (r: bool)
        ensures
            r == self@.has_spsr(),
    {
        spsr_index(self.cpsr & 0x1f).is_some()
    }

    /// The SPSR of the current mode.
    pub fn get_spsr(&self) -> (v: u32)
        requires
            self.wf(),
            self@.has_spsr(),
        ensures
            v == self@.spsr(),
    {
        match spsr_index(self.cpsr & 0x1f) {
            Some(i) => self.spsrs[i],
            None => 0,
        }
    }

    /// Writes the SPSR of the current mode.
    pub fn set_spsr(&mut self, v: u32)
        requires
            old(self).wf(),
            old(self)@.has_spsr(),
        ensures
            final(self)@ == old(self)@.set_spsr(v),
    {
        match spsr_index(self.cpsr & 0x1f) {
            Some(i) => self.spsrs.set(i, v),
            None => {},
        }
    }

    /// The value of a named register; SPSR only in a mode that has one.
    pub fn get_register_value(&self, r: RegisterNames) -> (v: u32)
        requires
            self.wf(),
            r == RegisterNames::spsr ==> self@.has_spsr(),
        ensures
            r.index_spec() < 16 ==> v == self@.reg(r.index_spec() as int),
            r == RegisterNames::cpsr ==> v == self@.cpsr,
            r == RegisterNames::spsr ==> v == self@.spsr(),
    {
        match r {
            RegisterNames::cpsr => self.cpsr,
            RegisterNames::spsr => self.get_spsr(),
            _ => self.read(r.index()),
        }
    }

    /// Writes a named register; SPSR only in a mode that has one.
    pub fn set_register_value(&mut self, r: RegisterNames, v: u32)
        requires
            old(self).wf(),
            r == RegisterNames::spsr ==> old(self)@.has_spsr(),
        ensures
            r.index_spec() < 16 ==> final(self)@ == old(self)@.set_reg(r.index_spec() as int, v),
            r == RegisterNames::cpsr ==> final(self)@ == old(self)@.set_cpsr(v),
            r == RegisterNames::spsr ==> final(self)@ == old(self)@.set_spsr(v),
    {
        match r {
            RegisterNames::cpsr => self.set_cpsr(v),
            RegisterNames::spsr => self.set_spsr(v),
            _ => {
                let i = r.index();
                self.write(i, v);
            },
        }
    }

    /// A named register of the bank of mode `m`.
    pub fn get_register_value_in_operation_mode(&self, r: RegisterNames, m: OperationModes) -> (v:
        u32)
        requires
            self.wf(),
            r.index_spec() < 16,
        ensures
            v == self@.reg_in(r.index_spec() as int, m.bits_spec()),
    {
        self.read_in_mode(r.index(), m)
    }

    /// Writes a named register of the bank of mode `m`.
    pub fn set_register_value_in_operation_mode(
        &mut self,
        r: RegisterNames,
        v: u32,
        m: OperationModes,
    )
        requires
            old(self).wf(),
            r.index_spec() < 16,
        ensures
            final(self)@ == old(self)@.set_reg_in(r.index_spec() as int, m.bits_spec(), v),
    {
        let i = r.index();
        self.write_in_mode(i, m, v);
    }

    pub fn get_n(&self) -> (r: bool)
        ensures
            r == self@.n(),
    {
        bit_of(self.cpsr, 31)
    }

    pub fn get_z(&self) -> (r: bool)
        ensures
            r == self@.z(),
    {
        bit_of(self.cpsr, 30)
    }

    pub fn get_c(&self) -> (r: bool)
        ensures
            r == self@.c(),
    {
        bit_of(self.cpsr, 29)
    }

    pub fn get_v(&self) -> (r: bool)
        ensures
            r == self@.v(),
    {
        bit_of(self.cpsr, 28)
    }

    /// Sets the four condition flags, leaving the rest of the CPSR.
    pub fn set_nzcv(&mut self, n: bool, z: bool, c: bool, v: bool)
        ensures
            final(self)@ == old(self)@.set_nzcv(n, z, c, v),
    {
        self.cpsr = (self.cpsr & 0x0FFF_FFFF) | (if n {
            0x8000_0000u32
        } else {
            0u32
        }) | (if z {
            0x4000_0000u32
        } else {
            0u32
        }) | (if c {
            0x2000_0000u32
        } else {
            0u32
        }) | (if v {
            0x1000_0000u32
        } else {
            0u32
        });
    }

    /// Whether the processor is in Thumb state (CPSR bit 5).
    pub fn get_thumb_bit(&self) -> (r: bool)
        ensures
            r == bit(self@.cpsr, 5),
    {
        bit_of(self.cpsr, 5)
    }

    pub fn set_thumb_bit(&mut self, on: bool)
        ensures
            final(self)@ == old(self)@.set_cpsr(with_flag(old(self)@.cpsr, 0x20, on)),
    {
        self.cpsr = if on {
            self.cpsr | 0x20
        } else {
            self.cpsr & !0x20u32
        };
    }

    /// Whether FIQ interrupts are disabled (CPSR bit 6).
    pub fn is_fiq_disabled(&self) -> (r: bool)
        ensures
            r == bit(self@.cpsr, 6),
    {
        bit_of(self.cpsr, 6)
    }

    /// Whether IRQ interrupts are disabled (CPSR bit 7).
    pub fn is_irq_disabled(&self) -> (r: bool)
        ensures
            r == bit(self@.cpsr, 7),
    {
        bit_of(self.cpsr, 7)
    }

    pub fn set_fiq_disable(&mut self, on: bool)
        ensures
            final(self)@ == old(self)@.set_cpsr(with_flag(old(self)@.cpsr, 0x40, on)),
    {
        self.cpsr = if on {
            self.cpsr | 0x40
        } else {
            self.cpsr & !0x40u32
        };
    }

    pub fn set_irq_disable(&mut self, on: bool)
        ensures
            final(self)@ == old(self)@.set_cpsr(with_flag(old(self)@.cpsr, 0x80, on)),
    {
        self.cpsr = if on {
            self.cpsr | 0x80
        } else {
            self.cpsr & !0x80u32
        };
    }

    /// The current processor mode, or `None` where the mode field names none.
    pub fn get_operation_mode(&self) -> (r: Option<OperationModes>)
        ensures
            r == mode_of_bits(self@.mode()),
    {
        let m = self.cpsr & 0x1f;
        if m == MODE_USR {
            Some(OperationModes::USR)
        } else if m == MODE_FIQ {
            Some(OperationModes::FIQ)
        } else if m == MODE_IRQ {
            Some(OperationModes::IRQ)
        } else if m == MODE_SVC {
            Some(OperationModes::SVC)
        } else if m == MODE_ABT {
            Some(OperationModes::ABT)
        } else if m == MODE_UND {
            Some(OperationModes::UND)
        } else if m == MODE_SYS {
            Some(OperationModes::SYS)
        } else {
            None
        }
    }

    /// Switches mode, rewriting only the mode field of the CPSR.
    pub fn set_operation_mode(&mut self, m: OperationModes)
        ensures
            final(self)@ == old(self)@.set_cpsr((old(self)@.cpsr & !0x1fu32) | m.bits_spec()),
    {
        self.cpsr = (self.cpsr & !0x1fu32) | m.bits();
    }

    /// Whether condition code `code` (0..15) passes under the current flags;
    /// code 15 never passes.
    pub fn check_condition(&self, code: u32) -> (r: bool)
        ensures
            r == condition_holds(self@.cpsr, code),
    {
        let n = bit_of(self.cpsr, 31);
        let z = bit_of(self.cpsr, 30);
        let c = bit_of(self.cpsr, 29);
        let v = bit_of(self.cpsr, 28);
        if code == 0 {
            z
        } else if code == 1 {
            !z
        } else if code == 2 {
            c
        } else if code == 3 {
            !c
        } else if code == 4 {
            n
        } else if code == 5 {
            !n
        } else if code == 6 {
            v
        } else if code == 7 {
            !v
        } else if code == 8 {
            c && !z
        } else if code == 9 {
            !c || z
        } else if code == 10 {
            n == v
        } else if code == 11 {
            n != v
        } else if code == 12 {
            !z && n == v
        } else if code == 13 {
            z || n != v
        } else {
            code == 14
        }
    }
}

} // verus!
