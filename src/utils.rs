//! Flag arithmetic, the barrel shifter, and addressing modes 2 and 3.
use crate::cpu::{CpuModel, RegisterNames};
use crate::emulator::Emulator;
use vstd::prelude::*;

verus! {

broadcast use crate::bitfield::lemma_and_le_mask;

/// Bit `i` of `w`.
pub open spec fn bit(w: u32, i: u32) -> bool {
    (w >> i) & 1u32 == 1u32
}

/// `a + b` modulo 2^32.
pub open spec fn add32(a: u32, b: u32) -> u32 {
    vstd::wrapping::u32_specs::wrapping_add(a, b)
}

/// `a - b` modulo 2^32.
pub open spec fn sub32(a: u32, b: u32) -> u32 {
    vstd::wrapping::u32_specs::wrapping_sub(a, b)
}

/// `a * b` modulo 2^32.
pub open spec fn mul32(a: u32, b: u32) -> u32 {
    vstd::wrapping::u32_specs::wrapping_mul(a, b)
}

/// Rotation of `v` right by `r` places, `r` below 32.
pub open spec fn ror(v: u32, r: u32) -> u32 {
    if r == 0 {
        v
    } else {
        (v >> r) | (v << (32 - r) as u32)
    }
}

/// The signed-overflow rule for `first + second == result`.
pub open spec fn add_overflow_spec(first: u32, second: u32, result: u32) -> bool {
    bit(!(first ^ second) & (second ^ result), 31)
}

/// The signed-overflow rule for `first - second == result`.
pub open spec fn sub_overflow_spec(first: u32, second: u32, result: u32) -> bool {
    bit((first ^ second) & (first ^ result), 31)
}

/// Bit tests on an instruction word.
pub trait BitChecker {
    /// The word the bits are read from.
    spec fn word(self) -> u32;

    /// Whether the bit at `position` is set.
    fn is_bit_set(self, position: u32) -> (r: bool)
        requires
            position < 32,
        ensures
            r == bit(self.word(), position),
    ;
}

impl BitChecker for u32 {
    open spec fn word(self) -> u32 {
        self
    }

    fn is_bit_set(self, position: u32) -> (r: bool) {
        (self >> position) & 1 == 1
    }
}

/// The operand fields of a data-processing instruction word.
pub trait DataProcessingInstruction {
    /// The instruction word the fields are read from.
    spec fn encoding(self) -> u32;

    /// Bit 25: the operand is a rotated immediate.
    fn is_immediate_value(self) -> (r: bool)
        ensures
            r == bit(self.encoding(), 25),
    ;

    /// Bits 11:8: half the rotation of the immediate.
    fn get_rotate_imm(self) -> (r: u32)
        ensures
            r == (self.encoding() >> 8u32) & 0xf,
    ;

    /// Bits 7:0: the 8-bit immediate.
    fn get_immediate(self) -> (r: u32)
        ensures
            r == self.encoding() & 0xff,
    ;

    /// Bits 11:7: the immediate shift amount.
    fn get_register_shift_imm(self) -> (r: u32)
        ensures
            r == (self.encoding() >> 7u32) & 0x1f,
    ;

    /// Bit 4: the shift amount is held in Rs.
    fn is_register_shift(self) -> (r: bool)
        ensures
            r == bit(self.encoding(), 4),
    ;

    /// Bits 6:5: the shift mode.
    fn get_shifter_mode(self) -> (r: ShiftMode)
        ensures
            r == ShiftMode::from_bits_spec((self.encoding() >> 5u32) & 3),
    ;

    /// Bits 3:0: Rm.
    fn get_rm(self) -> (r: RegisterNames)
        ensures
            r.index_spec() == self.encoding() & 0xf,
    ;

    /// Bits 11:8: Rs.
    fn get_rs(self) -> (r: RegisterNames)
        ensures
            r.index_spec() == (self.encoding() >> 8u32) & 0xf,
    ;
}

impl DataProcessingInstruction for u32 {
    open spec fn encoding(self) -> u32 {
        self
    }

    fn is_immediate_value(self) -> (r: bool) {
        bit_of(self, 25)
    }

    fn get_rotate_imm(self) -> (r: u32) {
        (self >> 8u32) & 0xf
    }

    fn get_immediate(self) -> (r: u32) {
        self & 0xff
    }

    fn get_register_shift_imm(self) -> (r: u32) {
        (self >> 7u32) & 0x1f
    }

    fn is_register_shift(self) -> (r: bool) {
        bit_of(self, 4)
    }

    fn get_shifter_mode(self) -> (r: ShiftMode) {
        ShiftMode::from_bits((self >> 5u32) & 3)
    }

    fn get_rm(self) -> (r: RegisterNames) {
        RegisterNames::from_index(self & 0xf)
    }

    fn get_rs(self) -> (r: RegisterNames) {
        RegisterNames::from_index((self >> 8u32) & 0xf)
    }
}

/// Whether bit `position` of `value` is set.
pub fn bit_of(value: u32, position: u32) -> (r: bool)
    requires
        position < 32,
    ensures
        r == bit(value, position),
{
    (value >> position) & 1 == 1
}

/// Rotates `value` right by `amount` places (`amount` below 32).
pub fn rotate_right(value: u32, amount: u32) -> (r: u32)
    requires
        amount < 32,
    ensures
        r == ror(value, amount),
{
    if amount == 0 {
        value
    } else {
        (value >> amount) | (value << (32 - amount))
    }
}

/// Whether `a + b` overflows the unsigned 32-bit range.
pub fn carry_from(a: u32, b: u32) -> (r: bool)
    ensures
        r == (a as int + b as int > u32::MAX),
{
    (a as u64) + (b as u64) > 0xFFFF_FFFF
}

/// Whether `a + b + carry` overflows the unsigned 32-bit range.
pub fn carry_from_with_carry(a: u32, b: u32, carry: u32) -> (r: bool)
    requires
        carry <= 1,
    ensures
        r == (a as int + b as int + carry as int > u32::MAX),
{
    (a as u64) + (b as u64) + (carry as u64) > 0xFFFF_FFFF
}

/// The carry flag after `a - b`: no borrow happened.
pub fn not_borrow_from(a: u32, b: u32) -> (r: bool)
    ensures
        r == (a >= b),
{
    a >= b
}

/// The carry flag after `a - b - borrow`: no borrow happened.
pub fn not_borrow_from_with_carry(a: u32, b: u32, borrow: u32) -> (r: bool)
    requires
        borrow <= 1,
    ensures
        r == (a as int >= b as int + borrow as int),
{
    (a as u64) >= (b as u64) + (borrow as u64)
}

/// The signed-overflow flag of an addition `first + second == result`.
pub fn addition_overflow(first: u32, second: u32, result: u32) -> (r: bool)
    ensures
        r == add_overflow_spec(first, second, result),
{
    (!(first ^ second) & (second ^ result)) >> 31 & 1 == 1
}

/// The signed-overflow flag of a subtraction `first - second == result`.
pub fn substraction_overflow(first: u32, second: u32, result: u32) -> (r: bool)
    ensures
        r == sub_overflow_spec(first, second, result),
{
    ((first ^ second) & (first ^ result)) >> 31 & 1 == 1
}

/// The overflow rule of addition agrees with signed 32-bit overflow of the
/// wrapped sum, for every pair of operands.
pub proof fn lemma_addition_overflow_is_signed_overflow(a: u32, b: u32)
    ensures
        add_overflow_spec(a, b, add32(a, b)) == ((a as i32) + (b as i32) > i32::MAX || (
        a as i32) + (b as i32) < i32::MIN),
{
    if a + b > u32::MAX {
        assert(((a + b - 0x1_0000_0000) as u32) == ((a + b) as u32)) by (bit_vector)
            requires
                a + b > 0xFFFF_FFFF,
        ;
    }
    assert(bit(!(a ^ b) & (b ^ ((a + b) as u32)), 31) == ((a as i32) + (b as i32) > i32::MAX || (
    a as i32) + (b as i32) < i32::MIN)) by (bit_vector);
}

/// The overflow rule of subtraction agrees with signed 32-bit overflow of the
/// wrapped difference, for every pair of operands.
pub proof fn lemma_subtraction_overflow_is_signed_overflow(a: u32, b: u32)
    ensures
        sub_overflow_spec(a, b, sub32(a, b)) == ((a as i32) - (b as i32) > i32::MAX || (
        a as i32) - (b as i32) < i32::MIN),
{
    if a - b < 0 {
        assert(((a - b + 0x1_0000_0000) as u32) == ((a - b) as u32)) by (bit_vector)
            requires
                a < b,
        ;
    }
    assert(bit((a ^ b) & (a ^ ((a - b) as u32)), 31) == ((a as i32) - (b as i32) > i32::MAX || (
    a as i32) - (b as i32) < i32::MIN)) by (bit_vector);
}


#[derive(Clone, Copy, Debug, PartialEq, Eq, Structural)]
pub enum ShiftMode {
    /// Logical shift left
    LSL,
    /// Logical shift right
    LSR,
    /// Arithmetic shift right (sign extending)
    ASR,
    /// Rotate right
    ROR,
}

impl ShiftMode {
    /// The shift mode with encoding `m` (0..3).
    pub open spec fn from_bits_spec(m: u32) -> ShiftMode {
        if m == 0 {
            ShiftMode::LSL
        } else if m == 1 {
            ShiftMode::LSR
        } else if m == 2 {
            ShiftMode::ASR
        } else {
            ShiftMode::ROR
        }
    }

    pub fn from_bits(m: u32) -> (r: ShiftMode)
        requires
            m < 4,
        ensures
            r == Self::from_bits_spec(m),
    {
        if m == 0 {
            ShiftMode::LSL
        } else if m == 1 {
            ShiftMode::LSR
        } else if m == 2 {
            ShiftMode::ASR
        } else {
            ShiftMode::ROR
        }
    }
}

/// Common addressing types
#[derive(Clone, Copy, Debug, PartialEq, Eq, Structural)]
pub enum AddressingType {
    Offset,
    PreIndexed,
    PostIndexed,
}

/// The barrel shifter: `(operand, carry_out)` for shifting `v` by `s` places
/// in `mode`, where `by_register` tells a register-held amount from a 5-bit
/// immediate and `c` is the incoming carry flag.
pub open spec fn shift_by(mode: ShiftMode, s: u32, by_register: bool, v: u32, c: bool) -> (u32, bool) {
    match mode {
        ShiftMode::LSL => {
            if s == 0 {
                (v, c)
            } else if s < 32 {
                (v << s, bit(v, (32 - s) as u32))
            } else if s == 32 {
                (0, bit(v, 0))
            } else {
                (0, false)
            }
        },
        ShiftMode::LSR => {
            if s == 0 && by_register {
                (v, c)
            } else if s == 0 || s == 32 {
                (0, bit(v, 31))
            } else if s < 32 {
                (v >> s, bit(v, (s - 1) as u32))
            } else {
                (0, false)
            }
        },
        ShiftMode::ASR => {
            if s == 0 && by_register {
                (v, c)
            } else if s == 0 || s >= 32 {
                (
                    if bit(v, 31) {
                        0xFFFF_FFFFu32
                    } else {
                        0u32
                    },
                    bit(v, 31),
                )
            } else {
                (((v as i32) >> s) as u32, bit(v, (s - 1) as u32))
            }
        },
        ShiftMode::ROR => {
            if s == 0 && by_register {
                (v, c)
            } else if s == 0 {
                (
                    (if c {
                        0x8000_0000u32
                    } else {
                        0u32
                    }) | (v >> 1u32),
                    bit(v, 0),
                )
            } else if s & 0x1f == 0 {
                (v, bit(v, 31))
            } else {
                (ror(v, s & 0x1f), bit(v, ((s & 0x1f) - 1) as u32))
            }
        },
    }
}

/// Whether `instruction` is a register-shifted-by-register data-processing
/// form with bit 7 set, which belongs to the multiply and extra load/store
/// extension space rather than to the shifter.
pub open spec fn is_extension_space(instruction: u32) -> bool {
    !bit(instruction, 25) && bit(instruction, 4) && bit(instruction, 7)
}

/// Data-processing operand two: `(shifter_operand, shifter_carry_out)` given
/// the instruction, the values of Rm (bits 3:0) and Rs (bits 11:8), and the
/// carry flag.
pub open spec fn shifter_spec(instruction: u32, rm: u32, rs: u32, c: bool) -> (u32, bool) {
    if bit(instruction, 25) {
        let rotate = (((instruction >> 8u32) & 0xf) * 2) as u32;
        let operand = ror(instruction & 0xff, rotate);
        (operand, if rotate == 0 {
            c
        } else {
            bit(operand, 31)
        })
    } else {
        let by_register = bit(instruction, 4);
        let s = if by_register {
            rs & 0xff
        } else {
            (instruction >> 7u32) & 0x1f
        };
        shift_by(ShiftMode::from_bits_spec((instruction >> 5u32) & 3), s, by_register, rm, c)
    }
}

/// The shifter applied to the registers and carry flag of `cpu`.
pub open spec fn shifter_of(cpu: CpuModel, instruction: u32) -> (u32, bool) {
    shifter_spec(
        instruction,
        cpu.reg((instruction & 0xf) as int),
        cpu.reg(((instruction >> 8u32) & 0xf) as int),
        cpu.c(),
    )
}

/// Shifts `v` by `s` places in `mode` (see `shift_by`).
pub fn shift_value(mode: ShiftMode, s: u32, by_register: bool, v: u32, c: bool) -> (r: (u32, bool))
    ensures
        r == shift_by(mode, s, by_register, v, c),
{
    match mode {
        ShiftMode::LSL => {
            if s == 0 {
                (v, c)
            } else if s < 32 {
                (v << s, bit_of(v, 32 - s))
            } else if s == 32 {
                (0, bit_of(v, 0))
            } else {
                (0, false)
            }
        },
        ShiftMode::LSR => {
            if s == 0 && by_register {
                (v, c)
            } else if s == 0 || s == 32 {
                (0, bit_of(v, 31))
            } else if s < 32 {
                (v >> s, bit_of(v, s - 1))
            } else {
                (0, false)
            }
        },
        ShiftMode::ASR => {
            if s == 0 && by_register {
                (v, c)
            } else if s == 0 || s >= 32 {
                let top = bit_of(v, 31);
                (if top {
                    0xFFFF_FFFFu32
                } else {
                    0u32
                }, top)
            } else {
                (((v as i32) >> s) as u32, bit_of(v, s - 1))
            }
        },
        ShiftMode::ROR => {
            if s == 0 && by_register {
                (v, c)
            } else if s == 0 {
                ((if c {
                    0x8000_0000u32
                } else {
                    0u32
                }) | (v >> 1u32), bit_of(v, 0))
            } else if s & 0x1f == 0 {
                (v, bit_of(v, 31))
            } else {
                let r = s & 0x1f;
                (rotate_right(v, r), bit_of(v, r - 1))
            }
        },
    }
}

/// The shifter operand and carry out of a data-processing instruction.
pub fn process_shifter_operand_tmp(emulator: &mut Emulator, instruction: u32) -> (r: (u32, bool))
    requires
        old(emulator).wf(),
        !is_extension_space(instruction),
    ensures
        final(emulator)@ == old(emulator)@,
        r == shifter_of(old(emulator)@.cpu, instruction),
{
    let c = emulator.cpu.get_c();
    if bit_of(instruction, 25) {
        let rotate = ((instruction >> 8u32) & 0xf) * 2;
        let operand = rotate_right(instruction & 0xff, rotate);
        (operand, if rotate == 0 {
            c
        } else {
            bit_of(operand, 31)
        })
    } else {
        let by_register = bit_of(instruction, 4);
        let v = emulator.cpu.read(instruction & 0xf);
        let s = if by_register {
            emulator.cpu.read((instruction >> 8u32) & 0xf) & 0xff
        } else {
            (instruction >> 7u32) & 0x1f
        };
        shift_value(ShiftMode::from_bits((instruction >> 5u32) & 3), s, by_register, v, c)
    }
}

/// The shifter operand of a data-processing instruction, without its carry.
pub fn process_shifter_operand(emulator: &mut Emulator, instruction: u32) -> (r: u32)
    requires
        old(emulator).wf(),
        !is_extension_space(instruction),
    ensures
        final(emulator)@ == old(emulator)@,
        r == shifter_of(old(emulator)@.cpu, instruction).0,
{
    process_shifter_operand_tmp(emulator, instruction).0
}

/// The operands of a data-processing instruction: Rd, the value of Rn, and
/// the shifter operand with its carry out.
pub fn get_data_processing_operands(emulator: &mut Emulator, instruction: u32) -> (r: (
    RegisterNames,
    u32,
    u32,
    bool,
))
    requires
        old(emulator).wf(),
        !is_extension_space(instruction),
    ensures
        final(emulator)@ == old(emulator)@,
        r.0.index_spec() == (instruction >> 12u32) & 0xf,
        r.1 == old(emulator)@.cpu.reg(((instruction >> 16u32) & 0xf) as int),
        (r.2, r.3) == shifter_of(old(emulator)@.cpu, instruction),
{
    let rd = RegisterNames::from_index((instruction >> 12u32) & 0xf);
    let rn_value = emulator.cpu.read((instruction >> 16u32) & 0xf);
    let (operand, carry) = process_shifter_operand_tmp(emulator, instruction);
    (rd, rn_value, operand, carry)
}

/// `base + offset` or `base - offset` (modulo 2^32) as bit 23 says.
pub open spec fn apply_offset(instruction: u32, base: u32, offset: u32) -> u32 {
    if bit(instruction, 23) {
        add32(base, offset)
    } else {
        sub32(base, offset)
    }
}

/// Where a load/store goes, how its base register is written back, and the
/// register file after the write-back, given the computed offset.
pub open spec fn indexed_spec(cpu: CpuModel, instruction: u32, offset: u32) -> (u32, AddressingType, CpuModel) {
    let rn = ((instruction >> 16u32) & 0xf) as int;
    let base = cpu.reg(rn);
    let address = apply_offset(instruction, base, offset);
    if !bit(instruction, 24) {
        (base, AddressingType::PostIndexed, cpu.set_reg(rn, address))
    } else if bit(instruction, 21) {
        (address, AddressingType::PreIndexed, cpu.set_reg(rn, address))
    } else {
        (address, AddressingType::Offset, cpu)
    }
}

/// The offset of addressing mode 2: a 12-bit immediate, or Rm shifted by an
/// immediate amount.
pub open spec fn mode2_offset(cpu: CpuModel, instruction: u32) -> u32 {
    if !bit(instruction, 25) {
        instruction & 0xfff
    } else {
        shift_by(
            ShiftMode::from_bits_spec((instruction >> 5u32) & 3),
            (instruction >> 7u32) & 0x1f,
            false,
            cpu.reg((instruction & 0xf) as int),
            cpu.c(),
        ).0
    }
}

/// Addressing mode 2 (word and unsigned byte loads and stores).
pub open spec fn mode2_spec(cpu: CpuModel, instruction: u32) -> (u32, AddressingType, CpuModel) {
    indexed_spec(cpu, instruction, mode2_offset(cpu, instruction))
}

/// The offset of addressing mode 3: an 8-bit immediate split over bits
/// 11:8 and 3:0, or Rm.
pub open spec fn mode3_offset(cpu: CpuModel, instruction: u32) -> u32 {
    if bit(instruction, 22) {
        (((instruction >> 8u32) & 0xf) << 4u32) | (instruction & 0xf)
    } else {
        cpu.reg((instruction & 0xf) as int)
    }
}

/// Addressing mode 3 (half-word and signed loads and stores).
pub open spec fn mode3_spec(cpu: CpuModel, instruction: u32) -> (u32, AddressingType, CpuModel) {
    indexed_spec(cpu, instruction, mode3_offset(cpu, instruction))
}

/// Applies the offset to the base register and writes the base back as the
/// P and W bits say.
fn apply_indexing(emulator: &mut Emulator, instruction: u32, offset: u32) -> (r: (u32, AddressingType))
    requires
        old(emulator).wf(),
    ensures
        final(emulator).memory@ == old(emulator).memory@,
        (r.0, r.1, final(emulator).cpu@) == indexed_spec(old(emulator)@.cpu, instruction, offset),
{
    let rn = (instruction >> 16u32) & 0xf;
    let base = emulator.cpu.read(rn);
    let address = if bit_of(instruction, 23) {
        base.wrapping_add(offset)
    } else {
        base.wrapping_sub(offset)
    };
    if !bit_of(instruction, 24) {
        emulator.cpu.write(rn, address);
        (base, AddressingType::PostIndexed)
    } else if bit_of(instruction, 21) {
        emulator.cpu.write(rn, address);
        (address, AddressingType::PreIndexed)
    } else {
        (address, AddressingType::Offset)
    }
}

/// The offset of an addressing-mode-2 instruction.
fn mode2_offset_value(emulator: &Emulator, instruction: u32) -> (r: u32)
    requires
        emulator.wf(),
    ensures
        r == mode2_offset(emulator@.cpu, instruction),
{
    if !bit_of(instruction, 25) {
        instruction & 0xfff
    } else {
        let v = emulator.cpu.read(instruction & 0xf);
        let c = emulator.cpu.get_c();
        shift_value(ShiftMode::from_bits((instruction >> 5u32) & 3), (instruction >> 7u32) & 0x1f, false, v, c).0
    }
}

/// The offset of an addressing-mode-3 instruction.
pub fn mode3_offset_value(emulator: &Emulator, instruction: u32) -> (r: u32)
    requires
        emulator.wf(),
    ensures
        r == mode3_offset(emulator@.cpu, instruction),
{
    if bit_of(instruction, 22) {
        (((instruction >> 8u32) & 0xf) << 4u32) | (instruction & 0xf)
    } else {
        emulator.cpu.read(instruction & 0xf)
    }
}

/// Addressing mode 2: returns the address and addressing type, and writes
/// the base register back for pre- and post-indexed forms.
pub fn process_addressing_mode(emulator: &mut Emulator, instruction: u32) -> (r: (u32, AddressingType))
    requires
        old(emulator).wf(),
    ensures
        final(emulator).memory@ == old(emulator).memory@,
        (r.0, r.1, final(emulator).cpu@) == mode2_spec(old(emulator)@.cpu, instruction),
{
    let offset = mode2_offset_value(emulator, instruction);
    apply_indexing(emulator, instruction, offset)
}

/// Addressing mode 3: returns the address and addressing type, and writes
/// the base register back for pre- and post-indexed forms.
pub fn process_misc_addressing_mode(emulator: &mut Emulator, instruction: u32) -> (r: (
    u32,
    AddressingType,
))
    requires
        old(emulator).wf(),
    ensures
        final(emulator).memory@ == old(emulator).memory@,
        (r.0, r.1, final(emulator).cpu@) == mode3_spec(old(emulator)@.cpu, instruction),
{
    let offset = mode3_offset_value(emulator, instruction);
    apply_indexing(emulator, instruction, offset)
}

/// The shifter reads nothing of the register file but Rm, Rs and the carry
/// flag: two register files that agree on those give the same operand and
/// carry out.
pub proof fn lemma_shifter_reads_only_operands(a: CpuModel, b: CpuModel, instruction: u32)
    requires
        a.reg((instruction & 0xf) as int) == b.reg((instruction & 0xf) as int),
        a.reg(((instruction >> 8u32) & 0xf) as int) == b.reg(((instruction >> 8u32) & 0xf) as int),
        a.c() == b.c(),
    ensures
        shifter_of(a, instruction) == shifter_of(b, instruction),
{
}

} // verus!
