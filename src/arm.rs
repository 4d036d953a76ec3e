//! The 32-bit ARM instruction set: semantics of each instruction over the
//! machine model, the executors, the decoder and the dispatcher.
use crate::cpu::{condition_holds, with_flag, CpuModel, OperationModes, RegisterNames, MODE_USR};
use crate::emulator::{EmuModel, Emulator, ExecError, step_matches};
use crate::memory::MemModel;
use crate::utils::{
    add32, add_overflow_spec, mul32, ror, rotate_right, addition_overflow, bit, bit_of, carry_from, carry_from_with_carry,
    get_data_processing_operands, is_extension_space, mode2_spec, mode3_spec, mode3_offset_value,
    process_addressing_mode, process_misc_addressing_mode, not_borrow_from, not_borrow_from_with_carry,
    shifter_of, sub32, sub_overflow_spec, substraction_overflow,
};
use vstd::prelude::*;

verus! {

broadcast use crate::bitfield::lemma_and_le_mask;

/// Data-processing opcodes (bits 24:21).
pub const OP_AND: u32 = 0;

pub const OP_EOR: u32 = 1;

pub const OP_SUB: u32 = 2;

pub const OP_RSB: u32 = 3;

pub const OP_ADD: u32 = 4;

pub const OP_ADC: u32 = 5;

pub const OP_SBC: u32 = 6;

pub const OP_RSC: u32 = 7;

pub const OP_TST: u32 = 8;

pub const OP_TEQ: u32 = 9;

pub const OP_CMP: u32 = 10;

pub const OP_CMN: u32 = 11;

pub const OP_ORR: u32 = 12;

pub const OP_MOV: u32 = 13;

pub const OP_BIC: u32 = 14;

pub const OP_MVN: u32 = 15;

/// The result of data-processing operation `op` on `a` (Rn) and `b` (the
/// shifter operand) with carry flag `c`.
pub open spec fn alu_result(op: u32, a: u32, b: u32, c: bool) -> u32 {
    let carry: u32 = if c {
        1
    } else {
        0
    };
    let borrow: u32 = if c {
        0
    } else {
        1
    };
    if op == OP_AND || op == OP_TST {
        a & b
    } else if op == OP_EOR || op == OP_TEQ {
        a ^ b
    } else if op == OP_SUB || op == OP_CMP {
        sub32(a, b)
    } else if op == OP_RSB {
        sub32(b, a)
    } else if op == OP_ADD || op == OP_CMN {
        add32(a, b)
    } else if op == OP_ADC {
        add32(add32(a, b), carry)
    } else if op == OP_SBC {
        sub32(sub32(a, b), borrow)
    } else if op == OP_RSC {
        sub32(sub32(b, a), borrow)
    } else if op == OP_ORR {
        a | b
    } else if op == OP_MOV {
        b
    } else if op == OP_BIC {
        a & !b
    } else {
        !b
    }
}

/// The carry flag that operation `op` leaves: carry out of an addition, no
/// borrow out of a subtraction, or the shifter's carry out for logical ops.
pub open spec fn alu_carry(op: u32, a: u32, b: u32, c: bool, shifter_carry: bool) -> bool {
    let borrow: int = if c {
        0
    } else {
        1
    };
    if op == OP_ADD || op == OP_CMN {
        a + b > u32::MAX
    } else if op == OP_ADC {
        a + b + (1 - borrow) > u32::MAX
    } else if op == OP_SUB || op == OP_CMP {
        a >= b
    } else if op == OP_SBC {
        a >= b + borrow
    } else if op == OP_RSB {
        b >= a
    } else if op == OP_RSC {
        b >= a + borrow
    } else {
        shifter_carry
    }
}

/// The overflow flag that operation `op` leaves; logical ops keep `v`.
pub open spec fn alu_overflow(op: u32, a: u32, b: u32, r: u32, v: bool) -> bool {
    if op == OP_ADD || op == OP_ADC || op == OP_CMN {
        add_overflow_spec(a, b, r)
    } else if op == OP_SUB || op == OP_SBC || op == OP_CMP {
        sub_overflow_spec(a, b, r)
    } else if op == OP_RSB || op == OP_RSC {
        sub_overflow_spec(b, a, r)
    } else {
        v
    }
}

/// TST, TEQ, CMP and CMN only set flags.
pub open spec fn is_compare(op: u32) -> bool {
    OP_TST <= op <= OP_CMN
}

/// The register file with NZCV set from result `r` of operation `op`.
pub open spec fn flags_after(cpu: CpuModel, op: u32, a: u32, b: u32, shifter_carry: bool, r: u32) -> CpuModel {
    cpu.set_nzcv(
        bit(r, 31),
        r == 0,
        alu_carry(op, a, b, cpu.c(), shifter_carry),
        alu_overflow(op, a, b, r, cpu.v()),
    )
}

/// A data-processing instruction with opcode `op`: the next state, and the
/// error where it is not carried out.
pub open spec fn dp_spec(s: EmuModel, instruction: u32, op: u32) -> (EmuModel, Option<ExecError>) {
    let cpu = s.cpu;
    let rd = ((instruction >> 12u32) & 0xf) as int;
    let a = cpu.reg(((instruction >> 16u32) & 0xf) as int);
    let b = shifter_of(cpu, instruction).0;
    let shifter_carry = shifter_of(cpu, instruction).1;
    let r = alu_result(op, a, b, cpu.c());
    let set_flags = bit(instruction, 20);
    if is_extension_space(instruction) {
        (s, Some(ExecError::UndefinedInstruction(instruction)))
    } else if is_compare(op) {
        if set_flags {
            (s.with_cpu(flags_after(cpu, op, a, b, shifter_carry, r)), None)
        } else {
            (s, Some(ExecError::UndefinedInstruction(instruction)))
        }
    } else if set_flags && rd == 15 {
        if cpu.has_spsr() {
            (s.with_cpu(cpu.set_reg(rd, r).set_cpsr(cpu.spsr())), None)
        } else {
            (s, Some(ExecError::Unpredictable(instruction)))
        }
    } else if set_flags {
        (s.with_cpu(flags_after(cpu.set_reg(rd, r), op, a, b, shifter_carry, r)), None)
    } else {
        (s.with_cpu(cpu.set_reg(rd, r)), None)
    }
}

/// Computes `alu_result`.
pub fn alu_value(op: u32, a: u32, b: u32, c: bool) -> (r: u32)
    ensures
        r == alu_result(op, a, b, c),
{
    let carry: u32 = if c {
        1
    } else {
        0
    };
    let borrow: u32 = if c {
        0
    } else {
        1
    };
    if op == OP_AND || op == OP_TST {
        a & b
    } else if op == OP_EOR || op == OP_TEQ {
        a ^ b
    } else if op == OP_SUB || op == OP_CMP {
        a.wrapping_sub(b)
    } else if op == OP_RSB {
        b.wrapping_sub(a)
    } else if op == OP_ADD || op == OP_CMN {
        a.wrapping_add(b)
    } else if op == OP_ADC {
        a.wrapping_add(b).wrapping_add(carry)
    } else if op == OP_SBC {
        a.wrapping_sub(b).wrapping_sub(borrow)
    } else if op == OP_RSC {
        b.wrapping_sub(a).wrapping_sub(borrow)
    } else if op == OP_ORR {
        a | b
    } else if op == OP_MOV {
        b
    } else if op == OP_BIC {
        a & !b
    } else {
        !b
    }
}

/// Computes `alu_carry` and `alu_overflow`.
pub fn alu_flag_values(op: u32, a: u32, b: u32, c: bool, v: bool, shifter_carry: bool, r: u32) -> (f: (
    bool,
    bool,
))
    ensures
        f.0 == alu_carry(op, a, b, c, shifter_carry),
        f.1 == alu_overflow(op, a, b, r, v),
{
    let borrow: u32 = if c {
        0
    } else {
        1
    };
    let carry = if op == OP_ADD || op == OP_CMN {
        carry_from(a, b)
    } else if op == OP_ADC {
        carry_from_with_carry(a, b, 1 - borrow)
    } else if op == OP_SUB || op == OP_CMP {
        not_borrow_from(a, b)
    } else if op == OP_SBC {
        not_borrow_from_with_carry(a, b, borrow)
    } else if op == OP_RSB {
        not_borrow_from(b, a)
    } else if op == OP_RSC {
        not_borrow_from_with_carry(b, a, borrow)
    } else {
        shifter_carry
    };
    let overflow = if op == OP_ADD || op == OP_ADC || op == OP_CMN {
        addition_overflow(a, b, r)
    } else if op == OP_SUB || op == OP_SBC || op == OP_CMP {
        substraction_overflow(a, b, r)
    } else if op == OP_RSB || op == OP_RSC {
        substraction_overflow(b, a, r)
    } else {
        v
    };
    (carry, overflow)
}

/// Common functionality of data processing instructions that write Rd.
pub fn data_processing_instruction_wrapper(emulator: &mut Emulator, instruction: u32, op: u32) -> (r:
    Result<u32, ExecError>)
    requires
        old(emulator).wf(),
        !is_compare(op),
    ensures
        final(emulator).wf(),
        step_matches(r, final(emulator)@, dp_spec(old(emulator)@, instruction, op)),
{
    if !bit_of(instruction, 25) && bit_of(instruction, 4) && bit_of(instruction, 7) {
        return Err(ExecError::UndefinedInstruction(instruction));
    }
    let c = emulator.cpu.get_c();
    let v = emulator.cpu.get_v();
    let set_flags = bit_of(instruction, 20);
    let (rd, a, b, shifter_carry) = get_data_processing_operands(emulator, instruction);
    let result = alu_value(op, a, b, c);
    let rd_index = rd.index();
    if set_flags && rd_index == 15 {
        if emulator.cpu.current_mode_has_spsr() {
            let spsr = emulator.cpu.get_spsr();
            emulator.cpu.write(rd_index, result);
            emulator.cpu.set_cpsr(spsr);
        } else {
            return Err(ExecError::Unpredictable(instruction));
        }
    } else {
        emulator.cpu.write(rd_index, result);
        if set_flags {
            let (carry, overflow) = alu_flag_values(op, a, b, c, v, shifter_carry, result);
            emulator.cpu.set_nzcv(bit_of(result, 31), result == 0, carry, overflow);
        }
    }
    Ok(1)
}

/// Common functionality of data processing instructions that only compare.
pub fn data_processing_compare_instruction_wrapper(
    emulator: &mut Emulator,
    instruction: u32,
    op: u32,
) -> (r: Result<u32, ExecError>)
    requires
        old(emulator).wf(),
        is_compare(op),
    ensures
        final(emulator).wf(),
        step_matches(r, final(emulator)@, dp_spec(old(emulator)@, instruction, op)),
{
    if !bit_of(instruction, 25) && bit_of(instruction, 4) && bit_of(instruction, 7) {
        return Err(ExecError::UndefinedInstruction(instruction));
    }
    if !bit_of(instruction, 20) {
        return Err(ExecError::UndefinedInstruction(instruction));
    }
    let c = emulator.cpu.get_c();
    let v = emulator.cpu.get_v();
    let (_, a, b, shifter_carry) = get_data_processing_operands(emulator, instruction);
    let result = alu_value(op, a, b, c);
    let (carry, overflow) = alu_flag_values(op, a, b, c, v, shifter_carry, result);
    emulator.cpu.set_nzcv(bit_of(result, 31), result == 0, carry, overflow);
    Ok(1)
}

/// Addition that includes the carry flag.
pub fn adc(emulator: &mut Emulator, instruction: u32) -> (r: Result<u32, ExecError>)
    requires
        old(emulator).wf(),
    ensures
        final(emulator).wf(),
        step_matches(r, final(emulator)@, dp_spec(old(emulator)@, instruction, OP_ADC)),
{
    data_processing_instruction_wrapper(emulator, instruction, OP_ADC)
}

/// Addition.
pub fn add(emulator: &mut Emulator, instruction: u32) -> (r: Result<u32, ExecError>)
    requires
        old(emulator).wf(),
    ensures
        final(emulator).wf(),
        step_matches(r, final(emulator)@, dp_spec(old(emulator)@, instruction, OP_ADD)),
{
    data_processing_instruction_wrapper(emulator, instruction, OP_ADD)
}

/// Logical AND.
pub fn and(emulator: &mut Emulator, instruction: u32) -> (r: Result<u32, ExecError>)
    requires
        old(emulator).wf(),
    ensures
        final(emulator).wf(),
        step_matches(r, final(emulator)@, dp_spec(old(emulator)@, instruction, OP_AND)),
{
    data_processing_instruction_wrapper(emulator, instruction, OP_AND)
}

/// Bit clear: `Rn AND NOT shifter_operand`.
pub fn bic(emulator: &mut Emulator, instruction: u32) -> (r: Result<u32, ExecError>)
    requires
        old(emulator).wf(),
    ensures
        final(emulator).wf(),
        step_matches(r, final(emulator)@, dp_spec(old(emulator)@, instruction, OP_BIC)),
{
    data_processing_instruction_wrapper(emulator, instruction, OP_BIC)
}

/// Logical exclusive OR.
pub fn eor(emulator: &mut Emulator, instruction: u32) -> (r: Result<u32, ExecError>)
    requires
        old(emulator).wf(),
    ensures
        final(emulator).wf(),
        step_matches(r, final(emulator)@, dp_spec(old(emulator)@, instruction, OP_EOR)),
{
    data_processing_instruction_wrapper(emulator, instruction, OP_EOR)
}

/// Move.
pub fn mov(emulator: &mut Emulator, instruction: u32) -> (r: Result<u32, ExecError>)
    requires
        old(emulator).wf(),
    ensures
        final(emulator).wf(),
        step_matches(r, final(emulator)@, dp_spec(old(emulator)@, instruction, OP_MOV)),
{
    data_processing_instruction_wrapper(emulator, instruction, OP_MOV)
}

/// Move NOT: the ones' complement of the shifter operand.
pub fn mvn(emulator: &mut Emulator, instruction: u32) -> (r: Result<u32, ExecError>)
    requires
        old(emulator).wf(),
    ensures
        final(emulator).wf(),
        step_matches(r, final(emulator)@, dp_spec(old(emulator)@, instruction, OP_MVN)),
{
    data_processing_instruction_wrapper(emulator, instruction, OP_MVN)
}

/// Logical OR (ORR).
pub fn or(emulator: &mut Emulator, instruction: u32) -> (r: Result<u32, ExecError>)
    requires
        old(emulator).wf(),
    ensures
        final(emulator).wf(),
        step_matches(r, final(emulator)@, dp_spec(old(emulator)@, instruction, OP_ORR)),
{
    data_processing_instruction_wrapper(emulator, instruction, OP_ORR)
}

/// Reverse subtraction: `shifter_operand - Rn`.
pub fn rsb(emulator: &mut Emulator, instruction: u32) -> (r: Result<u32, ExecError>)
    requires
        old(emulator).wf(),
    ensures
        final(emulator).wf(),
        step_matches(r, final(emulator)@, dp_spec(old(emulator)@, instruction, OP_RSB)),
{
    data_processing_instruction_wrapper(emulator, instruction, OP_RSB)
}

/// Reverse subtraction with carry.
pub fn rsc(emulator: &mut Emulator, instruction: u32) -> (r: Result<u32, ExecError>)
    requires
        old(emulator).wf(),
    ensures
        final(emulator).wf(),
        step_matches(r, final(emulator)@, dp_spec(old(emulator)@, instruction, OP_RSC)),
{
    data_processing_instruction_wrapper(emulator, instruction, OP_RSC)
}

/// Subtraction with carry.
pub fn sbc(emulator: &mut Emulator, instruction: u32) -> (r: Result<u32, ExecError>)
    requires
        old(emulator).wf(),
    ensures
        final(emulator).wf(),
        step_matches(r, final(emulator)@, dp_spec(old(emulator)@, instruction, OP_SBC)),
{
    data_processing_instruction_wrapper(emulator, instruction, OP_SBC)
}

/// Subtraction.
pub fn sub(emulator: &mut Emulator, instruction: u32) -> (r: Result<u32, ExecError>)
    requires
        old(emulator).wf(),
    ensures
        final(emulator).wf(),
        step_matches(r, final(emulator)@, dp_spec(old(emulator)@, instruction, OP_SUB)),
{
    data_processing_instruction_wrapper(emulator, instruction, OP_SUB)
}

/// Compare negative: flags of `Rn + shifter_operand`.
pub fn cmn(emulator: &mut Emulator, instruction: u32) -> (r: Result<u32, ExecError>)
    requires
        old(emulator).wf(),
    ensures
        final(emulator).wf(),
        step_matches(r, final(emulator)@, dp_spec(old(emulator)@, instruction, OP_CMN)),
{
    data_processing_compare_instruction_wrapper(emulator, instruction, OP_CMN)
}

/// Compare: flags of `Rn - shifter_operand`.
pub fn cmp(emulator: &mut Emulator, instruction: u32) -> (r: Result<u32, ExecError>)
    requires
        old(emulator).wf(),
    ensures
        final(emulator).wf(),
        step_matches(r, final(emulator)@, dp_spec(old(emulator)@, instruction, OP_CMP)),
{
    data_processing_compare_instruction_wrapper(emulator, instruction, OP_CMP)
}

/// Test equivalence: flags of `Rn EOR shifter_operand`.
pub fn teq(emulator: &mut Emulator, instruction: u32) -> (r: Result<u32, ExecError>)
    requires
        old(emulator).wf(),
    ensures
        final(emulator).wf(),
        step_matches(r, final(emulator)@, dp_spec(old(emulator)@, instruction, OP_TEQ)),
{
    data_processing_compare_instruction_wrapper(emulator, instruction, OP_TEQ)
}

/// Test: flags of `Rn AND shifter_operand`.
pub fn tst(emulator: &mut Emulator, instruction: u32) -> (r: Result<u32, ExecError>)
    requires
        old(emulator).wf(),
    ensures
        final(emulator).wf(),
        step_matches(r, final(emulator)@, dp_spec(old(emulator)@, instruction, OP_TST)),
{
    data_processing_compare_instruction_wrapper(emulator, instruction, OP_TST)
}

/// The product of multiply (and multiply-accumulate) into Rd, with flags.
pub open spec fn mul_spec(s: EmuModel, instruction: u32, accumulate: bool) -> (EmuModel, Option<ExecError>) {
    let cpu = s.cpu;
    let rd = ((instruction >> 16u32) & 0xf) as int;
    let product = mul32(cpu.reg((instruction & 0xf) as int), cpu.reg(((instruction >> 8u32) & 0xf) as int));
    let r = if accumulate {
        add32(product, cpu.reg(((instruction >> 12u32) & 0xf) as int))
    } else {
        product
    };
    let written = cpu.set_reg(rd, r);
    (s.with_cpu(if bit(instruction, 20) {
        written.set_nzcv(bit(r, 31), r == 0, cpu.c(), cpu.v())
    } else {
        written
    }), None)
}

/// The 64-bit product of two registers, signed or unsigned, as a bit pattern.
pub open spec fn long_product(a: u32, b: u32, signed: bool) -> u64 {
    if signed {
        (((a as i32) as i64) * ((b as i32) as i64)) as u64
    } else {
        ((a as u64) * (b as u64)) as u64
    }
}

/// The long multiplies: `(RdHi, RdLo) = Rm * Rs (+ (RdHi, RdLo))`, with flags.
pub open spec fn long_mul_spec(s: EmuModel, instruction: u32, signed: bool, accumulate: bool) -> (
    EmuModel,
    Option<ExecError>,
) {
    let cpu = s.cpu;
    let rd_hi = ((instruction >> 16u32) & 0xf) as int;
    let rd_lo = ((instruction >> 12u32) & 0xf) as int;
    let p = long_product(cpu.reg((instruction & 0xf) as int), cpu.reg(((instruction >> 8u32) & 0xf) as int), signed);
    let p_lo = p as u32;
    let p_hi = (p >> 32u64) as u32;
    let lo = if accumulate {
        add32(p_lo, cpu.reg(rd_lo))
    } else {
        p_lo
    };
    let carry: u32 = if p_lo + cpu.reg(rd_lo) > u32::MAX {
        1
    } else {
        0
    };
    let hi = if accumulate {
        add32(add32(p_hi, cpu.reg(rd_hi)), carry)
    } else {
        p_hi
    };
    let written = cpu.set_reg(rd_lo, lo).set_reg(rd_hi, hi);
    (s.with_cpu(if bit(instruction, 20) {
        written.set_nzcv(bit(hi, 31), hi == 0 && lo == 0, cpu.c(), cpu.v())
    } else {
        written
    }), None)
}

fn multiply(emulator: &mut Emulator, instruction: u32, accumulate: bool) -> (r: Result<u32, ExecError>)
    requires
        old(emulator).wf(),
    ensures
        final(emulator).wf(),
        step_matches(r, final(emulator)@, mul_spec(old(emulator)@, instruction, accumulate)),
{
    let c = emulator.cpu.get_c();
    let v = emulator.cpu.get_v();
    let rm = emulator.cpu.read(instruction & 0xf);
    let rs = emulator.cpu.read((instruction >> 8u32) & 0xf);
    let rn = emulator.cpu.read((instruction >> 12u32) & 0xf);
    let product = rm.wrapping_mul(rs);
    let result = if accumulate {
        product.wrapping_add(rn)
    } else {
        product
    };
    emulator.cpu.write((instruction >> 16u32) & 0xf, result);
    if bit_of(instruction, 20) {
        emulator.cpu.set_nzcv(bit_of(result, 31), result == 0, c, v);
    }
    Ok(1)
}

fn long_multiply(emulator: &mut Emulator, instruction: u32, signed: bool, accumulate: bool) -> (r:
    Result<u32, ExecError>)
    requires
        old(emulator).wf(),
    ensures
        final(emulator).wf(),
        step_matches(r, final(emulator)@, long_mul_spec(old(emulator)@, instruction, signed, accumulate)),
{
    let c = emulator.cpu.get_c();
    let v = emulator.cpu.get_v();
    let rm = emulator.cpu.read(instruction & 0xf);
    let rs = emulator.cpu.read((instruction >> 8u32) & 0xf);
    let rd_hi = (instruction >> 16u32) & 0xf;
    let rd_lo = (instruction >> 12u32) & 0xf;
    let hi_value = emulator.cpu.read(rd_hi);
    let lo_value = emulator.cpu.read(rd_lo);
    let p: u64 = if signed {
        let x = (rm as i32) as i64;
        let y = (rs as i32) as i64;
        assert(-0x4000_0000_0000_0000 <= x * y <= 0x4000_0000_0000_0000) by (nonlinear_arith)
            requires
                -0x8000_0000 <= x <= 0x7fff_ffff,
                -0x8000_0000 <= y <= 0x7fff_ffff,
        ;
        (x * y) as u64
    } else {
        let x = rm as u64;
        let y = rs as u64;
        assert(x * y <= 0xffff_fffe_0000_0001) by (nonlinear_arith)
            requires
                x <= 0xffff_ffff,
                y <= 0xffff_ffff,
        ;
        x * y
    };
    let p_lo = p as u32;
    let p_hi = (p >> 32u64) as u32;
    let carry: u32 = if carry_from(p_lo, lo_value) {
        1
    } else {
        0
    };
    let lo = if accumulate {
        p_lo.wrapping_add(lo_value)
    } else {
        p_lo
    };
    let hi = if accumulate {
        p_hi.wrapping_add(hi_value).wrapping_add(carry)
    } else {
        p_hi
    };
    emulator.cpu.write(rd_lo, lo);
    emulator.cpu.write(rd_hi, hi);
    if bit_of(instruction, 20) {
        emulator.cpu.set_nzcv(bit_of(hi, 31), hi == 0 && lo == 0, c, v);
    }
    Ok(1)
}

/// Multiply: `Rd = Rm * Rs` (low 32 bits).
pub fn mul(emulator: &mut Emulator, instruction: u32) -> (r: Result<u32, ExecError>)
    requires
        old(emulator).wf(),
    ensures
        final(emulator).wf(),
        step_matches(r, final(emulator)@, mul_spec(old(emulator)@, instruction, false)),
{
    multiply(emulator, instruction, false)
}

/// Multiply accumulate: `Rd = Rm * Rs + Rn` (low 32 bits).
pub fn mla(emulator: &mut Emulator, instruction: u32) -> (r: Result<u32, ExecError>)
    requires
        old(emulator).wf(),
    ensures
        final(emulator).wf(),
        step_matches(r, final(emulator)@, mul_spec(old(emulator)@, instruction, true)),
{
    multiply(emulator, instruction, true)
}

/// Unsigned multiply long.
pub fn umull(emulator: &mut Emulator, instruction: u32) -> (r: Result<u32, ExecError>)
    requires
        old(emulator).wf(),
    ensures
        final(emulator).wf(),
        step_matches(r, final(emulator)@, long_mul_spec(old(emulator)@, instruction, false, false)),
{
    long_multiply(emulator, instruction, false, false)
}

/// Unsigned multiply accumulate long.
pub fn umlal(emulator: &mut Emulator, instruction: u32) -> (r: Result<u32, ExecError>)
    requires
        old(emulator).wf(),
    ensures
        final(emulator).wf(),
        step_matches(r, final(emulator)@, long_mul_spec(old(emulator)@, instruction, false, true)),
{
    long_multiply(emulator, instruction, false, true)
}

/// Signed multiply long.
pub fn smull(emulator: &mut Emulator, instruction: u32) -> (r: Result<u32, ExecError>)
    requires
        old(emulator).wf(),
    ensures
        final(emulator).wf(),
        step_matches(r, final(emulator)@, long_mul_spec(old(emulator)@, instruction, true, false)),
{
    long_multiply(emulator, instruction, true, false)
}

/// Signed multiply accumulate long.
pub fn smlal(emulator: &mut Emulator, instruction: u32) -> (r: Result<u32, ExecError>)
    requires
        old(emulator).wf(),
    ensures
        final(emulator).wf(),
        step_matches(r, final(emulator)@, long_mul_spec(old(emulator)@, instruction, true, true)),
{
    long_multiply(emulator, instruction, true, true)
}

/// The branch displacement: the 24-bit signed immediate, sign-extended and
/// shifted left by two.
pub open spec fn branch_offset(instruction: u32) -> u32 {
    let imm = instruction & 0x00FF_FFFF;
    if bit(instruction, 23) {
        (imm | 0xFF00_0000) << 2u32
    } else {
        imm << 2u32
    }
}

/// B and BL: `PC = PC + offset`, BL first saving PC in r14.
pub open spec fn branch_spec(s: EmuModel, instruction: u32, link: bool) -> (EmuModel, Option<ExecError>) {
    let pc = s.cpu.reg(15);
    let linked = if link {
        s.cpu.set_reg(14, pc)
    } else {
        s.cpu
    };
    (s.with_cpu(linked.set_reg(15, add32(pc, branch_offset(instruction)))), None)
}

fn branch(emulator: &mut Emulator, instruction: u32, link: bool) -> (r: Result<u32, ExecError>)
    requires
        old(emulator).wf(),
    ensures
        final(emulator).wf(),
        step_matches(r, final(emulator)@, branch_spec(old(emulator)@, instruction, link)),
{
    let pc = emulator.cpu.read(15);
    let imm = instruction & 0x00FF_FFFF;
    let offset = if bit_of(instruction, 23) {
        (imm | 0xFF00_0000) << 2u32
    } else {
        imm << 2u32
    };
    if link {
        emulator.cpu.write(14, pc);
    }
    emulator.cpu.write(15, pc.wrapping_add(offset));
    Ok(1)
}

/// Relative branch by up to 32 MB in either direction.
pub fn b(emulator: &mut Emulator, instruction: u32) -> (r: Result<u32, ExecError>)
    requires
        old(emulator).wf(),
    ensures
        final(emulator).wf(),
        step_matches(r, final(emulator)@, branch_spec(old(emulator)@, instruction, false)),
{
    branch(emulator, instruction, false)
}

/// Relative branch that saves the program counter in r14.
pub fn bl(emulator: &mut Emulator, instruction: u32) -> (r: Result<u32, ExecError>)
    requires
        old(emulator).wf(),
    ensures
        final(emulator).wf(),
        step_matches(r, final(emulator)@, branch_spec(old(emulator)@, instruction, true)),
{
    branch(emulator, instruction, true)
}

/// BX: the T bit from bit 0 of the target, and `PC = target` with bit 0 clear.
pub open spec fn bx_spec(s: EmuModel, target: u32) -> (EmuModel, Option<ExecError>) {
    (s.with_cpu(
        s.cpu.set_cpsr(with_flag(s.cpu.cpsr, 0x20, bit(target, 0))).set_reg(15, target & 0xFFFF_FFFE),
    ), None)
}

/// Branches to the address in a register, entering Thumb state where its bit 0 is set.
pub fn branch_exchange(emulator: &mut Emulator, target: u32) -> (r: Result<u32, ExecError>)
    requires
        old(emulator).wf(),
    ensures
        final(emulator).wf(),
        step_matches(r, final(emulator)@, bx_spec(old(emulator)@, target)),
{
    let thumb = bit_of(target, 0);
    proof {
        crate::bitfield::lemma_flag_bits_keep_mode(emulator.cpu@.cpsr);
    }
    emulator.cpu.set_thumb_bit(thumb);
    emulator.cpu.write(15, target & 0xFFFF_FFFE);
    Ok(1)
}

/// Branch and exchange instruction set, to the address in Rm.
pub fn bx(emulator: &mut Emulator, instruction: u32) -> (r: Result<u32, ExecError>)
    requires
        old(emulator).wf(),
    ensures
        final(emulator).wf(),
        step_matches(r, final(emulator)@, bx_spec(old(emulator)@, old(emulator)@.cpu.reg((instruction & 0xf) as int))),
{
    let target = emulator.cpu.read(instruction & 0xf);
    branch_exchange(emulator, target)
}

/// Exception entry into supervisor mode: CPSR saved to SPSR_svc, the return
/// address `return_address` to r14_svc, IRQ and FIQ disabled, ARM state, and
/// `PC = 0x08`.
pub open spec fn swi_spec(s: EmuModel, return_address: u32) -> (EmuModel, Option<ExecError>) {
    let saved = s.cpu.cpsr;
    let svc = s.cpu.set_cpsr((saved & !0x1fu32) | crate::cpu::MODE_SVC);
    let banked = svc.set_reg(14, return_address).set_spsr(saved);
    let masked = banked.set_cpsr(
        with_flag(with_flag(with_flag(banked.cpsr, 0x80, true), 0x40, true), 0x20, false),
    );
    (s.with_cpu(masked.set_reg(15, 8)), None)
}

/// Enters supervisor mode for a software interrupt (shared with Thumb).
pub fn software_interrupt(emulator: &mut Emulator, return_address: u32) -> (r: Result<u32, ExecError>)
    requires
        old(emulator).wf(),
    ensures
        final(emulator).wf(),
        step_matches(r, final(emulator)@, swi_spec(old(emulator)@, return_address)),
{
    let saved = emulator.cpu.get_cpsr();
    emulator.cpu.set_operation_mode(OperationModes::SVC);
    proof {
        crate::bitfield::lemma_mode_field(saved, crate::cpu::MODE_SVC);
    }
    emulator.cpu.write(14, return_address);
    emulator.cpu.set_spsr(saved);
    let ghost c0 = emulator.cpu@.cpsr;
    proof {
        crate::bitfield::lemma_flag_bits_keep_mode(c0);
        crate::bitfield::lemma_flag_bits_keep_mode(c0 | 0x80u32);
        crate::bitfield::lemma_flag_bits_keep_mode((c0 | 0x80u32) | 0x40u32);
    }
    emulator.cpu.set_irq_disable(true);
    emulator.cpu.set_fiq_disable(true);
    emulator.cpu.set_thumb_bit(false);
    emulator.cpu.write(15, 8);
    Ok(1)
}

/// Software interrupt: supervisor call with return address `PC + 4`.
pub fn swi(emulator: &mut Emulator, instruction: u32) -> (r: Result<u32, ExecError>)
    requires
        old(emulator).wf(),
    ensures
        final(emulator).wf(),
        step_matches(r, final(emulator)@, swi_spec(old(emulator)@, add32(old(emulator)@.cpu.reg(15), 4))),
{
    let pc = emulator.cpu.read(15);
    software_interrupt(emulator, pc.wrapping_add(4))
}

/// MRS: Rd = CPSR, or SPSR where bit 22 is set (which needs a mode with an SPSR).
pub open spec fn mrs_spec(s: EmuModel, instruction: u32) -> (EmuModel, Option<ExecError>) {
    let rd = ((instruction >> 12u32) & 0xf) as int;
    if bit(instruction, 22) {
        if s.cpu.has_spsr() {
            (s.with_cpu(s.cpu.set_reg(rd, s.cpu.spsr())), None)
        } else {
            (s, Some(ExecError::Unpredictable(instruction)))
        }
    } else {
        (s.with_cpu(s.cpu.set_reg(rd, s.cpu.cpsr)), None)
    }
}

/// Move PSR to general-purpose register.
pub fn mrs(emulator: &mut Emulator, instruction: u32) -> (r: Result<u32, ExecError>)
    requires
        old(emulator).wf(),
    ensures
        final(emulator).wf(),
        step_matches(r, final(emulator)@, mrs_spec(old(emulator)@, instruction)),
{
    let rd = (instruction >> 12u32) & 0xf;
    let value = if bit_of(instruction, 22) {
        if !emulator.cpu.current_mode_has_spsr() {
            return Err(ExecError::Unpredictable(instruction));
        }
        emulator.cpu.get_spsr()
    } else {
        emulator.cpu.get_cpsr()
    };
    emulator.cpu.write(rd, value);
    Ok(1)
}

/// The bytes of a status register that the field mask (bits 19:16) selects.
pub open spec fn field_byte_mask(instruction: u32) -> u32 {
    let fields = (instruction >> 16u32) & 0xf;
    (if bit(fields, 0) {
        0x0000_00FFu32
    } else {
        0u32
    }) | (if bit(fields, 1) {
        0x0000_FF00u32
    } else {
        0u32
    }) | (if bit(fields, 2) {
        0x00FF_0000u32
    } else {
        0u32
    }) | (if bit(fields, 3) {
        0xFF00_0000u32
    } else {
        0u32
    })
}

/// The operand of MSR: a rotated 8-bit immediate or Rm.
pub open spec fn msr_operand(cpu: CpuModel, instruction: u32) -> u32 {
    if bit(instruction, 25) {
        ror(instruction & 0xff, (((instruction >> 8u32) & 0xf) * 2) as u32)
    } else {
        cpu.reg((instruction & 0xf) as int)
    }
}

/// Flags the user may write.
pub const USER_MASK: u32 = 0xF000_0000;

/// The control bits a privileged mode may write as well.
pub const PRIV_MASK: u32 = 0x0000_000F;

/// The Thumb state bit.
pub const STATE_MASK: u32 = 0x0000_0020;

/// MSR: writes the selected fields of CPSR or SPSR from the operand.
pub open spec fn msr_spec(s: EmuModel, instruction: u32) -> (EmuModel, Option<ExecError>) {
    let cpu = s.cpu;
    let operand = msr_operand(cpu, instruction);
    let byte_mask = field_byte_mask(instruction);
    if !bit(instruction, 22) {
        if cpu.mode() != MODE_USR && operand & STATE_MASK != 0 {
            (s, Some(ExecError::Unpredictable(instruction)))
        } else {
            let mask = if cpu.mode() != MODE_USR {
                byte_mask & (USER_MASK | PRIV_MASK)
            } else {
                byte_mask & USER_MASK
            };
            (s.with_cpu(cpu.set_cpsr((cpu.cpsr & !mask) | (operand & mask))), None)
        }
    } else if cpu.has_spsr() {
        let mask = byte_mask & (USER_MASK | PRIV_MASK | STATE_MASK);
        (s.with_cpu(cpu.set_spsr((cpu.spsr() & !mask) | (operand & mask))), None)
    } else {
        (s, Some(ExecError::Unpredictable(instruction)))
    }
}

/// Move to status register from ARM register or immediate.
pub fn msr(emulator: &mut Emulator, instruction: u32) -> (r: Result<u32, ExecError>)
    requires
        old(emulator).wf(),
    ensures
        final(emulator).wf(),
        step_matches(r, final(emulator)@, msr_spec(old(emulator)@, instruction)),
{
    let operand = if bit_of(instruction, 25) {
        rotate_right(instruction & 0xff, ((instruction >> 8u32) & 0xf) * 2)
    } else {
        emulator.cpu.read(instruction & 0xf)
    };
    let fields = (instruction >> 16u32) & 0xf;
    let byte_mask = (if bit_of(fields, 0) {
        0x0000_00FFu32
    } else {
        0u32
    }) | (if bit_of(fields, 1) {
        0x0000_FF00u32
    } else {
        0u32
    }) | (if bit_of(fields, 2) {
        0x00FF_0000u32
    } else {
        0u32
    }) | (if bit_of(fields, 3) {
        0xFF00_0000u32
    } else {
        0u32
    });
    let cpsr = emulator.cpu.get_cpsr();
    let privileged = cpsr & 0x1f != MODE_USR;
    if !bit_of(instruction, 22) {
        if privileged && operand & STATE_MASK != 0 {
            return Err(ExecError::Unpredictable(instruction));
        }
        let mask = if privileged {
            byte_mask & (USER_MASK | PRIV_MASK)
        } else {
            byte_mask & USER_MASK
        };
        emulator.cpu.set_cpsr((cpsr & !mask) | (operand & mask));
    } else if emulator.cpu.current_mode_has_spsr() {
        let mask = byte_mask & (USER_MASK | PRIV_MASK | STATE_MASK);
        let spsr = emulator.cpu.get_spsr();
        emulator.cpu.set_spsr((spsr & !mask) | (operand & mask));
    } else {
        return Err(ExecError::Unpredictable(instruction));
    }
    Ok(1)
}

/// An instruction that is undefined on this target: nothing changes.
pub open spec fn undefined_spec(s: EmuModel, instruction: u32) -> (EmuModel, Option<ExecError>) {
    (s, Some(ExecError::UndefinedInstruction(instruction)))
}

/// Coprocessor data processing; no coprocessor exists on this target.
pub fn cdp(emulator: &mut Emulator, instruction: u32) -> (r: Result<u32, ExecError>)
    requires
        old(emulator).wf(),
    ensures
        final(emulator).wf(),
        step_matches(r, final(emulator)@, undefined_spec(old(emulator)@, instruction)),
{
    Err(ExecError::UndefinedInstruction(instruction))
}

/// Load coprocessor; undefined on this target.
pub fn ldc(emulator: &mut Emulator, instruction: u32) -> (r: Result<u32, ExecError>)
    requires
        old(emulator).wf(),
    ensures
        final(emulator).wf(),
        step_matches(r, final(emulator)@, undefined_spec(old(emulator)@, instruction)),
{
    Err(ExecError::UndefinedInstruction(instruction))
}

/// Store coprocessor; undefined on this target.
pub fn stc(emulator: &mut Emulator, instruction: u32) -> (r: Result<u32, ExecError>)
    requires
        old(emulator).wf(),
    ensures
        final(emulator).wf(),
        step_matches(r, final(emulator)@, undefined_spec(old(emulator)@, instruction)),
{
    Err(ExecError::UndefinedInstruction(instruction))
}

/// Move to coprocessor from ARM register; undefined on this target.
pub fn mcr(emulator: &mut Emulator, instruction: u32) -> (r: Result<u32, ExecError>)
    requires
        old(emulator).wf(),
    ensures
        final(emulator).wf(),
        step_matches(r, final(emulator)@, undefined_spec(old(emulator)@, instruction)),
{
    Err(ExecError::UndefinedInstruction(instruction))
}

/// Move to ARM register from coprocessor; undefined on this target.
pub fn mrc(emulator: &mut Emulator, instruction: u32) -> (r: Result<u32, ExecError>)
    requires
        old(emulator).wf(),
    ensures
        final(emulator).wf(),
        step_matches(r, final(emulator)@, undefined_spec(old(emulator)@, instruction)),
{
    Err(ExecError::UndefinedInstruction(instruction))
}


/// What a single load or store moves.
#[derive(Clone, Copy, Debug, PartialEq, Eq, Structural)]
pub enum Transfer {
    LoadWord,
    LoadByte,
    LoadHalf,
    LoadSignedByte,
    LoadSignedHalf,
    StoreWord,
    StoreByte,
    StoreHalf,
}

/// The word read from `address`: the aligned word rotated right by eight
/// times the low two address bits.
pub open spec fn load_word_value(mem: MemModel, address: u32) -> u32 {
    ror(mem.word(address & 0xFFFF_FFFC), ((address & 3) * 8) as u32)
}

pub open spec fn sign_extend_byte(b: u8) -> u32 {
    if (b as u32) & 0x80 != 0 {
        (b as u32) | 0xFFFF_FF00
    } else {
        b as u32
    }
}

pub open spec fn sign_extend_half(h: u16) -> u32 {
    if (h as u32) & 0x8000 != 0 {
        (h as u32) | 0xFFFF_0000
    } else {
        h as u32
    }
}

/// The state after moving data between register `rd` and `address`.
pub open spec fn transfer_spec(s: EmuModel, kind: Transfer, rd: int, address: u32) -> EmuModel {
    let cpu = s.cpu;
    let mem = s.mem;
    match kind {
        Transfer::LoadWord => {
            let v = load_word_value(mem, address);
            s.with_cpu(cpu.set_reg(rd, if rd == 15 {
                v & 0xFFFF_FFFC
            } else {
                v
            }))
        },
        Transfer::LoadByte => s.with_cpu(cpu.set_reg(rd, mem.byte(address) as u32)),
        Transfer::LoadHalf => s.with_cpu(cpu.set_reg(rd, mem.half(address) as u32)),
        Transfer::LoadSignedByte => s.with_cpu(cpu.set_reg(rd, sign_extend_byte(mem.byte(address)))),
        Transfer::LoadSignedHalf => s.with_cpu(cpu.set_reg(rd, sign_extend_half(mem.half(address)))),
        Transfer::StoreWord => s.with_mem(mem.set_word(address & 0xFFFF_FFFC, cpu.reg(rd))),
        Transfer::StoreByte => s.with_mem(mem.set_byte(address, (cpu.reg(rd) & 0xff) as u8)),
        Transfer::StoreHalf => s.with_mem(mem.set_half(address, (cpu.reg(rd) & 0xffff) as u16)),
    }
}

/// Reads a word for a load: aligned access, then rotation by the low address bits.
pub fn read_rotated_word(emulator: &Emulator, address: u32) -> (r: u32)
    requires
        emulator.wf(),
    ensures
        r == load_word_value(emulator@.mem, address),
{
    let value = read_word(emulator, address & 0xFFFF_FFFC);
    rotate_right(value, (address & 3) * 8)
}

/// Moves data between register `rd` and `address` as `kind` says.
pub fn transfer(emulator: &mut Emulator, kind: Transfer, rd: u32, address: u32)
    requires
        old(emulator).wf(),
        rd < 16,
    ensures
        final(emulator).wf(),
        final(emulator)@ == transfer_spec(old(emulator)@, kind, rd as int, address),
{
    match kind {
        Transfer::LoadWord => {
            let v = read_rotated_word(emulator, address);
            emulator.cpu.write(rd, if rd == 15 {
                v & 0xFFFF_FFFC
            } else {
                v
            });
        },
        Transfer::LoadByte => {
            let v = read_byte(emulator, address);
            emulator.cpu.write(rd, v as u32);
        },
        Transfer::LoadHalf => {
            let v = read_half_word(emulator, address);
            emulator.cpu.write(rd, v as u32);
        },
        Transfer::LoadSignedByte => {
            let v = read_byte(emulator, address) as u32;
            emulator.cpu.write(rd, if v & 0x80 != 0 {
                v | 0xFFFF_FF00
            } else {
                v
            });
        },
        Transfer::LoadSignedHalf => {
            let v = read_half_word(emulator, address) as u32;
            emulator.cpu.write(rd, if v & 0x8000 != 0 {
                v | 0xFFFF_0000
            } else {
                v
            });
        },
        Transfer::StoreWord => {
            let v = emulator.cpu.read(rd);
            write_word(emulator, address & 0xFFFF_FFFC, v);
        },
        Transfer::StoreByte => {
            let v = emulator.cpu.read(rd);
            write_byte(emulator, address, (v & 0xff) as u8);
        },
        Transfer::StoreHalf => {
            let v = emulator.cpu.read(rd);
            write_half_word(emulator, address, (v & 0xffff) as u16);
        },
    }
}

pub fn read_byte(emulator: &Emulator, address: u32) -> (r: u8)
    requires
        emulator.wf(),
    ensures
        r == emulator@.mem.byte(address),
{
    emulator.memory.read_byte(address)
}

pub fn read_half_word(emulator: &Emulator, address: u32) -> (r: u16)
    requires
        emulator.wf(),
    ensures
        r == emulator@.mem.half(address),
{
    emulator.memory.read_half_word(address)
}

pub fn read_word(emulator: &Emulator, address: u32) -> (r: u32)
    requires
        emulator.wf(),
    ensures
        r == emulator@.mem.word(address),
{
    emulator.memory.read_word(address)
}

pub fn write_byte(emulator: &mut Emulator, address: u32, value: u8)
    requires
        old(emulator).wf(),
    ensures
        final(emulator).wf(),
        final(emulator)@ == old(emulator)@.with_mem(old(emulator)@.mem.set_byte(address, value)),
{
    emulator.memory.write_byte(address, value);
}

pub fn write_half_word(emulator: &mut Emulator, address: u32, value: u16)
    requires
        old(emulator).wf(),
    ensures
        final(emulator).wf(),
        final(emulator)@ == old(emulator)@.with_mem(old(emulator)@.mem.set_half(address, value)),
{
    emulator.memory.write_half_word(address, value);
}

pub fn write_word(emulator: &mut Emulator, address: u32, value: u32)
    requires
        old(emulator).wf(),
    ensures
        final(emulator).wf(),
        final(emulator)@ == old(emulator)@.with_mem(old(emulator)@.mem.set_word(address, value)),
{
    emulator.memory.write_word(address, value);
}

/// Stores the word in register `source` at `address` rounded down to a word boundary.
pub fn store_register(emulator: &mut Emulator, source: RegisterNames, address: u32)
    requires
        old(emulator).wf(),
        source.index_spec() < 16,
    ensures
        final(emulator).wf(),
        final(emulator)@ == transfer_spec(old(emulator)@, Transfer::StoreWord, source.index_spec() as int, address),
{
    transfer(emulator, Transfer::StoreWord, source.index(), address)
}

/// Stores the low byte of register `source` at `address`.
pub fn store_register_byte(emulator: &mut Emulator, source: RegisterNames, address: u32)
    requires
        old(emulator).wf(),
        source.index_spec() < 16,
    ensures
        final(emulator).wf(),
        final(emulator)@ == transfer_spec(old(emulator)@, Transfer::StoreByte, source.index_spec() as int, address),
{
    transfer(emulator, Transfer::StoreByte, source.index(), address)
}

/// Loads the (rotated) word at `address` into `destination`; into the
/// program counter with the low two bits cleared.
pub fn load_register(emulator: &mut Emulator, destination: RegisterNames, address: u32)
    requires
        old(emulator).wf(),
        destination.index_spec() < 16,
    ensures
        final(emulator).wf(),
        final(emulator)@ == transfer_spec(old(emulator)@, Transfer::LoadWord, destination.index_spec() as int, address),
{
    transfer(emulator, Transfer::LoadWord, destination.index(), address)
}

/// Loads the byte at `address`, zero-extended, into `destination`.
pub fn load_register_byte(emulator: &mut Emulator, destination: RegisterNames, address: u32)
    requires
        old(emulator).wf(),
        destination.index_spec() < 16,
    ensures
        final(emulator).wf(),
        final(emulator)@ == transfer_spec(old(emulator)@, Transfer::LoadByte, destination.index_spec() as int, address),
{
    transfer(emulator, Transfer::LoadByte, destination.index(), address)
}

/// A word or unsigned byte load/store through addressing mode 2. Rejected
/// as unpredictable: a byte access or a translated (T) access with Rd = PC,
/// and pre-indexed write-back with Rn = Rd.
pub open spec fn load_store_spec(s: EmuModel, instruction: u32, kind: Transfer) -> (EmuModel, Option<ExecError>) {
    let rd = ((instruction >> 12u32) & 0xf) as int;
    let rn = ((instruction >> 16u32) & 0xf) as int;
    let pre_indexed = bit(instruction, 24) && bit(instruction, 21);
    let translated = !bit(instruction, 24) && bit(instruction, 21);
    if (bit(instruction, 22) && rd == 15) || (translated && rd == 15) || (pre_indexed && rn == rd) {
        (s, Some(ExecError::Unpredictable(instruction)))
    } else {
        let (address, _, cpu) = mode2_spec(s.cpu, instruction);
        (transfer_spec(s.with_cpu(cpu), kind, rd, address), None)
    }
}

/// Common functionality of word and unsigned byte loads and stores.
pub fn load_store_instruction_wrapper(emulator: &mut Emulator, instruction: u32, kind: Transfer) -> (r:
    Result<u32, ExecError>)
    requires
        old(emulator).wf(),
    ensures
        final(emulator).wf(),
        step_matches(r, final(emulator)@, load_store_spec(old(emulator)@, instruction, kind)),
{
    let rd = (instruction >> 12u32) & 0xf;
    let rn = (instruction >> 16u32) & 0xf;
    let pre_indexed = bit_of(instruction, 24) && bit_of(instruction, 21);
    let translated = !bit_of(instruction, 24) && bit_of(instruction, 21);
    if (bit_of(instruction, 22) && rd == 15) || (translated && rd == 15) || (pre_indexed && rn == rd) {
        return Err(ExecError::Unpredictable(instruction));
    }
    let (address, _) = process_addressing_mode(emulator, instruction);
    transfer(emulator, kind, rd, address);
    Ok(1)
}

/// A half-word or signed load/store through addressing mode 3. Rejected as
/// unpredictable: Rd = PC, pre-indexed write-back with Rn = Rd, and a
/// half-word access at an odd address.
pub open spec fn misc_load_store_spec(s: EmuModel, instruction: u32, kind: Transfer) -> (EmuModel, Option<ExecError>) {
    let rd = ((instruction >> 12u32) & 0xf) as int;
    let rn = ((instruction >> 16u32) & 0xf) as int;
    let pre_indexed = bit(instruction, 24) && bit(instruction, 21);
    let (address, _, cpu) = mode3_spec(s.cpu, instruction);
    if rd == 15 || (pre_indexed && rn == rd) || (bit(instruction, 5) && address & 1 == 1) {
        (s, Some(ExecError::Unpredictable(instruction)))
    } else {
        (transfer_spec(s.with_cpu(cpu), kind, rd, address), None)
    }
}

/// Common functionality of half-word and signed loads and stores.
pub fn misc_load_store_instruction_wrapper(emulator: &mut Emulator, instruction: u32, kind: Transfer) -> (r:
    Result<u32, ExecError>)
    requires
        old(emulator).wf(),
    ensures
        final(emulator).wf(),
        step_matches(r, final(emulator)@, misc_load_store_spec(old(emulator)@, instruction, kind)),
{
    let rd = (instruction >> 12u32) & 0xf;
    let rn = (instruction >> 16u32) & 0xf;
    let pre_indexed = bit_of(instruction, 24) && bit_of(instruction, 21);
    let offset = mode3_offset_value(emulator, instruction);
    let base = emulator.cpu.read(rn);
    let target = if bit_of(instruction, 23) {
        base.wrapping_add(offset)
    } else {
        base.wrapping_sub(offset)
    };
    let address = if bit_of(instruction, 24) {
        target
    } else {
        base
    };
    if rd == 15 || (pre_indexed && rn == rd) || (bit_of(instruction, 5) && address & 1 == 1) {
        return Err(ExecError::Unpredictable(instruction));
    }
    let (address, _) = process_misc_addressing_mode(emulator, instruction);
    transfer(emulator, kind, rd, address);
    Ok(1)
}

/// Load register (word).
pub fn ldr(emulator: &mut Emulator, instruction: u32) -> (r: Result<u32, ExecError>)
    requires
        old(emulator).wf(),
    ensures
        final(emulator).wf(),
        step_matches(r, final(emulator)@, load_store_spec(old(emulator)@, instruction, Transfer::LoadWord)),
{
    load_store_instruction_wrapper(emulator, instruction, Transfer::LoadWord)
}

/// Load register byte.
pub fn ldrb(emulator: &mut Emulator, instruction: u32) -> (r: Result<u32, ExecError>)
    requires
        old(emulator).wf(),
    ensures
        final(emulator).wf(),
        step_matches(r, final(emulator)@, load_store_spec(old(emulator)@, instruction, Transfer::LoadByte)),
{
    load_store_instruction_wrapper(emulator, instruction, Transfer::LoadByte)
}

/// Load register byte with translation.
pub fn ldrbt(emulator: &mut Emulator, instruction: u32) -> (r: Result<u32, ExecError>)
    requires
        old(emulator).wf(),
    ensures
        final(emulator).wf(),
        step_matches(r, final(emulator)@, load_store_spec(old(emulator)@, instruction, Transfer::LoadByte)),
{
    load_store_instruction_wrapper(emulator, instruction, Transfer::LoadByte)
}

/// Load register with translation.
pub fn ldrt(emulator: &mut Emulator, instruction: u32) -> (r: Result<u32, ExecError>)
    requires
        old(emulator).wf(),
    ensures
        final(emulator).wf(),
        step_matches(r, final(emulator)@, load_store_spec(old(emulator)@, instruction, Transfer::LoadWord)),
{
    load_store_instruction_wrapper(emulator, instruction, Transfer::LoadWord)
}

/// Store register (word).
pub fn str(emulator: &mut Emulator, instruction: u32) -> (r: Result<u32, ExecError>)
    requires
        old(emulator).wf(),
    ensures
        final(emulator).wf(),
        step_matches(r, final(emulator)@, load_store_spec(old(emulator)@, instruction, Transfer::StoreWord)),
{
    load_store_instruction_wrapper(emulator, instruction, Transfer::StoreWord)
}

/// Store register byte.
pub fn strb(emulator: &mut Emulator, instruction: u32) -> (r: Result<u32, ExecError>)
    requires
        old(emulator).wf(),
    ensures
        final(emulator).wf(),
        step_matches(r, final(emulator)@, load_store_spec(old(emulator)@, instruction, Transfer::StoreByte)),
{
    load_store_instruction_wrapper(emulator, instruction, Transfer::StoreByte)
}

/// Store register byte with translation.
pub fn strbt(emulator: &mut Emulator, instruction: u32) -> (r: Result<u32, ExecError>)
    requires
        old(emulator).wf(),
    ensures
        final(emulator).wf(),
        step_matches(r, final(emulator)@, load_store_spec(old(emulator)@, instruction, Transfer::StoreByte)),
{
    load_store_instruction_wrapper(emulator, instruction, Transfer::StoreByte)
}

/// Store register with translation.
pub fn strt(emulator: &mut Emulator, instruction: u32) -> (r: Result<u32, ExecError>)
    requires
        old(emulator).wf(),
    ensures
        final(emulator).wf(),
        step_matches(r, final(emulator)@, load_store_spec(old(emulator)@, instruction, Transfer::StoreWord)),
{
    load_store_instruction_wrapper(emulator, instruction, Transfer::StoreWord)
}

/// Load register half-word.
pub fn ldrh(emulator: &mut Emulator, instruction: u32) -> (r: Result<u32, ExecError>)
    requires
        old(emulator).wf(),
    ensures
        final(emulator).wf(),
        step_matches(r, final(emulator)@, misc_load_store_spec(old(emulator)@, instruction, Transfer::LoadHalf)),
{
    misc_load_store_instruction_wrapper(emulator, instruction, Transfer::LoadHalf)
}

/// Load register signed byte.
pub fn ldrsb(emulator: &mut Emulator, instruction: u32) -> (r: Result<u32, ExecError>)
    requires
        old(emulator).wf(),
    ensures
        final(emulator).wf(),
        step_matches(r, final(emulator)@, misc_load_store_spec(old(emulator)@, instruction, Transfer::LoadSignedByte)),
{
    misc_load_store_instruction_wrapper(emulator, instruction, Transfer::LoadSignedByte)
}

/// Load register signed half-word.
pub fn ldrsh(emulator: &mut Emulator, instruction: u32) -> (r: Result<u32, ExecError>)
    requires
        old(emulator).wf(),
    ensures
        final(emulator).wf(),
        step_matches(r, final(emulator)@, misc_load_store_spec(old(emulator)@, instruction, Transfer::LoadSignedHalf)),
{
    misc_load_store_instruction_wrapper(emulator, instruction, Transfer::LoadSignedHalf)
}

/// Store register half-word.
pub fn strh(emulator: &mut Emulator, instruction: u32) -> (r: Result<u32, ExecError>)
    requires
        old(emulator).wf(),
    ensures
        final(emulator).wf(),
        step_matches(r, final(emulator)@, misc_load_store_spec(old(emulator)@, instruction, Transfer::StoreHalf)),
{
    misc_load_store_instruction_wrapper(emulator, instruction, Transfer::StoreHalf)
}

/// SWP and SWPB: Rd takes the word (rotated) or byte at `[Rn]`, and Rm is
/// stored there.
pub open spec fn swap_spec(s: EmuModel, instruction: u32, byte: bool) -> (EmuModel, Option<ExecError>) {
    let cpu = s.cpu;
    let rd = ((instruction >> 12u32) & 0xf) as int;
    let address = cpu.reg(((instruction >> 16u32) & 0xf) as int);
    let value = cpu.reg((instruction & 0xf) as int);
    if byte {
        (EmuModel {
            cpu: cpu.set_reg(rd, s.mem.byte(address) as u32),
            mem: s.mem.set_byte(address, value as u8),
        }, None)
    } else {
        (EmuModel {
            cpu: cpu.set_reg(rd, load_word_value(s.mem, address)),
            mem: s.mem.set_word(address & 0xFFFF_FFFC, value),
        }, None)
    }
}

/// Swap a word between a register and memory.
pub fn swp(emulator: &mut Emulator, instruction: u32) -> (r: Result<u32, ExecError>)
    requires
        old(emulator).wf(),
    ensures
        final(emulator).wf(),
        step_matches(r, final(emulator)@, swap_spec(old(emulator)@, instruction, false)),
{
    let value = emulator.cpu.read(instruction & 0xf);
    let address = emulator.cpu.read((instruction >> 16u32) & 0xf);
    let temp = read_rotated_word(emulator, address);
    write_word(emulator, address & 0xFFFF_FFFC, value);
    emulator.cpu.write((instruction >> 12u32) & 0xf, temp);
    Ok(1)
}

/// Swap a byte between a register and memory.
pub fn swpb(emulator: &mut Emulator, instruction: u32) -> (r: Result<u32, ExecError>)
    requires
        old(emulator).wf(),
    ensures
        final(emulator).wf(),
        step_matches(r, final(emulator)@, swap_spec(old(emulator)@, instruction, true)),
{
    let value = emulator.cpu.read(instruction & 0xf) as u8;
    let address = emulator.cpu.read((instruction >> 16u32) & 0xf);
    let temp = read_byte(emulator, address);
    write_byte(emulator, address, value);
    emulator.cpu.write((instruction >> 12u32) & 0xf, temp as u32);
    Ok(1)
}


/// How many of registers `0..k` the list names.
pub open spec fn count_regs(list: u32, k: nat) -> nat
    decreases k,
{
    if k == 0 {
        0
    } else {
        count_regs(list, (k - 1) as nat) + if bit(list, (k - 1) as u32) {
            1nat
        } else {
            0nat
        }
    }
}

/// Load/store multiple addressing: `(start_address, end_address)`, and the
/// register file after write-back of `Rn +/- 4n` where bit 21 is set.
pub open spec fn multiple_addressing_spec(cpu: CpuModel, instruction: u32) -> (u32, u32, CpuModel) {
    let rn = ((instruction >> 16u32) & 0xf) as int;
    let base = cpu.reg(rn);
    let size = (4 * count_regs(instruction & 0xffff, 16)) as u32;
    let pre = bit(instruction, 24);
    let up = bit(instruction, 23);
    let (start, end) = if up && !pre {
        (base, sub32(add32(base, size), 4))
    } else if up {
        (add32(base, 4), add32(base, size))
    } else if !pre {
        (add32(sub32(base, size), 4), base)
    } else {
        (sub32(base, size), sub32(base, 4))
    };
    let written = if up {
        add32(base, size)
    } else {
        sub32(base, size)
    };
    (start, end, if bit(instruction, 21) {
        cpu.set_reg(rn, written)
    } else {
        cpu
    })
}

/// Counts the registers in a register list.
pub fn count_list(list: u32) -> (n: u32)
    ensures
        n == count_regs(list, 16),
        n <= 16,
{
    let mut n: u32 = 0;
    let mut pos: u32 = 0;
    while pos < 16
        invariant
            pos <= 16,
            n == count_regs(list, pos as nat),
            n <= pos,
        decreases 16 - pos,
    {
        if bit_of(list, pos) {
            n = n + 1;
        }
        pos = pos + 1;
    }
    n
}

/// Load/store multiple addressing: returns the start and end addresses and
/// writes the base register back where bit 21 is set.
pub fn process_load_store_multiple_addressing_mode(emulator: &mut Emulator, instruction: u32) -> (r: (
    u32,
    u32,
))
    requires
        old(emulator).wf(),
    ensures
        final(emulator).wf(),
        final(emulator)@.mem == old(emulator)@.mem,
        (r.0, r.1, final(emulator)@.cpu) == multiple_addressing_spec(old(emulator)@.cpu, instruction),
{
    let rn = (instruction >> 16u32) & 0xf;
    let base = emulator.cpu.read(rn);
    let size = 4 * count_list(instruction & 0xffff);
    let pre = bit_of(instruction, 24);
    let up = bit_of(instruction, 23);
    let (start, end) = if up && !pre {
        (base, base.wrapping_add(size).wrapping_sub(4))
    } else if up {
        (base.wrapping_add(4), base.wrapping_add(size))
    } else if !pre {
        (base.wrapping_sub(size).wrapping_add(4), base)
    } else {
        (base.wrapping_sub(size), base.wrapping_sub(4))
    };
    if bit_of(instruction, 21) {
        let written = if up {
            base.wrapping_add(size)
        } else {
            base.wrapping_sub(size)
        };
        emulator.cpu.write(rn, written);
    }
    (start, end)
}

/// Loads the listed registers among `0..k` from consecutive words from
/// `start` upward, into the user bank where `user` is set; also gives the
/// next address.
pub open spec fn load_multiple(cpu: CpuModel, mem: MemModel, list: u32, start: u32, k: nat, user: bool) -> (
    CpuModel,
    u32,
)
    decreases k,
{
    if k == 0 {
        (cpu, start)
    } else {
        let (c, a) = load_multiple(cpu, mem, list, start, (k - 1) as nat, user);
        let r = (k - 1) as int;
        if bit(list, r as u32) {
            let v = mem.word(a & 0xFFFF_FFFC);
            (if user {
                c.set_reg_in(r, MODE_USR, v)
            } else {
                c.set_reg(r, v)
            }, add32(a, 4))
        } else {
            (c, a)
        }
    }
}

/// The value STM stores for register `r`: the program counter is stored
/// plus 12.
pub open spec fn stored_register(cpu: CpuModel, r: int, user: bool) -> u32 {
    let v = if user {
        cpu.reg_in(r, MODE_USR)
    } else {
        cpu.reg(r)
    };
    if r == 15 {
        add32(v, 12)
    } else {
        v
    }
}

/// Stores the listed registers among `0..k` to consecutive words from
/// `start` upward; also gives the next address.
pub open spec fn store_multiple(cpu: CpuModel, mem: MemModel, list: u32, start: u32, k: nat, user: bool) -> (
    MemModel,
    u32,
)
    decreases k,
{
    if k == 0 {
        (mem, start)
    } else {
        let (m, a) = store_multiple(cpu, mem, list, start, (k - 1) as nat, user);
        let r = (k - 1) as int;
        if bit(list, r as u32) {
            (m.set_word(a & 0xFFFF_FFFC, stored_register(cpu, r, user)), add32(a, 4))
        } else {
            (m, a)
        }
    }
}

/// LDM in its three forms: plain; S set without PC (user bank); S set with
/// PC (CPSR restored from SPSR, which the mode must have).
pub open spec fn ldm_spec(s: EmuModel, instruction: u32) -> (EmuModel, Option<ExecError>) {
    let list = instruction & 0xffff;
    let s_bit = bit(instruction, 22);
    let with_pc = bit(list, 15);
    if s_bit && with_pc && !s.cpu.has_spsr() {
        (s, Some(ExecError::Unpredictable(instruction)))
    } else {
        let (start, _, cpu1) = multiple_addressing_spec(s.cpu, instruction);
        let (cpu2, a) = load_multiple(cpu1, s.mem, list, start, 15, s_bit && !with_pc);
        if with_pc {
            let cpu3 = if s_bit {
                cpu2.set_cpsr(cpu2.spsr())
            } else {
                cpu2
            };
            (s.with_cpu(cpu3.set_reg(15, s.mem.word(a & 0xFFFF_FFFC) & 0xFFFF_FFFC)), None)
        } else {
            (s.with_cpu(cpu2), None)
        }
    }
}

/// STM in its two forms: plain, and S set (user bank). Write-back with the
/// base register in the list is rejected as unpredictable.
pub open spec fn stm_spec(s: EmuModel, instruction: u32) -> (EmuModel, Option<ExecError>) {
    let list = instruction & 0xffff;
    if bit(instruction, 21) && bit(list, (instruction >> 16u32) & 0xf) {
        (s, Some(ExecError::Unpredictable(instruction)))
    } else {
        let (start, _, cpu1) = multiple_addressing_spec(s.cpu, instruction);
        let (mem, _) = store_multiple(cpu1, s.mem, list, start, 16, bit(instruction, 22));
        (EmuModel { cpu: cpu1, mem }, None)
    }
}

/// Loads the listed registers among `0..count` from consecutive words from
/// `start` upward (into the user bank where `user` is set); returns the
/// address after the last word read.
pub fn load_registers(emulator: &mut Emulator, list: u32, start: u32, count: u32, user: bool) -> (next: u32)
    requires
        old(emulator).wf(),
        count <= 15,
    ensures
        final(emulator).wf(),
        final(emulator)@.mem == old(emulator)@.mem,
        final(emulator)@.cpu.cpsr == old(emulator)@.cpu.cpsr,
        (final(emulator)@.cpu, next) == load_multiple(old(emulator)@.cpu, old(emulator)@.mem, list, start, count as nat, user),
{
    let ghost cpu1 = emulator@.cpu;
    let ghost mem = emulator@.mem;
    let mut address = start;
    let mut pos: u32 = 0;
    while pos < count
        invariant
            emulator.wf(),
            pos <= count <= 15,
            emulator@.mem == mem,
            emulator@.cpu.cpsr == cpu1.cpsr,
            (emulator@.cpu, address) == load_multiple(cpu1, mem, list, start, pos as nat, user),
        decreases count - pos,
    {
        if bit_of(list, pos) {
            let value = read_word(emulator, address & 0xFFFF_FFFC);
            if user {
                emulator.cpu.write_in_mode(pos, OperationModes::USR, value);
            } else {
                emulator.cpu.write(pos, value);
            }
            address = address.wrapping_add(4);
        }
        pos = pos + 1;
    }
    address
}

/// Stores the listed registers among `0..count` to consecutive words from
/// `start` upward (from the user bank where `user` is set); returns the
/// address after the last word written.
pub fn store_registers(emulator: &mut Emulator, list: u32, start: u32, count: u32, user: bool) -> (next: u32)
    requires
        old(emulator).wf(),
        count <= 16,
    ensures
        final(emulator).wf(),
        final(emulator)@.cpu == old(emulator)@.cpu,
        (final(emulator)@.mem, next) == store_multiple(old(emulator)@.cpu, old(emulator)@.mem, list, start, count as nat, user),
{
    let ghost cpu1 = emulator@.cpu;
    let ghost mem0 = emulator@.mem;
    let mut address = start;
    let mut pos: u32 = 0;
    while pos < count
        invariant
            emulator.wf(),
            pos <= count <= 16,
            emulator@.cpu == cpu1,
            (emulator@.mem, address) == store_multiple(cpu1, mem0, list, start, pos as nat, user),
        decreases count - pos,
    {
        if bit_of(list, pos) {
            let value = if user {
                emulator.cpu.read_in_mode(pos, OperationModes::USR)
            } else {
                emulator.cpu.read(pos)
            };
            let value = if pos == 15 {
                value.wrapping_add(12)
            } else {
                value
            };
            write_word(emulator, address & 0xFFFF_FFFC, value);
            address = address.wrapping_add(4);
        }
        pos = pos + 1;
    }
    address
}

/// Load multiple.
pub fn ldm(emulator: &mut Emulator, instruction: u32) -> (r: Result<u32, ExecError>)
    requires
        old(emulator).wf(),
    ensures
        final(emulator).wf(),
        step_matches(r, final(emulator)@, ldm_spec(old(emulator)@, instruction)),
{
    let list = instruction & 0xffff;
    let s_bit = bit_of(instruction, 22);
    let with_pc = bit_of(list, 15);
    if s_bit && with_pc && !emulator.cpu.current_mode_has_spsr() {
        return Err(ExecError::Unpredictable(instruction));
    }
    let user = s_bit && !with_pc;
    let (start, _) = process_load_store_multiple_addressing_mode(emulator, instruction);
    let address = load_registers(emulator, list, start, 15, user);
    if with_pc {
        if s_bit {
            let spsr = emulator.cpu.get_spsr();
            emulator.cpu.set_cpsr(spsr);
        }
        let value = read_word(emulator, address & 0xFFFF_FFFC);
        emulator.cpu.write(15, value & 0xFFFF_FFFC);
    }
    Ok(1)
}

/// Store multiple.
pub fn stm(emulator: &mut Emulator, instruction: u32) -> (r: Result<u32, ExecError>)
    requires
        old(emulator).wf(),
    ensures
        final(emulator).wf(),
        step_matches(r, final(emulator)@, stm_spec(old(emulator)@, instruction)),
{
    let list = instruction & 0xffff;
    if bit_of(instruction, 21) && bit_of(list, (instruction >> 16u32) & 0xf) {
        return Err(ExecError::Unpredictable(instruction));
    }
    let user = bit_of(instruction, 22);
    let (start, _) = process_load_store_multiple_addressing_mode(emulator, instruction);
    store_registers(emulator, list, start, 16, user);
    Ok(1)
}


/// The ARM instructions this core tells apart, one per handler.
#[derive(Clone, Copy, Debug, PartialEq, Eq, Structural)]
pub enum ArmInstruction {
    Adc,
    Add,
    And,
    B,
    Bic,
    Bl,
    Bx,
    Cdp,
    Cmn,
    Cmp,
    Eor,
    Ldc,
    Ldm,
    Ldr,
    Ldrb,
    Ldrbt,
    Ldrh,
    Ldrsb,
    Ldrsh,
    Ldrt,
    Mcr,
    Mla,
    Mov,
    Mrc,
    Mrs,
    Msr,
    Mul,
    Mvn,
    Orr,
    Rsb,
    Rsc,
    Sbc,
    Smlal,
    Smull,
    Stc,
    Stm,
    Str,
    Strb,
    Strbt,
    Strh,
    Strt,
    Sub,
    Swi,
    Swp,
    Swpb,
    Teq,
    Tst,
    Umlal,
    Umull,
}

/// Which handler an instruction word goes to: by bits 27:25, then the
/// opcode (24:21), S (20) and bits 7:4.
pub open spec fn arm_decode(instruction: u32) -> ArmInstruction {
    let category = (instruction >> 25u32) & 7;
    if category <= 1 {
        let opcode = (instruction >> 21u32) & 0xf;
        let s = (instruction >> 20u32) & 1;
        let low = (instruction >> 4u32) & 0xf;
        let c0 = category == 0;
        if s == 1 && low == 0b1011 && c0 {
            ArmInstruction::Ldrh
        } else if s == 1 && low == 0b1101 && c0 {
            ArmInstruction::Ldrsb
        } else if s == 1 && low == 0b1111 && c0 {
            ArmInstruction::Ldrsh
        } else if s == 0 && low == 0b1011 && c0 {
            ArmInstruction::Strh
        } else if opcode == 0 && low == 0b1001 && c0 {
            ArmInstruction::Mul
        } else if opcode == 0 {
            ArmInstruction::And
        } else if opcode == 1 && low == 0b1001 && c0 {
            ArmInstruction::Mla
        } else if opcode == 1 {
            ArmInstruction::Eor
        } else if opcode == 2 {
            ArmInstruction::Sub
        } else if opcode == 3 {
            ArmInstruction::Rsb
        } else if opcode == 4 && low == 0b1001 && c0 {
            ArmInstruction::Umull
        } else if opcode == 4 {
            ArmInstruction::Add
        } else if opcode == 5 && low == 0b1001 && c0 {
            ArmInstruction::Umlal
        } else if opcode == 5 {
            ArmInstruction::Adc
        } else if opcode == 6 && low == 0b1001 && c0 {
            ArmInstruction::Smull
        } else if opcode == 6 {
            ArmInstruction::Sbc
        } else if opcode == 7 && low == 0b1001 && c0 {
            ArmInstruction::Smlal
        } else if opcode == 7 {
            ArmInstruction::Rsc
        } else if opcode == 0b1000 && s == 0 && low == 0b1001 && c0 {
            ArmInstruction::Swp
        } else if opcode == 0b1010 && s == 0 && low == 0b1001 && c0 {
            ArmInstruction::Swpb
        } else if (opcode == 0b1000 || opcode == 0b1010) && s == 0 && c0 {
            ArmInstruction::Mrs
        } else if opcode == 0b1000 {
            ArmInstruction::Tst
        } else if opcode == 0b1001 && s == 0 && low == 0b0001 && c0 {
            ArmInstruction::Bx
        } else if (opcode == 0b1001 || opcode == 0b1011) && s == 0 {
            ArmInstruction::Msr
        } else if opcode == 0b1001 {
            ArmInstruction::Teq
        } else if opcode == 0b1010 {
            ArmInstruction::Cmp
        } else if opcode == 0b1011 {
            ArmInstruction::Cmn
        } else if opcode == 0b1100 {
            ArmInstruction::Orr
        } else if opcode == 0b1101 {
            ArmInstruction::Mov
        } else if opcode == 0b1110 {
            ArmInstruction::Bic
        } else {
            ArmInstruction::Mvn
        }
    } else if category <= 3 {
        let byte = (instruction >> 22u32) & 1 == 1;
        let load = (instruction >> 20u32) & 1 == 1;
        let translated = (instruction >> 24u32) & 1 == 0 && (instruction >> 21u32) & 1 == 1;
        if load {
            if byte {
                if translated {
                    ArmInstruction::Ldrbt
                } else {
                    ArmInstruction::Ldrb
                }
            } else if translated {
                ArmInstruction::Ldrt
            } else {
                ArmInstruction::Ldr
            }
        } else if byte {
            if translated {
                ArmInstruction::Strbt
            } else {
                ArmInstruction::Strb
            }
        } else if translated {
            ArmInstruction::Strt
        } else {
            ArmInstruction::Str
        }
    } else if category == 4 {
        if (instruction >> 20u32) & 1 == 1 {
            ArmInstruction::Ldm
        } else {
            ArmInstruction::Stm
        }
    } else if category == 5 {
        if (instruction >> 24u32) & 1 == 1 {
            ArmInstruction::Bl
        } else {
            ArmInstruction::B
        }
    } else if category == 6 {
        if (instruction >> 20u32) & 1 == 1 {
            ArmInstruction::Ldc
        } else {
            ArmInstruction::Stc
        }
    } else if (instruction >> 24u32) & 1 == 1 {
        ArmInstruction::Swi
    } else if (instruction >> 4u32) & 1 == 0 {
        ArmInstruction::Cdp
    } else if (instruction >> 20u32) & 1 == 1 {
        ArmInstruction::Mrc
    } else {
        ArmInstruction::Mcr
    }
}

/// Decodes an instruction word into the handler that executes it.
pub fn decode_instruction(instruction: u32) -> (r: ArmInstruction)
    ensures
        r == arm_decode(instruction),
{
    let category = (instruction >> 25u32) & 7;
    if category <= 1 {
        let opcode = (instruction >> 21u32) & 0xf;
        let s = (instruction >> 20u32) & 1;
        let low = (instruction >> 4u32) & 0xf;
        let c0 = category == 0;
        if s == 1 && low == 0b1011 && c0 {
            ArmInstruction::Ldrh
        } else if s == 1 && low == 0b1101 && c0 {
            ArmInstruction::Ldrsb
        } else if s == 1 && low == 0b1111 && c0 {
            ArmInstruction::Ldrsh
        } else if s == 0 && low == 0b1011 && c0 {
            ArmInstruction::Strh
        } else if opcode == 0 && low == 0b1001 && c0 {
            ArmInstruction::Mul
        } else if opcode == 0 {
            ArmInstruction::And
        } else if opcode == 1 && low == 0b1001 && c0 {
            ArmInstruction::Mla
        } else if opcode == 1 {
            ArmInstruction::Eor
        } else if opcode == 2 {
            ArmInstruction::Sub
        } else if opcode == 3 {
            ArmInstruction::Rsb
        } else if opcode == 4 && low == 0b1001 && c0 {
            ArmInstruction::Umull
        } else if opcode == 4 {
            ArmInstruction::Add
        } else if opcode == 5 && low == 0b1001 && c0 {
            ArmInstruction::Umlal
        } else if opcode == 5 {
            ArmInstruction::Adc
        } else if opcode == 6 && low == 0b1001 && c0 {
            ArmInstruction::Smull
        } else if opcode == 6 {
            ArmInstruction::Sbc
        } else if opcode == 7 && low == 0b1001 && c0 {
            ArmInstruction::Smlal
        } else if opcode == 7 {
            ArmInstruction::Rsc
        } else if opcode == 0b1000 && s == 0 && low == 0b1001 && c0 {
            ArmInstruction::Swp
        } else if opcode == 0b1010 && s == 0 && low == 0b1001 && c0 {
            ArmInstruction::Swpb
        } else if (opcode == 0b1000 || opcode == 0b1010) && s == 0 && c0 {
            ArmInstruction::Mrs
        } else if opcode == 0b1000 {
            ArmInstruction::Tst
        } else if opcode == 0b1001 && s == 0 && low == 0b0001 && c0 {
            ArmInstruction::Bx
        } else if (opcode == 0b1001 || opcode == 0b1011) && s == 0 {
            ArmInstruction::Msr
        } else if opcode == 0b1001 {
            ArmInstruction::Teq
        } else if opcode == 0b1010 {
            ArmInstruction::Cmp
        } else if opcode == 0b1011 {
            ArmInstruction::Cmn
        } else if opcode == 0b1100 {
            ArmInstruction::Orr
        } else if opcode == 0b1101 {
            ArmInstruction::Mov
        } else if opcode == 0b1110 {
            ArmInstruction::Bic
        } else {
            ArmInstruction::Mvn
        }
    } else if category <= 3 {
        let byte = (instruction >> 22u32) & 1 == 1;
        let load = (instruction >> 20u32) & 1 == 1;
        let translated = (instruction >> 24u32) & 1 == 0 && (instruction >> 21u32) & 1 == 1;
        if load {
            if byte {
                if translated {
                    ArmInstruction::Ldrbt
                } else {
                    ArmInstruction::Ldrb
                }
            } else if translated {
                ArmInstruction::Ldrt
            } else {
                ArmInstruction::Ldr
            }
        } else if byte {
            if translated {
                ArmInstruction::Strbt
            } else {
                ArmInstruction::Strb
            }
        } else if translated {
            ArmInstruction::Strt
        } else {
            ArmInstruction::Str
        }
    } else if category == 4 {
        if (instruction >> 20u32) & 1 == 1 {
            ArmInstruction::Ldm
        } else {
            ArmInstruction::Stm
        }
    } else if category == 5 {
        if (instruction >> 24u32) & 1 == 1 {
            ArmInstruction::Bl
        } else {
            ArmInstruction::B
        }
    } else if category == 6 {
        if (instruction >> 20u32) & 1 == 1 {
            ArmInstruction::Ldc
        } else {
            ArmInstruction::Stc
        }
    } else if (instruction >> 24u32) & 1 == 1 {
        ArmInstruction::Swi
    } else if (instruction >> 4u32) & 1 == 0 {
        ArmInstruction::Cdp
    } else if (instruction >> 20u32) & 1 == 1 {
        ArmInstruction::Mrc
    } else {
        ArmInstruction::Mcr
    }
}

/// What executing `instruction` with handler `op` does.
pub open spec fn arm_execute(s: EmuModel, op: ArmInstruction, instruction: u32) -> (EmuModel, Option<ExecError>) {
    match op {
        ArmInstruction::Adc => dp_spec(s, instruction, OP_ADC),
        ArmInstruction::Add => dp_spec(s, instruction, OP_ADD),
        ArmInstruction::And => dp_spec(s, instruction, OP_AND),
        ArmInstruction::B => branch_spec(s, instruction, false),
        ArmInstruction::Bic => dp_spec(s, instruction, OP_BIC),
        ArmInstruction::Bl => branch_spec(s, instruction, true),
        ArmInstruction::Bx => bx_spec(s, s.cpu.reg((instruction & 0xf) as int)),
        ArmInstruction::Cdp => undefined_spec(s, instruction),
        ArmInstruction::Cmn => dp_spec(s, instruction, OP_CMN),
        ArmInstruction::Cmp => dp_spec(s, instruction, OP_CMP),
        ArmInstruction::Eor => dp_spec(s, instruction, OP_EOR),
        ArmInstruction::Ldc => undefined_spec(s, instruction),
        ArmInstruction::Ldm => ldm_spec(s, instruction),
        ArmInstruction::Ldr => load_store_spec(s, instruction, Transfer::LoadWord),
        ArmInstruction::Ldrb => load_store_spec(s, instruction, Transfer::LoadByte),
        ArmInstruction::Ldrbt => load_store_spec(s, instruction, Transfer::LoadByte),
        ArmInstruction::Ldrh => misc_load_store_spec(s, instruction, Transfer::LoadHalf),
        ArmInstruction::Ldrsb => misc_load_store_spec(s, instruction, Transfer::LoadSignedByte),
        ArmInstruction::Ldrsh => misc_load_store_spec(s, instruction, Transfer::LoadSignedHalf),
        ArmInstruction::Ldrt => load_store_spec(s, instruction, Transfer::LoadWord),
        ArmInstruction::Mcr => undefined_spec(s, instruction),
        ArmInstruction::Mla => mul_spec(s, instruction, true),
        ArmInstruction::Mov => dp_spec(s, instruction, OP_MOV),
        ArmInstruction::Mrc => undefined_spec(s, instruction),
        ArmInstruction::Mrs => mrs_spec(s, instruction),
        ArmInstruction::Msr => msr_spec(s, instruction),
        ArmInstruction::Mul => mul_spec(s, instruction, false),
        ArmInstruction::Mvn => dp_spec(s, instruction, OP_MVN),
        ArmInstruction::Orr => dp_spec(s, instruction, OP_ORR),
        ArmInstruction::Rsb => dp_spec(s, instruction, OP_RSB),
        ArmInstruction::Rsc => dp_spec(s, instruction, OP_RSC),
        ArmInstruction::Sbc => dp_spec(s, instruction, OP_SBC),
        ArmInstruction::Smlal => long_mul_spec(s, instruction, true, true),
        ArmInstruction::Smull => long_mul_spec(s, instruction, true, false),
        ArmInstruction::Stc => undefined_spec(s, instruction),
        ArmInstruction::Stm => stm_spec(s, instruction),
        ArmInstruction::Str => load_store_spec(s, instruction, Transfer::StoreWord),
        ArmInstruction::Strb => load_store_spec(s, instruction, Transfer::StoreByte),
        ArmInstruction::Strbt => load_store_spec(s, instruction, Transfer::StoreByte),
        ArmInstruction::Strh => misc_load_store_spec(s, instruction, Transfer::StoreHalf),
        ArmInstruction::Strt => load_store_spec(s, instruction, Transfer::StoreWord),
        ArmInstruction::Sub => dp_spec(s, instruction, OP_SUB),
        ArmInstruction::Swi => swi_spec(s, add32(s.cpu.reg(15), 4)),
        ArmInstruction::Swp => swap_spec(s, instruction, false),
        ArmInstruction::Swpb => swap_spec(s, instruction, true),
        ArmInstruction::Teq => dp_spec(s, instruction, OP_TEQ),
        ArmInstruction::Tst => dp_spec(s, instruction, OP_TST),
        ArmInstruction::Umlal => long_mul_spec(s, instruction, false, true),
        ArmInstruction::Umull => long_mul_spec(s, instruction, false, false),
    }
}

/// One ARM instruction: skipped (with no change) where its condition
/// fails, else decoded and executed.
pub open spec fn arm_step(s: EmuModel, instruction: u32) -> (EmuModel, Option<ExecError>) {
    if !condition_holds(s.cpu.cpsr, instruction >> 28u32) {
        (s, None)
    } else {
        arm_execute(s, arm_decode(instruction), instruction)
    }
}

/// Runs handler `op` on `instruction`.
pub fn execute(emulator: &mut Emulator, op: ArmInstruction, instruction: u32) -> (r: Result<u32, ExecError>)
    requires
        old(emulator).wf(),
    ensures
        final(emulator).wf(),
        step_matches(r, final(emulator)@, arm_execute(old(emulator)@, op, instruction)),
{
    match op {
        ArmInstruction::Adc => adc(emulator, instruction),
        ArmInstruction::Add => crate::arm::add(emulator, instruction),
        ArmInstruction::And => and(emulator, instruction),
        ArmInstruction::B => b(emulator, instruction),
        ArmInstruction::Bic => bic(emulator, instruction),
        ArmInstruction::Bl => bl(emulator, instruction),
        ArmInstruction::Bx => bx(emulator, instruction),
        ArmInstruction::Cdp => cdp(emulator, instruction),
        ArmInstruction::Cmn => cmn(emulator, instruction),
        ArmInstruction::Cmp => cmp(emulator, instruction),
        ArmInstruction::Eor => eor(emulator, instruction),
        ArmInstruction::Ldc => ldc(emulator, instruction),
        ArmInstruction::Ldm => ldm(emulator, instruction),
        ArmInstruction::Ldr => ldr(emulator, instruction),
        ArmInstruction::Ldrb => ldrb(emulator, instruction),
        ArmInstruction::Ldrbt => ldrbt(emulator, instruction),
        ArmInstruction::Ldrh => ldrh(emulator, instruction),
        ArmInstruction::Ldrsb => ldrsb(emulator, instruction),
        ArmInstruction::Ldrsh => ldrsh(emulator, instruction),
        ArmInstruction::Ldrt => ldrt(emulator, instruction),
        ArmInstruction::Mcr => mcr(emulator, instruction),
        ArmInstruction::Mla => mla(emulator, instruction),
        ArmInstruction::Mov => mov(emulator, instruction),
        ArmInstruction::Mrc => mrc(emulator, instruction),
        ArmInstruction::Mrs => mrs(emulator, instruction),
        ArmInstruction::Msr => msr(emulator, instruction),
        ArmInstruction::Mul => crate::arm::mul(emulator, instruction),
        ArmInstruction::Mvn => mvn(emulator, instruction),
        ArmInstruction::Orr => or(emulator, instruction),
        ArmInstruction::Rsb => rsb(emulator, instruction),
        ArmInstruction::Rsc => rsc(emulator, instruction),
        ArmInstruction::Sbc => sbc(emulator, instruction),
        ArmInstruction::Smlal => smlal(emulator, instruction),
        ArmInstruction::Smull => smull(emulator, instruction),
        ArmInstruction::Stc => stc(emulator, instruction),
        ArmInstruction::Stm => stm(emulator, instruction),
        ArmInstruction::Str => str(emulator, instruction),
        ArmInstruction::Strb => strb(emulator, instruction),
        ArmInstruction::Strbt => strbt(emulator, instruction),
        ArmInstruction::Strh => strh(emulator, instruction),
        ArmInstruction::Strt => strt(emulator, instruction),
        ArmInstruction::Sub => crate::arm::sub(emulator, instruction),
        ArmInstruction::Swi => swi(emulator, instruction),
        ArmInstruction::Swp => swp(emulator, instruction),
        ArmInstruction::Swpb => swpb(emulator, instruction),
        ArmInstruction::Teq => teq(emulator, instruction),
        ArmInstruction::Tst => tst(emulator, instruction),
        ArmInstruction::Umlal => umlal(emulator, instruction),
        ArmInstruction::Umull => umull(emulator, instruction),
    }
}

/// Checks the condition, then decodes and runs the instruction; returns the
/// cycles used (at least one) or why it was not carried out.
pub fn process_instruction(emulator: &mut Emulator, instruction: u32) -> (r: Result<u32, ExecError>)
    requires
        old(emulator).wf(),
    ensures
        final(emulator).wf(),
        step_matches(r, final(emulator)@, arm_step(old(emulator)@, instruction)),
{
    if !emulator.cpu.check_condition(instruction >> 28u32) {
        return Ok(1);
    }
    let op = decode_instruction(instruction);
    execute(emulator, op, instruction)
}

/// Decoding is a function of the instruction word alone: the same word
/// always selects the same handler.
pub proof fn lemma_decode_is_deterministic(a: u32, b: u32)
    requires
        a == b,
    ensures
        arm_decode(a) == arm_decode(b),
{
}

/// An instruction whose condition fails changes nothing.
pub proof fn lemma_failed_condition_changes_nothing(s: EmuModel, instruction: u32)
    requires
        !condition_holds(s.cpu.cpsr, instruction >> 28u32),
    ensures
        arm_step(s, instruction) == (s, Option::<ExecError>::None),
{
}

/// A data-processing instruction with the S bit clear leaves N, Z, C and V
/// as they were.
pub proof fn lemma_no_s_bit_keeps_flags(s: EmuModel, instruction: u32, op: u32)
    requires
        s.wf(),
        !bit(instruction, 20),
        op <= 15,
    ensures
        ({
            let after = dp_spec(s, instruction, op).0.cpu;
            &&& after.n() == s.cpu.n()
            &&& after.z() == s.cpu.z()
            &&& after.c() == s.cpu.c()
            &&& after.v() == s.cpu.v()
        }),
{
}


proof fn lemma_count_monotone(list: u32, j: nat, k: nat)
    requires
        j <= k,
    ensures
        count_regs(list, j) <= count_regs(list, k),
    decreases k,
{
    if k > j {
        lemma_count_monotone(list, j, (k - 1) as nat);
    }
}

/// Where STM leaves off, and that memory stays well formed.
proof fn lemma_store_multiple_address(cpu: CpuModel, mem: MemModel, list: u32, start: u32, k: nat)
    requires
        mem.wf(),
        start + 4 * count_regs(list, k) <= u32::MAX,
    ensures
        store_multiple(cpu, mem, list, start, k, false).1 == start + 4 * count_regs(list, k),
        store_multiple(cpu, mem, list, start, k, false).0.wf(),
    decreases k,
{
    if k > 0 {
        lemma_store_multiple_address(cpu, mem, list, start, (k - 1) as nat);
        let (m, a) = store_multiple(cpu, mem, list, start, (k - 1) as nat, false);
        if bit(list, (k - 1) as u32) {
            crate::memory::lemma_word_frame_wf(m, a & 0xFFFF_FFFC, stored_register(cpu, (k - 1) as int, false));
        }
    }
}

/// After STM, the word for each listed register below 15 holds that register.
proof fn lemma_store_multiple_contents(cpu: CpuModel, mem: MemModel, list: u32, start: u32, k: nat, r: nat)
    requires
        mem.wf(),
        start % 4 == 0,
        start + 4 * count_regs(list, 16) <= u32::MAX,
        forall|j: int| 0 <= j < count_regs(list, 16) ==> crate::memory::mapped(#[trigger] ((start + 4 * j) as u32)),
        r < k <= 16,
        r < 15,
        bit(list, r as u32),
    ensures
        store_multiple(cpu, mem, list, start, k, false).0.word((start + 4 * count_regs(list, r)) as u32) == cpu.reg(r as int),
    decreases k,
{
    let (m, a) = store_multiple(cpu, mem, list, start, (k - 1) as nat, false);
    lemma_count_monotone(list, (k - 1) as nat, 16);
    lemma_count_monotone(list, k, 16);
    lemma_store_multiple_address(cpu, mem, list, start, (k - 1) as nat);
    let ar = (start + 4 * count_regs(list, r)) as u32;
    if r < k - 1 {
        lemma_store_multiple_contents(cpu, mem, list, start, (k - 1) as nat, r);
        if bit(list, (k - 1) as u32) {
            lemma_count_monotone(list, (r + 1) as nat, (k - 1) as nat);
            assert((start + 4 * count_regs(list, (k - 1) as nat)) % 4 == 0);
            crate::bitfield::lemma_aligned_mask(a);
            crate::memory::lemma_set_word_frame(m, a, stored_register(cpu, (k - 1) as int, false), ar);
        }
    } else {
        assert((start + 4 * count_regs(list, r)) % 4 == 0);
        crate::bitfield::lemma_aligned_mask(a);
        assert(crate::memory::mapped(((start + 4 * (count_regs(list, r) as int)) as u32)));
        crate::memory::lemma_word_round_trip(m, a, cpu.reg(r as int));
    }
}

/// LDM over memory that holds each listed register's value gives the
/// register file back unchanged.
proof fn lemma_load_multiple_restores(cpu: CpuModel, mem: MemModel, list: u32, start: u32, k: nat)
    requires
        cpu.wf(),
        k <= 15,
        start + 4 * count_regs(list, 16) <= u32::MAX,
        forall|r: nat| r < 15 && bit(list, r as u32) ==> #[trigger] mem.word(
            (start + 4 * count_regs(list, r)) as u32,
        ) == cpu.reg(r as int),
        start % 4 == 0,
    ensures
        load_multiple(cpu, mem, list, start, k, false) == (cpu, (start + 4 * count_regs(list, k)) as u32),
    decreases k,
{
    if k > 0 {
        let r = (k - 1) as nat;
        lemma_load_multiple_restores(cpu, mem, list, start, r);
        lemma_count_monotone(list, k, 16);
        if bit(list, r as u32) {
            let a = (start + 4 * count_regs(list, r)) as u32;
            assert(a % 4 == 0);
            crate::bitfield::lemma_aligned_mask(a);
            assert(mem.word(a) == cpu.reg(r as int));
            assert(cpu.set_reg(r as int, cpu.reg(r as int)).slots =~= cpu.slots);
        }
    }
}

/// With write-back off, the plain forms, the same register list (without
/// the PC), base register and addressing mode, STM followed by LDM leaves
/// the register file exactly as it was, provided the words moved lie in
/// memory that backs them without wrapping.
pub proof fn lemma_store_then_load_multiple(s: EmuModel, store: u32, load: u32)
    requires
        s.wf(),
        store & 0xffff == load & 0xffff,
        !bit(store & 0xffff, 15),
        (store >> 16u32) & 0xf == (load >> 16u32) & 0xf,
        bit(store, 24) == bit(load, 24),
        bit(store, 23) == bit(load, 23),
        !bit(store, 21),
        !bit(load, 21),
        !bit(store, 22),
        !bit(load, 22),
        multiple_addressing_spec(s.cpu, store).0 % 4 == 0,
        multiple_addressing_spec(s.cpu, store).0 + 4 * count_regs(store & 0xffff, 16) <= u32::MAX,
        forall|j: int|
            0 <= j < count_regs(store & 0xffff, 16) ==> crate::memory::mapped(
                #[trigger] ((multiple_addressing_spec(s.cpu, store).0 + 4 * j) as u32),
            ),
    ensures
        stm_spec(s, store).1.is_none(),
        ldm_spec(stm_spec(s, store).0, load).1.is_none(),
        ldm_spec(stm_spec(s, store).0, load).0.cpu == s.cpu,
{
    let list = store & 0xffff;
    let start = multiple_addressing_spec(s.cpu, store).0;
    let mem = store_multiple(s.cpu, s.mem, list, start, 16, false).0;
    assert forall|r: nat| r < 15 && bit(list, r as u32) implies #[trigger] mem.word(
        (start + 4 * count_regs(list, r)) as u32,
    ) == s.cpu.reg(r as int) by {
        lemma_store_multiple_contents(s.cpu, s.mem, list, start, 16, r);
    }
    lemma_load_multiple_restores(s.cpu, mem, list, start, 15);
}

} // verus!
