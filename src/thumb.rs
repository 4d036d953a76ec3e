//! The 16-bit Thumb instruction set, built on the ARM arithmetic, transfer
//! and branch machinery.
use crate::arm::{
    alu_result, bx_spec, branch_exchange, count_list, count_regs, flags_after, load_multiple,
    load_registers, read_word, software_interrupt, store_multiple, store_registers, swi_spec,
    transfer, transfer_spec, Transfer, OP_ADC, OP_ADD, OP_AND, OP_BIC, OP_CMN, OP_CMP, OP_EOR,
    OP_MOV, OP_MVN, OP_ORR, OP_SBC, OP_SUB, OP_TST,
};
use crate::cpu::{condition_holds, CpuModel};
use crate::emulator::{step_matches, EmuModel, Emulator, ExecError};
use crate::utils::{add32, bit, bit_of, mul32, shift_by, shift_value, sub32, ShiftMode};
use vstd::prelude::*;

verus! {

broadcast use crate::bitfield::lemma_and_le_mask;

/// The Thumb instructions this core tells apart, one per handler.
#[derive(Clone, Copy, Debug, PartialEq, Eq, Structural)]
pub enum ThumbInstruction {
    Adc,
    Add1,
    Add2,
    Add3,
    Add4,
    Add5,
    Add6,
    Add7,
    And,
    Asr1,
    Asr2,
    B1,
    B2,
    Bic,
    Bl,
    Bx,
    Cmn,
    Cmp1,
    Cmp2,
    Cmp3,
    Eor,
    Ldmia,
    Ldr1,
    Ldr2,
    Ldr3,
    Ldr4,
    Ldrb1,
    Ldrb2,
    Ldrh1,
    Ldrh2,
    Ldrsb,
    Ldrsh,
    Lsl1,
    Lsl2,
    Lsr1,
    Lsr2,
    Mov1,
    Mov2,
    Mov3,
    Mul,
    Mvn,
    Neg,
    Orr,
    Pop,
    Push,
    Ror,
    Sbc,
    Stmia,
    Str1,
    Str2,
    Str3,
    Strb1,
    Strb2,
    Strh1,
    Strh2,
    Sub1,
    Sub2,
    Sub3,
    Sub4,
    Swi,
    Tst,
    Undefined,
}

/// A Thumb ALU operation through the ARM arithmetic: the result of `op` on
/// `a` and `b` written to `rd` where `write` is set, and NZCV always set.
pub open spec fn thumb_alu(s: EmuModel, rd: int, op: u32, a: u32, b: u32, write: bool) -> (EmuModel, Option<ExecError>) {
    let r = alu_result(op, a, b, s.cpu.c());
    let written = if write {
        s.cpu.set_reg(rd, r)
    } else {
        s.cpu
    };
    (s.with_cpu(flags_after(written, op, a, b, s.cpu.c(), r)), None)
}

/// A Thumb shift: `rd` takes `v` shifted by `amount`; N and Z from the
/// result, C from the shifter, V unchanged.
pub open spec fn thumb_shift(s: EmuModel, rd: int, v: u32, mode: ShiftMode, amount: u32, by_register: bool) -> (
    EmuModel,
    Option<ExecError>,
) {
    let (r, c) = shift_by(mode, amount, by_register, v, s.cpu.c());
    (s.with_cpu(s.cpu.set_reg(rd, r).set_nzcv(bit(r, 31), r == 0, c, s.cpu.v())), None)
}

/// Rd (or Rn) of the high-register forms: H1 (bit 7) above bits 2:0.
pub open spec fn high_rd(w: u32) -> int {
    ((((w >> 7u32) & 1) << 3u32) | (w & 7)) as int
}

/// Rm of the high-register forms: H2 (bit 6) above bits 5:3.
pub open spec fn high_rm(w: u32) -> int {
    ((((w >> 6u32) & 1) << 3u32) | ((w >> 3u32) & 7)) as int
}

/// Rn + Rm for the register-offset loads and stores.
pub open spec fn register_offset_address(cpu: CpuModel, w: u32) -> u32 {
    add32(cpu.reg(((w >> 3u32) & 7) as int), cpu.reg(((w >> 6u32) & 7) as int))
}

/// The conditional branch displacement: signed 8-bit immediate times two.
pub open spec fn conditional_offset(w: u32) -> u32 {
    let imm = w & 0xff;
    if bit(w, 7) {
        (imm | 0xFFFF_FF00) << 1u32
    } else {
        imm << 1u32
    }
}

/// The unconditional branch displacement: signed 11-bit immediate times two.
pub open spec fn unconditional_offset(w: u32) -> u32 {
    let imm = w & 0x7ff;
    if bit(w, 10) {
        (imm | 0xFFFF_F800) << 1u32
    } else {
        imm << 1u32
    }
}

/// The two halves of BL: the first (H = 10) puts `PC + (offset << 12)` in
/// LR; the second (H = 11) branches to `LR + (offset << 1)` and leaves the
/// return address (with bit 0 set) in LR. H = 01 is undefined here.
pub open spec fn bl_spec(s: EmuModel, w: u32) -> (EmuModel, Option<ExecError>) {
    let imm = w & 0x7ff;
    let half = (w >> 11u32) & 3;
    let pc = s.cpu.reg(15);
    if half == 2 {
        let high = if bit(w, 10) {
            (imm | 0xFFFF_F800) << 12u32
        } else {
            imm << 12u32
        };
        (s.with_cpu(s.cpu.set_reg(14, add32(pc, high))), None)
    } else if half == 3 {
        (s.with_cpu(s.cpu.set_reg(15, add32(s.cpu.reg(14), imm << 1u32)).set_reg(14, add32(pc, 2) | 1)), None)
    } else {
        (s, Some(ExecError::UndefinedInstruction(w)))
    }
}

/// MOV(2): Rd = Rn, N and Z from the value, C and V cleared.
pub open spec fn mov2_spec(s: EmuModel, w: u32) -> (EmuModel, Option<ExecError>) {
    let v = s.cpu.reg(((w >> 3u32) & 7) as int);
    (s.with_cpu(s.cpu.set_reg((w & 7) as int, v).set_nzcv(bit(v, 31), v == 0, false, false)), None)
}

/// MUL: Rd = Rd * Rm (low 32 bits); N and Z set, C and V kept.
pub open spec fn mul_low_spec(s: EmuModel, w: u32) -> (EmuModel, Option<ExecError>) {
    let r = mul32(s.cpu.reg((w & 7) as int), s.cpu.reg(((w >> 3u32) & 7) as int));
    (s.with_cpu(s.cpu.set_reg((w & 7) as int, r).set_nzcv(bit(r, 31), r == 0, s.cpu.c(), s.cpu.v())), None)
}

/// LDMIA: loads the listed low registers from Rn upward; Rn is written back
/// unless it was itself loaded.
pub open spec fn ldmia_spec(s: EmuModel, w: u32) -> (EmuModel, Option<ExecError>) {
    let rn = (w >> 8u32) & 7;
    let list = w & 0xff;
    let (cpu, next) = load_multiple(s.cpu, s.mem, list, s.cpu.reg(rn as int), 8, false);
    (s.with_cpu(if bit(list, rn) {
        cpu
    } else {
        cpu.set_reg(rn as int, next)
    }), None)
}

/// STMIA: stores the listed low registers from Rn upward, then Rn moves
/// past them.
pub open spec fn stmia_spec(s: EmuModel, w: u32) -> (EmuModel, Option<ExecError>) {
    let rn = ((w >> 8u32) & 7) as int;
    let (mem, next) = store_multiple(s.cpu, s.mem, w & 0xff, s.cpu.reg(rn), 8, false);
    (EmuModel { cpu: s.cpu.set_reg(rn, next), mem }, None)
}

/// PUSH: stores the listed low registers (and LR where bit 8 is set) below
/// SP, lowest register at the lowest address, and lowers SP past them.
pub open spec fn push_spec(s: EmuModel, w: u32) -> (EmuModel, Option<ExecError>) {
    let list = (w & 0xff) | (if bit(w, 8) {
        0x4000u32
    } else {
        0u32
    });
    let start = sub32(s.cpu.reg(13), (4 * count_regs(list, 16)) as u32);
    let (mem, _) = store_multiple(s.cpu, s.mem, list, start, 16, false);
    (EmuModel { cpu: s.cpu.set_reg(13, start), mem }, None)
}

/// POP: loads the listed low registers (and PC where bit 8 is set, bit 0
/// cleared) from SP upward, and raises SP past them.
pub open spec fn pop_spec(s: EmuModel, w: u32) -> (EmuModel, Option<ExecError>) {
    let (cpu, next) = load_multiple(s.cpu, s.mem, w & 0xff, s.cpu.reg(13), 8, false);
    if bit(w, 8) {
        (s.with_cpu(
            cpu.set_reg(15, s.mem.word(next & 0xFFFF_FFFC) & 0xFFFF_FFFE).set_reg(13, add32(next, 4)),
        ), None)
    } else {
        (s.with_cpu(cpu.set_reg(13, next)), None)
    }
}

/// What executing the Thumb `instruction` with handler `op` does.
pub open spec fn thumb_execute(s: EmuModel, op: ThumbInstruction, instruction: u16) -> (EmuModel, Option<ExecError>) {
    let w = instruction as u32;
    match op {
        ThumbInstruction::Adc => thumb_alu(s, (w & 7) as int, OP_ADC, s.cpu.reg((w & 7) as int), s.cpu.reg(((w >> 3u32) & 7) as int), true),
        ThumbInstruction::Add1 => thumb_alu(s, (w & 7) as int, OP_ADD, s.cpu.reg(((w >> 3u32) & 7) as int), (w >> 6u32) & 7, true),
        ThumbInstruction::Add2 => thumb_alu(s, ((w >> 8u32) & 7) as int, OP_ADD, s.cpu.reg(((w >> 8u32) & 7) as int), w & 0xff, true),
        ThumbInstruction::Add3 => thumb_alu(s, (w & 7) as int, OP_ADD, s.cpu.reg(((w >> 3u32) & 7) as int), s.cpu.reg(((w >> 6u32) & 7) as int), true),
        ThumbInstruction::Add4 => (s.with_cpu(s.cpu.set_reg(high_rd(w), add32(s.cpu.reg(high_rd(w)), s.cpu.reg(high_rm(w))))), None),
        ThumbInstruction::Add5 => (s.with_cpu(s.cpu.set_reg(((w >> 8u32) & 7) as int, add32(s.cpu.reg(15) & 0xFFFF_FFFC, (w & 0xff) << 2u32))), None),
        ThumbInstruction::Add6 => (s.with_cpu(s.cpu.set_reg(((w >> 8u32) & 7) as int, add32(s.cpu.reg(13), (w & 0xff) << 2u32))), None),
        ThumbInstruction::Add7 => (s.with_cpu(s.cpu.set_reg(13, add32(s.cpu.reg(13), (w & 0x7f) << 2u32))), None),
        ThumbInstruction::And => thumb_alu(s, (w & 7) as int, OP_AND, s.cpu.reg((w & 7) as int), s.cpu.reg(((w >> 3u32) & 7) as int), true),
        ThumbInstruction::Asr1 => thumb_shift(s, (w & 7) as int, s.cpu.reg(((w >> 3u32) & 7) as int), ShiftMode::ASR, (w >> 6u32) & 0x1f, false),
        ThumbInstruction::Asr2 => thumb_shift(s, (w & 7) as int, s.cpu.reg((w & 7) as int), ShiftMode::ASR, s.cpu.reg(((w >> 3u32) & 7) as int) & 0xff, true),
        ThumbInstruction::B1 => if condition_holds(s.cpu.cpsr, (w >> 8u32) & 0xf) { (s.with_cpu(s.cpu.set_reg(15, add32(s.cpu.reg(15), conditional_offset(w)))), None) } else { (s, None) },
        ThumbInstruction::B2 => (s.with_cpu(s.cpu.set_reg(15, add32(s.cpu.reg(15), unconditional_offset(w)))), None),
        ThumbInstruction::Bic => thumb_alu(s, (w & 7) as int, OP_BIC, s.cpu.reg((w & 7) as int), s.cpu.reg(((w >> 3u32) & 7) as int), true),
        ThumbInstruction::Bl => bl_spec(s, w),
        ThumbInstruction::Bx => bx_spec(s, s.cpu.reg(high_rm(w))),
        ThumbInstruction::Cmn => thumb_alu(s, (w & 7) as int, OP_CMN, s.cpu.reg((w & 7) as int), s.cpu.reg(((w >> 3u32) & 7) as int), false),
        ThumbInstruction::Cmp1 => thumb_alu(s, ((w >> 8u32) & 7) as int, OP_CMP, s.cpu.reg(((w >> 8u32) & 7) as int), w & 0xff, false),
        ThumbInstruction::Cmp2 => thumb_alu(s, (w & 7) as int, OP_CMP, s.cpu.reg((w & 7) as int), s.cpu.reg(((w >> 3u32) & 7) as int), false),
        ThumbInstruction::Cmp3 => thumb_alu(s, high_rd(w), OP_CMP, s.cpu.reg(high_rd(w)), s.cpu.reg(high_rm(w)), false),
        ThumbInstruction::Eor => thumb_alu(s, (w & 7) as int, OP_EOR, s.cpu.reg((w & 7) as int), s.cpu.reg(((w >> 3u32) & 7) as int), true),
        ThumbInstruction::Ldmia => ldmia_spec(s, w),
        ThumbInstruction::Ldr1 => (transfer_spec(s, Transfer::LoadWord, (w & 7) as int, add32(s.cpu.reg(((w >> 3u32) & 7) as int), ((w >> 6u32) & 0x1f) << 2u32)), None),
        ThumbInstruction::Ldr2 => (transfer_spec(s, Transfer::LoadWord, (w & 7) as int, register_offset_address(s.cpu, w)), None),
        ThumbInstruction::Ldr3 => (transfer_spec(s, Transfer::LoadWord, ((w >> 8u32) & 7) as int, add32(s.cpu.reg(15) & 0xFFFF_FFFC, (w & 0xff) << 2u32)), None),
        ThumbInstruction::Ldr4 => (transfer_spec(s, Transfer::LoadWord, ((w >> 8u32) & 7) as int, add32(s.cpu.reg(13), (w & 0xff) << 2u32)), None),
        ThumbInstruction::Ldrb1 => (transfer_spec(s, Transfer::LoadByte, (w & 7) as int, add32(s.cpu.reg(((w >> 3u32) & 7) as int), (w >> 6u32) & 0x1f)), None),
        ThumbInstruction::Ldrb2 => (transfer_spec(s, Transfer::LoadByte, (w & 7) as int, register_offset_address(s.cpu, w)), None),
        ThumbInstruction::Ldrh1 => (transfer_spec(s, Transfer::LoadHalf, (w & 7) as int, add32(s.cpu.reg(((w >> 3u32) & 7) as int), ((w >> 6u32) & 0x1f) << 1u32)), None),
        ThumbInstruction::Ldrh2 => (transfer_spec(s, Transfer::LoadHalf, (w & 7) as int, register_offset_address(s.cpu, w)), None),
        ThumbInstruction::Ldrsb => (transfer_spec(s, Transfer::LoadSignedByte, (w & 7) as int, register_offset_address(s.cpu, w)), None),
        ThumbInstruction::Ldrsh => (transfer_spec(s, Transfer::LoadSignedHalf, (w & 7) as int, register_offset_address(s.cpu, w)), None),
        ThumbInstruction::Lsl1 => thumb_shift(s, (w & 7) as int, s.cpu.reg(((w >> 3u32) & 7) as int), ShiftMode::LSL, (w >> 6u32) & 0x1f, false),
        ThumbInstruction::Lsl2 => thumb_shift(s, (w & 7) as int, s.cpu.reg((w & 7) as int), ShiftMode::LSL, s.cpu.reg(((w >> 3u32) & 7) as int) & 0xff, true),
        ThumbInstruction::Lsr1 => thumb_shift(s, (w & 7) as int, s.cpu.reg(((w >> 3u32) & 7) as int), ShiftMode::LSR, (w >> 6u32) & 0x1f, false),
        ThumbInstruction::Lsr2 => thumb_shift(s, (w & 7) as int, s.cpu.reg((w & 7) as int), ShiftMode::LSR, s.cpu.reg(((w >> 3u32) & 7) as int) & 0xff, true),
        ThumbInstruction::Mov1 => thumb_alu(s, ((w >> 8u32) & 7) as int, OP_MOV, s.cpu.reg(((w >> 8u32) & 7) as int), w & 0xff, true),
        ThumbInstruction::Mov2 => mov2_spec(s, w),
        ThumbInstruction::Mov3 => (s.with_cpu(s.cpu.set_reg(high_rd(w), s.cpu.reg(high_rm(w)))), None),
        ThumbInstruction::Mul => mul_low_spec(s, w),
        ThumbInstruction::Mvn => thumb_alu(s, (w & 7) as int, OP_MVN, s.cpu.reg((w & 7) as int), s.cpu.reg(((w >> 3u32) & 7) as int), true),
        ThumbInstruction::Neg => thumb_alu(s, (w & 7) as int, OP_SUB, 0, s.cpu.reg(((w >> 3u32) & 7) as int), true),
        ThumbInstruction::Orr => thumb_alu(s, (w & 7) as int, OP_ORR, s.cpu.reg((w & 7) as int), s.cpu.reg(((w >> 3u32) & 7) as int), true),
        ThumbInstruction::Pop => pop_spec(s, w),
        ThumbInstruction::Push => push_spec(s, w),
        ThumbInstruction::Ror => thumb_shift(s, (w & 7) as int, s.cpu.reg((w & 7) as int), ShiftMode::ROR, s.cpu.reg(((w >> 3u32) & 7) as int) & 0xff, true),
        ThumbInstruction::Sbc => thumb_alu(s, (w & 7) as int, OP_SBC, s.cpu.reg((w & 7) as int), s.cpu.reg(((w >> 3u32) & 7) as int), true),
        ThumbInstruction::Stmia => stmia_spec(s, w),
        ThumbInstruction::Str1 => (transfer_spec(s, Transfer::StoreWord, (w & 7) as int, add32(s.cpu.reg(((w >> 3u32) & 7) as int), ((w >> 6u32) & 0x1f) << 2u32)), None),
        ThumbInstruction::Str2 => (transfer_spec(s, Transfer::StoreWord, (w & 7) as int, register_offset_address(s.cpu, w)), None),
        ThumbInstruction::Str3 => (transfer_spec(s, Transfer::StoreWord, ((w >> 8u32) & 7) as int, add32(s.cpu.reg(13), (w & 0xff) << 2u32)), None),
        ThumbInstruction::Strb1 => (transfer_spec(s, Transfer::StoreByte, (w & 7) as int, add32(s.cpu.reg(((w >> 3u32) & 7) as int), (w >> 6u32) & 0x1f)), None),
        ThumbInstruction::Strb2 => (transfer_spec(s, Transfer::StoreByte, (w & 7) as int, register_offset_address(s.cpu, w)), None),
        ThumbInstruction::Strh1 => (transfer_spec(s, Transfer::StoreHalf, (w & 7) as int, add32(s.cpu.reg(((w >> 3u32) & 7) as int), ((w >> 6u32) & 0x1f) << 1u32)), None),
        ThumbInstruction::Strh2 => (transfer_spec(s, Transfer::StoreHalf, (w & 7) as int, register_offset_address(s.cpu, w)), None),
        ThumbInstruction::Sub1 => thumb_alu(s, (w & 7) as int, OP_SUB, s.cpu.reg(((w >> 3u32) & 7) as int), (w >> 6u32) & 7, true),
        ThumbInstruction::Sub2 => thumb_alu(s, ((w >> 8u32) & 7) as int, OP_SUB, s.cpu.reg(((w >> 8u32) & 7) as int), w & 0xff, true),
        ThumbInstruction::Sub3 => thumb_alu(s, (w & 7) as int, OP_SUB, s.cpu.reg(((w >> 3u32) & 7) as int), s.cpu.reg(((w >> 6u32) & 7) as int), true),
        ThumbInstruction::Sub4 => (s.with_cpu(s.cpu.set_reg(13, sub32(s.cpu.reg(13), (w & 0x7f) << 2u32))), None),
        ThumbInstruction::Swi => swi_spec(s, add32(s.cpu.reg(15), 2)),
        ThumbInstruction::Tst => thumb_alu(s, (w & 7) as int, OP_TST, s.cpu.reg((w & 7) as int), s.cpu.reg(((w >> 3u32) & 7) as int), false),
        ThumbInstruction::Undefined => (s, Some(ExecError::UndefinedInstruction(w))),
    }
}

/// Which handler a Thumb instruction goes to: by bits 15:13, then sub-fields.
pub open spec fn thumb_decode(instruction: u16) -> ThumbInstruction {
    let w = instruction as u32;
    let category = (w >> 13u32) & 7;
    if category == 0 {
        let opcode = (w >> 11u32) & 3;
        if opcode == 0 {
            ThumbInstruction::Lsl1
        } else if opcode == 1 {
            ThumbInstruction::Lsr1
        } else if opcode == 2 {
            ThumbInstruction::Asr1
        } else {
            let opc = (w >> 9u32) & 3;
            if opc == 0 {
                ThumbInstruction::Add3
            } else if opc == 1 {
                ThumbInstruction::Sub3
            } else if opc == 2 {
                ThumbInstruction::Add1
            } else {
                ThumbInstruction::Sub1
            }
        }
    } else if category == 1 {
        let opcode = (w >> 11u32) & 3;
        if opcode == 0 {
            ThumbInstruction::Mov1
        } else if opcode == 1 {
            ThumbInstruction::Cmp1
        } else if opcode == 2 {
            ThumbInstruction::Add2
        } else {
            ThumbInstruction::Sub2
        }
    } else if category == 2 {
        let sub = (w >> 10u32) & 7;
        if sub == 0 {
            let opcode = (w >> 6u32) & 0xf;
            if opcode == 0 {
                ThumbInstruction::And
            } else if opcode == 1 {
                ThumbInstruction::Eor
            } else if opcode == 2 {
                ThumbInstruction::Lsl2
            } else if opcode == 3 {
                ThumbInstruction::Lsr2
            } else if opcode == 4 {
                ThumbInstruction::Asr2
            } else if opcode == 5 {
                ThumbInstruction::Adc
            } else if opcode == 6 {
                ThumbInstruction::Sbc
            } else if opcode == 7 {
                ThumbInstruction::Ror
            } else if opcode == 8 {
                ThumbInstruction::Tst
            } else if opcode == 9 {
                ThumbInstruction::Neg
            } else if opcode == 10 {
                ThumbInstruction::Cmp2
            } else if opcode == 11 {
                ThumbInstruction::Cmn
            } else if opcode == 12 {
                ThumbInstruction::Orr
            } else if opcode == 13 {
                ThumbInstruction::Mul
            } else if opcode == 14 {
                ThumbInstruction::Bic
            } else {
                ThumbInstruction::Mvn
            }
        } else if sub == 1 {
            let opcode = (w >> 8u32) & 3;
            if opcode == 0 {
                ThumbInstruction::Add4
            } else if opcode == 1 {
                ThumbInstruction::Cmp3
            } else if opcode == 2 {
                ThumbInstruction::Mov3
            } else {
                ThumbInstruction::Bx
            }
        } else if sub == 2 || sub == 3 {
            ThumbInstruction::Ldr3
        } else {
            let opcode = (w >> 9u32) & 7;
            if opcode == 0 {
                ThumbInstruction::Str2
            } else if opcode == 1 {
                ThumbInstruction::Strh2
            } else if opcode == 2 {
                ThumbInstruction::Strb2
            } else if opcode == 3 {
                ThumbInstruction::Ldrsb
            } else if opcode == 4 {
                ThumbInstruction::Ldr2
            } else if opcode == 5 {
                ThumbInstruction::Ldrh2
            } else if opcode == 6 {
                ThumbInstruction::Ldrb2
            } else {
                ThumbInstruction::Ldrsh
            }
        }
    } else if category == 3 {
        let byte = (w >> 12u32) & 1 == 1;
        let load = (w >> 11u32) & 1 == 1;
        if byte {
            if load {
                ThumbInstruction::Ldrb1
            } else {
                ThumbInstruction::Strb1
            }
        } else if load {
            ThumbInstruction::Ldr1
        } else {
            ThumbInstruction::Str1
        }
    } else if category == 4 {
        let load = (w >> 11u32) & 1 == 1;
        if (w >> 12u32) & 1 == 1 {
            if load {
                ThumbInstruction::Ldr4
            } else {
                ThumbInstruction::Str3
            }
        } else if load {
            ThumbInstruction::Ldrh1
        } else {
            ThumbInstruction::Strh1
        }
    } else if category == 5 {
        if (w >> 12u32) & 1 == 1 {
            let code = (w >> 7u32) & 0x1f;
            if code == 0 {
                ThumbInstruction::Add7
            } else if code == 1 {
                ThumbInstruction::Sub4
            } else if (w >> 9u32) & 3 == 2 {
                if (w >> 11u32) & 1 == 1 {
                    ThumbInstruction::Pop
                } else {
                    ThumbInstruction::Push
                }
            } else {
                ThumbInstruction::Undefined
            }
        } else if (w >> 11u32) & 1 == 1 {
            ThumbInstruction::Add6
        } else {
            ThumbInstruction::Add5
        }
    } else if category == 6 {
        let condition = (w >> 8u32) & 0xf;
        if (w >> 12u32) & 1 == 1 {
            if condition == 0b1110 {
                ThumbInstruction::Undefined
            } else if condition == 0b1111 {
                ThumbInstruction::Swi
            } else {
                ThumbInstruction::B1
            }
        } else if (w >> 11u32) & 1 == 1 {
            ThumbInstruction::Ldmia
        } else {
            ThumbInstruction::Stmia
        }
    } else {
        let half = (w >> 11u32) & 3;
        if half == 0 {
            ThumbInstruction::B2
        } else if half == 1 {
            ThumbInstruction::Undefined
        } else {
            ThumbInstruction::Bl
        }
    }
}

/// Decodes a Thumb instruction into the handler that executes it.
pub fn decode_instruction(instruction: u16) -> (r: ThumbInstruction)
    ensures
        r == thumb_decode(instruction),
{
    let w = instruction as u32;
    let category = (w >> 13u32) & 7;
    if category == 0 {
        let opcode = (w >> 11u32) & 3;
        if opcode == 0 {
            ThumbInstruction::Lsl1
        } else if opcode == 1 {
            ThumbInstruction::Lsr1
        } else if opcode == 2 {
            ThumbInstruction::Asr1
        } else {
            let opc = (w >> 9u32) & 3;
            if opc == 0 {
                ThumbInstruction::Add3
            } else if opc == 1 {
                ThumbInstruction::Sub3
            } else if opc == 2 {
                ThumbInstruction::Add1
            } else {
                ThumbInstruction::Sub1
            }
        }
    } else if category == 1 {
        let opcode = (w >> 11u32) & 3;
        if opcode == 0 {
            ThumbInstruction::Mov1
        } else if opcode == 1 {
            ThumbInstruction::Cmp1
        } else if opcode == 2 {
            ThumbInstruction::Add2
        } else {
            ThumbInstruction::Sub2
        }
    } else if category == 2 {
        let sub = (w >> 10u32) & 7;
        if sub == 0 {
            let opcode = (w >> 6u32) & 0xf;
            if opcode == 0 {
                ThumbInstruction::And
            } else if opcode == 1 {
                ThumbInstruction::Eor
            } else if opcode == 2 {
                ThumbInstruction::Lsl2
            } else if opcode == 3 {
                ThumbInstruction::Lsr2
            } else if opcode == 4 {
                ThumbInstruction::Asr2
            } else if opcode == 5 {
                ThumbInstruction::Adc
            } else if opcode == 6 {
                ThumbInstruction::Sbc
            } else if opcode == 7 {
                ThumbInstruction::Ror
            } else if opcode == 8 {
                ThumbInstruction::Tst
            } else if opcode == 9 {
                ThumbInstruction::Neg
            } else if opcode == 10 {
                ThumbInstruction::Cmp2
            } else if opcode == 11 {
                ThumbInstruction::Cmn
            } else if opcode == 12 {
                ThumbInstruction::Orr
            } else if opcode == 13 {
                ThumbInstruction::Mul
            } else if opcode == 14 {
                ThumbInstruction::Bic
            } else {
                ThumbInstruction::Mvn
            }
        } else if sub == 1 {
            let opcode = (w >> 8u32) & 3;
            if opcode == 0 {
                ThumbInstruction::Add4
            } else if opcode == 1 {
                ThumbInstruction::Cmp3
            } else if opcode == 2 {
                ThumbInstruction::Mov3
            } else {
                ThumbInstruction::Bx
            }
        } else if sub == 2 || sub == 3 {
            ThumbInstruction::Ldr3
        } else {
            let opcode = (w >> 9u32) & 7;
            if opcode == 0 {
                ThumbInstruction::Str2
            } else if opcode == 1 {
                ThumbInstruction::Strh2
            } else if opcode == 2 {
                ThumbInstruction::Strb2
            } else if opcode == 3 {
                ThumbInstruction::Ldrsb
            } else if opcode == 4 {
                ThumbInstruction::Ldr2
            } else if opcode == 5 {
                ThumbInstruction::Ldrh2
            } else if opcode == 6 {
                ThumbInstruction::Ldrb2
            } else {
                ThumbInstruction::Ldrsh
            }
        }
    } else if category == 3 {
        let byte = (w >> 12u32) & 1 == 1;
        let load = (w >> 11u32) & 1 == 1;
        if byte {
            if load {
                ThumbInstruction::Ldrb1
            } else {
                ThumbInstruction::Strb1
            }
        } else if load {
            ThumbInstruction::Ldr1
        } else {
            ThumbInstruction::Str1
        }
    } else if category == 4 {
        let load = (w >> 11u32) & 1 == 1;
        if (w >> 12u32) & 1 == 1 {
            if load {
                ThumbInstruction::Ldr4
            } else {
                ThumbInstruction::Str3
            }
        } else if load {
            ThumbInstruction::Ldrh1
        } else {
            ThumbInstruction::Strh1
        }
    } else if category == 5 {
        if (w >> 12u32) & 1 == 1 {
            let code = (w >> 7u32) & 0x1f;
            if code == 0 {
                ThumbInstruction::Add7
            } else if code == 1 {
                ThumbInstruction::Sub4
            } else if (w >> 9u32) & 3 == 2 {
                if (w >> 11u32) & 1 == 1 {
                    ThumbInstruction::Pop
                } else {
                    ThumbInstruction::Push
                }
            } else {
                ThumbInstruction::Undefined
            }
        } else if (w >> 11u32) & 1 == 1 {
            ThumbInstruction::Add6
        } else {
            ThumbInstruction::Add5
        }
    } else if category == 6 {
        let condition = (w >> 8u32) & 0xf;
        if (w >> 12u32) & 1 == 1 {
            if condition == 0b1110 {
                ThumbInstruction::Undefined
            } else if condition == 0b1111 {
                ThumbInstruction::Swi
            } else {
                ThumbInstruction::B1
            }
        } else if (w >> 11u32) & 1 == 1 {
            ThumbInstruction::Ldmia
        } else {
            ThumbInstruction::Stmia
        }
    } else {
        let half = (w >> 11u32) & 3;
        if half == 0 {
            ThumbInstruction::B2
        } else if half == 1 {
            ThumbInstruction::Undefined
        } else {
            ThumbInstruction::Bl
        }
    }
}

/// Runs an ALU operation and sets NZCV (see `thumb_alu`).
fn alu_op(emulator: &mut Emulator, rd: u32, op: u32, a: u32, b: u32, write: bool) -> (r: Result<u32, ExecError>)
    requires
        old(emulator).wf(),
        rd < 16,
    ensures
        final(emulator).wf(),
        step_matches(r, final(emulator)@, thumb_alu(old(emulator)@, rd as int, op, a, b, write)),
{
    let c = emulator.cpu.get_c();
    let v = emulator.cpu.get_v();
    let result = crate::arm::alu_value(op, a, b, c);
    if write {
        emulator.cpu.write(rd, result);
    }
    let (carry, overflow) = crate::arm::alu_flag_values(op, a, b, c, v, c, result);
    emulator.cpu.set_nzcv(bit_of(result, 31), result == 0, carry, overflow);
    Ok(1)
}

/// Runs a shift and sets N, Z and C (see `thumb_shift`).
fn shift_op(emulator: &mut Emulator, rd: u32, v: u32, mode: ShiftMode, amount: u32, by_register: bool) -> (r:
    Result<u32, ExecError>)
    requires
        old(emulator).wf(),
        rd < 16,
    ensures
        final(emulator).wf(),
        step_matches(r, final(emulator)@, thumb_shift(old(emulator)@, rd as int, v, mode, amount, by_register)),
{
    let c = emulator.cpu.get_c();
    let overflow = emulator.cpu.get_v();
    let (result, carry) = shift_value(mode, amount, by_register, v, c);
    emulator.cpu.write(rd, result);
    emulator.cpu.set_nzcv(bit_of(result, 31), result == 0, carry, overflow);
    Ok(1)
}

/// Add with carry.
pub fn adc(emulator: &mut Emulator, instruction: u16) -> (r: Result<u32, ExecError>)
    requires
        old(emulator).wf(),
    ensures
        final(emulator).wf(),
        step_matches(r, final(emulator)@, thumb_execute(old(emulator)@, ThumbInstruction::Adc, instruction)),
{
    let w = instruction as u32;
    let a = emulator.cpu.read(w & 7);
    let b = emulator.cpu.read((w >> 3u32) & 7);
    alu_op(emulator, w & 7, OP_ADC, a, b, true)
}

/// Add a 3-bit immediate to a register.
pub fn add1(emulator: &mut Emulator, instruction: u16) -> (r: Result<u32, ExecError>)
    requires
        old(emulator).wf(),
    ensures
        final(emulator).wf(),
        step_matches(r, final(emulator)@, thumb_execute(old(emulator)@, ThumbInstruction::Add1, instruction)),
{
    let w = instruction as u32;
    let a = emulator.cpu.read((w >> 3u32) & 7);
    let b = (w >> 6u32) & 7;
    alu_op(emulator, w & 7, OP_ADD, a, b, true)
}

/// Add an 8-bit immediate to a register.
pub fn add2(emulator: &mut Emulator, instruction: u16) -> (r: Result<u32, ExecError>)
    requires
        old(emulator).wf(),
    ensures
        final(emulator).wf(),
        step_matches(r, final(emulator)@, thumb_execute(old(emulator)@, ThumbInstruction::Add2, instruction)),
{
    let w = instruction as u32;
    let a = emulator.cpu.read((w >> 8u32) & 7);
    let b = w & 0xff;
    alu_op(emulator, (w >> 8u32) & 7, OP_ADD, a, b, true)
}

/// Add two registers.
pub fn add3(emulator: &mut Emulator, instruction: u16) -> (r: Result<u32, ExecError>)
    requires
        old(emulator).wf(),
    ensures
        final(emulator).wf(),
        step_matches(r, final(emulator)@, thumb_execute(old(emulator)@, ThumbInstruction::Add3, instruction)),
{
    let w = instruction as u32;
    let a = emulator.cpu.read((w >> 3u32) & 7);
    let b = emulator.cpu.read((w >> 6u32) & 7);
    alu_op(emulator, w & 7, OP_ADD, a, b, true)
}

/// Add two registers, one or both high; flags unchanged.
pub fn add4(emulator: &mut Emulator, instruction: u16) -> (r: Result<u32, ExecError>)
    requires
        old(emulator).wf(),
    ensures
        final(emulator).wf(),
        step_matches(r, final(emulator)@, thumb_execute(old(emulator)@, ThumbInstruction::Add4, instruction)),
{
    let w = instruction as u32;
    proof {
        crate::bitfield::lemma_high_register(w >> 7u32, w);
        crate::bitfield::lemma_high_register(w >> 6u32, w >> 3u32);
    }
    let rd = (((w >> 7u32) & 1) << 3u32) | (w & 7);
    let rm = (((w >> 6u32) & 1) << 3u32) | ((w >> 3u32) & 7);
    let v = emulator.cpu.read(rd).wrapping_add(emulator.cpu.read(rm));
    emulator.cpu.write(rd, v);
    Ok(1)
}

/// Rd = PC (word-aligned) + 4 * immediate.
pub fn add5(emulator: &mut Emulator, instruction: u16) -> (r: Result<u32, ExecError>)
    requires
        old(emulator).wf(),
    ensures
        final(emulator).wf(),
        step_matches(r, final(emulator)@, thumb_execute(old(emulator)@, ThumbInstruction::Add5, instruction)),
{
    let w = instruction as u32;
    let v = (emulator.cpu.read(15) & 0xFFFF_FFFC).wrapping_add((w & 0xff) << 2u32);
    emulator.cpu.write((w >> 8u32) & 7, v);
    Ok(1)
}

/// Rd = SP + 4 * immediate.
pub fn add6(emulator: &mut Emulator, instruction: u16) -> (r: Result<u32, ExecError>)
    requires
        old(emulator).wf(),
    ensures
        final(emulator).wf(),
        step_matches(r, final(emulator)@, thumb_execute(old(emulator)@, ThumbInstruction::Add6, instruction)),
{
    let w = instruction as u32;
    let v = emulator.cpu.read(13).wrapping_add((w & 0xff) << 2u32);
    emulator.cpu.write((w >> 8u32) & 7, v);
    Ok(1)
}

/// Increment SP by 4 * a 7-bit immediate.
pub fn add7(emulator: &mut Emulator, instruction: u16) -> (r: Result<u32, ExecError>)
    requires
        old(emulator).wf(),
    ensures
        final(emulator).wf(),
        step_matches(r, final(emulator)@, thumb_execute(old(emulator)@, ThumbInstruction::Add7, instruction)),
{
    let w = instruction as u32;
    let v = emulator.cpu.read(13).wrapping_add((w & 0x7f) << 2u32);
    emulator.cpu.write(13, v);
    Ok(1)
}

/// Logical AND.
pub fn and(emulator: &mut Emulator, instruction: u16) -> (r: Result<u32, ExecError>)
    requires
        old(emulator).wf(),
    ensures
        final(emulator).wf(),
        step_matches(r, final(emulator)@, thumb_execute(old(emulator)@, ThumbInstruction::And, instruction)),
{
    let w = instruction as u32;
    let a = emulator.cpu.read(w & 7);
    let b = emulator.cpu.read((w >> 3u32) & 7);
    alu_op(emulator, w & 7, OP_AND, a, b, true)
}

/// Arithmetic shift right by an immediate.
pub fn asr1(emulator: &mut Emulator, instruction: u16) -> (r: Result<u32, ExecError>)
    requires
        old(emulator).wf(),
    ensures
        final(emulator).wf(),
        step_matches(r, final(emulator)@, thumb_execute(old(emulator)@, ThumbInstruction::Asr1, instruction)),
{
    let w = instruction as u32;
    let v = emulator.cpu.read((w >> 3u32) & 7);
    shift_op(emulator, w & 7, v, ShiftMode::ASR, (w >> 6u32) & 0x1f, false)
}

/// Arithmetic shift right by a register.
pub fn asr2(emulator: &mut Emulator, instruction: u16) -> (r: Result<u32, ExecError>)
    requires
        old(emulator).wf(),
    ensures
        final(emulator).wf(),
        step_matches(r, final(emulator)@, thumb_execute(old(emulator)@, ThumbInstruction::Asr2, instruction)),
{
    let w = instruction as u32;
    let v = emulator.cpu.read(w & 7);
    let amount = emulator.cpu.read((w >> 3u32) & 7) & 0xff;
    shift_op(emulator, w & 7, v, ShiftMode::ASR, amount, true)
}

/// Conditional branch.
pub fn b1(emulator: &mut Emulator, instruction: u16) -> (r: Result<u32, ExecError>)
    requires
        old(emulator).wf(),
    ensures
        final(emulator).wf(),
        step_matches(r, final(emulator)@, thumb_execute(old(emulator)@, ThumbInstruction::B1, instruction)),
{
    let w = instruction as u32;
    if emulator.cpu.check_condition((w >> 8u32) & 0xf) {
        let imm = w & 0xff;
        let offset = if bit_of(w, 7) {
            (imm | 0xFFFF_FF00) << 1u32
        } else {
            imm << 1u32
        };
        let pc = emulator.cpu.read(15);
        emulator.cpu.write(15, pc.wrapping_add(offset));
    }
    Ok(1)
}

/// Unconditional branch.
pub fn b2(emulator: &mut Emulator, instruction: u16) -> (r: Result<u32, ExecError>)
    requires
        old(emulator).wf(),
    ensures
        final(emulator).wf(),
        step_matches(r, final(emulator)@, thumb_execute(old(emulator)@, ThumbInstruction::B2, instruction)),
{
    let w = instruction as u32;
    let imm = w & 0x7ff;
    let offset = if bit_of(w, 10) {
        (imm | 0xFFFF_F800) << 1u32
    } else {
        imm << 1u32
    };
    let pc = emulator.cpu.read(15);
    emulator.cpu.write(15, pc.wrapping_add(offset));
    Ok(1)
}

/// Bit clear.
pub fn bic(emulator: &mut Emulator, instruction: u16) -> (r: Result<u32, ExecError>)
    requires
        old(emulator).wf(),
    ensures
        final(emulator).wf(),
        step_matches(r, final(emulator)@, thumb_execute(old(emulator)@, ThumbInstruction::Bic, instruction)),
{
    let w = instruction as u32;
    let a = emulator.cpu.read(w & 7);
    let b = emulator.cpu.read((w >> 3u32) & 7);
    alu_op(emulator, w & 7, OP_BIC, a, b, true)
}

/// One half of the two-instruction branch with link.
pub fn bl(emulator: &mut Emulator, instruction: u16) -> (r: Result<u32, ExecError>)
    requires
        old(emulator).wf(),
    ensures
        final(emulator).wf(),
        step_matches(r, final(emulator)@, thumb_execute(old(emulator)@, ThumbInstruction::Bl, instruction)),
{
    let w = instruction as u32;
    let imm = w & 0x7ff;
    let half = (w >> 11u32) & 3;
    let pc = emulator.cpu.read(15);
    if half == 2 {
        let high = if bit_of(w, 10) {
            (imm | 0xFFFF_F800) << 12u32
        } else {
            imm << 12u32
        };
        emulator.cpu.write(14, pc.wrapping_add(high));
        Ok(1)
    } else if half == 3 {
        let lr = emulator.cpu.read(14);
        emulator.cpu.write(15, lr.wrapping_add(imm << 1u32));
        emulator.cpu.write(14, pc.wrapping_add(2) | 1);
        Ok(1)
    } else {
        Err(ExecError::UndefinedInstruction(w))
    }
}

/// Branch and exchange instruction set.
pub fn bx(emulator: &mut Emulator, instruction: u16) -> (r: Result<u32, ExecError>)
    requires
        old(emulator).wf(),
    ensures
        final(emulator).wf(),
        step_matches(r, final(emulator)@, thumb_execute(old(emulator)@, ThumbInstruction::Bx, instruction)),
{
    let w = instruction as u32;
    proof {
        crate::bitfield::lemma_high_register(w >> 6u32, w >> 3u32);
    }
    let rm = (((w >> 6u32) & 1) << 3u32) | ((w >> 3u32) & 7);
    let target = emulator.cpu.read(rm);
    branch_exchange(emulator, target)
}

/// Compare negative.
pub fn cmn(emulator: &mut Emulator, instruction: u16) -> (r: Result<u32, ExecError>)
    requires
        old(emulator).wf(),
    ensures
        final(emulator).wf(),
        step_matches(r, final(emulator)@, thumb_execute(old(emulator)@, ThumbInstruction::Cmn, instruction)),
{
    let w = instruction as u32;
    let a = emulator.cpu.read(w & 7);
    let b = emulator.cpu.read((w >> 3u32) & 7);
    alu_op(emulator, w & 7, OP_CMN, a, b, false)
}

/// Compare a register with an 8-bit immediate.
pub fn cmp1(emulator: &mut Emulator, instruction: u16) -> (r: Result<u32, ExecError>)
    requires
        old(emulator).wf(),
    ensures
        final(emulator).wf(),
        step_matches(r, final(emulator)@, thumb_execute(old(emulator)@, ThumbInstruction::Cmp1, instruction)),
{
    let w = instruction as u32;
    let a = emulator.cpu.read((w >> 8u32) & 7);
    let b = w & 0xff;
    alu_op(emulator, (w >> 8u32) & 7, OP_CMP, a, b, false)
}

/// Compare two low registers.
pub fn cmp2(emulator: &mut Emulator, instruction: u16) -> (r: Result<u32, ExecError>)
    requires
        old(emulator).wf(),
    ensures
        final(emulator).wf(),
        step_matches(r, final(emulator)@, thumb_execute(old(emulator)@, ThumbInstruction::Cmp2, instruction)),
{
    let w = instruction as u32;
    let a = emulator.cpu.read(w & 7);
    let b = emulator.cpu.read((w >> 3u32) & 7);
    alu_op(emulator, w & 7, OP_CMP, a, b, false)
}

/// Compare two registers, one or both high.
pub fn cmp3(emulator: &mut Emulator, instruction: u16) -> (r: Result<u32, ExecError>)
    requires
        old(emulator).wf(),
    ensures
        final(emulator).wf(),
        step_matches(r, final(emulator)@, thumb_execute(old(emulator)@, ThumbInstruction::Cmp3, instruction)),
{
    let w = instruction as u32;
    proof {
        crate::bitfield::lemma_high_register(w >> 7u32, w);
        crate::bitfield::lemma_high_register(w >> 6u32, w >> 3u32);
    }
    let rd = (((w >> 7u32) & 1) << 3u32) | (w & 7);
    let rm = (((w >> 6u32) & 1) << 3u32) | ((w >> 3u32) & 7);
    let a = emulator.cpu.read(rd);
    let b = emulator.cpu.read(rm);
    alu_op(emulator, rd, OP_CMP, a, b, false)
}

/// Logical exclusive OR.
pub fn eor(emulator: &mut Emulator, instruction: u16) -> (r: Result<u32, ExecError>)
    requires
        old(emulator).wf(),
    ensures
        final(emulator).wf(),
        step_matches(r, final(emulator)@, thumb_execute(old(emulator)@, ThumbInstruction::Eor, instruction)),
{
    let w = instruction as u32;
    let a = emulator.cpu.read(w & 7);
    let b = emulator.cpu.read((w >> 3u32) & 7);
    alu_op(emulator, w & 7, OP_EOR, a, b, true)
}

/// Load multiple, increment after, with write-back.
pub fn ldmia(emulator: &mut Emulator, instruction: u16) -> (r: Result<u32, ExecError>)
    requires
        old(emulator).wf(),
    ensures
        final(emulator).wf(),
        step_matches(r, final(emulator)@, thumb_execute(old(emulator)@, ThumbInstruction::Ldmia, instruction)),
{
    let w = instruction as u32;
    let rn = (w >> 8u32) & 7;
    let list = w & 0xff;
    let base = emulator.cpu.read(rn);
    let next = load_registers(emulator, list, base, 8, false);
    if !bit_of(list, rn) {
        emulator.cpu.write(rn, next);
    }
    Ok(1)
}

/// Load word, immediate offset.
pub fn ldr1(emulator: &mut Emulator, instruction: u16) -> (r: Result<u32, ExecError>)
    requires
        old(emulator).wf(),
    ensures
        final(emulator).wf(),
        step_matches(r, final(emulator)@, thumb_execute(old(emulator)@, ThumbInstruction::Ldr1, instruction)),
{
    let w = instruction as u32;
    let address = emulator.cpu.read((w >> 3u32) & 7).wrapping_add(((w >> 6u32) & 0x1f) << 2u32);
    transfer(emulator, Transfer::LoadWord, w & 7, address);
    Ok(1)
}

/// Load word, register offset.
pub fn ldr2(emulator: &mut Emulator, instruction: u16) -> (r: Result<u32, ExecError>)
    requires
        old(emulator).wf(),
    ensures
        final(emulator).wf(),
        step_matches(r, final(emulator)@, thumb_execute(old(emulator)@, ThumbInstruction::Ldr2, instruction)),
{
    let w = instruction as u32;
    let address = emulator.cpu.read((w >> 3u32) & 7).wrapping_add(emulator.cpu.read((w >> 6u32) & 7));
    transfer(emulator, Transfer::LoadWord, w & 7, address);
    Ok(1)
}

/// Load word PC-relative (literal pool).
pub fn ldr3(emulator: &mut Emulator, instruction: u16) -> (r: Result<u32, ExecError>)
    requires
        old(emulator).wf(),
    ensures
        final(emulator).wf(),
        step_matches(r, final(emulator)@, thumb_execute(old(emulator)@, ThumbInstruction::Ldr3, instruction)),
{
    let w = instruction as u32;
    let address = (emulator.cpu.read(15) & 0xFFFF_FFFC).wrapping_add((w & 0xff) << 2u32);
    transfer(emulator, Transfer::LoadWord, (w >> 8u32) & 7, address);
    Ok(1)
}

/// Load word SP-relative.
pub fn ldr4(emulator: &mut Emulator, instruction: u16) -> (r: Result<u32, ExecError>)
    requires
        old(emulator).wf(),
    ensures
        final(emulator).wf(),
        step_matches(r, final(emulator)@, thumb_execute(old(emulator)@, ThumbInstruction::Ldr4, instruction)),
{
    let w = instruction as u32;
    let address = emulator.cpu.read(13).wrapping_add((w & 0xff) << 2u32);
    transfer(emulator, Transfer::LoadWord, (w >> 8u32) & 7, address);
    Ok(1)
}

/// Load byte, immediate offset.
pub fn ldrb1(emulator: &mut Emulator, instruction: u16) -> (r: Result<u32, ExecError>)
    requires
        old(emulator).wf(),
    ensures
        final(emulator).wf(),
        step_matches(r, final(emulator)@, thumb_execute(old(emulator)@, ThumbInstruction::Ldrb1, instruction)),
{
    let w = instruction as u32;
    let address = emulator.cpu.read((w >> 3u32) & 7).wrapping_add(((w >> 6u32) & 0x1f));
    transfer(emulator, Transfer::LoadByte, w & 7, address);
    Ok(1)
}

/// Load byte, register offset.
pub fn ldrb2(emulator: &mut Emulator, instruction: u16) -> (r: Result<u32, ExecError>)
    requires
        old(emulator).wf(),
    ensures
        final(emulator).wf(),
        step_matches(r, final(emulator)@, thumb_execute(old(emulator)@, ThumbInstruction::Ldrb2, instruction)),
{
    let w = instruction as u32;
    let address = emulator.cpu.read((w >> 3u32) & 7).wrapping_add(emulator.cpu.read((w >> 6u32) & 7));
    transfer(emulator, Transfer::LoadByte, w & 7, address);
    Ok(1)
}

/// Load half-word, immediate offset.
pub fn ldrh1(emulator: &mut Emulator, instruction: u16) -> (r: Result<u32, ExecError>)
    requires
        old(emulator).wf(),
    ensures
        final(emulator).wf(),
        step_matches(r, final(emulator)@, thumb_execute(old(emulator)@, ThumbInstruction::Ldrh1, instruction)),
{
    let w = instruction as u32;
    let address = emulator.cpu.read((w >> 3u32) & 7).wrapping_add(((w >> 6u32) & 0x1f) << 1u32);
    transfer(emulator, Transfer::LoadHalf, w & 7, address);
    Ok(1)
}

/// Load half-word, register offset.
pub fn ldrh2(emulator: &mut Emulator, instruction: u16) -> (r: Result<u32, ExecError>)
    requires
        old(emulator).wf(),
    ensures
        final(emulator).wf(),
        step_matches(r, final(emulator)@, thumb_execute(old(emulator)@, ThumbInstruction::Ldrh2, instruction)),
{
    let w = instruction as u32;
    let address = emulator.cpu.read((w >> 3u32) & 7).wrapping_add(emulator.cpu.read((w >> 6u32) & 7));
    transfer(emulator, Transfer::LoadHalf, w & 7, address);
    Ok(1)
}

/// Load signed byte, register offset.
pub fn ldrsb(emulator: &mut Emulator, instruction: u16) -> (r: Result<u32, ExecError>)
    requires
        old(emulator).wf(),
    ensures
        final(emulator).wf(),
        step_matches(r, final(emulator)@, thumb_execute(old(emulator)@, ThumbInstruction::Ldrsb, instruction)),
{
    let w = instruction as u32;
    let address = emulator.cpu.read((w >> 3u32) & 7).wrapping_add(emulator.cpu.read((w >> 6u32) & 7));
    transfer(emulator, Transfer::LoadSignedByte, w & 7, address);
    Ok(1)
}

/// Load signed half-word, register offset.
pub fn ldrsh(emulator: &mut Emulator, instruction: u16) -> (r: Result<u32, ExecError>)
    requires
        old(emulator).wf(),
    ensures
        final(emulator).wf(),
        step_matches(r, final(emulator)@, thumb_execute(old(emulator)@, ThumbInstruction::Ldrsh, instruction)),
{
    let w = instruction as u32;
    let address = emulator.cpu.read((w >> 3u32) & 7).wrapping_add(emulator.cpu.read((w >> 6u32) & 7));
    transfer(emulator, Transfer::LoadSignedHalf, w & 7, address);
    Ok(1)
}

/// Logical shift left by an immediate.
pub fn lsl1(emulator: &mut Emulator, instruction: u16) -> (r: Result<u32, ExecError>)
    requires
        old(emulator).wf(),
    ensures
        final(emulator).wf(),
        step_matches(r, final(emulator)@, thumb_execute(old(emulator)@, ThumbInstruction::Lsl1, instruction)),
{
    let w = instruction as u32;
    let v = emulator.cpu.read((w >> 3u32) & 7);
    shift_op(emulator, w & 7, v, ShiftMode::LSL, (w >> 6u32) & 0x1f, false)
}

/// Logical shift left by a register.
pub fn lsl2(emulator: &mut Emulator, instruction: u16) -> (r: Result<u32, ExecError>)
    requires
        old(emulator).wf(),
    ensures
        final(emulator).wf(),
        step_matches(r, final(emulator)@, thumb_execute(old(emulator)@, ThumbInstruction::Lsl2, instruction)),
{
    let w = instruction as u32;
    let v = emulator.cpu.read(w & 7);
    let amount = emulator.cpu.read((w >> 3u32) & 7) & 0xff;
    shift_op(emulator, w & 7, v, ShiftMode::LSL, amount, true)
}

/// Logical shift right by an immediate.
pub fn lsr1(emulator: &mut Emulator, instruction: u16) -> (r: Result<u32, ExecError>)
    requires
        old(emulator).wf(),
    ensures
        final(emulator).wf(),
        step_matches(r, final(emulator)@, thumb_execute(old(emulator)@, ThumbInstruction::Lsr1, instruction)),
{
    let w = instruction as u32;
    let v = emulator.cpu.read((w >> 3u32) & 7);
    shift_op(emulator, w & 7, v, ShiftMode::LSR, (w >> 6u32) & 0x1f, false)
}

/// Logical shift right by a register.
pub fn lsr2(emulator: &mut Emulator, instruction: u16) -> (r: Result<u32, ExecError>)
    requires
        old(emulator).wf(),
    ensures
        final(emulator).wf(),
        step_matches(r, final(emulator)@, thumb_execute(old(emulator)@, ThumbInstruction::Lsr2, instruction)),
{
    let w = instruction as u32;
    let v = emulator.cpu.read(w & 7);
    let amount = emulator.cpu.read((w >> 3u32) & 7) & 0xff;
    shift_op(emulator, w & 7, v, ShiftMode::LSR, amount, true)
}

/// Move an 8-bit immediate into a register.
pub fn mov1(emulator: &mut Emulator, instruction: u16) -> (r: Result<u32, ExecError>)
    requires
        old(emulator).wf(),
    ensures
        final(emulator).wf(),
        step_matches(r, final(emulator)@, thumb_execute(old(emulator)@, ThumbInstruction::Mov1, instruction)),
{
    let w = instruction as u32;
    let a = emulator.cpu.read((w >> 8u32) & 7);
    let b = w & 0xff;
    alu_op(emulator, (w >> 8u32) & 7, OP_MOV, a, b, true)
}

/// Move a low register to another; C and V cleared.
pub fn mov2(emulator: &mut Emulator, instruction: u16) -> (r: Result<u32, ExecError>)
    requires
        old(emulator).wf(),
    ensures
        final(emulator).wf(),
        step_matches(r, final(emulator)@, thumb_execute(old(emulator)@, ThumbInstruction::Mov2, instruction)),
{
    let w = instruction as u32;
    let v = emulator.cpu.read((w >> 3u32) & 7);
    emulator.cpu.write(w & 7, v);
    emulator.cpu.set_nzcv(bit_of(v, 31), v == 0, false, false);
    Ok(1)
}

/// Move to, from or between high registers; flags unchanged.
pub fn mov3(emulator: &mut Emulator, instruction: u16) -> (r: Result<u32, ExecError>)
    requires
        old(emulator).wf(),
    ensures
        final(emulator).wf(),
        step_matches(r, final(emulator)@, thumb_execute(old(emulator)@, ThumbInstruction::Mov3, instruction)),
{
    let w = instruction as u32;
    proof {
        crate::bitfield::lemma_high_register(w >> 7u32, w);
        crate::bitfield::lemma_high_register(w >> 6u32, w >> 3u32);
    }
    let rd = (((w >> 7u32) & 1) << 3u32) | (w & 7);
    let rm = (((w >> 6u32) & 1) << 3u32) | ((w >> 3u32) & 7);
    let v = emulator.cpu.read(rm);
    emulator.cpu.write(rd, v);
    Ok(1)
}

/// Multiply.
pub fn mul(emulator: &mut Emulator, instruction: u16) -> (r: Result<u32, ExecError>)
    requires
        old(emulator).wf(),
    ensures
        final(emulator).wf(),
        step_matches(r, final(emulator)@, thumb_execute(old(emulator)@, ThumbInstruction::Mul, instruction)),
{
    let w = instruction as u32;
    let c = emulator.cpu.get_c();
    let v = emulator.cpu.get_v();
    let r = emulator.cpu.read(w & 7).wrapping_mul(emulator.cpu.read((w >> 3u32) & 7));
    emulator.cpu.write(w & 7, r);
    emulator.cpu.set_nzcv(bit_of(r, 31), r == 0, c, v);
    Ok(1)
}

/// Move NOT.
pub fn mvn(emulator: &mut Emulator, instruction: u16) -> (r: Result<u32, ExecError>)
    requires
        old(emulator).wf(),
    ensures
        final(emulator).wf(),
        step_matches(r, final(emulator)@, thumb_execute(old(emulator)@, ThumbInstruction::Mvn, instruction)),
{
    let w = instruction as u32;
    let a = emulator.cpu.read(w & 7);
    let b = emulator.cpu.read((w >> 3u32) & 7);
    alu_op(emulator, w & 7, OP_MVN, a, b, true)
}

/// Negate: Rd = 0 - Rm.
pub fn neg(emulator: &mut Emulator, instruction: u16) -> (r: Result<u32, ExecError>)
    requires
        old(emulator).wf(),
    ensures
        final(emulator).wf(),
        step_matches(r, final(emulator)@, thumb_execute(old(emulator)@, ThumbInstruction::Neg, instruction)),
{
    let w = instruction as u32;
    let a: u32 = 0;
    let b = emulator.cpu.read((w >> 3u32) & 7);
    alu_op(emulator, w & 7, OP_SUB, a, b, true)
}

/// Logical OR.
pub fn or(emulator: &mut Emulator, instruction: u16) -> (r: Result<u32, ExecError>)
    requires
        old(emulator).wf(),
    ensures
        final(emulator).wf(),
        step_matches(r, final(emulator)@, thumb_execute(old(emulator)@, ThumbInstruction::Orr, instruction)),
{
    let w = instruction as u32;
    let a = emulator.cpu.read(w & 7);
    let b = emulator.cpu.read((w >> 3u32) & 7);
    alu_op(emulator, w & 7, OP_ORR, a, b, true)
}

/// Pop registers (and optionally PC) from the stack.
pub fn pop(emulator: &mut Emulator, instruction: u16) -> (r: Result<u32, ExecError>)
    requires
        old(emulator).wf(),
    ensures
        final(emulator).wf(),
        step_matches(r, final(emulator)@, thumb_execute(old(emulator)@, ThumbInstruction::Pop, instruction)),
{
    let w = instruction as u32;
    let sp = emulator.cpu.read(13);
    let next = load_registers(emulator, w & 0xff, sp, 8, false);
    if bit_of(w, 8) {
        let value = read_word(emulator, next & 0xFFFF_FFFC);
        emulator.cpu.write(15, value & 0xFFFF_FFFE);
        emulator.cpu.write(13, next.wrapping_add(4));
    } else {
        emulator.cpu.write(13, next);
    }
    Ok(1)
}

/// Push registers (and optionally LR) on the stack.
pub fn push(emulator: &mut Emulator, instruction: u16) -> (r: Result<u32, ExecError>)
    requires
        old(emulator).wf(),
    ensures
        final(emulator).wf(),
        step_matches(r, final(emulator)@, thumb_execute(old(emulator)@, ThumbInstruction::Push, instruction)),
{
    let w = instruction as u32;
    let list = (w & 0xff) | (if bit_of(w, 8) {
        0x4000u32
    } else {
        0u32
    });
    let size = 4 * count_list(list);
    let start = emulator.cpu.read(13).wrapping_sub(size);
    store_registers(emulator, list, start, 16, false);
    emulator.cpu.write(13, start);
    Ok(1)
}

/// Rotate right by a register.
pub fn ror(emulator: &mut Emulator, instruction: u16) -> (r: Result<u32, ExecError>)
    requires
        old(emulator).wf(),
    ensures
        final(emulator).wf(),
        step_matches(r, final(emulator)@, thumb_execute(old(emulator)@, ThumbInstruction::Ror, instruction)),
{
    let w = instruction as u32;
    let v = emulator.cpu.read(w & 7);
    let amount = emulator.cpu.read((w >> 3u32) & 7) & 0xff;
    shift_op(emulator, w & 7, v, ShiftMode::ROR, amount, true)
}

/// Subtract with carry.
pub fn sbc(emulator: &mut Emulator, instruction: u16) -> (r: Result<u32, ExecError>)
    requires
        old(emulator).wf(),
    ensures
        final(emulator).wf(),
        step_matches(r, final(emulator)@, thumb_execute(old(emulator)@, ThumbInstruction::Sbc, instruction)),
{
    let w = instruction as u32;
    let a = emulator.cpu.read(w & 7);
    let b = emulator.cpu.read((w >> 3u32) & 7);
    alu_op(emulator, w & 7, OP_SBC, a, b, true)
}

/// Store multiple, increment after, with write-back.
pub fn stmia(emulator: &mut Emulator, instruction: u16) -> (r: Result<u32, ExecError>)
    requires
        old(emulator).wf(),
    ensures
        final(emulator).wf(),
        step_matches(r, final(emulator)@, thumb_execute(old(emulator)@, ThumbInstruction::Stmia, instruction)),
{
    let w = instruction as u32;
    let rn = (w >> 8u32) & 7;
    let base = emulator.cpu.read(rn);
    let next = store_registers(emulator, w & 0xff, base, 8, false);
    emulator.cpu.write(rn, next);
    Ok(1)
}

/// Store word, immediate offset.
pub fn str1(emulator: &mut Emulator, instruction: u16) -> (r: Result<u32, ExecError>)
    requires
        old(emulator).wf(),
    ensures
        final(emulator).wf(),
        step_matches(r, final(emulator)@, thumb_execute(old(emulator)@, ThumbInstruction::Str1, instruction)),
{
    let w = instruction as u32;
    let address = emulator.cpu.read((w >> 3u32) & 7).wrapping_add(((w >> 6u32) & 0x1f) << 2u32);
    transfer(emulator, Transfer::StoreWord, w & 7, address);
    Ok(1)
}

/// Store word, register offset.
pub fn str2(emulator: &mut Emulator, instruction: u16) -> (r: Result<u32, ExecError>)
    requires
        old(emulator).wf(),
    ensures
        final(emulator).wf(),
        step_matches(r, final(emulator)@, thumb_execute(old(emulator)@, ThumbInstruction::Str2, instruction)),
{
    let w = instruction as u32;
    let address = emulator.cpu.read((w >> 3u32) & 7).wrapping_add(emulator.cpu.read((w >> 6u32) & 7));
    transfer(emulator, Transfer::StoreWord, w & 7, address);
    Ok(1)
}

/// Store word SP-relative.
pub fn str3(emulator: &mut Emulator, instruction: u16) -> (r: Result<u32, ExecError>)
    requires
        old(emulator).wf(),
    ensures
        final(emulator).wf(),
        step_matches(r, final(emulator)@, thumb_execute(old(emulator)@, ThumbInstruction::Str3, instruction)),
{
    let w = instruction as u32;
    let address = emulator.cpu.read(13).wrapping_add((w & 0xff) << 2u32);
    transfer(emulator, Transfer::StoreWord, (w >> 8u32) & 7, address);
    Ok(1)
}

/// Store byte, immediate offset.
pub fn strb1(emulator: &mut Emulator, instruction: u16) -> (r: Result<u32, ExecError>)
    requires
        old(emulator).wf(),
    ensures
        final(emulator).wf(),
        step_matches(r, final(emulator)@, thumb_execute(old(emulator)@, ThumbInstruction::Strb1, instruction)),
{
    let w = instruction as u32;
    let address = emulator.cpu.read((w >> 3u32) & 7).wrapping_add(((w >> 6u32) & 0x1f));
    transfer(emulator, Transfer::StoreByte, w & 7, address);
    Ok(1)
}

/// Store byte, register offset.
pub fn strb2(emulator: &mut Emulator, instruction: u16) -> (r: Result<u32, ExecError>)
    requires
        old(emulator).wf(),
    ensures
        final(emulator).wf(),
        step_matches(r, final(emulator)@, thumb_execute(old(emulator)@, ThumbInstruction::Strb2, instruction)),
{
    let w = instruction as u32;
    let address = emulator.cpu.read((w >> 3u32) & 7).wrapping_add(emulator.cpu.read((w >> 6u32) & 7));
    transfer(emulator, Transfer::StoreByte, w & 7, address);
    Ok(1)
}

/// Store half-word, immediate offset.
pub fn strh1(emulator: &mut Emulator, instruction: u16) -> (r: Result<u32, ExecError>)
    requires
        old(emulator).wf(),
    ensures
        final(emulator).wf(),
        step_matches(r, final(emulator)@, thumb_execute(old(emulator)@, ThumbInstruction::Strh1, instruction)),
{
    let w = instruction as u32;
    let address = emulator.cpu.read((w >> 3u32) & 7).wrapping_add(((w >> 6u32) & 0x1f) << 1u32);
    transfer(emulator, Transfer::StoreHalf, w & 7, address);
    Ok(1)
}

/// Store half-word, register offset.
pub fn strh2(emulator: &mut Emulator, instruction: u16) -> (r: Result<u32, ExecError>)
    requires
        old(emulator).wf(),
    ensures
        final(emulator).wf(),
        step_matches(r, final(emulator)@, thumb_execute(old(emulator)@, ThumbInstruction::Strh2, instruction)),
{
    let w = instruction as u32;
    let address = emulator.cpu.read((w >> 3u32) & 7).wrapping_add(emulator.cpu.read((w >> 6u32) & 7));
    transfer(emulator, Transfer::StoreHalf, w & 7, address);
    Ok(1)
}

/// Subtract a 3-bit immediate from a register.
pub fn sub1(emulator: &mut Emulator, instruction: u16) -> (r: Result<u32, ExecError>)
    requires
        old(emulator).wf(),
    ensures
        final(emulator).wf(),
        step_matches(r, final(emulator)@, thumb_execute(old(emulator)@, ThumbInstruction::Sub1, instruction)),
{
    let w = instruction as u32;
    let a = emulator.cpu.read((w >> 3u32) & 7);
    let b = (w >> 6u32) & 7;
    alu_op(emulator, w & 7, OP_SUB, a, b, true)
}

/// Subtract an 8-bit immediate from a register.
pub fn sub2(emulator: &mut Emulator, instruction: u16) -> (r: Result<u32, ExecError>)
    requires
        old(emulator).wf(),
    ensures
        final(emulator).wf(),
        step_matches(r, final(emulator)@, thumb_execute(old(emulator)@, ThumbInstruction::Sub2, instruction)),
{
    let w = instruction as u32;
    let a = emulator.cpu.read((w >> 8u32) & 7);
    let b = w & 0xff;
    alu_op(emulator, (w >> 8u32) & 7, OP_SUB, a, b, true)
}

/// Subtract two registers.
pub fn sub3(emulator: &mut Emulator, instruction: u16) -> (r: Result<u32, ExecError>)
    requires
        old(emulator).wf(),
    ensures
        final(emulator).wf(),
        step_matches(r, final(emulator)@, thumb_execute(old(emulator)@, ThumbInstruction::Sub3, instruction)),
{
    let w = instruction as u32;
    let a = emulator.cpu.read((w >> 3u32) & 7);
    let b = emulator.cpu.read((w >> 6u32) & 7);
    alu_op(emulator, w & 7, OP_SUB, a, b, true)
}

/// Decrement SP by 4 * a 7-bit immediate.
pub fn sub4(emulator: &mut Emulator, instruction: u16) -> (r: Result<u32, ExecError>)
    requires
        old(emulator).wf(),
    ensures
        final(emulator).wf(),
        step_matches(r, final(emulator)@, thumb_execute(old(emulator)@, ThumbInstruction::Sub4, instruction)),
{
    let w = instruction as u32;
    let v = emulator.cpu.read(13).wrapping_sub((w & 0x7f) << 2u32);
    emulator.cpu.write(13, v);
    Ok(1)
}

/// Software interrupt; returns to the next instruction.
pub fn swi(emulator: &mut Emulator, instruction: u16) -> (r: Result<u32, ExecError>)
    requires
        old(emulator).wf(),
    ensures
        final(emulator).wf(),
        step_matches(r, final(emulator)@, thumb_execute(old(emulator)@, ThumbInstruction::Swi, instruction)),
{
    let pc = emulator.cpu.read(15);
    software_interrupt(emulator, pc.wrapping_add(2))
}

/// Test: flags of Rd AND Rm.
pub fn tst(emulator: &mut Emulator, instruction: u16) -> (r: Result<u32, ExecError>)
    requires
        old(emulator).wf(),
    ensures
        final(emulator).wf(),
        step_matches(r, final(emulator)@, thumb_execute(old(emulator)@, ThumbInstruction::Tst, instruction)),
{
    let w = instruction as u32;
    let a = emulator.cpu.read(w & 7);
    let b = emulator.cpu.read((w >> 3u32) & 7);
    alu_op(emulator, w & 7, OP_TST, a, b, false)
}

/// An undefined Thumb encoding.
pub fn undefined(emulator: &mut Emulator, instruction: u16) -> (r: Result<u32, ExecError>)
    requires
        old(emulator).wf(),
    ensures
        final(emulator).wf(),
        step_matches(r, final(emulator)@, thumb_execute(old(emulator)@, ThumbInstruction::Undefined, instruction)),
{
    Err(ExecError::UndefinedInstruction(instruction as u32))
}

/// Runs handler `op` on `instruction`.
pub fn execute(emulator: &mut Emulator, op: ThumbInstruction, instruction: u16) -> (r: Result<u32, ExecError>)
    requires
        old(emulator).wf(),
    ensures
        final(emulator).wf(),
        step_matches(r, final(emulator)@, thumb_execute(old(emulator)@, op, instruction)),
{
    match op {
        ThumbInstruction::Adc => adc(emulator, instruction),
        ThumbInstruction::Add1 => add1(emulator, instruction),
        ThumbInstruction::Add2 => add2(emulator, instruction),
        ThumbInstruction::Add3 => add3(emulator, instruction),
        ThumbInstruction::Add4 => add4(emulator, instruction),
        ThumbInstruction::Add5 => add5(emulator, instruction),
        ThumbInstruction::Add6 => add6(emulator, instruction),
        ThumbInstruction::Add7 => add7(emulator, instruction),
        ThumbInstruction::And => and(emulator, instruction),
        ThumbInstruction::Asr1 => asr1(emulator, instruction),
        ThumbInstruction::Asr2 => asr2(emulator, instruction),
        ThumbInstruction::B1 => b1(emulator, instruction),
        ThumbInstruction::B2 => b2(emulator, instruction),
        ThumbInstruction::Bic => bic(emulator, instruction),
        ThumbInstruction::Bl => bl(emulator, instruction),
        ThumbInstruction::Bx => bx(emulator, instruction),
        ThumbInstruction::Cmn => cmn(emulator, instruction),
        ThumbInstruction::Cmp1 => cmp1(emulator, instruction),
        ThumbInstruction::Cmp2 => cmp2(emulator, instruction),
        ThumbInstruction::Cmp3 => cmp3(emulator, instruction),
        ThumbInstruction::Eor => eor(emulator, instruction),
        ThumbInstruction::Ldmia => ldmia(emulator, instruction),
        ThumbInstruction::Ldr1 => ldr1(emulator, instruction),
        ThumbInstruction::Ldr2 => ldr2(emulator, instruction),
        ThumbInstruction::Ldr3 => ldr3(emulator, instruction),
        ThumbInstruction::Ldr4 => ldr4(emulator, instruction),
        ThumbInstruction::Ldrb1 => ldrb1(emulator, instruction),
        ThumbInstruction::Ldrb2 => ldrb2(emulator, instruction),
        ThumbInstruction::Ldrh1 => ldrh1(emulator, instruction),
        ThumbInstruction::Ldrh2 => ldrh2(emulator, instruction),
        ThumbInstruction::Ldrsb => ldrsb(emulator, instruction),
        ThumbInstruction::Ldrsh => ldrsh(emulator, instruction),
        ThumbInstruction::Lsl1 => lsl1(emulator, instruction),
        ThumbInstruction::Lsl2 => lsl2(emulator, instruction),
        ThumbInstruction::Lsr1 => lsr1(emulator, instruction),
        ThumbInstruction::Lsr2 => lsr2(emulator, instruction),
        ThumbInstruction::Mov1 => mov1(emulator, instruction),
        ThumbInstruction::Mov2 => mov2(emulator, instruction),
        ThumbInstruction::Mov3 => mov3(emulator, instruction),
        ThumbInstruction::Mul => crate::thumb::mul(emulator, instruction),
        ThumbInstruction::Mvn => mvn(emulator, instruction),
        ThumbInstruction::Neg => neg(emulator, instruction),
        ThumbInstruction::Orr => or(emulator, instruction),
        ThumbInstruction::Pop => pop(emulator, instruction),
        ThumbInstruction::Push => push(emulator, instruction),
        ThumbInstruction::Ror => ror(emulator, instruction),
        ThumbInstruction::Sbc => sbc(emulator, instruction),
        ThumbInstruction::Stmia => stmia(emulator, instruction),
        ThumbInstruction::Str1 => str1(emulator, instruction),
        ThumbInstruction::Str2 => str2(emulator, instruction),
        ThumbInstruction::Str3 => str3(emulator, instruction),
        ThumbInstruction::Strb1 => strb1(emulator, instruction),
        ThumbInstruction::Strb2 => strb2(emulator, instruction),
        ThumbInstruction::Strh1 => strh1(emulator, instruction),
        ThumbInstruction::Strh2 => strh2(emulator, instruction),
        ThumbInstruction::Sub1 => sub1(emulator, instruction),
        ThumbInstruction::Sub2 => sub2(emulator, instruction),
        ThumbInstruction::Sub3 => sub3(emulator, instruction),
        ThumbInstruction::Sub4 => sub4(emulator, instruction),
        ThumbInstruction::Swi => swi(emulator, instruction),
        ThumbInstruction::Tst => tst(emulator, instruction),
        ThumbInstruction::Undefined => undefined(emulator, instruction),
    }
}

/// Decodes and runs a Thumb instruction; returns the cycles used (at least
/// one) or why it was not carried out.
pub fn process_instruction(emulator: &mut Emulator, instruction: u16) -> (r: Result<u32, ExecError>)
    requires
        old(emulator).wf(),
    ensures
        final(emulator).wf(),
        step_matches(r, final(emulator)@, thumb_execute(old(emulator)@, thumb_decode(instruction), instruction)),
{
    let op = decode_instruction(instruction);
    execute(emulator, op, instruction)
}

} // verus!
