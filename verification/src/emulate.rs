//! The fetch-decode-execute step: reads the byte at the program counter,
//! decodes it, dispatches to the matching executor, records the decoded
//! instruction in the history, and accumulates the returned cycle cost
//! into the CPU's running counters.

use crate::cpu::{add_w128, add_w64, CPUInterface, ConditionCodes, ErrorKind, CPU};
use crate::disassembler;
use crate::disassembler::spec_decode;
use crate::instructions;
use crate::instructions::{
    aci_rel, adc_rel, add_rel, adi_rel, ani_rel, call_if_rel, call_rel, cmp_rel, cpi_rel,
    dad_rel, dcr_rel, dcx_rel, inr_rel, inx_rel, jmp_if_rel, lda_rel, ldax_rel, lhld_rel,
    log_rel, logi_rel, lxi_rel, mov_rel, mvi_rel, pchl_rel, pop_rel, push_rel, ral_rel,
    adv_cpu, rar_rel, ret_if_rel, rlc_rel, rrc_rel, sbb_rel, sbi_rel, shld_rel, simple_rel,
    sphl_rel, sta_rel, stax_rel, sub_rel, sui_rel, xchg_rel, xthl_rel, BitOp, Cond,
};
use crate::machine::MachineInterface;
use crate::ops::{spec_from_u8, Instruction, OpCode, Register};
use vstd::prelude::*;

verus! {

/// What one dispatched instruction does to the machine, keyed by its
/// opcode: each arm is the relation of the matching executor. For the
/// I/O opcodes the device interface decides the outcome, so only the
/// cycle cost of a successful step is pinned.
pub open spec fn step_rel(
    op: OpCode,
    pre: CPU,
    m: Seq<u8>,
    post: CPU,
    m2: Seq<u8>,
    r: Result<u8, ErrorKind>,
) -> bool {
    match op {
        OpCode::NOP_0 => simple_rel(pre, m, post, m2, r, adv_cpu(pre)),
        OpCode::NOP_1 => simple_rel(pre, m, post, m2, r, adv_cpu(pre)),
        OpCode::NOP_2 => simple_rel(pre, m, post, m2, r, adv_cpu(pre)),
        OpCode::NOP_3 => simple_rel(pre, m, post, m2, r, adv_cpu(pre)),
        OpCode::NOP_4 => simple_rel(pre, m, post, m2, r, adv_cpu(pre)),
        OpCode::NOP_5 => simple_rel(pre, m, post, m2, r, adv_cpu(pre)),
        OpCode::NOP_6 => simple_rel(pre, m, post, m2, r, adv_cpu(pre)),
        OpCode::NOP_7 => simple_rel(pre, m, post, m2, r, adv_cpu(pre)),
        OpCode::NOP_8 => simple_rel(pre, m, post, m2, r, adv_cpu(pre)),
        OpCode::NOP_9 => simple_rel(pre, m, post, m2, r, adv_cpu(pre)),
        OpCode::NOP_10 => simple_rel(pre, m, post, m2, r, adv_cpu(pre)),
        OpCode::RIM => simple_rel(pre, m, post, m2, r, adv_cpu(pre)),
        OpCode::CMA => simple_rel(pre, m, post, m2, r, CPU { a: !pre.a, ..adv_cpu(pre) }),
        OpCode::STC => simple_rel(pre, m, post, m2, r, CPU { cc: ConditionCodes { cy: true, ..pre.cc }, ..adv_cpu(pre) }),
        OpCode::CMC => simple_rel(pre, m, post, m2, r, CPU { cc: ConditionCodes { cy: !pre.cc.cy, ..pre.cc }, ..adv_cpu(pre) }),
        OpCode::EI => simple_rel(pre, m, post, m2, r, CPU { int_enable: 1, ..adv_cpu(pre) }),
        OpCode::DI => simple_rel(pre, m, post, m2, r, CPU { int_enable: 0, ..adv_cpu(pre) }),
        OpCode::RLC => rlc_rel(pre, m, post, m2, r),
        OpCode::RAL => ral_rel(pre, m, post, m2, r),
        OpCode::RRC => rrc_rel(pre, m, post, m2, r),
        OpCode::RAR => rar_rel(pre, m, post, m2, r),
        OpCode::ADD_B => add_rel(Register::B, pre, m, post, m2, r),
        OpCode::ADD_C => add_rel(Register::C, pre, m, post, m2, r),
        OpCode::ADD_D => add_rel(Register::D, pre, m, post, m2, r),
        OpCode::ADD_E => add_rel(Register::E, pre, m, post, m2, r),
        OpCode::ADD_H => add_rel(Register::H, pre, m, post, m2, r),
        OpCode::ADD_L => add_rel(Register::L, pre, m, post, m2, r),
        OpCode::ADD_M => add_rel(Register::M, pre, m, post, m2, r),
        OpCode::ADD_A => add_rel(Register::A, pre, m, post, m2, r),
        OpCode::ADC_B => adc_rel(Register::B, pre, m, post, m2, r),
        OpCode::ADC_C => adc_rel(Register::C, pre, m, post, m2, r),
        OpCode::ADC_D => adc_rel(Register::D, pre, m, post, m2, r),
        OpCode::ADC_E => adc_rel(Register::E, pre, m, post, m2, r),
        OpCode::ADC_H => adc_rel(Register::H, pre, m, post, m2, r),
        OpCode::ADC_L => adc_rel(Register::L, pre, m, post, m2, r),
        OpCode::ADC_M => adc_rel(Register::M, pre, m, post, m2, r),
        OpCode::ADC_A => adc_rel(Register::A, pre, m, post, m2, r),
        OpCode::SUB_B => sub_rel(Register::B, pre, m, post, m2, r),
        OpCode::SUB_C => sub_rel(Register::C, pre, m, post, m2, r),
        OpCode::SUB_D => sub_rel(Register::D, pre, m, post, m2, r),
        OpCode::SUB_E => sub_rel(Register::E, pre, m, post, m2, r),
        OpCode::SUB_H => sub_rel(Register::H, pre, m, post, m2, r),
        OpCode::SUB_L => sub_rel(Register::L, pre, m, post, m2, r),
        OpCode::SUB_M => sub_rel(Register::M, pre, m, post, m2, r),
        OpCode::SUB_A => sub_rel(Register::A, pre, m, post, m2, r),
        OpCode::SBB_B => sbb_rel(Register::B, pre, m, post, m2, r),
        OpCode::SBB_C => sbb_rel(Register::C, pre, m, post, m2, r),
        OpCode::SBB_D => sbb_rel(Register::D, pre, m, post, m2, r),
        OpCode::SBB_E => sbb_rel(Register::E, pre, m, post, m2, r),
        OpCode::SBB_H => sbb_rel(Register::H, pre, m, post, m2, r),
        OpCode::SBB_L => sbb_rel(Register::L, pre, m, post, m2, r),
        OpCode::SBB_M => sbb_rel(Register::M, pre, m, post, m2, r),
        OpCode::SBB_A => sbb_rel(Register::A, pre, m, post, m2, r),
        OpCode::CMP_B => cmp_rel(Register::B, pre, m, post, m2, r),
        OpCode::CMP_C => cmp_rel(Register::C, pre, m, post, m2, r),
        OpCode::CMP_D => cmp_rel(Register::D, pre, m, post, m2, r),
        OpCode::CMP_E => cmp_rel(Register::E, pre, m, post, m2, r),
        OpCode::CMP_H => cmp_rel(Register::H, pre, m, post, m2, r),
        OpCode::CMP_L => cmp_rel(Register::L, pre, m, post, m2, r),
        OpCode::CMP_M => cmp_rel(Register::M, pre, m, post, m2, r),
        OpCode::CMP_A => cmp_rel(Register::A, pre, m, post, m2, r),
        OpCode::ANA_B => log_rel(Register::B, BitOp::And, 4, pre, m, post, m2, r),
        OpCode::ANA_C => log_rel(Register::C, BitOp::And, 4, pre, m, post, m2, r),
        OpCode::ANA_D => log_rel(Register::D, BitOp::And, 4, pre, m, post, m2, r),
        OpCode::ANA_E => log_rel(Register::E, BitOp::And, 4, pre, m, post, m2, r),
        OpCode::ANA_H => log_rel(Register::H, BitOp::And, 4, pre, m, post, m2, r),
        OpCode::ANA_L => log_rel(Register::L, BitOp::And, 4, pre, m, post, m2, r),
        OpCode::ANA_M => log_rel(Register::M, BitOp::And, 7, pre, m, post, m2, r),
        OpCode::ANA_A => log_rel(Register::A, BitOp::And, 4, pre, m, post, m2, r),
        OpCode::XRA_B => log_rel(Register::B, BitOp::Xor, 4, pre, m, post, m2, r),
        OpCode::XRA_C => log_rel(Register::C, BitOp::Xor, 4, pre, m, post, m2, r),
        OpCode::XRA_D => log_rel(Register::D, BitOp::Xor, 4, pre, m, post, m2, r),
        OpCode::XRA_E => log_rel(Register::E, BitOp::Xor, 4, pre, m, post, m2, r),
        OpCode::XRA_H => log_rel(Register::H, BitOp::Xor, 4, pre, m, post, m2, r),
        OpCode::XRA_L => log_rel(Register::L, BitOp::Xor, 4, pre, m, post, m2, r),
        OpCode::XRA_M => log_rel(Register::M, BitOp::Xor, 7, pre, m, post, m2, r),
        OpCode::XRA_A => log_rel(Register::A, BitOp::Xor, 4, pre, m, post, m2, r),
        OpCode::ORA_B => log_rel(Register::B, BitOp::Or, 4, pre, m, post, m2, r),
        OpCode::ORA_C => log_rel(Register::C, BitOp::Or, 4, pre, m, post, m2, r),
        OpCode::ORA_D => log_rel(Register::D, BitOp::Or, 4, pre, m, post, m2, r),
        OpCode::ORA_E => log_rel(Register::E, BitOp::Or, 4, pre, m, post, m2, r),
        OpCode::ORA_H => log_rel(Register::H, BitOp::Or, 4, pre, m, post, m2, r),
        OpCode::ORA_L => log_rel(Register::L, BitOp::Or, 4, pre, m, post, m2, r),
        OpCode::ORA_M => log_rel(Register::M, BitOp::Or, 7, pre, m, post, m2, r),
        OpCode::ORA_A => log_rel(Register::A, BitOp::Or, 4, pre, m, post, m2, r),
        OpCode::MOV_B_B => mov_rel(Register::B, Register::B, pre, m, post, m2, r),
        OpCode::MOV_B_C => mov_rel(Register::B, Register::C, pre, m, post, m2, r),
        OpCode::MOV_B_D => mov_rel(Register::B, Register::D, pre, m, post, m2, r),
        OpCode::MOV_B_E => mov_rel(Register::B, Register::E, pre, m, post, m2, r),
        OpCode::MOV_B_H => mov_rel(Register::B, Register::H, pre, m, post, m2, r),
        OpCode::MOV_B_L => mov_rel(Register::B, Register::L, pre, m, post, m2, r),
        OpCode::MOV_B_M => mov_rel(Register::B, Register::M, pre, m, post, m2, r),
        OpCode::MOV_B_A => mov_rel(Register::B, Register::A, pre, m, post, m2, r),
        OpCode::MOV_C_B => mov_rel(Register::C, Register::B, pre, m, post, m2, r),
        OpCode::MOV_C_C => mov_rel(Register::C, Register::C, pre, m, post, m2, r),
        OpCode::MOV_C_D => mov_rel(Register::C, Register::D, pre, m, post, m2, r),
        OpCode::MOV_C_E => mov_rel(Register::C, Register::E, pre, m, post, m2, r),
        OpCode::MOV_C_H => mov_rel(Register::C, Register::H, pre, m, post, m2, r),
        OpCode::MOV_C_L => mov_rel(Register::C, Register::L, pre, m, post, m2, r),
        OpCode::MOV_C_M => mov_rel(Register::C, Register::M, pre, m, post, m2, r),
        OpCode::MOV_C_A => mov_rel(Register::C, Register::A, pre, m, post, m2, r),
        OpCode::MOV_D_B => mov_rel(Register::D, Register::B, pre, m, post, m2, r),
        OpCode::MOV_D_C => mov_rel(Register::D, Register::C, pre, m, post, m2, r),
        OpCode::MOV_D_D => mov_rel(Register::D, Register::D, pre, m, post, m2, r),
        OpCode::MOV_D_E => mov_rel(Register::D, Register::E, pre, m, post, m2, r),
        OpCode::MOV_D_H => mov_rel(Register::D, Register::H, pre, m, post, m2, r),
        OpCode::MOV_D_L => mov_rel(Register::D, Register::L, pre, m, post, m2, r),
        OpCode::MOV_D_M => mov_rel(Register::D, Register::M, pre, m, post, m2, r),
        OpCode::MOV_D_A => mov_rel(Register::D, Register::A, pre, m, post, m2, r),
        OpCode::MOV_E_B => mov_rel(Register::E, Register::B, pre, m, post, m2, r),
        OpCode::MOV_E_C => mov_rel(Register::E, Register::C, pre, m, post, m2, r),
        OpCode::MOV_E_D => mov_rel(Register::E, Register::D, pre, m, post, m2, r),
        OpCode::MOV_E_E => mov_rel(Register::E, Register::E, pre, m, post, m2, r),
        OpCode::MOV_E_H => mov_rel(Register::E, Register::H, pre, m, post, m2, r),
        OpCode::MOV_E_L => mov_rel(Register::E, Register::L, pre, m, post, m2, r),
        OpCode::MOV_E_M => mov_rel(Register::E, Register::M, pre, m, post, m2, r),
        OpCode::MOV_E_A => mov_rel(Register::E, Register::A, pre, m, post, m2, r),
        OpCode::MOV_H_B => mov_rel(Register::H, Register::B, pre, m, post, m2, r),
        OpCode::MOV_H_C => mov_rel(Register::H, Register::C, pre, m, post, m2, r),
        OpCode::MOV_H_D => mov_rel(Register::H, Register::D, pre, m, post, m2, r),
        OpCode::MOV_H_E => mov_rel(Register::H, Register::E, pre, m, post, m2, r),
        OpCode::MOV_H_H => mov_rel(Register::H, Register::H, pre, m, post, m2, r),
        OpCode::MOV_H_L => mov_rel(Register::H, Register::L, pre, m, post, m2, r),
        OpCode::MOV_H_M => mov_rel(Register::H, Register::M, pre, m, post, m2, r),
        OpCode::MOV_H_A => mov_rel(Register::H, Register::A, pre, m, post, m2, r),
        OpCode::MOV_L_B => mov_rel(Register::L, Register::B, pre, m, post, m2, r),
        OpCode::MOV_L_C => mov_rel(Register::L, Register::C, pre, m, post, m2, r),
        OpCode::MOV_L_D => mov_rel(Register::L, Register::D, pre, m, post, m2, r),
        OpCode::MOV_L_E => mov_rel(Register::L, Register::E, pre, m, post, m2, r),
        OpCode::MOV_L_H => mov_rel(Register::L, Register::H, pre, m, post, m2, r),
        OpCode::MOV_L_L => mov_rel(Register::L, Register::L, pre, m, post, m2, r),
        OpCode::MOV_L_M => mov_rel(Register::L, Register::M, pre, m, post, m2, r),
        OpCode::MOV_L_A => mov_rel(Register::L, Register::A, pre, m, post, m2, r),
        OpCode::MOV_M_B => mov_rel(Register::M, Register::B, pre, m, post, m2, r),
        OpCode::MOV_M_C => mov_rel(Register::M, Register::C, pre, m, post, m2, r),
        OpCode::MOV_M_D => mov_rel(Register::M, Register::D, pre, m, post, m2, r),
        OpCode::MOV_M_E => mov_rel(Register::M, Register::E, pre, m, post, m2, r),
        OpCode::MOV_M_H => mov_rel(Register::M, Register::H, pre, m, post, m2, r),
        OpCode::MOV_M_L => mov_rel(Register::M, Register::L, pre, m, post, m2, r),
        OpCode::MOV_M_A => mov_rel(Register::M, Register::A, pre, m, post, m2, r),
        OpCode::MOV_A_B => mov_rel(Register::A, Register::B, pre, m, post, m2, r),
        OpCode::MOV_A_C => mov_rel(Register::A, Register::C, pre, m, post, m2, r),
        OpCode::MOV_A_D => mov_rel(Register::A, Register::D, pre, m, post, m2, r),
        OpCode::MOV_A_E => mov_rel(Register::A, Register::E, pre, m, post, m2, r),
        OpCode::MOV_A_H => mov_rel(Register::A, Register::H, pre, m, post, m2, r),
        OpCode::MOV_A_L => mov_rel(Register::A, Register::L, pre, m, post, m2, r),
        OpCode::MOV_A_M => mov_rel(Register::A, Register::M, pre, m, post, m2, r),
        OpCode::MOV_A_A => mov_rel(Register::A, Register::A, pre, m, post, m2, r),
        OpCode::INR_B => inr_rel(Register::B, pre, m, post, m2, r),
        OpCode::DCR_B => dcr_rel(Register::B, pre, m, post, m2, r),
        OpCode::INR_C => inr_rel(Register::C, pre, m, post, m2, r),
        OpCode::DCR_C => dcr_rel(Register::C, pre, m, post, m2, r),
        OpCode::INR_D => inr_rel(Register::D, pre, m, post, m2, r),
        OpCode::DCR_D => dcr_rel(Register::D, pre, m, post, m2, r),
        OpCode::INR_E => inr_rel(Register::E, pre, m, post, m2, r),
        OpCode::DCR_E => dcr_rel(Register::E, pre, m, post, m2, r),
        OpCode::INR_H => inr_rel(Register::H, pre, m, post, m2, r),
        OpCode::DCR_H => dcr_rel(Register::H, pre, m, post, m2, r),
        OpCode::INR_L => inr_rel(Register::L, pre, m, post, m2, r),
        OpCode::DCR_L => dcr_rel(Register::L, pre, m, post, m2, r),
        OpCode::INR_M => inr_rel(Register::M, pre, m, post, m2, r),
        OpCode::DCR_M => dcr_rel(Register::M, pre, m, post, m2, r),
        OpCode::INR_A => inr_rel(Register::A, pre, m, post, m2, r),
        OpCode::DCR_A => dcr_rel(Register::A, pre, m, post, m2, r),
        OpCode::INX_B => inx_rel(Register::B, pre, m, post, m2, r),
        OpCode::INX_D => inx_rel(Register::D, pre, m, post, m2, r),
        OpCode::INX_H => inx_rel(Register::H, pre, m, post, m2, r),
        OpCode::INX_SP => inx_rel(Register::SP, pre, m, post, m2, r),
        OpCode::DCX_B => dcx_rel(Register::B, pre, m, post, m2, r),
        OpCode::DCX_D => dcx_rel(Register::D, pre, m, post, m2, r),
        OpCode::DCX_H => dcx_rel(Register::H, pre, m, post, m2, r),
        OpCode::DCX_SP => dcx_rel(Register::SP, pre, m, post, m2, r),
        OpCode::DAD_B => dad_rel(Register::B, pre, m, post, m2, r),
        OpCode::DAD_D => dad_rel(Register::D, pre, m, post, m2, r),
        OpCode::DAD_H => dad_rel(Register::H, pre, m, post, m2, r),
        OpCode::DAD_SP => dad_rel(Register::SP, pre, m, post, m2, r),
        OpCode::LXI_B => lxi_rel(Register::B, pre, m, post, m2, r),
        OpCode::LXI_D => lxi_rel(Register::D, pre, m, post, m2, r),
        OpCode::LXI_H => lxi_rel(Register::H, pre, m, post, m2, r),
        OpCode::LXI_SP => lxi_rel(Register::SP, pre, m, post, m2, r),
        OpCode::PUSH_B => push_rel(Register::B, pre, m, post, m2, r),
        OpCode::PUSH_D => push_rel(Register::D, pre, m, post, m2, r),
        OpCode::PUSH_H => push_rel(Register::H, pre, m, post, m2, r),
        OpCode::PUSH_PSW => push_rel(Register::PSW, pre, m, post, m2, r),
        OpCode::POP_B => pop_rel(Register::B, pre, m, post, m2, r),
        OpCode::POP_D => pop_rel(Register::D, pre, m, post, m2, r),
        OpCode::POP_H => pop_rel(Register::H, pre, m, post, m2, r),
        OpCode::POP_PSW => pop_rel(Register::PSW, pre, m, post, m2, r),
        OpCode::LDAX_B => ldax_rel(Register::B, pre, m, post, m2, r),
        OpCode::LDAX_D => ldax_rel(Register::D, pre, m, post, m2, r),
        OpCode::STAX_B => stax_rel(Register::B, pre, m, post, m2, r),
        OpCode::STAX_D => stax_rel(Register::D, pre, m, post, m2, r),
        OpCode::MVI_B => mvi_rel(Register::B, pre, m, post, m2, r),
        OpCode::MVI_C => mvi_rel(Register::C, pre, m, post, m2, r),
        OpCode::MVI_D => mvi_rel(Register::D, pre, m, post, m2, r),
        OpCode::MVI_E => mvi_rel(Register::E, pre, m, post, m2, r),
        OpCode::MVI_H => mvi_rel(Register::H, pre, m, post, m2, r),
        OpCode::MVI_L => mvi_rel(Register::L, pre, m, post, m2, r),
        OpCode::MVI_M => mvi_rel(Register::M, pre, m, post, m2, r),
        OpCode::MVI_A => mvi_rel(Register::A, pre, m, post, m2, r),
        OpCode::LDA => lda_rel(pre, m, post, m2, r),
        OpCode::STA => sta_rel(pre, m, post, m2, r),
        OpCode::LHLD => lhld_rel(pre, m, post, m2, r),
        OpCode::SHLD => shld_rel(pre, m, post, m2, r),
        OpCode::XCHG => xchg_rel(pre, m, post, m2, r),
        OpCode::XTHL => xthl_rel(pre, m, post, m2, r),
        OpCode::SPHL => sphl_rel(pre, m, post, m2, r),
        OpCode::PCHL => pchl_rel(pre, m, post, m2, r),
        OpCode::ADI => adi_rel(pre, m, post, m2, r),
        OpCode::ACI => aci_rel(pre, m, post, m2, r),
        OpCode::SUI => sui_rel(pre, m, post, m2, r),
        OpCode::SBI => sbi_rel(pre, m, post, m2, r),
        OpCode::ANI => ani_rel(pre, m, post, m2, r),
        OpCode::CPI => cpi_rel(pre, m, post, m2, r),
        OpCode::ORI => logi_rel(BitOp::Or, 7, pre, m, post, m2, r),
        OpCode::XRI => logi_rel(BitOp::Xor, 7, pre, m, post, m2, r),
        OpCode::JMP => jmp_if_rel(Cond::Always, pre, m, post, m2, r),
        OpCode::JZ => jmp_if_rel(Cond::Zero, pre, m, post, m2, r),
        OpCode::JNZ => jmp_if_rel(Cond::NotZero, pre, m, post, m2, r),
        OpCode::JC => jmp_if_rel(Cond::Carry, pre, m, post, m2, r),
        OpCode::JNC => jmp_if_rel(Cond::NotCarry, pre, m, post, m2, r),
        OpCode::JPE => jmp_if_rel(Cond::ParityEven, pre, m, post, m2, r),
        OpCode::JPO => jmp_if_rel(Cond::ParityOdd, pre, m, post, m2, r),
        OpCode::JM => jmp_if_rel(Cond::Minus, pre, m, post, m2, r),
        OpCode::JP => jmp_if_rel(Cond::Plus, pre, m, post, m2, r),
        OpCode::CZ => call_if_rel(Cond::Zero, pre, m, post, m2, r),
        OpCode::CNZ => call_if_rel(Cond::NotZero, pre, m, post, m2, r),
        OpCode::CC => call_if_rel(Cond::Carry, pre, m, post, m2, r),
        OpCode::CNC => call_if_rel(Cond::NotCarry, pre, m, post, m2, r),
        OpCode::CPE => call_if_rel(Cond::ParityEven, pre, m, post, m2, r),
        OpCode::CPO => call_if_rel(Cond::ParityOdd, pre, m, post, m2, r),
        OpCode::CM => call_if_rel(Cond::Minus, pre, m, post, m2, r),
        OpCode::CP => call_if_rel(Cond::Plus, pre, m, post, m2, r),
        OpCode::CALL => call_rel(pre, m, post, m2, r),
        OpCode::RET => ret_if_rel(Cond::Always, pre, m, post, m2, r),
        OpCode::RZ => ret_if_rel(Cond::Zero, pre, m, post, m2, r),
        OpCode::RNZ => ret_if_rel(Cond::NotZero, pre, m, post, m2, r),
        OpCode::RC => ret_if_rel(Cond::Carry, pre, m, post, m2, r),
        OpCode::RNC => ret_if_rel(Cond::NotCarry, pre, m, post, m2, r),
        OpCode::RPE => ret_if_rel(Cond::ParityEven, pre, m, post, m2, r),
        OpCode::RPO => ret_if_rel(Cond::ParityOdd, pre, m, post, m2, r),
        OpCode::RM => ret_if_rel(Cond::Minus, pre, m, post, m2, r),
        OpCode::RP => ret_if_rel(Cond::Plus, pre, m, post, m2, r),
        OpCode::IN => io_rel(pre, m, post, m2, r),
        OpCode::OUT => io_rel(pre, m, post, m2, r),
        _ => post == pre && m2 == m && r == Err::<u8, ErrorKind>(ErrorKind::UnimplementedOp(op)),

    }
}

/// What the I/O opcodes do before and after the device call: the advance
/// past the opcode and the port-byte read fail exactly as any other
/// operand fetch, with the state they leave; once the device interface is
/// reached it owns the machine, so of the call itself only the 10-cycle
/// cost of a successful step and the device-error wrapping are pinned.
pub open spec fn io_rel(pre: CPU, m: Seq<u8>, post: CPU, m2: Seq<u8>, r: Result<
    u8,
    ErrorKind,
>) -> bool {
    if !instructions::adv_ok(pre, m) {
        post == pre && m2 == m && r == Err::<u8, ErrorKind>(instructions::adv_err(pre, m))
    } else {
        let s = adv_cpu(pre);
        let (v, s1) = instructions::r1(s, m);
        match v {
            Err(e) => post == s1 && m2 == m && r == Err::<u8, ErrorKind>(e),
            Ok(port) => (r is Ok ==> r == Ok::<u8, ErrorKind>(10)) && (r is Err
                ==> r->Err_0 is MachineInterfaceError),
        }
    }
}

/// How recording the decoded instruction relates the state `pre` at the
/// start of a step to the state `ph` the executor then runs from: the
/// instruction lands in the history ring's next slot and everything else
/// is unchanged.
pub open spec fn hist_pushed(pre: CPU, ph: CPU, instr: Instruction) -> bool {
    ph == (CPU { history: ph.history, ..pre }) && ph.history@ == pre.history@.update(
        pre.history.cursor() as int,
        Some(instr),
    ) && ph.history.cursor() == (pre.history.cursor() + 1) % 256
}

/// One successful interpreter step from `(c, m)` to `(c2, m2)` costing
/// `cycles`: the byte at the program counter decodes, the decoded
/// instruction is recorded in the history, the matching executor's
/// relation carries the recorded state to an intermediate one, and the
/// iteration and cycle counters then rise by one and by the cost, with
/// wrap.
#[verifier::opaque]
pub open spec fn step_ok(c: CPU, m: Seq<u8>, c2: CPU, m2: Seq<u8>, cycles: u8) -> bool {
    match spec_decode(m, c.pc) {
        Err(_) => false,
        Ok((instr, len)) => {
            let op = spec_from_u8(m[c.pc as int])->0;
            exists|ph: CPU, mid: CPU, mmid: Seq<u8>|
                {
                    &&& hist_pushed(c, ph, instr)
                    &&& #[trigger] step_rel(op, ph, m, mid, mmid, Ok::<u8, ErrorKind>(cycles))
                    &&& m2 == mmid
                    &&& c2 == (CPU {
                        iters: add_w64(mid.iters, 1),
                        cycles: add_w128(mid.cycles, cycles as u128),
                        ..mid
                    })
                }
        },
    }
}

/// One failing interpreter step from `(c, m)`: a fetch or decode failure
/// surfaces that error with the machine untouched; a dispatch failure
/// surfaces the executor's error with the machine as its relation left
/// it, the decoded instruction already recorded in the history and no
/// counter bookkeeping done.
#[verifier::opaque]
pub open spec fn step_err(c: CPU, m: Seq<u8>, c2: CPU, m2: Seq<u8>, e: ErrorKind) -> bool {
    match spec_decode(m, c.pc) {
        Err(e0) => e == e0 && c2 == c && m2 == m,
        Ok((instr, len)) => {
            let op = spec_from_u8(m[c.pc as int])->0;
            exists|ph: CPU|
                #[trigger] hist_pushed(c, ph, instr) && step_rel(
                    op,
                    ph,
                    m,
                    c2,
                    m2,
                    Err::<u8, ErrorKind>(e),
                )
        },
    }
}

/// `(c2, m2)` is reached from `(c, m)` by a chain of `n` successful
/// interpreter steps whose cycle costs sum to `cycles`.
pub open spec fn reaches(c: CPU, m: Seq<u8>, c2: CPU, m2: Seq<u8>, n: nat, cycles: int) -> bool
    decreases n,
{
    if n == 0 {
        c2 == c && m2 == m && cycles == 0
    } else {
        exists|c1: CPU, m1: Seq<u8>, k: u8|
            #[trigger] step_ok(c, m, c1, m1, k) && reaches(
                c1,
                m1,
                c2,
                m2,
                (n - 1) as nat,
                cycles - k,
            )
    }
}

/// A chain of successful steps extends by one more successful step.
pub proof fn lemma_reaches_step(
    c: CPU,
    m: Seq<u8>,
    c1: CPU,
    m1: Seq<u8>,
    c2: CPU,
    m2: Seq<u8>,
    n: nat,
    cycles: int,
    k: u8,
)
    requires
        reaches(c, m, c1, m1, n, cycles),
        step_ok(c1, m1, c2, m2, k),
    ensures
        reaches(c, m, c2, m2, (n + 1) as nat, cycles + k),
    decreases n,
{
    if n == 0 {
        assert(step_ok(c, m, c2, m2, k));
        assert(reaches(c2, m2, c2, m2, 0, 0));
    } else {
        let (ca, ma, ka) = choose|ca: CPU, ma: Seq<u8>, ka: u8|
            #[trigger] step_ok(c, m, ca, ma, ka) && reaches(
                ca,
                ma,
                c1,
                m1,
                (n - 1) as nat,
                cycles - ka,
            );
        lemma_reaches_step(ca, ma, c1, m1, c2, m2, (n - 1) as nat, cycles - ka, k);
        assert(reaches(ca, ma, c2, m2, n, cycles + k - ka));
    }
}

/// Handles an `IN` opcode: advances past the opcode, reads the port byte,
/// and delegates to the device interface, which may change any machine
/// state. A successful step costs 10 cycles.
fn io_in<I: MachineInterface>(cpu: &mut CPUInterface, interface: &mut I) -> (r: Result<
    u8,
    ErrorKind,
>)
    ensures
        io_rel(old(cpu).cpu, old(cpu).memory@, final(cpu).cpu, final(cpu).memory@, r),
        r is Ok ==> r == Ok::<u8, ErrorKind>(10),
{
    cpu.advance()?;
    let port = cpu.read_1()?;
    match interface.handle_in(cpu, port) {
        Ok(()) => Ok(10),
        Err(e) => Err(ErrorKind::MachineInterfaceError(Box::new(e))),
    }
}

/// Handles an `OUT` opcode: advances past the opcode, reads the port
/// byte, and delegates to the device interface. A successful step costs
/// 10 cycles.
fn io_out<I: MachineInterface>(cpu: &mut CPUInterface, interface: &mut I) -> (r: Result<
    u8,
    ErrorKind,
>)
    ensures
        io_rel(old(cpu).cpu, old(cpu).memory@, final(cpu).cpu, final(cpu).memory@, r),
        r is Ok ==> r == Ok::<u8, ErrorKind>(10),
{
    cpu.advance()?;
    let port = cpu.read_1()?;
    match interface.handle_out(cpu, port) {
        Ok(()) => Ok(10),
        Err(e) => Err(ErrorKind::MachineInterfaceError(Box::new(e))),
    }
}

/// True of the no-op aliases, the rotate instructions and the one-byte flag and accumulator instructions.
pub open spec fn is_misc_op(op: OpCode) -> bool {
    match op {
        OpCode::NOP_0 | OpCode::NOP_1 | OpCode::NOP_2 | OpCode::NOP_3 | OpCode::NOP_4 | OpCode::NOP_5 | OpCode::NOP_6 | OpCode::NOP_7 | OpCode::NOP_8 | OpCode::NOP_9 | OpCode::NOP_10 | OpCode::RIM | OpCode::CMA | OpCode::STC | OpCode::CMC | OpCode::EI | OpCode::DI | OpCode::RLC | OpCode::RAL | OpCode::RRC | OpCode::RAR => true,
        _ => false,
    }
}

/// True of the register-operand add and subtract families.
pub open spec fn is_alu_op(op: OpCode) -> bool {
    match op {
        OpCode::ADD_B | OpCode::ADD_C | OpCode::ADD_D | OpCode::ADD_E | OpCode::ADD_H | OpCode::ADD_L | OpCode::ADD_M | OpCode::ADD_A | OpCode::ADC_B | OpCode::ADC_C | OpCode::ADC_D | OpCode::ADC_E | OpCode::ADC_H | OpCode::ADC_L | OpCode::ADC_M | OpCode::ADC_A | OpCode::SUB_B | OpCode::SUB_C | OpCode::SUB_D | OpCode::SUB_E | OpCode::SUB_H | OpCode::SUB_L | OpCode::SUB_M | OpCode::SUB_A | OpCode::SBB_B | OpCode::SBB_C | OpCode::SBB_D | OpCode::SBB_E | OpCode::SBB_H | OpCode::SBB_L | OpCode::SBB_M | OpCode::SBB_A => true,
        _ => false,
    }
}

/// True of the compare and bitwise-logical register-operand families.
pub open spec fn is_cmplog_op(op: OpCode) -> bool {
    match op {
        OpCode::CMP_B | OpCode::CMP_C | OpCode::CMP_D | OpCode::CMP_E | OpCode::CMP_H | OpCode::CMP_L | OpCode::CMP_M | OpCode::CMP_A | OpCode::ANA_B | OpCode::ANA_C | OpCode::ANA_D | OpCode::ANA_E | OpCode::ANA_H | OpCode::ANA_L | OpCode::ANA_M | OpCode::ANA_A | OpCode::XRA_B | OpCode::XRA_C | OpCode::XRA_D | OpCode::XRA_E | OpCode::XRA_H | OpCode::XRA_L | OpCode::XRA_M | OpCode::XRA_A | OpCode::ORA_B | OpCode::ORA_C | OpCode::ORA_D | OpCode::ORA_E | OpCode::ORA_H | OpCode::ORA_L | OpCode::ORA_M | OpCode::ORA_A => true,
        _ => false,
    }
}

/// True of the moves whose destination is B, C, D or E.
pub open spec fn is_mova_op(op: OpCode) -> bool {
    match op {
        OpCode::MOV_B_B | OpCode::MOV_B_C | OpCode::MOV_B_D | OpCode::MOV_B_E | OpCode::MOV_B_H | OpCode::MOV_B_L | OpCode::MOV_B_M | OpCode::MOV_B_A | OpCode::MOV_C_B | OpCode::MOV_C_C | OpCode::MOV_C_D | OpCode::MOV_C_E | OpCode::MOV_C_H | OpCode::MOV_C_L | OpCode::MOV_C_M | OpCode::MOV_C_A | OpCode::MOV_D_B | OpCode::MOV_D_C | OpCode::MOV_D_D | OpCode::MOV_D_E | OpCode::MOV_D_H | OpCode::MOV_D_L | OpCode::MOV_D_M | OpCode::MOV_D_A | OpCode::MOV_E_B | OpCode::MOV_E_C | OpCode::MOV_E_D | OpCode::MOV_E_E | OpCode::MOV_E_H | OpCode::MOV_E_L | OpCode::MOV_E_M | OpCode::MOV_E_A => true,
        _ => false,
    }
}

/// True of the moves whose destination is H, L, M or A.
pub open spec fn is_movb_op(op: OpCode) -> bool {
    match op {
        OpCode::MOV_H_B | OpCode::MOV_H_C | OpCode::MOV_H_D | OpCode::MOV_H_E | OpCode::MOV_H_H | OpCode::MOV_H_L | OpCode::MOV_H_M | OpCode::MOV_H_A | OpCode::MOV_L_B | OpCode::MOV_L_C | OpCode::MOV_L_D | OpCode::MOV_L_E | OpCode::MOV_L_H | OpCode::MOV_L_L | OpCode::MOV_L_M | OpCode::MOV_L_A | OpCode::MOV_M_B | OpCode::MOV_M_C | OpCode::MOV_M_D | OpCode::MOV_M_E | OpCode::MOV_M_H | OpCode::MOV_M_L | OpCode::MOV_M_A | OpCode::MOV_A_B | OpCode::MOV_A_C | OpCode::MOV_A_D | OpCode::MOV_A_E | OpCode::MOV_A_H | OpCode::MOV_A_L | OpCode::MOV_A_M | OpCode::MOV_A_A => true,
        _ => false,
    }
}

/// True of the increment and decrement families and the 16-bit pair add.
pub open spec fn is_incdec_op(op: OpCode) -> bool {
    match op {
        OpCode::INR_B | OpCode::DCR_B | OpCode::INR_C | OpCode::DCR_C | OpCode::INR_D | OpCode::DCR_D | OpCode::INR_E | OpCode::DCR_E | OpCode::INR_H | OpCode::DCR_H | OpCode::INR_L | OpCode::DCR_L | OpCode::INR_M | OpCode::DCR_M | OpCode::INR_A | OpCode::DCR_A | OpCode::INX_B | OpCode::INX_D | OpCode::INX_H | OpCode::INX_SP | OpCode::DCX_B | OpCode::DCX_D | OpCode::DCX_H | OpCode::DCX_SP | OpCode::DAD_B | OpCode::DAD_D | OpCode::DAD_H | OpCode::DAD_SP => true,
        _ => false,
    }
}

/// True of the loads, stores, stack and pair-transfer instructions.
pub open spec fn is_data_op(op: OpCode) -> bool {
    match op {
        OpCode::LXI_B | OpCode::LXI_D | OpCode::LXI_H | OpCode::LXI_SP | OpCode::PUSH_B | OpCode::PUSH_D | OpCode::PUSH_H | OpCode::PUSH_PSW | OpCode::POP_B | OpCode::POP_D | OpCode::POP_H | OpCode::POP_PSW | OpCode::LDAX_B | OpCode::LDAX_D | OpCode::STAX_B | OpCode::STAX_D | OpCode::MVI_B | OpCode::MVI_C | OpCode::MVI_D | OpCode::MVI_E | OpCode::MVI_H | OpCode::MVI_L | OpCode::MVI_M | OpCode::MVI_A | OpCode::LDA | OpCode::STA | OpCode::LHLD | OpCode::SHLD | OpCode::XCHG | OpCode::XTHL | OpCode::SPHL | OpCode::PCHL => true,
        _ => false,
    }
}

/// True of the immediate-operand arithmetic and logical instructions.
pub open spec fn is_imm_op(op: OpCode) -> bool {
    match op {
        OpCode::ADI | OpCode::ACI | OpCode::SUI | OpCode::SBI | OpCode::ANI | OpCode::CPI | OpCode::ORI | OpCode::XRI => true,
        _ => false,
    }
}

/// True of the jump, call and return families.
pub open spec fn is_branch_op(op: OpCode) -> bool {
    match op {
        OpCode::JMP | OpCode::JZ | OpCode::JNZ | OpCode::JC | OpCode::JNC | OpCode::JPE | OpCode::JPO | OpCode::JM | OpCode::JP | OpCode::CZ | OpCode::CNZ | OpCode::CC | OpCode::CNC | OpCode::CPE | OpCode::CPO | OpCode::CM | OpCode::CP | OpCode::CALL | OpCode::RET | OpCode::RZ | OpCode::RNZ | OpCode::RC | OpCode::RNC | OpCode::RPE | OpCode::RPO | OpCode::RM | OpCode::RP => true,
        _ => false,
    }
}

/// Dispatches the no-op aliases, the rotate instructions and the one-byte flag and accumulator instructions.
#[verifier::spinoff_prover]
#[verifier::rlimit(100)]
fn dispatch_misc(op: OpCode, cpu: &mut CPUInterface) -> (r: Result<u8, ErrorKind>)
    requires
        is_misc_op(op),
    ensures
        step_rel(op, old(cpu).cpu, old(cpu).memory@, final(cpu).cpu, final(cpu).memory@, r),
        r is Ok ==> 4 <= r->Ok_0 <= 18,
{
    match op {
        OpCode::NOP_0 => instructions::nop(cpu),
        OpCode::NOP_1 => instructions::nop(cpu),
        OpCode::NOP_2 => instructions::nop(cpu),
        OpCode::NOP_3 => instructions::nop(cpu),
        OpCode::NOP_4 => instructions::nop(cpu),
        OpCode::NOP_5 => instructions::nop(cpu),
        OpCode::NOP_6 => instructions::nop(cpu),
        OpCode::NOP_7 => instructions::nop(cpu),
        OpCode::NOP_8 => instructions::nop(cpu),
        OpCode::NOP_9 => instructions::nop(cpu),
        OpCode::NOP_10 => instructions::nop(cpu),
        OpCode::RIM => instructions::nop(cpu),
        OpCode::CMA => instructions::cma(cpu),
        OpCode::STC => instructions::stc(cpu),
        OpCode::CMC => instructions::cmc(cpu),
        OpCode::EI => instructions::ei(cpu),
        OpCode::DI => instructions::di(cpu),
        OpCode::RLC => instructions::rlc(cpu),
        OpCode::RAL => instructions::ral(cpu),
        OpCode::RRC => instructions::rrc(cpu),
        OpCode::RAR => instructions::rar(cpu),
        _ => Err(ErrorKind::UnimplementedOp(op)),
    }
}

/// Dispatches the register-operand add and subtract families.
#[verifier::spinoff_prover]
#[verifier::rlimit(100)]
fn dispatch_alu(op: OpCode, cpu: &mut CPUInterface) -> (r: Result<u8, ErrorKind>)
    requires
        is_alu_op(op),
    ensures
        step_rel(op, old(cpu).cpu, old(cpu).memory@, final(cpu).cpu, final(cpu).memory@, r),
        r is Ok ==> 4 <= r->Ok_0 <= 18,
{
    match op {
        OpCode::ADD_B => instructions::add(Register::B, cpu),
        OpCode::ADD_C => instructions::add(Register::C, cpu),
        OpCode::ADD_D => instructions::add(Register::D, cpu),
        OpCode::ADD_E => instructions::add(Register::E, cpu),
        OpCode::ADD_H => instructions::add(Register::H, cpu),
        OpCode::ADD_L => instructions::add(Register::L, cpu),
        OpCode::ADD_M => instructions::add(Register::M, cpu),
        OpCode::ADD_A => instructions::add(Register::A, cpu),
        OpCode::ADC_B => instructions::adc(Register::B, cpu),
        OpCode::ADC_C => instructions::adc(Register::C, cpu),
        OpCode::ADC_D => instructions::adc(Register::D, cpu),
        OpCode::ADC_E => instructions::adc(Register::E, cpu),
        OpCode::ADC_H => instructions::adc(Register::H, cpu),
        OpCode::ADC_L => instructions::adc(Register::L, cpu),
        OpCode::ADC_M => instructions::adc(Register::M, cpu),
        OpCode::ADC_A => instructions::adc(Register::A, cpu),
        OpCode::SUB_B => instructions::sub(Register::B, cpu),
        OpCode::SUB_C => instructions::sub(Register::C, cpu),
        OpCode::SUB_D => instructions::sub(Register::D, cpu),
        OpCode::SUB_E => instructions::sub(Register::E, cpu),
        OpCode::SUB_H => instructions::sub(Register::H, cpu),
        OpCode::SUB_L => instructions::sub(Register::L, cpu),
        OpCode::SUB_M => instructions::sub(Register::M, cpu),
        OpCode::SUB_A => instructions::sub(Register::A, cpu),
        OpCode::SBB_B => instructions::sbb(Register::B, cpu),
        OpCode::SBB_C => instructions::sbb(Register::C, cpu),
        OpCode::SBB_D => instructions::sbb(Register::D, cpu),
        OpCode::SBB_E => instructions::sbb(Register::E, cpu),
        OpCode::SBB_H => instructions::sbb(Register::H, cpu),
        OpCode::SBB_L => instructions::sbb(Register::L, cpu),
        OpCode::SBB_M => instructions::sbb(Register::M, cpu),
        OpCode::SBB_A => instructions::sbb(Register::A, cpu),
        _ => Err(ErrorKind::UnimplementedOp(op)),
    }
}

/// Dispatches the compare and bitwise-logical register-operand families.
#[verifier::spinoff_prover]
#[verifier::rlimit(100)]
fn dispatch_cmplog(op: OpCode, cpu: &mut CPUInterface) -> (r: Result<u8, ErrorKind>)
    requires
        is_cmplog_op(op),
    ensures
        step_rel(op, old(cpu).cpu, old(cpu).memory@, final(cpu).cpu, final(cpu).memory@, r),
        r is Ok ==> 4 <= r->Ok_0 <= 18,
{
    match op {
        OpCode::CMP_B => instructions::cmp(Register::B, cpu),
        OpCode::CMP_C => instructions::cmp(Register::C, cpu),
        OpCode::CMP_D => instructions::cmp(Register::D, cpu),
        OpCode::CMP_E => instructions::cmp(Register::E, cpu),
        OpCode::CMP_H => instructions::cmp(Register::H, cpu),
        OpCode::CMP_L => instructions::cmp(Register::L, cpu),
        OpCode::CMP_M => instructions::cmp(Register::M, cpu),
        OpCode::CMP_A => instructions::cmp(Register::A, cpu),
        OpCode::ANA_B => instructions::log(Register::B, cpu, 4, BitOp::And),
        OpCode::ANA_C => instructions::log(Register::C, cpu, 4, BitOp::And),
        OpCode::ANA_D => instructions::log(Register::D, cpu, 4, BitOp::And),
        OpCode::ANA_E => instructions::log(Register::E, cpu, 4, BitOp::And),
        OpCode::ANA_H => instructions::log(Register::H, cpu, 4, BitOp::And),
        OpCode::ANA_L => instructions::log(Register::L, cpu, 4, BitOp::And),
        OpCode::ANA_M => instructions::log(Register::M, cpu, 7, BitOp::And),
        OpCode::ANA_A => instructions::log(Register::A, cpu, 4, BitOp::And),
        OpCode::XRA_B => instructions::log(Register::B, cpu, 4, BitOp::Xor),
        OpCode::XRA_C => instructions::log(Register::C, cpu, 4, BitOp::Xor),
        OpCode::XRA_D => instructions::log(Register::D, cpu, 4, BitOp::Xor),
        OpCode::XRA_E => instructions::log(Register::E, cpu, 4, BitOp::Xor),
        OpCode::XRA_H => instructions::log(Register::H, cpu, 4, BitOp::Xor),
        OpCode::XRA_L => instructions::log(Register::L, cpu, 4, BitOp::Xor),
        OpCode::XRA_M => instructions::log(Register::M, cpu, 7, BitOp::Xor),
        OpCode::XRA_A => instructions::log(Register::A, cpu, 4, BitOp::Xor),
        OpCode::ORA_B => instructions::log(Register::B, cpu, 4, BitOp::Or),
        OpCode::ORA_C => instructions::log(Register::C, cpu, 4, BitOp::Or),
        OpCode::ORA_D => instructions::log(Register::D, cpu, 4, BitOp::Or),
        OpCode::ORA_E => instructions::log(Register::E, cpu, 4, BitOp::Or),
        OpCode::ORA_H => instructions::log(Register::H, cpu, 4, BitOp::Or),
        OpCode::ORA_L => instructions::log(Register::L, cpu, 4, BitOp::Or),
        OpCode::ORA_M => instructions::log(Register::M, cpu, 7, BitOp::Or),
        OpCode::ORA_A => instructions::log(Register::A, cpu, 4, BitOp::Or),
        _ => Err(ErrorKind::UnimplementedOp(op)),
    }
}

/// Dispatches the moves whose destination is B, C, D or E.
#[verifier::spinoff_prover]
#[verifier::rlimit(100)]
fn dispatch_mova(op: OpCode, cpu: &mut CPUInterface) -> (r: Result<u8, ErrorKind>)
    requires
        is_mova_op(op),
    ensures
        step_rel(op, old(cpu).cpu, old(cpu).memory@, final(cpu).cpu, final(cpu).memory@, r),
        r is Ok ==> 4 <= r->Ok_0 <= 18,
{
    match op {
        OpCode::MOV_B_B => instructions::mov(Register::B, Register::B, cpu),
        OpCode::MOV_B_C => instructions::mov(Register::B, Register::C, cpu),
        OpCode::MOV_B_D => instructions::mov(Register::B, Register::D, cpu),
        OpCode::MOV_B_E => instructions::mov(Register::B, Register::E, cpu),
        OpCode::MOV_B_H => instructions::mov(Register::B, Register::H, cpu),
        OpCode::MOV_B_L => instructions::mov(Register::B, Register::L, cpu),
        OpCode::MOV_B_M => instructions::mov(Register::B, Register::M, cpu),
        OpCode::MOV_B_A => instructions::mov(Register::B, Register::A, cpu),
        OpCode::MOV_C_B => instructions::mov(Register::C, Register::B, cpu),
        OpCode::MOV_C_C => instructions::mov(Register::C, Register::C, cpu),
        OpCode::MOV_C_D => instructions::mov(Register::C, Register::D, cpu),
        OpCode::MOV_C_E => instructions::mov(Register::C, Register::E, cpu),
        OpCode::MOV_C_H => instructions::mov(Register::C, Register::H, cpu),
        OpCode::MOV_C_L => instructions::mov(Register::C, Register::L, cpu),
        OpCode::MOV_C_M => instructions::mov(Register::C, Register::M, cpu),
        OpCode::MOV_C_A => instructions::mov(Register::C, Register::A, cpu),
        OpCode::MOV_D_B => instructions::mov(Register::D, Register::B, cpu),
        OpCode::MOV_D_C => instructions::mov(Register::D, Register::C, cpu),
        OpCode::MOV_D_D => instructions::mov(Register::D, Register::D, cpu),
        OpCode::MOV_D_E => instructions::mov(Register::D, Register::E, cpu),
        OpCode::MOV_D_H => instructions::mov(Register::D, Register::H, cpu),
        OpCode::MOV_D_L => instructions::mov(Register::D, Register::L, cpu),
        OpCode::MOV_D_M => instructions::mov(Register::D, Register::M, cpu),
        OpCode::MOV_D_A => instructions::mov(Register::D, Register::A, cpu),
        OpCode::MOV_E_B => instructions::mov(Register::E, Register::B, cpu),
        OpCode::MOV_E_C => instructions::mov(Register::E, Register::C, cpu),
        OpCode::MOV_E_D => instructions::mov(Register::E, Register::D, cpu),
        OpCode::MOV_E_E => instructions::mov(Register::E, Register::E, cpu),
        OpCode::MOV_E_H => instructions::mov(Register::E, Register::H, cpu),
        OpCode::MOV_E_L => instructions::mov(Register::E, Register::L, cpu),
        OpCode::MOV_E_M => instructions::mov(Register::E, Register::M, cpu),
        OpCode::MOV_E_A => instructions::mov(Register::E, Register::A, cpu),
        _ => Err(ErrorKind::UnimplementedOp(op)),
    }
}

/// Dispatches the moves whose destination is H, L, M or A.
#[verifier::spinoff_prover]
#[verifier::rlimit(100)]
fn dispatch_movb(op: OpCode, cpu: &mut CPUInterface) -> (r: Result<u8, ErrorKind>)
    requires
        is_movb_op(op),
    ensures
        step_rel(op, old(cpu).cpu, old(cpu).memory@, final(cpu).cpu, final(cpu).memory@, r),
        r is Ok ==> 4 <= r->Ok_0 <= 18,
{
    match op {
        OpCode::MOV_H_B => instructions::mov(Register::H, Register::B, cpu),
        OpCode::MOV_H_C => instructions::mov(Register::H, Register::C, cpu),
        OpCode::MOV_H_D => instructions::mov(Register::H, Register::D, cpu),
        OpCode::MOV_H_E => instructions::mov(Register::H, Register::E, cpu),
        OpCode::MOV_H_H => instructions::mov(Register::H, Register::H, cpu),
        OpCode::MOV_H_L => instructions::mov(Register::H, Register::L, cpu),
        OpCode::MOV_H_M => instructions::mov(Register::H, Register::M, cpu),
        OpCode::MOV_H_A => instructions::mov(Register::H, Register::A, cpu),
        OpCode::MOV_L_B => instructions::mov(Register::L, Register::B, cpu),
        OpCode::MOV_L_C => instructions::mov(Register::L, Register::C, cpu),
        OpCode::MOV_L_D => instructions::mov(Register::L, Register::D, cpu),
        OpCode::MOV_L_E => instructions::mov(Register::L, Register::E, cpu),
        OpCode::MOV_L_H => instructions::mov(Register::L, Register::H, cpu),
        OpCode::MOV_L_L => instructions::mov(Register::L, Register::L, cpu),
        OpCode::MOV_L_M => instructions::mov(Register::L, Register::M, cpu),
        OpCode::MOV_L_A => instructions::mov(Register::L, Register::A, cpu),
        OpCode::MOV_M_B => instructions::mov(Register::M, Register::B, cpu),
        OpCode::MOV_M_C => instructions::mov(Register::M, Register::C, cpu),
        OpCode::MOV_M_D => instructions::mov(Register::M, Register::D, cpu),
        OpCode::MOV_M_E => instructions::mov(Register::M, Register::E, cpu),
        OpCode::MOV_M_H => instructions::mov(Register::M, Register::H, cpu),
        OpCode::MOV_M_L => instructions::mov(Register::M, Register::L, cpu),
        OpCode::MOV_M_A => instructions::mov(Register::M, Register::A, cpu),
        OpCode::MOV_A_B => instructions::mov(Register::A, Register::B, cpu),
        OpCode::MOV_A_C => instructions::mov(Register::A, Register::C, cpu),
        OpCode::MOV_A_D => instructions::mov(Register::A, Register::D, cpu),
        OpCode::MOV_A_E => instructions::mov(Register::A, Register::E, cpu),
        OpCode::MOV_A_H => instructions::mov(Register::A, Register::H, cpu),
        OpCode::MOV_A_L => instructions::mov(Register::A, Register::L, cpu),
        OpCode::MOV_A_M => instructions::mov(Register::A, Register::M, cpu),
        OpCode::MOV_A_A => instructions::mov(Register::A, Register::A, cpu),
        _ => Err(ErrorKind::UnimplementedOp(op)),
    }
}

/// Dispatches the increment and decrement families and the 16-bit pair add.
#[verifier::spinoff_prover]
#[verifier::rlimit(100)]
fn dispatch_incdec(op: OpCode, cpu: &mut CPUInterface) -> (r: Result<u8, ErrorKind>)
    requires
        is_incdec_op(op),
    ensures
        step_rel(op, old(cpu).cpu, old(cpu).memory@, final(cpu).cpu, final(cpu).memory@, r),
        r is Ok ==> 4 <= r->Ok_0 <= 18,
{
    match op {
        OpCode::INR_B => instructions::inr(Register::B, cpu),
        OpCode::DCR_B => instructions::dcr(Register::B, cpu),
        OpCode::INR_C => instructions::inr(Register::C, cpu),
        OpCode::DCR_C => instructions::dcr(Register::C, cpu),
        OpCode::INR_D => instructions::inr(Register::D, cpu),
        OpCode::DCR_D => instructions::dcr(Register::D, cpu),
        OpCode::INR_E => instructions::inr(Register::E, cpu),
        OpCode::DCR_E => instructions::dcr(Register::E, cpu),
        OpCode::INR_H => instructions::inr(Register::H, cpu),
        OpCode::DCR_H => instructions::dcr(Register::H, cpu),
        OpCode::INR_L => instructions::inr(Register::L, cpu),
        OpCode::DCR_L => instructions::dcr(Register::L, cpu),
        OpCode::INR_M => instructions::inr(Register::M, cpu),
        OpCode::DCR_M => instructions::dcr(Register::M, cpu),
        OpCode::INR_A => instructions::inr(Register::A, cpu),
        OpCode::DCR_A => instructions::dcr(Register::A, cpu),
        OpCode::INX_B => instructions::inx(Register::B, cpu),
        OpCode::INX_D => instructions::inx(Register::D, cpu),
        OpCode::INX_H => instructions::inx(Register::H, cpu),
        OpCode::INX_SP => instructions::inx(Register::SP, cpu),
        OpCode::DCX_B => instructions::dcx(Register::B, cpu),
        OpCode::DCX_D => instructions::dcx(Register::D, cpu),
        OpCode::DCX_H => instructions::dcx(Register::H, cpu),
        OpCode::DCX_SP => instructions::dcx(Register::SP, cpu),
        OpCode::DAD_B => instructions::dad(Register::B, cpu),
        OpCode::DAD_D => instructions::dad(Register::D, cpu),
        OpCode::DAD_H => instructions::dad(Register::H, cpu),
        OpCode::DAD_SP => instructions::dad(Register::SP, cpu),
        _ => Err(ErrorKind::UnimplementedOp(op)),
    }
}

/// Dispatches the loads, stores, stack and pair-transfer instructions.
#[verifier::spinoff_prover]
#[verifier::rlimit(100)]
fn dispatch_data(op: OpCode, cpu: &mut CPUInterface) -> (r: Result<u8, ErrorKind>)
    requires
        is_data_op(op),
    ensures
        step_rel(op, old(cpu).cpu, old(cpu).memory@, final(cpu).cpu, final(cpu).memory@, r),
        r is Ok ==> 4 <= r->Ok_0 <= 18,
{
    match op {
        OpCode::LXI_B => instructions::lxi(Register::B, cpu),
        OpCode::LXI_D => instructions::lxi(Register::D, cpu),
        OpCode::LXI_H => instructions::lxi(Register::H, cpu),
        OpCode::LXI_SP => instructions::lxi(Register::SP, cpu),
        OpCode::PUSH_B => instructions::push(Register::B, cpu),
        OpCode::PUSH_D => instructions::push(Register::D, cpu),
        OpCode::PUSH_H => instructions::push(Register::H, cpu),
        OpCode::PUSH_PSW => instructions::push(Register::PSW, cpu),
        OpCode::POP_B => instructions::pop(Register::B, cpu),
        OpCode::POP_D => instructions::pop(Register::D, cpu),
        OpCode::POP_H => instructions::pop(Register::H, cpu),
        OpCode::POP_PSW => instructions::pop(Register::PSW, cpu),
        OpCode::LDAX_B => instructions::ldax(Register::B, cpu),
        OpCode::LDAX_D => instructions::ldax(Register::D, cpu),
        OpCode::STAX_B => instructions::stax(Register::B, cpu),
        OpCode::STAX_D => instructions::stax(Register::D, cpu),
        OpCode::MVI_B => instructions::mvi(Register::B, cpu),
        OpCode::MVI_C => instructions::mvi(Register::C, cpu),
        OpCode::MVI_D => instructions::mvi(Register::D, cpu),
        OpCode::MVI_E => instructions::mvi(Register::E, cpu),
        OpCode::MVI_H => instructions::mvi(Register::H, cpu),
        OpCode::MVI_L => instructions::mvi(Register::L, cpu),
        OpCode::MVI_M => instructions::mvi(Register::M, cpu),
        OpCode::MVI_A => instructions::mvi(Register::A, cpu),
        OpCode::LDA => instructions::lda(cpu),
        OpCode::STA => instructions::sta(cpu),
        OpCode::LHLD => instructions::lhld(cpu),
        OpCode::SHLD => instructions::shld(cpu),
        OpCode::XCHG => instructions::xchg(cpu),
        OpCode::XTHL => instructions::xthl(cpu),
        OpCode::SPHL => instructions::sphl(cpu),
        OpCode::PCHL => instructions::pchl(cpu),
        _ => Err(ErrorKind::UnimplementedOp(op)),
    }
}

/// Dispatches the immediate-operand arithmetic and logical instructions.
#[verifier::spinoff_prover]
#[verifier::rlimit(100)]
fn dispatch_imm(op: OpCode, cpu: &mut CPUInterface) -> (r: Result<u8, ErrorKind>)
    requires
        is_imm_op(op),
    ensures
        step_rel(op, old(cpu).cpu, old(cpu).memory@, final(cpu).cpu, final(cpu).memory@, r),
        r is Ok ==> 4 <= r->Ok_0 <= 18,
{
    match op {
        OpCode::ADI => instructions::adi(cpu),
        OpCode::ACI => instructions::aci(cpu),
        OpCode::SUI => instructions::sui(cpu),
        OpCode::SBI => instructions::sbi(cpu),
        OpCode::ANI => instructions::ani(cpu),
        OpCode::CPI => instructions::cpi(cpu),
        OpCode::ORI => instructions::logi(cpu, 7, BitOp::Or),
        OpCode::XRI => instructions::logi(cpu, 7, BitOp::Xor),
        _ => Err(ErrorKind::UnimplementedOp(op)),
    }
}

/// Dispatches the jump, call and return families.
#[verifier::spinoff_prover]
#[verifier::rlimit(100)]
fn dispatch_branch(op: OpCode, cpu: &mut CPUInterface) -> (r: Result<u8, ErrorKind>)
    requires
        is_branch_op(op),
    ensures
        step_rel(op, old(cpu).cpu, old(cpu).memory@, final(cpu).cpu, final(cpu).memory@, r),
        r is Ok ==> 4 <= r->Ok_0 <= 18,
{
    match op {
        OpCode::JMP => instructions::jmp_if(cpu, Cond::Always),
        OpCode::JZ => instructions::jmp_if(cpu, Cond::Zero),
        OpCode::JNZ => instructions::jmp_if(cpu, Cond::NotZero),
        OpCode::JC => instructions::jmp_if(cpu, Cond::Carry),
        OpCode::JNC => instructions::jmp_if(cpu, Cond::NotCarry),
        OpCode::JPE => instructions::jmp_if(cpu, Cond::ParityEven),
        OpCode::JPO => instructions::jmp_if(cpu, Cond::ParityOdd),
        OpCode::JM => instructions::jmp_if(cpu, Cond::Minus),
        OpCode::JP => instructions::jmp_if(cpu, Cond::Plus),
        OpCode::CZ => instructions::call_if(cpu, Cond::Zero),
        OpCode::CNZ => instructions::call_if(cpu, Cond::NotZero),
        OpCode::CC => instructions::call_if(cpu, Cond::Carry),
        OpCode::CNC => instructions::call_if(cpu, Cond::NotCarry),
        OpCode::CPE => instructions::call_if(cpu, Cond::ParityEven),
        OpCode::CPO => instructions::call_if(cpu, Cond::ParityOdd),
        OpCode::CM => instructions::call_if(cpu, Cond::Minus),
        OpCode::CP => instructions::call_if(cpu, Cond::Plus),
        OpCode::CALL => instructions::call(cpu),
        OpCode::RET => instructions::ret_if(cpu, Cond::Always),
        OpCode::RZ => instructions::ret_if(cpu, Cond::Zero),
        OpCode::RNZ => instructions::ret_if(cpu, Cond::NotZero),
        OpCode::RC => instructions::ret_if(cpu, Cond::Carry),
        OpCode::RNC => instructions::ret_if(cpu, Cond::NotCarry),
        OpCode::RPE => instructions::ret_if(cpu, Cond::ParityEven),
        OpCode::RPO => instructions::ret_if(cpu, Cond::ParityOdd),
        OpCode::RM => instructions::ret_if(cpu, Cond::Minus),
        OpCode::RP => instructions::ret_if(cpu, Cond::Plus),
        _ => Err(ErrorKind::UnimplementedOp(op)),
    }
}

/// Executes one instruction: fetches and decodes the byte at the program
/// counter, records the decoded instruction in the history ring, and
/// dispatches to the matching executor; on success one iteration and the
/// cycle cost are added to the running counters. A fetch or decode
/// failure leaves the machine untouched; a dispatch failure surfaces the
/// executor's error with the machine as its relation left it — the
/// history entry stays, so a post-mortem history shows the instruction
/// that failed.
#[verifier::rlimit(100)]
#[verifier::spinoff_prover]
pub fn emulate<I: MachineInterface>(cpu: &mut CPUInterface, interface: &mut I) -> (r: Result<
    u8,
    ErrorKind,
>)
    ensures
        r is Ok ==> 4 <= r->Ok_0 <= 18,
        r is Ok ==> step_ok(
            old(cpu).cpu,
            old(cpu).memory@,
            final(cpu).cpu,
            final(cpu).memory@,
            r->Ok_0,
        ),
        r is Err ==> step_err(
            old(cpu).cpu,
            old(cpu).memory@,
            final(cpu).cpu,
            final(cpu).memory@,
            r->Err_0,
        ),
{
    proof {
        reveal(step_ok);
        reveal(step_err);
    }
    let ghost pre = cpu.cpu;
    let ghost m = cpu.memory@;
    let code = match cpu.read(cpu.cpu.pc) {
        Ok(c) => c,
        Err(e) => {
            return Err(e);
        },
    };
    let op = match OpCode::from_u8(code) {
        Some(o) => o,
        None => {
            return Err(ErrorKind::UnknownOp(code));
        },
    };
    let instruction = match disassembler::disassemble(&cpu.memory, cpu.cpu.pc) {
        Ok(t) => t,
        Err(e) => {
            return Err(e);
        },
    };
    cpu.cpu.history.push(instruction.0);
    let ghost pushed = cpu.cpu;
    let result: Result<u8, ErrorKind> = match op {
        OpCode::NOP_0 | OpCode::NOP_1 | OpCode::NOP_2 | OpCode::NOP_3 | OpCode::NOP_4 | OpCode::NOP_5 | OpCode::NOP_6 | OpCode::NOP_7 | OpCode::NOP_8 | OpCode::NOP_9 | OpCode::NOP_10 | OpCode::RIM | OpCode::CMA | OpCode::STC | OpCode::CMC | OpCode::EI | OpCode::DI | OpCode::RLC | OpCode::RAL | OpCode::RRC | OpCode::RAR => dispatch_misc(op, cpu),
        OpCode::ADD_B | OpCode::ADD_C | OpCode::ADD_D | OpCode::ADD_E | OpCode::ADD_H | OpCode::ADD_L | OpCode::ADD_M | OpCode::ADD_A | OpCode::ADC_B | OpCode::ADC_C | OpCode::ADC_D | OpCode::ADC_E | OpCode::ADC_H | OpCode::ADC_L | OpCode::ADC_M | OpCode::ADC_A | OpCode::SUB_B | OpCode::SUB_C | OpCode::SUB_D | OpCode::SUB_E | OpCode::SUB_H | OpCode::SUB_L | OpCode::SUB_M | OpCode::SUB_A | OpCode::SBB_B | OpCode::SBB_C | OpCode::SBB_D | OpCode::SBB_E | OpCode::SBB_H | OpCode::SBB_L | OpCode::SBB_M | OpCode::SBB_A => dispatch_alu(op, cpu),
        OpCode::CMP_B | OpCode::CMP_C | OpCode::CMP_D | OpCode::CMP_E | OpCode::CMP_H | OpCode::CMP_L | OpCode::CMP_M | OpCode::CMP_A | OpCode::ANA_B | OpCode::ANA_C | OpCode::ANA_D | OpCode::ANA_E | OpCode::ANA_H | OpCode::ANA_L | OpCode::ANA_M | OpCode::ANA_A | OpCode::XRA_B | OpCode::XRA_C | OpCode::XRA_D | OpCode::XRA_E | OpCode::XRA_H | OpCode::XRA_L | OpCode::XRA_M | OpCode::XRA_A | OpCode::ORA_B | OpCode::ORA_C | OpCode::ORA_D | OpCode::ORA_E | OpCode::ORA_H | OpCode::ORA_L | OpCode::ORA_M | OpCode::ORA_A => dispatch_cmplog(op, cpu),
        OpCode::MOV_B_B | OpCode::MOV_B_C | OpCode::MOV_B_D | OpCode::MOV_B_E | OpCode::MOV_B_H | OpCode::MOV_B_L | OpCode::MOV_B_M | OpCode::MOV_B_A | OpCode::MOV_C_B | OpCode::MOV_C_C | OpCode::MOV_C_D | OpCode::MOV_C_E | OpCode::MOV_C_H | OpCode::MOV_C_L | OpCode::MOV_C_M | OpCode::MOV_C_A | OpCode::MOV_D_B | OpCode::MOV_D_C | OpCode::MOV_D_D | OpCode::MOV_D_E | OpCode::MOV_D_H | OpCode::MOV_D_L | OpCode::MOV_D_M | OpCode::MOV_D_A | OpCode::MOV_E_B | OpCode::MOV_E_C | OpCode::MOV_E_D | OpCode::MOV_E_E | OpCode::MOV_E_H | OpCode::MOV_E_L | OpCode::MOV_E_M | OpCode::MOV_E_A => dispatch_mova(op, cpu),
        OpCode::MOV_H_B | OpCode::MOV_H_C | OpCode::MOV_H_D | OpCode::MOV_H_E | OpCode::MOV_H_H | OpCode::MOV_H_L | OpCode::MOV_H_M | OpCode::MOV_H_A | OpCode::MOV_L_B | OpCode::MOV_L_C | OpCode::MOV_L_D | OpCode::MOV_L_E | OpCode::MOV_L_H | OpCode::MOV_L_L | OpCode::MOV_L_M | OpCode::MOV_L_A | OpCode::MOV_M_B | OpCode::MOV_M_C | OpCode::MOV_M_D | OpCode::MOV_M_E | OpCode::MOV_M_H | OpCode::MOV_M_L | OpCode::MOV_M_A | OpCode::MOV_A_B | OpCode::MOV_A_C | OpCode::MOV_A_D | OpCode::MOV_A_E | OpCode::MOV_A_H | OpCode::MOV_A_L | OpCode::MOV_A_M | OpCode::MOV_A_A => dispatch_movb(op, cpu),
        OpCode::INR_B | OpCode::DCR_B | OpCode::INR_C | OpCode::DCR_C | OpCode::INR_D | OpCode::DCR_D | OpCode::INR_E | OpCode::DCR_E | OpCode::INR_H | OpCode::DCR_H | OpCode::INR_L | OpCode::DCR_L | OpCode::INR_M | OpCode::DCR_M | OpCode::INR_A | OpCode::DCR_A | OpCode::INX_B | OpCode::INX_D | OpCode::INX_H | OpCode::INX_SP | OpCode::DCX_B | OpCode::DCX_D | OpCode::DCX_H | OpCode::DCX_SP | OpCode::DAD_B | OpCode::DAD_D | OpCode::DAD_H | OpCode::DAD_SP => dispatch_incdec(op, cpu),
        OpCode::LXI_B | OpCode::LXI_D | OpCode::LXI_H | OpCode::LXI_SP | OpCode::PUSH_B | OpCode::PUSH_D | OpCode::PUSH_H | OpCode::PUSH_PSW | OpCode::POP_B | OpCode::POP_D | OpCode::POP_H | OpCode::POP_PSW | OpCode::LDAX_B | OpCode::LDAX_D | OpCode::STAX_B | OpCode::STAX_D | OpCode::MVI_B | OpCode::MVI_C | OpCode::MVI_D | OpCode::MVI_E | OpCode::MVI_H | OpCode::MVI_L | OpCode::MVI_M | OpCode::MVI_A | OpCode::LDA | OpCode::STA | OpCode::LHLD | OpCode::SHLD | OpCode::XCHG | OpCode::XTHL | OpCode::SPHL | OpCode::PCHL => dispatch_data(op, cpu),
        OpCode::ADI | OpCode::ACI | OpCode::SUI | OpCode::SBI | OpCode::ANI | OpCode::CPI | OpCode::ORI | OpCode::XRI => dispatch_imm(op, cpu),
        OpCode::JMP | OpCode::JZ | OpCode::JNZ | OpCode::JC | OpCode::JNC | OpCode::JPE | OpCode::JPO | OpCode::JM | OpCode::JP | OpCode::CZ | OpCode::CNZ | OpCode::CC | OpCode::CNC | OpCode::CPE | OpCode::CPO | OpCode::CM | OpCode::CP | OpCode::CALL | OpCode::RET | OpCode::RZ | OpCode::RNZ | OpCode::RC | OpCode::RNC | OpCode::RPE | OpCode::RPO | OpCode::RM | OpCode::RP => dispatch_branch(op, cpu),
        OpCode::IN => io_in(cpu, interface),
        OpCode::OUT => io_out(cpu, interface),
        s => Err(ErrorKind::UnimplementedOp(s)),
    };
    let cycles = match result {
        Ok(c) => c,
        Err(e) => {
            proof {
                assert(hist_pushed(pre, pushed, instruction.0));
                assert(step_rel(op, pushed, m, cpu.cpu, cpu.memory@, Err::<u8, ErrorKind>(e)));
            }
            return Err(e);
        },
    };
    let ghost mid_cpu = cpu.cpu;
    let ghost mid_mem = cpu.memory@;
    cpu.cpu.iters = cpu.cpu.iters.wrapping_add(1);
    cpu.cpu.cycles = cpu.cpu.cycles.wrapping_add(cycles as u128);
    proof {
        assert(hist_pushed(pre, pushed, instruction.0));
        assert(step_rel(op, pushed, m, mid_cpu, mid_mem, Ok::<u8, ErrorKind>(cycles)));
        assert(cpu.cpu == (CPU {
            iters: add_w64(mid_cpu.iters, 1),
            cycles: add_w128(mid_cpu.cycles, cycles as u128),
            ..mid_cpu
        }));
    }
    Ok(cycles)
}

} // verus!
