//! Raw opcodes and structured instructions: the dense byte-indexed opcode
//! table, the register selectors, and the tagged instruction type that the
//! decoder produces and the executors consume. Many distinct byte values
//! alias to the same semantic instruction (eleven no-op encodings, eight
//! restart vectors); decoding treats all aliases identically.

use vstd::prelude::*;

verus! {

/// A register selector: the seven 8-bit registers, the memory operand
/// addressed through the HL pair, the stack pointer, and the program
/// status word used by the stack instructions.
#[allow(non_camel_case_types)]
#[derive(Copy, Clone, Debug, PartialEq, Eq, Structural)]
pub enum Register {
    A,
    B,
    C,
    D,
    E,
    H,
    L,
    M,
    SP,
    PSW,
}

/// The raw opcode identifier: one variant per mapped byte value of the
/// 8080 opcode space. Byte 0x76 (HLT) is left unmapped and decoding fails
/// cleanly on it.
#[allow(non_camel_case_types)]
#[derive(Copy, Clone, Debug, PartialEq, Eq, Structural)]
pub enum OpCode {
    NOP_0,
    LXI_B,
    STAX_B,
    INX_B,
    INR_B,
    DCR_B,
    MVI_B,
    RLC,
    NOP_1,
    DAD_B,
    LDAX_B,
    DCX_B,
    INR_C,
    DCR_C,
    MVI_C,
    RRC,
    NOP_2,
    LXI_D,
    STAX_D,
    INX_D,
    INR_D,
    DCR_D,
    MVI_D,
    RAL,
    NOP_3,
    DAD_D,
    LDAX_D,
    DCX_D,
    INR_E,
    DCR_E,
    MVI_E,
    RAR,
    RIM,
    LXI_H,
    SHLD,
    INX_H,
    INR_H,
    DCR_H,
    MVI_H,
    DAA,
    NOP_4,
    DAD_H,
    LHLD,
    DCX_H,
    INR_L,
    DCR_L,
    MVI_L,
    CMA,
    SIM,
    LXI_SP,
    STA,
    INX_SP,
    INR_M,
    DCR_M,
    MVI_M,
    STC,
    NOP_5,
    DAD_SP,
    LDA,
    DCX_SP,
    INR_A,
    DCR_A,
    MVI_A,
    CMC,
    MOV_B_B,
    MOV_B_C,
    MOV_B_D,
    MOV_B_E,
    MOV_B_H,
    MOV_B_L,
    MOV_B_M,
    MOV_B_A,
    MOV_C_B,
    MOV_C_C,
    MOV_C_D,
    MOV_C_E,
    MOV_C_H,
    MOV_C_L,
    MOV_C_M,
    MOV_C_A,
    MOV_D_B,
    MOV_D_C,
    MOV_D_D,
    MOV_D_E,
    MOV_D_H,
    MOV_D_L,
    MOV_D_M,
    MOV_D_A,
    MOV_E_B,
    MOV_E_C,
    MOV_E_D,
    MOV_E_E,
    MOV_E_H,
    MOV_E_L,
    MOV_E_M,
    MOV_E_A,
    MOV_H_B,
    MOV_H_C,
    MOV_H_D,
    MOV_H_E,
    MOV_H_H,
    MOV_H_L,
    MOV_H_M,
    MOV_H_A,
    MOV_L_B,
    MOV_L_C,
    MOV_L_D,
    MOV_L_E,
    MOV_L_H,
    MOV_L_L,
    MOV_L_M,
    MOV_L_A,
    MOV_M_B,
    MOV_M_C,
    MOV_M_D,
    MOV_M_E,
    MOV_M_H,
    MOV_M_L,
    MOV_M_A,
    MOV_A_B,
    MOV_A_C,
    MOV_A_D,
    MOV_A_E,
    MOV_A_H,
    MOV_A_L,
    MOV_A_M,
    MOV_A_A,
    ADD_B,
    ADD_C,
    ADD_D,
    ADD_E,
    ADD_H,
    ADD_L,
    ADD_M,
    ADD_A,
    ADC_B,
    ADC_C,
    ADC_D,
    ADC_E,
    ADC_H,
    ADC_L,
    ADC_M,
    ADC_A,
    SUB_B,
    SUB_C,
    SUB_D,
    SUB_E,
    SUB_H,
    SUB_L,
    SUB_M,
    SUB_A,
    SBB_B,
    SBB_C,
    SBB_D,
    SBB_E,
    SBB_H,
    SBB_L,
    SBB_M,
    SBB_A,
    ANA_B,
    ANA_C,
    ANA_D,
    ANA_E,
    ANA_H,
    ANA_L,
    ANA_M,
    ANA_A,
    XRA_B,
    XRA_C,
    XRA_D,
    XRA_E,
    XRA_H,
    XRA_L,
    XRA_M,
    XRA_A,
    ORA_B,
    ORA_C,
    ORA_D,
    ORA_E,
    ORA_H,
    ORA_L,
    ORA_M,
    ORA_A,
    CMP_B,
    CMP_C,
    CMP_D,
    CMP_E,
    CMP_H,
    CMP_L,
    CMP_M,
    CMP_A,
    RNZ,
    POP_B,
    JNZ,
    JMP,
    CNZ,
    PUSH_B,
    ADI,
    RST_0,
    RZ,
    RET,
    JZ,
    NOP_6,
    CZ,
    CALL,
    ACI,
    RST_1,
    RNC,
    POP_D,
    JNC,
    OUT,
    CNC,
    PUSH_D,
    SUI,
    RST_2,
    RC,
    NOP_7,
    JC,
    IN,
    CC,
    NOP_8,
    SBI,
    RST_3,
    RPO,
    POP_H,
    JPO,
    XTHL,
    CPO,
    PUSH_H,
    ANI,
    RST_4,
    RPE,
    PCHL,
    JPE,
    XCHG,
    CPE,
    NOP_9,
    XRI,
    RST_5,
    RP,
    POP_PSW,
    JP,
    DI,
    CP,
    PUSH_PSW,
    ORI,
    RST_6,
    RM,
    SPHL,
    JM,
    EI,
    CM,
    NOP_10,
    CPI,
    RST_7,
}

/// A structured instruction together with its operand bytes, as produced by
/// the decoder. Immediate and address operands are carried low byte first,
/// in the order they appear in memory.
#[allow(non_camel_case_types)]
#[derive(Copy, Clone, Debug, PartialEq, Eq, Structural)]
pub enum Instruction {
    NOP,
    RST,
    EI,
    DI,
    RET,
    RLC,
    RRC,
    RAL,
    RAR,
    CMA,
    CMC,
    STC,
    DAA,
    RIM,
    SIM,
    XCHG,
    XTHL,
    SPHL,
    PCHL,
    RZ,
    RNZ,
    RC,
    RNC,
    RP,
    RM,
    RPE,
    RPO,
    MOV(Register, Register),
    ADD(Register),
    ADC(Register),
    SUB(Register),
    SBB(Register),
    ANA(Register),
    XRA(Register),
    ORA(Register),
    CMP(Register),
    INR(Register),
    DCR(Register),
    INX(Register),
    DCX(Register),
    DAD(Register),
    PUSH(Register),
    POP(Register),
    LDAX(Register),
    STAX(Register),
    MVI(Register, u8),
    ADI(u8),
    ACI(u8),
    SUI(u8),
    SBI(u8),
    ANI(u8),
    ORI(u8),
    XRI(u8),
    CPI(u8),
    IN(u8),
    OUT(u8),
    JMP(u8, u8),
    JZ(u8, u8),
    JNZ(u8, u8),
    JC(u8, u8),
    JNC(u8, u8),
    JP(u8, u8),
    JM(u8, u8),
    JPE(u8, u8),
    JPO(u8, u8),
    CALL(u8, u8),
    CZ(u8, u8),
    CNZ(u8, u8),
    CC(u8, u8),
    CNC(u8, u8),
    CP(u8, u8),
    CM(u8, u8),
    CPE(u8, u8),
    CPO(u8, u8),
    LDA(u8, u8),
    STA(u8, u8),
    LHLD(u8, u8),
    SHLD(u8, u8),
    LXI(Register, u8, u8),
}

/// The opcode a byte value maps to, or `None` for the one unmapped byte.
pub open spec fn spec_from_u8(b: u8) -> Option<OpCode> {
    match b {
        0x00 => Some(OpCode::NOP_0),
        0x01 => Some(OpCode::LXI_B),
        0x02 => Some(OpCode::STAX_B),
        0x03 => Some(OpCode::INX_B),
        0x04 => Some(OpCode::INR_B),
        0x05 => Some(OpCode::DCR_B),
        0x06 => Some(OpCode::MVI_B),
        0x07 => Some(OpCode::RLC),
        0x08 => Some(OpCode::NOP_1),
        0x09 => Some(OpCode::DAD_B),
        0x0a => Some(OpCode::LDAX_B),
        0x0b => Some(OpCode::DCX_B),
        0x0c => Some(OpCode::INR_C),
        0x0d => Some(OpCode::DCR_C),
        0x0e => Some(OpCode::MVI_C),
        0x0f => Some(OpCode::RRC),
        0x10 => Some(OpCode::NOP_2),
        0x11 => Some(OpCode::LXI_D),
        0x12 => Some(OpCode::STAX_D),
        0x13 => Some(OpCode::INX_D),
        0x14 => Some(OpCode::INR_D),
        0x15 => Some(OpCode::DCR_D),
        0x16 => Some(OpCode::MVI_D),
        0x17 => Some(OpCode::RAL),
        0x18 => Some(OpCode::NOP_3),
        0x19 => Some(OpCode::DAD_D),
        0x1a => Some(OpCode::LDAX_D),
        0x1b => Some(OpCode::DCX_D),
        0x1c => Some(OpCode::INR_E),
        0x1d => Some(OpCode::DCR_E),
        0x1e => Some(OpCode::MVI_E),
        0x1f => Some(OpCode::RAR),
        0x20 => Some(OpCode::RIM),
        0x21 => Some(OpCode::LXI_H),
        0x22 => Some(OpCode::SHLD),
        0x23 => Some(OpCode::INX_H),
        0x24 => Some(OpCode::INR_H),
        0x25 => Some(OpCode::DCR_H),
        0x26 => Some(OpCode::MVI_H),
        0x27 => Some(OpCode::DAA),
        0x28 => Some(OpCode::NOP_4),
        0x29 => Some(OpCode::DAD_H),
        0x2a => Some(OpCode::LHLD),
        0x2b => Some(OpCode::DCX_H),
        0x2c => Some(OpCode::INR_L),
        0x2d => Some(OpCode::DCR_L),
        0x2e => Some(OpCode::MVI_L),
        0x2f => Some(OpCode::CMA),
        0x30 => Some(OpCode::SIM),
        0x31 => Some(OpCode::LXI_SP),
        0x32 => Some(OpCode::STA),
        0x33 => Some(OpCode::INX_SP),
        0x34 => Some(OpCode::INR_M),
        0x35 => Some(OpCode::DCR_M),
        0x36 => Some(OpCode::MVI_M),
        0x37 => Some(OpCode::STC),
        0x38 => Some(OpCode::NOP_5),
        0x39 => Some(OpCode::DAD_SP),
        0x3a => Some(OpCode::LDA),
        0x3b => Some(OpCode::DCX_SP),
        0x3c => Some(OpCode::INR_A),
        0x3d => Some(OpCode::DCR_A),
        0x3e => Some(OpCode::MVI_A),
        0x3f => Some(OpCode::CMC),
        0x40 => Some(OpCode::MOV_B_B),
        0x41 => Some(OpCode::MOV_B_C),
        0x42 => Some(OpCode::MOV_B_D),
        0x43 => Some(OpCode::MOV_B_E),
        0x44 => Some(OpCode::MOV_B_H),
        0x45 => Some(OpCode::MOV_B_L),
        0x46 => Some(OpCode::MOV_B_M),
        0x47 => Some(OpCode::MOV_B_A),
        0x48 => Some(OpCode::MOV_C_B),
        0x49 => Some(OpCode::MOV_C_C),
        0x4a => Some(OpCode::MOV_C_D),
        0x4b => Some(OpCode::MOV_C_E),
        0x4c => Some(OpCode::MOV_C_H),
        0x4d => Some(OpCode::MOV_C_L),
        0x4e => Some(OpCode::MOV_C_M),
        0x4f => Some(OpCode::MOV_C_A),
        0x50 => Some(OpCode::MOV_D_B),
        0x51 => Some(OpCode::MOV_D_C),
        0x52 => Some(OpCode::MOV_D_D),
        0x53 => Some(OpCode::MOV_D_E),
        0x54 => Some(OpCode::MOV_D_H),
        0x55 => Some(OpCode::MOV_D_L),
        0x56 => Some(OpCode::MOV_D_M),
        0x57 => Some(OpCode::MOV_D_A),
        0x58 => Some(OpCode::MOV_E_B),
        0x59 => Some(OpCode::MOV_E_C),
        0x5a => Some(OpCode::MOV_E_D),
        0x5b => Some(OpCode::MOV_E_E),
        0x5c => Some(OpCode::MOV_E_H),
        0x5d => Some(OpCode::MOV_E_L),
        0x5e => Some(OpCode::MOV_E_M),
        0x5f => Some(OpCode::MOV_E_A),
        0x60 => Some(OpCode::MOV_H_B),
        0x61 => Some(OpCode::MOV_H_C),
        0x62 => Some(OpCode::MOV_H_D),
        0x63 => Some(OpCode::MOV_H_E),
        0x64 => Some(OpCode::MOV_H_H),
        0x65 => Some(OpCode::MOV_H_L),
        0x66 => Some(OpCode::MOV_H_M),
        0x67 => Some(OpCode::MOV_H_A),
        0x68 => Some(OpCode::MOV_L_B),
        0x69 => Some(OpCode::MOV_L_C),
        0x6a => Some(OpCode::MOV_L_D),
        0x6b => Some(OpCode::MOV_L_E),
        0x6c => Some(OpCode::MOV_L_H),
        0x6d => Some(OpCode::MOV_L_L),
        0x6e => Some(OpCode::MOV_L_M),
        0x6f => Some(OpCode::MOV_L_A),
        0x70 => Some(OpCode::MOV_M_B),
        0x71 => Some(OpCode::MOV_M_C),
        0x72 => Some(OpCode::MOV_M_D),
        0x73 => Some(OpCode::MOV_M_E),
        0x74 => Some(OpCode::MOV_M_H),
        0x75 => Some(OpCode::MOV_M_L),
        0x76 => None,
        0x77 => Some(OpCode::MOV_M_A),
        0x78 => Some(OpCode::MOV_A_B),
        0x79 => Some(OpCode::MOV_A_C),
        0x7a => Some(OpCode::MOV_A_D),
        0x7b => Some(OpCode::MOV_A_E),
        0x7c => Some(OpCode::MOV_A_H),
        0x7d => Some(OpCode::MOV_A_L),
        0x7e => Some(OpCode::MOV_A_M),
        0x7f => Some(OpCode::MOV_A_A),
        0x80 => Some(OpCode::ADD_B),
        0x81 => Some(OpCode::ADD_C),
        0x82 => Some(OpCode::ADD_D),
        0x83 => Some(OpCode::ADD_E),
        0x84 => Some(OpCode::ADD_H),
        0x85 => Some(OpCode::ADD_L),
        0x86 => Some(OpCode::ADD_M),
        0x87 => Some(OpCode::ADD_A),
        0x88 => Some(OpCode::ADC_B),
        0x89 => Some(OpCode::ADC_C),
        0x8a => Some(OpCode::ADC_D),
        0x8b => Some(OpCode::ADC_E),
        0x8c => Some(OpCode::ADC_H),
        0x8d => Some(OpCode::ADC_L),
        0x8e => Some(OpCode::ADC_M),
        0x8f => Some(OpCode::ADC_A),
        0x90 => Some(OpCode::SUB_B),
        0x91 => Some(OpCode::SUB_C),
        0x92 => Some(OpCode::SUB_D),
        0x93 => Some(OpCode::SUB_E),
        0x94 => Some(OpCode::SUB_H),
        0x95 => Some(OpCode::SUB_L),
        0x96 => Some(OpCode::SUB_M),
        0x97 => Some(OpCode::SUB_A),
        0x98 => Some(OpCode::SBB_B),
        0x99 => Some(OpCode::SBB_C),
        0x9a => Some(OpCode::SBB_D),
        0x9b => Some(OpCode::SBB_E),
        0x9c => Some(OpCode::SBB_H),
        0x9d => Some(OpCode::SBB_L),
        0x9e => Some(OpCode::SBB_M),
        0x9f => Some(OpCode::SBB_A),
        0xa0 => Some(OpCode::ANA_B),
        0xa1 => Some(OpCode::ANA_C),
        0xa2 => Some(OpCode::ANA_D),
        0xa3 => Some(OpCode::ANA_E),
        0xa4 => Some(OpCode::ANA_H),
        0xa5 => Some(OpCode::ANA_L),
        0xa6 => Some(OpCode::ANA_M),
        0xa7 => Some(OpCode::ANA_A),
        0xa8 => Some(OpCode::XRA_B),
        0xa9 => Some(OpCode::XRA_C),
        0xaa => Some(OpCode::XRA_D),
        0xab => Some(OpCode::XRA_E),
        0xac => Some(OpCode::XRA_H),
        0xad => Some(OpCode::XRA_L),
        0xae => Some(OpCode::XRA_M),
        0xaf => Some(OpCode::XRA_A),
        0xb0 => Some(OpCode::ORA_B),
        0xb1 => Some(OpCode::ORA_C),
        0xb2 => Some(OpCode::ORA_D),
        0xb3 => Some(OpCode::ORA_E),
        0xb4 => Some(OpCode::ORA_H),
        0xb5 => Some(OpCode::ORA_L),
        0xb6 => Some(OpCode::ORA_M),
        0xb7 => Some(OpCode::ORA_A),
        0xb8 => Some(OpCode::CMP_B),
        0xb9 => Some(OpCode::CMP_C),
        0xba => Some(OpCode::CMP_D),
        0xbb => Some(OpCode::CMP_E),
        0xbc => Some(OpCode::CMP_H),
        0xbd => Some(OpCode::CMP_L),
        0xbe => Some(OpCode::CMP_M),
        0xbf => Some(OpCode::CMP_A),
        0xc0 => Some(OpCode::RNZ),
        0xc1 => Some(OpCode::POP_B),
        0xc2 => Some(OpCode::JNZ),
        0xc3 => Some(OpCode::JMP),
        0xc4 => Some(OpCode::CNZ),
        0xc5 => Some(OpCode::PUSH_B),
        0xc6 => Some(OpCode::ADI),
        0xc7 => Some(OpCode::RST_0),
        0xc8 => Some(OpCode::RZ),
        0xc9 => Some(OpCode::RET),
        0xca => Some(OpCode::JZ),
        0xcb => Some(OpCode::NOP_6),
        0xcc => Some(OpCode::CZ),
        0xcd => Some(OpCode::CALL),
        0xce => Some(OpCode::ACI),
        0xcf => Some(OpCode::RST_1),
        0xd0 => Some(OpCode::RNC),
        0xd1 => Some(OpCode::POP_D),
        0xd2 => Some(OpCode::JNC),
        0xd3 => Some(OpCode::OUT),
        0xd4 => Some(OpCode::CNC),
        0xd5 => Some(OpCode::PUSH_D),
        0xd6 => Some(OpCode::SUI),
        0xd7 => Some(OpCode::RST_2),
        0xd8 => Some(OpCode::RC),
        0xd9 => Some(OpCode::NOP_7),
        0xda => Some(OpCode::JC),
        0xdb => Some(OpCode::IN),
        0xdc => Some(OpCode::CC),
        0xdd => Some(OpCode::NOP_8),
        0xde => Some(OpCode::SBI),
        0xdf => Some(OpCode::RST_3),
        0xe0 => Some(OpCode::RPO),
        0xe1 => Some(OpCode::POP_H),
        0xe2 => Some(OpCode::JPO),
        0xe3 => Some(OpCode::XTHL),
        0xe4 => Some(OpCode::CPO),
        0xe5 => Some(OpCode::PUSH_H),
        0xe6 => Some(OpCode::ANI),
        0xe7 => Some(OpCode::RST_4),
        0xe8 => Some(OpCode::RPE),
        0xe9 => Some(OpCode::PCHL),
        0xea => Some(OpCode::JPE),
        0xeb => Some(OpCode::XCHG),
        0xec => Some(OpCode::CPE),
        0xed => Some(OpCode::NOP_9),
        0xee => Some(OpCode::XRI),
        0xef => Some(OpCode::RST_5),
        0xf0 => Some(OpCode::RP),
        0xf1 => Some(OpCode::POP_PSW),
        0xf2 => Some(OpCode::JP),
        0xf3 => Some(OpCode::DI),
        0xf4 => Some(OpCode::CP),
        0xf5 => Some(OpCode::PUSH_PSW),
        0xf6 => Some(OpCode::ORI),
        0xf7 => Some(OpCode::RST_6),
        0xf8 => Some(OpCode::RM),
        0xf9 => Some(OpCode::SPHL),
        0xfa => Some(OpCode::JM),
        0xfb => Some(OpCode::EI),
        0xfc => Some(OpCode::CM),
        0xfd => Some(OpCode::NOP_10),
        0xfe => Some(OpCode::CPI),
        0xff => Some(OpCode::RST_7),
    }
}

/// The unique byte value that maps to an opcode.
pub open spec fn spec_byte(op: OpCode) -> u8 {
    match op {
        OpCode::NOP_0 => 0x00,
        OpCode::LXI_B => 0x01,
        OpCode::STAX_B => 0x02,
        OpCode::INX_B => 0x03,
        OpCode::INR_B => 0x04,
        OpCode::DCR_B => 0x05,
        OpCode::MVI_B => 0x06,
        OpCode::RLC => 0x07,
        OpCode::NOP_1 => 0x08,
        OpCode::DAD_B => 0x09,
        OpCode::LDAX_B => 0x0a,
        OpCode::DCX_B => 0x0b,
        OpCode::INR_C => 0x0c,
        OpCode::DCR_C => 0x0d,
        OpCode::MVI_C => 0x0e,
        OpCode::RRC => 0x0f,
        OpCode::NOP_2 => 0x10,
        OpCode::LXI_D => 0x11,
        OpCode::STAX_D => 0x12,
        OpCode::INX_D => 0x13,
        OpCode::INR_D => 0x14,
        OpCode::DCR_D => 0x15,
        OpCode::MVI_D => 0x16,
        OpCode::RAL => 0x17,
        OpCode::NOP_3 => 0x18,
        OpCode::DAD_D => 0x19,
        OpCode::LDAX_D => 0x1a,
        OpCode::DCX_D => 0x1b,
        OpCode::INR_E => 0x1c,
        OpCode::DCR_E => 0x1d,
        OpCode::MVI_E => 0x1e,
        OpCode::RAR => 0x1f,
        OpCode::RIM => 0x20,
        OpCode::LXI_H => 0x21,
        OpCode::SHLD => 0x22,
        OpCode::INX_H => 0x23,
        OpCode::INR_H => 0x24,
        OpCode::DCR_H => 0x25,
        OpCode::MVI_H => 0x26,
        OpCode::DAA => 0x27,
        OpCode::NOP_4 => 0x28,
        OpCode::DAD_H => 0x29,
        OpCode::LHLD => 0x2a,
        OpCode::DCX_H => 0x2b,
        OpCode::INR_L => 0x2c,
        OpCode::DCR_L => 0x2d,
        OpCode::MVI_L => 0x2e,
        OpCode::CMA => 0x2f,
        OpCode::SIM => 0x30,
        OpCode::LXI_SP => 0x31,
        OpCode::STA => 0x32,
        OpCode::INX_SP => 0x33,
        OpCode::INR_M => 0x34,
        OpCode::DCR_M => 0x35,
        OpCode::MVI_M => 0x36,
        OpCode::STC => 0x37,
        OpCode::NOP_5 => 0x38,
        OpCode::DAD_SP => 0x39,
        OpCode::LDA => 0x3a,
        OpCode::DCX_SP => 0x3b,
        OpCode::INR_A => 0x3c,
        OpCode::DCR_A => 0x3d,
        OpCode::MVI_A => 0x3e,
        OpCode::CMC => 0x3f,
        OpCode::MOV_B_B => 0x40,
        OpCode::MOV_B_C => 0x41,
        OpCode::MOV_B_D => 0x42,
        OpCode::MOV_B_E => 0x43,
        OpCode::MOV_B_H => 0x44,
        OpCode::MOV_B_L => 0x45,
        OpCode::MOV_B_M => 0x46,
        OpCode::MOV_B_A => 0x47,
        OpCode::MOV_C_B => 0x48,
        OpCode::MOV_C_C => 0x49,
        OpCode::MOV_C_D => 0x4a,
        OpCode::MOV_C_E => 0x4b,
        OpCode::MOV_C_H => 0x4c,
        OpCode::MOV_C_L => 0x4d,
        OpCode::MOV_C_M => 0x4e,
        OpCode::MOV_C_A => 0x4f,
        OpCode::MOV_D_B => 0x50,
        OpCode::MOV_D_C => 0x51,
        OpCode::MOV_D_D => 0x52,
        OpCode::MOV_D_E => 0x53,
        OpCode::MOV_D_H => 0x54,
        OpCode::MOV_D_L => 0x55,
        OpCode::MOV_D_M => 0x56,
        OpCode::MOV_D_A => 0x57,
        OpCode::MOV_E_B => 0x58,
        OpCode::MOV_E_C => 0x59,
        OpCode::MOV_E_D => 0x5a,
        OpCode::MOV_E_E => 0x5b,
        OpCode::MOV_E_H => 0x5c,
        OpCode::MOV_E_L => 0x5d,
        OpCode::MOV_E_M => 0x5e,
        OpCode::MOV_E_A => 0x5f,
        OpCode::MOV_H_B => 0x60,
        OpCode::MOV_H_C => 0x61,
        OpCode::MOV_H_D => 0x62,
        OpCode::MOV_H_E => 0x63,
        OpCode::MOV_H_H => 0x64,
        OpCode::MOV_H_L => 0x65,
        OpCode::MOV_H_M => 0x66,
        OpCode::MOV_H_A => 0x67,
        OpCode::MOV_L_B => 0x68,
        OpCode::MOV_L_C => 0x69,
        OpCode::MOV_L_D => 0x6a,
        OpCode::MOV_L_E => 0x6b,
        OpCode::MOV_L_H => 0x6c,
        OpCode::MOV_L_L => 0x6d,
        OpCode::MOV_L_M => 0x6e,
        OpCode::MOV_L_A => 0x6f,
        OpCode::MOV_M_B => 0x70,
        OpCode::MOV_M_C => 0x71,
        OpCode::MOV_M_D => 0x72,
        OpCode::MOV_M_E => 0x73,
        OpCode::MOV_M_H => 0x74,
        OpCode::MOV_M_L => 0x75,
        OpCode::MOV_M_A => 0x77,
        OpCode::MOV_A_B => 0x78,
        OpCode::MOV_A_C => 0x79,
        OpCode::MOV_A_D => 0x7a,
        OpCode::MOV_A_E => 0x7b,
        OpCode::MOV_A_H => 0x7c,
        OpCode::MOV_A_L => 0x7d,
        OpCode::MOV_A_M => 0x7e,
        OpCode::MOV_A_A => 0x7f,
        OpCode::ADD_B => 0x80,
        OpCode::ADD_C => 0x81,
        OpCode::ADD_D => 0x82,
        OpCode::ADD_E => 0x83,
        OpCode::ADD_H => 0x84,
        OpCode::ADD_L => 0x85,
        OpCode::ADD_M => 0x86,
        OpCode::ADD_A => 0x87,
        OpCode::ADC_B => 0x88,
        OpCode::ADC_C => 0x89,
        OpCode::ADC_D => 0x8a,
        OpCode::ADC_E => 0x8b,
        OpCode::ADC_H => 0x8c,
        OpCode::ADC_L => 0x8d,
        OpCode::ADC_M => 0x8e,
        OpCode::ADC_A => 0x8f,
        OpCode::SUB_B => 0x90,
        OpCode::SUB_C => 0x91,
        OpCode::SUB_D => 0x92,
        OpCode::SUB_E => 0x93,
        OpCode::SUB_H => 0x94,
        OpCode::SUB_L => 0x95,
        OpCode::SUB_M => 0x96,
        OpCode::SUB_A => 0x97,
        OpCode::SBB_B => 0x98,
        OpCode::SBB_C => 0x99,
        OpCode::SBB_D => 0x9a,
        OpCode::SBB_E => 0x9b,
        OpCode::SBB_H => 0x9c,
        OpCode::SBB_L => 0x9d,
        OpCode::SBB_M => 0x9e,
        OpCode::SBB_A => 0x9f,
        OpCode::ANA_B => 0xa0,
        OpCode::ANA_C => 0xa1,
        OpCode::ANA_D => 0xa2,
        OpCode::ANA_E => 0xa3,
        OpCode::ANA_H => 0xa4,
        OpCode::ANA_L => 0xa5,
        OpCode::ANA_M => 0xa6,
        OpCode::ANA_A => 0xa7,
        OpCode::XRA_B => 0xa8,
        OpCode::XRA_C => 0xa9,
        OpCode::XRA_D => 0xaa,
        OpCode::XRA_E => 0xab,
        OpCode::XRA_H => 0xac,
        OpCode::XRA_L => 0xad,
        OpCode::XRA_M => 0xae,
        OpCode::XRA_A => 0xaf,
        OpCode::ORA_B => 0xb0,
        OpCode::ORA_C => 0xb1,
        OpCode::ORA_D => 0xb2,
        OpCode::ORA_E => 0xb3,
        OpCode::ORA_H => 0xb4,
        OpCode::ORA_L => 0xb5,
        OpCode::ORA_M => 0xb6,
        OpCode::ORA_A => 0xb7,
        OpCode::CMP_B => 0xb8,
        OpCode::CMP_C => 0xb9,
        OpCode::CMP_D => 0xba,
        OpCode::CMP_E => 0xbb,
        OpCode::CMP_H => 0xbc,
        OpCode::CMP_L => 0xbd,
        OpCode::CMP_M => 0xbe,
        OpCode::CMP_A => 0xbf,
        OpCode::RNZ => 0xc0,
        OpCode::POP_B => 0xc1,
        OpCode::JNZ => 0xc2,
        OpCode::JMP => 0xc3,
        OpCode::CNZ => 0xc4,
        OpCode::PUSH_B => 0xc5,
        OpCode::ADI => 0xc6,
        OpCode::RST_0 => 0xc7,
        OpCode::RZ => 0xc8,
        OpCode::RET => 0xc9,
        OpCode::JZ => 0xca,
        OpCode::NOP_6 => 0xcb,
        OpCode::CZ => 0xcc,
        OpCode::CALL => 0xcd,
        OpCode::ACI => 0xce,
        OpCode::RST_1 => 0xcf,
        OpCode::RNC => 0xd0,
        OpCode::POP_D => 0xd1,
        OpCode::JNC => 0xd2,
        OpCode::OUT => 0xd3,
        OpCode::CNC => 0xd4,
        OpCode::PUSH_D => 0xd5,
        OpCode::SUI => 0xd6,
        OpCode::RST_2 => 0xd7,
        OpCode::RC => 0xd8,
        OpCode::NOP_7 => 0xd9,
        OpCode::JC => 0xda,
        OpCode::IN => 0xdb,
        OpCode::CC => 0xdc,
        OpCode::NOP_8 => 0xdd,
        OpCode::SBI => 0xde,
        OpCode::RST_3 => 0xdf,
        OpCode::RPO => 0xe0,
        OpCode::POP_H => 0xe1,
        OpCode::JPO => 0xe2,
        OpCode::XTHL => 0xe3,
        OpCode::CPO => 0xe4,
        OpCode::PUSH_H => 0xe5,
        OpCode::ANI => 0xe6,
        OpCode::RST_4 => 0xe7,
        OpCode::RPE => 0xe8,
        OpCode::PCHL => 0xe9,
        OpCode::JPE => 0xea,
        OpCode::XCHG => 0xeb,
        OpCode::CPE => 0xec,
        OpCode::NOP_9 => 0xed,
        OpCode::XRI => 0xee,
        OpCode::RST_5 => 0xef,
        OpCode::RP => 0xf0,
        OpCode::POP_PSW => 0xf1,
        OpCode::JP => 0xf2,
        OpCode::DI => 0xf3,
        OpCode::CP => 0xf4,
        OpCode::PUSH_PSW => 0xf5,
        OpCode::ORI => 0xf6,
        OpCode::RST_6 => 0xf7,
        OpCode::RM => 0xf8,
        OpCode::SPHL => 0xf9,
        OpCode::JM => 0xfa,
        OpCode::EI => 0xfb,
        OpCode::CM => 0xfc,
        OpCode::NOP_10 => 0xfd,
        OpCode::CPI => 0xfe,
        OpCode::RST_7 => 0xff,
    }
}

/// How many operand bytes follow the opcode byte: 0, 1 or 2.
pub open spec fn op_operands(op: OpCode) -> int {
    match op {
        OpCode::MVI_B => 1,
        OpCode::MVI_C => 1,
        OpCode::MVI_D => 1,
        OpCode::MVI_E => 1,
        OpCode::MVI_H => 1,
        OpCode::MVI_L => 1,
        OpCode::MVI_M => 1,
        OpCode::MVI_A => 1,
        OpCode::ADI => 1,
        OpCode::ACI => 1,
        OpCode::OUT => 1,
        OpCode::SUI => 1,
        OpCode::IN => 1,
        OpCode::SBI => 1,
        OpCode::ANI => 1,
        OpCode::XRI => 1,
        OpCode::ORI => 1,
        OpCode::CPI => 1,
        OpCode::LXI_B => 2,
        OpCode::LXI_D => 2,
        OpCode::LXI_H => 2,
        OpCode::SHLD => 2,
        OpCode::LHLD => 2,
        OpCode::LXI_SP => 2,
        OpCode::STA => 2,
        OpCode::LDA => 2,
        OpCode::JNZ => 2,
        OpCode::JMP => 2,
        OpCode::CNZ => 2,
        OpCode::JZ => 2,
        OpCode::CZ => 2,
        OpCode::CALL => 2,
        OpCode::JNC => 2,
        OpCode::CNC => 2,
        OpCode::JC => 2,
        OpCode::CC => 2,
        OpCode::JPO => 2,
        OpCode::CPO => 2,
        OpCode::JPE => 2,
        OpCode::CPE => 2,
        OpCode::JP => 2,
        OpCode::CP => 2,
        OpCode::JM => 2,
        OpCode::CM => 2,
        _ => 0,
    }
}

/// The structured instruction an opcode denotes, given the operand bytes
/// `b1` (first after the opcode) and `b2` (second after the opcode); the
/// bytes are ignored for opcodes with fewer operands.
pub open spec fn op_instr(op: OpCode, b1: u8, b2: u8) -> Instruction {
    match op {
        OpCode::NOP_0 => Instruction::NOP,
        OpCode::LXI_B => Instruction::LXI(Register::B, b1, b2),
        OpCode::STAX_B => Instruction::STAX(Register::B),
        OpCode::INX_B => Instruction::INX(Register::B),
        OpCode::INR_B => Instruction::INR(Register::B),
        OpCode::DCR_B => Instruction::DCR(Register::B),
        OpCode::MVI_B => Instruction::MVI(Register::B, b1),
        OpCode::RLC => Instruction::RLC,
        OpCode::NOP_1 => Instruction::NOP,
        OpCode::DAD_B => Instruction::DAD(Register::B),
        OpCode::LDAX_B => Instruction::LDAX(Register::B),
        OpCode::DCX_B => Instruction::DCX(Register::B),
        OpCode::INR_C => Instruction::INR(Register::C),
        OpCode::DCR_C => Instruction::DCR(Register::C),
        OpCode::MVI_C => Instruction::MVI(Register::C, b1),
        OpCode::RRC => Instruction::RRC,
        OpCode::NOP_2 => Instruction::NOP,
        OpCode::LXI_D => Instruction::LXI(Register::D, b1, b2),
        OpCode::STAX_D => Instruction::STAX(Register::D),
        OpCode::INX_D => Instruction::INX(Register::D),
        OpCode::INR_D => Instruction::INR(Register::D),
        OpCode::DCR_D => Instruction::DCR(Register::D),
        OpCode::MVI_D => Instruction::MVI(Register::D, b1),
        OpCode::RAL => Instruction::RAL,
        OpCode::NOP_3 => Instruction::NOP,
        OpCode::DAD_D => Instruction::DAD(Register::D),
        OpCode::LDAX_D => Instruction::LDAX(Register::D),
        OpCode::DCX_D => Instruction::DCX(Register::D),
        OpCode::INR_E => Instruction::INR(Register::E),
        OpCode::DCR_E => Instruction::DCR(Register::E),
        OpCode::MVI_E => Instruction::MVI(Register::E, b1),
        OpCode::RAR => Instruction::RAR,
        OpCode::RIM => Instruction::RIM,
        OpCode::LXI_H => Instruction::LXI(Register::H, b1, b2),
        OpCode::SHLD => Instruction::SHLD(b1, b2),
        OpCode::INX_H => Instruction::INX(Register::H),
        OpCode::INR_H => Instruction::INR(Register::H),
        OpCode::DCR_H => Instruction::DCR(Register::H),
        OpCode::MVI_H => Instruction::MVI(Register::H, b1),
        OpCode::DAA => Instruction::DAA,
        OpCode::NOP_4 => Instruction::NOP,
        OpCode::DAD_H => Instruction::DAD(Register::H),
        OpCode::LHLD => Instruction::LHLD(b1, b2),
        OpCode::DCX_H => Instruction::DCX(Register::H),
        OpCode::INR_L => Instruction::INR(Register::L),
        OpCode::DCR_L => Instruction::DCR(Register::L),
        OpCode::MVI_L => Instruction::MVI(Register::L, b1),
        OpCode::CMA => Instruction::CMA,
        OpCode::SIM => Instruction::SIM,
        OpCode::LXI_SP => Instruction::LXI(Register::SP, b1, b2),
        OpCode::STA => Instruction::STA(b1, b2),
        OpCode::INX_SP => Instruction::INX(Register::SP),
        OpCode::INR_M => Instruction::INR(Register::M),
        OpCode::DCR_M => Instruction::DCR(Register::M),
        OpCode::MVI_M => Instruction::MVI(Register::M, b1),
        OpCode::STC => Instruction::STC,
        OpCode::NOP_5 => Instruction::NOP,
        OpCode::DAD_SP => Instruction::DAD(Register::SP),
        OpCode::LDA => Instruction::LDA(b1, b2),
        OpCode::DCX_SP => Instruction::DCX(Register::SP),
        OpCode::INR_A => Instruction::INR(Register::A),
        OpCode::DCR_A => Instruction::DCR(Register::A),
        OpCode::MVI_A => Instruction::MVI(Register::A, b1),
        OpCode::CMC => Instruction::CMC,
        OpCode::MOV_B_B => Instruction::MOV(Register::B, Register::B),
        OpCode::MOV_B_C => Instruction::MOV(Register::B, Register::C),
        OpCode::MOV_B_D => Instruction::MOV(Register::B, Register::D),
        OpCode::MOV_B_E => Instruction::MOV(Register::B, Register::E),
        OpCode::MOV_B_H => Instruction::MOV(Register::B, Register::H),
        OpCode::MOV_B_L => Instruction::MOV(Register::B, Register::L),
        OpCode::MOV_B_M => Instruction::MOV(Register::B, Register::M),
        OpCode::MOV_B_A => Instruction::MOV(Register::B, Register::A),
        OpCode::MOV_C_B => Instruction::MOV(Register::C, Register::B),
        OpCode::MOV_C_C => Instruction::MOV(Register::C, Register::C),
        OpCode::MOV_C_D => Instruction::MOV(Register::C, Register::D),
        OpCode::MOV_C_E => Instruction::MOV(Register::C, Register::E),
        OpCode::MOV_C_H => Instruction::MOV(Register::C, Register::H),
        OpCode::MOV_C_L => Instruction::MOV(Register::C, Register::L),
        OpCode::MOV_C_M => Instruction::MOV(Register::C, Register::M),
        OpCode::MOV_C_A => Instruction::MOV(Register::C, Register::A),
        OpCode::MOV_D_B => Instruction::MOV(Register::D, Register::B),
        OpCode::MOV_D_C => Instruction::MOV(Register::D, Register::C),
        OpCode::MOV_D_D => Instruction::MOV(Register::D, Register::D),
        OpCode::MOV_D_E => Instruction::MOV(Register::D, Register::E),
        OpCode::MOV_D_H => Instruction::MOV(Register::D, Register::H),
        OpCode::MOV_D_L => Instruction::MOV(Register::D, Register::L),
        OpCode::MOV_D_M => Instruction::MOV(Register::D, Register::M),
        OpCode::MOV_D_A => Instruction::MOV(Register::D, Register::A),
        OpCode::MOV_E_B => Instruction::MOV(Register::E, Register::B),
        OpCode::MOV_E_C => Instruction::MOV(Register::E, Register::C),
        OpCode::MOV_E_D => Instruction::MOV(Register::E, Register::D),
        OpCode::MOV_E_E => Instruction::MOV(Register::E, Register::E),
        OpCode::MOV_E_H => Instruction::MOV(Register::E, Register::H),
        OpCode::MOV_E_L => Instruction::MOV(Register::E, Register::L),
        OpCode::MOV_E_M => Instruction::MOV(Register::E, Register::M),
        OpCode::MOV_E_A => Instruction::MOV(Register::E, Register::A),
        OpCode::MOV_H_B => Instruction::MOV(Register::H, Register::B),
        OpCode::MOV_H_C => Instruction::MOV(Register::H, Register::C),
        OpCode::MOV_H_D => Instruction::MOV(Register::H, Register::D),
        OpCode::MOV_H_E => Instruction::MOV(Register::H, Register::E),
        OpCode::MOV_H_H => Instruction::MOV(Register::H, Register::H),
        OpCode::MOV_H_L => Instruction::MOV(Register::H, Register::L),
        OpCode::MOV_H_M => Instruction::MOV(Register::H, Register::M),
        OpCode::MOV_H_A => Instruction::MOV(Register::H, Register::A),
        OpCode::MOV_L_B => Instruction::MOV(Register::L, Register::B),
        OpCode::MOV_L_C => Instruction::MOV(Register::L, Register::C),
        OpCode::MOV_L_D => Instruction::MOV(Register::L, Register::D),
        OpCode::MOV_L_E => Instruction::MOV(Register::L, Register::E),
        OpCode::MOV_L_H => Instruction::MOV(Register::L, Register::H),
        OpCode::MOV_L_L => Instruction::MOV(Register::L, Register::L),
        OpCode::MOV_L_M => Instruction::MOV(Register::L, Register::M),
        OpCode::MOV_L_A => Instruction::MOV(Register::L, Register::A),
        OpCode::MOV_M_B => Instruction::MOV(Register::M, Register::B),
        OpCode::MOV_M_C => Instruction::MOV(Register::M, Register::C),
        OpCode::MOV_M_D => Instruction::MOV(Register::M, Register::D),
        OpCode::MOV_M_E => Instruction::MOV(Register::M, Register::E),
        OpCode::MOV_M_H => Instruction::MOV(Register::M, Register::H),
        OpCode::MOV_M_L => Instruction::MOV(Register::M, Register::L),
        OpCode::MOV_M_A => Instruction::MOV(Register::M, Register::A),
        OpCode::MOV_A_B => Instruction::MOV(Register::A, Register::B),
        OpCode::MOV_A_C => Instruction::MOV(Register::A, Register::C),
        OpCode::MOV_A_D => Instruction::MOV(Register::A, Register::D),
        OpCode::MOV_A_E => Instruction::MOV(Register::A, Register::E),
        OpCode::MOV_A_H => Instruction::MOV(Register::A, Register::H),
        OpCode::MOV_A_L => Instruction::MOV(Register::A, Register::L),
        OpCode::MOV_A_M => Instruction::MOV(Register::A, Register::M),
        OpCode::MOV_A_A => Instruction::MOV(Register::A, Register::A),
        OpCode::ADD_B => Instruction::ADD(Register::B),
        OpCode::ADD_C => Instruction::ADD(Register::C),
        OpCode::ADD_D => Instruction::ADD(Register::D),
        OpCode::ADD_E => Instruction::ADD(Register::E),
        OpCode::ADD_H => Instruction::ADD(Register::H),
        OpCode::ADD_L => Instruction::ADD(Register::L),
        OpCode::ADD_M => Instruction::ADD(Register::M),
        OpCode::ADD_A => Instruction::ADD(Register::A),
        OpCode::ADC_B => Instruction::ADC(Register::B),
        OpCode::ADC_C => Instruction::ADC(Register::C),
        OpCode::ADC_D => Instruction::ADC(Register::D),
        OpCode::ADC_E => Instruction::ADC(Register::E),
        OpCode::ADC_H => Instruction::ADC(Register::H),
        OpCode::ADC_L => Instruction::ADC(Register::L),
        OpCode::ADC_M => Instruction::ADC(Register::M),
        OpCode::ADC_A => Instruction::ADC(Register::A),
        OpCode::SUB_B => Instruction::SUB(Register::B),
        OpCode::SUB_C => Instruction::SUB(Register::C),
        OpCode::SUB_D => Instruction::SUB(Register::D),
        OpCode::SUB_E => Instruction::SUB(Register::E),
        OpCode::SUB_H => Instruction::SUB(Register::H),
        OpCode::SUB_L => Instruction::SUB(Register::L),
        OpCode::SUB_M => Instruction::SUB(Register::M),
        OpCode::SUB_A => Instruction::SUB(Register::A),
        OpCode::SBB_B => Instruction::SBB(Register::B),
        OpCode::SBB_C => Instruction::SBB(Register::C),
        OpCode::SBB_D => Instruction::SBB(Register::D),
        OpCode::SBB_E => Instruction::SBB(Register::E),
        OpCode::SBB_H => Instruction::SBB(Register::H),
        OpCode::SBB_L => Instruction::SBB(Register::L),
        OpCode::SBB_M => Instruction::SBB(Register::M),
        OpCode::SBB_A => Instruction::SBB(Register::A),
        OpCode::ANA_B => Instruction::ANA(Register::B),
        OpCode::ANA_C => Instruction::ANA(Register::C),
        OpCode::ANA_D => Instruction::ANA(Register::D),
        OpCode::ANA_E => Instruction::ANA(Register::E),
        OpCode::ANA_H => Instruction::ANA(Register::H),
        OpCode::ANA_L => Instruction::ANA(Register::L),
        OpCode::ANA_M => Instruction::ANA(Register::M),
        OpCode::ANA_A => Instruction::ANA(Register::A),
        OpCode::XRA_B => Instruction::XRA(Register::B),
        OpCode::XRA_C => Instruction::XRA(Register::C),
        OpCode::XRA_D => Instruction::XRA(Register::D),
        OpCode::XRA_E => Instruction::XRA(Register::E),
        OpCode::XRA_H => Instruction::XRA(Register::H),
        OpCode::XRA_L => Instruction::XRA(Register::L),
        OpCode::XRA_M => Instruction::XRA(Register::M),
        OpCode::XRA_A => Instruction::XRA(Register::A),
        OpCode::ORA_B => Instruction::ORA(Register::B),
        OpCode::ORA_C => Instruction::ORA(Register::C),
        OpCode::ORA_D => Instruction::ORA(Register::D),
        OpCode::ORA_E => Instruction::ORA(Register::E),
        OpCode::ORA_H => Instruction::ORA(Register::H),
        OpCode::ORA_L => Instruction::ORA(Register::L),
        OpCode::ORA_M => Instruction::ORA(Register::M),
        OpCode::ORA_A => Instruction::ORA(Register::A),
        OpCode::CMP_B => Instruction::CMP(Register::B),
        OpCode::CMP_C => Instruction::CMP(Register::C),
        OpCode::CMP_D => Instruction::CMP(Register::D),
        OpCode::CMP_E => Instruction::CMP(Register::E),
        OpCode::CMP_H => Instruction::CMP(Register::H),
        OpCode::CMP_L => Instruction::CMP(Register::L),
        OpCode::CMP_M => Instruction::CMP(Register::M),
        OpCode::CMP_A => Instruction::CMP(Register::A),
        OpCode::RNZ => Instruction::RNZ,
        OpCode::POP_B => Instruction::POP(Register::B),
        OpCode::JNZ => Instruction::JNZ(b1, b2),
        OpCode::JMP => Instruction::JMP(b1, b2),
        OpCode::CNZ => Instruction::CNZ(b1, b2),
        OpCode::PUSH_B => Instruction::PUSH(Register::B),
        OpCode::ADI => Instruction::ADI(b1),
        OpCode::RST_0 => Instruction::RST,
        OpCode::RZ => Instruction::RZ,
        OpCode::RET => Instruction::RET,
        OpCode::JZ => Instruction::JZ(b1, b2),
        OpCode::NOP_6 => Instruction::NOP,
        OpCode::CZ => Instruction::CZ(b1, b2),
        OpCode::CALL => Instruction::CALL(b1, b2),
        OpCode::ACI => Instruction::ACI(b1),
        OpCode::RST_1 => Instruction::RST,
        OpCode::RNC => Instruction::RNC,
        OpCode::POP_D => Instruction::POP(Register::D),
        OpCode::JNC => Instruction::JNC(b1, b2),
        OpCode::OUT => Instruction::OUT(b1),
        OpCode::CNC => Instruction::CNC(b1, b2),
        OpCode::PUSH_D => Instruction::PUSH(Register::D),
        OpCode::SUI => Instruction::SUI(b1),
        OpCode::RST_2 => Instruction::RST,
        OpCode::RC => Instruction::RC,
        OpCode::NOP_7 => Instruction::NOP,
        OpCode::JC => Instruction::JC(b1, b2),
        OpCode::IN => Instruction::IN(b1),
        OpCode::CC => Instruction::CC(b1, b2),
        OpCode::NOP_8 => Instruction::NOP,
        OpCode::SBI => Instruction::SBI(b1),
        OpCode::RST_3 => Instruction::RST,
        OpCode::RPO => Instruction::RPO,
        OpCode::POP_H => Instruction::POP(Register::H),
        OpCode::JPO => Instruction::JPO(b1, b2),
        OpCode::XTHL => Instruction::XTHL,
        OpCode::CPO => Instruction::CPO(b1, b2),
        OpCode::PUSH_H => Instruction::PUSH(Register::H),
        OpCode::ANI => Instruction::ANI(b1),
        OpCode::RST_4 => Instruction::RST,
        OpCode::RPE => Instruction::RPE,
        OpCode::PCHL => Instruction::PCHL,
        OpCode::JPE => Instruction::JPE(b1, b2),
        OpCode::XCHG => Instruction::XCHG,
        OpCode::CPE => Instruction::CPE(b1, b2),
        OpCode::NOP_9 => Instruction::NOP,
        OpCode::XRI => Instruction::XRI(b1),
        OpCode::RST_5 => Instruction::RST,
        OpCode::RP => Instruction::RP,
        OpCode::POP_PSW => Instruction::POP(Register::PSW),
        OpCode::JP => Instruction::JP(b1, b2),
        OpCode::DI => Instruction::DI,
        OpCode::CP => Instruction::CP(b1, b2),
        OpCode::PUSH_PSW => Instruction::PUSH(Register::PSW),
        OpCode::ORI => Instruction::ORI(b1),
        OpCode::RST_6 => Instruction::RST,
        OpCode::RM => Instruction::RM,
        OpCode::SPHL => Instruction::SPHL,
        OpCode::JM => Instruction::JM(b1, b2),
        OpCode::EI => Instruction::EI,
        OpCode::CM => Instruction::CM(b1, b2),
        OpCode::NOP_10 => Instruction::NOP,
        OpCode::CPI => Instruction::CPI(b1),
        OpCode::RST_7 => Instruction::RST,
    }
}

impl OpCode {
    /// Maps a raw byte to its opcode; `None` for the one unmapped byte.
    pub fn from_u8(b: u8) -> (r: Option<OpCode>)
        ensures
            r == spec_from_u8(b),
    {
        match b {
            0x00 => Some(OpCode::NOP_0),
            0x01 => Some(OpCode::LXI_B),
            0x02 => Some(OpCode::STAX_B),
            0x03 => Some(OpCode::INX_B),
            0x04 => Some(OpCode::INR_B),
            0x05 => Some(OpCode::DCR_B),
            0x06 => Some(OpCode::MVI_B),
            0x07 => Some(OpCode::RLC),
            0x08 => Some(OpCode::NOP_1),
            0x09 => Some(OpCode::DAD_B),
            0x0a => Some(OpCode::LDAX_B),
            0x0b => Some(OpCode::DCX_B),
            0x0c => Some(OpCode::INR_C),
            0x0d => Some(OpCode::DCR_C),
            0x0e => Some(OpCode::MVI_C),
            0x0f => Some(OpCode::RRC),
            0x10 => Some(OpCode::NOP_2),
            0x11 => Some(OpCode::LXI_D),
            0x12 => Some(OpCode::STAX_D),
            0x13 => Some(OpCode::INX_D),
            0x14 => Some(OpCode::INR_D),
            0x15 => Some(OpCode::DCR_D),
            0x16 => Some(OpCode::MVI_D),
            0x17 => Some(OpCode::RAL),
            0x18 => Some(OpCode::NOP_3),
            0x19 => Some(OpCode::DAD_D),
            0x1a => Some(OpCode::LDAX_D),
            0x1b => Some(OpCode::DCX_D),
            0x1c => Some(OpCode::INR_E),
            0x1d => Some(OpCode::DCR_E),
            0x1e => Some(OpCode::MVI_E),
            0x1f => Some(OpCode::RAR),
            0x20 => Some(OpCode::RIM),
            0x21 => Some(OpCode::LXI_H),
            0x22 => Some(OpCode::SHLD),
            0x23 => Some(OpCode::INX_H),
            0x24 => Some(OpCode::INR_H),
            0x25 => Some(OpCode::DCR_H),
            0x26 => Some(OpCode::MVI_H),
            0x27 => Some(OpCode::DAA),
            0x28 => Some(OpCode::NOP_4),
            0x29 => Some(OpCode::DAD_H),
            0x2a => Some(OpCode::LHLD),
            0x2b => Some(OpCode::DCX_H),
            0x2c => Some(OpCode::INR_L),
            0x2d => Some(OpCode::DCR_L),
            0x2e => Some(OpCode::MVI_L),
            0x2f => Some(OpCode::CMA),
            0x30 => Some(OpCode::SIM),
            0x31 => Some(OpCode::LXI_SP),
            0x32 => Some(OpCode::STA),
            0x33 => Some(OpCode::INX_SP),
            0x34 => Some(OpCode::INR_M),
            0x35 => Some(OpCode::DCR_M),
            0x36 => Some(OpCode::MVI_M),
            0x37 => Some(OpCode::STC),
            0x38 => Some(OpCode::NOP_5),
            0x39 => Some(OpCode::DAD_SP),
            0x3a => Some(OpCode::LDA),
            0x3b => Some(OpCode::DCX_SP),
            0x3c => Some(OpCode::INR_A),
            0x3d => Some(OpCode::DCR_A),
            0x3e => Some(OpCode::MVI_A),
            0x3f => Some(OpCode::CMC),
            0x40 => Some(OpCode::MOV_B_B),
            0x41 => Some(OpCode::MOV_B_C),
            0x42 => Some(OpCode::MOV_B_D),
            0x43 => Some(OpCode::MOV_B_E),
            0x44 => Some(OpCode::MOV_B_H),
            0x45 => Some(OpCode::MOV_B_L),
            0x46 => Some(OpCode::MOV_B_M),
            0x47 => Some(OpCode::MOV_B_A),
            0x48 => Some(OpCode::MOV_C_B),
            0x49 => Some(OpCode::MOV_C_C),
            0x4a => Some(OpCode::MOV_C_D),
            0x4b => Some(OpCode::MOV_C_E),
            0x4c => Some(OpCode::MOV_C_H),
            0x4d => Some(OpCode::MOV_C_L),
            0x4e => Some(OpCode::MOV_C_M),
            0x4f => Some(OpCode::MOV_C_A),
            0x50 => Some(OpCode::MOV_D_B),
            0x51 => Some(OpCode::MOV_D_C),
            0x52 => Some(OpCode::MOV_D_D),
            0x53 => Some(OpCode::MOV_D_E),
            0x54 => Some(OpCode::MOV_D_H),
            0x55 => Some(OpCode::MOV_D_L),
            0x56 => Some(OpCode::MOV_D_M),
            0x57 => Some(OpCode::MOV_D_A),
            0x58 => Some(OpCode::MOV_E_B),
            0x59 => Some(OpCode::MOV_E_C),
            0x5a => Some(OpCode::MOV_E_D),
            0x5b => Some(OpCode::MOV_E_E),
            0x5c => Some(OpCode::MOV_E_H),
            0x5d => Some(OpCode::MOV_E_L),
            0x5e => Some(OpCode::MOV_E_M),
            0x5f => Some(OpCode::MOV_E_A),
            0x60 => Some(OpCode::MOV_H_B),
            0x61 => Some(OpCode::MOV_H_C),
            0x62 => Some(OpCode::MOV_H_D),
            0x63 => Some(OpCode::MOV_H_E),
            0x64 => Some(OpCode::MOV_H_H),
            0x65 => Some(OpCode::MOV_H_L),
            0x66 => Some(OpCode::MOV_H_M),
            0x67 => Some(OpCode::MOV_H_A),
            0x68 => Some(OpCode::MOV_L_B),
            0x69 => Some(OpCode::MOV_L_C),
            0x6a => Some(OpCode::MOV_L_D),
            0x6b => Some(OpCode::MOV_L_E),
            0x6c => Some(OpCode::MOV_L_H),
            0x6d => Some(OpCode::MOV_L_L),
            0x6e => Some(OpCode::MOV_L_M),
            0x6f => Some(OpCode::MOV_L_A),
            0x70 => Some(OpCode::MOV_M_B),
            0x71 => Some(OpCode::MOV_M_C),
            0x72 => Some(OpCode::MOV_M_D),
            0x73 => Some(OpCode::MOV_M_E),
            0x74 => Some(OpCode::MOV_M_H),
            0x75 => Some(OpCode::MOV_M_L),
            0x76 => None,
            0x77 => Some(OpCode::MOV_M_A),
            0x78 => Some(OpCode::MOV_A_B),
            0x79 => Some(OpCode::MOV_A_C),
            0x7a => Some(OpCode::MOV_A_D),
            0x7b => Some(OpCode::MOV_A_E),
            0x7c => Some(OpCode::MOV_A_H),
            0x7d => Some(OpCode::MOV_A_L),
            0x7e => Some(OpCode::MOV_A_M),
            0x7f => Some(OpCode::MOV_A_A),
            0x80 => Some(OpCode::ADD_B),
            0x81 => Some(OpCode::ADD_C),
            0x82 => Some(OpCode::ADD_D),
            0x83 => Some(OpCode::ADD_E),
            0x84 => Some(OpCode::ADD_H),
            0x85 => Some(OpCode::ADD_L),
            0x86 => Some(OpCode::ADD_M),
            0x87 => Some(OpCode::ADD_A),
            0x88 => Some(OpCode::ADC_B),
            0x89 => Some(OpCode::ADC_C),
            0x8a => Some(OpCode::ADC_D),
            0x8b => Some(OpCode::ADC_E),
            0x8c => Some(OpCode::ADC_H),
            0x8d => Some(OpCode::ADC_L),
            0x8e => Some(OpCode::ADC_M),
            0x8f => Some(OpCode::ADC_A),
            0x90 => Some(OpCode::SUB_B),
            0x91 => Some(OpCode::SUB_C),
            0x92 => Some(OpCode::SUB_D),
            0x93 => Some(OpCode::SUB_E),
            0x94 => Some(OpCode::SUB_H),
            0x95 => Some(OpCode::SUB_L),
            0x96 => Some(OpCode::SUB_M),
            0x97 => Some(OpCode::SUB_A),
            0x98 => Some(OpCode::SBB_B),
            0x99 => Some(OpCode::SBB_C),
            0x9a => Some(OpCode::SBB_D),
            0x9b => Some(OpCode::SBB_E),
            0x9c => Some(OpCode::SBB_H),
            0x9d => Some(OpCode::SBB_L),
            0x9e => Some(OpCode::SBB_M),
            0x9f => Some(OpCode::SBB_A),
            0xa0 => Some(OpCode::ANA_B),
            0xa1 => Some(OpCode::ANA_C),
            0xa2 => Some(OpCode::ANA_D),
            0xa3 => Some(OpCode::ANA_E),
            0xa4 => Some(OpCode::ANA_H),
            0xa5 => Some(OpCode::ANA_L),
            0xa6 => Some(OpCode::ANA_M),
            0xa7 => Some(OpCode::ANA_A),
            0xa8 => Some(OpCode::XRA_B),
            0xa9 => Some(OpCode::XRA_C),
            0xaa => Some(OpCode::XRA_D),
            0xab => Some(OpCode::XRA_E),
            0xac => Some(OpCode::XRA_H),
            0xad => Some(OpCode::XRA_L),
            0xae => Some(OpCode::XRA_M),
            0xaf => Some(OpCode::XRA_A),
            0xb0 => Some(OpCode::ORA_B),
            0xb1 => Some(OpCode::ORA_C),
            0xb2 => Some(OpCode::ORA_D),
            0xb3 => Some(OpCode::ORA_E),
            0xb4 => Some(OpCode::ORA_H),
            0xb5 => Some(OpCode::ORA_L),
            0xb6 => Some(OpCode::ORA_M),
            0xb7 => Some(OpCode::ORA_A),
            0xb8 => Some(OpCode::CMP_B),
            0xb9 => Some(OpCode::CMP_C),
            0xba => Some(OpCode::CMP_D),
            0xbb => Some(OpCode::CMP_E),
            0xbc => Some(OpCode::CMP_H),
            0xbd => Some(OpCode::CMP_L),
            0xbe => Some(OpCode::CMP_M),
            0xbf => Some(OpCode::CMP_A),
            0xc0 => Some(OpCode::RNZ),
            0xc1 => Some(OpCode::POP_B),
            0xc2 => Some(OpCode::JNZ),
            0xc3 => Some(OpCode::JMP),
            0xc4 => Some(OpCode::CNZ),
            0xc5 => Some(OpCode::PUSH_B),
            0xc6 => Some(OpCode::ADI),
            0xc7 => Some(OpCode::RST_0),
            0xc8 => Some(OpCode::RZ),
            0xc9 => Some(OpCode::RET),
            0xca => Some(OpCode::JZ),
            0xcb => Some(OpCode::NOP_6),
            0xcc => Some(OpCode::CZ),
            0xcd => Some(OpCode::CALL),
            0xce => Some(OpCode::ACI),
            0xcf => Some(OpCode::RST_1),
            0xd0 => Some(OpCode::RNC),
            0xd1 => Some(OpCode::POP_D),
            0xd2 => Some(OpCode::JNC),
            0xd3 => Some(OpCode::OUT),
            0xd4 => Some(OpCode::CNC),
            0xd5 => Some(OpCode::PUSH_D),
            0xd6 => Some(OpCode::SUI),
            0xd7 => Some(OpCode::RST_2),
            0xd8 => Some(OpCode::RC),
            0xd9 => Some(OpCode::NOP_7),
            0xda => Some(OpCode::JC),
            0xdb => Some(OpCode::IN),
            0xdc => Some(OpCode::CC),
            0xdd => Some(OpCode::NOP_8),
            0xde => Some(OpCode::SBI),
            0xdf => Some(OpCode::RST_3),
            0xe0 => Some(OpCode::RPO),
            0xe1 => Some(OpCode::POP_H),
            0xe2 => Some(OpCode::JPO),
            0xe3 => Some(OpCode::XTHL),
            0xe4 => Some(OpCode::CPO),
            0xe5 => Some(OpCode::PUSH_H),
            0xe6 => Some(OpCode::ANI),
            0xe7 => Some(OpCode::RST_4),
            0xe8 => Some(OpCode::RPE),
            0xe9 => Some(OpCode::PCHL),
            0xea => Some(OpCode::JPE),
            0xeb => Some(OpCode::XCHG),
            0xec => Some(OpCode::CPE),
            0xed => Some(OpCode::NOP_9),
            0xee => Some(OpCode::XRI),
            0xef => Some(OpCode::RST_5),
            0xf0 => Some(OpCode::RP),
            0xf1 => Some(OpCode::POP_PSW),
            0xf2 => Some(OpCode::JP),
            0xf3 => Some(OpCode::DI),
            0xf4 => Some(OpCode::CP),
            0xf5 => Some(OpCode::PUSH_PSW),
            0xf6 => Some(OpCode::ORI),
            0xf7 => Some(OpCode::RST_6),
            0xf8 => Some(OpCode::RM),
            0xf9 => Some(OpCode::SPHL),
            0xfa => Some(OpCode::JM),
            0xfb => Some(OpCode::EI),
            0xfc => Some(OpCode::CM),
            0xfd => Some(OpCode::NOP_10),
            0xfe => Some(OpCode::CPI),
            0xff => Some(OpCode::RST_7),
        }
    }

    /// The unique byte value this opcode occupies in the opcode table.
    pub fn byte(self) -> (r: u8)
        ensures
            r == spec_byte(self),
    {
        match self {
            OpCode::NOP_0 => 0x00,
            OpCode::LXI_B => 0x01,
            OpCode::STAX_B => 0x02,
            OpCode::INX_B => 0x03,
            OpCode::INR_B => 0x04,
            OpCode::DCR_B => 0x05,
            OpCode::MVI_B => 0x06,
            OpCode::RLC => 0x07,
            OpCode::NOP_1 => 0x08,
            OpCode::DAD_B => 0x09,
            OpCode::LDAX_B => 0x0a,
            OpCode::DCX_B => 0x0b,
            OpCode::INR_C => 0x0c,
            OpCode::DCR_C => 0x0d,
            OpCode::MVI_C => 0x0e,
            OpCode::RRC => 0x0f,
            OpCode::NOP_2 => 0x10,
            OpCode::LXI_D => 0x11,
            OpCode::STAX_D => 0x12,
            OpCode::INX_D => 0x13,
            OpCode::INR_D => 0x14,
            OpCode::DCR_D => 0x15,
            OpCode::MVI_D => 0x16,
            OpCode::RAL => 0x17,
            OpCode::NOP_3 => 0x18,
            OpCode::DAD_D => 0x19,
            OpCode::LDAX_D => 0x1a,
            OpCode::DCX_D => 0x1b,
            OpCode::INR_E => 0x1c,
            OpCode::DCR_E => 0x1d,
            OpCode::MVI_E => 0x1e,
            OpCode::RAR => 0x1f,
            OpCode::RIM => 0x20,
            OpCode::LXI_H => 0x21,
            OpCode::SHLD => 0x22,
            OpCode::INX_H => 0x23,
            OpCode::INR_H => 0x24,
            OpCode::DCR_H => 0x25,
            OpCode::MVI_H => 0x26,
            OpCode::DAA => 0x27,
            OpCode::NOP_4 => 0x28,
            OpCode::DAD_H => 0x29,
            OpCode::LHLD => 0x2a,
            OpCode::DCX_H => 0x2b,
            OpCode::INR_L => 0x2c,
            OpCode::DCR_L => 0x2d,
            OpCode::MVI_L => 0x2e,
            OpCode::CMA => 0x2f,
            OpCode::SIM => 0x30,
            OpCode::LXI_SP => 0x31,
            OpCode::STA => 0x32,
            OpCode::INX_SP => 0x33,
            OpCode::INR_M => 0x34,
            OpCode::DCR_M => 0x35,
            OpCode::MVI_M => 0x36,
            OpCode::STC => 0x37,
            OpCode::NOP_5 => 0x38,
            OpCode::DAD_SP => 0x39,
            OpCode::LDA => 0x3a,
            OpCode::DCX_SP => 0x3b,
            OpCode::INR_A => 0x3c,
            OpCode::DCR_A => 0x3d,
            OpCode::MVI_A => 0x3e,
            OpCode::CMC => 0x3f,
            OpCode::MOV_B_B => 0x40,
            OpCode::MOV_B_C => 0x41,
            OpCode::MOV_B_D => 0x42,
            OpCode::MOV_B_E => 0x43,
            OpCode::MOV_B_H => 0x44,
            OpCode::MOV_B_L => 0x45,
            OpCode::MOV_B_M => 0x46,
            OpCode::MOV_B_A => 0x47,
            OpCode::MOV_C_B => 0x48,
            OpCode::MOV_C_C => 0x49,
            OpCode::MOV_C_D => 0x4a,
            OpCode::MOV_C_E => 0x4b,
            OpCode::MOV_C_H => 0x4c,
            OpCode::MOV_C_L => 0x4d,
            OpCode::MOV_C_M => 0x4e,
            OpCode::MOV_C_A => 0x4f,
            OpCode::MOV_D_B => 0x50,
            OpCode::MOV_D_C => 0x51,
            OpCode::MOV_D_D => 0x52,
            OpCode::MOV_D_E => 0x53,
            OpCode::MOV_D_H => 0x54,
            OpCode::MOV_D_L => 0x55,
            OpCode::MOV_D_M => 0x56,
            OpCode::MOV_D_A => 0x57,
            OpCode::MOV_E_B => 0x58,
            OpCode::MOV_E_C => 0x59,
            OpCode::MOV_E_D => 0x5a,
            OpCode::MOV_E_E => 0x5b,
            OpCode::MOV_E_H => 0x5c,
            OpCode::MOV_E_L => 0x5d,
            OpCode::MOV_E_M => 0x5e,
            OpCode::MOV_E_A => 0x5f,
            OpCode::MOV_H_B => 0x60,
            OpCode::MOV_H_C => 0x61,
            OpCode::MOV_H_D => 0x62,
            OpCode::MOV_H_E => 0x63,
            OpCode::MOV_H_H => 0x64,
            OpCode::MOV_H_L => 0x65,
            OpCode::MOV_H_M => 0x66,
            OpCode::MOV_H_A => 0x67,
            OpCode::MOV_L_B => 0x68,
            OpCode::MOV_L_C => 0x69,
            OpCode::MOV_L_D => 0x6a,
            OpCode::MOV_L_E => 0x6b,
            OpCode::MOV_L_H => 0x6c,
            OpCode::MOV_L_L => 0x6d,
            OpCode::MOV_L_M => 0x6e,
            OpCode::MOV_L_A => 0x6f,
            OpCode::MOV_M_B => 0x70,
            OpCode::MOV_M_C => 0x71,
            OpCode::MOV_M_D => 0x72,
            OpCode::MOV_M_E => 0x73,
            OpCode::MOV_M_H => 0x74,
            OpCode::MOV_M_L => 0x75,
            OpCode::MOV_M_A => 0x77,
            OpCode::MOV_A_B => 0x78,
            OpCode::MOV_A_C => 0x79,
            OpCode::MOV_A_D => 0x7a,
            OpCode::MOV_A_E => 0x7b,
            OpCode::MOV_A_H => 0x7c,
            OpCode::MOV_A_L => 0x7d,
            OpCode::MOV_A_M => 0x7e,
            OpCode::MOV_A_A => 0x7f,
            OpCode::ADD_B => 0x80,
            OpCode::ADD_C => 0x81,
            OpCode::ADD_D => 0x82,
            OpCode::ADD_E => 0x83,
            OpCode::ADD_H => 0x84,
            OpCode::ADD_L => 0x85,
            OpCode::ADD_M => 0x86,
            OpCode::ADD_A => 0x87,
            OpCode::ADC_B => 0x88,
            OpCode::ADC_C => 0x89,
            OpCode::ADC_D => 0x8a,
            OpCode::ADC_E => 0x8b,
            OpCode::ADC_H => 0x8c,
            OpCode::ADC_L => 0x8d,
            OpCode::ADC_M => 0x8e,
            OpCode::ADC_A => 0x8f,
            OpCode::SUB_B => 0x90,
            OpCode::SUB_C => 0x91,
            OpCode::SUB_D => 0x92,
            OpCode::SUB_E => 0x93,
            OpCode::SUB_H => 0x94,
            OpCode::SUB_L => 0x95,
            OpCode::SUB_M => 0x96,
            OpCode::SUB_A => 0x97,
            OpCode::SBB_B => 0x98,
            OpCode::SBB_C => 0x99,
            OpCode::SBB_D => 0x9a,
            OpCode::SBB_E => 0x9b,
            OpCode::SBB_H => 0x9c,
            OpCode::SBB_L => 0x9d,
            OpCode::SBB_M => 0x9e,
            OpCode::SBB_A => 0x9f,
            OpCode::ANA_B => 0xa0,
            OpCode::ANA_C => 0xa1,
            OpCode::ANA_D => 0xa2,
            OpCode::ANA_E => 0xa3,
            OpCode::ANA_H => 0xa4,
            OpCode::ANA_L => 0xa5,
            OpCode::ANA_M => 0xa6,
            OpCode::ANA_A => 0xa7,
            OpCode::XRA_B => 0xa8,
            OpCode::XRA_C => 0xa9,
            OpCode::XRA_D => 0xaa,
            OpCode::XRA_E => 0xab,
            OpCode::XRA_H => 0xac,
            OpCode::XRA_L => 0xad,
            OpCode::XRA_M => 0xae,
            OpCode::XRA_A => 0xaf,
            OpCode::ORA_B => 0xb0,
            OpCode::ORA_C => 0xb1,
            OpCode::ORA_D => 0xb2,
            OpCode::ORA_E => 0xb3,
            OpCode::ORA_H => 0xb4,
            OpCode::ORA_L => 0xb5,
            OpCode::ORA_M => 0xb6,
            OpCode::ORA_A => 0xb7,
            OpCode::CMP_B => 0xb8,
            OpCode::CMP_C => 0xb9,
            OpCode::CMP_D => 0xba,
            OpCode::CMP_E => 0xbb,
            OpCode::CMP_H => 0xbc,
            OpCode::CMP_L => 0xbd,
            OpCode::CMP_M => 0xbe,
            OpCode::CMP_A => 0xbf,
            OpCode::RNZ => 0xc0,
            OpCode::POP_B => 0xc1,
            OpCode::JNZ => 0xc2,
            OpCode::JMP => 0xc3,
            OpCode::CNZ => 0xc4,
            OpCode::PUSH_B => 0xc5,
            OpCode::ADI => 0xc6,
            OpCode::RST_0 => 0xc7,
            OpCode::RZ => 0xc8,
            OpCode::RET => 0xc9,
            OpCode::JZ => 0xca,
            OpCode::NOP_6 => 0xcb,
            OpCode::CZ => 0xcc,
            OpCode::CALL => 0xcd,
            OpCode::ACI => 0xce,
            OpCode::RST_1 => 0xcf,
            OpCode::RNC => 0xd0,
            OpCode::POP_D => 0xd1,
            OpCode::JNC => 0xd2,
            OpCode::OUT => 0xd3,
            OpCode::CNC => 0xd4,
            OpCode::PUSH_D => 0xd5,
            OpCode::SUI => 0xd6,
            OpCode::RST_2 => 0xd7,
            OpCode::RC => 0xd8,
            OpCode::NOP_7 => 0xd9,
            OpCode::JC => 0xda,
            OpCode::IN => 0xdb,
            OpCode::CC => 0xdc,
            OpCode::NOP_8 => 0xdd,
            OpCode::SBI => 0xde,
            OpCode::RST_3 => 0xdf,
            OpCode::RPO => 0xe0,
            OpCode::POP_H => 0xe1,
            OpCode::JPO => 0xe2,
            OpCode::XTHL => 0xe3,
            OpCode::CPO => 0xe4,
            OpCode::PUSH_H => 0xe5,
            OpCode::ANI => 0xe6,
            OpCode::RST_4 => 0xe7,
            OpCode::RPE => 0xe8,
            OpCode::PCHL => 0xe9,
            OpCode::JPE => 0xea,
            OpCode::XCHG => 0xeb,
            OpCode::CPE => 0xec,
            OpCode::NOP_9 => 0xed,
            OpCode::XRI => 0xee,
            OpCode::RST_5 => 0xef,
            OpCode::RP => 0xf0,
            OpCode::POP_PSW => 0xf1,
            OpCode::JP => 0xf2,
            OpCode::DI => 0xf3,
            OpCode::CP => 0xf4,
            OpCode::PUSH_PSW => 0xf5,
            OpCode::ORI => 0xf6,
            OpCode::RST_6 => 0xf7,
            OpCode::RM => 0xf8,
            OpCode::SPHL => 0xf9,
            OpCode::JM => 0xfa,
            OpCode::EI => 0xfb,
            OpCode::CM => 0xfc,
            OpCode::NOP_10 => 0xfd,
            OpCode::CPI => 0xfe,
            OpCode::RST_7 => 0xff,
        }
    }
}


impl OpCode {
    /// How many operand bytes follow this opcode: 0, 1 or 2.
    pub fn operand_count(self) -> (r: u16)
        ensures
            r == op_operands(self),
    {
        match self {
            OpCode::MVI_B => 1,
            OpCode::MVI_C => 1,
            OpCode::MVI_D => 1,
            OpCode::MVI_E => 1,
            OpCode::MVI_H => 1,
            OpCode::MVI_L => 1,
            OpCode::MVI_M => 1,
            OpCode::MVI_A => 1,
            OpCode::ADI => 1,
            OpCode::ACI => 1,
            OpCode::OUT => 1,
            OpCode::SUI => 1,
            OpCode::IN => 1,
            OpCode::SBI => 1,
            OpCode::ANI => 1,
            OpCode::XRI => 1,
            OpCode::ORI => 1,
            OpCode::CPI => 1,
            OpCode::LXI_B => 2,
            OpCode::LXI_D => 2,
            OpCode::LXI_H => 2,
            OpCode::SHLD => 2,
            OpCode::LHLD => 2,
            OpCode::LXI_SP => 2,
            OpCode::STA => 2,
            OpCode::LDA => 2,
            OpCode::JNZ => 2,
            OpCode::JMP => 2,
            OpCode::CNZ => 2,
            OpCode::JZ => 2,
            OpCode::CZ => 2,
            OpCode::CALL => 2,
            OpCode::JNC => 2,
            OpCode::CNC => 2,
            OpCode::JC => 2,
            OpCode::CC => 2,
            OpCode::JPO => 2,
            OpCode::CPO => 2,
            OpCode::JPE => 2,
            OpCode::CPE => 2,
            OpCode::JP => 2,
            OpCode::CP => 2,
            OpCode::JM => 2,
            OpCode::CM => 2,
            _ => 0,
        }
    }

    /// The structured instruction this opcode denotes, given its operand
    /// bytes.
    pub fn instr(self, b1: u8, b2: u8) -> (r: Instruction)
        ensures
            r == op_instr(self, b1, b2),
    {
        match self {
            OpCode::NOP_0 => Instruction::NOP,
            OpCode::LXI_B => Instruction::LXI(Register::B, b1, b2),
            OpCode::STAX_B => Instruction::STAX(Register::B),
            OpCode::INX_B => Instruction::INX(Register::B),
            OpCode::INR_B => Instruction::INR(Register::B),
            OpCode::DCR_B => Instruction::DCR(Register::B),
            OpCode::MVI_B => Instruction::MVI(Register::B, b1),
            OpCode::RLC => Instruction::RLC,
            OpCode::NOP_1 => Instruction::NOP,
            OpCode::DAD_B => Instruction::DAD(Register::B),
            OpCode::LDAX_B => Instruction::LDAX(Register::B),
            OpCode::DCX_B => Instruction::DCX(Register::B),
            OpCode::INR_C => Instruction::INR(Register::C),
            OpCode::DCR_C => Instruction::DCR(Register::C),
            OpCode::MVI_C => Instruction::MVI(Register::C, b1),
            OpCode::RRC => Instruction::RRC,
            OpCode::NOP_2 => Instruction::NOP,
            OpCode::LXI_D => Instruction::LXI(Register::D, b1, b2),
            OpCode::STAX_D => Instruction::STAX(Register::D),
            OpCode::INX_D => Instruction::INX(Register::D),
            OpCode::INR_D => Instruction::INR(Register::D),
            OpCode::DCR_D => Instruction::DCR(Register::D),
            OpCode::MVI_D => Instruction::MVI(Register::D, b1),
            OpCode::RAL => Instruction::RAL,
            OpCode::NOP_3 => Instruction::NOP,
            OpCode::DAD_D => Instruction::DAD(Register::D),
            OpCode::LDAX_D => Instruction::LDAX(Register::D),
            OpCode::DCX_D => Instruction::DCX(Register::D),
            OpCode::INR_E => Instruction::INR(Register::E),
            OpCode::DCR_E => Instruction::DCR(Register::E),
            OpCode::MVI_E => Instruction::MVI(Register::E, b1),
            OpCode::RAR => Instruction::RAR,
            OpCode::RIM => Instruction::RIM,
            OpCode::LXI_H => Instruction::LXI(Register::H, b1, b2),
            OpCode::SHLD => Instruction::SHLD(b1, b2),
            OpCode::INX_H => Instruction::INX(Register::H),
            OpCode::INR_H => Instruction::INR(Register::H),
            OpCode::DCR_H => Instruction::DCR(Register::H),
            OpCode::MVI_H => Instruction::MVI(Register::H, b1),
            OpCode::DAA => Instruction::DAA,
            OpCode::NOP_4 => Instruction::NOP,
            OpCode::DAD_H => Instruction::DAD(Register::H),
            OpCode::LHLD => Instruction::LHLD(b1, b2),
            OpCode::DCX_H => Instruction::DCX(Register::H),
            OpCode::INR_L => Instruction::INR(Register::L),
            OpCode::DCR_L => Instruction::DCR(Register::L),
            OpCode::MVI_L => Instruction::MVI(Register::L, b1),
            OpCode::CMA => Instruction::CMA,
            OpCode::SIM => Instruction::SIM,
            OpCode::LXI_SP => Instruction::LXI(Register::SP, b1, b2),
            OpCode::STA => Instruction::STA(b1, b2),
            OpCode::INX_SP => Instruction::INX(Register::SP),
            OpCode::INR_M => Instruction::INR(Register::M),
            OpCode::DCR_M => Instruction::DCR(Register::M),
            OpCode::MVI_M => Instruction::MVI(Register::M, b1),
            OpCode::STC => Instruction::STC,
            OpCode::NOP_5 => Instruction::NOP,
            OpCode::DAD_SP => Instruction::DAD(Register::SP),
            OpCode::LDA => Instruction::LDA(b1, b2),
            OpCode::DCX_SP => Instruction::DCX(Register::SP),
            OpCode::INR_A => Instruction::INR(Register::A),
            OpCode::DCR_A => Instruction::DCR(Register::A),
            OpCode::MVI_A => Instruction::MVI(Register::A, b1),
            OpCode::CMC => Instruction::CMC,
            OpCode::MOV_B_B => Instruction::MOV(Register::B, Register::B),
            OpCode::MOV_B_C => Instruction::MOV(Register::B, Register::C),
            OpCode::MOV_B_D => Instruction::MOV(Register::B, Register::D),
            OpCode::MOV_B_E => Instruction::MOV(Register::B, Register::E),
            OpCode::MOV_B_H => Instruction::MOV(Register::B, Register::H),
            OpCode::MOV_B_L => Instruction::MOV(Register::B, Register::L),
            OpCode::MOV_B_M => Instruction::MOV(Register::B, Register::M),
            OpCode::MOV_B_A => Instruction::MOV(Register::B, Register::A),
            OpCode::MOV_C_B => Instruction::MOV(Register::C, Register::B),
            OpCode::MOV_C_C => Instruction::MOV(Register::C, Register::C),
            OpCode::MOV_C_D => Instruction::MOV(Register::C, Register::D),
            OpCode::MOV_C_E => Instruction::MOV(Register::C, Register::E),
            OpCode::MOV_C_H => Instruction::MOV(Register::C, Register::H),
            OpCode::MOV_C_L => Instruction::MOV(Register::C, Register::L),
            OpCode::MOV_C_M => Instruction::MOV(Register::C, Register::M),
            OpCode::MOV_C_A => Instruction::MOV(Register::C, Register::A),
            OpCode::MOV_D_B => Instruction::MOV(Register::D, Register::B),
            OpCode::MOV_D_C => Instruction::MOV(Register::D, Register::C),
            OpCode::MOV_D_D => Instruction::MOV(Register::D, Register::D),
            OpCode::MOV_D_E => Instruction::MOV(Register::D, Register::E),
            OpCode::MOV_D_H => Instruction::MOV(Register::D, Register::H),
            OpCode::MOV_D_L => Instruction::MOV(Register::D, Register::L),
            OpCode::MOV_D_M => Instruction::MOV(Register::D, Register::M),
            OpCode::MOV_D_A => Instruction::MOV(Register::D, Register::A),
            OpCode::MOV_E_B => Instruction::MOV(Register::E, Register::B),
            OpCode::MOV_E_C => Instruction::MOV(Register::E, Register::C),
            OpCode::MOV_E_D => Instruction::MOV(Register::E, Register::D),
            OpCode::MOV_E_E => Instruction::MOV(Register::E, Register::E),
            OpCode::MOV_E_H => Instruction::MOV(Register::E, Register::H),
            OpCode::MOV_E_L => Instruction::MOV(Register::E, Register::L),
            OpCode::MOV_E_M => Instruction::MOV(Register::E, Register::M),
            OpCode::MOV_E_A => Instruction::MOV(Register::E, Register::A),
            OpCode::MOV_H_B => Instruction::MOV(Register::H, Register::B),
            OpCode::MOV_H_C => Instruction::MOV(Register::H, Register::C),
            OpCode::MOV_H_D => Instruction::MOV(Register::H, Register::D),
            OpCode::MOV_H_E => Instruction::MOV(Register::H, Register::E),
            OpCode::MOV_H_H => Instruction::MOV(Register::H, Register::H),
            OpCode::MOV_H_L => Instruction::MOV(Register::H, Register::L),
            OpCode::MOV_H_M => Instruction::MOV(Register::H, Register::M),
            OpCode::MOV_H_A => Instruction::MOV(Register::H, Register::A),
            OpCode::MOV_L_B => Instruction::MOV(Register::L, Register::B),
            OpCode::MOV_L_C => Instruction::MOV(Register::L, Register::C),
            OpCode::MOV_L_D => Instruction::MOV(Register::L, Register::D),
            OpCode::MOV_L_E => Instruction::MOV(Register::L, Register::E),
            OpCode::MOV_L_H => Instruction::MOV(Register::L, Register::H),
            OpCode::MOV_L_L => Instruction::MOV(Register::L, Register::L),
            OpCode::MOV_L_M => Instruction::MOV(Register::L, Register::M),
            OpCode::MOV_L_A => Instruction::MOV(Register::L, Register::A),
            OpCode::MOV_M_B => Instruction::MOV(Register::M, Register::B),
            OpCode::MOV_M_C => Instruction::MOV(Register::M, Register::C),
            OpCode::MOV_M_D => Instruction::MOV(Register::M, Register::D),
            OpCode::MOV_M_E => Instruction::MOV(Register::M, Register::E),
            OpCode::MOV_M_H => Instruction::MOV(Register::M, Register::H),
            OpCode::MOV_M_L => Instruction::MOV(Register::M, Register::L),
            OpCode::MOV_M_A => Instruction::MOV(Register::M, Register::A),
            OpCode::MOV_A_B => Instruction::MOV(Register::A, Register::B),
            OpCode::MOV_A_C => Instruction::MOV(Register::A, Register::C),
            OpCode::MOV_A_D => Instruction::MOV(Register::A, Register::D),
            OpCode::MOV_A_E => Instruction::MOV(Register::A, Register::E),
            OpCode::MOV_A_H => Instruction::MOV(Register::A, Register::H),
            OpCode::MOV_A_L => Instruction::MOV(Register::A, Register::L),
            OpCode::MOV_A_M => Instruction::MOV(Register::A, Register::M),
            OpCode::MOV_A_A => Instruction::MOV(Register::A, Register::A),
            OpCode::ADD_B => Instruction::ADD(Register::B),
            OpCode::ADD_C => Instruction::ADD(Register::C),
            OpCode::ADD_D => Instruction::ADD(Register::D),
            OpCode::ADD_E => Instruction::ADD(Register::E),
            OpCode::ADD_H => Instruction::ADD(Register::H),
            OpCode::ADD_L => Instruction::ADD(Register::L),
            OpCode::ADD_M => Instruction::ADD(Register::M),
            OpCode::ADD_A => Instruction::ADD(Register::A),
            OpCode::ADC_B => Instruction::ADC(Register::B),
            OpCode::ADC_C => Instruction::ADC(Register::C),
            OpCode::ADC_D => Instruction::ADC(Register::D),
            OpCode::ADC_E => Instruction::ADC(Register::E),
            OpCode::ADC_H => Instruction::ADC(Register::H),
            OpCode::ADC_L => Instruction::ADC(Register::L),
            OpCode::ADC_M => Instruction::ADC(Register::M),
            OpCode::ADC_A => Instruction::ADC(Register::A),
            OpCode::SUB_B => Instruction::SUB(Register::B),
            OpCode::SUB_C => Instruction::SUB(Register::C),
            OpCode::SUB_D => Instruction::SUB(Register::D),
            OpCode::SUB_E => Instruction::SUB(Register::E),
            OpCode::SUB_H => Instruction::SUB(Register::H),
            OpCode::SUB_L => Instruction::SUB(Register::L),
            OpCode::SUB_M => Instruction::SUB(Register::M),
            OpCode::SUB_A => Instruction::SUB(Register::A),
            OpCode::SBB_B => Instruction::SBB(Register::B),
            OpCode::SBB_C => Instruction::SBB(Register::C),
            OpCode::SBB_D => Instruction::SBB(Register::D),
            OpCode::SBB_E => Instruction::SBB(Register::E),
            OpCode::SBB_H => Instruction::SBB(Register::H),
            OpCode::SBB_L => Instruction::SBB(Register::L),
            OpCode::SBB_M => Instruction::SBB(Register::M),
            OpCode::SBB_A => Instruction::SBB(Register::A),
            OpCode::ANA_B => Instruction::ANA(Register::B),
            OpCode::ANA_C => Instruction::ANA(Register::C),
            OpCode::ANA_D => Instruction::ANA(Register::D),
            OpCode::ANA_E => Instruction::ANA(Register::E),
            OpCode::ANA_H => Instruction::ANA(Register::H),
            OpCode::ANA_L => Instruction::ANA(Register::L),
            OpCode::ANA_M => Instruction::ANA(Register::M),
            OpCode::ANA_A => Instruction::ANA(Register::A),
            OpCode::XRA_B => Instruction::XRA(Register::B),
            OpCode::XRA_C => Instruction::XRA(Register::C),
            OpCode::XRA_D => Instruction::XRA(Register::D),
            OpCode::XRA_E => Instruction::XRA(Register::E),
            OpCode::XRA_H => Instruction::XRA(Register::H),
            OpCode::XRA_L => Instruction::XRA(Register::L),
            OpCode::XRA_M => Instruction::XRA(Register::M),
            OpCode::XRA_A => Instruction::XRA(Register::A),
            OpCode::ORA_B => Instruction::ORA(Register::B),
            OpCode::ORA_C => Instruction::ORA(Register::C),
            OpCode::ORA_D => Instruction::ORA(Register::D),
            OpCode::ORA_E => Instruction::ORA(Register::E),
            OpCode::ORA_H => Instruction::ORA(Register::H),
            OpCode::ORA_L => Instruction::ORA(Register::L),
            OpCode::ORA_M => Instruction::ORA(Register::M),
            OpCode::ORA_A => Instruction::ORA(Register::A),
            OpCode::CMP_B => Instruction::CMP(Register::B),
            OpCode::CMP_C => Instruction::CMP(Register::C),
            OpCode::CMP_D => Instruction::CMP(Register::D),
            OpCode::CMP_E => Instruction::CMP(Register::E),
            OpCode::CMP_H => Instruction::CMP(Register::H),
            OpCode::CMP_L => Instruction::CMP(Register::L),
            OpCode::CMP_M => Instruction::CMP(Register::M),
            OpCode::CMP_A => Instruction::CMP(Register::A),
            OpCode::RNZ => Instruction::RNZ,
            OpCode::POP_B => Instruction::POP(Register::B),
            OpCode::JNZ => Instruction::JNZ(b1, b2),
            OpCode::JMP => Instruction::JMP(b1, b2),
            OpCode::CNZ => Instruction::CNZ(b1, b2),
            OpCode::PUSH_B => Instruction::PUSH(Register::B),
            OpCode::ADI => Instruction::ADI(b1),
            OpCode::RST_0 => Instruction::RST,
            OpCode::RZ => Instruction::RZ,
            OpCode::RET => Instruction::RET,
            OpCode::JZ => Instruction::JZ(b1, b2),
            OpCode::NOP_6 => Instruction::NOP,
            OpCode::CZ => Instruction::CZ(b1, b2),
            OpCode::CALL => Instruction::CALL(b1, b2),
            OpCode::ACI => Instruction::ACI(b1),
            OpCode::RST_1 => Instruction::RST,
            OpCode::RNC => Instruction::RNC,
            OpCode::POP_D => Instruction::POP(Register::D),
            OpCode::JNC => Instruction::JNC(b1, b2),
            OpCode::OUT => Instruction::OUT(b1),
            OpCode::CNC => Instruction::CNC(b1, b2),
            OpCode::PUSH_D => Instruction::PUSH(Register::D),
            OpCode::SUI => Instruction::SUI(b1),
            OpCode::RST_2 => Instruction::RST,
            OpCode::RC => Instruction::RC,
            OpCode::NOP_7 => Instruction::NOP,
            OpCode::JC => Instruction::JC(b1, b2),
            OpCode::IN => Instruction::IN(b1),
            OpCode::CC => Instruction::CC(b1, b2),
            OpCode::NOP_8 => Instruction::NOP,
            OpCode::SBI => Instruction::SBI(b1),
            OpCode::RST_3 => Instruction::RST,
            OpCode::RPO => Instruction::RPO,
            OpCode::POP_H => Instruction::POP(Register::H),
            OpCode::JPO => Instruction::JPO(b1, b2),
            OpCode::XTHL => Instruction::XTHL,
            OpCode::CPO => Instruction::CPO(b1, b2),
            OpCode::PUSH_H => Instruction::PUSH(Register::H),
            OpCode::ANI => Instruction::ANI(b1),
            OpCode::RST_4 => Instruction::RST,
            OpCode::RPE => Instruction::RPE,
            OpCode::PCHL => Instruction::PCHL,
            OpCode::JPE => Instruction::JPE(b1, b2),
            OpCode::XCHG => Instruction::XCHG,
            OpCode::CPE => Instruction::CPE(b1, b2),
            OpCode::NOP_9 => Instruction::NOP,
            OpCode::XRI => Instruction::XRI(b1),
            OpCode::RST_5 => Instruction::RST,
            OpCode::RP => Instruction::RP,
            OpCode::POP_PSW => Instruction::POP(Register::PSW),
            OpCode::JP => Instruction::JP(b1, b2),
            OpCode::DI => Instruction::DI,
            OpCode::CP => Instruction::CP(b1, b2),
            OpCode::PUSH_PSW => Instruction::PUSH(Register::PSW),
            OpCode::ORI => Instruction::ORI(b1),
            OpCode::RST_6 => Instruction::RST,
            OpCode::RM => Instruction::RM,
            OpCode::SPHL => Instruction::SPHL,
            OpCode::JM => Instruction::JM(b1, b2),
            OpCode::EI => Instruction::EI,
            OpCode::CM => Instruction::CM(b1, b2),
            OpCode::NOP_10 => Instruction::NOP,
            OpCode::CPI => Instruction::CPI(b1),
            OpCode::RST_7 => Instruction::RST,
        }
    }
}


/// True of an instruction every one of whose operands the opcode table
/// can express: the register selectors are limited to the sets the
/// encoding supports.
pub open spec fn wf_instruction(i: Instruction) -> bool {
    match i {
        Instruction::MOV(d, s) => (d == Register::B || d == Register::C || d == Register::D || d == Register::E || d == Register::H || d == Register::L || d == Register::M || d == Register::A) && (s == Register::B || s == Register::C || s == Register::D || s == Register::E || s == Register::H || s == Register::L || s == Register::M || s == Register::A) && !(d == Register::M && s == Register::M),
        Instruction::ADD(r) => (r == Register::B || r == Register::C || r == Register::D || r == Register::E || r == Register::H || r == Register::L || r == Register::M || r == Register::A),
        Instruction::ADC(r) => (r == Register::B || r == Register::C || r == Register::D || r == Register::E || r == Register::H || r == Register::L || r == Register::M || r == Register::A),
        Instruction::SUB(r) => (r == Register::B || r == Register::C || r == Register::D || r == Register::E || r == Register::H || r == Register::L || r == Register::M || r == Register::A),
        Instruction::SBB(r) => (r == Register::B || r == Register::C || r == Register::D || r == Register::E || r == Register::H || r == Register::L || r == Register::M || r == Register::A),
        Instruction::ANA(r) => (r == Register::B || r == Register::C || r == Register::D || r == Register::E || r == Register::H || r == Register::L || r == Register::M || r == Register::A),
        Instruction::XRA(r) => (r == Register::B || r == Register::C || r == Register::D || r == Register::E || r == Register::H || r == Register::L || r == Register::M || r == Register::A),
        Instruction::ORA(r) => (r == Register::B || r == Register::C || r == Register::D || r == Register::E || r == Register::H || r == Register::L || r == Register::M || r == Register::A),
        Instruction::CMP(r) => (r == Register::B || r == Register::C || r == Register::D || r == Register::E || r == Register::H || r == Register::L || r == Register::M || r == Register::A),
        Instruction::INR(r) => (r == Register::B || r == Register::C || r == Register::D || r == Register::E || r == Register::H || r == Register::L || r == Register::M || r == Register::A),
        Instruction::DCR(r) => (r == Register::B || r == Register::C || r == Register::D || r == Register::E || r == Register::H || r == Register::L || r == Register::M || r == Register::A),
        Instruction::INX(r) => (r == Register::B || r == Register::D || r == Register::H || r == Register::SP),
        Instruction::DCX(r) => (r == Register::B || r == Register::D || r == Register::H || r == Register::SP),
        Instruction::DAD(r) => (r == Register::B || r == Register::D || r == Register::H || r == Register::SP),
        Instruction::LXI(r, _, _) => (r == Register::B || r == Register::D || r == Register::H || r == Register::SP),
        Instruction::PUSH(r) => (r == Register::B || r == Register::D || r == Register::H || r == Register::PSW),
        Instruction::POP(r) => (r == Register::B || r == Register::D || r == Register::H || r == Register::PSW),
        Instruction::LDAX(r) => (r == Register::B || r == Register::D),
        Instruction::STAX(r) => (r == Register::B || r == Register::D),
        Instruction::MVI(r, _) => (r == Register::B || r == Register::C || r == Register::D || r == Register::E || r == Register::H || r == Register::L || r == Register::M || r == Register::A),
        _ => true,
    }
}

/// The canonical opcode of an instruction: for the aliased families the
/// lowest byte value.
pub open spec fn opcode_of(i: Instruction) -> OpCode {
    match i {
        Instruction::NOP => OpCode::NOP_0,
        Instruction::RST => OpCode::RST_0,
        Instruction::EI => OpCode::EI,
        Instruction::DI => OpCode::DI,
        Instruction::RET => OpCode::RET,
        Instruction::RLC => OpCode::RLC,
        Instruction::RRC => OpCode::RRC,
        Instruction::RAL => OpCode::RAL,
        Instruction::RAR => OpCode::RAR,
        Instruction::CMA => OpCode::CMA,
        Instruction::CMC => OpCode::CMC,
        Instruction::STC => OpCode::STC,
        Instruction::DAA => OpCode::DAA,
        Instruction::RIM => OpCode::RIM,
        Instruction::SIM => OpCode::SIM,
        Instruction::XCHG => OpCode::XCHG,
        Instruction::XTHL => OpCode::XTHL,
        Instruction::SPHL => OpCode::SPHL,
        Instruction::PCHL => OpCode::PCHL,
        Instruction::RZ => OpCode::RZ,
        Instruction::RNZ => OpCode::RNZ,
        Instruction::RC => OpCode::RC,
        Instruction::RNC => OpCode::RNC,
        Instruction::RP => OpCode::RP,
        Instruction::RM => OpCode::RM,
        Instruction::RPE => OpCode::RPE,
        Instruction::RPO => OpCode::RPO,
        Instruction::MOV(d, s) => match d {
            Register::B => match s {
                Register::B => OpCode::MOV_B_B,
                Register::C => OpCode::MOV_B_C,
                Register::D => OpCode::MOV_B_D,
                Register::E => OpCode::MOV_B_E,
                Register::H => OpCode::MOV_B_H,
                Register::L => OpCode::MOV_B_L,
                Register::M => OpCode::MOV_B_M,
                Register::A => OpCode::MOV_B_A,
                _ => OpCode::NOP_0,
            },
            Register::C => match s {
                Register::B => OpCode::MOV_C_B,
                Register::C => OpCode::MOV_C_C,
                Register::D => OpCode::MOV_C_D,
                Register::E => OpCode::MOV_C_E,
                Register::H => OpCode::MOV_C_H,
                Register::L => OpCode::MOV_C_L,
                Register::M => OpCode::MOV_C_M,
                Register::A => OpCode::MOV_C_A,
                _ => OpCode::NOP_0,
            },
            Register::D => match s {
                Register::B => OpCode::MOV_D_B,
                Register::C => OpCode::MOV_D_C,
                Register::D => OpCode::MOV_D_D,
                Register::E => OpCode::MOV_D_E,
                Register::H => OpCode::MOV_D_H,
                Register::L => OpCode::MOV_D_L,
                Register::M => OpCode::MOV_D_M,
                Register::A => OpCode::MOV_D_A,
                _ => OpCode::NOP_0,
            },
            Register::E => match s {
                Register::B => OpCode::MOV_E_B,
                Register::C => OpCode::MOV_E_C,
                Register::D => OpCode::MOV_E_D,
                Register::E => OpCode::MOV_E_E,
                Register::H => OpCode::MOV_E_H,
                Register::L => OpCode::MOV_E_L,
                Register::M => OpCode::MOV_E_M,
                Register::A => OpCode::MOV_E_A,
                _ => OpCode::NOP_0,
            },
            Register::H => match s {
                Register::B => OpCode::MOV_H_B,
                Register::C => OpCode::MOV_H_C,
                Register::D => OpCode::MOV_H_D,
                Register::E => OpCode::MOV_H_E,
                Register::H => OpCode::MOV_H_H,
                Register::L => OpCode::MOV_H_L,
                Register::M => OpCode::MOV_H_M,
                Register::A => OpCode::MOV_H_A,
                _ => OpCode::NOP_0,
            },
            Register::L => match s {
                Register::B => OpCode::MOV_L_B,
                Register::C => OpCode::MOV_L_C,
                Register::D => OpCode::MOV_L_D,
                Register::E => OpCode::MOV_L_E,
                Register::H => OpCode::MOV_L_H,
                Register::L => OpCode::MOV_L_L,
                Register::M => OpCode::MOV_L_M,
                Register::A => OpCode::MOV_L_A,
                _ => OpCode::NOP_0,
            },
            Register::M => match s {
                Register::B => OpCode::MOV_M_B,
                Register::C => OpCode::MOV_M_C,
                Register::D => OpCode::MOV_M_D,
                Register::E => OpCode::MOV_M_E,
                Register::H => OpCode::MOV_M_H,
                Register::L => OpCode::MOV_M_L,
                Register::A => OpCode::MOV_M_A,
                _ => OpCode::NOP_0,
            },
            Register::A => match s {
                Register::B => OpCode::MOV_A_B,
                Register::C => OpCode::MOV_A_C,
                Register::D => OpCode::MOV_A_D,
                Register::E => OpCode::MOV_A_E,
                Register::H => OpCode::MOV_A_H,
                Register::L => OpCode::MOV_A_L,
                Register::M => OpCode::MOV_A_M,
                Register::A => OpCode::MOV_A_A,
                _ => OpCode::NOP_0,
            },
            _ => OpCode::NOP_0,
        },
        Instruction::ADD(r) => match r {
            Register::B => OpCode::ADD_B,
            Register::C => OpCode::ADD_C,
            Register::D => OpCode::ADD_D,
            Register::E => OpCode::ADD_E,
            Register::H => OpCode::ADD_H,
            Register::L => OpCode::ADD_L,
            Register::M => OpCode::ADD_M,
            Register::A => OpCode::ADD_A,
            _ => OpCode::NOP_0,
        },
        Instruction::ADC(r) => match r {
            Register::B => OpCode::ADC_B,
            Register::C => OpCode::ADC_C,
            Register::D => OpCode::ADC_D,
            Register::E => OpCode::ADC_E,
            Register::H => OpCode::ADC_H,
            Register::L => OpCode::ADC_L,
            Register::M => OpCode::ADC_M,
            Register::A => OpCode::ADC_A,
            _ => OpCode::NOP_0,
        },
        Instruction::SUB(r) => match r {
            Register::B => OpCode::SUB_B,
            Register::C => OpCode::SUB_C,
            Register::D => OpCode::SUB_D,
            Register::E => OpCode::SUB_E,
            Register::H => OpCode::SUB_H,
            Register::L => OpCode::SUB_L,
            Register::M => OpCode::SUB_M,
            Register::A => OpCode::SUB_A,
            _ => OpCode::NOP_0,
        },
        Instruction::SBB(r) => match r {
            Register::B => OpCode::SBB_B,
            Register::C => OpCode::SBB_C,
            Register::D => OpCode::SBB_D,
            Register::E => OpCode::SBB_E,
            Register::H => OpCode::SBB_H,
            Register::L => OpCode::SBB_L,
            Register::M => OpCode::SBB_M,
            Register::A => OpCode::SBB_A,
            _ => OpCode::NOP_0,
        },
        Instruction::ANA(r) => match r {
            Register::B => OpCode::ANA_B,
            Register::C => OpCode::ANA_C,
            Register::D => OpCode::ANA_D,
            Register::E => OpCode::ANA_E,
            Register::H => OpCode::ANA_H,
            Register::L => OpCode::ANA_L,
            Register::M => OpCode::ANA_M,
            Register::A => OpCode::ANA_A,
            _ => OpCode::NOP_0,
        },
        Instruction::XRA(r) => match r {
            Register::B => OpCode::XRA_B,
            Register::C => OpCode::XRA_C,
            Register::D => OpCode::XRA_D,
            Register::E => OpCode::XRA_E,
            Register::H => OpCode::XRA_H,
            Register::L => OpCode::XRA_L,
            Register::M => OpCode::XRA_M,
            Register::A => OpCode::XRA_A,
            _ => OpCode::NOP_0,
        },
        Instruction::ORA(r) => match r {
            Register::B => OpCode::ORA_B,
            Register::C => OpCode::ORA_C,
            Register::D => OpCode::ORA_D,
            Register::E => OpCode::ORA_E,
            Register::H => OpCode::ORA_H,
            Register::L => OpCode::ORA_L,
            Register::M => OpCode::ORA_M,
            Register::A => OpCode::ORA_A,
            _ => OpCode::NOP_0,
        },
        Instruction::CMP(r) => match r {
            Register::B => OpCode::CMP_B,
            Register::C => OpCode::CMP_C,
            Register::D => OpCode::CMP_D,
            Register::E => OpCode::CMP_E,
            Register::H => OpCode::CMP_H,
            Register::L => OpCode::CMP_L,
            Register::M => OpCode::CMP_M,
            Register::A => OpCode::CMP_A,
            _ => OpCode::NOP_0,
        },
        Instruction::INR(r) => match r {
            Register::B => OpCode::INR_B,
            Register::C => OpCode::INR_C,
            Register::D => OpCode::INR_D,
            Register::E => OpCode::INR_E,
            Register::H => OpCode::INR_H,
            Register::L => OpCode::INR_L,
            Register::M => OpCode::INR_M,
            Register::A => OpCode::INR_A,
            _ => OpCode::NOP_0,
        },
        Instruction::DCR(r) => match r {
            Register::B => OpCode::DCR_B,
            Register::C => OpCode::DCR_C,
            Register::D => OpCode::DCR_D,
            Register::E => OpCode::DCR_E,
            Register::H => OpCode::DCR_H,
            Register::L => OpCode::DCR_L,
            Register::M => OpCode::DCR_M,
            Register::A => OpCode::DCR_A,
            _ => OpCode::NOP_0,
        },
        Instruction::INX(r) => match r {
            Register::B => OpCode::INX_B,
            Register::D => OpCode::INX_D,
            Register::H => OpCode::INX_H,
            Register::SP => OpCode::INX_SP,
            _ => OpCode::NOP_0,
        },
        Instruction::DCX(r) => match r {
            Register::B => OpCode::DCX_B,
            Register::D => OpCode::DCX_D,
            Register::H => OpCode::DCX_H,
            Register::SP => OpCode::DCX_SP,
            _ => OpCode::NOP_0,
        },
        Instruction::DAD(r) => match r {
            Register::B => OpCode::DAD_B,
            Register::D => OpCode::DAD_D,
            Register::H => OpCode::DAD_H,
            Register::SP => OpCode::DAD_SP,
            _ => OpCode::NOP_0,
        },
        Instruction::PUSH(r) => match r {
            Register::B => OpCode::PUSH_B,
            Register::D => OpCode::PUSH_D,
            Register::H => OpCode::PUSH_H,
            Register::PSW => OpCode::PUSH_PSW,
            _ => OpCode::NOP_0,
        },
        Instruction::POP(r) => match r {
            Register::B => OpCode::POP_B,
            Register::D => OpCode::POP_D,
            Register::H => OpCode::POP_H,
            Register::PSW => OpCode::POP_PSW,
            _ => OpCode::NOP_0,
        },
        Instruction::LDAX(r) => match r {
            Register::B => OpCode::LDAX_B,
            Register::D => OpCode::LDAX_D,
            _ => OpCode::NOP_0,
        },
        Instruction::STAX(r) => match r {
            Register::B => OpCode::STAX_B,
            Register::D => OpCode::STAX_D,
            _ => OpCode::NOP_0,
        },
        Instruction::LXI(r, _, _) => match r {
            Register::B => OpCode::LXI_B,
            Register::D => OpCode::LXI_D,
            Register::H => OpCode::LXI_H,
            Register::SP => OpCode::LXI_SP,
            _ => OpCode::NOP_0,
        },
        Instruction::MVI(r, _) => match r {
            Register::B => OpCode::MVI_B,
            Register::C => OpCode::MVI_C,
            Register::D => OpCode::MVI_D,
            Register::E => OpCode::MVI_E,
            Register::H => OpCode::MVI_H,
            Register::L => OpCode::MVI_L,
            Register::M => OpCode::MVI_M,
            Register::A => OpCode::MVI_A,
            _ => OpCode::NOP_0,
        },
        Instruction::ADI(_) => OpCode::ADI,
        Instruction::ACI(_) => OpCode::ACI,
        Instruction::SUI(_) => OpCode::SUI,
        Instruction::SBI(_) => OpCode::SBI,
        Instruction::ANI(_) => OpCode::ANI,
        Instruction::ORI(_) => OpCode::ORI,
        Instruction::XRI(_) => OpCode::XRI,
        Instruction::CPI(_) => OpCode::CPI,
        Instruction::IN(_) => OpCode::IN,
        Instruction::OUT(_) => OpCode::OUT,
        Instruction::JMP(_, _) => OpCode::JMP,
        Instruction::JZ(_, _) => OpCode::JZ,
        Instruction::JNZ(_, _) => OpCode::JNZ,
        Instruction::JC(_, _) => OpCode::JC,
        Instruction::JNC(_, _) => OpCode::JNC,
        Instruction::JP(_, _) => OpCode::JP,
        Instruction::JM(_, _) => OpCode::JM,
        Instruction::JPE(_, _) => OpCode::JPE,
        Instruction::JPO(_, _) => OpCode::JPO,
        Instruction::CALL(_, _) => OpCode::CALL,
        Instruction::CZ(_, _) => OpCode::CZ,
        Instruction::CNZ(_, _) => OpCode::CNZ,
        Instruction::CC(_, _) => OpCode::CC,
        Instruction::CNC(_, _) => OpCode::CNC,
        Instruction::CP(_, _) => OpCode::CP,
        Instruction::CM(_, _) => OpCode::CM,
        Instruction::CPE(_, _) => OpCode::CPE,
        Instruction::CPO(_, _) => OpCode::CPO,
        Instruction::LDA(_, _) => OpCode::LDA,
        Instruction::STA(_, _) => OpCode::STA,
        Instruction::LHLD(_, _) => OpCode::LHLD,
        Instruction::SHLD(_, _) => OpCode::SHLD,
    }
}

/// The byte sequence that encodes an instruction: the canonical opcode
/// byte followed by the operand bytes, low byte first.
pub open spec fn encode(i: Instruction) -> Seq<u8> {
    match i {
        Instruction::MVI(r, b) => seq![spec_byte(opcode_of(i)), b],
        Instruction::ADI(b) => seq![spec_byte(opcode_of(i)), b],
        Instruction::ACI(b) => seq![spec_byte(opcode_of(i)), b],
        Instruction::SUI(b) => seq![spec_byte(opcode_of(i)), b],
        Instruction::SBI(b) => seq![spec_byte(opcode_of(i)), b],
        Instruction::ANI(b) => seq![spec_byte(opcode_of(i)), b],
        Instruction::ORI(b) => seq![spec_byte(opcode_of(i)), b],
        Instruction::XRI(b) => seq![spec_byte(opcode_of(i)), b],
        Instruction::CPI(b) => seq![spec_byte(opcode_of(i)), b],
        Instruction::IN(b) => seq![spec_byte(opcode_of(i)), b],
        Instruction::OUT(b) => seq![spec_byte(opcode_of(i)), b],
        Instruction::LXI(r, b1, b2) => seq![spec_byte(opcode_of(i)), b1, b2],
        Instruction::JMP(b1, b2) => seq![spec_byte(opcode_of(i)), b1, b2],
        Instruction::JZ(b1, b2) => seq![spec_byte(opcode_of(i)), b1, b2],
        Instruction::JNZ(b1, b2) => seq![spec_byte(opcode_of(i)), b1, b2],
        Instruction::JC(b1, b2) => seq![spec_byte(opcode_of(i)), b1, b2],
        Instruction::JNC(b1, b2) => seq![spec_byte(opcode_of(i)), b1, b2],
        Instruction::JP(b1, b2) => seq![spec_byte(opcode_of(i)), b1, b2],
        Instruction::JM(b1, b2) => seq![spec_byte(opcode_of(i)), b1, b2],
        Instruction::JPE(b1, b2) => seq![spec_byte(opcode_of(i)), b1, b2],
        Instruction::JPO(b1, b2) => seq![spec_byte(opcode_of(i)), b1, b2],
        Instruction::CALL(b1, b2) => seq![spec_byte(opcode_of(i)), b1, b2],
        Instruction::CZ(b1, b2) => seq![spec_byte(opcode_of(i)), b1, b2],
        Instruction::CNZ(b1, b2) => seq![spec_byte(opcode_of(i)), b1, b2],
        Instruction::CC(b1, b2) => seq![spec_byte(opcode_of(i)), b1, b2],
        Instruction::CNC(b1, b2) => seq![spec_byte(opcode_of(i)), b1, b2],
        Instruction::CP(b1, b2) => seq![spec_byte(opcode_of(i)), b1, b2],
        Instruction::CM(b1, b2) => seq![spec_byte(opcode_of(i)), b1, b2],
        Instruction::CPE(b1, b2) => seq![spec_byte(opcode_of(i)), b1, b2],
        Instruction::CPO(b1, b2) => seq![spec_byte(opcode_of(i)), b1, b2],
        Instruction::LDA(b1, b2) => seq![spec_byte(opcode_of(i)), b1, b2],
        Instruction::STA(b1, b2) => seq![spec_byte(opcode_of(i)), b1, b2],
        Instruction::LHLD(b1, b2) => seq![spec_byte(opcode_of(i)), b1, b2],
        Instruction::SHLD(b1, b2) => seq![spec_byte(opcode_of(i)), b1, b2],
        _ => seq![spec_byte(opcode_of(i))],
    }
}

/// Encodes an instruction as the byte sequence the decoder accepts.
pub fn encode_instruction(i: Instruction) -> (r: Vec<u8>)
    requires
        wf_instruction(i),
    ensures
        r@ == encode(i),
{
    let op = opcode_of_exec(i);
    let mut v: Vec<u8> = Vec::new();
    v.push(op.byte());
    match i {
        Instruction::MVI(_, b) | Instruction::ADI(b) | Instruction::ACI(b) | Instruction::SUI(b)
            | Instruction::SBI(b) | Instruction::ANI(b) | Instruction::ORI(b)
            | Instruction::XRI(b) | Instruction::CPI(b) | Instruction::IN(b)
            | Instruction::OUT(b) => {
            v.push(b);
        },
        Instruction::LXI(_, b1, b2) | Instruction::JMP(b1, b2) | Instruction::JZ(b1, b2)
            | Instruction::JNZ(b1, b2) | Instruction::JC(b1, b2) | Instruction::JNC(b1, b2)
            | Instruction::JP(b1, b2) | Instruction::JM(b1, b2) | Instruction::JPE(b1, b2)
            | Instruction::JPO(b1, b2) | Instruction::CALL(b1, b2) | Instruction::CZ(b1, b2)
            | Instruction::CNZ(b1, b2) | Instruction::CC(b1, b2) | Instruction::CNC(b1, b2)
            | Instruction::CP(b1, b2) | Instruction::CM(b1, b2) | Instruction::CPE(b1, b2)
            | Instruction::CPO(b1, b2) | Instruction::LDA(b1, b2) | Instruction::STA(b1, b2)
            | Instruction::LHLD(b1, b2) | Instruction::SHLD(b1, b2) => {
            v.push(b1);
            v.push(b2);
        },
        _ => (),
    }
    proof {
        assert(v@ =~= encode(i));
    }
    v
}

/// The canonical opcode of an instruction.
#[verifier::spinoff_prover]
#[verifier::rlimit(100)]
pub fn opcode_of_exec(i: Instruction) -> (r: OpCode)
    ensures
        r == opcode_of(i),
{
    match i {

        Instruction::NOP => OpCode::NOP_0,
        Instruction::RST => OpCode::RST_0,
        Instruction::EI => OpCode::EI,
        Instruction::DI => OpCode::DI,
        Instruction::RET => OpCode::RET,
        Instruction::RLC => OpCode::RLC,
        Instruction::RRC => OpCode::RRC,
        Instruction::RAL => OpCode::RAL,
        Instruction::RAR => OpCode::RAR,
        Instruction::CMA => OpCode::CMA,
        Instruction::CMC => OpCode::CMC,
        Instruction::STC => OpCode::STC,
        Instruction::DAA => OpCode::DAA,
        Instruction::RIM => OpCode::RIM,
        Instruction::SIM => OpCode::SIM,
        Instruction::XCHG => OpCode::XCHG,
        Instruction::XTHL => OpCode::XTHL,
        Instruction::SPHL => OpCode::SPHL,
        Instruction::PCHL => OpCode::PCHL,
        Instruction::RZ => OpCode::RZ,
        Instruction::RNZ => OpCode::RNZ,
        Instruction::RC => OpCode::RC,
        Instruction::RNC => OpCode::RNC,
        Instruction::RP => OpCode::RP,
        Instruction::RM => OpCode::RM,
        Instruction::RPE => OpCode::RPE,
        Instruction::RPO => OpCode::RPO,
        Instruction::MOV(d, s) => match d {
            Register::B => match s {
                Register::B => OpCode::MOV_B_B,
                Register::C => OpCode::MOV_B_C,
                Register::D => OpCode::MOV_B_D,
                Register::E => OpCode::MOV_B_E,
                Register::H => OpCode::MOV_B_H,
                Register::L => OpCode::MOV_B_L,
                Register::M => OpCode::MOV_B_M,
                Register::A => OpCode::MOV_B_A,
                _ => OpCode::NOP_0,
            },
            Register::C => match s {
                Register::B => OpCode::MOV_C_B,
                Register::C => OpCode::MOV_C_C,
                Register::D => OpCode::MOV_C_D,
                Register::E => OpCode::MOV_C_E,
                Register::H => OpCode::MOV_C_H,
                Register::L => OpCode::MOV_C_L,
                Register::M => OpCode::MOV_C_M,
                Register::A => OpCode::MOV_C_A,
                _ => OpCode::NOP_0,
            },
            Register::D => match s {
                Register::B => OpCode::MOV_D_B,
                Register::C => OpCode::MOV_D_C,
                Register::D => OpCode::MOV_D_D,
                Register::E => OpCode::MOV_D_E,
                Register::H => OpCode::MOV_D_H,
                Register::L => OpCode::MOV_D_L,
                Register::M => OpCode::MOV_D_M,
                Register::A => OpCode::MOV_D_A,
                _ => OpCode::NOP_0,
            },
            Register::E => match s {
                Register::B => OpCode::MOV_E_B,
                Register::C => OpCode::MOV_E_C,
                Register::D => OpCode::MOV_E_D,
                Register::E => OpCode::MOV_E_E,
                Register::H => OpCode::MOV_E_H,
                Register::L => OpCode::MOV_E_L,
                Register::M => OpCode::MOV_E_M,
                Register::A => OpCode::MOV_E_A,
                _ => OpCode::NOP_0,
            },
            Register::H => match s {
                Register::B => OpCode::MOV_H_B,
                Register::C => OpCode::MOV_H_C,
                Register::D => OpCode::MOV_H_D,
                Register::E => OpCode::MOV_H_E,
                Register::H => OpCode::MOV_H_H,
                Register::L => OpCode::MOV_H_L,
                Register::M => OpCode::MOV_H_M,
                Register::A => OpCode::MOV_H_A,
                _ => OpCode::NOP_0,
            },
            Register::L => match s {
                Register::B => OpCode::MOV_L_B,
                Register::C => OpCode::MOV_L_C,
                Register::D => OpCode::MOV_L_D,
                Register::E => OpCode::MOV_L_E,
                Register::H => OpCode::MOV_L_H,
                Register::L => OpCode::MOV_L_L,
                Register::M => OpCode::MOV_L_M,
                Register::A => OpCode::MOV_L_A,
                _ => OpCode::NOP_0,
            },
            Register::M => match s {
                Register::B => OpCode::MOV_M_B,
                Register::C => OpCode::MOV_M_C,
                Register::D => OpCode::MOV_M_D,
                Register::E => OpCode::MOV_M_E,
                Register::H => OpCode::MOV_M_H,
                Register::L => OpCode::MOV_M_L,
                Register::A => OpCode::MOV_M_A,
                _ => OpCode::NOP_0,
            },
            Register::A => match s {
                Register::B => OpCode::MOV_A_B,
                Register::C => OpCode::MOV_A_C,
                Register::D => OpCode::MOV_A_D,
                Register::E => OpCode::MOV_A_E,
                Register::H => OpCode::MOV_A_H,
                Register::L => OpCode::MOV_A_L,
                Register::M => OpCode::MOV_A_M,
                Register::A => OpCode::MOV_A_A,
                _ => OpCode::NOP_0,
            },
            _ => OpCode::NOP_0,
        },
        Instruction::ADD(r) => match r {
            Register::B => OpCode::ADD_B,
            Register::C => OpCode::ADD_C,
            Register::D => OpCode::ADD_D,
            Register::E => OpCode::ADD_E,
            Register::H => OpCode::ADD_H,
            Register::L => OpCode::ADD_L,
            Register::M => OpCode::ADD_M,
            Register::A => OpCode::ADD_A,
            _ => OpCode::NOP_0,
        },
        Instruction::ADC(r) => match r {
            Register::B => OpCode::ADC_B,
            Register::C => OpCode::ADC_C,
            Register::D => OpCode::ADC_D,
            Register::E => OpCode::ADC_E,
            Register::H => OpCode::ADC_H,
            Register::L => OpCode::ADC_L,
            Register::M => OpCode::ADC_M,
            Register::A => OpCode::ADC_A,
            _ => OpCode::NOP_0,
        },
        Instruction::SUB(r) => match r {
            Register::B => OpCode::SUB_B,
            Register::C => OpCode::SUB_C,
            Register::D => OpCode::SUB_D,
            Register::E => OpCode::SUB_E,
            Register::H => OpCode::SUB_H,
            Register::L => OpCode::SUB_L,
            Register::M => OpCode::SUB_M,
            Register::A => OpCode::SUB_A,
            _ => OpCode::NOP_0,
        },
        Instruction::SBB(r) => match r {
            Register::B => OpCode::SBB_B,
            Register::C => OpCode::SBB_C,
            Register::D => OpCode::SBB_D,
            Register::E => OpCode::SBB_E,
            Register::H => OpCode::SBB_H,
            Register::L => OpCode::SBB_L,
            Register::M => OpCode::SBB_M,
            Register::A => OpCode::SBB_A,
            _ => OpCode::NOP_0,
        },
        Instruction::ANA(r) => match r {
            Register::B => OpCode::ANA_B,
            Register::C => OpCode::ANA_C,
            Register::D => OpCode::ANA_D,
            Register::E => OpCode::ANA_E,
            Register::H => OpCode::ANA_H,
            Register::L => OpCode::ANA_L,
            Register::M => OpCode::ANA_M,
            Register::A => OpCode::ANA_A,
            _ => OpCode::NOP_0,
        },
        Instruction::XRA(r) => match r {
            Register::B => OpCode::XRA_B,
            Register::C => OpCode::XRA_C,
            Register::D => OpCode::XRA_D,
            Register::E => OpCode::XRA_E,
            Register::H => OpCode::XRA_H,
            Register::L => OpCode::XRA_L,
            Register::M => OpCode::XRA_M,
            Register::A => OpCode::XRA_A,
            _ => OpCode::NOP_0,
        },
        Instruction::ORA(r) => match r {
            Register::B => OpCode::ORA_B,
            Register::C => OpCode::ORA_C,
            Register::D => OpCode::ORA_D,
            Register::E => OpCode::ORA_E,
            Register::H => OpCode::ORA_H,
            Register::L => OpCode::ORA_L,
            Register::M => OpCode::ORA_M,
            Register::A => OpCode::ORA_A,
            _ => OpCode::NOP_0,
        },
        Instruction::CMP(r) => match r {
            Register::B => OpCode::CMP_B,
            Register::C => OpCode::CMP_C,
            Register::D => OpCode::CMP_D,
            Register::E => OpCode::CMP_E,
            Register::H => OpCode::CMP_H,
            Register::L => OpCode::CMP_L,
            Register::M => OpCode::CMP_M,
            Register::A => OpCode::CMP_A,
            _ => OpCode::NOP_0,
        },
        Instruction::INR(r) => match r {
            Register::B => OpCode::INR_B,
            Register::C => OpCode::INR_C,
            Register::D => OpCode::INR_D,
            Register::E => OpCode::INR_E,
            Register::H => OpCode::INR_H,
            Register::L => OpCode::INR_L,
            Register::M => OpCode::INR_M,
            Register::A => OpCode::INR_A,
            _ => OpCode::NOP_0,
        },
        Instruction::DCR(r) => match r {
            Register::B => OpCode::DCR_B,
            Register::C => OpCode::DCR_C,
            Register::D => OpCode::DCR_D,
            Register::E => OpCode::DCR_E,
            Register::H => OpCode::DCR_H,
            Register::L => OpCode::DCR_L,
            Register::M => OpCode::DCR_M,
            Register::A => OpCode::DCR_A,
            _ => OpCode::NOP_0,
        },
        Instruction::INX(r) => match r {
            Register::B => OpCode::INX_B,
            Register::D => OpCode::INX_D,
            Register::H => OpCode::INX_H,
            Register::SP => OpCode::INX_SP,
            _ => OpCode::NOP_0,
        },
        Instruction::DCX(r) => match r {
            Register::B => OpCode::DCX_B,
            Register::D => OpCode::DCX_D,
            Register::H => OpCode::DCX_H,
            Register::SP => OpCode::DCX_SP,
            _ => OpCode::NOP_0,
        },
        Instruction::DAD(r) => match r {
            Register::B => OpCode::DAD_B,
            Register::D => OpCode::DAD_D,
            Register::H => OpCode::DAD_H,
            Register::SP => OpCode::DAD_SP,
            _ => OpCode::NOP_0,
        },
        Instruction::PUSH(r) => match r {
            Register::B => OpCode::PUSH_B,
            Register::D => OpCode::PUSH_D,
            Register::H => OpCode::PUSH_H,
            Register::PSW => OpCode::PUSH_PSW,
            _ => OpCode::NOP_0,
        },
        Instruction::POP(r) => match r {
            Register::B => OpCode::POP_B,
            Register::D => OpCode::POP_D,
            Register::H => OpCode::POP_H,
            Register::PSW => OpCode::POP_PSW,
            _ => OpCode::NOP_0,
        },
        Instruction::LDAX(r) => match r {
            Register::B => OpCode::LDAX_B,
            Register::D => OpCode::LDAX_D,
            _ => OpCode::NOP_0,
        },
        Instruction::STAX(r) => match r {
            Register::B => OpCode::STAX_B,
            Register::D => OpCode::STAX_D,
            _ => OpCode::NOP_0,
        },
        Instruction::LXI(r, _, _) => match r {
            Register::B => OpCode::LXI_B,
            Register::D => OpCode::LXI_D,
            Register::H => OpCode::LXI_H,
            Register::SP => OpCode::LXI_SP,
            _ => OpCode::NOP_0,
        },
        Instruction::MVI(r, _) => match r {
            Register::B => OpCode::MVI_B,
            Register::C => OpCode::MVI_C,
            Register::D => OpCode::MVI_D,
            Register::E => OpCode::MVI_E,
            Register::H => OpCode::MVI_H,
            Register::L => OpCode::MVI_L,
            Register::M => OpCode::MVI_M,
            Register::A => OpCode::MVI_A,
            _ => OpCode::NOP_0,
        },
        Instruction::ADI(_) => OpCode::ADI,
        Instruction::ACI(_) => OpCode::ACI,
        Instruction::SUI(_) => OpCode::SUI,
        Instruction::SBI(_) => OpCode::SBI,
        Instruction::ANI(_) => OpCode::ANI,
        Instruction::ORI(_) => OpCode::ORI,
        Instruction::XRI(_) => OpCode::XRI,
        Instruction::CPI(_) => OpCode::CPI,
        Instruction::IN(_) => OpCode::IN,
        Instruction::OUT(_) => OpCode::OUT,
        Instruction::JMP(_, _) => OpCode::JMP,
        Instruction::JZ(_, _) => OpCode::JZ,
        Instruction::JNZ(_, _) => OpCode::JNZ,
        Instruction::JC(_, _) => OpCode::JC,
        Instruction::JNC(_, _) => OpCode::JNC,
        Instruction::JP(_, _) => OpCode::JP,
        Instruction::JM(_, _) => OpCode::JM,
        Instruction::JPE(_, _) => OpCode::JPE,
        Instruction::JPO(_, _) => OpCode::JPO,
        Instruction::CALL(_, _) => OpCode::CALL,
        Instruction::CZ(_, _) => OpCode::CZ,
        Instruction::CNZ(_, _) => OpCode::CNZ,
        Instruction::CC(_, _) => OpCode::CC,
        Instruction::CNC(_, _) => OpCode::CNC,
        Instruction::CP(_, _) => OpCode::CP,
        Instruction::CM(_, _) => OpCode::CM,
        Instruction::CPE(_, _) => OpCode::CPE,
        Instruction::CPO(_, _) => OpCode::CPO,
        Instruction::LDA(_, _) => OpCode::LDA,
        Instruction::STA(_, _) => OpCode::STA,
        Instruction::LHLD(_, _) => OpCode::LHLD,
        Instruction::SHLD(_, _) => OpCode::SHLD
    }
}

} // verus!
