//! The decoder: maps a raw opcode byte (plus following operand bytes) to
//! a structured instruction and its consumed length, and a reader that
//! scans a whole memory image into instructions.

use crate::cpu::{add_w16, ErrorKind};
use crate::instructions::len16;
use crate::memory;
use crate::memory::Memory;
use crate::ops::{op_instr, op_operands, spec_from_u8, Instruction, OpCode};
use vstd::prelude::*;

verus! {

/// What decoding at `pos` yields: the structured instruction and its total
/// consumed length in bytes (1 to 3), an unknown-opcode failure for the
/// one unmapped byte, or an address-range failure when the opcode or one
/// of its operand bytes lies outside memory. Operand addresses wrap
/// within 16 bits.
pub open spec fn spec_decode(m: Seq<u8>, pos: u16) -> Result<(Instruction, u16), ErrorKind> {
    if pos >= m.len() {
        Err(ErrorKind::MemoryError(memory::Error::OutOfRangeAccess(pos as usize, m.len() as usize)))
    } else {
        match spec_from_u8(m[pos as int]) {
            None => Err(ErrorKind::UnknownOp(m[pos as int])),
            Some(op) => {
                let n = op_operands(op);
                let p1 = add_w16(pos, 1);
                let p2 = add_w16(pos, 2);
                if n >= 1 && p1 >= m.len() {
                    Err(
                        ErrorKind::MemoryError(
                            memory::Error::OutOfRangeAccess(p1 as usize, m.len() as usize),
                        ),
                    )
                } else if n == 2 && p2 >= m.len() {
                    Err(
                        ErrorKind::MemoryError(
                            memory::Error::OutOfRangeAccess(p2 as usize, m.len() as usize),
                        ),
                    )
                } else {
                    let b1 = if n >= 1 {
                        m[p1 as int]
                    } else {
                        0
                    };
                    let b2 = if n == 2 {
                        m[p2 as int]
                    } else {
                        0
                    };
                    Ok((op_instr(op, b1, b2), (n + 1) as u16))
                }
            },
        }
    }
}

/// Decodes the instruction at `pos`: the structured instruction together
/// with how many bytes it consumed (1 to 3). Fails with an
/// unknown-opcode error on the one unmapped byte and with an
/// address-range error when the opcode or an operand byte lies outside
/// memory. Pure: reads memory, changes nothing.
pub fn disassemble(buf: &Memory, pos: u16) -> (r: Result<(Instruction, u16), ErrorKind>)
    ensures
        r == spec_decode(buf@, pos),
{
    let code = match buf.read(pos) {
        Ok(c) => c,
        Err(e) => {
            return Err(ErrorKind::MemoryError(e));
        },
    };
    let op = match OpCode::from_u8(code) {
        Some(op) => op,
        None => {
            return Err(ErrorKind::UnknownOp(code));
        },
    };
    let n = op.operand_count();
    let b1 = if n >= 1 {
        match buf.read(pos.wrapping_add(1)) {
            Ok(b) => b,
            Err(e) => {
                return Err(ErrorKind::MemoryError(e));
            },
        }
    } else {
        0
    };
    let b2 = if n == 2 {
        match buf.read(pos.wrapping_add(2)) {
            Ok(b) => b,
            Err(e) => {
                return Err(ErrorKind::MemoryError(e));
            },
        }
    } else {
        0
    };
    Ok((op.instr(b1, b2), n + 1))
}

/// A cursor that scans a memory image from front to back, decoding each
/// position it can.
pub struct OpReader {
    pub buf: Memory,
    pub pc: u16,
}

/// What a whole scan from `pos` yields: each decodable position paired
/// with its instruction, the scan resuming after a decoded instruction's
/// last byte and one byte further on a position that does not decode.
/// The scan ends at the truncated memory length or the top of the
/// address space.
pub open spec fn scan(m: Seq<u8>, pos: u16) -> Seq<(u16, Instruction)>
    decreases 0x10000 - pos,
{
    if pos >= len16(m) {
        Seq::empty()
    } else {
        match spec_decode(m, pos) {
            Ok((ins, size)) => if pos + size <= 0xffff {
                seq![(pos, ins)] + scan(m, (pos + size) as u16)
            } else {
                seq![(pos, ins)]
            },
            Err(e) => if pos < 0xffff {
                scan(m, (pos + 1) as u16)
            } else {
                Seq::empty()
            },
        }
    }
}

impl OpReader {
    /// Scans the rest of the image, returning each decoded instruction
    /// with the position it was decoded at.
    pub fn read_all(&mut self) -> (r: Vec<(u16, Instruction)>)
        ensures
            r@ == scan(old(self).buf@, old(self).pc),
            final(self).buf@ == old(self).buf@,
    {
        let mut buf: Vec<(u16, Instruction)> = Vec::new();
        let ghost m = self.buf@;
        let ghost start = self.pc;
        loop
            invariant_except_break
                self.buf@ == m,
                scan(m, start) == buf@ + scan(m, self.pc),
            ensures
                self.buf@ == m,
                buf@ == scan(m, start),
            decreases 0x10000 - self.pc,
        {
            let pos = self.pc;
            if pos >= self.buf.len() {
                proof {
                    assert(buf@ + scan(m, pos) =~= buf@);
                }
                break ;
            }
            match disassemble(&self.buf, pos) {
                Ok((ins, size)) => {
                    let ghost before = buf@;
                    buf.push((pos, ins));
                    proof {
                        assert(1 <= size <= 3) by {
                            assert(spec_decode(m, pos) is Ok);
                        }
                    }
                    if pos <= 0xffff - size {
                        self.pc = pos + size;
                        proof {
                            assert(scan(m, pos) =~= seq![(pos, ins)] + scan(
                                m,
                                (pos + size) as u16,
                            ));
                            assert(before + (seq![(pos, ins)] + scan(m, (pos + size) as u16)) =~= buf@
                                + scan(m, (pos + size) as u16));
                        }
                    } else {
                        proof {
                            assert(scan(m, pos) =~= seq![(pos, ins)]);
                            assert(before + scan(m, pos) =~= buf@);
                        }
                        break ;
                    }
                },
                Err(_) => {
                    if pos < 0xffff {
                        self.pc = pos + 1;
                        proof {
                            assert(scan(m, pos) =~= scan(m, (pos + 1) as u16));
                        }
                    } else {
                        proof {
                            assert(buf@ + scan(m, pos) =~= buf@);
                        }
                        break ;
                    }
                },
            }
        }
        buf
    }
}

/// Decoding inverts the opcode table: the unique byte an opcode occupies
/// maps back to that opcode.
#[verifier::spinoff_prover]
#[verifier::rlimit(100)]
pub proof fn lemma_opcode_round_trip(op: OpCode)
    ensures
        spec_from_u8(crate::ops::spec_byte(op)) == Some(op),
{
}

/// The decode-encode law, restricted to the register moves.
#[verifier::spinoff_prover]
#[verifier::rlimit(100)]
proof fn lemma_de_mov(i: Instruction)
    requires
        crate::ops::wf_instruction(i),
        i is MOV,
    ensures
        spec_decode(crate::ops::encode(i), 0) == Ok::<(Instruction, u16), ErrorKind>(
            (i, crate::ops::encode(i).len() as u16),
        ),
{
    lemma_opcode_round_trip(crate::ops::opcode_of(i));
}

/// The decode-encode law, restricted to the register-operand arithmetic
/// and compare families.
#[verifier::spinoff_prover]
#[verifier::rlimit(100)]
proof fn lemma_de_arith(i: Instruction)
    requires
        crate::ops::wf_instruction(i),
        i is ADD || i is ADC || i is SUB || i is SBB || i is CMP,
    ensures
        spec_decode(crate::ops::encode(i), 0) == Ok::<(Instruction, u16), ErrorKind>(
            (i, crate::ops::encode(i).len() as u16),
        ),
{
    lemma_opcode_round_trip(crate::ops::opcode_of(i));
}

/// The decode-encode law, restricted to the register-operand logical,
/// increment and decrement families.
#[verifier::spinoff_prover]
#[verifier::rlimit(100)]
proof fn lemma_de_logic(i: Instruction)
    requires
        crate::ops::wf_instruction(i),
        i is ANA || i is XRA || i is ORA || i is INR || i is DCR,
    ensures
        spec_decode(crate::ops::encode(i), 0) == Ok::<(Instruction, u16), ErrorKind>(
            (i, crate::ops::encode(i).len() as u16),
        ),
{
    lemma_opcode_round_trip(crate::ops::opcode_of(i));
}

/// The decode-encode law, restricted to the 16-bit pair instructions.
#[verifier::spinoff_prover]
#[verifier::rlimit(100)]
proof fn lemma_de_pair(i: Instruction)
    requires
        crate::ops::wf_instruction(i),
        i is INX || i is DCX || i is DAD || i is PUSH || i is POP || i is LDAX || i is STAX
            || i is LXI,
    ensures
        spec_decode(crate::ops::encode(i), 0) == Ok::<(Instruction, u16), ErrorKind>(
            (i, crate::ops::encode(i).len() as u16),
        ),
{
    lemma_opcode_round_trip(crate::ops::opcode_of(i));
}

/// The decode-encode law, restricted to the immediate-operand
/// instructions.
#[verifier::spinoff_prover]
#[verifier::rlimit(100)]
proof fn lemma_de_imm(i: Instruction)
    requires
        crate::ops::wf_instruction(i),
        i is MVI || i is ADI || i is ACI || i is SUI || i is SBI || i is ANI || i is ORI
            || i is XRI || i is CPI || i is IN || i is OUT,
    ensures
        spec_decode(crate::ops::encode(i), 0) == Ok::<(Instruction, u16), ErrorKind>(
            (i, crate::ops::encode(i).len() as u16),
        ),
{
    lemma_opcode_round_trip(crate::ops::opcode_of(i));
}

/// The decode-encode law, restricted to the three-byte branch and direct
/// load and store instructions.
#[verifier::spinoff_prover]
#[verifier::rlimit(100)]
proof fn lemma_de_addr(i: Instruction)
    requires
        i is JMP || i is JZ || i is JNZ || i is JC || i is JNC || i is JP || i is JM || i is JPE
            || i is JPO || i is CALL || i is CZ || i is CNZ || i is CC || i is CNC || i is CP
            || i is CM || i is CPE || i is CPO || i is LDA || i is STA || i is LHLD || i is SHLD,
    ensures
        spec_decode(crate::ops::encode(i), 0) == Ok::<(Instruction, u16), ErrorKind>(
            (i, crate::ops::encode(i).len() as u16),
        ),
{
    lemma_opcode_round_trip(crate::ops::opcode_of(i));
}

/// Decoding is a left inverse of encoding: for every instruction the
/// opcode table can express, decoding its encoded byte sequence
/// reproduces the same instruction and the sequence's own length.
#[verifier::spinoff_prover]
#[verifier::rlimit(100)]
pub proof fn lemma_decode_encode(i: Instruction)
    requires
        crate::ops::wf_instruction(i),
    ensures
        spec_decode(crate::ops::encode(i), 0) == Ok::<(Instruction, u16), ErrorKind>(
            (i, crate::ops::encode(i).len() as u16),
        ),
{
    match i {
        Instruction::MOV(_, _) => lemma_de_mov(i),
        Instruction::ADD(_) | Instruction::ADC(_) | Instruction::SUB(_) | Instruction::SBB(_)
            | Instruction::CMP(_) => lemma_de_arith(i),
        Instruction::ANA(_) | Instruction::XRA(_) | Instruction::ORA(_) | Instruction::INR(_)
            | Instruction::DCR(_) => lemma_de_logic(i),
        Instruction::INX(_) | Instruction::DCX(_) | Instruction::DAD(_) | Instruction::PUSH(_)
            | Instruction::POP(_) | Instruction::LDAX(_) | Instruction::STAX(_)
            | Instruction::LXI(_, _, _) => lemma_de_pair(i),
        Instruction::MVI(_, _) | Instruction::ADI(_) | Instruction::ACI(_) | Instruction::SUI(_)
            | Instruction::SBI(_) | Instruction::ANI(_) | Instruction::ORI(_)
            | Instruction::XRI(_) | Instruction::CPI(_) | Instruction::IN(_)
            | Instruction::OUT(_) => lemma_de_imm(i),
        Instruction::JMP(_, _) | Instruction::JZ(_, _) | Instruction::JNZ(_, _) | Instruction::JC(
            _,
            _,
        ) | Instruction::JNC(_, _) | Instruction::JP(_, _) | Instruction::JM(_, _)
            | Instruction::JPE(_, _) | Instruction::JPO(_, _) | Instruction::CALL(_, _)
            | Instruction::CZ(_, _) | Instruction::CNZ(_, _) | Instruction::CC(_, _)
            | Instruction::CNC(_, _) | Instruction::CP(_, _) | Instruction::CM(_, _)
            | Instruction::CPE(_, _) | Instruction::CPO(_, _) | Instruction::LDA(_, _)
            | Instruction::STA(_, _) | Instruction::LHLD(_, _) | Instruction::SHLD(_, _) =>
            lemma_de_addr(i),
        _ => {
            lemma_opcode_round_trip(crate::ops::opcode_of(i));
        },
    }
}

/// Wraps an image in a reader positioned at its start.
pub fn reader(buf: Vec<u8>) -> (r: OpReader)
    ensures
        r.buf@ == buf@,
        r.pc == 0,
{
    OpReader { buf: Memory::new(buf), pc: 0 }
}

} // verus!
