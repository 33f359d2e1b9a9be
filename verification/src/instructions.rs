//! One executor per instruction family. Each takes the CPU-plus-memory
//! handle, resolves its operand (register or memory via the HL pair),
//! computes the wrapped result, applies the documented flag rule, writes
//! back when the instruction semantics require it, and returns its cycle
//! cost. Every executor carries a relation as its contract that pins the
//! whole machine state after the call, error cases included.

use crate::cpu::{
    add_w16, add_w8, is_reg8, mul_w16, reg8, set_reg8, spec_arith_flags, spec_logic_flags,
    spec_parity, spec_zsp, sub_w16, sub_w8, CPUInterface, ConditionCodes, ErrorKind, CPU,
};
use crate::memory;
use crate::ops::Register;
use vstd::prelude::*;

verus! {

/// The memory length truncated to the 16-bit width the program counter
/// check uses.
pub open spec fn len16(m: Seq<u8>) -> u16 {
    (m.len() % 0x10000) as u16
}

/// The program counter advanced one byte, wrapping within the 16 KiB code
/// window.
pub open spec fn adv_pc(pc: u16) -> u16 {
    ((pc + 1) % 0x4000) as u16
}

/// True when advancing the program counter of `c` stays within memory `m`.
pub open spec fn adv_ok(c: CPU, m: Seq<u8>) -> bool {
    len16(m) >= adv_pc(c.pc)
}

/// The error raised when advancing the program counter of `c` leaves
/// memory `m`.
pub open spec fn adv_err(c: CPU, m: Seq<u8>) -> ErrorKind {
    ErrorKind::PCOutOfRange(adv_pc(c.pc), len16(m))
}

/// `c` with the program counter advanced one byte.
pub open spec fn adv_cpu(c: CPU) -> CPU {
    CPU { pc: adv_pc(c.pc), ..c }
}

/// The error raised by a failed bounds-checked read or write at `adr`.
pub open spec fn mem_err(adr: u16, m: Seq<u8>) -> ErrorKind {
    ErrorKind::MemoryError(memory::Error::OutOfRangeAccess(adr as usize, m.len() as usize))
}

/// The 16-bit address formed from a high and a low byte.
pub open spec fn to16(h: u8, l: u8) -> u16 {
    (h * 256 + l) as u16
}

/// The HL register pair of `c` as a memory address.
pub open spec fn hl(c: CPU) -> u16 {
    to16(c.h, c.l)
}

/// What reading one byte at the program counter and advancing past it
/// yields: the byte or the failure, together with the CPU afterwards.
/// A failed advance takes precedence and leaves the counter unchanged.
pub open spec fn r1(c: CPU, m: Seq<u8>) -> (Result<u8, ErrorKind>, CPU) {
    let pc2 = adv_pc(c.pc);
    if len16(m) < pc2 {
        (Err(ErrorKind::PCOutOfRange(pc2, len16(m))), c)
    } else if c.pc >= m.len() {
        (Err(mem_err(c.pc, m)), CPU { pc: pc2, ..c })
    } else {
        (Ok(m[c.pc as int]), CPU { pc: pc2, ..c })
    }
}

/// What reading a two-byte address operand (low byte first) yields.
pub open spec fn r2(c: CPU, m: Seq<u8>) -> (Result<u16, ErrorKind>, CPU) {
    let (v1, s1) = r1(c, m);
    match v1 {
        Err(e) => (Err(e), s1),
        Ok(lo) => {
            let (v2, s2) = r1(s1, m);
            match v2 {
                Err(e) => (Err(e), s2),
                Ok(hi) => (Ok(to16(hi, lo)), s2),
            }
        },
    }
}

/// A boolean as the byte 0 or 1.
pub open spec fn b2u(b: bool) -> u8 {
    if b {
        1
    } else {
        0
    }
}

/// The packed program status word: bit 0 zero, bit 1 sign, bit 2 parity,
/// bit 3 carry, bit 4 auxiliary-carry.
pub open spec fn pack_psw(cc: ConditionCodes) -> u8 {
    b2u(cc.z) | b2u(cc.s) << 1 | b2u(cc.p) << 2 | b2u(cc.cy) << 3 | b2u(cc.ac) << 4
}

/// The condition codes restored from a packed program status word.
pub open spec fn unpack_psw(psw: u8) -> ConditionCodes {
    ConditionCodes {
        z: psw & 0x01 == 0x01,
        s: psw & 0x02 == 0x02,
        p: psw & 0x04 == 0x04,
        cy: psw & 0x08 == 0x08,
        ac: psw & 0x10 == 0x10,
    }
}

/// Unpacking a packed program status word restores exactly the five
/// codes that were packed, for every combination of them.
pub proof fn lemma_psw_round_trip(cc: ConditionCodes)
    ensures
        unpack_psw(pack_psw(cc)) == cc,
{
    let z = b2u(cc.z);
    let s = b2u(cc.s);
    let p = b2u(cc.p);
    let cy = b2u(cc.cy);
    let ac = b2u(cc.ac);
    assert(z <= 1 && s <= 1 && p <= 1 && cy <= 1 && ac <= 1);
    let psw = z | s << 1 | p << 2 | cy << 3 | ac << 4;
    assert((psw & 0x01 == 0x01) == (z == 1) && (psw & 0x02 == 0x02) == (s == 1) && (psw & 0x04
        == 0x04) == (p == 1) && (psw & 0x08 == 0x08) == (cy == 1) && (psw & 0x10 == 0x10) == (ac
        == 1)) by (bit_vector)
        requires
            z <= 1 && s <= 1 && p <= 1 && cy <= 1 && ac <= 1,
            psw == z | s << 1 | p << 2 | cy << 3 | ac << 4,
    ;
}

/// Pushing the accumulator and flags and then popping the program status
/// word restores exactly the accumulator and the same five flags, for
/// every starting state in which both stack transfers succeed.
pub proof fn lemma_psw_push_pop(
    pre: CPU,
    m: Seq<u8>,
    mid: CPU,
    m1: Seq<u8>,
    post: CPU,
    m2: Seq<u8>,
)
    requires
        push_rel(Register::PSW, pre, m, mid, m1, Ok::<u8, ErrorKind>(11)),
        pop_rel(Register::PSW, mid, m1, post, m2, Ok::<u8, ErrorKind>(10)),
    ensures
        post.a == pre.a,
        post.cc == pre.cc,
        post.sp == pre.sp,
{
    assert(add_w16(sub_w16(pre.sp, 2), 1) == sub_w16(pre.sp, 1));
    assert(add_w16(sub_w16(pre.sp, 2), 2) == pre.sp);
    assert(sub_w16(pre.sp, 1) != sub_w16(pre.sp, 2));
    lemma_psw_round_trip(pre.cc);
}

/// A branch condition, keyed off one of the four testable codes or taken
/// unconditionally.
#[derive(Copy, Clone, Debug, PartialEq, Eq, Structural)]
pub enum Cond {
    Always,
    Zero,
    NotZero,
    Carry,
    NotCarry,
    ParityEven,
    ParityOdd,
    Minus,
    Plus,
}

/// Whether condition `c` holds of the codes `cc`.
pub open spec fn holds(c: Cond, cc: ConditionCodes) -> bool {
    match c {
        Cond::Always => true,
        Cond::Zero => cc.z,
        Cond::NotZero => !cc.z,
        Cond::Carry => cc.cy,
        Cond::NotCarry => !cc.cy,
        Cond::ParityEven => cc.p,
        Cond::ParityOdd => !cc.p,
        Cond::Minus => cc.s,
        Cond::Plus => !cc.s,
    }
}

impl Cond {
    /// Tests this condition against the codes.
    pub fn eval(self, cc: &ConditionCodes) -> (r: bool)
        ensures
            r == holds(self, *cc),
    {
        match self {
            Cond::Always => true,
            Cond::Zero => cc.z,
            Cond::NotZero => !cc.z,
            Cond::Carry => cc.cy,
            Cond::NotCarry => !cc.cy,
            Cond::ParityEven => cc.p,
            Cond::ParityOdd => !cc.p,
            Cond::Minus => cc.s,
            Cond::Plus => !cc.s,
        }
    }
}

/// A bitwise operation applied by the logical instruction families.
#[derive(Copy, Clone, Debug, PartialEq, Eq, Structural)]
pub enum BitOp {
    And,
    Or,
    Xor,
}

/// The byte `op` produces from the accumulator and the operand.
pub open spec fn bit_op(op: BitOp, a: u8, b: u8) -> u8 {
    match op {
        BitOp::And => a & b,
        BitOp::Or => a | b,
        BitOp::Xor => a ^ b,
    }
}

/// Applies a bitwise operation to two bytes.
pub fn apply_bit_op(op: BitOp, a: u8, b: u8) -> (r: u8)
    ensures
        r == bit_op(op, a, b),
{
    match op {
        BitOp::And => a & b,
        BitOp::Or => a | b,
        BitOp::Xor => a ^ b,
    }
}

/// A boolean as the byte 0 or 1.
pub fn int_bool(b: bool) -> (r: u8)
    ensures
        r == b2u(b),
{
    if b {
        1
    } else {
        0
    }
}

/// What `add` does: the 16-bit raw sum of the accumulator and the operand
/// (register `reg`, or memory at HL for `Register::M`) sets the arithmetic
/// flags; its low byte replaces the accumulator. Register form costs 4
/// cycles, memory form 7.
pub open spec fn add_rel(
    reg: Register,
    pre: CPU,
    m: Seq<u8>,
    post: CPU,
    m2: Seq<u8>,
    r: Result<u8, ErrorKind>,
) -> bool {
    m2 == m && if !adv_ok(pre, m) {
        post == pre && r == Err::<u8, ErrorKind>(adv_err(pre, m))
    } else {
        let s = adv_cpu(pre);
        if reg == Register::M {
            if hl(s) < m.len() {
                let answer = (pre.a + m[hl(s) as int]) as u16;
                post == (CPU {
                    a: (answer & 0xff) as u8,
                    cc: spec_arith_flags(s.cc, answer),
                    ..s
                }) && r == Ok::<u8, ErrorKind>(7)
            } else {
                post == s && r == Err::<u8, ErrorKind>(mem_err(hl(s), m))
            }
        } else {
            let answer = (pre.a + reg8(s, reg)) as u16;
            post == (CPU { a: (answer & 0xff) as u8, cc: spec_arith_flags(s.cc, answer), ..s })
                && r == Ok::<u8, ErrorKind>(4)
        }
    }
}

/// Adds the operand to the accumulator and sets the arithmetic flags.
pub fn add(reg: Register, state: &mut CPUInterface) -> (r: Result<u8, ErrorKind>)
    requires
        is_reg8(reg) || reg == Register::M,
    ensures
        add_rel(reg, old(state).cpu, old(state).memory@, final(state).cpu, final(state).memory@, r),
{
    state.advance()?;
    let mut cycles: u8 = 4;
    let answer: u16 = match reg {
        Register::M => {
            cycles = 7;
            let offset = to_adr(state.cpu.h, state.cpu.l);
            let m: u16 = state.read(offset)? as u16;
            state.cpu.a as u16 + m
        },
        r => state.cpu.a as u16 + state.get_u8(r) as u16,
    };
    state.cpu.cc.arith_flags(answer);
    state.cpu.a = (answer & 0xff) as u8;
    Ok(cycles)
}

/// Joins a high and a low byte into the 16-bit address they form.
pub fn to_adr(h: u8, l: u8) -> (r: u16)
    ensures
        r == to16(h, l),
{
    proof {
        assert(((h as u16) << 8 | l as u16) == h * 256 + l && h * 256 + l <= 0xffff)
            by (bit_vector);
    }
    (h as u16) << 8 | l as u16
}

/// Reads the low and then the high byte of an address operand at the
/// program counter.
pub fn read_2_address(state: &mut CPUInterface) -> (r: Result<u16, ErrorKind>)
    ensures
        final(state).memory@ == old(state).memory@,
        ({
            let (v, c) = r2(old(state).cpu, old(state).memory@);
            r == v && final(state).cpu == c
        }),
{
    let l = state.read_1()?;
    let h = state.read_1()?;
    Ok(to_adr(h, l))
}

/// Reads the byte addressed by the HL pair.
pub fn read_hl(state: &mut CPUInterface) -> (r: Result<u8, ErrorKind>)
    ensures
        *final(state) == *old(state),
        ({
            let m = old(state).memory@;
            let adr = hl(old(state).cpu);
            if adr < m.len() {
                r == Ok::<u8, ErrorKind>(m[adr as int])
            } else {
                r == Err::<u8, ErrorKind>(mem_err(adr, m))
            }
        }),
{
    let h = state.cpu.h;
    let l = state.cpu.l;
    state.read(to_adr(h, l))
}

/// Writes `data` to the byte addressed by the HL pair.
pub fn write_hl(state: &mut CPUInterface, data: u8) -> (r: Result<(), ErrorKind>)
    ensures
        final(state).cpu == old(state).cpu,
        ({
            let m = old(state).memory@;
            let adr = hl(old(state).cpu);
            if adr < m.len() {
                r is Ok && final(state).memory@ == m.update(adr as int, data)
            } else {
                r == Err::<(), ErrorKind>(mem_err(adr, m)) && final(state).memory@ == m
            }
        }),
{
    let h = state.cpu.h;
    let l = state.cpu.l;
    state.write(to_adr(h, l), data)
}

/// What `adc` does: as `add`, but the previous carry is added into the
/// raw sum before the flags are derived from it.
pub open spec fn adc_rel(
    reg: Register,
    pre: CPU,
    m: Seq<u8>,
    post: CPU,
    m2: Seq<u8>,
    r: Result<u8, ErrorKind>,
) -> bool {
    m2 == m && if !adv_ok(pre, m) {
        post == pre && r == Err::<u8, ErrorKind>(adv_err(pre, m))
    } else {
        let s = adv_cpu(pre);
        let carry = b2u(pre.cc.cy);
        if reg == Register::M {
            if hl(s) < m.len() {
                let answer = (pre.a + m[hl(s) as int] + carry) as u16;
                post == (CPU {
                    a: (answer & 0xff) as u8,
                    cc: spec_arith_flags(s.cc, answer),
                    ..s
                }) && r == Ok::<u8, ErrorKind>(7)
            } else {
                post == s && r == Err::<u8, ErrorKind>(mem_err(hl(s), m))
            }
        } else {
            let answer = (pre.a + reg8(s, reg) + carry) as u16;
            post == (CPU { a: (answer & 0xff) as u8, cc: spec_arith_flags(s.cc, answer), ..s })
                && r == Ok::<u8, ErrorKind>(4)
        }
    }
}

/// Adds the operand and the previous carry to the accumulator.
pub fn adc(reg: Register, state: &mut CPUInterface) -> (r: Result<u8, ErrorKind>)
    requires
        is_reg8(reg) || reg == Register::M,
    ensures
        adc_rel(reg, old(state).cpu, old(state).memory@, final(state).cpu, final(state).memory@, r),
{
    state.advance()?;
    let carry: u16 = if state.cpu.cc.cy {
        1
    } else {
        0
    };
    let mut cycles: u8 = 4;
    let answer: u16 = match reg {
        Register::M => {
            cycles = 7;
            let offset = to_adr(state.cpu.h, state.cpu.l);
            let m = state.read(offset)? as u16 + carry;
            state.cpu.a as u16 + m
        },
        r => state.cpu.a as u16 + state.get_u8(r) as u16 + carry,
    };
    state.cpu.cc.arith_flags(answer);
    state.cpu.a = (answer & 0xff) as u8;
    Ok(cycles)
}

/// What `adi` does: reads the immediate byte, adds it to the accumulator,
/// sets zero/sign/parity from the result byte and carry from overflow.
/// Costs 7 cycles.
pub open spec fn adi_rel(
    pre: CPU,
    m: Seq<u8>,
    post: CPU,
    m2: Seq<u8>,
    r: Result<u8, ErrorKind>,
) -> bool {
    m2 == m && if !adv_ok(pre, m) {
        post == pre && r == Err::<u8, ErrorKind>(adv_err(pre, m))
    } else {
        let s = adv_cpu(pre);
        let (v, s1) = r1(s, m);
        match v {
            Err(e) => post == s1 && r == Err::<u8, ErrorKind>(e),
            Ok(val) => {
                let answer = (pre.a + val) as u16;
                post == (CPU {
                    a: (answer & 0xff) as u8,
                    cc: ConditionCodes {
                        cy: answer > 0xff,
                        ..spec_zsp(s1.cc, (answer & 0xff) as u8)
                    },
                    ..s1
                }) && r == Ok::<u8, ErrorKind>(7)
            },
        }
    }
}

/// Adds the immediate byte to the accumulator.
pub fn adi(state: &mut CPUInterface) -> (r: Result<u8, ErrorKind>)
    ensures
        adi_rel(old(state).cpu, old(state).memory@, final(state).cpu, final(state).memory@, r),
{
    state.advance()?;
    let val = state.read_1()?;
    let answer: u16 = state.cpu.a as u16 + val as u16;

    state.cpu.cc.flags_zsp((answer & 0xff) as u8);
    state.cpu.cc.cy = answer > 255;
    state.cpu.a = (answer & 0xff) as u8;
    Ok(7)
}

/// What `aci` does: as `adi`, with the previous carry added into the sum.
pub open spec fn aci_rel(
    pre: CPU,
    m: Seq<u8>,
    post: CPU,
    m2: Seq<u8>,
    r: Result<u8, ErrorKind>,
) -> bool {
    m2 == m && if !adv_ok(pre, m) {
        post == pre && r == Err::<u8, ErrorKind>(adv_err(pre, m))
    } else {
        let s = adv_cpu(pre);
        let (v, s1) = r1(s, m);
        match v {
            Err(e) => post == s1 && r == Err::<u8, ErrorKind>(e),
            Ok(db) => {
                let result = (pre.a + db + b2u(pre.cc.cy)) as u16;
                post == (CPU {
                    a: (result & 0xff) as u8,
                    cc: ConditionCodes {
                        cy: result > 0xff,
                        ..spec_zsp(s1.cc, (result & 0xff) as u8)
                    },
                    ..s1
                }) && r == Ok::<u8, ErrorKind>(7)
            },
        }
    }
}

/// Adds the immediate byte and the previous carry to the accumulator.
pub fn aci(state: &mut CPUInterface) -> (r: Result<u8, ErrorKind>)
    ensures
        aci_rel(old(state).cpu, old(state).memory@, final(state).cpu, final(state).memory@, r),
{
    state.advance()?;
    let db: u16 = state.read_1()? as u16;
    let carry: u16 = if state.cpu.cc.cy {
        1
    } else {
        0
    };
    let a: u16 = state.cpu.a as u16;
    let result = a + db + carry;
    state.cpu.a = (result & 0xff) as u8;
    state.cpu.cc.flags_zsp((result & 0xff) as u8);
    state.cpu.cc.cy = result > 255;
    Ok(7)
}

/// What `sub` does: the 16-bit wrapping difference of the accumulator and
/// the operand sets the arithmetic flags (carry exactly when the operand
/// exceeded the accumulator); its low byte replaces the accumulator.
pub open spec fn sub_rel(
    reg: Register,
    pre: CPU,
    m: Seq<u8>,
    post: CPU,
    m2: Seq<u8>,
    r: Result<u8, ErrorKind>,
) -> bool {
    m2 == m && if !adv_ok(pre, m) {
        post == pre && r == Err::<u8, ErrorKind>(adv_err(pre, m))
    } else {
        let s = adv_cpu(pre);
        if reg == Register::M {
            if hl(s) < m.len() {
                let answer = sub_w16(pre.a as u16, m[hl(s) as int] as u16);
                post == (CPU {
                    a: (answer & 0xff) as u8,
                    cc: spec_arith_flags(s.cc, answer),
                    ..s
                }) && r == Ok::<u8, ErrorKind>(7)
            } else {
                post == s && r == Err::<u8, ErrorKind>(mem_err(hl(s), m))
            }
        } else {
            let answer = sub_w16(pre.a as u16, reg8(s, reg) as u16);
            post == (CPU { a: (answer & 0xff) as u8, cc: spec_arith_flags(s.cc, answer), ..s })
                && r == Ok::<u8, ErrorKind>(4)
        }
    }
}

/// Subtracts the operand from the accumulator.
pub fn sub(reg: Register, state: &mut CPUInterface) -> (r: Result<u8, ErrorKind>)
    requires
        is_reg8(reg) || reg == Register::M,
    ensures
        sub_rel(reg, old(state).cpu, old(state).memory@, final(state).cpu, final(state).memory@, r),
{
    state.advance()?;
    let mut cycles: u8 = 4;
    let answer: u16 = match reg {
        Register::M => {
            cycles = 7;
            let offset = to_adr(state.cpu.h, state.cpu.l);
            let m = state.read(offset)? as u16;
            (state.cpu.a as u16).wrapping_sub(m)
        },
        r => (state.cpu.a as u16).wrapping_sub(state.get_u8(r) as u16),
    };
    state.cpu.cc.arith_flags(answer);
    state.cpu.a = (answer & 0xff) as u8;
    Ok(cycles)
}

/// What `sui` does: subtracts the immediate byte from the accumulator with
/// 8-bit wrap, sets zero/sign/parity from the result and carry exactly
/// when the immediate exceeded the accumulator.
pub open spec fn sui_rel(
    pre: CPU,
    m: Seq<u8>,
    post: CPU,
    m2: Seq<u8>,
    r: Result<u8, ErrorKind>,
) -> bool {
    m2 == m && if !adv_ok(pre, m) {
        post == pre && r == Err::<u8, ErrorKind>(adv_err(pre, m))
    } else {
        let s = adv_cpu(pre);
        let (v, s1) = r1(s, m);
        match v {
            Err(e) => post == s1 && r == Err::<u8, ErrorKind>(e),
            Ok(db) => {
                let result = sub_w8(pre.a, db);
                post == (CPU {
                    a: result,
                    cc: ConditionCodes { cy: pre.a < db, ..spec_zsp(s1.cc, result) },
                    ..s1
                }) && r == Ok::<u8, ErrorKind>(7)
            },
        }
    }
}

/// Subtracts the immediate byte from the accumulator.
pub fn sui(state: &mut CPUInterface) -> (r: Result<u8, ErrorKind>)
    ensures
        sui_rel(old(state).cpu, old(state).memory@, final(state).cpu, final(state).memory@, r),
{
    state.advance()?;
    let db = state.read_1()?;
    let a = state.cpu.a;
    let result = a.wrapping_sub(db);
    state.cpu.a = result;
    state.cpu.cc.flags_zsp(result);
    state.cpu.cc.cy = a < db;
    Ok(7)
}

/// What `sbi` does: subtracts the immediate byte and the previous carry
/// from the accumulator with 16-bit wrap; zero/sign/parity come from the
/// low result byte and carry from the wrapped raw result.
pub open spec fn sbi_rel(
    pre: CPU,
    m: Seq<u8>,
    post: CPU,
    m2: Seq<u8>,
    r: Result<u8, ErrorKind>,
) -> bool {
    m2 == m && if !adv_ok(pre, m) {
        post == pre && r == Err::<u8, ErrorKind>(adv_err(pre, m))
    } else {
        let s = adv_cpu(pre);
        let (v, s1) = r1(s, m);
        match v {
            Err(e) => post == s1 && r == Err::<u8, ErrorKind>(e),
            Ok(db) => {
                let result = sub_w16(sub_w16(pre.a as u16, db as u16), b2u(pre.cc.cy) as u16);
                post == (CPU {
                    a: (result & 0xff) as u8,
                    cc: ConditionCodes {
                        cy: result > 0xff,
                        ..spec_zsp(s1.cc, (result & 0xff) as u8)
                    },
                    ..s1
                }) && r == Ok::<u8, ErrorKind>(7)
            },
        }
    }
}

/// Subtracts the immediate byte and the previous carry from the
/// accumulator.
pub fn sbi(state: &mut CPUInterface) -> (r: Result<u8, ErrorKind>)
    ensures
        sbi_rel(old(state).cpu, old(state).memory@, final(state).cpu, final(state).memory@, r),
{
    state.advance()?;
    let db: u16 = state.read_1()? as u16;
    let carry: u16 = if state.cpu.cc.cy {
        1
    } else {
        0
    };
    let a: u16 = state.cpu.a as u16;
    let result = a.wrapping_sub(db).wrapping_sub(carry);
    state.cpu.a = (result & 0xff) as u8;
    state.cpu.cc.flags_zsp((result & 0xff) as u8);
    state.cpu.cc.cy = result > 255;
    Ok(7)
}

/// What `sbb` does: subtracts the operand and the previous carry from the
/// accumulator with 16-bit wrap and sets the arithmetic flags from the
/// wrapped raw result.
pub open spec fn sbb_rel(
    reg: Register,
    pre: CPU,
    m: Seq<u8>,
    post: CPU,
    m2: Seq<u8>,
    r: Result<u8, ErrorKind>,
) -> bool {
    m2 == m && if !adv_ok(pre, m) {
        post == pre && r == Err::<u8, ErrorKind>(adv_err(pre, m))
    } else {
        let s = adv_cpu(pre);
        let carry = b2u(pre.cc.cy) as u16;
        if reg == Register::M {
            if hl(s) < m.len() {
                let answer = sub_w16(sub_w16(pre.a as u16, m[hl(s) as int] as u16), carry);
                post == (CPU {
                    a: (answer & 0xff) as u8,
                    cc: spec_arith_flags(s.cc, answer),
                    ..s
                }) && r == Ok::<u8, ErrorKind>(7)
            } else {
                post == s && r == Err::<u8, ErrorKind>(mem_err(hl(s), m))
            }
        } else {
            let answer = sub_w16(sub_w16(pre.a as u16, reg8(s, reg) as u16), carry);
            post == (CPU { a: (answer & 0xff) as u8, cc: spec_arith_flags(s.cc, answer), ..s })
                && r == Ok::<u8, ErrorKind>(4)
        }
    }
}

/// Subtracts the operand and the previous carry from the accumulator.
pub fn sbb(reg: Register, state: &mut CPUInterface) -> (r: Result<u8, ErrorKind>)
    requires
        is_reg8(reg) || reg == Register::M,
    ensures
        sbb_rel(reg, old(state).cpu, old(state).memory@, final(state).cpu, final(state).memory@, r),
{
    state.advance()?;
    let mut cycles: u8 = 4;
    let carry: u16 = if state.cpu.cc.cy {
        1
    } else {
        0
    };
    let answer: u16 = match reg {
        Register::M => {
            cycles = 7;
            let offset = to_adr(state.cpu.h, state.cpu.l);
            let m = state.read(offset)? as u16;
            (state.cpu.a as u16).wrapping_sub(m).wrapping_sub(carry)
        },
        r => (state.cpu.a as u16).wrapping_sub(state.get_u8(r) as u16).wrapping_sub(carry),
    };
    state.cpu.cc.arith_flags(answer);
    state.cpu.a = (answer & 0xff) as u8;
    Ok(cycles)
}

/// The 16-bit value the register pair selector stands for in `dad`:
/// BC, DE, HL or the stack pointer.
pub open spec fn pair16(reg: Register, c: CPU) -> u16 {
    match reg {
        Register::B => to16(c.b, c.c),
        Register::D => to16(c.d, c.e),
        Register::H => to16(c.h, c.l),
        _ => c.sp,
    }
}

/// What `dad` does: adds the selected 16-bit pair to HL; carry is set
/// exactly when the 32-bit raw sum overflowed 16 bits; the low 16 bits of
/// the sum land in H and L. Costs 10 cycles.
pub open spec fn dad_rel(
    reg: Register,
    pre: CPU,
    m: Seq<u8>,
    post: CPU,
    m2: Seq<u8>,
    r: Result<u8, ErrorKind>,
) -> bool {
    m2 == m && if !adv_ok(pre, m) {
        post == pre && r == Err::<u8, ErrorKind>(adv_err(pre, m))
    } else {
        let s = adv_cpu(pre);
        let answer = (hl(s) + pair16(reg, s)) as u32;
        post == (CPU {
            h: ((answer / 256) % 256) as u8,
            l: (answer % 256) as u8,
            cc: ConditionCodes { cy: answer > 0xffff, ..s.cc },
            ..s
        }) && r == Ok::<u8, ErrorKind>(10)
    }
}

/// Adds the selected 16-bit register pair to HL.
pub fn dad(reg: Register, state: &mut CPUInterface) -> (r: Result<u8, ErrorKind>)
    requires
        reg == Register::B || reg == Register::D || reg == Register::H || reg == Register::SP,
    ensures
        dad_rel(reg, old(state).cpu, old(state).memory@, final(state).cpu, final(state).memory@, r),
{
    state.advance()?;
    let answer: u32 = match reg {
        Register::SP => {
            let hl = to_adr(state.cpu.h, state.cpu.l) as u32;
            hl + state.cpu.sp as u32
        },
        Register::B => {
            let bc = to_adr(state.cpu.b, state.cpu.c) as u32;
            let hl = to_adr(state.cpu.h, state.cpu.l) as u32;
            hl + bc
        },
        Register::D => {
            let de = to_adr(state.cpu.d, state.cpu.e) as u32;
            let hl = to_adr(state.cpu.h, state.cpu.l) as u32;
            hl + de
        },
        _ => {
            let hl = to_adr(state.cpu.h, state.cpu.l) as u32;
            hl + hl
        },
    };

    state.cpu.cc.cy = (answer & 0xffff0000) > 0;
    proof {
        let a = answer;
        assert(((a & 0xffff0000) > 0) == (a > 0xffff) && ((a & 0xff00) >> 8) == (a / 256) % 256
            && (a & 0xff) == a % 256 && (a / 256) % 256 < 256 && a % 256 < 256) by (bit_vector);
    }

    state.cpu.h = ((answer & 0xff00) >> 8) as u8;
    state.cpu.l = (answer & 0xff) as u8;
    Ok(10)
}

/// What `inr` does: increments the operand with 8-bit wrap, writes it
/// back, and sets zero/sign/parity from the result; carry is untouched.
/// Register form costs 5 cycles, memory form 10.
pub open spec fn inr_rel(
    reg: Register,
    pre: CPU,
    m: Seq<u8>,
    post: CPU,
    m2: Seq<u8>,
    r: Result<u8, ErrorKind>,
) -> bool {
    if !adv_ok(pre, m) {
        post == pre && m2 == m && r == Err::<u8, ErrorKind>(adv_err(pre, m))
    } else {
        let s = adv_cpu(pre);
        if reg == Register::M {
            if hl(s) < m.len() {
                let result = add_w8(m[hl(s) as int], 1);
                post == (CPU { cc: spec_zsp(s.cc, result), ..s }) && m2 == m.update(
                    hl(s) as int,
                    result,
                ) && r == Ok::<u8, ErrorKind>(10)
            } else {
                post == s && m2 == m && r == Err::<u8, ErrorKind>(mem_err(hl(s), m))
            }
        } else {
            let result = add_w8(reg8(s, reg), 1);
            post == (CPU { cc: spec_zsp(s.cc, result), ..set_reg8(s, reg, result) }) && m2 == m
                && r == Ok::<u8, ErrorKind>(5)
        }
    }
}

/// Increments the operand by one.
pub fn inr(reg: Register, state: &mut CPUInterface) -> (r: Result<u8, ErrorKind>)
    requires
        is_reg8(reg) || reg == Register::M,
    ensures
        inr_rel(reg, old(state).cpu, old(state).memory@, final(state).cpu, final(state).memory@, r),
{
    state.advance()?;
    let mut cycles: u8 = 5;
    let answer: u8 = match reg {
        Register::M => {
            cycles = 10;
            let offset = to_adr(state.cpu.h, state.cpu.l);
            let result = state.read(offset)?.wrapping_add(1);
            write_hl(state, result)?;
            result
        },
        r => {
            let result = state.get_u8(r).wrapping_add(1);
            state.set_u8(reg, result);
            result
        },
    };
    state.cpu.cc.flags_zsp(answer);
    Ok(cycles)
}

/// What `dcr` does: decrements the operand with 8-bit wrap, writes it
/// back, and sets zero/sign/parity from the result; carry is untouched.
pub open spec fn dcr_rel(
    reg: Register,
    pre: CPU,
    m: Seq<u8>,
    post: CPU,
    m2: Seq<u8>,
    r: Result<u8, ErrorKind>,
) -> bool {
    if !adv_ok(pre, m) {
        post == pre && m2 == m && r == Err::<u8, ErrorKind>(adv_err(pre, m))
    } else {
        let s = adv_cpu(pre);
        if reg == Register::M {
            if hl(s) < m.len() {
                let result = sub_w8(m[hl(s) as int], 1);
                post == (CPU { cc: spec_zsp(s.cc, result), ..s }) && m2 == m.update(
                    hl(s) as int,
                    result,
                ) && r == Ok::<u8, ErrorKind>(10)
            } else {
                post == s && m2 == m && r == Err::<u8, ErrorKind>(mem_err(hl(s), m))
            }
        } else {
            let result = sub_w8(reg8(s, reg), 1);
            post == (CPU { cc: spec_zsp(s.cc, result), ..set_reg8(s, reg, result) }) && m2 == m
                && r == Ok::<u8, ErrorKind>(5)
        }
    }
}

/// Decrements the operand by one.
#[verifier::spinoff_prover]
#[verifier::rlimit(50)]
pub fn dcr(reg: Register, state: &mut CPUInterface) -> (r: Result<u8, ErrorKind>)
    requires
        is_reg8(reg) || reg == Register::M,
    ensures
        dcr_rel(reg, old(state).cpu, old(state).memory@, final(state).cpu, final(state).memory@, r),
{
    state.advance()?;
    let mut cycles: u8 = 5;
    let answer: u8 = match reg {
        Register::M => {
            cycles = 10;
            let offset = to_adr(state.cpu.h, state.cpu.l);
            let m: u16 = state.read(offset)? as u16;
            let w = m.wrapping_sub(1);
            proof {
                assert(w & 0xff == w % 256 && w & 0xff < 256) by (bit_vector);
            }
            let result = (w & 0xff) as u8;
            write_hl(state, result)?;
            result
        },
        r => {
            let w = (state.get_u8(r) as u16).wrapping_sub(1);
            proof {
                assert(w & 0xff == w % 256 && w & 0xff < 256) by (bit_vector);
            }
            let result = (w & 0xff) as u8;
            state.set_u8(reg, result);
            result
        },
    };
    state.cpu.cc.flags_zsp(answer);
    Ok(cycles)
}

/// What `inx` does: increments the selected 16-bit pair with wrap, carry
/// rippling from the low into the high byte; no flags change. Costs 5
/// cycles.
pub open spec fn inx_rel(
    reg: Register,
    pre: CPU,
    m: Seq<u8>,
    post: CPU,
    m2: Seq<u8>,
    r: Result<u8, ErrorKind>,
) -> bool {
    m2 == m && if !adv_ok(pre, m) {
        post == pre && r == Err::<u8, ErrorKind>(adv_err(pre, m))
    } else {
        let s = adv_cpu(pre);
        r == Ok::<u8, ErrorKind>(5) && post == (match reg {
            Register::B => CPU {
                c: add_w8(s.c, 1),
                b: if add_w8(s.c, 1) == 0 {
                    add_w8(s.b, 1)
                } else {
                    s.b
                },
                ..s
            },
            Register::D => CPU {
                e: add_w8(s.e, 1),
                d: if add_w8(s.e, 1) == 0 {
                    add_w8(s.d, 1)
                } else {
                    s.d
                },
                ..s
            },
            Register::H => CPU {
                l: add_w8(s.l, 1),
                h: if add_w8(s.l, 1) == 0 {
                    add_w8(s.h, 1)
                } else {
                    s.h
                },
                ..s
            },
            _ => CPU { sp: add_w16(s.sp, 1), ..s },
        })
    }
}

/// Increments the selected 16-bit register pair.
pub fn inx(reg: Register, state: &mut CPUInterface) -> (r: Result<u8, ErrorKind>)
    requires
        reg == Register::B || reg == Register::D || reg == Register::H || reg == Register::SP,
    ensures
        inx_rel(reg, old(state).cpu, old(state).memory@, final(state).cpu, final(state).memory@, r),
{
    state.advance()?;
    match reg {
        Register::B => {
            state.cpu.c = state.cpu.c.wrapping_add(1);
            if state.cpu.c == 0 {
                state.cpu.b = state.cpu.b.wrapping_add(1);
            }
        },
        Register::D => {
            state.cpu.e = state.cpu.e.wrapping_add(1);
            if state.cpu.e == 0 {
                state.cpu.d = state.cpu.d.wrapping_add(1);
            }
        },
        Register::SP => {
            state.cpu.sp = state.cpu.sp.wrapping_add(1);
        },
        _ => {
            state.cpu.l = state.cpu.l.wrapping_add(1);
            if state.cpu.l == 0 {
                state.cpu.h = state.cpu.h.wrapping_add(1);
            }
        },
    }
    Ok(5)
}

/// What `dcx` does: decrements the selected 16-bit pair with wrap, borrow
/// rippling from the low into the high byte; no flags change. Costs 5
/// cycles.
pub open spec fn dcx_rel(
    reg: Register,
    pre: CPU,
    m: Seq<u8>,
    post: CPU,
    m2: Seq<u8>,
    r: Result<u8, ErrorKind>,
) -> bool {
    m2 == m && if !adv_ok(pre, m) {
        post == pre && r == Err::<u8, ErrorKind>(adv_err(pre, m))
    } else {
        let s = adv_cpu(pre);
        r == Ok::<u8, ErrorKind>(5) && post == (match reg {
            Register::B => CPU {
                c: sub_w8(s.c, 1),
                b: if sub_w8(s.c, 1) == 0xff {
                    sub_w8(s.b, 1)
                } else {
                    s.b
                },
                ..s
            },
            Register::D => CPU {
                e: sub_w8(s.e, 1),
                d: if sub_w8(s.e, 1) == 0xff {
                    sub_w8(s.d, 1)
                } else {
                    s.d
                },
                ..s
            },
            Register::H => CPU {
                l: sub_w8(s.l, 1),
                h: if sub_w8(s.l, 1) == 0xff {
                    sub_w8(s.h, 1)
                } else {
                    s.h
                },
                ..s
            },
            _ => CPU { sp: sub_w16(s.sp, 1), ..s },
        })
    }
}

/// Decrements the selected 16-bit register pair.
pub fn dcx(reg: Register, state: &mut CPUInterface) -> (r: Result<u8, ErrorKind>)
    requires
        reg == Register::B || reg == Register::D || reg == Register::H || reg == Register::SP,
    ensures
        dcx_rel(reg, old(state).cpu, old(state).memory@, final(state).cpu, final(state).memory@, r),
{
    state.advance()?;
    match reg {
        Register::B => {
            state.cpu.c = state.cpu.c.wrapping_sub(1);
            if state.cpu.c == 0xff {
                state.cpu.b = state.cpu.b.wrapping_sub(1);
            }
        },
        Register::D => {
            state.cpu.e = state.cpu.e.wrapping_sub(1);
            if state.cpu.e == 0xff {
                state.cpu.d = state.cpu.d.wrapping_sub(1);
            }
        },
        Register::SP => {
            state.cpu.sp = state.cpu.sp.wrapping_sub(1);
        },
        _ => {
            state.cpu.l = state.cpu.l.wrapping_sub(1);
            if state.cpu.l == 0xff {
                state.cpu.h = state.cpu.h.wrapping_sub(1);
            }
        },
    }
    Ok(5)
}

/// What `ani` does: ANDs the immediate byte into the accumulator and sets
/// the logical flags (carry and auxiliary-carry cleared). Costs 7 cycles.
pub open spec fn ani_rel(
    pre: CPU,
    m: Seq<u8>,
    post: CPU,
    m2: Seq<u8>,
    r: Result<u8, ErrorKind>,
) -> bool {
    m2 == m && if !adv_ok(pre, m) {
        post == pre && r == Err::<u8, ErrorKind>(adv_err(pre, m))
    } else {
        let s = adv_cpu(pre);
        let (v, s1) = r1(s, m);
        match v {
            Err(e) => post == s1 && r == Err::<u8, ErrorKind>(e),
            Ok(data) => {
                let answer = pre.a & data;
                post == (CPU { a: answer, cc: spec_logic_flags(answer), ..s1 }) && r == Ok::<
                    u8,
                    ErrorKind,
                >(7)
            },
        }
    }
}

/// ANDs the immediate byte into the accumulator.
pub fn ani(state: &mut CPUInterface) -> (r: Result<u8, ErrorKind>)
    ensures
        ani_rel(old(state).cpu, old(state).memory@, final(state).cpu, final(state).memory@, r),
{
    state.advance()?;
    let data = state.read_1()?;
    let answer = state.cpu.a & data;

    state.cpu.cc.logic_flags(answer);
    state.cpu.a = answer;
    Ok(7)
}

/// What the register-operand logical family (`ana`, `xra`, `ora`) does:
/// applies the bitwise operation between the accumulator and the operand,
/// stores the result in the accumulator and sets the logical flags.
pub open spec fn log_rel(
    reg: Register,
    op: BitOp,
    cycles: u8,
    pre: CPU,
    m: Seq<u8>,
    post: CPU,
    m2: Seq<u8>,
    r: Result<u8, ErrorKind>,
) -> bool {
    m2 == m && if !adv_ok(pre, m) {
        post == pre && r == Err::<u8, ErrorKind>(adv_err(pre, m))
    } else {
        let s = adv_cpu(pre);
        if reg == Register::M {
            if hl(s) < m.len() {
                let answer = bit_op(op, pre.a, m[hl(s) as int]);
                post == (CPU { a: answer, cc: spec_logic_flags(answer), ..s }) && r == Ok::<
                    u8,
                    ErrorKind,
                >(cycles)
            } else {
                post == s && r == Err::<u8, ErrorKind>(mem_err(hl(s), m))
            }
        } else {
            let answer = bit_op(op, pre.a, reg8(s, reg));
            post == (CPU { a: answer, cc: spec_logic_flags(answer), ..s }) && r == Ok::<
                u8,
                ErrorKind,
            >(cycles)
        }
    }
}

/// Applies a bitwise operation between the accumulator and a register or
/// memory operand.
pub fn log(reg: Register, state: &mut CPUInterface, cycles: u8, op: BitOp) -> (r: Result<
    u8,
    ErrorKind,
>)
    requires
        is_reg8(reg) || reg == Register::M,
    ensures
        log_rel(
            reg,
            op,
            cycles,
            old(state).cpu,
            old(state).memory@,
            final(state).cpu,
            final(state).memory@,
            r,
        ),
{
    state.advance()?;
    let answer: u8 = match reg {
        Register::M => {
            let v = read_hl(state)?;
            apply_bit_op(op, state.cpu.a, v)
        },
        r => apply_bit_op(op, state.cpu.a, state.get_u8(r)),
    };
    state.cpu.a = answer;
    state.cpu.cc.logic_flags(answer);
    Ok(cycles)
}

/// What the immediate logical family (`ori`, `xri`) does: applies the
/// bitwise operation between the accumulator and the immediate byte,
/// stores the result and sets the logical flags.
pub open spec fn logi_rel(
    op: BitOp,
    cycles: u8,
    pre: CPU,
    m: Seq<u8>,
    post: CPU,
    m2: Seq<u8>,
    r: Result<u8, ErrorKind>,
) -> bool {
    m2 == m && if !adv_ok(pre, m) {
        post == pre && r == Err::<u8, ErrorKind>(adv_err(pre, m))
    } else {
        let s = adv_cpu(pre);
        let (v, s1) = r1(s, m);
        match v {
            Err(e) => post == s1 && r == Err::<u8, ErrorKind>(e),
            Ok(val) => {
                let answer = bit_op(op, pre.a, val);
                post == (CPU { a: answer, cc: spec_logic_flags(answer), ..s1 }) && r == Ok::<
                    u8,
                    ErrorKind,
                >(cycles)
            },
        }
    }
}

/// Applies a bitwise operation between the accumulator and the immediate
/// byte.
pub fn logi(state: &mut CPUInterface, cycles: u8, op: BitOp) -> (r: Result<u8, ErrorKind>)
    ensures
        logi_rel(
            op,
            cycles,
            old(state).cpu,
            old(state).memory@,
            final(state).cpu,
            final(state).memory@,
            r,
        ),
{
    state.advance()?;
    let val = state.read_1()?;
    let answer = apply_bit_op(op, state.cpu.a, val);
    state.cpu.a = answer;
    state.cpu.cc.logic_flags(answer);
    Ok(cycles)
}

/// What `cpi` does: compares the accumulator with the immediate byte by
/// subtraction without writing back; zero/sign/parity come from the
/// difference and carry is set exactly when the immediate exceeded the
/// accumulator. Costs 7 cycles.
pub open spec fn cpi_rel(
    pre: CPU,
    m: Seq<u8>,
    post: CPU,
    m2: Seq<u8>,
    r: Result<u8, ErrorKind>,
) -> bool {
    m2 == m && if !adv_ok(pre, m) {
        post == pre && r == Err::<u8, ErrorKind>(adv_err(pre, m))
    } else {
        let s = adv_cpu(pre);
        let (v, s1) = r1(s, m);
        match v {
            Err(e) => post == s1 && r == Err::<u8, ErrorKind>(e),
            Ok(immediate) => {
                let x = sub_w8(pre.a, immediate);
                post == (CPU {
                    cc: ConditionCodes { cy: pre.a < immediate, ..spec_zsp(s1.cc, x) },
                    ..s1
                }) && r == Ok::<u8, ErrorKind>(7)
            },
        }
    }
}

/// Compares the accumulator with the immediate byte.
pub fn cpi(state: &mut CPUInterface) -> (r: Result<u8, ErrorKind>)
    ensures
        cpi_rel(old(state).cpu, old(state).memory@, final(state).cpu, final(state).memory@, r),
{
    state.advance()?;
    let immediate = state.read_1()?;
    let a = state.cpu.a;
    let x = a.wrapping_sub(immediate);
    state.cpu.cc.flags_zsp(x);
    state.cpu.cc.cy = a < immediate;
    Ok(7)
}

/// What `cmp` does: compares the accumulator with the operand by 16-bit
/// wrapping subtraction without writing back; the arithmetic flags are set
/// from the wrapped raw difference.
pub open spec fn cmp_rel(
    reg: Register,
    pre: CPU,
    m: Seq<u8>,
    post: CPU,
    m2: Seq<u8>,
    r: Result<u8, ErrorKind>,
) -> bool {
    m2 == m && if !adv_ok(pre, m) {
        post == pre && r == Err::<u8, ErrorKind>(adv_err(pre, m))
    } else {
        let s = adv_cpu(pre);
        if reg == Register::M {
            if hl(s) < m.len() {
                let x = sub_w16(pre.a as u16, m[hl(s) as int] as u16);
                post == (CPU { cc: spec_arith_flags(s.cc, x), ..s }) && r == Ok::<u8, ErrorKind>(7)
            } else {
                post == s && r == Err::<u8, ErrorKind>(mem_err(hl(s), m))
            }
        } else {
            let x = sub_w16(pre.a as u16, reg8(s, reg) as u16);
            post == (CPU { cc: spec_arith_flags(s.cc, x), ..s }) && r == Ok::<u8, ErrorKind>(4)
        }
    }
}

/// Compares the accumulator with a register or memory operand.
pub fn cmp(reg: Register, state: &mut CPUInterface) -> (r: Result<u8, ErrorKind>)
    requires
        is_reg8(reg) || reg == Register::M,
    ensures
        cmp_rel(reg, old(state).cpu, old(state).memory@, final(state).cpu, final(state).memory@, r),
{
    state.advance()?;
    let a: u16 = state.cpu.a as u16;
    let mut cycles: u8 = 4;
    let x: u16 = match reg {
        Register::M => {
            cycles = 7;
            let val = read_hl(state)?;
            a.wrapping_sub(val as u16)
        },
        r => {
            let val = state.get_u8(r);
            a.wrapping_sub(val as u16)
        },
    };
    state.cpu.cc.arith_flags(x);
    Ok(cycles)
}

/// What `rlc` does: rotates the accumulator left one bit; the bit shifted
/// out of the top lands both in the carry and in bit 0. Costs 4 cycles.
pub open spec fn rlc_rel(
    pre: CPU,
    m: Seq<u8>,
    post: CPU,
    m2: Seq<u8>,
    r: Result<u8, ErrorKind>,
) -> bool {
    m2 == m && if !adv_ok(pre, m) {
        post == pre && r == Err::<u8, ErrorKind>(adv_err(pre, m))
    } else {
        let s = adv_cpu(pre);
        post == (CPU {
            a: (pre.a << 1) | ((pre.a & 0x80) >> 7),
            cc: ConditionCodes { cy: pre.a & 0x80 == 0x80, ..s.cc },
            ..s
        }) && r == Ok::<u8, ErrorKind>(4)
    }
}

/// Rotates the accumulator left; carry takes the bit shifted out.
pub fn rlc(state: &mut CPUInterface) -> (r: Result<u8, ErrorKind>)
    ensures
        rlc_rel(old(state).cpu, old(state).memory@, final(state).cpu, final(state).memory@, r),
{
    state.advance()?;
    let x = state.cpu.a;
    state.cpu.a = (x << 1) | ((x & 0x80) >> 7);
    state.cpu.cc.cy = 128 == (x & 128);
    proof {
        let x0 = x;
        assert((128 == (x0 & 128)) == (x0 & 0x80 == 0x80)) by (bit_vector);
    }
    Ok(4)
}

/// What `ral` does: rotates the accumulator left through the carry; the
/// previous carry enters bit 0 and the bit shifted out of the top becomes
/// the new carry. Costs 4 cycles.
pub open spec fn ral_rel(
    pre: CPU,
    m: Seq<u8>,
    post: CPU,
    m2: Seq<u8>,
    r: Result<u8, ErrorKind>,
) -> bool {
    m2 == m && if !adv_ok(pre, m) {
        post == pre && r == Err::<u8, ErrorKind>(adv_err(pre, m))
    } else {
        let s = adv_cpu(pre);
        post == (CPU {
            a: b2u(pre.cc.cy) | (pre.a << 1),
            cc: ConditionCodes { cy: pre.a & 0x80 == 0x80, ..s.cc },
            ..s
        }) && r == Ok::<u8, ErrorKind>(4)
    }
}

/// Rotates the accumulator left through the carry.
pub fn ral(state: &mut CPUInterface) -> (r: Result<u8, ErrorKind>)
    ensures
        ral_rel(old(state).cpu, old(state).memory@, final(state).cpu, final(state).memory@, r),
{
    state.advance()?;
    let x = state.cpu.a;
    let carry: u8 = if state.cpu.cc.cy {
        1
    } else {
        0
    };
    state.cpu.a = carry | (x << 1);
    state.cpu.cc.cy = 128 == (x & 128);
    proof {
        let x0 = x;
        assert((128 == (x0 & 128)) == (x0 & 0x80 == 0x80)) by (bit_vector);
    }
    Ok(4)
}

/// What `rrc` does: rotates the accumulator right one bit; the bit shifted
/// out of the bottom lands both in the carry and in bit 7. Costs 4 cycles.
pub open spec fn rrc_rel(
    pre: CPU,
    m: Seq<u8>,
    post: CPU,
    m2: Seq<u8>,
    r: Result<u8, ErrorKind>,
) -> bool {
    m2 == m && if !adv_ok(pre, m) {
        post == pre && r == Err::<u8, ErrorKind>(adv_err(pre, m))
    } else {
        let s = adv_cpu(pre);
        post == (CPU {
            a: ((pre.a & 1) << 7) | (pre.a >> 1),
            cc: ConditionCodes { cy: pre.a & 1 == 1, ..s.cc },
            ..s
        }) && r == Ok::<u8, ErrorKind>(4)
    }
}

/// Rotates the accumulator right; carry takes the bit shifted out.
pub fn rrc(state: &mut CPUInterface) -> (r: Result<u8, ErrorKind>)
    ensures
        rrc_rel(old(state).cpu, old(state).memory@, final(state).cpu, final(state).memory@, r),
{
    state.advance()?;
    let x = state.cpu.a;
    state.cpu.a = ((x & 1) << 7) | (x >> 1);
    state.cpu.cc.cy = 1 == (x & 1);
    Ok(4)
}

/// What `rar` does: rotates the accumulator right through the carry; the
/// previous carry enters bit 7 and the bit shifted out of the bottom
/// becomes the new carry. Costs 4 cycles.
pub open spec fn rar_rel(
    pre: CPU,
    m: Seq<u8>,
    post: CPU,
    m2: Seq<u8>,
    r: Result<u8, ErrorKind>,
) -> bool {
    m2 == m && if !adv_ok(pre, m) {
        post == pre && r == Err::<u8, ErrorKind>(adv_err(pre, m))
    } else {
        let s = adv_cpu(pre);
        post == (CPU {
            a: (b2u(pre.cc.cy) << 7) | (pre.a >> 1),
            cc: ConditionCodes { cy: pre.a & 1 == 1, ..s.cc },
            ..s
        }) && r == Ok::<u8, ErrorKind>(4)
    }
}

/// Rotates the accumulator right through the carry.
pub fn rar(state: &mut CPUInterface) -> (r: Result<u8, ErrorKind>)
    ensures
        rar_rel(old(state).cpu, old(state).memory@, final(state).cpu, final(state).memory@, r),
{
    state.advance()?;
    let x = state.cpu.a;
    let carry: u8 = if state.cpu.cc.cy {
        1
    } else {
        0
    };
    state.cpu.a = (carry << 7) | (x >> 1);
    state.cpu.cc.cy = 1 == (x & 1);
    Ok(4)
}

/// What the one-byte accumulator and flag instructions (`nop`, `cma`,
/// `stc`, `cmc`, `ei`, `di` and the `rim` placeholder) do: advance the
/// program counter and apply the stated change to one field.
pub open spec fn simple_rel(
    pre: CPU,
    m: Seq<u8>,
    post: CPU,
    m2: Seq<u8>,
    r: Result<u8, ErrorKind>,
    changed: CPU,
) -> bool {
    m2 == m && if !adv_ok(pre, m) {
        post == pre && r == Err::<u8, ErrorKind>(adv_err(pre, m))
    } else {
        post == changed && r == Ok::<u8, ErrorKind>(4)
    }
}

/// Complements the carry flag.
pub fn cmc(state: &mut CPUInterface) -> (r: Result<u8, ErrorKind>)
    ensures
        simple_rel(
            old(state).cpu,
            old(state).memory@,
            final(state).cpu,
            final(state).memory@,
            r,
            CPU {
                cc: ConditionCodes { cy: !old(state).cpu.cc.cy, ..old(state).cpu.cc },
                ..adv_cpu(old(state).cpu)
            },
        ),
{
    state.advance()?;
    let was: u8 = int_bool(state.cpu.cc.cy);
    proof {
        let w = was;
        assert((w ^ 1 == 1) == (w == 0)) by (bit_vector);
    }
    state.cpu.cc.cy = was ^ 1 == 1;
    Ok(4)
}

/// What `lxi` does: loads the two immediate bytes into the selected
/// 16-bit pair, low byte first. For BC, DE and HL the low register is
/// assigned before the second byte is read; for SP both bytes are read
/// first. Costs 10 cycles.
pub open spec fn lxi_rel(
    reg: Register,
    pre: CPU,
    m: Seq<u8>,
    post: CPU,
    m2: Seq<u8>,
    r: Result<u8, ErrorKind>,
) -> bool {
    m2 == m && if !adv_ok(pre, m) {
        post == pre && r == Err::<u8, ErrorKind>(adv_err(pre, m))
    } else {
        let s = adv_cpu(pre);
        let (v1, s1) = r1(s, m);
        match v1 {
            Err(e) => post == s1 && r == Err::<u8, ErrorKind>(e),
            Ok(b1) => {
                let s1p = match reg {
                    Register::B => CPU { c: b1, ..s1 },
                    Register::D => CPU { e: b1, ..s1 },
                    Register::H => CPU { l: b1, ..s1 },
                    _ => s1,
                };
                let (v2, s2) = r1(s1p, m);
                match v2 {
                    Err(e) => post == s2 && r == Err::<u8, ErrorKind>(e),
                    Ok(b2) => r == Ok::<u8, ErrorKind>(10) && post == (match reg {
                        Register::B => CPU { b: b2, ..s2 },
                        Register::D => CPU { d: b2, ..s2 },
                        Register::H => CPU { h: b2, ..s2 },
                        _ => CPU { sp: to16(b2, b1), ..s2 },
                    }),
                }
            },
        }
    }
}

/// Loads the two immediate bytes into the selected 16-bit register pair.
pub fn lxi(reg: Register, state: &mut CPUInterface) -> (r: Result<u8, ErrorKind>)
    requires
        reg == Register::B || reg == Register::D || reg == Register::H || reg == Register::SP,
    ensures
        lxi_rel(reg, old(state).cpu, old(state).memory@, final(state).cpu, final(state).memory@, r),
{
    state.advance()?;
    match reg {
        Register::SP => {
            let l = state.read_1()?;
            let h = state.read_1()?;
            state.cpu.sp = to_adr(h, l);
        },
        Register::B => {
            state.cpu.c = state.read_1()?;
            state.cpu.b = state.read_1()?;
        },
        Register::D => {
            state.cpu.e = state.read_1()?;
            state.cpu.d = state.read_1()?;
        },
        _ => {
            state.cpu.l = state.read_1()?;
            state.cpu.h = state.read_1()?;
        },
    }
    Ok(10)
}

/// What `lda` does: reads a two-byte address operand and loads the
/// accumulator from that address. Costs 13 cycles.
pub open spec fn lda_rel(
    pre: CPU,
    m: Seq<u8>,
    post: CPU,
    m2: Seq<u8>,
    r: Result<u8, ErrorKind>,
) -> bool {
    m2 == m && if !adv_ok(pre, m) {
        post == pre && r == Err::<u8, ErrorKind>(adv_err(pre, m))
    } else {
        let s = adv_cpu(pre);
        let (v, s1) = r2(s, m);
        match v {
            Err(e) => post == s1 && r == Err::<u8, ErrorKind>(e),
            Ok(adr) => if adr < m.len() {
                post == (CPU { a: m[adr as int], ..s1 }) && r == Ok::<u8, ErrorKind>(13)
            } else {
                post == s1 && r == Err::<u8, ErrorKind>(mem_err(adr, m))
            },
        }
    }
}

/// Loads the accumulator from the direct address operand.
pub fn lda(state: &mut CPUInterface) -> (r: Result<u8, ErrorKind>)
    ensures
        lda_rel(old(state).cpu, old(state).memory@, final(state).cpu, final(state).memory@, r),
{
    state.advance()?;
    let adr = read_2_address(state)?;
    state.cpu.a = state.read(adr)?;
    Ok(13)
}

/// What `sta` does: reads a two-byte address operand and stores the
/// accumulator at that address. Costs 13 cycles.
pub open spec fn sta_rel(
    pre: CPU,
    m: Seq<u8>,
    post: CPU,
    m2: Seq<u8>,
    r: Result<u8, ErrorKind>,
) -> bool {
    if !adv_ok(pre, m) {
        post == pre && m2 == m && r == Err::<u8, ErrorKind>(adv_err(pre, m))
    } else {
        let s = adv_cpu(pre);
        let (v, s1) = r2(s, m);
        match v {
            Err(e) => post == s1 && m2 == m && r == Err::<u8, ErrorKind>(e),
            Ok(adr) => if adr < m.len() {
                post == s1 && m2 == m.update(adr as int, pre.a) && r == Ok::<u8, ErrorKind>(13)
            } else {
                post == s1 && m2 == m && r == Err::<u8, ErrorKind>(mem_err(adr, m))
            },
        }
    }
}

/// Stores the accumulator at the direct address operand.
pub fn sta(state: &mut CPUInterface) -> (r: Result<u8, ErrorKind>)
    ensures
        sta_rel(old(state).cpu, old(state).memory@, final(state).cpu, final(state).memory@, r),
{
    state.advance()?;
    let a = state.cpu.a;
    let adr = read_2_address(state)?;
    state.write(adr, a)?;
    Ok(13)
}

/// What `lhld` does: reads a two-byte address operand and loads L from
/// that address and H from the next one, the second address wrapping
/// within 16 bits. L is assigned before the second load is attempted.
/// Costs 16 cycles.
pub open spec fn lhld_rel(
    pre: CPU,
    m: Seq<u8>,
    post: CPU,
    m2: Seq<u8>,
    r: Result<u8, ErrorKind>,
) -> bool {
    m2 == m && if !adv_ok(pre, m) {
        post == pre && r == Err::<u8, ErrorKind>(adv_err(pre, m))
    } else {
        let s = adv_cpu(pre);
        let (v, s1) = r2(s, m);
        match v {
            Err(e) => post == s1 && r == Err::<u8, ErrorKind>(e),
            Ok(adr) => if adr >= m.len() {
                post == s1 && r == Err::<u8, ErrorKind>(mem_err(adr, m))
            } else if add_w16(adr, 1) >= m.len() {
                post == (CPU { l: m[adr as int], ..s1 }) && r == Err::<u8, ErrorKind>(
                    mem_err(add_w16(adr, 1), m),
                )
            } else {
                post == (CPU { l: m[adr as int], h: m[add_w16(adr, 1) as int], ..s1 }) && r
                    == Ok::<u8, ErrorKind>(16)
            },
        }
    }
}

/// Loads the HL pair from the direct address operand and its successor.
pub fn lhld(state: &mut CPUInterface) -> (r: Result<u8, ErrorKind>)
    ensures
        lhld_rel(old(state).cpu, old(state).memory@, final(state).cpu, final(state).memory@, r),
{
    state.advance()?;
    let l = state.read_1()?;
    let h = state.read_1()?;
    let adr = to_adr(h, l);
    state.cpu.l = state.read(adr)?;
    state.cpu.h = state.read(adr.wrapping_add(1))?;
    Ok(16)
}

/// What `shld` does: reads a two-byte address operand and stores L at
/// that address and H at the next one, the second address wrapping within
/// 16 bits. The first store lands even when the second fails. Costs 16
/// cycles.
pub open spec fn shld_rel(
    pre: CPU,
    m: Seq<u8>,
    post: CPU,
    m2: Seq<u8>,
    r: Result<u8, ErrorKind>,
) -> bool {
    if !adv_ok(pre, m) {
        post == pre && m2 == m && r == Err::<u8, ErrorKind>(adv_err(pre, m))
    } else {
        let s = adv_cpu(pre);
        let (v, s1) = r2(s, m);
        match v {
            Err(e) => post == s1 && m2 == m && r == Err::<u8, ErrorKind>(e),
            Ok(adr) => if adr >= m.len() {
                post == s1 && m2 == m && r == Err::<u8, ErrorKind>(mem_err(adr, m))
            } else if add_w16(adr, 1) >= m.len() {
                post == s1 && m2 == m.update(adr as int, pre.l) && r == Err::<u8, ErrorKind>(
                    mem_err(add_w16(adr, 1), m),
                )
            } else {
                post == s1 && m2 == m.update(adr as int, pre.l).update(
                    add_w16(adr, 1) as int,
                    pre.h,
                ) && r == Ok::<u8, ErrorKind>(16)
            },
        }
    }
}

/// Stores the HL pair at the direct address operand and its successor.
pub fn shld(state: &mut CPUInterface) -> (r: Result<u8, ErrorKind>)
    ensures
        shld_rel(old(state).cpu, old(state).memory@, final(state).cpu, final(state).memory@, r),
{
    state.advance()?;
    let l = state.read_1()?;
    let h = state.read_1()?;
    let adr = to_adr(h, l);
    state.write(adr, state.cpu.l)?;
    state.write(adr.wrapping_add(1), state.cpu.h)?;
    Ok(16)
}

/// What `xchg` does: swaps the DE and HL pairs. Costs 4 cycles.
pub open spec fn xchg_rel(
    pre: CPU,
    m: Seq<u8>,
    post: CPU,
    m2: Seq<u8>,
    r: Result<u8, ErrorKind>,
) -> bool {
    m2 == m && if !adv_ok(pre, m) {
        post == pre && r == Err::<u8, ErrorKind>(adv_err(pre, m))
    } else {
        let s = adv_cpu(pre);
        post == (CPU { d: pre.h, e: pre.l, h: pre.d, l: pre.e, ..s }) && r == Ok::<u8, ErrorKind>(
            4,
        )
    }
}

/// Swaps the DE and HL register pairs.
pub fn xchg(state: &mut CPUInterface) -> (r: Result<u8, ErrorKind>)
    ensures
        xchg_rel(old(state).cpu, old(state).memory@, final(state).cpu, final(state).memory@, r),
{
    state.advance()?;
    let d = state.cpu.d;
    let e = state.cpu.e;
    state.cpu.d = state.cpu.h;
    state.cpu.e = state.cpu.l;
    state.cpu.h = d;
    state.cpu.l = e;
    Ok(4)
}

/// What `xthl` does: exchanges HL with the two bytes at the top of the
/// stack (low at sp, high at sp+1, the second address wrapping within 16
/// bits). L is assigned before the high byte is read. Costs 18 cycles.
pub open spec fn xthl_rel(
    pre: CPU,
    m: Seq<u8>,
    post: CPU,
    m2: Seq<u8>,
    r: Result<u8, ErrorKind>,
) -> bool {
    if !adv_ok(pre, m) {
        post == pre && m2 == m && r == Err::<u8, ErrorKind>(adv_err(pre, m))
    } else {
        let s = adv_cpu(pre);
        let sp = pre.sp;
        let sp1 = add_w16(sp, 1);
        if sp >= m.len() {
            post == s && m2 == m && r == Err::<u8, ErrorKind>(mem_err(sp, m))
        } else if sp1 >= m.len() {
            post == (CPU { l: m[sp as int], ..s }) && m2 == m && r == Err::<u8, ErrorKind>(
                mem_err(sp1, m),
            )
        } else {
            post == (CPU { l: m[sp as int], h: m[sp1 as int], ..s }) && m2 == m.update(
                sp as int,
                pre.l,
            ).update(sp1 as int, pre.h) && r == Ok::<u8, ErrorKind>(18)
        }
    }
}

/// Exchanges HL with the two bytes at the top of the stack.
pub fn xthl(state: &mut CPUInterface) -> (r: Result<u8, ErrorKind>)
    ensures
        xthl_rel(old(state).cpu, old(state).memory@, final(state).cpu, final(state).memory@, r),
{
    state.advance()?;
    let h = state.cpu.h;
    let l = state.cpu.l;
    let sp = state.cpu.sp;
    state.cpu.l = state.read(sp)?;
    state.cpu.h = state.read(sp.wrapping_add(1))?;

    state.write(sp, l)?;
    state.write(sp.wrapping_add(1), h)?;
    Ok(18)
}

/// What `ldax` does: loads the accumulator from the address in the BC or
/// DE pair. Costs 7 cycles.
pub open spec fn ldax_rel(
    reg: Register,
    pre: CPU,
    m: Seq<u8>,
    post: CPU,
    m2: Seq<u8>,
    r: Result<u8, ErrorKind>,
) -> bool {
    m2 == m && if !adv_ok(pre, m) {
        post == pre && r == Err::<u8, ErrorKind>(adv_err(pre, m))
    } else {
        let s = adv_cpu(pre);
        let adr = if reg == Register::B {
            to16(pre.b, pre.c)
        } else {
            to16(pre.d, pre.e)
        };
        if adr < m.len() {
            post == (CPU { a: m[adr as int], ..s }) && r == Ok::<u8, ErrorKind>(7)
        } else {
            post == s && r == Err::<u8, ErrorKind>(mem_err(adr, m))
        }
    }
}

/// Loads the accumulator from the address in the selected pair.
pub fn ldax(reg: Register, state: &mut CPUInterface) -> (r: Result<u8, ErrorKind>)
    requires
        reg == Register::B || reg == Register::D,
    ensures
        ldax_rel(
            reg,
            old(state).cpu,
            old(state).memory@,
            final(state).cpu,
            final(state).memory@,
            r,
        ),
{
    state.advance()?;
    match reg {
        Register::B => {
            let b = state.cpu.b;
            let c = state.cpu.c;
            state.cpu.a = state.read(to_adr(b, c))?;
        },
        _ => {
            let d = state.cpu.d;
            let e = state.cpu.e;
            state.cpu.a = state.read(to_adr(d, e))?;
        },
    }
    Ok(7)
}

/// What `stax` does: stores the accumulator at the address in the BC or
/// DE pair; any other selector is rejected with an operand error after
/// the program counter has advanced. Costs 7 cycles.
pub open spec fn stax_rel(
    reg: Register,
    pre: CPU,
    m: Seq<u8>,
    post: CPU,
    m2: Seq<u8>,
    r: Result<u8, ErrorKind>,
) -> bool {
    if !adv_ok(pre, m) {
        post == pre && m2 == m && r == Err::<u8, ErrorKind>(adv_err(pre, m))
    } else {
        let s = adv_cpu(pre);
        if reg == Register::B || reg == Register::D {
            let adr = if reg == Register::B {
                to16(pre.b, pre.c)
            } else {
                to16(pre.d, pre.e)
            };
            if adr < m.len() {
                post == s && m2 == m.update(adr as int, pre.a) && r == Ok::<u8, ErrorKind>(7)
            } else {
                post == s && m2 == m && r == Err::<u8, ErrorKind>(mem_err(adr, m))
            }
        } else {
            post == s && m2 == m && r == Err::<u8, ErrorKind>(ErrorKind::OpError(reg))
        }
    }
}

/// Stores the accumulator at the address in the selected pair.
pub fn stax(reg: Register, state: &mut CPUInterface) -> (r: Result<u8, ErrorKind>)
    ensures
        stax_rel(
            reg,
            old(state).cpu,
            old(state).memory@,
            final(state).cpu,
            final(state).memory@,
            r,
        ),
{
    state.advance()?;
    match reg {
        Register::D => {
            let a = state.cpu.a;
            let adr = to_adr(state.cpu.d, state.cpu.e);
            state.write(adr, a)?;
        },
        Register::B => {
            let a = state.cpu.a;
            let adr = to_adr(state.cpu.b, state.cpu.c);
            state.write(adr, a)?;
        },
        r => {
            return Err(ErrorKind::OpError(r));
        },
    }
    Ok(7)
}

/// What `mov` does: copies the source operand to the destination operand;
/// either may be the memory byte at HL, but not both. Register-to-register
/// form costs 5 cycles, either memory form 7.
pub open spec fn mov_rel(
    dst: Register,
    src: Register,
    pre: CPU,
    m: Seq<u8>,
    post: CPU,
    m2: Seq<u8>,
    r: Result<u8, ErrorKind>,
) -> bool {
    if !adv_ok(pre, m) {
        post == pre && m2 == m && r == Err::<u8, ErrorKind>(adv_err(pre, m))
    } else {
        let s = adv_cpu(pre);
        if dst == Register::M {
            if hl(s) < m.len() {
                post == s && m2 == m.update(hl(s) as int, reg8(s, src)) && r == Ok::<
                    u8,
                    ErrorKind,
                >(7)
            } else {
                post == s && m2 == m && r == Err::<u8, ErrorKind>(mem_err(hl(s), m))
            }
        } else if src == Register::M {
            if hl(s) < m.len() {
                post == set_reg8(s, dst, m[hl(s) as int]) && m2 == m && r == Ok::<u8, ErrorKind>(7)
            } else {
                post == s && m2 == m && r == Err::<u8, ErrorKind>(mem_err(hl(s), m))
            }
        } else {
            post == set_reg8(s, dst, reg8(s, src)) && m2 == m && r == Ok::<u8, ErrorKind>(5)
        }
    }
}

/// Copies the source operand to the destination operand.
pub fn mov(reg: Register, reg2: Register, state: &mut CPUInterface) -> (r: Result<u8, ErrorKind>)
    requires
        is_reg8(reg) || reg == Register::M,
        is_reg8(reg2) || reg2 == Register::M,
        !(reg == Register::M && reg2 == Register::M),
    ensures
        mov_rel(
            reg,
            reg2,
            old(state).cpu,
            old(state).memory@,
            final(state).cpu,
            final(state).memory@,
            r,
        ),
{
    state.advance()?;
    let mut cycles: u8 = 5;
    match (reg, reg2) {
        (Register::M, r) => {
            cycles = 7;
            let offset = to_adr(state.cpu.h, state.cpu.l);
            let val = state.get_u8(r);
            state.write(offset, val)?;
        },
        (r, Register::M) => {
            cycles = 7;
            let offset = to_adr(state.cpu.h, state.cpu.l);
            let val = state.read(offset)?;
            state.set_u8(r, val);
        },
        (r1, r2) => {
            let data = state.get_u8(r2);
            state.set_u8(r1, data);
        },
    }
    Ok(cycles)
}

/// What `mvi` does: loads the immediate byte into the destination operand
/// (a register, or the memory byte at HL). Register form costs 7 cycles,
/// memory form 10.
pub open spec fn mvi_rel(
    reg: Register,
    pre: CPU,
    m: Seq<u8>,
    post: CPU,
    m2: Seq<u8>,
    r: Result<u8, ErrorKind>,
) -> bool {
    if !adv_ok(pre, m) {
        post == pre && m2 == m && r == Err::<u8, ErrorKind>(adv_err(pre, m))
    } else {
        let s = adv_cpu(pre);
        let (v, s1) = r1(s, m);
        match v {
            Err(e) => post == s1 && m2 == m && r == Err::<u8, ErrorKind>(e),
            Ok(data) => if reg == Register::M {
                if hl(s1) < m.len() {
                    post == s1 && m2 == m.update(hl(s1) as int, data) && r == Ok::<u8, ErrorKind>(
                        10,
                    )
                } else {
                    post == s1 && m2 == m && r == Err::<u8, ErrorKind>(mem_err(hl(s1), m))
                }
            } else {
                post == set_reg8(s1, reg, data) && m2 == m && r == Ok::<u8, ErrorKind>(7)
            },
        }
    }
}

/// Loads the immediate byte into the destination operand.
pub fn mvi(reg: Register, state: &mut CPUInterface) -> (r: Result<u8, ErrorKind>)
    requires
        is_reg8(reg) || reg == Register::M,
    ensures
        mvi_rel(reg, old(state).cpu, old(state).memory@, final(state).cpu, final(state).memory@, r),
{
    state.advance()?;
    let mut cycles: u8 = 7;
    match reg {
        Register::M => {
            cycles = 10;
            let h = state.cpu.h;
            let l = state.cpu.l;
            let data = state.read_1()?;
            state.write(to_adr(h, l), data)?;
        },
        r => {
            let l = state.read_1()?;
            state.set_u8(r, l);
        },
    }
    Ok(cycles)
}

/// The pair of bytes `push` stores for a selector: low part first (at
/// sp-2), high part second (at sp-1). For PSW the accumulator is the
/// high part and the packed status word the low part.
pub open spec fn push_bytes(reg: Register, c: CPU) -> (u8, u8) {
    match reg {
        Register::B => (c.c, c.b),
        Register::D => (c.e, c.d),
        Register::H => (c.l, c.h),
        _ => (pack_psw(c.cc), c.a),
    }
}

/// What `push` does: stores the selected pair on the stack, the low part
/// at sp-2 and the high part at sp-1 (addresses wrapping within 16 bits),
/// then lowers the stack pointer by two. For BC, DE and HL the low slot
/// is written first; for PSW the accumulator at sp-1 is written first.
/// Costs 11 cycles.
pub open spec fn push_rel(
    reg: Register,
    pre: CPU,
    m: Seq<u8>,
    post: CPU,
    m2: Seq<u8>,
    r: Result<u8, ErrorKind>,
) -> bool {
    if !adv_ok(pre, m) {
        post == pre && m2 == m && r == Err::<u8, ErrorKind>(adv_err(pre, m))
    } else {
        let s = adv_cpu(pre);
        let lo_at = sub_w16(pre.sp, 2);
        let hi_at = sub_w16(pre.sp, 1);
        let (lo, hi) = push_bytes(reg, pre);
        let (first_at, first, second_at, second) = if reg == Register::PSW {
            (hi_at, hi, lo_at, lo)
        } else {
            (lo_at, lo, hi_at, hi)
        };
        if first_at >= m.len() {
            post == s && m2 == m && r == Err::<u8, ErrorKind>(mem_err(first_at, m))
        } else if second_at >= m.len() {
            post == s && m2 == m.update(first_at as int, first) && r == Err::<u8, ErrorKind>(
                mem_err(second_at, m),
            )
        } else {
            post == (CPU { sp: lo_at, ..s }) && m2 == m.update(first_at as int, first).update(
                second_at as int,
                second,
            ) && r == Ok::<u8, ErrorKind>(11)
        }
    }
}

/// Pushes the selected pair (or the accumulator and packed status word)
/// onto the stack.
pub fn push(reg: Register, state: &mut CPUInterface) -> (r: Result<u8, ErrorKind>)
    requires
        reg == Register::B || reg == Register::D || reg == Register::H || reg == Register::PSW,
    ensures
        push_rel(
            reg,
            old(state).cpu,
            old(state).memory@,
            final(state).cpu,
            final(state).memory@,
            r,
        ),
{
    state.advance()?;
    let sp = state.cpu.sp;
    match reg {
        Register::B => {
            let c = state.cpu.c;
            let b = state.cpu.b;
            state.write(sp.wrapping_sub(2), c)?;
            state.write(sp.wrapping_sub(1), b)?;
        },
        Register::D => {
            let e = state.cpu.e;
            let d = state.cpu.d;
            state.write(sp.wrapping_sub(2), e)?;
            state.write(sp.wrapping_sub(1), d)?;
        },
        Register::H => {
            let l = state.cpu.l;
            let h = state.cpu.h;
            state.write(sp.wrapping_sub(2), l)?;
            state.write(sp.wrapping_sub(1), h)?;
        },
        _ => {
            let a = state.cpu.a;
            let psw = int_bool(state.cpu.cc.z) | int_bool(state.cpu.cc.s) << 1 | int_bool(
                state.cpu.cc.p,
            ) << 2 | int_bool(state.cpu.cc.cy) << 3 | int_bool(state.cpu.cc.ac) << 4;
            state.write(sp.wrapping_sub(1), a)?;
            state.write(sp.wrapping_sub(2), psw)?;
        },
    }
    state.cpu.sp = sp.wrapping_sub(2);
    Ok(11)
}

/// What `pop` does: restores the selected pair from the stack (high part
/// read from sp+1 first, then the low part from sp, the first address
/// wrapping within 16 bits), then raises the stack pointer by two. For
/// PSW the accumulator comes from sp+1 and the condition codes are
/// unpacked from the byte at sp. Costs 10 cycles.
pub open spec fn pop_rel(
    reg: Register,
    pre: CPU,
    m: Seq<u8>,
    post: CPU,
    m2: Seq<u8>,
    r: Result<u8, ErrorKind>,
) -> bool {
    m2 == m && if !adv_ok(pre, m) {
        post == pre && r == Err::<u8, ErrorKind>(adv_err(pre, m))
    } else {
        let s = adv_cpu(pre);
        let sp = pre.sp;
        let sp1 = add_w16(sp, 1);
        if sp1 >= m.len() {
            post == s && r == Err::<u8, ErrorKind>(mem_err(sp1, m))
        } else {
            let hi = m[sp1 as int];
            let s_hi = match reg {
                Register::B => CPU { b: hi, ..s },
                Register::D => CPU { d: hi, ..s },
                Register::H => CPU { h: hi, ..s },
                _ => CPU { a: hi, ..s },
            };
            if sp >= m.len() {
                post == s_hi && r == Err::<u8, ErrorKind>(mem_err(sp, m))
            } else {
                let lo = m[sp as int];
                r == Ok::<u8, ErrorKind>(10) && post == (match reg {
                    Register::B => CPU { c: lo, sp: add_w16(sp, 2), ..s_hi },
                    Register::D => CPU { e: lo, sp: add_w16(sp, 2), ..s_hi },
                    Register::H => CPU { l: lo, sp: add_w16(sp, 2), ..s_hi },
                    _ => CPU { cc: unpack_psw(lo), sp: add_w16(sp, 2), ..s_hi },
                })
            }
        }
    }
}

/// Pops the selected pair (or the accumulator and packed status word)
/// off the stack.
pub fn pop(reg: Register, state: &mut CPUInterface) -> (r: Result<u8, ErrorKind>)
    requires
        reg == Register::B || reg == Register::D || reg == Register::H || reg == Register::PSW,
    ensures
        pop_rel(
            reg,
            old(state).cpu,
            old(state).memory@,
            final(state).cpu,
            final(state).memory@,
            r,
        ),
{
    state.advance()?;
    let sp = state.cpu.sp;
    match reg {
        Register::B => {
            state.cpu.b = state.read(sp.wrapping_add(1))?;
            state.cpu.c = state.read(sp)?;
        },
        Register::D => {
            state.cpu.d = state.read(sp.wrapping_add(1))?;
            state.cpu.e = state.read(sp)?;
        },
        Register::H => {
            state.cpu.h = state.read(sp.wrapping_add(1))?;
            state.cpu.l = state.read(sp)?;
        },
        _ => {
            state.cpu.a = state.read(sp.wrapping_add(1))?;
            let psw = state.read(sp)?;
            state.cpu.cc.z = 0x01 == (psw & 0x01);
            state.cpu.cc.s = 0x02 == (psw & 0x02);
            state.cpu.cc.p = 0x04 == (psw & 0x04);
            state.cpu.cc.cy = 0x08 == (psw & 0x08);
            state.cpu.cc.ac = 0x10 == (psw & 0x10);
        },
    }
    state.cpu.sp = sp.wrapping_add(2);
    Ok(10)
}

/// What `sphl` does: copies HL into the stack pointer. Costs 5 cycles.
pub open spec fn sphl_rel(
    pre: CPU,
    m: Seq<u8>,
    post: CPU,
    m2: Seq<u8>,
    r: Result<u8, ErrorKind>,
) -> bool {
    m2 == m && if !adv_ok(pre, m) {
        post == pre && r == Err::<u8, ErrorKind>(adv_err(pre, m))
    } else {
        let s = adv_cpu(pre);
        post == (CPU { sp: hl(s), ..s }) && r == Ok::<u8, ErrorKind>(5)
    }
}

/// Copies HL into the stack pointer.
pub fn sphl(state: &mut CPUInterface) -> (r: Result<u8, ErrorKind>)
    ensures
        sphl_rel(old(state).cpu, old(state).memory@, final(state).cpu, final(state).memory@, r),
{
    state.advance()?;
    let h = state.cpu.h;
    let l = state.cpu.l;
    state.cpu.sp = to_adr(h, l);
    Ok(5)
}

/// What `pchl` does: copies HL into the program counter. Costs 5 cycles.
pub open spec fn pchl_rel(
    pre: CPU,
    m: Seq<u8>,
    post: CPU,
    m2: Seq<u8>,
    r: Result<u8, ErrorKind>,
) -> bool {
    m2 == m && if !adv_ok(pre, m) {
        post == pre && r == Err::<u8, ErrorKind>(adv_err(pre, m))
    } else {
        let s = adv_cpu(pre);
        post == (CPU { pc: hl(s), ..s }) && r == Ok::<u8, ErrorKind>(5)
    }
}

/// Copies HL into the program counter.
pub fn pchl(state: &mut CPUInterface) -> (r: Result<u8, ErrorKind>)
    ensures
        pchl_rel(old(state).cpu, old(state).memory@, final(state).cpu, final(state).memory@, r),
{
    state.advance()?;
    let h = state.cpu.h;
    let l = state.cpu.l;
    state.cpu.pc = to_adr(h, l);
    Ok(5)
}

/// What the return family does: when the condition holds, the program
/// counter is restored from the two stack bytes (low at sp, high at sp+1,
/// the second address wrapping within 16 bits) and the stack pointer is
/// raised by two — for 10 cycles when taken unconditionally, 11 when a
/// condition was tested; otherwise only the program counter advances past
/// the opcode, for 5 cycles.
pub open spec fn ret_if_rel(
    cond: Cond,
    pre: CPU,
    m: Seq<u8>,
    post: CPU,
    m2: Seq<u8>,
    r: Result<u8, ErrorKind>,
) -> bool {
    m2 == m && if !adv_ok(pre, m) {
        post == pre && r == Err::<u8, ErrorKind>(adv_err(pre, m))
    } else {
        let s = adv_cpu(pre);
        if holds(cond, pre.cc) {
            let sp = pre.sp;
            let sp1 = add_w16(sp, 1);
            let cycles: u8 = if cond == Cond::Always {
                10
            } else {
                11
            };
            if sp >= m.len() {
                post == s && r == Err::<u8, ErrorKind>(mem_err(sp, m))
            } else if sp1 >= m.len() {
                post == s && r == Err::<u8, ErrorKind>(mem_err(sp1, m))
            } else {
                post == (CPU { pc: to16(m[sp1 as int], m[sp as int]), sp: add_w16(sp, 2), ..s })
                    && r == Ok::<u8, ErrorKind>(cycles)
            }
        } else {
            post == s && r == Ok::<u8, ErrorKind>(5)
        }
    }
}

/// Returns from a subroutine when the condition holds.
pub fn ret_if(state: &mut CPUInterface, cond: Cond) -> (r: Result<u8, ErrorKind>)
    ensures
        ret_if_rel(
            cond,
            old(state).cpu,
            old(state).memory@,
            final(state).cpu,
            final(state).memory@,
            r,
        ),
{
    state.advance()?;
    if cond.eval(&state.cpu.cc) {
        let sp = state.cpu.sp;
        let l = state.read(sp)?;
        let h = state.read(sp.wrapping_add(1))?;
        state.cpu.pc = to_adr(h, l);
        state.cpu.sp = sp.wrapping_add(2);
        if matches!(cond, Cond::Always) {
            Ok(10)
        } else {
            Ok(11)
        }
    } else {
        Ok(5)
    }
}

/// What the jump family does: when the condition holds, the two-byte
/// address operand replaces the program counter; a debug-mode jump to
/// address 0 is the deliberate exit signal instead. When the condition
/// does not hold, the counter skips the operand bytes with 16-bit wrap.
/// Costs 10 cycles either way.
pub open spec fn jmp_if_rel(
    cond: Cond,
    pre: CPU,
    m: Seq<u8>,
    post: CPU,
    m2: Seq<u8>,
    r: Result<u8, ErrorKind>,
) -> bool {
    m2 == m && if !adv_ok(pre, m) {
        post == pre && r == Err::<u8, ErrorKind>(adv_err(pre, m))
    } else {
        let s = adv_cpu(pre);
        if holds(cond, pre.cc) {
            let (v, s1) = r2(s, m);
            match v {
                Err(e) => post == s1 && r == Err::<u8, ErrorKind>(e),
                Ok(adr) => if pre.debug && adr == 0 {
                    post == s1 && r == Err::<u8, ErrorKind>(ErrorKind::Exit(0))
                } else {
                    post == (CPU { pc: adr, ..s1 }) && r == Ok::<u8, ErrorKind>(10)
                },
            }
        } else {
            post == (CPU { pc: add_w16(s.pc, 2), ..s }) && r == Ok::<u8, ErrorKind>(10)
        }
    }
}

/// Jumps to the address operand when the condition holds.
pub fn jmp_if(state: &mut CPUInterface, cond: Cond) -> (r: Result<u8, ErrorKind>)
    ensures
        jmp_if_rel(
            cond,
            old(state).cpu,
            old(state).memory@,
            final(state).cpu,
            final(state).memory@,
            r,
        ),
{
    state.advance()?;
    if cond.eval(&state.cpu.cc) {
        let l = state.read_1()?;
        let h = state.read_1()?;

        if state.cpu.debug && l == 0x0 && h == 0x0 {
            return Err(ErrorKind::Exit(0));
        }
        state.cpu.pc = to_adr(h, l);
    } else {
        state.cpu.pc = state.cpu.pc.wrapping_add(2);
    }
    Ok(10)
}

/// The sequence of bytes a debug-mode console message occupies: the bytes
/// from `i` up to the first `'$'` terminator, the end of memory, or the
/// top of the address space, whichever comes first.
pub open spec fn msg(m: Seq<u8>, i: u16) -> Seq<u8>
    decreases 0x10000 - i,
{
    if i >= m.len() {
        Seq::empty()
    } else if m[i as int] == 0x24 {
        Seq::empty()
    } else if i == 0xffff {
        seq![m[i as int]]
    } else {
        seq![m[i as int]] + msg(m, (i + 1) as u16)
    }
}

/// A byte mapped to its ASCII upper-case form.
pub open spec fn ascii_upper(b: u8) -> u8 {
    if 0x61 <= b <= 0x7a {
        (b - 0x20) as u8
    } else {
        b
    }
}

/// The ASCII character of the hexadecimal digit `d` (0 to 15).
pub open spec fn hex_digit(d: u8) -> u8 {
    if d < 10 {
        (0x30 + d) as u8
    } else {
        (0x41 + d - 10) as u8
    }
}

/// The `0xNN` text form of a byte, as the diagnostic console renders it.
pub open spec fn hex_text(v: u8) -> Seq<u8> {
    seq![0x30u8, 0x78u8, hex_digit(v / 16), hex_digit(v % 16)]
}

/// What `call` does. In debug mode two destinations are intercepted: a
/// call to address 5 emulates the diagnostic console (when C holds 9 the
/// `'$'`-terminated message at DE+3 is appended to the console buffer;
/// when C holds 2 the byte in E is appended upper-cased as `0xNN`
/// hexadecimal text; any other C does nothing) without calling anything,
/// and a call to address 0 is the deliberate exit signal. Otherwise the
/// address of the next instruction is pushed on the stack (high byte at
/// sp-1 first, then low byte at sp-2, addresses wrapping within 16
/// bits), the stack pointer drops by two and the program counter takes
/// the address operand. The counter is redirected before the stack bytes
/// are written. Costs 17 cycles.
pub open spec fn call_rel(
    pre: CPU,
    m: Seq<u8>,
    post: CPU,
    m2: Seq<u8>,
    r: Result<u8, ErrorKind>,
) -> bool {
    if !adv_ok(pre, m) {
        post == pre && m2 == m && r == Err::<u8, ErrorKind>(adv_err(pre, m))
    } else {
        let s = adv_cpu(pre);
        let (v, s1) = r2(s, m);
        match v {
            Err(e) => post == s1 && m2 == m && r == Err::<u8, ErrorKind>(e),
            Ok(adr) => if pre.debug && adr == 5 {
                m2 == m && r == Ok::<u8, ErrorKind>(17) && if pre.c == 9 {
                    post == (CPU { console: post.console, ..s1 }) && post.console@ == s1.console@
                        + msg(m, add_w16(to16(pre.d, pre.e), 3))
                } else if pre.c == 2 {
                    post == (CPU { console: post.console, ..s1 }) && post.console@ == s1.console@
                        + hex_text(ascii_upper(pre.e))
                } else {
                    post == s1
                }
            } else if pre.debug && adr == 0 {
                post == s1 && m2 == m && r == Err::<u8, ErrorKind>(ErrorKind::Exit(0))
            } else {
                let ret = s1.pc;
                let hi_at = sub_w16(pre.sp, 1);
                let lo_at = sub_w16(pre.sp, 2);
                let s2 = CPU { pc: adr, ..s1 };
                if hi_at >= m.len() {
                    post == s2 && m2 == m && r == Err::<u8, ErrorKind>(mem_err(hi_at, m))
                } else if lo_at >= m.len() {
                    post == s2 && m2 == m.update(hi_at as int, (ret / 256) as u8) && r == Err::<
                        u8,
                        ErrorKind,
                    >(mem_err(lo_at, m))
                } else {
                    post == (CPU { sp: lo_at, ..s2 }) && m2 == m.update(
                        hi_at as int,
                        (ret / 256) as u8,
                    ).update(lo_at as int, (ret % 256) as u8) && r == Ok::<u8, ErrorKind>(17)
                }
            },
        }
    }
}

/// Calls the subroutine at the address operand.
pub fn call(state: &mut CPUInterface) -> (r: Result<u8, ErrorKind>)
    ensures
        call_rel(old(state).cpu, old(state).memory@, final(state).cpu, final(state).memory@, r),
{
    state.advance()?;
    let l = state.read_1()?;
    let h = state.read_1()?;
    let adr = to_adr(h, l);

    if state.cpu.debug && adr == 5 {
        if state.cpu.c == 9 {
            let mut offset = to_adr(state.cpu.d, state.cpu.e).wrapping_add(3);
            let ghost s1 = state.cpu;
            let ghost m = state.memory@;
            let ghost start = offset;
            loop
                invariant_except_break
                    state.memory@ == m,
                    state.cpu == (CPU { console: state.cpu.console, ..s1 }),
                    s1.console@ + msg(m, start) == state.cpu.console@ + msg(m, offset),
                ensures
                    state.memory@ == m,
                    state.cpu == (CPU { console: state.cpu.console, ..s1 }),
                    state.cpu.console@ == s1.console@ + msg(m, start),
                decreases 0x10000 - offset,
            {
                let b = match state.read(offset) {
                    Ok(b) => b,
                    Err(_) => {
                        proof {
                            assert(state.cpu.console@ + msg(m, offset) =~= state.cpu.console@);
                        }
                        break ;
                    },
                };
                if b == 0x24 {
                    proof {
                        assert(state.cpu.console@ + msg(m, offset) =~= state.cpu.console@);
                    }
                    break ;
                }
                let ghost before = state.cpu.console@;
                state.cpu.console.push(b);
                if offset == 0xffff {
                    proof {
                        assert(msg(m, offset) =~= seq![b]);
                        assert(before + msg(m, offset) =~= state.cpu.console@);
                    }
                    break ;
                }
                proof {
                    assert(msg(m, offset) =~= seq![b] + msg(m, (offset + 1) as u16));
                    assert(before + (seq![b] + msg(m, (offset + 1) as u16)) =~= state.cpu.console@
                        + msg(m, (offset + 1) as u16));
                }
                offset = offset + 1;
            }
        } else if state.cpu.c == 2 {
            let e = state.cpu.e;
            let u = if 0x61 <= e && e <= 0x7a {
                e - 0x20
            } else {
                e
            };
            let ghost before = state.cpu.console@;
            state.cpu.console.push(0x30);
            state.cpu.console.push(0x78);
            let hi = u / 16;
            let lo = u % 16;
            state.cpu.console.push(
                if hi < 10 {
                    0x30 + hi
                } else {
                    0x41 + hi - 10
                },
            );
            state.cpu.console.push(
                if lo < 10 {
                    0x30 + lo
                } else {
                    0x41 + lo - 10
                },
            );
            proof {
                assert(state.cpu.console@ =~= before + hex_text(u));
            }
        }
        Ok(17)
    } else if state.cpu.debug && adr == 0 {
        Err(ErrorKind::Exit(0))
    } else {
        let ret = state.cpu.pc;
        let sp = state.cpu.sp;
        let sp2 = sp.wrapping_sub(2);

        state.cpu.pc = adr;
        proof {
            let rr = ret;
            assert(((rr >> 8) & 0xff) == rr / 256 && (rr & 0xff) == rr % 256 && rr / 256 < 256)
                by (bit_vector);
        }

        state.write(sp.wrapping_sub(1), ((ret >> 8) & 0xff) as u8)?;
        state.write(sp2, (ret & 0xff) as u8)?;
        state.cpu.sp = sp2;

        Ok(17)
    }
}

/// What the call family does: when the condition holds this is `call`;
/// otherwise the program counter skips the whole three-byte instruction
/// with 16-bit wrap, for 11 cycles.
pub open spec fn call_if_rel(
    cond: Cond,
    pre: CPU,
    m: Seq<u8>,
    post: CPU,
    m2: Seq<u8>,
    r: Result<u8, ErrorKind>,
) -> bool {
    if holds(cond, pre.cc) {
        call_rel(pre, m, post, m2, r)
    } else {
        post == (CPU { pc: add_w16(pre.pc, 3), ..pre }) && m2 == m && r == Ok::<u8, ErrorKind>(11)
    }
}

/// Calls the subroutine at the address operand when the condition holds.
pub fn call_if(state: &mut CPUInterface, cond: Cond) -> (r: Result<u8, ErrorKind>)
    ensures
        call_if_rel(
            cond,
            old(state).cpu,
            old(state).memory@,
            final(state).cpu,
            final(state).memory@,
            r,
        ),
{
    if cond.eval(&state.cpu.cc) {
        call(state)
    } else {
        state.cpu.pc = state.cpu.pc.wrapping_add(3);
        Ok(11)
    }
}

/// Does nothing but advance the program counter, for 4 cycles: the no-op
/// family and the `rim` placeholder.
pub fn nop(state: &mut CPUInterface) -> (r: Result<u8, ErrorKind>)
    ensures
        simple_rel(
            old(state).cpu,
            old(state).memory@,
            final(state).cpu,
            final(state).memory@,
            r,
            adv_cpu(old(state).cpu),
        ),
{
    state.advance()?;
    Ok(4)
}

/// Complements the accumulator; no flags change.
pub fn cma(state: &mut CPUInterface) -> (r: Result<u8, ErrorKind>)
    ensures
        simple_rel(
            old(state).cpu,
            old(state).memory@,
            final(state).cpu,
            final(state).memory@,
            r,
            CPU { a: !old(state).cpu.a, ..adv_cpu(old(state).cpu) },
        ),
{
    state.advance()?;
    state.cpu.a = !state.cpu.a;
    Ok(4)
}

/// Sets the carry flag.
pub fn stc(state: &mut CPUInterface) -> (r: Result<u8, ErrorKind>)
    ensures
        simple_rel(
            old(state).cpu,
            old(state).memory@,
            final(state).cpu,
            final(state).memory@,
            r,
            CPU {
                cc: ConditionCodes { cy: true, ..old(state).cpu.cc },
                ..adv_cpu(old(state).cpu)
            },
        ),
{
    state.advance()?;
    state.cpu.cc.cy = true;
    Ok(4)
}

/// Enables interrupt delivery.
pub fn ei(state: &mut CPUInterface) -> (r: Result<u8, ErrorKind>)
    ensures
        simple_rel(
            old(state).cpu,
            old(state).memory@,
            final(state).cpu,
            final(state).memory@,
            r,
            CPU { int_enable: 1, ..adv_cpu(old(state).cpu) },
        ),
{
    state.advance()?;
    state.cpu.int_enable = 1;
    Ok(4)
}

/// Disables interrupt delivery.
pub fn di(state: &mut CPUInterface) -> (r: Result<u8, ErrorKind>)
    ensures
        simple_rel(
            old(state).cpu,
            old(state).memory@,
            final(state).cpu,
            final(state).memory@,
            r,
            CPU { int_enable: 0, ..adv_cpu(old(state).cpu) },
        ),
{
    state.advance()?;
    state.cpu.int_enable = 0;
    Ok(4)
}

} // verus!
