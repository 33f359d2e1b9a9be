//! The CPU register file and condition codes, the bounded history of
//! recently executed instructions, and the combined CPU-plus-memory handle
//! that the instruction executors mutate.

use crate::memory;
use crate::memory::Memory;
use crate::ops::{Instruction, OpCode, Register};
use vstd::prelude::*;

verus! {

/// A failure raised while executing the machine.
#[derive(Debug)]
pub enum ErrorKind {
    /// A shared lock over the CPU could not be acquired.
    LockErr,
    /// A bounds-checked memory access failed.
    MemoryError(memory::Error),
    /// An error forwarded from the device interface collaborator.
    MachineInterfaceError(Box<crate::machine::Error>),
    /// The program counter was advanced outside the addressable range;
    /// carries the new counter and the memory length.
    PCOutOfRange(u16, u16),
    /// The byte at the program counter maps to no opcode.
    UnknownOp(u8),
    /// The opcode decodes to an instruction the executor does not implement.
    UnimplementedInstruction(OpCode),
    /// The opcode is mapped but has no executor.
    UnimplementedOp(OpCode),
    /// An instruction was invoked with an operand it does not accept;
    /// carries the offending register selector.
    OpError(Register),
    /// The running program signalled deliberate termination; not a defect.
    Exit(u8),
}

/// The value of bit `i` of `x`, as 0 or 1.
pub open spec fn bit(x: u8, i: u8) -> int {
    if (x >> i) & 1 == 1 {
        1
    } else {
        0
    }
}

/// How many of the bits of `x` strictly below position `k` are set.
pub open spec fn ones_below(x: u8, k: int) -> int
    decreases k,
{
    if k <= 0 {
        0
    } else {
        ones_below(x, k - 1) + bit(x, (k - 1) as u8)
    }
}

/// True when `x` has an even number of set bits.
pub open spec fn spec_parity(x: u8) -> bool {
    ones_below(x, 8) % 2 == 0
}

/// Bit-count parity of a byte: true for an even number of set bits.
pub fn parity(x: u8) -> (r: bool)
    ensures
        r == spec_parity(x),
{
    let mut num_bits: u8 = 0;
    let mut i: u8 = 0;
    while i < 8
        invariant
            i <= 8,
            num_bits == ones_below(x, i as int),
            num_bits <= i,
        decreases 8 - i,
    {
        if (x >> i) & 1 == 1 {
            num_bits += 1;
        }
        i += 1;
    }
    num_bits % 2 == 0
}

/// The parity lookup table: entry `i` holds the bit-count parity of byte
/// `i`, for all 256 byte values. Computed once at startup and never
/// mutated afterward.
pub fn parity_table() -> (t: Vec<bool>)
    ensures
        t@.len() == 256,
        forall|i: int| 0 <= i < 256 ==> t@[i] == spec_parity(i as u8),
{
    let mut t: Vec<bool> = Vec::new();
    let mut i: usize = 0;
    while i < 256
        invariant
            i <= 256,
            t@.len() == i,
            forall|j: int| 0 <= j < i ==> t@[j] == spec_parity(j as u8),
        decreases 256 - i,
    {
        t.push(parity(i as u8));
        i += 1;
    }
    t
}

/// The five condition codes: zero, sign, parity, carry and
/// auxiliary-carry. They are derived from instruction results, never set
/// directly except by the explicit carry instructions and the PSW pop.
/// Auxiliary-carry is declared but never computed by any instruction path;
/// it stays false unless restored by a PSW pop.
#[derive(Copy, Clone, Debug, PartialEq, Eq, Structural)]
pub struct ConditionCodes {
    pub z: bool,
    pub s: bool,
    pub p: bool,
    pub cy: bool,
    pub ac: bool,
}

/// The zero/sign/parity part of the codes set from byte `v`, with carry
/// and auxiliary-carry kept from `cc`.
pub open spec fn spec_zsp(cc: ConditionCodes, v: u8) -> ConditionCodes {
    ConditionCodes {
        z: v == 0,
        s: v & 0x80 == 0x80,
        p: spec_parity(v),
        ..cc
    }
}

/// All codes as the logical operations set them from result byte `v`:
/// zero/sign/parity from the byte, carry and auxiliary-carry cleared.
pub open spec fn spec_logic_flags(v: u8) -> ConditionCodes {
    ConditionCodes { z: v == 0, s: v & 0x80 == 0x80, p: spec_parity(v), cy: false, ac: false }
}

/// The codes as the arithmetic operations set them from the 16-bit raw
/// result `v`: carry from overflow past 255, zero/sign/parity from the low
/// byte, auxiliary-carry kept from `cc`.
pub open spec fn spec_arith_flags(cc: ConditionCodes, v: u16) -> ConditionCodes {
    ConditionCodes {
        z: v & 0xff == 0,
        s: v & 0x80 == 0x80,
        p: spec_parity((v & 0xff) as u8),
        cy: v > 0xff,
        ac: cc.ac,
    }
}

impl ConditionCodes {
    /// Sets the codes from the result byte of a logical operation:
    /// zero/sign/parity from the byte, carry and auxiliary-carry cleared
    /// (logical operations produce no carry out).
    pub fn logic_flags(&mut self, a: u8)
        ensures
            *final(self) == spec_logic_flags(a),
    {
        self.cy = false;
        self.ac = false;
        self.z = a == 0;
        self.s = 0x80 == (a & 0x80);
        self.parity(a, 8);
    }

    /// Sets the parity code from the bit-count parity of `x`.
    pub fn parity(&mut self, x: u8, _size: u32)
        ensures
            *final(self) == (ConditionCodes { p: spec_parity(x), ..*old(self) }),
    {
        self.p = parity(x);
    }

    /// Sets the zero code: the low byte of `v` is zero.
    pub fn zero(&mut self, v: u16)
        ensures
            *final(self) == (ConditionCodes { z: v & 0xff == 0, ..*old(self) }),
    {
        self.z = v & 0xff == 0;
    }

    /// Sets the sign code: bit 7 of `v` is set.
    pub fn sign(&mut self, v: u16)
        ensures
            *final(self) == (ConditionCodes { s: v & 0x80 == 0x80, ..*old(self) }),
    {
        self.s = 0x80 == (v & 0x80);
    }

    /// Sets the carry code: `v` exceeds a byte.
    pub fn carry(&mut self, v: u16)
        ensures
            *final(self) == (ConditionCodes { cy: v > 0xff, ..*old(self) }),
    {
        self.cy = v > 0xff;
    }

    /// Sets carry, sign, parity and zero from the 16-bit raw result of an
    /// arithmetic operation.
    pub fn arith_flags(&mut self, v: u16)
        ensures
            *final(self) == spec_arith_flags(*old(self), v),
    {
        self.carry(v);
        self.sign(v);
        self.parity((v & 0xff) as u8, 8);
        self.zero(v);
    }

    /// Sets zero, sign and parity from result byte `v`, leaving carry and
    /// auxiliary-carry as they were.
    pub fn flags_zsp(&mut self, v: u8)
        ensures
            *final(self) == spec_zsp(*old(self), v),
    {
        self.z = v == 0;
        self.s = 0x80 == (v & 0x80);
        self.parity(v, 8);
    }
}

/// A bounded ring of the most recently executed instructions, kept for
/// post-mortem inspection. Holds the 256 most recent entries; pushing a
/// new entry overwrites the oldest slot.
#[derive(Debug)]
pub struct History {
    buf: Vec<Option<Instruction>>,
    next: usize,
}

impl View for History {
    type V = Seq<Option<Instruction>>;

    closed spec fn view(&self) -> Seq<Option<Instruction>> {
        self.buf@
    }
}

impl History {
    #[verifier::type_invariant]
    spec fn inv(&self) -> bool {
        self.buf@.len() == 256 && self.next < 256
    }

    /// The slot the next pushed entry will occupy.
    pub closed spec fn cursor(&self) -> usize {
        self.next
    }

    /// An empty history: 256 empty slots.
    pub fn new() -> (h: History)
        ensures
            h@.len() == 256,
            forall|i: int| 0 <= i < 256 ==> h@[i] is None,
            h.cursor() == 0,
    {
        let mut buf: Vec<Option<Instruction>> = Vec::new();
        let mut i: usize = 0;
        while i < 256
            invariant
                i <= 256,
                buf@.len() == i,
                forall|j: int| 0 <= j < i ==> buf@[j] is None,
            decreases 256 - i,
        {
            buf.push(None);
            i += 1;
        }
        History { buf, next: 0 }
    }

    /// Records one instruction, overwriting the oldest slot.
    pub fn push(&mut self, i: Instruction)
        ensures
            final(self)@ == old(self)@.update(old(self).cursor() as int, Some(i)),
            final(self).cursor() == (old(self).cursor() + 1) % 256,
    {
        proof {
            use_type_invariant(&*self);
        }
        let n = self.next;
        self.buf[n] = Some(i);
        self.next = (n + 1) % 256;
    }

    /// The entry in slot `i`.
    pub fn get(&self, i: usize) -> (r: Option<Instruction>)
        requires
            i < 256,
        ensures
            r == self@[i as int],
    {
        proof {
            use_type_invariant(&*self);
        }
        self.buf[i]
    }
}

/// The CPU register file: seven 8-bit general registers, the 16-bit stack
/// pointer and program counter, the condition codes, the interrupt-enable
/// flag, and the running cycle and iteration counters.
#[derive(Debug)]
pub struct CPU {
    pub a: u8,
    pub b: u8,
    pub c: u8,
    pub d: u8,
    pub e: u8,
    pub h: u8,
    pub l: u8,
    pub sp: u16,
    pub pc: u16,
    pub cc: ConditionCodes,
    pub int_enable: u8,
    pub iters: u64,
    pub last_instruction: Option<(Instruction, u16)>,
    pub pause: bool,
    pub debug: bool,
    pub cycles: u128,
    pub history: History,
    /// Bytes the running program emitted through the debug-mode console
    /// intercept; the host drains and prints them.
    pub console: Vec<u8>,
}

/// A freshly reset CPU: all registers, codes and counters cleared.
pub fn new() -> (cpu: CPU)
    ensures
        fresh_cpu(cpu),
{
    CPU {
        a: 0x0,
        b: 0x0,
        c: 0x0,
        d: 0x0,
        e: 0x0,
        h: 0x0,
        l: 0x0,
        cc: ConditionCodes { z: false, s: false, p: false, cy: false, ac: false },
        sp: 0x0,
        pc: 0x0,
        int_enable: 0,
        iters: 0,
        last_instruction: None,
        pause: false,
        debug: false,
        cycles: 0,
        history: History::new(),
        console: Vec::new(),
    }
}

/// True when `r` selects one of the seven addressable 8-bit registers.
pub open spec fn is_reg8(r: Register) -> bool {
    r == Register::A || r == Register::B || r == Register::C || r == Register::D || r
        == Register::E || r == Register::H || r == Register::L
}

/// The value of 8-bit register `r` in `cpu`.
pub open spec fn reg8(cpu: CPU, r: Register) -> u8 {
    match r {
        Register::A => cpu.a,
        Register::B => cpu.b,
        Register::C => cpu.c,
        Register::D => cpu.d,
        Register::E => cpu.e,
        Register::H => cpu.h,
        Register::L => cpu.l,
        _ => 0,
    }
}

/// `cpu` with 8-bit register `r` set to `v` and all else unchanged.
pub open spec fn set_reg8(cpu: CPU, r: Register, v: u8) -> CPU {
    match r {
        Register::A => CPU { a: v, ..cpu },
        Register::B => CPU { b: v, ..cpu },
        Register::C => CPU { c: v, ..cpu },
        Register::D => CPU { d: v, ..cpu },
        Register::E => CPU { e: v, ..cpu },
        Register::H => CPU { h: v, ..cpu },
        Register::L => CPU { l: v, ..cpu },
        _ => cpu,
    }
}

/// The CPU together with the memory it addresses: the handle that one
/// execution step mutates exclusively.
#[derive(Debug)]
pub struct CPUInterface {
    pub cpu: CPU,
    pub memory: Memory,
}

impl CPUInterface {
    /// The value of 8-bit register `r`.
    pub fn get_u8(&self, r: Register) -> (v: u8)
        requires
            is_reg8(r),
        ensures
            v == reg8(self.cpu, r),
    {
        match r {
            Register::A => self.cpu.a,
            Register::B => self.cpu.b,
            Register::C => self.cpu.c,
            Register::D => self.cpu.d,
            Register::E => self.cpu.e,
            Register::H => self.cpu.h,
            Register::L => self.cpu.l,
            _ => 0,
        }
    }

    /// Sets 8-bit register `r` to `b`.
    pub fn set_u8(&mut self, r: Register, b: u8)
        requires
            is_reg8(r),
        ensures
            final(self).cpu == set_reg8(old(self).cpu, r, b),
            final(self).memory@ == old(self).memory@,
    {
        match r {
            Register::A => self.cpu.a = b,
            Register::B => self.cpu.b = b,
            Register::C => self.cpu.c = b,
            Register::D => self.cpu.d = b,
            Register::E => self.cpu.e = b,
            Register::H => self.cpu.h = b,
            Register::L => self.cpu.l = b,
            _ => (),
        }
    }

    /// Reads the byte at `offset`, wrapping a failed bounds check in a
    /// memory error.
    pub fn read(&self, offset: u16) -> (r: Result<u8, ErrorKind>)
        ensures
            offset < self.memory@.len() ==> r == Ok::<u8, ErrorKind>(self.memory@[offset as int]),
            offset >= self.memory@.len() ==> r == Err::<u8, ErrorKind>(
                ErrorKind::MemoryError(
                    memory::Error::OutOfRangeAccess(offset as usize, self.memory@.len() as usize),
                ),
            ),
    {
        match self.memory.read(offset) {
            Ok(v) => Ok(v),
            Err(e) => Err(ErrorKind::MemoryError(e)),
        }
    }

    /// Writes `data` at `offset`, wrapping a failed bounds check in a
    /// memory error and leaving memory unchanged in that case.
    pub fn write(&mut self, offset: u16, data: u8) -> (r: Result<(), ErrorKind>)
        ensures
            final(self).cpu == old(self).cpu,
            offset < old(self).memory@.len() ==> r is Ok && final(self).memory@ == old(
                self,
            ).memory@.update(offset as int, data),
            offset >= old(self).memory@.len() ==> r == Err::<(), ErrorKind>(
                ErrorKind::MemoryError(
                    memory::Error::OutOfRangeAccess(
                        offset as usize,
                        old(self).memory@.len() as usize,
                    ),
                ),
            ) && final(self).memory@ == old(self).memory@,
    {
        match self.memory.write(offset, data) {
            Ok(()) => Ok(()),
            Err(e) => Err(ErrorKind::MemoryError(e)),
        }
    }

    /// Advances the program counter one byte, wrapping within the 16 KiB
    /// code window; fails, leaving the counter unchanged, when the advanced
    /// counter would lie beyond the memory length.
    pub fn advance(&mut self) -> (r: Result<(), ErrorKind>)
        ensures
            final(self).memory@ == old(self).memory@,
            ({
                let pc = ((old(self).cpu.pc + 1) % 0x4000) as u16;
                let len = (old(self).memory@.len() % 0x10000) as u16;
                if len >= pc {
                    r is Ok && final(self).cpu == (CPU { pc, ..old(self).cpu })
                } else {
                    r == Err::<(), ErrorKind>(ErrorKind::PCOutOfRange(pc, len)) && final(self).cpu
                        == old(self).cpu
                }
            }),
    {
        let pc = (((self.cpu.pc as u32 + 1) % 0x4000) as u16);
        if self.memory.len() >= pc {
            self.cpu.pc = pc;
            Ok(())
        } else {
            Err(ErrorKind::PCOutOfRange(pc, self.memory.len()))
        }
    }

    /// Reads the byte at the program counter, then advances the counter.
    /// An advance failure takes precedence over a read failure.
    pub fn read_1(&mut self) -> (r: Result<u8, ErrorKind>)
        ensures
            final(self).memory@ == old(self).memory@,
            ({
                let pc0 = old(self).cpu.pc;
                let pc = ((pc0 + 1) % 0x4000) as u16;
                let len = (old(self).memory@.len() % 0x10000) as u16;
                if len < pc {
                    r == Err::<u8, ErrorKind>(ErrorKind::PCOutOfRange(pc, len)) && final(self).cpu
                        == old(self).cpu
                } else if pc0 >= old(self).memory@.len() {
                    r == Err::<u8, ErrorKind>(
                        ErrorKind::MemoryError(
                            memory::Error::OutOfRangeAccess(
                                pc0 as usize,
                                old(self).memory@.len() as usize,
                            ),
                        ),
                    ) && final(self).cpu == (CPU { pc, ..old(self).cpu })
                } else {
                    r == Ok::<u8, ErrorKind>(old(self).memory@[pc0 as int]) && final(self).cpu == (
                    CPU { pc, ..old(self).cpu })
                }
            }),
    {
        let result = self.read(self.cpu.pc);
        match self.advance() {
            Ok(()) => result,
            Err(e) => Err(e),
        }
    }

    /// Reads the byte at `offset`, given as a plain index.
    pub fn read_m(&self, offset: usize) -> (r: Result<u8, ErrorKind>)
        ensures
            offset < self.memory@.len() ==> r == Ok::<u8, ErrorKind>(self.memory@[offset as int]),
            offset >= self.memory@.len() ==> r == Err::<u8, ErrorKind>(
                ErrorKind::MemoryError(
                    memory::Error::OutOfRangeAccess(offset, self.memory@.len() as usize),
                ),
            ),
    {
        if offset < self.memory.byte_len() {
            Ok(self.memory.at(offset))
        } else {
            Err(ErrorKind::MemoryError(
                memory::Error::OutOfRangeAccess(offset, self.memory.byte_len()),
            ))
        }
    }

    /// Delivers hardware interrupt `interrupt_num`: disables interrupts,
    /// pushes the program counter onto the stack (high byte at sp-1, low
    /// byte at sp-2), and jumps to the interrupt vector at
    /// `interrupt_num * 8`. Fails with a memory error when a stack slot
    /// lies outside memory; interrupts are disabled even then, the other
    /// registers keep their values, and the low stack byte has landed
    /// when only the high slot was out of range.
    pub fn interrupt(&mut self, interrupt_num: u16) -> (r: Result<(), ErrorKind>)
        ensures
            ({
                let m = old(self).memory@;
                let pc = old(self).cpu.pc;
                let sp = old(self).cpu.sp;
                let lo_at = sub_w16(sp, 2);
                let hi_at = sub_w16(sp, 1);
                if lo_at < m.len() && hi_at < m.len() {
                    r is Ok && final(self).memory@ == m.update(lo_at as int, (pc & 0xff) as u8)
                        .update(hi_at as int, ((pc >> 8) & 0xff) as u8) && final(self).cpu == (CPU {
                        int_enable: 0,
                        sp: lo_at,
                        pc: mul_w16(interrupt_num, 8),
                        ..old(self).cpu
                    })
                } else {
                    final(self).cpu == (CPU { int_enable: 0, ..old(self).cpu }) && if lo_at
                        >= m.len() {
                        r == Err::<(), ErrorKind>(
                            ErrorKind::MemoryError(
                                memory::Error::OutOfRangeAccess(lo_at as usize, m.len() as usize),
                            ),
                        ) && final(self).memory@ == m
                    } else {
                        r == Err::<(), ErrorKind>(
                            ErrorKind::MemoryError(
                                memory::Error::OutOfRangeAccess(hi_at as usize, m.len() as usize),
                            ),
                        ) && final(self).memory@ == m.update(lo_at as int, (pc & 0xff) as u8)
                    }
                }
            }),
    {
        self.cpu.int_enable = 0;
        let sp = self.cpu.sp;
        let low = (self.cpu.pc & 0xff) as u8;
        let ghost pc0: u16 = self.cpu.pc;
        proof {
            assert(((pc0 & 0xFF00) >> 8) == (pc0 >> 8) & 0xff && (pc0 >> 8) & 0xff < 256)
                by (bit_vector);
        }
        let high = ((self.cpu.pc & 0xFF00) >> 8) as u8;

        self.write(sp.wrapping_sub(2), low)?;
        self.write(sp.wrapping_sub(1), high)?;
        self.cpu.sp = sp.wrapping_sub(2);

        self.cpu.pc = interrupt_num.wrapping_mul(8);

        Ok(())
    }

    /// Discards the CPU state, keeping the memory: a freshly reset machine
    /// over the same image.
    pub fn reset(self) -> (r: CPUInterface)
        ensures
            r.memory@ == self.memory@,
            fresh_cpu(r.cpu),
    {
        CPUInterface { cpu: new(), memory: self.memory }
    }
}

/// True of a freshly reset CPU: registers, codes and counters cleared,
/// history empty.
pub open spec fn fresh_cpu(cpu: CPU) -> bool {
    cpu.a == 0 && cpu.b == 0 && cpu.c == 0 && cpu.d == 0 && cpu.e == 0 && cpu.h == 0 && cpu.l == 0
        && cpu.sp == 0 && cpu.pc == 0 && cpu.cc == (ConditionCodes {
        z: false,
        s: false,
        p: false,
        cy: false,
        ac: false,
    }) && cpu.int_enable == 0 && cpu.iters == 0 && cpu.cycles == 0 && cpu.last_instruction is None
        && !cpu.pause && !cpu.debug && cpu.history@.len() == 256 && cpu.history.cursor() == 0 && (
    forall|i: int| 0 <= i < 256 ==> cpu.history@[i] is None) && cpu.console@.len() == 0
}

/// The 16-bit wrapping sum `a + b`.
pub open spec fn add_w16(a: u16, b: u16) -> u16 {
    if a + b > 0xffff {
        (a + b - 0x10000) as u16
    } else {
        (a + b) as u16
    }
}

/// The 16-bit wrapping difference `a - b`.
pub open spec fn sub_w16(a: u16, b: u16) -> u16 {
    if a - b < 0 {
        (a - b + 0x10000) as u16
    } else {
        (a - b) as u16
    }
}

/// The 16-bit wrapping product `a * b`.
pub open spec fn mul_w16(a: u16, b: u16) -> u16 {
    ((a as nat * b as nat) % 0x10000nat) as u16
}

/// The 8-bit wrapping sum `a + b`.
pub open spec fn add_w8(a: u8, b: u8) -> u8 {
    if a + b > 0xff {
        (a + b - 0x100) as u8
    } else {
        (a + b) as u8
    }
}

/// The 64-bit wrapping sum `a + b`.
pub open spec fn add_w64(a: u64, b: u64) -> u64 {
    if a + b > 0xffff_ffff_ffff_ffff {
        (a + b - 0x1_0000_0000_0000_0000) as u64
    } else {
        (a + b) as u64
    }
}

/// The 128-bit wrapping sum `a + b`.
pub open spec fn add_w128(a: u128, b: u128) -> u128 {
    if a + b > 0xffff_ffff_ffff_ffff_ffff_ffff_ffff_ffff {
        (a + b - 0x1_0000_0000_0000_0000_0000_0000_0000_0000) as u128
    } else {
        (a + b) as u128
    }
}

/// The 8-bit wrapping difference `a - b`.
pub open spec fn sub_w8(a: u8, b: u8) -> u8 {
    if a - b < 0 {
        (a - b + 0x100) as u8
    } else {
        (a - b) as u8
    }
}

} // verus!
