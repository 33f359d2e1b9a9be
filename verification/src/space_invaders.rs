//! The Space-Invaders device interface: the external bit-shift register
//! reached through the I/O ports, and the alternating pair of video
//! interrupts delivered on a fixed 8-millisecond cadence.

use crate::cpu::{mul_w16, sub_w16, CPUInterface, CPU};
use crate::instructions::to16;
use crate::machine::{Error, MachineInterface};
use vstd::prelude::*;

verus! {

/// Marker for the Space-Invaders machine; the host pairs it with the
/// ROM image and the device interface.
pub struct SpaceInvaders;

/// The device state: the two bytes of the hardware shift register, the
/// read offset into it, the deadline of the next scheduled interrupt in
/// host microseconds, and which of the two interrupt vectors fires next.
#[derive(Debug)]
pub struct SpaceInvadersMachineState {
    shift0: u8,
    shift1: u8,
    shift_offset: u8,
    next_interrupt: u64,
    which_interrupt: u8,
}

/// The byte read back from the shift register: the sliding window of the
/// 16-bit register selected by the current offset.
pub open spec fn shift_window(shift1: u8, shift0: u8, offset: u8) -> u8 {
    ((to16(shift1, shift0) >> ((8 - offset) as u16)) & 0xff) as u8
}

/// How one interrupt check moves the schedule: given the pending toggle
/// `which0` and deadline `next0`, whether the CPU has interrupts enabled,
/// and the time `now`, yields the vector that fires (`None` when none is
/// due) together with the new toggle and the new deadline, 8 ms on.
pub open spec fn interrupt_schedule(which0: u8, next0: u64, enabled: bool, now: u64) -> (
    Option<u16>,
    u8,
    u64,
) {
    if enabled && next0 <= now {
        let vector: u16 = if which0 == 1 {
            1
        } else {
            2
        };
        let which1: u8 = if which0 == 1 {
            2
        } else {
            1
        };
        let next1: u64 = if now + 8000 <= u64::MAX {
            (now + 8000) as u64
        } else {
            u64::MAX
        };
        (Some(vector), which1, next1)
    } else {
        (None, which0, next0)
    }
}

/// From the reset toggle, two due interrupt checks one 8-millisecond
/// window apart fire the mid-screen vector first and the end-of-screen
/// vector second; between them, no check before the rescheduled deadline
/// fires at all.
pub proof fn lemma_vectors_alternate(next0: u64, t1: u64, t2: u64)
    requires
        next0 <= t1,
        t1 + 8000 <= t2,
        t2 + 8000 <= u64::MAX,
    ensures
        ({
            let (f1, w1, n1) = interrupt_schedule(1, next0, true, t1);
            let (f2, w2, n2) = interrupt_schedule(w1, n1, true, t2);
            f1 == Some(1u16) && f2 == Some(2u16) && forall|t: u64|
                t1 <= t < n1 ==> #[trigger] interrupt_schedule(w1, n1, true, t).0 is None
        }),
{
}

impl SpaceInvadersMachineState {
    #[verifier::type_invariant]
    spec fn inv(&self) -> bool {
        self.shift_offset < 8
    }

    /// The low shift-register byte.
    pub closed spec fn spec_shift0(&self) -> u8 {
        self.shift0
    }

    /// The high shift-register byte.
    pub closed spec fn spec_shift1(&self) -> u8 {
        self.shift1
    }

    /// The current read offset into the shift register.
    pub closed spec fn spec_shift_offset(&self) -> u8 {
        self.shift_offset
    }

    /// The deadline of the next scheduled interrupt, in host microseconds.
    pub closed spec fn spec_next_interrupt(&self) -> u64 {
        self.next_interrupt
    }

    /// Which interrupt vector fires next: 1 for the mid-screen raster
    /// interrupt, anything else for the end-of-screen one.
    pub closed spec fn spec_which_interrupt(&self) -> u8 {
        self.which_interrupt
    }

    /// A fresh device: shift register cleared, the first (mid-screen)
    /// vector scheduled one full frame (16 ms) after `now`.
    pub fn apply(now: u64) -> (r: SpaceInvadersMachineState)
        requires
            now + 16000 <= u64::MAX,
        ensures
            r.spec_shift0() == 0 && r.spec_shift1() == 0 && r.spec_shift_offset() == 0,
            r.spec_next_interrupt() == now + 16000,
            r.spec_which_interrupt() == 1,
    {
        SpaceInvadersMachineState {
            shift0: 0,
            shift1: 0,
            shift_offset: 0,
            next_interrupt: now + 16000,
            which_interrupt: 1,
        }
    }
}

impl MachineInterface for SpaceInvadersMachineState {
    /// Port input. Port 0 reads 1, port 1 reads 0, port 3 reads the
    /// shift-register window at the current offset, and every other port
    /// reads 0; the value lands in the accumulator. Never fails.
    fn handle_in(&mut self, cpu: &mut CPUInterface, port: u8) -> (r: Result<(), Error>)
        ensures
            r is Ok,
            *final(self) == *old(self),
            final(cpu).memory@ == old(cpu).memory@,
            final(cpu).cpu == (CPU {
                a: if port == 0 {
                    1
                } else if port == 3 {
                    shift_window(
                        old(self).spec_shift1(),
                        old(self).spec_shift0(),
                        old(self).spec_shift_offset(),
                    )
                } else {
                    0
                },
                ..old(cpu).cpu
            }),
    {
        proof {
            use_type_invariant(&*self);
        }
        cpu.cpu.a = match port {
            0 => 1,
            1 => 0,
            3 => {
                let v = (self.shift1 as u16) << 8 | self.shift0 as u16;
                proof {
                    let s1 = self.shift1;
                    let s0 = self.shift0;
                    assert((s1 as u16) << 8 | s0 as u16 == s1 * 256 + s0 && s1 * 256 + s0 <= 0xffff)
                        by (bit_vector);
                }
                ((v >> (8 - self.shift_offset) as u16) & 0xff) as u8
            },
            _ => 0,
        };

        Ok(())
    }

    /// Port output; the value comes from the accumulator. Port 2 sets the
    /// shift-register read offset from the low three bits; port 4 shifts
    /// a new byte in, the old high byte dropping to the low position;
    /// every other port is ignored. Never fails.
    fn handle_out(&mut self, cpu: &mut CPUInterface, port: u8) -> (r: Result<(), Error>)
        ensures
            r is Ok,
            *final(cpu) == *old(cpu),
            final(self).spec_next_interrupt() == old(self).spec_next_interrupt(),
            final(self).spec_which_interrupt() == old(self).spec_which_interrupt(),
            port == 2 ==> final(self).spec_shift_offset() == old(cpu).cpu.a & 0x7
                && final(self).spec_shift0() == old(self).spec_shift0() && final(self).spec_shift1()
                == old(self).spec_shift1(),
            port == 4 ==> final(self).spec_shift0() == old(self).spec_shift1()
                && final(self).spec_shift1() == old(cpu).cpu.a
                && final(self).spec_shift_offset() == old(self).spec_shift_offset(),
            port != 2 && port != 4 ==> *final(self) == *old(self),
    {
        proof {
            use_type_invariant(&*self);
        }
        let value = cpu.cpu.a;
        match port {
            2 => {
                proof {
                    let v = value;
                    assert(v & 0x7 < 8) by (bit_vector);
                }
                self.shift_offset = value & 0x7;
            },
            4 => {
                self.shift0 = self.shift1;
                self.shift1 = value;
            },
            _ => (),
        }
        Ok(())
    }

    /// Interrupt delivery. When interrupts are enabled and the scheduled
    /// deadline has passed, exactly one interrupt fires: the pending
    /// vector (1 or 2) is delivered to the CPU, the toggle flips to the
    /// other vector, and the next deadline is set 8 ms after `now`, all
    /// as `interrupt_schedule` states. Otherwise nothing changes.
    /// Delivery pushes the program counter on the stack and fails with a
    /// memory error when a stack slot lies outside memory; the deadline
    /// is rescheduled only on success.
    fn handle_interrupt(&mut self, now: u64, cpu: &mut CPUInterface) -> (r: Result<(), Error>)
        ensures
            ({
                let (fired, which1, next1) = interrupt_schedule(
                    old(self).spec_which_interrupt(),
                    old(self).spec_next_interrupt(),
                    old(cpu).cpu.int_enable == 1,
                    now,
                );
                final(self).spec_which_interrupt() == which1 && final(self).spec_shift0() == old(self).spec_shift0() && final(self).spec_shift1() == old(self).spec_shift1() && final(self).spec_shift_offset() == old(self).spec_shift_offset() && match fired {
                    None => r is Ok && *final(cpu) == *old(cpu) && final(self).spec_next_interrupt() == next1,
                    Some(vector) => {
                        let m = old(cpu).memory@;
                        let pc = old(cpu).cpu.pc;
                        let sp = old(cpu).cpu.sp;
                        let lo_at = sub_w16(sp, 2);
                        let hi_at = sub_w16(sp, 1);
                        if lo_at < m.len() && hi_at < m.len() {
                            r is Ok && final(self).spec_next_interrupt() == next1 && final(cpu).memory@ == m.update(lo_at as int, (pc & 0xff) as u8).update(
                                hi_at as int,
                                ((pc >> 8) & 0xff) as u8,
                            ) && final(cpu).cpu == (CPU {
                                int_enable: 0,
                                sp: lo_at,
                                pc: mul_w16(vector, 8),
                                ..old(cpu).cpu
                            })
                        } else {
                            r is Err && final(cpu).cpu == (CPU { int_enable: 0, ..old(cpu).cpu })
                                && final(self).spec_next_interrupt() == old(
                                self,
                            ).spec_next_interrupt() && if lo_at >= m.len() {
                                final(cpu).memory@ == m
                            } else {
                                final(cpu).memory@ == m.update(lo_at as int, (pc & 0xff) as u8)
                            }
                        }
                    },
                }
            }),
    {
        proof {
            use_type_invariant(&*self);
        }
        if cpu.cpu.int_enable == 1 && self.next_interrupt <= now {
            let vector: u16 = if self.which_interrupt == 1 {
                self.which_interrupt = 2;
                1
            } else {
                self.which_interrupt = 1;
                2
            };
            match cpu.interrupt(vector) {
                Ok(()) => {
                    self.next_interrupt = now.saturating_add(8000);
                    Ok(())
                },
                Err(e) => Err(Error::CPUError(e)),
            }
        } else {
            Ok(())
        }
    }
}

} // verus!
