//! The assembled machine: the CPU-plus-memory handle built from an initial
//! ROM image, and the real-time scheduler step that converts elapsed
//! wall-clock time into a cycle budget and runs the interpreter until the
//! budget is consumed.

use crate::cpu;
use crate::cpu::{CPUInterface, ErrorKind, CPU};
use crate::emulate::{lemma_reaches_step, reaches, step_err};
use crate::memory;
use crate::memory::Memory;
use vstd::prelude::*;

verus! {

/// A machine-level failure: the first error raised by the execution or
/// snapshot side, as the host observes it.
#[derive(Debug)]
pub enum Error {
    /// A bounds-checked memory access failed.
    MemoryError(memory::Error),
    /// The CPU step failed.
    CPUError(ErrorKind),
    /// A shared lock could not be acquired because its prior holder failed.
    LockErr,
    /// An opaque error forwarded from an external collaborator.
    ForeignError(String),
}

/// The device-interface collaborator of one target machine: port input
/// and output and hardware-interrupt delivery. All device-specific state
/// lives in the implementor; the core hands it the CPU-plus-memory handle
/// and the current time in microseconds each scheduler tick.
pub trait MachineInterface {
    /// Handles an `IN` instruction for `port`, typically placing the port
    /// value in the accumulator.
    fn handle_in(&mut self, cpu: &mut CPUInterface, port: u8) -> Result<(), Error>;

    /// Handles an `OUT` instruction for `port`, typically consuming the
    /// accumulator.
    fn handle_out(&mut self, cpu: &mut CPUInterface, port: u8) -> Result<(), Error>;

    /// Checks the clock and delivers a hardware interrupt when one is due.
    fn handle_interrupt(&mut self, now: u64, cpu: &mut CPUInterface) -> Result<(), Error>;
}

/// Working memory size: program ROM, working RAM and the video-RAM
/// sub-range.
pub const MEMORY_SIZE: usize = 8 * 0x1000;

/// The assembled machine: the CPU register file and the memory it
/// addresses, stepped against wall-clock time by a host-driven tick.
#[derive(Debug)]
pub struct Machine {
    pub state: CPUInterface,
}

impl Machine {
    /// Builds a machine from an initial memory image: the image is
    /// zero-padded to the working memory size and the CPU starts freshly
    /// reset, with the given debug-intercept setting.
    pub fn load(buf: Vec<u8>, debug: bool) -> (r: Machine)
        requires
            buf@.len() <= MEMORY_SIZE,
        ensures
            r.state.memory@.len() == MEMORY_SIZE,
            r.state.memory@.subrange(0, buf@.len() as int) == buf@,
            forall|i: int| buf@.len() <= i < MEMORY_SIZE ==> r.state.memory@[i] == 0,
            cpu::fresh_cpu(CPU { debug: false, ..r.state.cpu }),
            r.state.cpu.debug == debug,
    {
        let mut buf = buf;
        let ghost orig = buf@;
        while buf.len() < MEMORY_SIZE
            invariant
                orig.len() <= buf@.len() <= MEMORY_SIZE,
                buf@.subrange(0, orig.len() as int) == orig,
                forall|i: int| orig.len() <= i < buf@.len() ==> buf@[i] == 0,
            decreases MEMORY_SIZE - buf@.len(),
        {
            buf.push(0);
            proof {
                assert(buf@.subrange(0, orig.len() as int) =~= orig);
            }
        }
        let mut c = cpu::new();
        c.debug = debug;
        Machine { state: CPUInterface { cpu: c, memory: Memory::new(buf) } }
    }

    /// One scheduler tick: converts the wall-clock time elapsed since the
    /// previous tick into a cycle budget at 2 cycles per microsecond, runs
    /// the interpreter in a catch-up burst until the accumulated cycle
    /// cost meets or exceeds the budget, then gives the device interface
    /// the chance to deliver a due hardware interrupt.
    ///
    /// On success the returned count reaches the budget, overshoots it by
    /// less than one instruction, and is exactly the cost of the chain of
    /// successful steps that carried the machine to the interrupt
    /// hand-off. The first failing step aborts the burst: its error is
    /// surfaced wrapped as a CPU error and the machine is left as that
    /// step left it; after a full burst the device's interrupt hook may
    /// still fail on the state the burst reached. There is no local
    /// recovery or retry.
    pub fn tick<I: MachineInterface>(
        &mut self,
        interface: &mut I,
        now_micros: u64,
        last_micros: u64,
    ) -> (r: Result<u128, Error>)
        requires
            last_micros <= now_micros,
        ensures
            ({
                let pre_c = old(self).state.cpu;
                let pre_m = old(self).state.memory@;
                let post_c = final(self).state.cpu;
                let post_m = final(self).state.memory@;
                let budget = 2 * (now_micros - last_micros);
                match r {
                    Ok(cycles) => budget <= cycles < budget + 18 && exists|
                        mc: CPU,
                        mm: Seq<u8>,
                        n: nat,
                    |
                        #[trigger] reaches(pre_c, pre_m, mc, mm, n, cycles as int),
                    Err(e) => {
                        ||| exists|mc: CPU, mm: Seq<u8>, n: nat, cy: int|
                            {
                                &&& #[trigger] reaches(pre_c, pre_m, mc, mm, n, cy)
                                &&& cy < budget
                                &&& e matches Error::CPUError(k) && step_err(
                                    mc,
                                    mm,
                                    post_c,
                                    post_m,
                                    k,
                                )
                            }
                        ||| exists|mc: CPU, mm: Seq<u8>, n: nat, cy: int|
                            {
                                &&& #[trigger] reaches(pre_c, pre_m, mc, mm, n, cy)
                                &&& budget <= cy < budget + 18
                            }
                    },
                }
            }),
    {
        let ghost pre_c = self.state.cpu;
        let ghost pre_m = self.state.memory@;
        let ghost mut steps: nat = 0;
        let cycles_behind: u128 = 2 * ((now_micros - last_micros) as u128);

        let mut cycles: u128 = 0;
        while cycles < cycles_behind
            invariant
                last_micros <= now_micros,
                cycles_behind == 2 * (now_micros - last_micros),
                cycles < cycles_behind + 18,
                pre_c == old(self).state.cpu,
                pre_m == old(self).state.memory@,
                reaches(pre_c, pre_m, self.state.cpu, self.state.memory@, steps, cycles as int),
            decreases cycles_behind + 18 - cycles,
        {
            let ghost cur_c = self.state.cpu;
            let ghost cur_m = self.state.memory@;
            match crate::emulate::emulate(&mut self.state, interface) {
                Ok(c) => {
                    proof {
                        assert(4 <= c <= 18);
                        lemma_reaches_step(
                            pre_c,
                            pre_m,
                            cur_c,
                            cur_m,
                            self.state.cpu,
                            self.state.memory@,
                            steps,
                            cycles as int,
                            c,
                        );
                        steps = steps + 1;
                    }
                    cycles = cycles + c as u128;
                },
                Err(e) => {
                    proof {
                        assert(reaches(pre_c, pre_m, cur_c, cur_m, steps, cycles as int));
                        assert(step_err(cur_c, cur_m, self.state.cpu, self.state.memory@, e));
                    }
                    return Err(Error::CPUError(e));
                },
            }
        }

        let ghost hand_c = self.state.cpu;
        let ghost hand_m = self.state.memory@;
        match interface.handle_interrupt(now_micros, &mut self.state) {
            Ok(()) => Ok(cycles),
            Err(e) => {
                proof {
                    assert(reaches(pre_c, pre_m, hand_c, hand_m, steps, cycles as int));
                }
                Err(e)
            },
        }
    }
}

} // verus!
