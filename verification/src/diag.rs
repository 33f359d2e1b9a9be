//! The CP/M-style diagnostic harness: builds the patched memory image a
//! diagnostic ROM expects and runs it with the debug-mode console
//! intercepts enabled and no devices attached.

use crate::cpu;
use crate::cpu::{CPUInterface, ErrorKind, CPU};
use crate::emulate::{emulate, lemma_reaches_step, reaches, step_err};
use crate::machine::{Error, MachineInterface};
use crate::memory::Memory;
use vstd::prelude::*;

verus! {

/// A device interface with no devices behind it: port input and output do
/// nothing and no interrupt ever fires.
pub struct DiagInterface;

impl MachineInterface for DiagInterface {
    /// Ignores the port and leaves the whole machine unchanged.
    fn handle_in(&mut self, cpu: &mut CPUInterface, port: u8) -> (r: Result<(), Error>)
        ensures
            r is Ok,
            *final(cpu) == *old(cpu),
    {
        Ok(())
    }

    /// Ignores the port and leaves the whole machine unchanged.
    fn handle_out(&mut self, cpu: &mut CPUInterface, port: u8) -> (r: Result<(), Error>)
        ensures
            r is Ok,
            *final(cpu) == *old(cpu),
    {
        Ok(())
    }

    /// Never delivers an interrupt.
    fn handle_interrupt(&mut self, now: u64, cpu: &mut CPUInterface) -> (r: Result<(), Error>)
        ensures
            r is Ok,
            *final(cpu) == *old(cpu),
    {
        Ok(())
    }
}

/// The memory layout a diagnostic ROM runs from: 256 zero bytes, then
/// the ROM, with a jump to 0x0100 patched at the reset vector, the byte
/// at 368 forced to 7, and the stack-pointer initialisation at 0x059D
/// replaced by a jump to 0x05C2.
pub open spec fn diag_layout(m: Seq<u8>, rom: Seq<u8>) -> bool {
    m.len() == rom.len() + 256 && m[0] == 0xc3 && m[1] == 0 && m[2] == 0x01 && (forall|i: int|
        3 <= i < 256 ==> m[i] == 0) && (forall|i: int|
        256 <= i < m.len() && i != 368 && !(0x59d <= i <= 0x59f) ==> m[i] == rom[i - 256])
        && m[368] == 0x7 && m[0x59d] == 0xc3 && m[0x59e] == 0xc2 && m[0x59f] == 0x5
}

/// Builds the memory image a diagnostic ROM runs from, as `diag_layout`
/// lays it out.
pub fn diag_image(rom: Vec<u8>) -> (v: Vec<u8>)
    requires
        rom@.len() >= 1184,
        rom@.len() + 256 <= usize::MAX,
    ensures
        diag_layout(v@, rom@),
{
    let mut memory: Vec<u8> = Vec::new();
    let mut i: usize = 0;
    while i < 256
        invariant
            i <= 256,
            memory@.len() == i,
            forall|j: int| 0 <= j < i ==> memory@[j] == 0,
        decreases 256 - i,
    {
        memory.push(0);
        i += 1;
    }

    memory[0] = 0xc3;
    memory[1] = 0;
    memory[2] = 0x01;

    let mut rom = rom;
    let ghost rom0 = rom@;
    memory.append(&mut rom);

    memory[368] = 0x7;

    memory[0x59d] = 0xc3;
    memory[0x59e] = 0xc2;
    memory[0x59f] = 0x5;
    memory
}

/// Runs a diagnostic ROM from its patched image with the console
/// intercepts enabled: steps the interpreter until a step fails (the
/// deliberate exit signal included) or `max_steps` steps have run, and
/// returns the console bytes the program emitted together with the error
/// that stopped it, if one did. The returned error is `None` exactly
/// when `max_steps` steps succeeded; the bytes are the console buffer of
/// the state the run ended in, reached from the freshly loaded image by
/// the chain of successful steps (plus the failing one, when one stopped
/// it).
pub fn diag(rom: Vec<u8>, max_steps: u64) -> (r: (Vec<u8>, Option<ErrorKind>))
    requires
        rom@.len() >= 1184,
        rom@.len() + 256 <= usize::MAX,
    ensures
        exists|c0: CPU, m0: Seq<u8>, c: CPU, m: Seq<u8>, n: nat, cy: int|
            {
                &&& #[trigger] reaches(c0, m0, c, m, n, cy)
                &&& cpu::fresh_cpu(CPU { debug: false, ..c0 }) && c0.debug
                &&& diag_layout(m0, rom@)
                &&& n <= max_steps
                &&& match r.1 {
                    None => n == max_steps && r.0@ == c.console@,
                    Some(e) => n < max_steps && exists|c2: CPU, m2: Seq<u8>|
                        #[trigger] step_err(c, m, c2, m2, e) && r.0@ == c2.console@,
                }
            },
{
    let image = diag_image(rom);
    let mut state = CPUInterface { cpu: cpu::new(), memory: Memory::new(image) };
    state.cpu.debug = true;
    let mut interface = DiagInterface;
    let ghost c0 = state.cpu;
    let ghost m0 = state.memory@;
    let ghost mut cyc: int = 0;

    let mut steps: u64 = 0;
    while steps < max_steps
        invariant
            cpu::fresh_cpu(CPU { debug: false, ..c0 }) && c0.debug,
            diag_layout(m0, rom@),
            steps <= max_steps,
            reaches(c0, m0, state.cpu, state.memory@, steps as nat, cyc),
        decreases max_steps - steps,
    {
        let ghost cur_c = state.cpu;
        let ghost cur_m = state.memory@;
        match emulate(&mut state, &mut interface) {
            Ok(c) => {
                proof {
                    lemma_reaches_step(
                        c0,
                        m0,
                        cur_c,
                        cur_m,
                        state.cpu,
                        state.memory@,
                        steps as nat,
                        cyc,
                        c,
                    );
                    cyc = cyc + c;
                }
                steps += 1;
            },
            Err(e) => {
                proof {
                    assert(reaches(c0, m0, cur_c, cur_m, steps as nat, cyc));
                    assert(step_err(cur_c, cur_m, state.cpu, state.memory@, e));
                }
                return (state.cpu.console, Some(e));
            },
        }
    }
    (state.cpu.console, None)
}

} // verus!
