use emu8080::cpu;
use emu8080::cpu::{CPUInterface, ErrorKind};
use emu8080::diag::{diag, DiagInterface};
use emu8080::disassembler::{disassemble, reader};
use emu8080::emulate::emulate;
use emu8080::instructions;
use emu8080::machine::{Error, Machine, MachineInterface, MEMORY_SIZE};
use emu8080::memory;
use emu8080::memory::Memory;
use emu8080::ops::{encode_instruction, Instruction, OpCode, Register};
use emu8080::space_invaders::SpaceInvadersMachineState;

fn make(mem: Vec<u8>) -> CPUInterface {
    CPUInterface {
        cpu: cpu::new(),
        memory: Memory::new(mem),
    }
}

#[test]
fn parity_table_matches_bit_count() {
    let t = cpu::parity_table();
    assert_eq!(t.len(), 256);
    for i in 0..256usize {
        assert_eq!(t[i], (i as u8).count_ones() % 2 == 0, "byte {}", i);
    }
    assert!(!t[118]);
    assert!(!t[247]);
}

#[test]
fn decode_is_left_inverse_of_encode() {
    // Exhaustive over the whole opcode space: every byte that decodes
    // yields an instruction whose encoding decodes back to the same
    // instruction and consumed length.
    let mut decoded = 0;
    for code in 0..=255u8 {
        let mem = Memory::new(vec![code, 0x34, 0x12]);
        match disassemble(&mem, 0) {
            Ok((inst, len)) => {
                decoded += 1;
                assert!((1..=3).contains(&len), "length of {:#x}", code);
                let bytes = encode_instruction(inst);
                assert_eq!(bytes.len(), len as usize, "{:?}", inst);
                let mem2 = Memory::new(bytes.clone());
                let (inst2, len2) = disassemble(&mem2, 0).unwrap();
                assert_eq!(inst2, inst);
                assert_eq!(len2 as usize, bytes.len());
            }
            Err(e) => {
                assert_eq!(code, 0x76, "only HLT is unmapped, got {:?}", e);
            }
        }
    }
    assert_eq!(decoded, 255);
}

#[test]
fn decode_spot_checks() {
    let mem = Memory::new(vec![0xc3, 0x03, 0x01]);
    assert_eq!(
        disassemble(&mem, 0).unwrap(),
        (Instruction::JMP(0x03, 0x01), 3)
    );
    let mem = Memory::new(vec![0x3e, 0x7f]);
    assert_eq!(
        disassemble(&mem, 0).unwrap(),
        (Instruction::MVI(Register::A, 0x7f), 2)
    );
    let mem = Memory::new(vec![0x78]);
    assert_eq!(
        disassemble(&mem, 0).unwrap(),
        (Instruction::MOV(Register::A, Register::B), 1)
    );
}

#[test]
fn psw_round_trip_restores_flags() {
    let mut state = make(vec![0; 16]);
    state.cpu.sp = 8;
    state.cpu.a = 0xAB;
    state.cpu.cc.z = true;
    state.cpu.cc.s = false;
    state.cpu.cc.p = true;
    state.cpu.cc.cy = true;
    state.cpu.cc.ac = true;
    instructions::push(Register::PSW, &mut state).unwrap();
    // Documented layout: Z=bit0, S=bit1, P=bit2, CY=bit3, AC=bit4.
    assert_eq!(state.memory.read(6).unwrap(), 0b1_1101);
    assert_eq!(state.memory.read(7).unwrap(), 0xAB);
    state.cpu.a = 0;
    state.cpu.cc.z = false;
    state.cpu.cc.p = false;
    state.cpu.cc.cy = false;
    state.cpu.cc.ac = false;
    instructions::pop(Register::PSW, &mut state).unwrap();
    assert_eq!(state.cpu.a, 0xAB);
    assert!(state.cpu.cc.z);
    assert!(!state.cpu.cc.s);
    assert!(state.cpu.cc.p);
    assert!(state.cpu.cc.cy);
    assert!(state.cpu.cc.ac);
    assert_eq!(state.cpu.sp, 8);
}

#[test]
fn rotate_right_family() {
    let mut state = make(vec![0, 0]);
    state.cpu.a = 0xF2;
    instructions::rrc(&mut state).unwrap();
    assert_eq!(state.cpu.a, 0x79);
    assert!(!state.cpu.cc.cy);

    let mut state = make(vec![0, 0]);
    state.cpu.a = 0xB5;
    state.cpu.cc.cy = true;
    instructions::rar(&mut state).unwrap();
    assert_eq!(state.cpu.a, 0xDA);
    assert!(state.cpu.cc.cy);
}

#[test]
fn arith_flags_exact_values() {
    let mut cc = cpu::new().cc;
    cc.arith_flags(300);
    // 300 & 0xff == 44: not zero, bit 7 clear, 44 has three set bits.
    assert!(cc.cy);
    assert!(!cc.z);
    assert!(!cc.s);
    assert!(!cc.p);

    let mut cc = cpu::new().cc;
    cc.logic_flags(0);
    assert!(cc.z && cc.p && !cc.s && !cc.cy && !cc.ac);
}

#[test]
fn memory_out_of_range_read_and_write() {
    let mut mem = Memory::new(vec![1, 2]);
    assert_eq!(mem.read(1).unwrap(), 2);
    assert_eq!(
        mem.read(2),
        Err(memory::Error::OutOfRangeAccess(2, 2))
    );
    assert_eq!(
        mem.write(5, 9),
        Err(memory::Error::OutOfRangeAccess(5, 2))
    );
    // The failed write left memory unchanged.
    assert_eq!(mem.read(0).unwrap(), 1);
    assert_eq!(mem.len(), 2);
    assert!(!mem.is_empty());
}

#[test]
fn vram_snapshot() {
    let mut bytes = vec![0u8; 0x4000];
    bytes[0x2400] = 7;
    bytes[0x3fff] = 9;
    let mem = Memory::new(bytes);
    let v = mem.vram().unwrap();
    assert_eq!(v.len(), 0x1c00);
    assert_eq!(v[0], 7);
    assert_eq!(v[0x1bff], 9);

    let small = Memory::new(vec![0; 0x3000]);
    assert_eq!(
        small.vram(),
        Err(memory::Error::OutOfRangeAccess(0x4000, 0x3000))
    );
}

#[test]
fn unknown_and_unimplemented_opcodes_fail_cleanly() {
    let mut state = make(vec![0x76, 0]);
    let e = emulate(&mut state, &mut DiagInterface).unwrap_err();
    assert!(matches!(e, ErrorKind::UnknownOp(0x76)));

    let mut state = make(vec![0x27, 0]);
    let e = emulate(&mut state, &mut DiagInterface).unwrap_err();
    assert!(matches!(e, ErrorKind::UnimplementedOp(OpCode::DAA)));
}

#[test]
fn step_errors_carry_address_and_length() {
    // Reading the opcode beyond memory is an address-range error.
    let mut state = make(vec![]);
    let e = emulate(&mut state, &mut DiagInterface).unwrap_err();
    assert!(matches!(
        e,
        ErrorKind::MemoryError(memory::Error::OutOfRangeAccess(0, 0))
    ));

    // An immediate whose operand byte lies past the end of memory.
    let mut state = make(vec![0xc6]);
    let e = emulate(&mut state, &mut DiagInterface).unwrap_err();
    assert!(matches!(
        e,
        ErrorKind::MemoryError(memory::Error::OutOfRangeAccess(1, 1))
    ));

    // Advancing the counter out of the addressable range.
    let mut state = make(vec![]);
    let e = state.advance().unwrap_err();
    assert!(matches!(e, ErrorKind::PCOutOfRange(1, 0)));
}

#[test]
fn stax_rejects_bad_selector() {
    let mut state = make(vec![0, 0]);
    let e = instructions::stax(Register::A, &mut state).unwrap_err();
    assert!(matches!(e, ErrorKind::OpError(Register::A)));
}

#[test]
fn debug_jump_to_zero_is_exit_signal() {
    let mut machine = Machine::load(vec![0xc3, 0x00, 0x00], true);
    let e = emulate(&mut machine.state, &mut DiagInterface).unwrap_err();
    assert!(matches!(e, ErrorKind::Exit(0)));
}

#[test]
fn machine_load_pads_image() {
    let m = Machine::load(vec![1, 2, 3], false);
    assert_eq!(m.state.memory.byte_len(), MEMORY_SIZE);
    assert_eq!(m.state.memory.read(0).unwrap(), 1);
    assert_eq!(m.state.memory.read(2).unwrap(), 3);
    assert_eq!(m.state.memory.read(3).unwrap(), 0);
    assert_eq!(m.state.memory.read(0x7fff).unwrap(), 0);
    assert_eq!(m.state.cpu.pc, 0);
    assert!(!m.state.cpu.debug);
}

#[test]
fn interrupt_pushes_pc_and_jumps_to_vector() {
    let mut state = make(vec![0; 16]);
    state.cpu.sp = 8;
    state.cpu.pc = 0x1234;
    state.cpu.int_enable = 1;
    state.interrupt(2).unwrap();
    assert_eq!(state.cpu.pc, 16);
    assert_eq!(state.cpu.sp, 6);
    assert_eq!(state.cpu.int_enable, 0);
    assert_eq!(state.memory.read(6).unwrap(), 0x34);
    assert_eq!(state.memory.read(7).unwrap(), 0x12);
}

#[test]
fn scheduler_fires_one_interrupt_per_window_and_alternates() {
    // The first deadline sits one full frame (16 ms) after start; each
    // delivery reschedules 8 ms ahead and flips the pending vector.
    let mut device = SpaceInvadersMachineState::apply(0);
    let mut state = make(vec![0; 64]);
    state.cpu.sp = 32;
    state.cpu.pc = 0x0100;
    state.cpu.int_enable = 1;

    // 8 ms in: the first deadline (16 ms) has not passed, nothing fires.
    device.handle_interrupt(8_000, &mut state).unwrap();
    assert_eq!(state.cpu.pc, 0x0100);
    assert_eq!(state.cpu.int_enable, 1);

    // The deadline passes: exactly one interrupt fires, vector 1.
    device.handle_interrupt(16_000, &mut state).unwrap();
    assert_eq!(state.cpu.pc, 8);
    assert_eq!(state.cpu.int_enable, 0);
    assert_eq!(state.cpu.sp, 30);

    // Still inside the same 8 ms window: nothing more fires.
    device.handle_interrupt(16_001, &mut state).unwrap();
    assert_eq!(state.cpu.pc, 8);

    // One 8 ms window later the other vector fires.
    state.cpu.int_enable = 1;
    device.handle_interrupt(24_000, &mut state).unwrap();
    assert_eq!(state.cpu.pc, 16);
    assert_eq!(state.cpu.sp, 28);
}

#[test]
fn shift_register_window() {
    let mut device = SpaceInvadersMachineState::apply(0);
    let mut state = make(vec![0; 4]);

    state.cpu.a = 0xAA;
    device.handle_out(&mut state, 4).unwrap();
    state.cpu.a = 0x55;
    device.handle_out(&mut state, 4).unwrap();
    state.cpu.a = 3;
    device.handle_out(&mut state, 2).unwrap();

    device.handle_in(&mut state, 3).unwrap();
    assert_eq!(state.cpu.a, 0xAD);

    device.handle_in(&mut state, 0).unwrap();
    assert_eq!(state.cpu.a, 1);
    device.handle_in(&mut state, 1).unwrap();
    assert_eq!(state.cpu.a, 0);
}

#[test]
fn tick_meets_cycle_budget() {
    let mut machine = Machine::load(vec![0; 64], false);
    let mut device = SpaceInvadersMachineState::apply(0);
    // 4 µs elapsed: a budget of 8 cycles, met by two 4-cycle no-ops.
    let cycles = machine.tick(&mut device, 4, 0).unwrap();
    assert_eq!(cycles, 8);
    assert_eq!(machine.state.cpu.pc, 2);

    // A zero budget runs no instruction at all.
    let cycles = machine.tick(&mut device, 4, 4).unwrap();
    assert_eq!(cycles, 0);
    assert_eq!(machine.state.cpu.pc, 2);
}

struct FailingPorts;

impl MachineInterface for FailingPorts {
    fn handle_in(&mut self, _cpu: &mut CPUInterface, _port: u8) -> Result<(), Error> {
        Err(Error::ForeignError("no such device".to_string()))
    }
    fn handle_out(&mut self, _cpu: &mut CPUInterface, _port: u8) -> Result<(), Error> {
        Err(Error::ForeignError("no such device".to_string()))
    }
    fn handle_interrupt(&mut self, _now: u64, _cpu: &mut CPUInterface) -> Result<(), Error> {
        Ok(())
    }
}

#[test]
fn device_errors_are_forwarded() {
    let mut state = make(vec![0xdb, 0x01]);
    let e = emulate(&mut state, &mut FailingPorts).unwrap_err();
    assert!(matches!(e, ErrorKind::MachineInterfaceError(_)));
}

#[test]
fn emulate_accumulates_counters_and_history() {
    let mut state = make(vec![0x87, 0x80]);
    let c1 = emulate(&mut state, &mut DiagInterface).unwrap();
    assert_eq!(c1, 4);
    let c2 = emulate(&mut state, &mut DiagInterface).unwrap();
    assert_eq!(c2, 4);
    assert_eq!(state.cpu.iters, 2);
    assert_eq!(state.cpu.cycles, 8);
    assert_eq!(state.cpu.history.get(0), Some(Instruction::ADD(Register::A)));
    assert_eq!(state.cpu.history.get(1), Some(Instruction::ADD(Register::B)));
    assert_eq!(state.cpu.history.get(2), None);
}

#[test]
fn read_all_scans_an_image() {
    let mut r = reader(vec![0x3e, 0x01, 0x87]);
    let all = r.read_all();
    assert_eq!(
        all,
        vec![
            (0, Instruction::MVI(Register::A, 0x01)),
            (2, Instruction::ADD(Register::A)),
        ]
    );
}

#[test]
fn console_intercept_collects_message() {
    // CALL 5 with C=9 in debug mode: the '$'-terminated text at DE+3 is
    // collected on the console.
    let mut mem = vec![0; 32];
    mem[0] = 0xcd;
    mem[1] = 0x05;
    mem[2] = 0x00;
    mem[13] = b'H';
    mem[14] = b'I';
    mem[15] = b'$';
    let mut state = make(mem);
    state.cpu.debug = true;
    state.cpu.c = 9;
    state.cpu.d = 0;
    state.cpu.e = 10;
    let cycles = instructions::call(&mut state).unwrap();
    assert_eq!(cycles, 17);
    assert_eq!(state.cpu.console, b"HI".to_vec());
}

#[test]
fn console_intercept_renders_byte_as_hex() {
    // CALL 5 with C=2 in debug mode: the byte in E lands on the console
    // upper-cased, as 0xNN text.
    let mut mem = vec![0; 8];
    mem[0] = 0xcd;
    mem[1] = 0x05;
    mem[2] = 0x00;
    let mut state = make(mem);
    state.cpu.debug = true;
    state.cpu.c = 2;
    state.cpu.e = b'a';
    let cycles = instructions::call(&mut state).unwrap();
    assert_eq!(cycles, 17);
    assert_eq!(state.cpu.console, b"0x41".to_vec());
}

#[test]
fn failed_step_still_records_history() {
    // A mapped opcode without an executor: the step fails, but the
    // decoded instruction stands in the history for post-mortem reading.
    let mut state = make(vec![0x27, 0]);
    let e = emulate(&mut state, &mut DiagInterface).unwrap_err();
    assert!(matches!(e, ErrorKind::UnimplementedOp(OpCode::DAA)));
    assert_eq!(state.cpu.history.get(0), Some(Instruction::DAA));
    // No bookkeeping was done for the failed step.
    assert_eq!(state.cpu.iters, 0);
    assert_eq!(state.cpu.cycles, 0);
}

#[test]
fn diag_runs_to_exit_signal() {
    // A ROM whose first instruction jumps to address 0: the debug-mode
    // exit signal, reported as controlled termination.
    let mut rom = vec![0u8; 1200];
    rom[0] = 0xc3;
    rom[1] = 0;
    rom[2] = 0;
    let (console, stopped) = diag(rom, 10);
    assert!(console.is_empty());
    assert!(matches!(stopped, Some(ErrorKind::Exit(0))));
}

#[test]
fn conditional_jump_skips_when_condition_fails() {
    // JNZ with the zero flag set falls through to the next instruction.
    let mut state = make(vec![0xc2, 0x34, 0x12, 0x00]);
    state.cpu.cc.z = true;
    let cycles = emulate(&mut state, &mut DiagInterface).unwrap();
    assert_eq!(cycles, 10);
    assert_eq!(state.cpu.pc, 3);

    let mut state = make(vec![0xc2, 0x34, 0x12, 0x00]);
    state.cpu.cc.z = false;
    emulate(&mut state, &mut DiagInterface).unwrap();
    assert_eq!(state.cpu.pc, 0x1234);
}

#[test]
fn call_and_return_round_trip() {
    // CALL 0x0005 then RET from there brings the counter back to 3.
    let mut mem = vec![0; 32];
    mem[0] = 0xcd;
    mem[1] = 0x05;
    mem[2] = 0x00;
    mem[5] = 0xc9;
    let mut state = make(mem);
    state.cpu.sp = 16;
    let c1 = emulate(&mut state, &mut DiagInterface).unwrap();
    assert_eq!(c1, 17);
    assert_eq!(state.cpu.pc, 5);
    assert_eq!(state.cpu.sp, 14);
    // The unconditional return costs 10 cycles.
    let c2 = emulate(&mut state, &mut DiagInterface).unwrap();
    assert_eq!(c2, 10);
    assert_eq!(state.cpu.pc, 3);
    assert_eq!(state.cpu.sp, 16);
}
