use emu8080::cpu;
use emu8080::cpu::CPUInterface;
use emu8080::diag::DiagInterface;
use emu8080::emulate::emulate;
use emu8080::memory::Memory;
use emu8080::ops::{OpCode, Register};

fn make(mem: Vec<u8>) -> CPUInterface {
    CPUInterface {
        cpu: cpu::new(),
        memory: Memory::new(mem),
    }
}

fn run_pretty(state: &mut CPUInterface) {
    match emulate(state, &mut DiagInterface) {
        Ok(_) => (),
        Err(e) => {
            println!("{:?}", e);
        }
    }
}

fn test_add_register(reg: Register, code: OpCode) {
    let mem: Vec<u8> = vec![code.byte()];

    let reset = |mem: Vec<u8>| {
        let mut state = make(mem);
        state.cpu.a = 0;
        state.set_u8(reg, 1);
        state
    };

    let mut state = reset(mem.clone());
    run_pretty(&mut state);
    match reg {
        Register::A => assert_eq!(state.cpu.a, 2, "{:?}", reg),
        _ => assert_eq!(state.cpu.a, 1, "{:?}", reg),
    }

    let mut state = reset(mem.clone());
    state.cpu.a = 0;
    state.set_u8(reg, 0);

    run_pretty(&mut state);

    assert_eq!(state.cpu.a, 0);
    assert_eq!(state.cpu.cc.z, true);

    let mut state = reset(mem);

    state.cpu.a = 200;
    state.set_u8(reg, 200);
    run_pretty(&mut state);
    assert_eq!(state.cpu.a, 144);
    assert_eq!(state.cpu.cc.s, true);
    assert_eq!(state.cpu.cc.cy, true);
}

#[test]
fn mod_test_add() {
    test_add_register(Register::A, OpCode::ADD_A);
    test_add_register(Register::B, OpCode::ADD_B);
    test_add_register(Register::C, OpCode::ADD_C);
    test_add_register(Register::D, OpCode::ADD_D);
    test_add_register(Register::E, OpCode::ADD_E);
    test_add_register(Register::H, OpCode::ADD_H);
    test_add_register(Register::L, OpCode::ADD_L);
}

#[test]
fn emulator_test_add() {
    test_add_register(Register::A, OpCode::ADD_A);
    test_add_register(Register::B, OpCode::ADD_B);
    test_add_register(Register::C, OpCode::ADD_C);
    test_add_register(Register::D, OpCode::ADD_D);
    test_add_register(Register::E, OpCode::ADD_E);
    test_add_register(Register::H, OpCode::ADD_H);
    test_add_register(Register::L, OpCode::ADD_L);
}

#[test]
fn mod_test_add_memory() {
    let mut mem: Vec<u8> = vec![0x0; 512];
    mem.insert(0, OpCode::ADD_M.byte());
    mem.insert(259, 200);
    let mut state = make(mem);
    state.cpu.h = 1;
    state.cpu.l = 3;
    state.cpu.a = 2;

    run_pretty(&mut state);

    assert_eq!(state.cpu.a, 202);
}

#[test]
fn emulator_test_add_memory() {
    let mut mem: Vec<u8> = vec![0x0; 512];
    mem.insert(0, OpCode::ADD_M.byte());
    mem.insert(259, 200);
    let mut state = make(mem);
    state.cpu.h = 1;
    state.cpu.l = 3;
    state.cpu.a = 2;

    run_pretty(&mut state);

    assert_eq!(state.cpu.a, 202);
}

#[test]
fn test_jmp() {
    let mut mem: Vec<u8> = vec![0x0; 512];
    mem.insert(0, OpCode::JMP.byte());
    mem.insert(1, 3);
    mem.insert(2, 1);
    mem.insert(259, OpCode::ADI.byte());
    mem.insert(260, 200);

    let mut state = make(mem);

    run_pretty(&mut state);
    run_pretty(&mut state);
    assert_eq!(state.cpu.a, 200);
}

#[test]
fn mod_test_adi() {
    let mut mem: Vec<u8> = vec![128; 0x0];
    mem.insert(0, OpCode::ADI.byte());
    mem.insert(1, 2);
    let mut state = make(mem);
    state.cpu.a = 2;
    run_pretty(&mut state);
    assert_eq!(state.cpu.a, 4);
}

#[test]
fn emulator_test_adi() {
    let mut mem: Vec<u8> = vec![128; 0x0];
    mem.insert(0, OpCode::ADI.byte());
    mem.insert(1, 2);
    let mut state = make(mem);
    state.cpu.a = 2;
    run_pretty(&mut state);
    assert_eq!(state.cpu.a, 4);
}

#[test]
fn test_rom() {
    let mut rom = vec![OpCode::ADI.byte()];
    assert_eq!(rom.pop().unwrap(), OpCode::ADI.byte());

    let mut rom = vec![OpCode::ADI.byte(), OpCode::ADD_A.byte()];
    assert_eq!(rom.pop().unwrap(), OpCode::ADD_A.byte());
    assert_eq!(rom.pop().unwrap(), OpCode::ADI.byte());
}

#[test]
fn test_lxi() {
    let rom = vec![OpCode::LXI_SP.byte(), 1, 2];
    let mut state = make(rom);
    run_pretty(&mut state);
    assert_eq!(state.cpu.sp, 513);
}

#[test]
fn test_parity() {
    assert!(!cpu::parity(118));
    assert!(!cpu::parity(247));
}

#[test]
fn instructions_test_rlc() {
    let mut interface = make(vec![0x0, 0x0]);
    interface.cpu.a = 0x0F2;
    emu8080::instructions::rlc(&mut interface).unwrap();
    assert_eq!(interface.cpu.a, 0x0E5);
    assert_eq!(interface.cpu.cc.cy, true);
}

#[test]
fn instructions_test_ral() {
    let mut interface = make(vec![0x0, 0x0]);
    interface.cpu.a = 0x0B5;
    emu8080::instructions::ral(&mut interface).unwrap();
    assert_eq!(interface.cpu.a, 0x06a);
    assert_eq!(interface.cpu.cc.cy, true);
}
