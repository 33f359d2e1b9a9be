use emu8080::cpu;
use emu8080::cpu::CPUInterface;
use emu8080::instructions;
use emu8080::instructions::{BitOp, Cond};
use emu8080::memory::Memory;
use emu8080::ops::Register;

fn make(mem: Vec<u8>) -> CPUInterface {
    CPUInterface {
        cpu: cpu::new(),
        memory: Memory::new(mem),
    }
}

#[test]
fn sub_sets_borrow() {
    let mut state = make(vec![0; 2]);
    state.cpu.a = 5;
    state.cpu.b = 7;
    let cycles = instructions::sub(Register::B, &mut state).unwrap();
    assert_eq!(cycles, 4);
    assert_eq!(state.cpu.a, 254);
    assert!(state.cpu.cc.cy);
    assert!(state.cpu.cc.s);

    let mut state = make(vec![0; 2]);
    state.cpu.a = 7;
    state.cpu.b = 7;
    instructions::sub(Register::B, &mut state).unwrap();
    assert_eq!(state.cpu.a, 0);
    assert!(state.cpu.cc.z);
    assert!(!state.cpu.cc.cy);
}

#[test]
fn adc_and_sbb_use_previous_carry() {
    let mut state = make(vec![0; 2]);
    state.cpu.a = 10;
    state.cpu.c = 20;
    state.cpu.cc.cy = true;
    instructions::adc(Register::C, &mut state).unwrap();
    assert_eq!(state.cpu.a, 31);
    assert!(!state.cpu.cc.cy);

    let mut state = make(vec![0; 2]);
    state.cpu.a = 10;
    state.cpu.c = 4;
    state.cpu.cc.cy = true;
    instructions::sbb(Register::C, &mut state).unwrap();
    assert_eq!(state.cpu.a, 5);
    assert!(!state.cpu.cc.cy);
}

#[test]
fn immediate_arithmetic_carry_cases() {
    // ACI: 255 + 1 + carry(1) wraps with carry out.
    let mut state = make(vec![0x00, 0x01]);
    state.cpu.a = 255;
    state.cpu.cc.cy = true;
    instructions::aci(&mut state).unwrap();
    assert_eq!(state.cpu.a, 1);
    assert!(state.cpu.cc.cy);

    // SUI: 3 - 5 borrows.
    let mut state = make(vec![0x00, 0x05]);
    state.cpu.a = 3;
    instructions::sui(&mut state).unwrap();
    assert_eq!(state.cpu.a, 254);
    assert!(state.cpu.cc.cy);

    // SBI: 10 - 5 - carry(1).
    let mut state = make(vec![0x00, 0x05]);
    state.cpu.a = 10;
    state.cpu.cc.cy = true;
    instructions::sbi(&mut state).unwrap();
    assert_eq!(state.cpu.a, 4);
    assert!(!state.cpu.cc.cy);
}

#[test]
fn compare_writes_nothing_back() {
    let mut state = make(vec![0x00, 0x07]);
    state.cpu.a = 5;
    instructions::cpi(&mut state).unwrap();
    assert_eq!(state.cpu.a, 5);
    assert!(state.cpu.cc.cy);
    assert!(!state.cpu.cc.z);

    let mut state = make(vec![0; 2]);
    state.cpu.a = 9;
    state.cpu.e = 9;
    instructions::cmp(Register::E, &mut state).unwrap();
    assert_eq!(state.cpu.a, 9);
    assert!(state.cpu.cc.z);
    assert!(!state.cpu.cc.cy);
}

#[test]
fn logical_families_clear_carry() {
    let mut state = make(vec![0; 2]);
    state.cpu.a = 0b1100;
    state.cpu.b = 0b1010;
    state.cpu.cc.cy = true;
    instructions::log(Register::B, &mut state, 4, BitOp::And).unwrap();
    assert_eq!(state.cpu.a, 0b1000);
    assert!(!state.cpu.cc.cy);
    assert!(!state.cpu.cc.ac);

    let mut state = make(vec![0x00, 0b1010]);
    state.cpu.a = 0b1100;
    instructions::logi(&mut state, 7, BitOp::Xor).unwrap();
    assert_eq!(state.cpu.a, 0b0110);

    let mut state = make(vec![0x00, 0b1010]);
    state.cpu.a = 0b1100;
    instructions::ani(&mut state).unwrap();
    assert_eq!(state.cpu.a, 0b1000);
}

#[test]
fn increment_and_decrement_wrap() {
    let mut state = make(vec![0; 2]);
    state.cpu.d = 0xFF;
    instructions::inr(Register::D, &mut state).unwrap();
    assert_eq!(state.cpu.d, 0);
    assert!(state.cpu.cc.z);

    let mut state = make(vec![0; 2]);
    state.cpu.d = 0;
    instructions::dcr(Register::D, &mut state).unwrap();
    assert_eq!(state.cpu.d, 0xFF);
    assert!(state.cpu.cc.s);
}

#[test]
fn pair_increment_ripples() {
    let mut state = make(vec![0; 2]);
    state.cpu.b = 1;
    state.cpu.c = 0xFF;
    instructions::inx(Register::B, &mut state).unwrap();
    assert_eq!((state.cpu.b, state.cpu.c), (2, 0));

    let mut state = make(vec![0; 2]);
    state.cpu.h = 2;
    state.cpu.l = 0;
    instructions::dcx(Register::H, &mut state).unwrap();
    assert_eq!((state.cpu.h, state.cpu.l), (1, 0xFF));

    let mut state = make(vec![0; 2]);
    state.cpu.sp = 0xFFFF;
    instructions::inx(Register::SP, &mut state).unwrap();
    assert_eq!(state.cpu.sp, 0);
}

#[test]
fn dad_adds_pairs_with_carry_out() {
    let mut state = make(vec![0; 2]);
    state.cpu.h = 0xFF;
    state.cpu.l = 0xFF;
    state.cpu.b = 0x00;
    state.cpu.c = 0x01;
    let cycles = instructions::dad(Register::B, &mut state).unwrap();
    assert_eq!(cycles, 10);
    assert_eq!((state.cpu.h, state.cpu.l), (0, 0));
    assert!(state.cpu.cc.cy);

    // DAD H doubles HL.
    let mut state = make(vec![0; 2]);
    state.cpu.h = 0x12;
    state.cpu.l = 0x34;
    instructions::dad(Register::H, &mut state).unwrap();
    assert_eq!((state.cpu.h, state.cpu.l), (0x24, 0x68));
    assert!(!state.cpu.cc.cy);
}

#[test]
fn indirect_loads_and_stores() {
    let mut state = make(vec![0, 0, 0, 0, 42]);
    state.cpu.b = 0;
    state.cpu.c = 4;
    instructions::ldax(Register::B, &mut state).unwrap();
    assert_eq!(state.cpu.a, 42);

    let mut state = make(vec![0; 8]);
    state.cpu.a = 9;
    state.cpu.d = 0;
    state.cpu.e = 6;
    instructions::stax(Register::D, &mut state).unwrap();
    assert_eq!(state.memory.read(6).unwrap(), 9);
}

#[test]
fn direct_16bit_loads_and_stores() {
    // LHLD 0x0005: L from 5, H from 6.
    let mut state = make(vec![0x00, 0x05, 0x00, 0, 0, 0xAA, 0xBB]);
    instructions::lhld(&mut state).unwrap();
    assert_eq!((state.cpu.h, state.cpu.l), (0xBB, 0xAA));

    // SHLD 0x0005 stores L then H.
    let mut state = make(vec![0x00, 0x05, 0x00, 0, 0, 0, 0]);
    state.cpu.h = 0x12;
    state.cpu.l = 0x34;
    instructions::shld(&mut state).unwrap();
    assert_eq!(state.memory.read(5).unwrap(), 0x34);
    assert_eq!(state.memory.read(6).unwrap(), 0x12);
}

#[test]
fn exchange_instructions() {
    let mut state = make(vec![0; 2]);
    state.cpu.d = 1;
    state.cpu.e = 2;
    state.cpu.h = 3;
    state.cpu.l = 4;
    instructions::xchg(&mut state).unwrap();
    assert_eq!(
        (state.cpu.d, state.cpu.e, state.cpu.h, state.cpu.l),
        (3, 4, 1, 2)
    );

    let mut state = make(vec![0, 0, 0x55, 0x66]);
    state.cpu.sp = 2;
    state.cpu.h = 0x11;
    state.cpu.l = 0x22;
    instructions::xthl(&mut state).unwrap();
    assert_eq!((state.cpu.h, state.cpu.l), (0x66, 0x55));
    assert_eq!(state.memory.read(2).unwrap(), 0x22);
    assert_eq!(state.memory.read(3).unwrap(), 0x11);
}

#[test]
fn hl_into_counters() {
    let mut state = make(vec![0; 2]);
    state.cpu.h = 0x12;
    state.cpu.l = 0x34;
    instructions::sphl(&mut state).unwrap();
    assert_eq!(state.cpu.sp, 0x1234);

    let mut state = make(vec![0; 2]);
    state.cpu.h = 0x00;
    state.cpu.l = 0x01;
    instructions::pchl(&mut state).unwrap();
    assert_eq!(state.cpu.pc, 1);
}

#[test]
fn move_through_memory() {
    // MOV M,B writes B at the HL address.
    let mut state = make(vec![0; 8]);
    state.cpu.b = 77;
    state.cpu.h = 0;
    state.cpu.l = 5;
    let cycles = instructions::mov(Register::M, Register::B, &mut state).unwrap();
    assert_eq!(cycles, 7);
    assert_eq!(state.memory.read(5).unwrap(), 77);

    // MOV C,M reads it back.
    instructions::mov(Register::C, Register::M, &mut state).unwrap();
    assert_eq!(state.cpu.c, 77);

    // MVI M stores the immediate at HL.
    let mut state = make(vec![0x00, 0x09, 0, 0, 0, 0]);
    state.cpu.h = 0;
    state.cpu.l = 4;
    let cycles = instructions::mvi(Register::M, &mut state).unwrap();
    assert_eq!(cycles, 10);
    assert_eq!(state.memory.read(4).unwrap(), 0x09);
}

#[test]
fn stack_round_trip_bc() {
    let mut state = make(vec![0; 16]);
    state.cpu.sp = 8;
    state.cpu.b = 0xDE;
    state.cpu.c = 0xAD;
    instructions::push(Register::B, &mut state).unwrap();
    assert_eq!(state.cpu.sp, 6);
    assert_eq!(state.memory.read(6).unwrap(), 0xAD);
    assert_eq!(state.memory.read(7).unwrap(), 0xDE);
    state.cpu.b = 0;
    state.cpu.c = 0;
    instructions::pop(Register::B, &mut state).unwrap();
    assert_eq!((state.cpu.b, state.cpu.c), (0xDE, 0xAD));
    assert_eq!(state.cpu.sp, 8);
}

#[test]
fn conditional_return_not_taken_is_cheap() {
    let mut state = make(vec![0; 4]);
    state.cpu.cc.z = false;
    let cycles = instructions::ret_if(&mut state, Cond::Zero).unwrap();
    assert_eq!(cycles, 5);
    assert_eq!(state.cpu.pc, 1);

    let mut state = make(vec![0, 0, 0x34, 0x12]);
    state.cpu.sp = 2;
    state.cpu.cc.cy = true;
    let cycles = instructions::ret_if(&mut state, Cond::Carry).unwrap();
    assert_eq!(cycles, 11);
    assert_eq!(state.cpu.pc, 0x1234);
    assert_eq!(state.cpu.sp, 4);
}

#[test]
fn conditional_call_not_taken_skips_operands() {
    let mut state = make(vec![0; 8]);
    state.cpu.cc.s = false;
    let cycles = instructions::call_if(&mut state, Cond::Minus).unwrap();
    assert_eq!(cycles, 11);
    assert_eq!(state.cpu.pc, 3);
}

#[test]
fn carry_flag_instructions() {
    let mut state = make(vec![0; 2]);
    instructions::stc(&mut state).unwrap();
    assert!(state.cpu.cc.cy);

    let mut state = make(vec![0; 2]);
    state.cpu.cc.cy = true;
    instructions::cmc(&mut state).unwrap();
    assert!(!state.cpu.cc.cy);
    instructions::cmc(&mut state).unwrap();
    assert!(state.cpu.cc.cy);

    let mut state = make(vec![0; 4]);
    state.cpu.a = 0b1010_0101;
    instructions::cma(&mut state).unwrap();
    assert_eq!(state.cpu.a, 0b0101_1010);
}

#[test]
fn interrupt_enable_and_disable() {
    let mut state = make(vec![0; 4]);
    instructions::ei(&mut state).unwrap();
    assert_eq!(state.cpu.int_enable, 1);
    instructions::di(&mut state).unwrap();
    assert_eq!(state.cpu.int_enable, 0);
}
